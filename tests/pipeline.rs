use audio_gateway::{
    after_normalization, command_reply, eq_ignore_ascii_case, erase_scope, is_canonical_extension,
    matches_or_empty, needs_normalization, plan_matching, save_force, sniff_extension, str_eq,
    CatalogAction, CatalogEvent, CatalogStage, CatalogVisit, Command, Ingest, IngestAction,
    IngestEvent, IngestStage, LibraryEntry, LibraryReply, MatchPlan, ServerConfig,
    PREFLIGHT_MAX_AGE, STATUS_OK, STATUS_SERVER_ERROR, TARGET_CHANNELS,
};

fn field(name: Option<&str>, filename: Option<&str>) -> IngestEvent {
    IngestEvent::Field {
        name: name.map(String::from),
        filename: filename.map(String::from),
    }
}

fn written_bytes(chunks: &[&[u8]]) -> Vec<u8> {
    let mut ingest = Ingest::new();
    assert!(matches!(ingest.step(field(Some("file"), Some("clip.mp3"))), IngestAction::Continue));
    let mut out = Vec::new();
    for c in chunks {
        match ingest.step(IngestEvent::Chunk(c.to_vec())) {
            IngestAction::Write(w) => out.extend_from_slice(&w),
            _ => panic!("a chunk must be written"),
        }
    }
    out
}

#[test]
fn ingest_keeps_filename_of_file_field() {
    let mut ingest = Ingest::new();
    assert_eq!(ingest.filename, "");
    ingest.step(field(Some("other"), Some("other.mp3")));
    assert_eq!(ingest.filename, "");
    ingest.step(field(Some("file"), None));
    assert_eq!(ingest.filename, "");
    ingest.step(field(Some("file"), Some("track.WAV")));
    assert_eq!(ingest.filename, "track.WAV");
    ingest.step(field(None, Some("x.mp3")));
    assert_eq!(ingest.filename, "track.WAV");
    assert_eq!(ingest.stage, IngestStage::Receiving);
}

#[test]
fn ingest_writes_bytes_whatever_the_chunking() {
    let a = written_bytes(&[&[1, 2, 3], &[4, 5]]);
    let b = written_bytes(&[&[1], &[2, 3, 4], &[], &[5]]);
    assert_eq!(a, vec![1, 2, 3, 4, 5]);
    assert_eq!(a, b);
}

#[test]
fn ingest_flushes_then_proceeds() {
    let mut ingest = Ingest::new();
    assert!(ingest.accepts(&IngestEvent::BodyEnded));
    assert!(!ingest.accepts(&IngestEvent::Flushed));
    assert!(matches!(ingest.step(IngestEvent::BodyEnded), IngestAction::Flush));
    assert_eq!(ingest.stage, IngestStage::Flushing);
    assert!(!ingest.accepts(&IngestEvent::Chunk(vec![1])));
    assert!(matches!(ingest.step(IngestEvent::Flushed), IngestAction::Proceed));
    assert_eq!(ingest.stage, IngestStage::Ready);
    assert!(!ingest.accepts(&IngestEvent::BodyEnded));
}

#[test]
fn ingest_failure_aborts_with_server_error() {
    let mut ingest = Ingest::new();
    ingest.step(IngestEvent::Chunk(vec![9]));
    match ingest.step(IngestEvent::Failed(String::from("disk full"))) {
        IngestAction::Abort(reply) => {
            assert_eq!(reply.status, STATUS_SERVER_ERROR);
            assert_eq!(reply.text, "disk full");
        }
        _ => panic!("a failure must abort"),
    }
    assert_eq!(ingest.stage, IngestStage::Aborted);
}

#[test]
fn extension_is_sniffed_and_lowered() {
    assert_eq!(sniff_extension("song.WAV"), "wav");
    assert_eq!(sniff_extension("song.Mp3"), "mp3");
    assert_eq!(sniff_extension("dir/archive.tar.Wav"), "wav");
    assert_eq!(sniff_extension("noext"), "");
    assert_eq!(sniff_extension(""), "");
    assert_eq!(sniff_extension(".wav"), "");
}

#[test]
fn wav_uploads_skip_normalization() {
    assert!(!needs_normalization("clip.wav"));
    assert!(!needs_normalization("clip.WAV"));
    assert!(!needs_normalization("clip.WaV"));
    assert!(needs_normalization("clip.mp3"));
    assert!(needs_normalization("clip.wave"));
    assert!(needs_normalization("wav"));
    assert!(needs_normalization(""));
    assert!(is_canonical_extension("wav"));
    assert!(!is_canonical_extension("WAV"));
    assert!(!is_canonical_extension(""));
}

#[test]
fn plan_normalizes_only_non_wav() {
    match plan_matching("a.ogg", String::from("/tmp/up1")) {
        MatchPlan::Normalize { source, channels } => {
            assert_eq!(source, "/tmp/up1");
            assert_eq!(channels, TARGET_CHANNELS);
            assert_eq!(channels, 1);
        }
        _ => panic!("an ogg upload must be normalized"),
    }
    match plan_matching("", String::from("/tmp/up2")) {
        MatchPlan::Normalize { source, .. } => assert_eq!(source, "/tmp/up2"),
        _ => panic!("an upload without a filename must be normalized"),
    }
    match plan_matching("a.Wav", String::from("/tmp/up3")) {
        MatchPlan::Match(p) => assert_eq!(p, "/tmp/up3"),
        _ => panic!("a wav upload is matched as it is"),
    }
}

#[test]
fn normalization_failure_is_server_error() {
    assert_eq!(after_normalization(Ok(String::from("/tmp/a.wav"))).ok(), Some(String::from("/tmp/a.wav")));
    match after_normalization(Err(String::from("ffmpeg missing"))) {
        Err(reply) => {
            assert_eq!(reply.status, STATUS_SERVER_ERROR);
            assert_eq!(reply.text, "ffmpeg missing");
        }
        Ok(_) => panic!("a failed conversion must not proceed"),
    }
}

#[test]
fn matching_failure_yields_empty_matches() {
    let ok: Result<Vec<u32>, String> = Ok(vec![7, 3, 5]);
    assert_eq!(matches_or_empty(ok), vec![7, 3, 5]);
    let failed: Result<Vec<u32>, String> = Err(String::from("engine crashed"));
    assert!(matches_or_empty(failed).is_empty());
    let none: Result<Vec<u32>, String> = Ok(vec![]);
    assert!(matches_or_empty(none).is_empty());
}

#[test]
fn commands_acknowledge_or_fail() {
    let r = command_reply(Command::Download, Ok(()));
    assert_eq!((r.status, r.text.as_str()), (STATUS_OK, "Song download initiated"));
    let r = command_reply(Command::Save, Ok(()));
    assert_eq!((r.status, r.text.as_str()), (200, "Song saved successfully"));
    let r = command_reply(Command::Erase, Ok(()));
    assert_eq!((r.status, r.text.as_str()), (200, "Database erased successfully"));
    let r = command_reply(Command::Save, Err(String::from("duplicate song")));
    assert_eq!((r.status, r.text.as_str()), (500, "duplicate song"));
}

#[test]
fn erase_twice_succeeds_both_times() {
    assert_eq!(erase_scope(), "songs");
    let first = command_reply(Command::Erase, Ok(()));
    let second = command_reply(Command::Erase, Ok(()));
    assert_eq!(first.status, 200);
    assert_eq!(second.status, 200);
    assert_eq!(first.text, second.text);
}

#[test]
fn save_force_defaults_to_false() {
    assert!(!save_force(None));
    assert!(!save_force(Some(false)));
    assert!(save_force(Some(true)));
}

fn entry(id: u32) -> LibraryEntry {
    LibraryEntry {
        id,
        name: String::from("Song"),
        artist: String::from("Artist"),
        youtube_id: String::from("abc123"),
        thumbnail_url: None,
    }
}

#[test]
fn empty_catalog_lists_nothing() {
    let mut visit = CatalogVisit::new();
    assert!(matches!(visit.step(CatalogEvent::Opened), CatalogAction::List));
    assert!(matches!(visit.step(CatalogEvent::Listed(vec![])), CatalogAction::Close));
    match visit.step(CatalogEvent::Closed) {
        CatalogAction::Respond(reply) => {
            assert_eq!(reply.status(), 200);
            match reply {
                LibraryReply::Entries(v) => assert!(v.is_empty()),
                LibraryReply::Failure(_) => panic!("an empty catalog is no failure"),
            }
        }
        _ => panic!("closing ends the visit"),
    }
    assert_eq!(visit.stage, CatalogStage::Done);
}

#[test]
fn catalog_lists_entries_after_closing() {
    let mut visit = CatalogVisit::new();
    visit.step(CatalogEvent::Opened);
    visit.step(CatalogEvent::Listed(vec![entry(1), entry(2)]));
    assert!(!visit.accepts(&CatalogEvent::Opened));
    assert!(visit.accepts(&CatalogEvent::Closed));
    match visit.step(CatalogEvent::Closed) {
        CatalogAction::Respond(LibraryReply::Entries(v)) => {
            assert_eq!(v.len(), 2);
            assert_eq!(v[0].id, 1);
            assert_eq!(v[1].id, 2);
            assert_eq!(v[1].youtube_id, "abc123");
        }
        _ => panic!("entries expected"),
    }
}

#[test]
fn catalog_open_failure_is_reported() {
    let mut visit = CatalogVisit::new();
    match visit.step(CatalogEvent::OpenFailed(String::from("no such file"))) {
        CatalogAction::Respond(reply) => {
            assert_eq!(reply.status(), 500);
            match reply {
                LibraryReply::Failure(t) => {
                    assert_eq!(t, "Database error: Failed to create DB client: no such file")
                }
                LibraryReply::Entries(_) => panic!("failure expected"),
            }
        }
        _ => panic!("nothing to close"),
    }
}

#[test]
fn catalog_read_failure_closes_first() {
    let mut visit = CatalogVisit::new();
    visit.step(CatalogEvent::Opened);
    assert!(matches!(visit.step(CatalogEvent::ListFailed(String::from("locked"))), CatalogAction::Close));
    match visit.step(CatalogEvent::Closed) {
        CatalogAction::Respond(LibraryReply::Failure(t)) => {
            assert_eq!(t, "Database error: Failed to get songs: locked")
        }
        _ => panic!("failure expected"),
    }
}

fn standard() -> ServerConfig {
    ServerConfig::standard(
        String::from("127.0.0.1"),
        8080,
        String::from("https://frontend.example.app"),
    )
}

#[test]
fn standard_config_values() {
    let c = standard();
    assert_eq!(c.host, "127.0.0.1");
    assert_eq!(c.port, 8080);
    assert_eq!(c.origins.len(), 3);
    assert_eq!(c.methods, vec!["GET", "POST", "PUT", "DELETE"]);
    assert_eq!(c.headers, vec!["Content-Type", "Authorization"]);
    assert_eq!(c.max_age, PREFLIGHT_MAX_AGE);
    assert_eq!(c.max_age, 3600);
}

#[test]
fn preflight_from_listed_origin_is_admitted() {
    let c = standard();
    let headers = vec![String::from("Content-Type")];
    assert!(c.preflight_allowed("http://localhost:3000", "POST", &headers));
    assert!(c.preflight_allowed("http://127.0.0.1:3000", "GET", &vec![String::from("content-type")]));
    assert!(c.preflight_allowed("https://frontend.example.app", "DELETE", &vec![]));
    assert!(c.allows_origin("http://localhost:3000"));
}

#[test]
fn preflight_from_unlisted_origin_is_rejected() {
    let c = standard();
    let headers = vec![String::from("Content-Type")];
    assert!(!c.preflight_allowed("http://evil.example", "POST", &headers));
    assert!(!c.allows_origin("http://localhost:3001"));
    assert!(!c.preflight_allowed("http://localhost:3000", "PATCH", &headers));
    assert!(!c.preflight_allowed("http://localhost:3000", "POST", &vec![String::from("X-Token")]));
}

#[test]
fn text_equality() {
    assert!(str_eq("file", "file"));
    assert!(!str_eq("file", "File"));
    assert!(!str_eq("file", "files"));
    assert!(eq_ignore_ascii_case("Content-Type", "content-TYPE"));
    assert!(!eq_ignore_ascii_case("Content-Type", "Content-Typo"));
}

#[test]
fn policy_methods_and_headers() {
    let c = standard();
    assert!(c.allows_method("PUT"));
    assert!(!c.allows_method("put"));
    assert!(!c.allows_method("OPTIONS"));
    assert!(c.allows_header("authorization"));
    assert!(!c.allows_header("Accept"));
}

#[test]
fn reply_constructors() {
    let ok = audio_gateway::Reply::ok(String::from("fine"));
    assert_eq!((ok.status, ok.text.as_str()), (200, "fine"));
    let err = audio_gateway::Reply::server_error(String::from("broken"));
    assert_eq!((err.status, err.text.as_str()), (500, "broken"));
    assert_eq!(audio_gateway::acknowledgement(Command::Save), "Song saved successfully");
}

#[test]
fn ingest_writes_only_the_file_part() {
    let mut ingest = Ingest::new();
    assert!(matches!(ingest.step(IngestEvent::Chunk(vec![0])), IngestAction::Continue));
    ingest.step(field(Some("meta"), None));
    assert!(!ingest.in_file_part);
    assert!(matches!(ingest.step(IngestEvent::Chunk(vec![9, 9])), IngestAction::Continue));
    ingest.step(field(Some("file"), Some("a.mp3")));
    assert!(ingest.in_file_part);
    match ingest.step(IngestEvent::Chunk(vec![1, 2])) {
        IngestAction::Write(w) => assert_eq!(w, vec![1, 2]),
        _ => panic!("the file part is written"),
    }
    ingest.step(field(Some("other"), Some("b.wav")));
    assert!(matches!(ingest.step(IngestEvent::Chunk(vec![7])), IngestAction::Continue));
    assert_eq!(ingest.filename, "a.mp3");
}

#[test]
fn upload_without_file_part_is_normalized() {
    let mut ingest = Ingest::new();
    ingest.step(field(Some("audio"), Some("a.wav")));
    assert_eq!(ingest.filename, "");
    assert_eq!(sniff_extension(&ingest.filename), "");
    assert!(needs_normalization(&ingest.filename));
}
