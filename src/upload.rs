use vstd::prelude::*;
use crate::reply::{Reply, STATUS_SERVER_ERROR};
use crate::text::str_eq;

verus! {

/// Where an upload stands.
#[derive(PartialEq, Eq, Structural, Clone, Copy, Debug)]
pub enum IngestStage {
    Receiving,
    Flushing,
    Ready,
    Aborted,
}

/// What the network layer observed while receiving a multipart body.
pub enum IngestEvent {
    /// A new part began; its name and client filename, where given.
    Field { name: Option<String>, filename: Option<String> },
    /// A chunk of the current part arrived.
    Chunk(Vec<u8>),
    /// The body has no more parts.
    BodyEnded,
    /// The temporary resource was flushed.
    Flushed,
    /// Receiving, writing or flushing failed with this message.
    Failed(String),
}

/// What the network layer is to do next.
pub enum IngestAction {
    /// Await the next event.
    Continue,
    /// Append these bytes to the temporary resource.
    Write(Vec<u8>),
    /// Flush the temporary resource.
    Flush,
    /// The resource is complete and may be handed to the next stage.
    Proceed,
    /// Discard the resource and answer with this response.
    Abort(Reply),
}

/// The name of the part whose client filename is kept.
pub open spec fn file_field() -> Seq<char> {
    "file"@
}

/// The bytes written by a run of chunks, starting from `written`.
pub open spec fn after_chunks(written: Seq<u8>, chunks: Seq<Seq<u8>>) -> Seq<u8>
    decreases chunks.len(),
{
    if chunks.len() == 0 {
        written
    } else {
        after_chunks(written + chunks[0], chunks.drop_first())
    }
}

/// All chunks of a run, joined in order.
pub open spec fn joined(chunks: Seq<Seq<u8>>) -> Seq<u8>
    decreases chunks.len(),
{
    if chunks.len() == 0 {
        Seq::empty()
    } else {
        chunks[0] + joined(chunks.drop_first())
    }
}

/// The bytes written by a run of chunks are those already written followed by
/// all the chunks joined.
pub proof fn lemma_after_chunks_appends(written: Seq<u8>, chunks: Seq<Seq<u8>>)
    ensures
        after_chunks(written, chunks) == written + joined(chunks),
    decreases chunks.len(),
{
    if chunks.len() > 0 {
        lemma_after_chunks_appends(written + chunks[0], chunks.drop_first());
        assert(written + chunks[0] + joined(chunks.drop_first()) =~= written + (chunks[0]
            + joined(chunks.drop_first())));
    } else {
        assert(written + Seq::<u8>::empty() =~= written);
    }
}

/// One more chunk appends its bytes to what a run of chunks wrote: a run of
/// steps that each append their chunk has written `after_chunks` of the run.
pub proof fn lemma_after_chunks_push(written: Seq<u8>, chunks: Seq<Seq<u8>>, c: Seq<u8>)
    ensures
        after_chunks(written, chunks.push(c)) == after_chunks(written, chunks) + c,
{
    lemma_after_chunks_appends(written, chunks.push(c));
    lemma_after_chunks_appends(written, chunks);
    lemma_joined_push(chunks, c);
    assert(written + (joined(chunks) + c) =~= written + joined(chunks) + c);
}

/// Joining a run with one more chunk appends that chunk.
pub proof fn lemma_joined_push(chunks: Seq<Seq<u8>>, c: Seq<u8>)
    ensures
        joined(chunks.push(c)) == joined(chunks) + c,
    decreases chunks.len(),
{
    if chunks.len() == 0 {
        assert(chunks.push(c)[0] == c);
        assert(chunks.push(c).drop_first() =~= Seq::<Seq<u8>>::empty());
        assert(joined(chunks.push(c).drop_first()) == Seq::<u8>::empty());
        assert(joined(chunks) == Seq::<u8>::empty());
        assert(c + Seq::<u8>::empty() =~= c);
        assert(Seq::<u8>::empty() + c =~= c);
    } else {
        assert(chunks.push(c)[0] == chunks[0]);
        assert(chunks.push(c).drop_first() =~= chunks.drop_first().push(c));
        lemma_joined_push(chunks.drop_first(), c);
        assert(chunks[0] + (joined(chunks.drop_first()) + c) =~= (chunks[0] + joined(
            chunks.drop_first(),
        )) + c);
    }
}

/// An upload writes the submitted bytes exactly, however the transport cut
/// them into chunks: two runs of chunks that join to the same bytes leave the
/// same content.
pub proof fn lemma_chunking_irrelevant(a: Seq<Seq<u8>>, b: Seq<Seq<u8>>)
    requires
        joined(a) == joined(b),
    ensures
        after_chunks(Seq::empty(), a) == after_chunks(Seq::empty(), b),
        after_chunks(Seq::empty(), a) == joined(a),
{
    lemma_after_chunks_appends(Seq::empty(), a);
    lemma_after_chunks_appends(Seq::empty(), b);
    assert(Seq::<u8>::empty() + joined(a) =~= joined(a));
    assert(Seq::<u8>::empty() + joined(b) =~= joined(b));
}

/// The receiving side of one upload: the client filename of the part named
/// `file`, whether the part being received is that one, and the bytes written
/// to the temporary resource so far. Only the `file` part is written.
pub struct Ingest {
    pub stage: IngestStage,
    pub filename: String,
    pub in_file_part: bool,
    pub written: Ghost<Seq<u8>>,
}

impl Ingest {
    /// Whether `event` may arrive at this stage.
    pub open spec fn accepts_spec(&self, event: IngestEvent) -> bool {
        match self.stage {
            IngestStage::Receiving => !(event is Flushed),
            IngestStage::Flushing => event is Flushed || event is Failed,
            _ => false,
        }
    }

    /// A fresh upload: no filename, no part begun, nothing written.
    pub fn new() -> (r: Ingest)
        ensures
            r.stage == IngestStage::Receiving,
            r.filename@ == Seq::<char>::empty(),
            !r.in_file_part,
            r.written@ == Seq::<u8>::empty(),
    {
        Ingest {
            stage: IngestStage::Receiving,
            filename: String::new(),
            in_file_part: false,
            written: Ghost(Seq::empty()),
        }
    }

    /// Whether `event` may arrive at this stage.
    pub fn accepts(&self, event: &IngestEvent) -> (r: bool)
        ensures
            r == self.accepts_spec(*event),
    {
        match self.stage {
            IngestStage::Receiving => !matches!(event, IngestEvent::Flushed),
            IngestStage::Flushing => matches!(event, IngestEvent::Flushed | IngestEvent::Failed(_)),
            _ => false,
        }
    }

    /// Takes one event and says what to do next.
    pub fn step(&mut self, event: IngestEvent) -> (r: IngestAction)
        requires
            old(self).accepts_spec(event),
        ensures
            match event {
                IngestEvent::Field { name, filename } => {
                    &&& r is Continue
                    &&& final(self).stage == old(self).stage
                    &&& final(self).written@ == old(self).written@
                    &&& final(self).in_file_part == (name matches Some(n) && n@ == file_field())
                    &&& final(self).filename@ == (match (name, filename) {
                        (Some(n), Some(f)) => if n@ == file_field() {
                            f@
                        } else {
                            old(self).filename@
                        },
                        _ => old(self).filename@,
                    })
                },
                IngestEvent::Chunk(c) => {
                    &&& old(self).in_file_part ==> (r matches IngestAction::Write(w) && w@ == c@)
                    &&& old(self).in_file_part ==> final(self).written@ == old(self).written@ + c@
                    &&& !old(self).in_file_part ==> r is Continue
                    &&& !old(self).in_file_part ==> final(self).written@ == old(self).written@
                    &&& final(self).stage == old(self).stage
                    &&& final(self).in_file_part == old(self).in_file_part
                    &&& final(self).filename@ == old(self).filename@
                },
                IngestEvent::BodyEnded => {
                    &&& r is Flush
                    &&& final(self).stage == IngestStage::Flushing
                    &&& final(self).written@ == old(self).written@
                    &&& final(self).filename@ == old(self).filename@
                },
                IngestEvent::Flushed => {
                    &&& r is Proceed
                    &&& final(self).stage == IngestStage::Ready
                    &&& final(self).written@ == old(self).written@
                    &&& final(self).filename@ == old(self).filename@
                },
                IngestEvent::Failed(m) => {
                    &&& r matches IngestAction::Abort(reply) && reply.status == STATUS_SERVER_ERROR
                        && reply.text@ == m@
                    &&& final(self).stage == IngestStage::Aborted
                    &&& final(self).filename@ == old(self).filename@
                },
            },
    {
        match event {
            IngestEvent::Field { name, filename } => {
                let is_file = match &name {
                    Some(n) => str_eq(n.as_str(), "file"),
                    None => false,
                };
                self.in_file_part = is_file;
                if is_file {
                    if let Some(f) = filename {
                        self.filename = f;
                    }
                }
                IngestAction::Continue
            },
            IngestEvent::Chunk(c) => {
                if self.in_file_part {
                    self.written = Ghost(self.written@ + c@);
                    IngestAction::Write(c)
                } else {
                    IngestAction::Continue
                }
            },
            IngestEvent::BodyEnded => {
                self.stage = IngestStage::Flushing;
                IngestAction::Flush
            },
            IngestEvent::Flushed => {
                self.stage = IngestStage::Ready;
                IngestAction::Proceed
            },
            IngestEvent::Failed(m) => {
                self.stage = IngestStage::Aborted;
                IngestAction::Abort(Reply::server_error(m))
            },
        }
    }
}

} // verus!
