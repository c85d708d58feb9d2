//! Request ingestion and dispatch logic of an audio-identification service.
//!
//! The network layer drives the state machines and pure functions of this
//! crate: it performs the I/O and the collaborator calls that an action names,
//! and hands back what came of them as an event.
mod catalog;
mod commands;
mod config;
mod recognize;
mod reply;
mod text;
mod upload;

pub use catalog::{
    CatalogAction, CatalogEvent, CatalogStage, CatalogVisit, LibraryEntry, LibraryReply,
};
pub use commands::{acknowledgement, command_reply, erase_scope, save_force, Command};
pub use config::{lemma_unlisted_origin_rejected, ServerConfig, PREFLIGHT_MAX_AGE};
pub use recognize::{
    after_normalization, is_canonical_extension, matches_or_empty, needs_normalization,
    plan_matching, MatchPlan, TARGET_CHANNELS,
};
pub use reply::{Reply, STATUS_OK, STATUS_SERVER_ERROR};
pub use text::{eq_ignore_ascii_case, sniff_extension, str_eq};
pub use upload::{
    lemma_after_chunks_appends, lemma_after_chunks_push, lemma_chunking_irrelevant,
    lemma_joined_push, Ingest, IngestAction, IngestEvent,
    IngestStage,
};
