use vstd::prelude::*;
use crate::reply::{Reply, STATUS_SERVER_ERROR};
use crate::text::{sniff_extension, sniffed_extension, str_eq};

verus! {

/// The channel count that the format normalizer is asked for.
pub const TARGET_CHANNELS: u32 = 1;

/// The extension of audio already in canonical form.
pub open spec fn canonical_extension() -> Seq<char> {
    "wav"@
}

/// Whether an upload named `filename` must go through the format normalizer.
pub open spec fn must_normalize(filename: Seq<char>) -> bool {
    sniffed_extension(filename) != canonical_extension()
}

/// What to do with a complete upload before matching.
pub enum MatchPlan {
    /// Normalize the resource at `source` to `channels` channels, then match
    /// the result.
    Normalize { source: String, channels: u32 },
    /// Match the resource at this path as it is.
    Match(String),
}

/// Whether a sniffed, lower-cased extension names canonical audio.
pub fn is_canonical_extension(ext: &str) -> (r: bool)
    ensures
        r == (ext@ == canonical_extension()),
{
    str_eq(ext, "wav")
}

/// Whether an upload named `filename` must go through the format normalizer:
/// exactly when its lower-cased extension is not `wav`, a missing extension
/// included.
pub fn needs_normalization(filename: &str) -> (r: bool)
    ensures
        r == must_normalize(filename@),
        (forall|i: int| 0 <= i < filename@.len() ==> filename@[i] != '.') ==> r,
{
    let ext = sniff_extension(filename);
    proof {
        reveal_strlit("wav");
    }
    !is_canonical_extension(ext.as_str())
}

/// Chooses between normalizing the upload stored at `path` and matching it as
/// it is; the normalizer is planned exactly when the name calls for it.
pub fn plan_matching(filename: &str, path: String) -> (p: MatchPlan)
    ensures
        must_normalize(filename@) ==> (p matches MatchPlan::Normalize { source, channels }
            && source@ == path@ && channels == TARGET_CHANNELS),
        !must_normalize(filename@) ==> (p matches MatchPlan::Match(m) && m@ == path@),
{
    if needs_normalization(filename) {
        MatchPlan::Normalize { source: path, channels: TARGET_CHANNELS }
    } else {
        MatchPlan::Match(path)
    }
}

/// Takes the normalizer's outcome: the path of the converted audio, or a
/// server-error response carrying the normalizer's message.
pub fn after_normalization(outcome: Result<String, String>) -> (r: Result<String, Reply>)
    ensures
        outcome matches Ok(p) ==> (r matches Ok(q) && q@ == p@),
        outcome matches Err(m) ==> (r matches Err(reply) && reply.status == STATUS_SERVER_ERROR
            && reply.text@ == m@),
{
    match outcome {
        Ok(p) => Ok(p),
        Err(m) => Err(Reply::server_error(m)),
    }
}

/// Absorbs a failure of the matching engine: its matches where it ran, and no
/// match at all where it failed, so that a request never fails on it.
pub fn matches_or_empty<M, E>(outcome: Result<Vec<M>, E>) -> (r: Vec<M>)
    ensures
        outcome matches Ok(v) ==> r@ == v@,
        outcome is Err ==> r@.len() == 0,
{
    match outcome {
        Ok(v) => v,
        Err(_) => Vec::new(),
    }
}

} // verus!
