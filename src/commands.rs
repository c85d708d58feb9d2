use vstd::prelude::*;
use crate::reply::{Reply, STATUS_OK, STATUS_SERVER_ERROR};

verus! {

/// A command forwarded to the acquisition service or the catalog store.
#[derive(PartialEq, Eq, Structural, Clone, Copy, Debug)]
pub enum Command {
    Download,
    Save,
    Erase,
}

/// The acknowledgement sent when a command succeeds.
pub open spec fn acknowledgement_of(c: Command) -> Seq<char> {
    match c {
        Command::Download => "Song download initiated"@,
        Command::Save => "Song saved successfully"@,
        Command::Erase => "Database erased successfully"@,
    }
}

/// The catalog scope that an erase targets.
pub open spec fn erase_scope_spec() -> Seq<char> {
    "songs"@
}

/// The acknowledgement sent when `c` succeeds.
pub fn acknowledgement(c: Command) -> (r: String)
    ensures
        r@ == acknowledgement_of(c),
{
    match c {
        Command::Download => String::from_str("Song download initiated"),
        Command::Save => String::from_str("Song saved successfully"),
        Command::Erase => String::from_str("Database erased successfully"),
    }
}

/// The catalog scope that an erase targets.
pub fn erase_scope() -> (r: String)
    ensures
        r@ == erase_scope_spec(),
{
    String::from_str("songs")
}

/// The overwrite flag of a save: `false` where the request gave none.
pub fn save_force(force: Option<bool>) -> (r: bool)
    ensures
        r == (force == Some(true)),
{
    match force {
        Some(f) => f,
        None => false,
    }
}

/// Maps a collaborator's outcome for `c` to a response: the fixed
/// acknowledgement on success, a server error with the message on failure.
pub fn command_reply(c: Command, outcome: Result<(), String>) -> (r: Reply)
    ensures
        outcome is Ok ==> r.status == STATUS_OK && r.text@ == acknowledgement_of(c),
        outcome matches Err(m) ==> r.status == STATUS_SERVER_ERROR && r.text@ == m@,
{
    match outcome {
        Ok(()) => Reply::ok(acknowledgement(c)),
        Err(m) => Reply::server_error(m),
    }
}

} // verus!
