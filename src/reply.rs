use vstd::prelude::*;

verus! {

pub const STATUS_OK: u16 = 200;

pub const STATUS_SERVER_ERROR: u16 = 500;

/// A plain-text response: a status code and its body.
pub struct Reply {
    pub status: u16,
    pub text: String,
}

impl Reply {
    /// A successful response carrying `text`.
    pub fn ok(text: String) -> (r: Reply)
        ensures
            r.status == STATUS_OK,
            r.text@ == text@,
    {
        Reply { status: STATUS_OK, text }
    }

    /// A server-error response carrying `text`.
    pub fn server_error(text: String) -> (r: Reply)
        ensures
            r.status == STATUS_SERVER_ERROR,
            r.text@ == text@,
    {
        Reply { status: STATUS_SERVER_ERROR, text }
    }
}

} // verus!
