use vstd::prelude::*;
use crate::reply::{STATUS_OK, STATUS_SERVER_ERROR};

verus! {

/// One catalog entry as clients see it.
pub struct LibraryEntry {
    pub id: u32,
    pub name: String,
    pub artist: String,
    pub youtube_id: String,
    pub thumbnail_url: Option<String>,
}

/// The answer to a catalog listing.
pub enum LibraryReply {
    /// Every entry of the catalog.
    Entries(Vec<LibraryEntry>),
    /// The store's error, described.
    Failure(String),
}

impl LibraryReply {
    pub open spec fn status_spec(&self) -> u16 {
        match self {
            LibraryReply::Entries(_) => STATUS_OK,
            LibraryReply::Failure(_) => STATUS_SERVER_ERROR,
        }
    }

    /// The status code of this answer.
    pub fn status(&self) -> (r: u16)
        ensures
            r == self.status_spec(),
    {
        match self {
            LibraryReply::Entries(_) => STATUS_OK,
            LibraryReply::Failure(_) => STATUS_SERVER_ERROR,
        }
    }
}

/// Where a catalog listing stands.
#[derive(PartialEq, Eq, Structural, Clone, Copy, Debug)]
pub enum CatalogStage {
    Opening,
    Reading,
    Closing,
    Done,
}

/// What the network layer observed of the catalog store.
pub enum CatalogEvent {
    Opened,
    OpenFailed(String),
    Listed(Vec<LibraryEntry>),
    ListFailed(String),
    Closed,
}

/// What the network layer is to do next with the catalog store.
pub enum CatalogAction {
    /// Read every entry over the open connection.
    List,
    /// Close the connection.
    Close,
    /// Answer the request.
    Respond(LibraryReply),
}

pub open spec fn open_failure_text(e: Seq<char>) -> Seq<char> {
    "Database error: "@ + "Failed to create DB client: "@ + e
}

pub open spec fn list_failure_text(e: Seq<char>) -> Seq<char> {
    "Database error: "@ + "Failed to get songs: "@ + e
}

/// One listing of the catalog over a connection of its own, which is closed
/// before the answer whether the read succeeded or failed.
pub struct CatalogVisit {
    pub stage: CatalogStage,
    /// The answer decided once the read is over.
    pub outcome: Option<LibraryReply>,
    pub opened: Ghost<bool>,
    pub closed: Ghost<bool>,
}

impl CatalogVisit {
    /// Whether `event` may arrive at this stage.
    pub open spec fn accepts_spec(&self, event: CatalogEvent) -> bool {
        match self.stage {
            CatalogStage::Opening => event is Opened || event is OpenFailed,
            CatalogStage::Reading => event is Listed || event is ListFailed,
            CatalogStage::Closing => event is Closed && self.outcome is Some,
            CatalogStage::Done => false,
        }
    }

    /// A connection left open is one that was opened and not yet closed.
    pub open spec fn wf(&self) -> bool {
        &&& (self.stage == CatalogStage::Opening) ==> !self.opened@ && !self.closed@ && self.outcome is None
        &&& (self.stage == CatalogStage::Reading) ==> self.outcome is None
        &&& (self.stage == CatalogStage::Reading || self.stage == CatalogStage::Closing)
            ==> self.opened@ && !self.closed@
        &&& (self.stage == CatalogStage::Closing) ==> self.outcome is Some
        &&& (self.stage == CatalogStage::Done && self.opened@) ==> self.closed@
    }

    /// A listing that has not opened its connection yet.
    pub fn new() -> (r: CatalogVisit)
        ensures
            r.stage == CatalogStage::Opening,
            r.wf(),
    {
        CatalogVisit {
            stage: CatalogStage::Opening,
            outcome: None,
            opened: Ghost(false),
            closed: Ghost(false),
        }
    }

    /// Whether `event` may arrive at this stage.
    pub fn accepts(&self, event: &CatalogEvent) -> (r: bool)
        ensures
            r == self.accepts_spec(*event),
    {
        match self.stage {
            CatalogStage::Opening => matches!(event, CatalogEvent::Opened | CatalogEvent::OpenFailed(_)),
            CatalogStage::Reading => matches!(event, CatalogEvent::Listed(_) | CatalogEvent::ListFailed(_)),
            CatalogStage::Closing => matches!(event, CatalogEvent::Closed) && self.outcome.is_some(),
            CatalogStage::Done => false,
        }
    }

    /// Takes one event and says what to do next. An answer is given only once
    /// any connection that was opened has been closed.
    pub fn step(&mut self, event: CatalogEvent) -> (r: CatalogAction)
        requires
            old(self).wf(),
            old(self).accepts_spec(event),
        ensures
            final(self).wf(),
            r is Respond ==> final(self).stage == CatalogStage::Done,
            r is Respond && final(self).opened@ ==> final(self).closed@,
            match event {
                CatalogEvent::Opened => r is List && final(self).stage == CatalogStage::Reading
                    && final(self).outcome is None,
                CatalogEvent::OpenFailed(e) => final(self).stage == CatalogStage::Done && (r matches CatalogAction::Respond(LibraryReply::Failure(t))
                    && t@ == open_failure_text(e@)),
                CatalogEvent::Listed(v) => r is Close && final(self).stage == CatalogStage::Closing && (final(self).outcome matches Some(
                    LibraryReply::Entries(w),
                ) && w@ == v@),
                CatalogEvent::ListFailed(e) => r is Close && final(self).stage == CatalogStage::Closing && (final(self).outcome matches Some(
                    LibraryReply::Failure(t),
                ) && t@ == list_failure_text(e@)),
                CatalogEvent::Closed => final(self).stage == CatalogStage::Done && (old(self).outcome matches Some(o) && r matches CatalogAction::Respond(a)
                    && a == o),
            },
    {
        match event {
            CatalogEvent::Opened => {
                self.stage = CatalogStage::Reading;
                self.opened = Ghost(true);
                CatalogAction::List
            },
            CatalogEvent::OpenFailed(e) => {
                self.stage = CatalogStage::Done;
                let t = String::from_str("Database error: ").concat("Failed to create DB client: ").concat(e.as_str());
                CatalogAction::Respond(LibraryReply::Failure(t))
            },
            CatalogEvent::Listed(v) => {
                self.stage = CatalogStage::Closing;
                self.outcome = Some(LibraryReply::Entries(v));
                CatalogAction::Close
            },
            CatalogEvent::ListFailed(e) => {
                self.stage = CatalogStage::Closing;
                let t = String::from_str("Database error: ").concat("Failed to get songs: ").concat(e.as_str());
                self.outcome = Some(LibraryReply::Failure(t));
                CatalogAction::Close
            },
            CatalogEvent::Closed => {
                self.stage = CatalogStage::Done;
                self.closed = Ghost(true);
                let o = self.outcome.take();
                match o {
                    Some(a) => CatalogAction::Respond(a),
                    None => CatalogAction::Close,
                }
            },
        }
    }
}

} // verus!
