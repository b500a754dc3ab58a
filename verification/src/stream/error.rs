//! Errors of the broker and the hub.

use vstd::prelude::*;

verus! {

#[derive(Debug, Clone, Copy, PartialEq, Eq, Structural)]
pub enum StreamError {
    /// The stream key has a publisher already.
    DuplicatePublish,
    /// The hub of the stream could not be reached.
    DisconnectHub,
    /// The stream key has no publisher.
    NoPublish,
    /// The hub's event channel is closed.
    HubClosed,
}

impl StreamError {
    /// The error in words.
    pub open spec fn text(self) -> Seq<char> {
        match self {
            StreamError::DuplicatePublish => "Stream has been published"@,
            StreamError::DisconnectHub => "Do not connect to hub"@,
            StreamError::NoPublish => "There was no publish"@,
            StreamError::HubClosed => "The hub had been closed"@,
        }
    }

    /// The error in words.
    pub fn message(&self) -> (r: &'static str)
        ensures
            r@ == self.text(),
    {
        match self {
            StreamError::DuplicatePublish => "Stream has been published",
            StreamError::DisconnectHub => "Do not connect to hub",
            StreamError::NoPublish => "There was no publish",
            StreamError::HubClosed => "The hub had been closed",
        }
    }
}

} // verus!
