//! The kinds of failure that the services raise.

use vstd::prelude::*;

verus! {

/// Why a request was not served.
#[derive(Debug, PartialEq, Eq, Clone, Copy, Structural)]
pub enum ErrorKind {
    /// A message body could not be decoded.
    CodecError,
    /// No handler answers to the subject.
    UnknownSubject,
    /// A token could not be decoded, is badly signed, or has expired.
    InvalidToken,
    /// The key-value store or the blob store failed.
    StorageError,
    /// The actor is not in the catalog.
    NotRegistered,
    /// No blob is stored for a registered actor.
    NotFound,
    /// Publishing or subscribing failed.
    BrokerError,
}

impl ErrorKind {
    /// A line of text for a log or a terminal.
    pub fn message(&self) -> (r: &'static str)
        ensures
            r@ == self.message_text(),
    {
        match self {
            ErrorKind::CodecError => "Failed to de-serialize",
            ErrorKind::UnknownSubject => "Unknown request subject",
            ErrorKind::InvalidToken => "Token is malformed, badly signed or expired",
            ErrorKind::StorageError => "Storage operation failed",
            ErrorKind::NotRegistered => "Module is not registered in catalog",
            ErrorKind::NotFound => "There was no file found for this actor. Has it been uploaded?",
            ErrorKind::BrokerError => "Broker operation failed",
        }
    }

    /// The text of `message`.
    pub open spec fn message_text(&self) -> Seq<char> {
        match self {
            ErrorKind::CodecError => "Failed to de-serialize"@,
            ErrorKind::UnknownSubject => "Unknown request subject"@,
            ErrorKind::InvalidToken => "Token is malformed, badly signed or expired"@,
            ErrorKind::StorageError => "Storage operation failed"@,
            ErrorKind::NotRegistered => "Module is not registered in catalog"@,
            ErrorKind::NotFound => "There was no file found for this actor. Has it been uploaded?"@,
            ErrorKind::BrokerError => "Broker operation failed"@,
        }
    }
}

} // verus!
