//! The envelope in which requests and replies travel over the broker.
//!
//! A request arrives as a subject, a reply subject and a body. The subject
//! routes it to a handler. The handler publishes one reply on the reply
//! subject, and none where the reply subject is empty.

use vstd::prelude::*;
use vstd::string::StrSliceExecFns;
use vstd::string::StringExecFns;

verus! {

/// The operation by which the host delivers a broker message to a service.
pub const OP_DELIVER_MESSAGE: &'static str = "DeliverMessage";

/// A message as the broker delivers it.
#[derive(Debug, PartialEq)]
pub struct BrokerMessage {
    /// The subject that the message was published on.
    pub subject: String,
    /// The subject to reply on; empty where no reply is wanted.
    pub reply_to: String,
    /// The encoded record that the message carries.
    pub body: Vec<u8>,
}

/// A broker message as mathematical data.
pub struct BrokerMessageView {
    pub subject: Seq<char>,
    pub reply_to: Seq<char>,
    pub body: Seq<u8>,
}

impl View for BrokerMessage {
    type V = BrokerMessageView;

    open spec fn view(&self) -> BrokerMessageView {
        BrokerMessageView { subject: self.subject@, reply_to: self.reply_to@, body: self.body@ }
    }
}

/// A message to publish.
#[derive(Debug, PartialEq)]
pub struct Publication {
    pub subject: String,
    pub body: Vec<u8>,
}

/// A publication as mathematical data.
pub struct PublicationView {
    pub subject: Seq<char>,
    pub body: Seq<u8>,
}

impl View for Publication {
    type V = PublicationView;

    open spec fn view(&self) -> PublicationView {
        PublicationView { subject: self.subject@, body: self.body@ }
    }
}

/// The view of a publication that may be missing.
pub open spec fn publication_view(publication: Option<Publication>) -> Option<PublicationView> {
    match publication {
        Some(p) => Some(p@),
        None => None,
    }
}

/// The reply that a handler publishes: `body` on `reply_to`, and none where
/// `reply_to` is empty.
pub open spec fn reply_on(reply_to: Seq<char>, body: Seq<u8>) -> Option<PublicationView> {
    if reply_to.len() == 0 {
        None
    } else {
        Some(PublicationView { subject: reply_to, body: body })
    }
}

/// The subject to reply on, if a reply is wanted.
pub open spec fn reply_subject(reply_to: Seq<char>) -> Option<Seq<char>> {
    if reply_to.len() == 0 {
        None
    } else {
        Some(reply_to)
    }
}

/// The view of a subject that may be missing.
pub open spec fn subject_view(subject: Option<String>) -> Option<Seq<char>> {
    match subject {
        Some(s) => Some(s@),
        None => None,
    }
}

/// Tells whether a reply is wanted, and on which subject.
pub fn wanted_reply(reply_to: &str) -> (r: Option<String>)
    ensures
        subject_view(r) == reply_subject(reply_to@),
{
    if reply_to.unicode_len() == 0 {
        None
    } else {
        Some(String::from_str(reply_to))
    }
}

/// The publication that carries the encoded results of a request to the
/// subject that the request named for its reply: none where that subject is
/// empty.
pub fn publish_results(subject: &str, results: Vec<u8>) -> (r: Option<Publication>)
    ensures
        publication_view(r) == reply_on(subject@, results@),
{
    if subject.unicode_len() == 0 {
        None
    } else {
        Some(Publication { subject: String::from_str(subject), body: results })
    }
}

/// A call that the host is about to hand to a service.
#[derive(Debug, PartialEq)]
pub struct Invocation {
    /// Who makes the call.
    pub origin: String,
    /// The operation that is called.
    pub operation: String,
    /// The encoded argument.
    pub msg: Vec<u8>,
}

/// An invocation as mathematical data.
pub struct InvocationView {
    pub origin: Seq<char>,
    pub operation: Seq<char>,
    pub msg: Seq<u8>,
}

impl View for Invocation {
    type V = InvocationView;

    open spec fn view(&self) -> InvocationView {
        InvocationView { origin: self.origin@, operation: self.operation@, msg: self.msg@ }
    }
}

/// What a service answered to a call.
#[derive(Debug, PartialEq)]
pub struct InvocationResponse {
    /// The encoded answer.
    pub msg: Vec<u8>,
    /// The failure, where the call failed.
    pub error: Option<String>,
}

/// An invocation response as mathematical data.
pub struct InvocationResponseView {
    pub msg: Seq<u8>,
    pub error: Option<Seq<char>>,
}

impl View for InvocationResponse {
    type V = InvocationResponseView;

    open spec fn view(&self) -> InvocationResponseView {
        InvocationResponseView { msg: self.msg@, error: subject_view(self.error) }
    }
}

} // verus!
