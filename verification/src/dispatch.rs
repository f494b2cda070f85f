//! What becomes of one inbound frame.
//!
//! The feed is read one frame at a time. A text frame is decoded as JSON and
//! delivered; everything else is passed over, and only the end of the stream
//! stops the reading. No frame, however broken, ends it.

use serde_json::Value;
use vstd::prelude::*;

verus! {

#[verifier::external_type_specification]
#[verifier::external_body]
pub struct ExValue(serde_json::Value);

/// A JSON document as text: what `serde_json::Value` prints in compact form.
pub uninterp spec fn json_text(document: serde_json::Value) -> Seq<char>;

/// What `serde_json::from_str` makes of a text when asked for a
/// `serde_json::Value`: the document it read, as compact text, or the message
/// of the `serde_json::Error` it stopped with.
pub uninterp spec fn json_decoded(text: Seq<char>) -> Result<Seq<char>, Seq<char>>;

/// Decodes `text` with `serde_json::from_str::<serde_json::Value>`.
///
/// Trusted: the answer depends on the text alone. A document that comes back is
/// the one `json_decoded(text)` names; a failure comes back as the error's
/// message, and is the one `json_decoded(text)` names.
#[verifier::external_body]
fn decode(text: &str) -> (decoded: Result<Value, String>)
    ensures
        match decoded {
            Ok(document) => json_decoded(text@) == Ok::<Seq<char>, Seq<char>>(json_text(document)),
            Err(reason) => json_decoded(text@) == Err::<Seq<char>, Seq<char>>(reason@),
        },
{
    match serde_json::from_str::<Value>(text) {
        Ok(document) => Ok(document),
        Err(e) => Err(e.to_string()),
    }
}

/// What one read of the stream gave.
#[derive(Debug, PartialEq, Eq)]
pub enum Inbound {
    /// A text frame, with its payload.
    Text(String),
    /// A frame of any other kind: binary, ping, pong, close.
    NonText,
    /// The read failed. Carries the transport's reason.
    Failed(String),
    /// The stream has ended.
    Closed,
}

/// What to do about one read of the stream.
#[derive(Debug, PartialEq)]
pub enum Dispatch {
    /// Hand this document to the tick callback, then read on.
    Deliver(Value),
    /// The frame was not JSON: report the decoder's reason, then read on.
    Undecodable(String),
    /// Nothing to do: read on.
    Ignore,
    /// Report the failed read, then read on.
    ReadFailed(String),
    /// Stop reading: the stream has ended.
    Stop,
}

/// An [`Inbound`] with its texts as sequences of characters.
pub enum InboundView {
    Text(Seq<char>),
    NonText,
    Failed(Seq<char>),
    Closed,
}

/// A [`Dispatch`] with its texts as sequences of characters, and the document
/// as its compact text.
pub enum DispatchView {
    Deliver(Seq<char>),
    Undecodable(Seq<char>),
    Ignore,
    ReadFailed(Seq<char>),
    Stop,
}

impl View for Inbound {
    type V = InboundView;

    open spec fn view(&self) -> InboundView {
        match *self {
            Inbound::Text(payload) => InboundView::Text(payload@),
            Inbound::NonText => InboundView::NonText,
            Inbound::Failed(reason) => InboundView::Failed(reason@),
            Inbound::Closed => InboundView::Closed,
        }
    }
}

impl View for Dispatch {
    type V = DispatchView;

    open spec fn view(&self) -> DispatchView {
        match *self {
            Dispatch::Deliver(document) => DispatchView::Deliver(json_text(document)),
            Dispatch::Undecodable(reason) => DispatchView::Undecodable(reason@),
            Dispatch::Ignore => DispatchView::Ignore,
            Dispatch::ReadFailed(reason) => DispatchView::ReadFailed(reason@),
            Dispatch::Stop => DispatchView::Stop,
        }
    }
}

/// What to do about a text frame, given what the decoder made of it.
pub open spec fn text_dispatched(decoded: Result<Seq<char>, Seq<char>>) -> DispatchView {
    match decoded {
        Ok(document) => DispatchView::Deliver(document),
        Err(reason) => DispatchView::Undecodable(reason),
    }
}

/// What to do about one read of the stream.
///
/// A text frame is delivered if it decodes and reported if it does not; a frame
/// of another kind is ignored; a failed read is reported; the end of the stream
/// stops the reading, and nothing else does.
pub open spec fn dispatched(inbound: InboundView) -> DispatchView {
    match inbound {
        InboundView::Text(payload) => text_dispatched(json_decoded(payload)),
        InboundView::NonText => DispatchView::Ignore,
        InboundView::Failed(reason) => DispatchView::ReadFailed(reason),
        InboundView::Closed => DispatchView::Stop,
    }
}

/// Decides about a text frame that has been through the decoder: the document
/// is delivered as it is, a failure is reported with its reason.
pub fn dispatch_decoded(decoded: Result<Value, String>) -> (decision: Dispatch)
    ensures
        match decoded {
            Ok(document) => decision == Dispatch::Deliver(document),
            Err(reason) => decision@ == DispatchView::Undecodable(reason@),
        },
{
    match decoded {
        Ok(document) => Dispatch::Deliver(document),
        Err(reason) => Dispatch::Undecodable(reason),
    }
}

/// Decides about one read of the stream.
pub fn dispatch(inbound: Inbound) -> (decision: Dispatch)
    ensures
        decision@ == dispatched(inbound@),
{
    match inbound {
        Inbound::Text(payload) => dispatch_decoded(decode(payload.as_str())),
        Inbound::NonText => Dispatch::Ignore,
        Inbound::Failed(reason) => Dispatch::ReadFailed(reason),
        Inbound::Closed => Dispatch::Stop,
    }
}

} // verus!
