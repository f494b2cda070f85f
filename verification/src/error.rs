//! The failures that end a session.

use vstd::prelude::*;

verus! {

/// Why a session could not be set up, or was abandoned.
///
/// Only the setup of a session can fail. Once frames are flowing, a frame that
/// cannot be read or decoded is dropped and the session goes on.
#[derive(Debug, PartialEq, Eq)]
pub enum FeedError {
    /// The feed address is not a URL. Carries the parser's reason.
    Configuration(String),
    /// The transport could not be opened. Carries the transport's reason.
    Connect(String),
    /// The subscription frame could not be written. Carries the transport's reason.
    Subscribe(String),
    /// The driver reported something that does not answer what it was asked to do.
    OutOfTurn,
}

/// A [`FeedError`] with its texts as sequences of characters.
pub enum FeedErrorView {
    Configuration(Seq<char>),
    Connect(Seq<char>),
    Subscribe(Seq<char>),
    OutOfTurn,
}

impl View for FeedError {
    type V = FeedErrorView;

    open spec fn view(&self) -> FeedErrorView {
        match *self {
            FeedError::Configuration(reason) => FeedErrorView::Configuration(reason@),
            FeedError::Connect(reason) => FeedErrorView::Connect(reason@),
            FeedError::Subscribe(reason) => FeedErrorView::Subscribe(reason@),
            FeedError::OutOfTurn => FeedErrorView::OutOfTurn,
        }
    }
}

} // verus!
