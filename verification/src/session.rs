//! One run of the pipeline, as a state machine.
//!
//! A session connects to the feed, subscribes to one ticker and then reads the
//! feed until it ends. The session itself touches no transport: a driver does
//! what the session asks, tells it what came of that, and is told what to do
//! next.
//!
//! ```text
//!   Connecting --Connected--> Subscribing --Sent--> Streaming --end of stream--> Closed
//!        |                         |
//!        +----ConnectFailed--------+----SendFailed----------------------------> Closed
//! ```

use crate::dispatch::{dispatch, dispatched, Dispatch, DispatchView, Inbound, InboundView};
use crate::endpoint::{url_parsed, FeedEndpoint};
use crate::error::{FeedError, FeedErrorView};
use crate::subscription::{subscribe_frame, subscribe_frame_text};
use vstd::prelude::*;

verus! {

/// How far a session has come.
#[derive(Debug, Clone, Copy, PartialEq, Eq, Structural)]
pub enum Phase {
    /// The driver is opening the transport to the session's address.
    Connecting,
    /// The transport is open and the driver is writing the subscription frame.
    Subscribing,
    /// The subscription is written and the driver is reading the feed.
    Streaming,
    /// The session is over: the feed has ended, or the session has failed.
    Closed,
}

/// What the driver reports to the session.
#[derive(Debug, PartialEq, Eq)]
pub enum Event {
    /// The transport is open.
    Connected,
    /// The transport could not be opened.
    ConnectFailed(String),
    /// The frame that the session asked for has been written.
    Sent,
    /// The frame could not be written.
    SendFailed(String),
    /// One read of the stream has returned.
    Polled(Inbound),
}

/// What the session asks of the driver.
#[derive(Debug, PartialEq)]
pub enum Action {
    /// Write this text frame, and report `Sent` or `SendFailed`.
    Send(String),
    /// Read the stream once, and report what came.
    Read,
    /// Act on this decision about the frame just read. Unless it is
    /// `Dispatch::Stop`, which ends the session, read the stream once more
    /// afterwards and report what came.
    Handle(Dispatch),
    /// Give up with this error. The session is over.
    Fail(FeedError),
}

/// An [`Event`] with its texts as sequences of characters.
pub enum EventView {
    Connected,
    ConnectFailed(Seq<char>),
    Sent,
    SendFailed(Seq<char>),
    Polled(InboundView),
}

/// An [`Action`] with its texts as sequences of characters.
pub enum ActionView {
    Send(Seq<char>),
    Read,
    Handle(DispatchView),
    Fail(FeedErrorView),
}

impl View for Event {
    type V = EventView;

    open spec fn view(&self) -> EventView {
        match *self {
            Event::Connected => EventView::Connected,
            Event::ConnectFailed(reason) => EventView::ConnectFailed(reason@),
            Event::Sent => EventView::Sent,
            Event::SendFailed(reason) => EventView::SendFailed(reason@),
            Event::Polled(inbound) => EventView::Polled(inbound@),
        }
    }
}

impl View for Action {
    type V = ActionView;

    open spec fn view(&self) -> ActionView {
        match *self {
            Action::Send(frame) => ActionView::Send(frame@),
            Action::Read => ActionView::Read,
            Action::Handle(decision) => ActionView::Handle(decision@),
            Action::Fail(error) => ActionView::Fail(error@),
        }
    }
}

/// Where a streaming session goes on a decision about a frame, and what it asks
/// for. The decision is passed on to the driver; only `Stop` closes the
/// session. In any other phase no frame was asked for.
pub open spec fn settled(phase: Phase, decision: DispatchView) -> (Phase, ActionView) {
    if phase == Phase::Streaming {
        (
            if decision is Stop {
                Phase::Closed
            } else {
                Phase::Streaming
            },
            ActionView::Handle(decision),
        )
    } else {
        (Phase::Closed, ActionView::Fail(FeedErrorView::OutOfTurn))
    }
}

/// Where a session for `ticker` goes on an event, and what it asks for.
///
/// An event that does not answer what the session last asked for closes it
/// with `OutOfTurn`; so does any event to a closed session.
pub open spec fn transition(phase: Phase, ticker: Seq<char>, event: EventView) -> (
    Phase,
    ActionView,
) {
    match event {
        EventView::Connected => if phase == Phase::Connecting {
            (Phase::Subscribing, ActionView::Send(subscribe_frame_text(ticker)))
        } else {
            (Phase::Closed, ActionView::Fail(FeedErrorView::OutOfTurn))
        },
        EventView::ConnectFailed(reason) => if phase == Phase::Connecting {
            (Phase::Closed, ActionView::Fail(FeedErrorView::Connect(reason)))
        } else {
            (Phase::Closed, ActionView::Fail(FeedErrorView::OutOfTurn))
        },
        EventView::Sent => if phase == Phase::Subscribing {
            (Phase::Streaming, ActionView::Read)
        } else {
            (Phase::Closed, ActionView::Fail(FeedErrorView::OutOfTurn))
        },
        EventView::SendFailed(reason) => if phase == Phase::Subscribing {
            (Phase::Closed, ActionView::Fail(FeedErrorView::Subscribe(reason)))
        } else {
            (Phase::Closed, ActionView::Fail(FeedErrorView::OutOfTurn))
        },
        EventView::Polled(inbound) => settled(phase, dispatched(inbound)),
    }
}

/// A session: its phase, the address it connects to and the ticker it
/// subscribes to. The address and the ticker never change.
#[derive(Debug, PartialEq, Eq)]
pub struct Session {
    phase: Phase,
    endpoint: FeedEndpoint,
    ticker: String,
}

/// A [`Session`] as plain values.
pub struct SessionView {
    pub phase: Phase,
    pub address: Seq<char>,
    pub ticker: Seq<char>,
}

impl View for Session {
    type V = SessionView;

    closed spec fn view(&self) -> SessionView {
        SessionView { phase: self.phase, address: self.endpoint@, ticker: self.ticker@ }
    }
}

impl Session {
    /// A session for `endpoint` and `ticker`, about to connect.
    pub fn new(endpoint: FeedEndpoint, ticker: &str) -> (session: Session)
        ensures
            session@ == (SessionView {
                phase: Phase::Connecting,
                address: endpoint@,
                ticker: ticker@,
            }),
    {
        Session { phase: Phase::Connecting, endpoint, ticker: ticker.to_owned() }
    }

    /// A session for the feed at `url` and for `ticker`, about to connect.
    ///
    /// Fails with a configuration error, before anything is connected, exactly
    /// when `url` is not a URL.
    pub fn open(url: &str, ticker: &str) -> (r: Result<Session, FeedError>)
        ensures
            match url_parsed(url@) {
                Ok(href) => r matches Ok(session) && session@ == (SessionView {
                    phase: Phase::Connecting,
                    address: href,
                    ticker: ticker@,
                }),
                Err(reason) => r matches Err(e) && e@ == FeedErrorView::Configuration(reason),
            },
    {
        match FeedEndpoint::parse(url) {
            Ok(endpoint) => Ok(Session::new(endpoint, ticker)),
            Err(e) => Err(e),
        }
    }

    /// How far the session has come.
    pub fn phase(&self) -> (phase: Phase)
        ensures
            phase == self@.phase,
    {
        self.phase
    }

    /// The address that the driver connects to.
    pub fn address(&self) -> (address: &str)
        ensures
            address@ == self@.address,
    {
        self.endpoint.as_str()
    }

    /// The ticker that the session subscribes to.
    pub fn ticker(&self) -> (ticker: &str)
        ensures
            ticker@ == self@.ticker,
    {
        self.ticker.as_str()
    }

    /// Takes a decision about the frame just read.
    ///
    /// While streaming, the decision is passed on and only `Stop` closes the
    /// session. In any other phase no frame was asked for: the session closes
    /// with `OutOfTurn`.
    pub fn settle(&mut self, decision: Dispatch) -> (action: Action)
        ensures
            (final(self)@.phase, action@) == settled(old(self)@.phase, decision@),
            old(self)@.phase == Phase::Streaming ==> action == Action::Handle(decision),
            final(self)@.address == old(self)@.address,
            final(self)@.ticker == old(self)@.ticker,
    {
        match self.phase {
            Phase::Streaming => {
                if let Dispatch::Stop = decision {
                    self.phase = Phase::Closed;
                }
                Action::Handle(decision)
            },
            _ => {
                self.phase = Phase::Closed;
                Action::Fail(FeedError::OutOfTurn)
            },
        }
    }

    /// Takes what the driver reports, and says what to do next.
    pub fn step(&mut self, event: Event) -> (action: Action)
        ensures
            (final(self)@.phase, action@) == transition(
                old(self)@.phase,
                old(self)@.ticker,
                event@,
            ),
            final(self)@.address == old(self)@.address,
            final(self)@.ticker == old(self)@.ticker,
    {
        match event {
            Event::Connected => match self.phase {
                Phase::Connecting => {
                    self.phase = Phase::Subscribing;
                    Action::Send(subscribe_frame(self.ticker.as_str()))
                },
                _ => self.out_of_turn(),
            },
            Event::ConnectFailed(reason) => match self.phase {
                Phase::Connecting => {
                    self.phase = Phase::Closed;
                    Action::Fail(FeedError::Connect(reason))
                },
                _ => self.out_of_turn(),
            },
            Event::Sent => match self.phase {
                Phase::Subscribing => {
                    self.phase = Phase::Streaming;
                    Action::Read
                },
                _ => self.out_of_turn(),
            },
            Event::SendFailed(reason) => match self.phase {
                Phase::Subscribing => {
                    self.phase = Phase::Closed;
                    Action::Fail(FeedError::Subscribe(reason))
                },
                _ => self.out_of_turn(),
            },
            Event::Polled(inbound) => self.settle(dispatch(inbound)),
        }
    }

    fn out_of_turn(&mut self) -> (action: Action)
        ensures
            final(self)@.phase == Phase::Closed,
            action@ == ActionView::Fail(FeedErrorView::OutOfTurn),
            final(self)@.address == old(self)@.address,
            final(self)@.ticker == old(self)@.ticker,
    {
        self.phase = Phase::Closed;
        Action::Fail(FeedError::OutOfTurn)
    }
}

} // verus!
