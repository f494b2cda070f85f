//! Whole runs of a session.
//!
//! A run is what a driver reports to a session, from first to last. What the
//! session asks for along a run follows from its transitions, one by one; the
//! proofs here say what holds of a run as a whole.

use crate::dispatch::{dispatched, DispatchView, InboundView};
use crate::error::FeedErrorView;
use crate::session::{transition, ActionView, EventView, Phase};
use crate::subscription::subscribe_frame_text;
use vstd::prelude::*;

verus! {

/// The phase of a session for `ticker` that started in `phase` and has taken
/// `events`.
pub open spec fn phase_after(phase: Phase, ticker: Seq<char>, events: Seq<EventView>) -> Phase
    decreases events.len(),
{
    if events.len() == 0 {
        phase
    } else {
        transition(phase_after(phase, ticker, events.drop_last()), ticker, events.last()).0
    }
}

/// What a session for `ticker` that started in `phase` asks for when it takes
/// the event at `i` of `events`.
pub open spec fn action_at(
    phase: Phase,
    ticker: Seq<char>,
    events: Seq<EventView>,
    i: int,
) -> ActionView
    recommends
        0 <= i < events.len(),
{
    transition(phase_after(phase, ticker, events.take(i)), ticker, events[i]).1
}

/// Whether an action has to do with reading the stream: `Read` itself, and any
/// decision on a frame, which says that a frame has been read.
pub open spec fn reads(action: ActionView) -> bool {
    action is Read || action is Handle
}

/// Whether every event of a run is a read of the stream that did not find it
/// ended.
pub open spec fn all_frames(events: Seq<EventView>) -> bool {
    forall|i: int|
        0 <= i < events.len() ==> (#[trigger] events[i] matches EventView::Polled(inbound)
            && inbound !is Closed)
}

/// A run in two parts leads where its second part leads from the end of the
/// first.
pub proof fn lemma_phase_after_concat(
    phase: Phase,
    ticker: Seq<char>,
    first: Seq<EventView>,
    second: Seq<EventView>,
)
    ensures
        phase_after(phase, ticker, first + second) == phase_after(
            phase_after(phase, ticker, first),
            ticker,
            second,
        ),
    decreases second.len(),
{
    if second.len() == 0 {
        assert(first + second =~= first);
    } else {
        lemma_phase_after_concat(phase, ticker, first, second.drop_last());
        assert((first + second).drop_last() =~= first + second.drop_last());
        assert((first + second).last() == second.last());
    }
}

/// A closed session stays closed, and answers every event with `OutOfTurn`.
pub proof fn lemma_closed_is_final(ticker: Seq<char>, events: Seq<EventView>)
    ensures
        phase_after(Phase::Closed, ticker, events) == Phase::Closed,
        forall|i: int|
            0 <= i < events.len() ==> #[trigger] action_at(Phase::Closed, ticker, events, i)
                == ActionView::Fail(FeedErrorView::OutOfTurn),
    decreases events.len(),
{
    if events.len() > 0 {
        lemma_closed_is_final(ticker, events.drop_last());
        assert forall|i: int| 0 <= i < events.len() implies #[trigger] action_at(
            Phase::Closed,
            ticker,
            events,
            i,
        ) == ActionView::Fail(FeedErrorView::OutOfTurn) by {
            lemma_closed_is_final(ticker, events.take(i));
        }
    }
}

/// No session is connecting once it has taken an event.
pub proof fn lemma_connects_once(phase: Phase, ticker: Seq<char>, events: Seq<EventView>)
    requires
        events.len() > 0,
    ensures
        phase_after(phase, ticker, events) != Phase::Connecting,
{
}

/// A session that has taken an event and is not closed was connected by the
/// first event it took.
pub proof fn lemma_live_session_connected(ticker: Seq<char>, events: Seq<EventView>)
    requires
        events.len() > 0,
        phase_after(Phase::Connecting, ticker, events) != Phase::Closed,
    ensures
        events[0] == EventView::Connected,
    decreases events.len(),
{
    let before = events.drop_last();
    if before.len() > 0 {
        lemma_connects_once(Phase::Connecting, ticker, before);
        lemma_live_session_connected(ticker, before);
        assert(before[0] == events[0]);
    } else {
        assert(phase_after(Phase::Connecting, ticker, before) == Phase::Connecting);
        assert(events.last() == events[0]);
    }
}

/// The subscription is written once, first, and before anything is read.
///
/// In every run of a new session for `ticker`, whatever the driver reports: a
/// frame is sent only in answer to the first event, and it is the subscription
/// frame for `ticker`; and where the session has to do with reading the
/// stream, that is later, and the subscription frame was sent in answer to the
/// first event.
pub proof fn lemma_subscribes_once_before_reading(
    ticker: Seq<char>,
    events: Seq<EventView>,
    i: int,
)
    requires
        0 <= i < events.len(),
    ensures
        action_at(Phase::Connecting, ticker, events, i) is Send ==> i == 0 && action_at(
            Phase::Connecting,
            ticker,
            events,
            i,
        ) == ActionView::Send(subscribe_frame_text(ticker)),
        reads(action_at(Phase::Connecting, ticker, events, i)) ==> i > 0 && action_at(
            Phase::Connecting,
            ticker,
            events,
            0,
        ) == ActionView::Send(subscribe_frame_text(ticker)),
{
    let before = events.take(i);
    assert(events.take(0) =~= Seq::<EventView>::empty());
    if i > 0 {
        lemma_connects_once(Phase::Connecting, ticker, before);
        if phase_after(Phase::Connecting, ticker, before) != Phase::Closed {
            lemma_live_session_connected(ticker, before);
        }
    }
}

/// Only the setup of a session fails it.
///
/// In every run of a new session, a connect error can only answer the first
/// event and a subscribe error only the second; no run gives a configuration
/// error. What goes wrong with a frame is never an error of the session.
pub proof fn lemma_only_setup_fails(ticker: Seq<char>, events: Seq<EventView>, i: int)
    requires
        0 <= i < events.len(),
    ensures
        match action_at(Phase::Connecting, ticker, events, i) {
            ActionView::Fail(FeedErrorView::Connect(_)) => i == 0,
            ActionView::Fail(FeedErrorView::Subscribe(_)) => i == 1,
            ActionView::Fail(FeedErrorView::Configuration(_)) => false,
            _ => true,
        },
{
    let before = events.take(i);
    if i == 0 {
        assert(before =~= Seq::<EventView>::empty());
    } else {
        lemma_connects_once(Phase::Connecting, ticker, before);
        if i > 1 {
            assert(before.drop_last().len() > 0);
            lemma_connects_once(Phase::Connecting, ticker, before.drop_last());
        }
    }
}

/// No frame ends a streaming session, and every frame is decided on in its
/// turn.
///
/// As long as the stream has not ended, a streaming session goes on streaming,
/// whatever the frames hold; and what it asks for on each frame is the decision
/// on that frame alone. So a frame that cannot be decoded or read costs no
/// other frame its delivery.
pub proof fn lemma_stream_outlives_frames(ticker: Seq<char>, events: Seq<EventView>)
    requires
        all_frames(events),
    ensures
        phase_after(Phase::Streaming, ticker, events) == Phase::Streaming,
        forall|i: int|
            0 <= i < events.len() ==> #[trigger] action_at(Phase::Streaming, ticker, events, i)
                == ActionView::Handle(dispatched(events[i]->Polled_0)),
    decreases events.len(),
{
    if events.len() > 0 {
        let before = events.drop_last();
        assert(all_frames(before));
        lemma_stream_outlives_frames(ticker, before);
        assert(events.last() == events[events.len() - 1]);
        assert forall|i: int| 0 <= i < events.len() implies #[trigger] action_at(
            Phase::Streaming,
            ticker,
            events,
            i,
        ) == ActionView::Handle(dispatched(events[i]->Polled_0)) by {
            let upto = events.take(i);
            assert(all_frames(upto));
            lemma_stream_outlives_frames(ticker, upto);
        }
    }
}

/// The run of a feed that connects, takes the subscription, sends `frames` and
/// then ends.
pub open spec fn feed_run(frames: Seq<EventView>) -> Seq<EventView> {
    seq![EventView::Connected, EventView::Sent] + frames + seq![
        EventView::Polled(InboundView::Closed),
    ]
}

/// A feed that connects, takes the subscription, sends frames and ends is
/// served from end to end without an error.
///
/// The session sends the subscription frame, asks for a read, gives for each
/// frame the decision on that frame, and stops when the stream ends. So the
/// ticks delivered are the text frames that decode, in their order, each once;
/// and a feed that ends right after the subscription has nothing delivered.
pub proof fn lemma_feed_run(ticker: Seq<char>, frames: Seq<EventView>)
    requires
        all_frames(frames),
    ensures
        feed_run(frames).len() == frames.len() + 3,
        action_at(Phase::Connecting, ticker, feed_run(frames), 0) == ActionView::Send(
            subscribe_frame_text(ticker),
        ),
        action_at(Phase::Connecting, ticker, feed_run(frames), 1) == ActionView::Read,
        forall|k: int|
            0 <= k < frames.len() ==> #[trigger] action_at(
                Phase::Connecting,
                ticker,
                feed_run(frames),
                k + 2,
            ) == ActionView::Handle(dispatched(frames[k]->Polled_0)),
        action_at(Phase::Connecting, ticker, feed_run(frames), frames.len() as int + 2)
            == ActionView::Handle(DispatchView::Stop),
        phase_after(Phase::Connecting, ticker, feed_run(frames)) == Phase::Closed,
{
    let run = feed_run(frames);
    let setup = seq![EventView::Connected, EventView::Sent];
    let last = frames.len() as int + 2;
    assert(run.take(0) =~= Seq::<EventView>::empty());
    assert(run.take(1) =~= seq![EventView::Connected]);
    assert(seq![EventView::Connected].drop_last() =~= Seq::<EventView>::empty());
    assert(phase_after(Phase::Connecting, ticker, seq![EventView::Connected])
        == Phase::Subscribing);
    assert(setup.drop_last() =~= seq![EventView::Connected]);
    assert(phase_after(Phase::Connecting, ticker, setup) == Phase::Streaming);
    assert forall|k: int| 0 <= k <= frames.len() implies phase_after(
        Phase::Connecting,
        ticker,
        #[trigger] run.take(k + 2),
    ) == Phase::Streaming by {
        assert(run.take(k + 2) =~= setup + frames.take(k));
        assert(all_frames(frames.take(k)));
        lemma_phase_after_concat(Phase::Connecting, ticker, setup, frames.take(k));
        lemma_stream_outlives_frames(ticker, frames.take(k));
    }
    assert forall|k: int| 0 <= k < frames.len() implies #[trigger] action_at(
        Phase::Connecting,
        ticker,
        run,
        k + 2,
    ) == ActionView::Handle(dispatched(frames[k]->Polled_0)) by {
        assert(run[k + 2] == frames[k]);
    }
    assert(run[last] == EventView::Polled(InboundView::Closed));
    assert(run.drop_last() =~= run.take(last));
}

} // verus!
