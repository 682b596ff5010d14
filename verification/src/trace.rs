//! Whole exchanges: what a sequence of events leads to.

use vstd::prelude::*;
use crate::exchange::{
    ExchangeView, EventView, ActionView, PhaseView, OutcomeView, UploadError, after, admits,
};
use crate::frame::{frame_bytes, first_frame, FrameError};
use crate::order::prefix_value;
use crate::text::{grants, reply_text, request_payload};

verus! {

/// Where the exchange `state` stands after `events`, taken in turn.
pub open spec fn run(state: ExchangeView, events: Seq<EventView>) -> ExchangeView
    decreases events.len(),
{
    if events.len() == 0 {
        state
    } else {
        run(after(state, events[0]).0, events.drop_first())
    }
}

/// Whether `events` tell of a connection, of the request gone out, and of a reply
/// come in whole: first a length that the exchange admits, then as many bytes.
pub open spec fn heard(state: ExchangeView, events: Seq<EventView>) -> bool {
    &&& events.len() >= 4
    &&& events[0] == EventView::Connected
    &&& events[1] == EventView::Written
    &&& events[2] matches EventView::Received(header)
    &&& admits(state, header)
    &&& events[3] matches EventView::Received(reply)
    &&& reply.len() == prefix_value(state.order, header)
}

/// The reply that `events` tell of.
pub open spec fn reply_of(events: Seq<EventView>) -> Seq<u8>
    recommends
        events.len() >= 4,
        events[3] is Received,
{
    events[3]->Received_0
}

/// Whether `events` tell of an upload that went through: the server agreed, the file
/// was read, and its frame went out.
pub open spec fn delivers(state: ExchangeView, events: Seq<EventView>) -> bool {
    &&& heard(state, events)
    &&& grants(reply_of(events))
    &&& events.len() >= 6
    &&& events[4] is FileRead
    &&& events[5] == EventView::Written
}

/// An exchange that has ended stays as it is.
pub proof fn lemma_end_is_final(state: ExchangeView, events: Seq<EventView>)
    requires
        state.phase is Done,
    ensures
        run(state, events) == state,
    decreases events.len(),
{
    if events.len() > 0 {
        lemma_end_is_final(state, events.drop_first());
    }
}

proof fn lemma_run_from(state: ExchangeView, events: Seq<EventView>, k: int)
    requires
        0 <= k < events.len(),
    ensures
        run(state, events.skip(k)) == run(after(state, events[k]).0, events.skip(k + 1)),
{
    assert(events.skip(k).drop_first() =~= events.skip(k + 1));
}

/// The states that `events` lead through, as far as the sixth event.
proof fn lemma_first_steps(state: ExchangeView, events: Seq<EventView>) -> (s: Seq<ExchangeView>)
    ensures
        s.len() == 7,
        s[0] == state,
        forall|k: int| 0 <= k < 6 && k < events.len() ==> s[k + 1] == #[trigger] after(s[k], events[k]).0,
        forall|k: int|
            0 <= k <= 6 && k <= events.len() ==> run(state, events) == run(
                #[trigger] s[k],
                events.skip(k),
            ),
        events.len() <= 6 ==> run(state, events) == s[events.len() as int],
{
    let s1 = after(state, events[0]).0;
    let s2 = after(s1, events[1]).0;
    let s3 = after(s2, events[2]).0;
    let s4 = after(s3, events[3]).0;
    let s5 = after(s4, events[4]).0;
    let s6 = after(s5, events[5]).0;
    let s = seq![state, s1, s2, s3, s4, s5, s6];
    assert(events.skip(0) =~= events);
    if events.len() > 0 {
        lemma_run_from(state, events, 0);
    }
    if events.len() > 1 {
        lemma_run_from(s1, events, 1);
    }
    if events.len() > 2 {
        lemma_run_from(s2, events, 2);
    }
    if events.len() > 3 {
        lemma_run_from(s3, events, 3);
    }
    if events.len() > 4 {
        lemma_run_from(s4, events, 4);
    }
    if events.len() > 5 {
        lemma_run_from(s5, events, 5);
    }
    assert(events.skip(events.len() as int).len() == 0);
    s
}

/// An upload ends as sent exactly if the server's reply is the agreement and the file
/// could be read, all frames having gone through.
pub proof fn lemma_sent_exactly(state: ExchangeView, events: Seq<EventView>)
    requires
        state.phase == PhaseView::Connecting,
    ensures
        run(state, events).phase == PhaseView::Done(OutcomeView::Sent) <==> delivers(
            state,
            events,
        ),
{
    let s = lemma_first_steps(state, events);
    lemma_ends(state, events, s, Seq::empty());
}

/// An upload ends as denied exactly if a reply came in whole that is not the
/// agreement, and the reason given is that reply, to the letter.
pub proof fn lemma_denied_exactly(
    state: ExchangeView,
    events: Seq<EventView>,
    reason: Seq<char>,
)
    requires
        state.phase == PhaseView::Connecting,
    ensures
        run(state, events).phase == PhaseView::Done(OutcomeView::Denied(reason)) <==> heard(
            state,
            events,
        ) && !grants(reply_of(events)) && reason == reply_text(reply_of(events)),
{
    let s = lemma_first_steps(state, events);
    lemma_ends(state, events, s, reason);
}

/// An upload ends on the file exactly if the server agreed and the file could then
/// not be read. It is then never sent, and the failure is not one of the network.
pub proof fn lemma_file_failure_exactly(state: ExchangeView, events: Seq<EventView>)
    requires
        state.phase == PhaseView::Connecting,
    ensures
        run(state, events).phase == PhaseView::Done(
            OutcomeView::Failed(UploadError::FileAccess),
        ) <==> heard(state, events) && grants(reply_of(events)) && events.len() >= 5 && !(
        events[4] is FileRead),
{
    let s = lemma_first_steps(state, events);
    lemma_ends(state, events, s, Seq::empty());
}

/// Where the first six events take an exchange that starts by connecting.
proof fn lemma_ends(
    state: ExchangeView,
    events: Seq<EventView>,
    s: Seq<ExchangeView>,
    reason: Seq<char>,
)
    requires
        state.phase == PhaseView::Connecting,
        s.len() == 7,
        s[0] == state,
        forall|k: int| 0 <= k < 6 && k < events.len() ==> s[k + 1] == #[trigger] after(s[k], events[k]).0,
        forall|k: int|
            0 <= k <= 6 && k <= events.len() ==> run(state, events) == run(
                #[trigger] s[k],
                events.skip(k),
            ),
        events.len() <= 6 ==> run(state, events) == s[events.len() as int],
    ensures
        run(state, events).phase == PhaseView::Done(OutcomeView::Sent) <==> delivers(
            state,
            events,
        ),
        run(state, events).phase == PhaseView::Done(OutcomeView::Denied(reason)) <==> heard(
            state,
            events,
        ) && !grants(reply_of(events)) && reason == reply_text(reply_of(events)),
        run(state, events).phase == PhaseView::Done(
            OutcomeView::Failed(UploadError::FileAccess),
        ) <==> heard(state, events) && grants(reply_of(events)) && events.len() >= 5 && !(
        events[4] is FileRead),
{
    let n = events.len();
    let last = if n <= 6 {
        n as int
    } else {
        6
    };
    // The first state that has ended, if any, is where the run stays.
    let stop = if n >= 1 && s[1].phase is Done {
        1
    } else if n >= 2 && s[2].phase is Done {
        2
    } else if n >= 3 && s[3].phase is Done {
        3
    } else if n >= 4 && s[4].phase is Done {
        4
    } else if n >= 5 && s[5].phase is Done {
        5
    } else {
        last
    };
    assert(run(state, events) == run(s[stop], events.skip(stop)));
    if s[stop].phase is Done {
        lemma_end_is_final(s[stop], events.skip(stop));
    } else if n > 6 {
        assert(s[6].phase is Done);
    }
    assert(run(state, events) == s[stop]);
    assert(s[0].order == state.order && s[0].reply_limit == state.reply_limit);
    if n >= 1 {
        assert(s[1] == after(s[0], events[0]).0);
    }
    if n >= 2 {
        assert(s[2] == after(s[1], events[1]).0);
    }
    if n >= 3 {
        assert(s[3] == after(s[2], events[2]).0);
    }
    if n >= 4 {
        assert(s[4] == after(s[3], events[3]).0);
    }
    if n >= 5 {
        assert(s[5] == after(s[4], events[4]).0);
    }
    if n >= 6 {
        assert(s[6] == after(s[5], events[5]).0);
    }
}

/// A frame goes out at two points only: the request once the connection stands, and
/// the model once the server has agreed and the file is read. What goes out is the
/// frame of that payload, in the order of the exchange.
pub proof fn lemma_frames_sent(state: ExchangeView, event: EventView)
    ensures
        after(state, event).1 matches ActionView::SendFrame { prefix, payload } ==> {
            &&& prefix + payload == frame_bytes(state.order, payload)
            &&& (state.phase == PhaseView::Connecting && event == EventView::Connected && payload
                == request_payload(state.auth_token)) || (state.phase == PhaseView::Uploading {
                loaded: false,
            } && event == EventView::FileRead(payload))
        },
{
}

/// The file is asked for only on a reply that grants the upload.
pub proof fn lemma_file_read_on_grant(state: ExchangeView, event: EventView)
    ensures
        after(state, event).1 is ReadFile ==> {
            &&& state.phase matches PhaseView::AwaitingAuthorization { expecting: Some(count) }
            &&& event matches EventView::Received(reply)
            &&& reply.len() == count
            &&& grants(reply)
            &&& after(state, event).1 == (ActionView::ReadFile { path: state.file_path })
        },
{
}

/// The length and the bytes that an exchange takes for a reply are one frame on the
/// wire, and the reply is its payload.
pub proof fn lemma_reply_is_a_frame(state: ExchangeView, events: Seq<EventView>)
    requires
        heard(state, events),
    ensures
        first_frame(state.order, events[2]->Received_0 + reply_of(events)) == Ok::<
            Seq<u8>,
            FrameError,
        >(reply_of(events)),
{
    let header = events[2]->Received_0;
    let wire = header + reply_of(events);
    assert(wire.subrange(0, 8) =~= header);
    assert(wire.subrange(8, 8 + reply_of(events).len() as int) =~= reply_of(events));
}

/// An event that is meant for one of two exchanges.
pub enum Addressed {
    First(EventView),
    Second(EventView),
}

/// The events of `events` that are meant for the first exchange, or for the second.
pub open spec fn meant_for(first: bool, events: Seq<Addressed>) -> Seq<EventView>
    decreases events.len(),
{
    if events.len() == 0 {
        Seq::empty()
    } else {
        let rest = meant_for(first, events.drop_first());
        match events[0] {
            Addressed::First(e) => if first {
                seq![e] + rest
            } else {
                rest
            },
            Addressed::Second(e) => if first {
                rest
            } else {
                seq![e] + rest
            },
        }
    }
}

/// Where two exchanges stand after `events`, each event going to the one it is meant
/// for.
pub open spec fn run_both(a: ExchangeView, b: ExchangeView, events: Seq<Addressed>) -> (
    ExchangeView,
    ExchangeView,
)
    decreases events.len(),
{
    if events.len() == 0 {
        (a, b)
    } else {
        match events[0] {
            Addressed::First(e) => run_both(after(a, e).0, b, events.drop_first()),
            Addressed::Second(e) => run_both(a, after(b, e).0, events.drop_first()),
        }
    }
}

/// Two exchanges that go on side by side do not touch each other: however their
/// events fall in with one another, each ends where its own events alone take it.
pub proof fn lemma_side_by_side(a: ExchangeView, b: ExchangeView, events: Seq<Addressed>)
    ensures
        run_both(a, b, events) == (
            run(a, meant_for(true, events)),
            run(b, meant_for(false, events)),
        ),
    decreases events.len(),
{
    if events.len() > 0 {
        let rest = events.drop_first();
        match events[0] {
            Addressed::First(e) => {
                lemma_side_by_side(after(a, e).0, b, rest);
                assert((seq![e] + meant_for(true, rest)).drop_first() =~= meant_for(true, rest));
            },
            Addressed::Second(e) => {
                lemma_side_by_side(a, after(b, e).0, rest);
                assert((seq![e] + meant_for(false, rest)).drop_first() =~= meant_for(
                    false,
                    rest,
                ));
            },
        }
    }
}

} // verus!
