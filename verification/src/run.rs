//! Whole operations: what a device is sent, and what comes of it, for every course of events.

use vstd::prelude::*;

use crate::command::{Command, Getter, Packet, Setter, TextCommand};
use crate::error::{DeviceErrorOf, DeviceErrorView};
use crate::exchange::{
    action_of, answers, ActionOf, ActionView, DeviceView, EventOf, EventView, ExchangeOf, GetGoal, OutputOf,
    ResponseOf, StepOf, StepView, TextGoal, DRAIN_TIMEOUT_MS, PLAYBACK_MIX_MAX, READ_TIMEOUT_MS,
};
use crate::plan::{law_playback_mix_comes_last, lemma_plan_len, state_plan};
use crate::progress::{
    begin_get, begin_reset, begin_set, begin_text, in_time, pass_over, playback_mix_parsed,
    proceed, query_serial, query_state, quotes, read_report, reply_outcome, serial_output, text_failed,
    text_replied, write_error, Standing,
};
use crate::text::{
    law_zeros_carry_no_text, lemma_without_zeros, lossy_text, no_nul, report_text, without_zeros,
};

verus! {

/// Whether an event is an outcome of the action that the operation waits for.
#[verifier::opaque]
pub open spec fn awaited(s: Standing, event: EventView) -> bool {
    s.step is Pending && answers(event, action_of(s.step->Pending_0))
}

/// Where an operation stands after one event.
#[verifier::opaque]
pub open spec fn next(s: Standing, event: EventView) -> Standing {
    match s.step {
        StepOf::Pending(x) => proceed(s.device, x, event),
        StepOf::Done(_) => s,
    }
}

/// Where an operation stands after a course of events.
pub open spec fn run(s: Standing, events: Seq<EventView>) -> Standing
    decreases events.len(),
{
    if events.len() == 0 {
        s
    } else {
        run(next(s, events[0]), events.drop_first())
    }
}

/// Whether each event is an outcome of the action that the operation waits for at that point.
pub open spec fn fits(s: Standing, events: Seq<EventView>) -> bool
    decreases events.len(),
{
    events.len() == 0 || {
        &&& s.step is Pending
        &&& awaited(s, events[0])
        &&& fits(next(s, events[0]), events.drop_first())
    }
}

/// What a driver sees of an operation: the action to perform, or the outcome.
pub enum Phase {
    Perform(ActionView),
    Finished(Result<OutputOf<Seq<char>>, DeviceErrorView>),
}

/// What a driver sees of a step.
pub open spec fn phase(step: StepView) -> Phase {
    match step {
        StepOf::Pending(x) => Phase::Perform(action_of(x)),
        StepOf::Done(outcome) => Phase::Finished(outcome),
    }
}

/// The number that the binary packet after next carries, and so on.
pub open spec fn later_seq(seq: u8, by: nat) -> u8 {
    ((seq + by) % 256) as u8
}

/// One event of a course, the one at `n`, takes the operation on.
proof fn lemma_step(s: Standing, events: Seq<EventView>, n: int) -> (t: Standing)
    requires
        0 <= n < events.len(),
        fits(s, events.skip(n)),
    ensures
        s.step is Pending,
        answers(events[n], action_of(s.step->Pending_0)),
        t == proceed(s.device, s.step->Pending_0, events[n]),
        fits(t, events.skip(n + 1)),
        run(s, events.skip(n)) == run(t, events.skip(n + 1)),
{
    reveal(awaited);
    reveal(next);
    assert(events.skip(n).drop_first() =~= events.skip(n + 1));
    assert(events.skip(n)[0] == events[n]);
    proceed(s.device, s.step->Pending_0, events[n])
}

// ---------------------------------------------------------------------------------------------
// Binary SETs
// ---------------------------------------------------------------------------------------------

/// What changing a setting in the binary protocol comes to after a course of events: the SET, a
/// CONFIRM with the next number, and on the MV7+ two reads whose outcome does not matter.
pub open spec fn set_conduct(d: DeviceView, setter: Setter, events: Seq<EventView>) -> Phase {
    if d.model is Mv7 {
        Phase::Finished(Err(DeviceErrorOf::NotOnMv7))
    } else if events.len() == 0 {
        Phase::Perform(
            ActionOf::Write {
                packet: Packet::Binary { seq: d.seq, command: Command::SetFeature(setter) },
            },
        )
    } else if write_error(events[0]->Written_0) is Some {
        Phase::Finished(Err(write_error(events[0]->Written_0)->0))
    } else if events.len() == 1 {
        Phase::Perform(
            ActionOf::Write {
                packet: Packet::Binary { seq: later_seq(d.seq, 1), command: Command::Confirm },
            },
        )
    } else if write_error(events[1]->Written_0) is Some {
        Phase::Finished(Err(write_error(events[1]->Written_0)->0))
    } else if d.model is Mv7Plus && events.len() < 4 {
        Phase::Perform(ActionOf::Read { timeout_ms: DRAIN_TIMEOUT_MS })
    } else {
        Phase::Finished(Ok(OutputOf::Accepted))
    }
}

/// A setting is changed by a SET that is confirmed at once: nothing comes between the two
/// packets, and nothing else is sent.
pub proof fn law_set_is_confirmed(d: DeviceView, setter: Setter, events: Seq<EventView>)
    requires
        fits(begin_set(d, setter), events),
    ensures
        phase(run(begin_set(d, setter), events).step) == set_conduct(d, setter, events),
{
    lemma_set(d, setter, events);
}

/// A change of a setting is over after four events at the latest.
pub proof fn law_set_ends(d: DeviceView, setter: Setter, events: Seq<EventView>)
    requires
        fits(begin_set(d, setter), events),
    ensures
        events.len() <= 4,
        events.len() == 4 ==> run(begin_set(d, setter), events).step is Done,
{
    lemma_set(d, setter, events);
}

/// Changing a setting goes as `set_conduct` says, and is over after four events at the latest.
#[verifier::rlimit(30)]
proof fn lemma_set(d: DeviceView, setter: Setter, events: Seq<EventView>)
    requires
        fits(begin_set(d, setter), events),
    ensures
        phase(run(begin_set(d, setter), events).step) == set_conduct(d, setter, events),
        events.len() <= 4,
{
    let s = begin_set(d, setter);
    assert(events.skip(0) =~= events);
    if events.len() > 0 {
        let s1 = lemma_step(s, events, 0);
        if events.len() > 1 {
            let s2 = lemma_step(s1, events, 1);
            if events.len() > 2 {
                let s3 = lemma_step(s2, events, 2);
                if events.len() > 3 {
                    let s4 = lemma_step(s3, events, 3);
                    if events.len() > 4 {
                        let s5 = lemma_step(s4, events, 4);
                    }
                }
            }
        }
    }
}

/// What a factory reset comes to after a course of events: one packet without a CONFIRM.
pub open spec fn reset_conduct(d: DeviceView, events: Seq<EventView>) -> Phase {
    if d.model is Mv7 {
        Phase::Finished(Err(DeviceErrorOf::NotOnMv7))
    } else if events.len() == 0 {
        Phase::Perform(
            ActionOf::Write {
                packet: Packet::Binary { seq: d.seq, command: Command::FactoryReset },
            },
        )
    } else if write_error(events[0]->Written_0) is Some {
        Phase::Finished(Err(write_error(events[0]->Written_0)->0))
    } else {
        Phase::Finished(Ok(OutputOf::Accepted))
    }
}

/// A factory reset is one packet, and no CONFIRM follows it.
pub proof fn law_reset_is_not_confirmed(d: DeviceView, events: Seq<EventView>)
    requires
        fits(begin_reset(d), events),
    ensures
        phase(run(begin_reset(d), events).step) == reset_conduct(d, events),
{
    let s = begin_reset(d);
    assert(events.skip(0) =~= events);
    if events.len() > 0 {
        let s1 = lemma_step(s, events, 0);
        if events.len() > 1 {
            let s2 = lemma_step(s1, events, 1);
        }
    }
}

// ---------------------------------------------------------------------------------------------
// Text commands
// ---------------------------------------------------------------------------------------------

/// Where a text command stands within a longer operation.
pub enum TextPhase {
    /// It needs an action.
    Busy(ActionView),
    /// It is over after `used` events, with a reply or an error.
    Over { outcome: Result<Seq<char>, DeviceErrorView>, used: nat },
}

impl TextPhase {
    /// The same after `more` earlier events.
    pub open spec fn after(self, more: nat) -> TextPhase {
        match self {
            TextPhase::Busy(action) => TextPhase::Busy(action),
            TextPhase::Over { outcome, used } => TextPhase::Over { outcome, used: used + more },
        }
    }
}

/// What waiting for a reply comes to after a course of events. The clock is read; if there is
/// time left a report is read; if one came, the reply is looked for in all that was received.
pub open spec fn wait_conduct(
    line: TextCommand,
    start_ns: u64,
    received: Seq<char>,
    events: Seq<EventView>,
) -> TextPhase
    decreases events.len(),
{
    if events.len() == 0 {
        TextPhase::Busy(ActionOf::ReadClock)
    } else if !in_time(start_ns, events[0]->ns) {
        TextPhase::Over { outcome: Err(DeviceErrorOf::NoReply { command: line }), used: 1 }
    } else if events.len() == 1 {
        TextPhase::Busy(ActionOf::Read { timeout_ms: READ_TIMEOUT_MS })
    } else {
        match events[1]->Received_0 {
            Err(reason) => TextPhase::Over {
                outcome: Err(DeviceErrorOf::ReadFailed { reason }),
                used: 2,
            },
            Ok(report) => if report.len() == 0 {
                wait_conduct(line, start_ns, received, events.skip(2)).after(2)
            } else {
                let received = received + report_text(report);
                if events.len() == 2 {
                    TextPhase::Busy(ActionOf::FindReply { line, received })
                } else {
                    match events[2]->Found_0 {
                        Some(reply) => TextPhase::Over { outcome: Ok(reply), used: 3 },
                        None => wait_conduct(line, start_ns, received, events.skip(3)).after(3),
                    }
                }
            },
        }
    }
}

/// What a text command comes to after a course of events: the command line is written, the wait
/// begins, and ends with a reply or an error.
pub open spec fn text_conduct(line: TextCommand, events: Seq<EventView>) -> TextPhase {
    if events.len() == 0 {
        TextPhase::Busy(ActionOf::Write { packet: Packet::Text { line } })
    } else if write_error(events[0]->Written_0) is Some {
        TextPhase::Over { outcome: Err(write_error(events[0]->Written_0)->0), used: 1 }
    } else if events.len() == 1 {
        TextPhase::Busy(ActionOf::ReadClock)
    } else {
        wait_conduct(line, events[1]->ns, Seq::empty(), events.skip(2)).after(2)
    }
}

/// Where an operation stands when its text command is over.
pub open spec fn text_over(
    d: DeviceView,
    goal: TextGoal,
    outcome: Result<Seq<char>, DeviceErrorView>,
) -> Standing {
    match outcome {
        Ok(reply) => text_replied(d, goal, reply),
        Err(error) => text_failed(d, goal, error),
    }
}

/// Whether `s` after `events` is where `p` says the operation with the text command is.
pub open spec fn text_stands(
    d: DeviceView,
    goal: TextGoal,
    s: Standing,
    events: Seq<EventView>,
    p: TextPhase,
) -> bool {
    match p {
        TextPhase::Busy(action) => {
            &&& phase(run(s, events).step) == Phase::Perform(action)
            &&& run(s, events).device == d
        },
        TextPhase::Over { outcome, used } => {
            &&& 0 < used <= events.len()
            &&& run(s, events) == run(text_over(d, goal, outcome), events.skip(used as int))
            &&& fits(text_over(d, goal, outcome), events.skip(used as int))
        },
    }
}

/// Waiting for a reply goes as `wait_conduct` says.
proof fn lemma_wait(
    d: DeviceView,
    goal: TextGoal,
    start_ns: u64,
    received: Seq<char>,
    events: Seq<EventView>,
)
    requires
        fits(d.waits(ExchangeOf::CheckTime { goal, start_ns, received }), events),
    ensures
        text_stands(
            d,
            goal,
            d.waits(ExchangeOf::CheckTime { goal, start_ns, received }),
            events,
            wait_conduct(goal.line(), start_ns, received, events),
        ),
    decreases events.len(),
{
    let s = d.waits(ExchangeOf::CheckTime { goal, start_ns, received });
    assert(events.skip(0) =~= events);
    if events.len() > 0 {
        let s1 = lemma_step(s, events, 0);
        if in_time(start_ns, events[0]->ns) && events.len() > 1 {
            let s2 = lemma_step(s1, events, 1);
            if let Ok(report) = events[1]->Received_0 {
                if report.len() == 0 {
                    lemma_wait(d, goal, start_ns, received, events.skip(2));
                    let rest = wait_conduct(goal.line(), start_ns, received, events.skip(2));
                    lemma_text_stands_later(d, goal, s, s2, events, 2, rest);
                } else if events.len() > 2 {
                    let more = received + report_text(report);
                    let s3 = lemma_step(s2, events, 2);
                    if events[2]->Found_0 is None {
                        lemma_wait(d, goal, start_ns, more, events.skip(3));
                        let rest = wait_conduct(goal.line(), start_ns, more, events.skip(3));
                        lemma_text_stands_later(d, goal, s, s3, events, 3, rest);
                    }
                }
            }
        }
    }
}

/// What holds of the rest of a course of events holds of the whole, with more events used.
proof fn lemma_text_stands_later(
    d: DeviceView,
    goal: TextGoal,
    s: Standing,
    t: Standing,
    events: Seq<EventView>,
    n: nat,
    p: TextPhase,
)
    requires
        n <= events.len(),
        run(s, events) == run(t, events.skip(n as int)),
        text_stands(d, goal, t, events.skip(n as int), p),
    ensures
        text_stands(d, goal, s, events, p.after(n)),
{
    if let TextPhase::Over { outcome, used } = p {
        assert(events.skip(n as int).skip(used as int) =~= events.skip((used + n) as int));
    }
}

/// A text command within an operation goes as `text_conduct` says.
proof fn lemma_text(d: DeviceView, goal: TextGoal, events: Seq<EventView>)
    requires
        fits(begin_text(d, goal), events),
    ensures
        text_stands(d, goal, begin_text(d, goal), events, text_conduct(goal.line(), events)),
{
    let s = begin_text(d, goal);
    assert(events.skip(0) =~= events);
    if events.len() > 0 {
        let s1 = lemma_step(s, events, 0);
        if write_error(events[0]->Written_0) is None && events.len() > 1 {
            let start_ns = events[1]->ns;
            let s2 = lemma_step(s1, events, 1);
            lemma_wait(d, goal, start_ns, Seq::empty(), events.skip(2));
            let rest = wait_conduct(goal.line(), start_ns, Seq::empty(), events.skip(2));
            lemma_text_stands_later(d, goal, s, s2, events, 2, rest);
        }
    }
}

/// What changing a setting in the text protocol comes to after a course of events.
pub open spec fn text_set_conduct(
    d: DeviceView,
    line: TextCommand,
    events: Seq<EventView>,
) -> Phase {
    match text_conduct(line, events) {
        TextPhase::Busy(action) => Phase::Perform(action),
        TextPhase::Over { outcome: Err(error), used } => Phase::Finished(Err(error)),
        TextPhase::Over { outcome: Ok(reply), used } => Phase::Finished(
            reply_outcome(d.codec, line, reply),
        ),
    }
}

/// A setting of the MV7 is changed by one command line. The change fails if there is no reply or
/// the reply says that it failed or that the setting is locked, and not otherwise.
pub proof fn law_text_set_is_answered(d: DeviceView, line: TextCommand, events: Seq<EventView>)
    requires
        fits(begin_text(d, TextGoal::Change { line }), events),
    ensures
        phase(run(begin_text(d, TextGoal::Change { line }), events).step) == text_set_conduct(
            d,
            line,
            events,
        ),
{
    lemma_text(d, TextGoal::Change { line }, events);
}

/// What a read brought: a report without its zero bytes, or a failure.
pub open spec fn stripped(read: Result<Seq<u8>, Seq<char>>) -> Result<Seq<u8>, Seq<char>> {
    match read {
        Ok(report) => Ok(without_zeros(report)),
        Err(reason) => Err(reason),
    }
}

/// What the reads of a course of events brought, one after the other. Reads that brought nothing
/// in time are left out.
pub open spec fn brought(events: Seq<EventView>) -> Seq<Result<Seq<u8>, Seq<char>>>
    decreases events.len(),
{
    if events.len() == 0 {
        Seq::empty()
    } else {
        let rest = brought(events.drop_first());
        match events[0] {
            EventOf::Received(read) => if read is Ok && read->Ok_0.len() == 0 {
                rest
            } else {
                seq![stripped(read)] + rest
            },
            _ => rest,
        }
    }
}

/// Whether every search for a reply in a course of events was answered by what `find` makes of
/// the text received so far.
pub open spec fn searched_with(
    find: spec_fn(Seq<char>) -> Option<Seq<char>>,
    s: Standing,
    events: Seq<EventView>,
) -> bool
    decreases events.len(),
{
    events.len() == 0 || {
        &&& s.step matches StepOf::Pending(ExchangeOf::FindReply { received, .. })
            ==> events[0]->Found_0 == find(received)
        &&& searched_with(find, next(s, events[0]), events.drop_first())
    }
}

/// Whether every reading of the clock was in time for a wait that began at `start_ns`.
pub open spec fn always_in_time(start_ns: u64, events: Seq<EventView>) -> bool {
    forall|i: int|
        0 <= i < events.len() && (#[trigger] events[i]) is Now ==> in_time(start_ns, events[i]->ns)
}

/// Whether a text command is over after exactly `len` events.
pub open spec fn over_after(p: TextPhase, len: nat) -> bool {
    p is Over && p->used == len
}

/// One event of a course takes the searches on.
proof fn lemma_search_step(
    find: spec_fn(Seq<char>) -> Option<Seq<char>>,
    s: Standing,
    events: Seq<EventView>,
    n: int,
)
    requires
        0 <= n < events.len(),
        s.step is Pending,
        searched_with(find, s, events.skip(n)),
    ensures
        s.step matches StepOf::Pending(ExchangeOf::FindReply { received, .. })
            ==> events[n]->Found_0 == find(received),
        searched_with(find, proceed(s.device, s.step->Pending_0, events[n]), events.skip(n + 1)),
{
    reveal(next);
    assert(events.skip(n).drop_first() =~= events.skip(n + 1));
    assert(events.skip(n)[0] == events[n]);
}

/// What the first reading of the clock and the first read of a wait come to.
proof fn lemma_first_read(
    find: spec_fn(Seq<char>) -> Option<Seq<char>>,
    d: DeviceView,
    goal: TextGoal,
    start_ns: u64,
    received: Seq<char>,
    events: Seq<EventView>,
)
    requires
        fits(d.waits(ExchangeOf::CheckTime { goal, start_ns, received }), events),
        searched_with(
            find,
            d.waits(ExchangeOf::CheckTime { goal, start_ns, received }),
            events,
        ),
        always_in_time(start_ns, events),
        over_after(wait_conduct(goal.line(), start_ns, received, events), events.len()),
    ensures
        events.len() >= 2,
        events[1] is Received,
        match events[1]->Received_0 {
            Err(reason) => {
                &&& events.len() == 2
                &&& brought(events) == seq![stripped(events[1]->Received_0)]
            },
            Ok(report) => if report.len() == 0 {
                let s = d.waits(ExchangeOf::CheckTime { goal, start_ns, received });
                &&& fits(s, events.skip(2))
                &&& searched_with(find, s, events.skip(2))
                &&& always_in_time(start_ns, events.skip(2))
                &&& brought(events) == brought(events.skip(2))
            } else {
                let more = received + report_text(report);
                let s = d.waits(ExchangeOf::CheckTime { goal, start_ns, received: more });
                &&& events.len() >= 3
                &&& events[2]->Found_0 == find(more)
                &&& brought(events) == seq![stripped(events[1]->Received_0)] + brought(
                    events.skip(3),
                )
                &&& find(more) is None ==> {
                    &&& fits(s, events.skip(3))
                    &&& searched_with(find, s, events.skip(3))
                    &&& always_in_time(start_ns, events.skip(3))
                }
            },
        },
{
    let s = d.waits(ExchangeOf::CheckTime { goal, start_ns, received });
    assert(events.skip(0) =~= events);
    let s1 = lemma_step(s, events, 0);
    lemma_search_step(find, s, events, 0);
    assert(in_time(start_ns, events[0]->ns));
    let s2 = lemma_step(s1, events, 1);
    lemma_search_step(find, s1, events, 1);
    assert(events.drop_first() =~= events.skip(1));
    assert(events.skip(1).drop_first() =~= events.skip(2));
    assert(events.skip(1)[0] == events[1]);
    assert(brought(events) == brought(events.skip(1)));
    if let Ok(report) = events[1]->Received_0 {
        if report.len() > 0 {
            let s3 = lemma_step(s2, events, 2);
            lemma_search_step(find, s2, events, 2);
            assert(events.skip(2).drop_first() =~= events.skip(3));
            assert(events.skip(2)[0] == events[2]);
            assert(brought(events.skip(2)) == brought(events.skip(3)));
        }
    } else {
        assert(brought(events.skip(2)) =~= Seq::empty());
    }
}

/// Waits in which the same was brought end alike.
proof fn lemma_same_wait(
    find: spec_fn(Seq<char>) -> Option<Seq<char>>,
    d: DeviceView,
    goal: TextGoal,
    start_a: u64,
    start_b: u64,
    received: Seq<char>,
    a: Seq<EventView>,
    b: Seq<EventView>,
)
    requires
        fits(d.waits(ExchangeOf::CheckTime { goal, start_ns: start_a, received }), a),
        fits(d.waits(ExchangeOf::CheckTime { goal, start_ns: start_b, received }), b),
        searched_with(
            find,
            d.waits(ExchangeOf::CheckTime { goal, start_ns: start_a, received }),
            a,
        ),
        searched_with(
            find,
            d.waits(ExchangeOf::CheckTime { goal, start_ns: start_b, received }),
            b,
        ),
        always_in_time(start_a, a),
        always_in_time(start_b, b),
        over_after(wait_conduct(goal.line(), start_a, received, a), a.len()),
        over_after(wait_conduct(goal.line(), start_b, received, b), b.len()),
        brought(a) == brought(b),
    ensures
        wait_conduct(goal.line(), start_a, received, a)->outcome == wait_conduct(
            goal.line(),
            start_b,
            received,
            b,
        )->outcome,
    decreases a.len() + b.len(),
{
    lemma_first_read(find, d, goal, start_a, received, a);
    lemma_first_read(find, d, goal, start_b, received, b);
    let read_a = a[1]->Received_0;
    let read_b = b[1]->Received_0;
    if read_a is Ok && read_a->Ok_0.len() == 0 {
        lemma_same_wait(find, d, goal, start_a, start_b, received, a.skip(2), b);
    } else if read_b is Ok && read_b->Ok_0.len() == 0 {
        lemma_same_wait(find, d, goal, start_a, start_b, received, a, b.skip(2));
    } else {
        assert(brought(a)[0] == stripped(read_a));
        assert(brought(b)[0] == stripped(read_b));
        if let (Ok(report_a), Ok(report_b)) = (read_a, read_b) {
            law_zeros_carry_no_text(report_a, report_b);
            let more = received + report_text(report_a);
            if find(more) is None {
                assert(brought(a.skip(3)) =~= brought(a).drop_first());
                assert(brought(b.skip(3)) =~= brought(b).drop_first());
                lemma_same_wait(find, d, goal, start_a, start_b, more, a.skip(3), b.skip(3));
            }
        }
    }
}

/// A command line that was written is waited for.
proof fn lemma_wait_begins(
    find: spec_fn(Seq<char>) -> Option<Seq<char>>,
    d: DeviceView,
    goal: TextGoal,
    events: Seq<EventView>,
)
    requires
        fits(begin_text(d, goal), events),
        searched_with(find, begin_text(d, goal), events),
        events.len() >= 2,
        write_error(events[0]->Written_0) is None,
    ensures
        ({
            let s = d.waits(
                ExchangeOf::CheckTime { goal, start_ns: events[1]->ns, received: Seq::empty() },
            );
            &&& fits(s, events.skip(2))
            &&& searched_with(find, s, events.skip(2))
            &&& brought(events) == brought(events.skip(2))
        }),
{
    let s = begin_text(d, goal);
    assert(events.skip(0) =~= events);
    let s1 = lemma_step(s, events, 0);
    lemma_search_step(find, s, events, 0);
    let s2 = lemma_step(s1, events, 1);
    lemma_search_step(find, s1, events, 1);
    assert(events.drop_first() =~= events.skip(1));
    assert(events.skip(1).drop_first() =~= events.skip(2));
    assert(events.skip(1)[0] == events[1]);
    assert(brought(events) == brought(events.skip(1)));
}

/// Only the text that comes in decides: two courses of one text command, both within the
/// deadline, end alike if what was read differs only in zero bytes and in reads that brought
/// nothing. When the clock was read does not matter either. `find` is how the reply is looked for
/// in both.
pub proof fn law_only_the_text_decides(
    find: spec_fn(Seq<char>) -> Option<Seq<char>>,
    d: DeviceView,
    goal: TextGoal,
    a: Seq<EventView>,
    b: Seq<EventView>,
)
    requires
        fits(begin_text(d, goal), a),
        fits(begin_text(d, goal), b),
        over_after(text_conduct(goal.line(), a), a.len()),
        over_after(text_conduct(goal.line(), b), b.len()),
        write_error(a[0]->Written_0) == write_error(b[0]->Written_0),
        always_in_time(a[1]->ns, a),
        always_in_time(b[1]->ns, b),
        searched_with(find, begin_text(d, goal), a),
        searched_with(find, begin_text(d, goal), b),
        brought(a) == brought(b),
    ensures
        text_conduct(goal.line(), a)->outcome == text_conduct(goal.line(), b)->outcome,
        run(begin_text(d, goal), a) == run(begin_text(d, goal), b),
{
    lemma_text(d, goal, a);
    lemma_text(d, goal, b);
    if write_error(a[0]->Written_0) is None {
        lemma_wait_begins(find, d, goal, a);
        lemma_wait_begins(find, d, goal, b);
        lemma_same_wait(find, d, goal, a[1]->ns, b[1]->ns, Seq::empty(), a.skip(2), b.skip(2));
    }
}

/// Whether every reply that was found in a course of events is a part of the text that it was
/// looked for in.
pub open spec fn always_quotes(s: Standing, events: Seq<EventView>) -> bool
    decreases events.len(),
{
    events.len() == 0 || {
        &&& s.step matches StepOf::Pending(x) ==> quotes(x, events[0])
        &&& always_quotes(next(s, events[0]), events.drop_first())
    }
}

/// Whether the text of every report of a course of events is free of NUL characters.
pub open spec fn reports_hold_no_nul(events: Seq<EventView>) -> bool {
    forall|i: int|
        0 <= i < events.len() ==> match #[trigger] events[i] {
            EventOf::Received(Ok(report)) => no_nul(report_text(report)),
            _ => true,
        }
}

/// Whether a text command gave a reply that holds a NUL character.
pub open spec fn nul_in_reply(p: TextPhase) -> bool {
    p matches TextPhase::Over { outcome: Ok(reply), .. } && !no_nul(reply)
}

/// One event of a course, the one at `n`, quotes.
proof fn lemma_quote_step(s: Standing, events: Seq<EventView>, n: int)
    requires
        0 <= n < events.len(),
        s.step is Pending,
        always_quotes(s, events.skip(n)),
    ensures
        quotes(s.step->Pending_0, events[n]),
        always_quotes(proceed(s.device, s.step->Pending_0, events[n]), events.skip(n + 1)),
{
    reveal(next);
    assert(events.skip(n).drop_first() =~= events.skip(n + 1));
    assert(events.skip(n)[0] == events[n]);
}

/// A wait for a reply without a NUL in what comes in ends without a NUL in the reply.
proof fn lemma_no_nul_in_wait(
    d: DeviceView,
    goal: TextGoal,
    start_ns: u64,
    received: Seq<char>,
    events: Seq<EventView>,
)
    requires
        fits(d.waits(ExchangeOf::CheckTime { goal, start_ns, received }), events),
        always_quotes(d.waits(ExchangeOf::CheckTime { goal, start_ns, received }), events),
        reports_hold_no_nul(events),
        no_nul(received),
    ensures
        !nul_in_reply(wait_conduct(goal.line(), start_ns, received, events)),
    decreases events.len(),
{
    let s = d.waits(ExchangeOf::CheckTime { goal, start_ns, received });
    assert(events.skip(0) =~= events);
    if events.len() > 0 && in_time(start_ns, events[0]->ns) {
        let s1 = lemma_step(s, events, 0);
        lemma_quote_step(s, events, 0);
        if events.len() > 1 {
            let s2 = lemma_step(s1, events, 1);
            lemma_quote_step(s1, events, 1);
            if let Ok(report) = events[1]->Received_0 {
                if report.len() == 0 {
                    lemma_no_nul_in_wait(d, goal, start_ns, received, events.skip(2));
                } else if events.len() > 2 {
                    let more = received + report_text(report);
                    let s3 = lemma_step(s2, events, 2);
                    lemma_quote_step(s2, events, 2);
                    assert(no_nul(more));
                    if events[2]->Found_0 is None {
                        lemma_no_nul_in_wait(d, goal, start_ns, more, events.skip(3));
                    }
                }
            }
        }
    }
}

/// If the text of no report holds a NUL character, no reply to a text command does. Each reply is
/// taken to be a part of the text that it was looked for in.
pub proof fn law_reply_holds_no_nul_if_no_report_does(
    d: DeviceView,
    goal: TextGoal,
    events: Seq<EventView>,
)
    requires
        fits(begin_text(d, goal), events),
        always_quotes(begin_text(d, goal), events),
        reports_hold_no_nul(events),
    ensures
        text_conduct(goal.line(), events) matches TextPhase::Over { outcome: Ok(reply), .. }
            ==> no_nul(reply),
{
    let s = begin_text(d, goal);
    assert(events.skip(0) =~= events);
    if events.len() > 1 && write_error(events[0]->Written_0) is None {
        let s1 = lemma_step(s, events, 0);
        lemma_quote_step(s, events, 0);
        let s2 = lemma_step(s1, events, 1);
        lemma_quote_step(s1, events, 1);
        lemma_no_nul_in_wait(d, goal, events[1]->ns, Seq::empty(), events.skip(2));
    }
}

/// No reply to a text command holds a NUL character, given that decoding makes one of nothing but
/// a zero byte. Each reply is taken to be a part of the text that it was looked for in.
pub proof fn law_reply_holds_no_nul(d: DeviceView, goal: TextGoal, events: Seq<EventView>)
    requires
        fits(begin_text(d, goal), events),
        always_quotes(begin_text(d, goal), events),
        forall|bytes: Seq<u8>| !bytes.contains(0) ==> no_nul(#[trigger] lossy_text(bytes)),
    ensures
        text_conduct(goal.line(), events) matches TextPhase::Over { outcome: Ok(reply), .. }
            ==> no_nul(reply),
{
    assert forall|i: int| 0 <= i < events.len() implies match #[trigger] events[i] {
        EventOf::Received(Ok(report)) => no_nul(report_text(report)),
        _ => true,
    } by {
        if let EventOf::Received(Ok(report)) = events[i] {
            lemma_without_zeros(report);
        }
    }
    law_reply_holds_no_nul_if_no_report_does(d, goal, events);
}

/// Whether a late reading of the clock, the one at `i`, ended the wait for the reply to `line`.
pub open spec fn ended_by(line: TextCommand, p: TextPhase, i: int) -> bool {
    match p {
        TextPhase::Busy(action) => false,
        TextPhase::Over { outcome, used } => {
            ||| used <= i
            ||| used == i + 1 && outcome == Err::<Seq<char>, DeviceErrorView>(
                DeviceErrorOf::NoReply { command: line },
            )
        },
    }
}

/// Waiting for a reply is bounded by time: a reading of the clock at or past the deadline ends
/// the wait at once and without a reply, unless the wait was over before.
pub proof fn law_no_waiting_past_the_deadline(
    d: DeviceView,
    goal: TextGoal,
    events: Seq<EventView>,
    i: int,
)
    requires
        fits(begin_text(d, goal), events),
        2 <= i < events.len(),
        events[i] is Now,
        !in_time(events[1]->ns, events[i]->ns),
    ensures
        ended_by(goal.line(), text_conduct(goal.line(), events), i),
{
    assert(events.skip(0) =~= events);
    let s1 = lemma_step(begin_text(d, goal), events, 0);
    if write_error(events[0]->Written_0) is None {
        let s2 = lemma_step(s1, events, 1);
        assert(events.skip(2)[i - 2] == events[i]);
        lemma_deadline(d, goal, events[1]->ns, Seq::empty(), events.skip(2), i - 2);
    }
}

/// A late reading of the clock ends the wait.
proof fn lemma_deadline(
    d: DeviceView,
    goal: TextGoal,
    start_ns: u64,
    received: Seq<char>,
    events: Seq<EventView>,
    i: int,
)
    requires
        fits(d.waits(ExchangeOf::CheckTime { goal, start_ns, received }), events),
        0 <= i < events.len(),
        events[i] is Now,
        !in_time(start_ns, events[i]->ns),
    ensures
        ended_by(goal.line(), wait_conduct(goal.line(), start_ns, received, events), i),
    decreases events.len(),
{
    assert(events.skip(0) =~= events);
    let s1 = lemma_step(
        d.waits(ExchangeOf::CheckTime { goal, start_ns, received }),
        events,
        0,
    );
    if in_time(start_ns, events[0]->ns) {
        let s2 = lemma_step(s1, events, 1);
        if let Ok(report) = events[1]->Received_0 {
            if report.len() == 0 {
                assert(events.skip(2)[i - 2] == events[i]);
                lemma_deadline(d, goal, start_ns, received, events.skip(2), i - 2);
            } else {
                let more = received + report_text(report);
                let s3 = lemma_step(s2, events, 2);
                if events[2]->Found_0 is None {
                    assert(events.skip(3)[i - 3] == events[i]);
                    lemma_deadline(d, goal, start_ns, more, events.skip(3), i - 3);
                }
            }
        }
    }
}

/// What looking at the gain comes to once its reply is there: it is applied, and the gain that it
/// brings is held against the one that the MV7 should have.
pub open spec fn gain_check_conduct(
    gain_tenths: u16,
    reply: Seq<char>,
    events: Seq<EventView>,
) -> Phase {
    if events.len() == 0 {
        Phase::Perform(ActionOf::ApplyReply { line: TextCommand::GetGain, reply })
    } else if !events[0]->Applied_0.recognised {
        Phase::Finished(
            Err(DeviceErrorOf::Rejected { command: TextCommand::SetGain { gain_tenths } }),
        )
    } else if events.len() == 1 {
        Phase::Perform(ActionOf::SnapGain { gain_tenths })
    } else if events[0]->Applied_0.gain_tenths == events[1]->Snapped_gain_tenths {
        Phase::Finished(Ok(OutputOf::Accepted))
    } else {
        Phase::Finished(
            Err(DeviceErrorOf::Rejected { command: TextCommand::SetGain { gain_tenths } }),
        )
    }
}

/// What changing the gain of the MV7 comes to after a course of events.
pub open spec fn gain_conduct(d: DeviceView, gain_tenths: u16, events: Seq<EventView>) -> Phase {
    match text_conduct(TextCommand::SetGain { gain_tenths }, events) {
        TextPhase::Busy(action) => Phase::Perform(action),
        TextPhase::Over { outcome: Err(error), used } => Phase::Finished(Err(error)),
        TextPhase::Over { outcome: Ok(reply), used } => if reply != d.codec.failed_reply {
            Phase::Finished(
                reply_outcome(d.codec, TextCommand::SetGain { gain_tenths }, reply),
            )
        } else {
            let rest = events.skip(used as int);
            match text_conduct(TextCommand::GetGain, rest) {
                TextPhase::Busy(action) => Phase::Perform(action),
                TextPhase::Over { outcome: Err(error), used } => Phase::Finished(Err(error)),
                TextPhase::Over { outcome: Ok(reply), used } => {
                    gain_check_conduct(gain_tenths, reply, rest.skip(used as int))
                },
            }
        },
    }
}

/// A rejected gain is only an error if the MV7 does not have that gain already: after a
/// rejection the gain is read back, and the change counts as made if it is the one asked for.
pub proof fn law_rejected_gain_is_read_back(
    d: DeviceView,
    gain_tenths: u16,
    events: Seq<EventView>,
)
    requires
        fits(begin_text(d, TextGoal::ChangeGain { gain_tenths }), events),
    ensures
        phase(run(begin_text(d, TextGoal::ChangeGain { gain_tenths }), events).step)
            == gain_conduct(d, gain_tenths, events),
{
    lemma_text(d, TextGoal::ChangeGain { gain_tenths }, events);
    if let TextPhase::Over { outcome: Ok(reply), used } = text_conduct(
        TextCommand::SetGain { gain_tenths },
        events,
    ) {
        if reply == d.codec.failed_reply {
            let goal = TextGoal::CheckGain { gain_tenths };
            let rest = events.skip(used as int);
            lemma_text(d, goal, rest);
            if let TextPhase::Over { outcome: Ok(reply), used } = text_conduct(
                TextCommand::GetGain,
                rest,
            ) {
                let last = rest.skip(used as int);
                let s = d.waits(ExchangeOf::ApplyReply { goal, reply });
                assert(last.skip(0) =~= last);
                if last.len() > 0 {
                    let s1 = lemma_step(s, last, 0);
                    if last.len() > 1 {
                        let s2 = lemma_step(s1, last, 1);
                        if last.len() > 2 {
                            let s3 = lemma_step(s2, last, 2);
                        }
                    }
                }
            }
        }
    }
}

/// What querying the state of the MV7 comes to after a course of events, from the query at
/// `index` on: each query's reply is applied, and the first error ends it.
pub open spec fn text_state_conduct(d: DeviceView, index: nat, events: Seq<EventView>) -> Phase
    decreases events.len(),
{
    if index >= d.codec.state_queries {
        Phase::Finished(Ok(OutputOf::State { playback_mix: None }))
    } else {
        let line = TextCommand::StateQuery { index: index as usize };
        match text_conduct(line, events) {
            TextPhase::Busy(action) => Phase::Perform(action),
            TextPhase::Over { outcome: Err(error), used } => Phase::Finished(Err(error)),
            TextPhase::Over { outcome: Ok(reply), used } => if used >= events.len() {
                Phase::Perform(ActionOf::ApplyReply { line, reply })
            } else {
                text_state_conduct(d, index + 1, events.skip(used as int + 1))
            },
        }
    }
}

/// The state of the MV7 is queried one command line after the other. Every reply is applied, and
/// a query without a reply fails the whole.
pub proof fn law_text_state_is_complete(d: DeviceView, index: nat, events: Seq<EventView>)
    requires
        d.model is Mv7,
        fits(query_state(d, index as int), events),
    ensures
        phase(run(query_state(d, index as int), events).step) == text_state_conduct(
            d,
            index,
            events,
        ),
    decreases events.len(),
{
    if index < d.codec.state_queries {
        let goal = TextGoal::State { index: index as usize };
        lemma_text(d, goal, events);
        if let TextPhase::Over { outcome: Ok(reply), used } = text_conduct(goal.line(), events) {
            if used < events.len() {
                let s = lemma_step(
                    d.waits(ExchangeOf::ApplyReply { goal, reply }),
                    events,
                    used as int,
                );
                law_text_state_is_complete(d, index + 1, events.skip(used as int + 1));
            }
        }
    }
}

/// What querying the factory serial number of the MV7 comes to after a course of events.
pub open spec fn text_serial_conduct(events: Seq<EventView>) -> Phase {
    match text_conduct(TextCommand::GetSerial, events) {
        TextPhase::Busy(action) => Phase::Perform(action),
        TextPhase::Over { outcome: Err(error), used } => Phase::Finished(
            Ok(OutputOf::Serial { factory_serial: None }),
        ),
        TextPhase::Over { outcome: Ok(reply), used } => if used >= events.len() {
            Phase::Perform(ActionOf::ApplyReply { line: TextCommand::GetSerial, reply })
        } else {
            Phase::Finished(Ok(serial_output(events[used as int]->Applied_0)))
        },
    }
}

/// The MV7's factory serial number is what its reply brings, if that is recognised.
pub proof fn law_text_serial_is_what_the_reply_brings(d: DeviceView, events: Seq<EventView>)
    requires
        d.model is Mv7,
        fits(query_serial(d), events),
    ensures
        phase(run(query_serial(d), events).step) == text_serial_conduct(events),
{
    let goal = TextGoal::Serial;
    lemma_text(d, goal, events);
    if let TextPhase::Over { outcome: Ok(reply), used } = text_conduct(goal.line(), events) {
        if used < events.len() {
            let s = lemma_step(
                d.waits(ExchangeOf::ApplyReply { goal, reply }),
                events,
                used as int,
            );
            if used + 1 < events.len() {
                let t = lemma_step(s, events, used as int + 1);
            }
        }
    }
}

// ---------------------------------------------------------------------------------------------
// Binary GETs
// ---------------------------------------------------------------------------------------------

/// Where a GET stands within a longer operation.
pub enum GetPhase {
    /// It needs an action.
    Busy(ActionView),
    /// It is over after `used` events, with a response or without.
    Over { response: Option<ResponseOf<Seq<u8>>>, used: nat },
}

/// What a GET comes to after a course of events: the request is written, one report is read and
/// parsed. Whatever fails on the way, there is no response.
pub open spec fn get_conduct(seq: u8, getter: Getter, events: Seq<EventView>) -> GetPhase {
    if events.len() == 0 {
        GetPhase::Busy(
            ActionOf::Write {
                packet: Packet::Binary { seq, command: Command::GetFeature(getter) },
            },
        )
    } else if write_error(events[0]->Written_0) is Some {
        GetPhase::Over { response: None, used: 1 }
    } else if events.len() == 1 {
        GetPhase::Busy(ActionOf::Read { timeout_ms: READ_TIMEOUT_MS })
    } else {
        match read_report(events[1]->Received_0) {
            Err(error) => GetPhase::Over { response: None, used: 2 },
            Ok(report) => if getter is Mv7PlaybackMix {
                if events.len() == 2 {
                    GetPhase::Busy(ActionOf::ParsePrefixed { report })
                } else {
                    GetPhase::Over {
                        response: match events[2]->ParsedPrefixed_0 {
                            Some((prefix, response)) => Some(response),
                            None => None,
                        },
                        used: 3,
                    }
                }
            } else if events.len() == 2 {
                GetPhase::Busy(ActionOf::Parse { report })
            } else {
                GetPhase::Over { response: events[2]->Parsed_0, used: 3 }
            },
        }
    }
}

/// Where an operation stands when its GET is over.
pub open spec fn get_over(
    d: DeviceView,
    goal: GetGoal,
    getter: Getter,
    response: Option<ResponseOf<Seq<u8>>>,
) -> Standing {
    match response {
        None => pass_over(d, goal),
        Some(response) => if getter is Mv7PlaybackMix {
            playback_mix_parsed(d, goal, Some((0, response)))
        } else {
            d.waits(ExchangeOf::ApplyResponse { goal, getter, response })
        },
    }
}

/// A GET within an operation goes as `get_conduct` says.
proof fn lemma_get(d: DeviceView, goal: GetGoal, getter: Getter, events: Seq<EventView>)
    requires
        d.model !is Mv7,
        fits(begin_get(d, goal, getter), events),
    ensures
        match get_conduct(d.seq, getter, events) {
            GetPhase::Busy(action) => phase(run(begin_get(d, goal, getter), events).step)
                == Phase::Perform(action),
            GetPhase::Over { response, used } => {
                let s = get_over(d.numbered(), goal, getter, response);
                &&& 0 < used <= events.len()
                &&& run(begin_get(d, goal, getter), events) == run(s, events.skip(used as int))
                &&& fits(s, events.skip(used as int))
            },
        },
{
    let s = begin_get(d, goal, getter);
    assert(events.skip(0) =~= events);
    if events.len() > 0 {
        let s1 = lemma_step(s, events, 0);
        if write_error(events[0]->Written_0) is None && events.len() > 1 {
            let s2 = lemma_step(s1, events, 1);
            if read_report(events[1]->Received_0) is Ok && events.len() > 2 {
                let s3 = lemma_step(s2, events, 2);
            }
        }
    }
}

/// What querying the state in the binary protocol comes to after a course of events, from the
/// query at `index` on, when its packet gets the number `seq`.
///
/// A query that fails, or whose report holds no response, is passed over. Every other response
/// is applied, but for the playback mix, which is kept as it is, cut off at its highest value.
pub open spec fn state_conduct(
    plan: Seq<Getter>,
    index: nat,
    seq: u8,
    events: Seq<EventView>,
) -> Phase
    decreases plan.len() - index,
{
    if index >= plan.len() {
        Phase::Finished(Ok(OutputOf::State { playback_mix: None }))
    } else {
        let getter = plan[index as int];
        match get_conduct(seq, getter, events) {
            GetPhase::Busy(action) => Phase::Perform(action),
            GetPhase::Over { response: None, used } => state_conduct(
                plan,
                index + 1,
                later_seq(seq, 1),
                events.skip(used as int),
            ),
            GetPhase::Over { response: Some(response), used } => if getter is Mv7PlaybackMix {
                Phase::Finished(
                    Ok(
                        OutputOf::State {
                            playback_mix: if response.value.len() == 0 {
                                None
                            } else if response.value[0] < PLAYBACK_MIX_MAX {
                                Some(response.value[0])
                            } else {
                                Some(PLAYBACK_MIX_MAX)
                            },
                        },
                    ),
                )
            } else if used >= events.len() {
                Phase::Perform(
                    ActionOf::ApplyResponse {
                        getter,
                        feature: response.feature,
                        value: response.value,
                    },
                )
            } else {
                state_conduct(plan, index + 1, later_seq(seq, 1), events.skip(used as int + 1))
            },
        }
    }
}

/// The state is queried feature by feature as the model's plan says, and every response is
/// applied, whatever becomes of the other queries.
pub proof fn law_state_is_complete(d: DeviceView, index: nat, events: Seq<EventView>)
    requires
        d.model !is Mv7,
        fits(query_state(d, index as int), events),
    ensures
        phase(run(query_state(d, index as int), events).step) == state_conduct(
            state_plan(d.model),
            index,
            d.seq,
            events,
        ),
    decreases state_plan(d.model).len() - index,
{
    let plan = state_plan(d.model);
    lemma_plan_len(d.model);
    if index < plan.len() {
        let getter = plan[index as int];
        let goal = GetGoal::State { index: index as usize };
        law_playback_mix_comes_last(d.model, index as int);
        lemma_get(d, goal, getter, events);
        if let GetPhase::Over { response, used } = get_conduct(d.seq, getter, events) {
            let next = d.numbered();
            if response is None {
                law_state_is_complete(next, index + 1, events.skip(used as int));
            } else if !(getter is Mv7PlaybackMix) && used < events.len() {
                let s = lemma_step(
                    get_over(next, goal, getter, response),
                    events,
                    used as int,
                );
                law_state_is_complete(next, index + 1, events.skip(used as int + 1));
            } else if getter is Mv7PlaybackMix {
                assert(query_state(next, index as int + 1).step is Done);
            }
        }
    }
}

/// What querying the factory serial number in the binary protocol comes to after a course of
/// events.
pub open spec fn serial_conduct(seq: u8, events: Seq<EventView>) -> Phase {
    match get_conduct(seq, Getter::Serial, events) {
        GetPhase::Busy(action) => Phase::Perform(action),
        GetPhase::Over { response: None, used } => Phase::Finished(
            Ok(OutputOf::Serial { factory_serial: None }),
        ),
        GetPhase::Over { response: Some(response), used } => if used >= events.len() {
            Phase::Perform(
                ActionOf::ApplyResponse {
                    getter: Getter::Serial,
                    feature: response.feature,
                    value: response.value,
                },
            )
        } else {
            Phase::Finished(Ok(serial_output(events[used as int]->Applied_0)))
        },
    }
}

/// The factory serial number is what the response brings, if that is recognised.
pub proof fn law_serial_is_what_the_response_brings(d: DeviceView, events: Seq<EventView>)
    requires
        d.model !is Mv7,
        fits(query_serial(d), events),
    ensures
        phase(run(query_serial(d), events).step) == serial_conduct(d.seq, events),
{
    lemma_get(d, GetGoal::Serial, Getter::Serial, events);
    if let GetPhase::Over { response: Some(response), used } = get_conduct(
        d.seq,
        Getter::Serial,
        events,
    ) {
        if used < events.len() {
            let s = lemma_step(
                get_over(d.numbered(), GetGoal::Serial, Getter::Serial, Some(response)),
                events,
                used as int,
            );
            if used + 1 < events.len() {
                let t = lemma_step(s, events, used as int + 1);
            }
        }
    }
}

} // verus!
