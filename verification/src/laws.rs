//! What holds of every operation, whatever the events.

use vstd::prelude::*;

use crate::command::{Command, Getter, Packet, Setter, TextCommand};
use crate::exchange::{
    action_of, ActionOf, DeviceView, EventView, ExchangeOf, ExchangeView, GetGoal, OutputOf, StepOf,
    StepView, TextGoal, PLAYBACK_MIX_MAX,
};
use crate::plan::{law_playback_mix_comes_last, lemma_plan_len, state_plan};
use crate::progress::{
    begin_get, begin_mv7_only, begin_reset, begin_set, begun, binary_check, clamped_gain,
    query_serial, query_state, text_check, Standing,
};
use crate::run::{
    awaited, fits, later_seq, law_serial_is_what_the_response_brings,
    law_text_serial_is_what_the_reply_brings, next, run,
};

verus! {

/// Whether an exchange is in the binary protocol.
pub open spec fn is_binary(x: ExchangeView) -> bool {
    match x {
        ExchangeOf::SendSet { .. }
        | ExchangeOf::SendConfirm { .. }
        | ExchangeOf::Drain { .. }
        | ExchangeOf::SendReset { .. }
        | ExchangeOf::SendGet { .. }
        | ExchangeOf::ReadReport { .. }
        | ExchangeOf::ParseReport { .. }
        | ExchangeOf::ApplyResponse { .. } => true,
        _ => false,
    }
}

/// The packet that an operation is about to write, if it is.
#[verifier::opaque]
pub open spec fn outgoing(step: StepView) -> Option<Packet> {
    match step {
        StepOf::Pending(x) => match action_of(x) {
            ActionOf::Write { packet } => Some(packet),
            _ => None,
        },
        StepOf::Done(_) => None,
    }
}

/// The packets that an operation wrote, or tried to, in a course of events.
pub open spec fn packets(s: Standing, events: Seq<EventView>) -> Seq<Packet>
    decreases events.len(),
{
    if events.len() == 0 {
        Seq::empty()
    } else {
        let rest = packets(next(s, events[0]), events.drop_first());
        match outgoing(s.step) {
            Some(packet) => seq![packet] + rest,
            None => rest,
        }
    }
}

/// Whether an operation is in the protocol that the model speaks.
pub open spec fn in_protocol(s: Standing) -> bool {
    s.step is Pending ==> (is_binary(s.step->Pending_0) <==> s.device.model !is Mv7)
}

/// Every operation begins in the protocol that the model speaks.
proof fn lemma_begun_in_protocol(d: DeviceView, s: Standing)
    requires
        begun(d, s),
    ensures
        in_protocol(s),
        s.device.model == d.model,
{
}

/// One event keeps the protocol.
proof fn lemma_protocol_step(s: Standing, event: EventView) -> (t: Standing)
    requires
        in_protocol(s),
        awaited(s, event),
    ensures
        t == next(s, event),
        in_protocol(t),
        t.device.model == s.device.model,
{
    reveal(awaited);
    reveal(next);
    next(s, event)
}

/// A packet about to be written is in the protocol that the model speaks.
proof fn lemma_outgoing(s: Standing)
    requires
        in_protocol(s),
    ensures
        outgoing(s.step) is Some ==> (outgoing(s.step)->0 is Text <==> s.device.model is Mv7),
{
    reveal(outgoing);
}

/// A course of events keeps the protocol.
proof fn lemma_stays_in_protocol(s: Standing, events: Seq<EventView>)
    requires
        in_protocol(s),
        fits(s, events),
    ensures
        in_protocol(run(s, events)),
        run(s, events).device.model == s.device.model,
        forall|k: int|
            0 <= k < packets(s, events).len() ==> (#[trigger] packets(s, events)[k] is Text
                <==> s.device.model is Mv7),
    decreases events.len(),
{
    if events.len() > 0 {
        let t = lemma_protocol_step(s, events[0]);
        lemma_outgoing(s);
        lemma_stays_in_protocol(t, events.drop_first());
    }
}

/// The MV7 is sent command lines and nothing else: no operation ever writes a binary packet to
/// it, which it would take for a garbled command line.
pub proof fn law_mv7_gets_no_binary_packet(d: DeviceView, s: Standing, events: Seq<EventView>)
    requires
        d.model is Mv7,
        begun(d, s),
        fits(s, events),
    ensures
        forall|k: int|
            0 <= k < packets(s, events).len() ==> #[trigger] packets(s, events)[k] is Text,
        outgoing(run(s, events).step) is Some ==> outgoing(run(s, events).step)->0 is Text,
{
    lemma_begun_in_protocol(d, s);
    lemma_stays_in_protocol(s, events);
    lemma_outgoing(run(s, events));
}

/// No model but the MV7 is ever sent a command line.
pub proof fn law_only_the_mv7_gets_text(d: DeviceView, s: Standing, events: Seq<EventView>)
    requires
        d.model !is Mv7,
        begun(d, s),
        fits(s, events),
    ensures
        forall|k: int|
            0 <= k < packets(s, events).len() ==> #[trigger] packets(s, events)[k] is Binary,
        outgoing(run(s, events).step) is Some ==> outgoing(run(s, events).step)->0 is Binary,
{
    lemma_begun_in_protocol(d, s);
    lemma_stays_in_protocol(s, events);
    lemma_outgoing(run(s, events));
}

/// An operation changes nothing of a device but the number of the next packet.
pub proof fn law_operation_keeps_the_device(d: DeviceView, s: Standing, events: Seq<EventView>)
    requires
        begun(d, s),
    ensures
        run(s, events).device == (DeviceView { seq: run(s, events).device.seq, ..d }),
{
    assert(s.device == (DeviceView { seq: s.device.seq, ..d }));
    lemma_run_keeps_the_device(s, events);
}

/// A course of events changes nothing of a device but the number of the next packet.
proof fn lemma_run_keeps_the_device(s: Standing, events: Seq<EventView>)
    ensures
        run(s, events).device == (DeviceView { seq: run(s, events).device.seq, ..s.device }),
    decreases events.len(),
{
    if events.len() > 0 {
        let t = next(s, events[0]);
        assert(t.device == (DeviceView { seq: t.device.seq, ..s.device })) by {
            reveal(next);
        }
        lemma_run_keeps_the_device(t, events.drop_first());
    }
}

/// Operations in the text protocol leave the number of the next binary packet alone: no event
/// changes an MV7, and an operation that is not refused leaves it as it was.
pub proof fn law_text_takes_no_number(d: DeviceView, s: Standing, events: Seq<EventView>)
    requires
        d.model is Mv7,
        begun(d, s),
        fits(s, events),
    ensures
        run(s, events).device == s.device,
        s.step is Pending ==> run(s, events).device == d,
{
    lemma_begun_in_protocol(d, s);
    lemma_text_keeps_the_device(s, events);
}

/// A course of events changes nothing of an MV7.
proof fn lemma_text_keeps_the_device(s: Standing, events: Seq<EventView>)
    requires
        s.device.model is Mv7,
        in_protocol(s),
        fits(s, events),
    ensures
        run(s, events).device == s.device,
    decreases events.len(),
{
    if events.len() > 0 {
        let t = lemma_protocol_step(s, events[0]);
        assert(t.device == s.device) by {
            reveal(next);
        }
        lemma_text_keeps_the_device(t, events.drop_first());
    }
}

// ---------------------------------------------------------------------------------------------
// Numbering
// ---------------------------------------------------------------------------------------------

/// The number of the next binary packet that an operation writes.
pub open spec fn upcoming_seq(s: Standing) -> u8 {
    match outgoing(s.step) {
        Some(Packet::Binary { seq, command }) => seq,
        _ => s.device.seq,
    }
}

/// Whether the device speaks the binary protocol, and a packet that is about to be written was
/// numbered last.
spec fn numbering_holds(s: Standing) -> bool {
    &&& s.device.model !is Mv7
    &&& in_protocol(s)
    &&& outgoing(s.step) is Some ==> {
        &&& outgoing(s.step)->0 is Binary
        &&& s.device.seq == later_seq(upcoming_seq(s), 1)
    }
}

/// Counting on from a later number.
proof fn lemma_later_seq(seq: u8, m: nat, n: nat)
    ensures
        later_seq(later_seq(seq, m), n) == later_seq(seq, m + n),
        later_seq(seq, 0) == seq,
{
}

/// One event keeps the numbering, and takes it on if a packet was written.
proof fn lemma_numbering_step(s: Standing, event: EventView) -> (t: Standing)
    requires
        numbering_holds(s),
        awaited(s, event),
    ensures
        t == next(s, event),
        numbering_holds(t),
        upcoming_seq(t) == if outgoing(s.step) is Some {
            later_seq(upcoming_seq(s), 1)
        } else {
            upcoming_seq(s)
        },
{
    reveal(awaited);
    reveal(next);
    reveal(outgoing);
    lemma_plan_len(s.device.model);
    next(s, event)
}

/// Whether packets carry consecutive numbers from `seq` on.
pub open spec fn numbered_from(sent: Seq<Packet>, seq: u8) -> bool {
    forall|k: int|
        0 <= k < sent.len() ==> {
            &&& #[trigger] sent[k] is Binary
            &&& sent[k]->seq == later_seq(seq, k as nat)
        }
}

/// A packet in front of others that are numbered on from it.
proof fn lemma_numbered_from(packet: Packet, rest: Seq<Packet>, seq: u8)
    requires
        packet is Binary,
        packet->seq == seq,
        numbered_from(rest, later_seq(seq, 1)),
    ensures
        numbered_from(seq![packet] + rest, seq),
{
    let sent = seq![packet] + rest;
    assert forall|k: int| 0 <= k < sent.len() implies {
        &&& #[trigger] sent[k] is Binary
        &&& sent[k]->seq == later_seq(seq, k as nat)
    } by {
        if k > 0 {
            assert(sent[k] == rest[k - 1]);
            lemma_later_seq(seq, 1, (k - 1) as nat);
        }
    }
}

/// A course of events keeps the numbering.
proof fn lemma_numbering(s: Standing, events: Seq<EventView>)
    requires
        numbering_holds(s),
        fits(s, events),
    ensures
        numbered_from(packets(s, events), upcoming_seq(s)),
        upcoming_seq(run(s, events)) == later_seq(upcoming_seq(s), packets(s, events).len()),
        numbering_holds(run(s, events)),
    decreases events.len(),
{
    lemma_later_seq(upcoming_seq(s), 0, 0);
    if events.len() > 0 {
        let t = lemma_numbering_step(s, events[0]);
        let rest = packets(t, events.drop_first());
        lemma_numbering(t, events.drop_first());
        if let Some(packet) = outgoing(s.step) {
            lemma_numbered_from(packet, rest, upcoming_seq(s));
            lemma_later_seq(upcoming_seq(s), 1, rest.len());
        }
    }
}

/// The binary packets of an operation carry consecutive numbers, from the device's next number
/// on and around after 255. When the operation is done the device goes on from there, so the
/// packets of successive operations are numbered without a gap too.
pub proof fn law_packets_are_numbered_in_order(d: DeviceView, s: Standing, events: Seq<EventView>)
    requires
        d.model !is Mv7,
        begun(d, s),
        fits(s, events),
    ensures
        numbered_from(packets(s, events), d.seq),
        upcoming_seq(run(s, events)) == later_seq(d.seq, packets(s, events).len()),
        run(s, events).step is Done ==> run(s, events).device.seq == later_seq(
            d.seq,
            packets(s, events).len(),
        ),
{
    lemma_plan_len(d.model);
    lemma_begun_in_protocol(d, s);
    assert(upcoming_seq(s) == d.seq && numbering_holds(s)) by {
        reveal(outgoing);
    }
    lemma_numbering(s, events);
    assert(run(s, events).step is Done ==> outgoing(run(s, events).step) is None) by {
        reveal(outgoing);
    }
}

// ---------------------------------------------------------------------------------------------
// Reading the state
// ---------------------------------------------------------------------------------------------

/// Whether the state of a model with the binary protocol is being queried.
spec fn querying(s: Standing) -> bool {
    &&& s.device.model !is Mv7
    &&& match s.step {
        StepOf::Pending(x) => match x {
            ExchangeOf::SendGet { goal: GetGoal::State { index }, seq, getter } => {
                &&& index < state_plan(s.device.model).len()
                &&& getter == state_plan(s.device.model)[index as int]
                &&& s.device.seq == later_seq(seq, 1)
            },
            ExchangeOf::ReadReport { goal: GetGoal::State { index }, getter }
            | ExchangeOf::ParseReport { goal: GetGoal::State { index }, getter, .. }
            | ExchangeOf::ApplyResponse { goal: GetGoal::State { index }, getter, .. } => {
                &&& index < state_plan(s.device.model).len()
                &&& getter == state_plan(s.device.model)[index as int]
            },
            _ => false,
        },
        StepOf::Done(outcome) => outcome is Ok && outcome->Ok_0 is State,
    }
}

/// The index of the next query to be written.
spec fn next_query(s: Standing) -> nat {
    match s.step {
        StepOf::Pending(x) => match x {
            ExchangeOf::SendGet { goal: GetGoal::State { index }, .. } => index as nat,
            ExchangeOf::ReadReport { goal: GetGoal::State { index }, .. }
            | ExchangeOf::ParseReport { goal: GetGoal::State { index }, .. }
            | ExchangeOf::ApplyResponse { goal: GetGoal::State { index }, .. } => index as nat + 1,
            _ => 0,
        },
        StepOf::Done(_) => state_plan(s.device.model).len(),
    }
}

/// How many events there can still be.
spec fn events_left(s: Standing) -> int {
    match s.step {
        StepOf::Pending(x) => {
            let later = 4 * (state_plan(s.device.model).len() - next_query(s));
            match x {
                ExchangeOf::SendGet { .. } => later,
                ExchangeOf::ReadReport { .. } => later + 3,
                ExchangeOf::ParseReport { .. } => later + 2,
                _ => later + 1,
            }
        },
        StepOf::Done(_) => 0,
    }
}

/// One event keeps the state query going, and takes it on if a packet was written.
proof fn lemma_querying_step(s: Standing, event: EventView) -> (t: Standing)
    requires
        querying(s),
        awaited(s, event),
    ensures
        t == next(s, event),
        querying(t),
        t.device.model == s.device.model,
        match outgoing(s.step) {
            Some(packet) => {
                &&& packet is Binary
                &&& next_query(s) < state_plan(s.device.model).len()
                &&& packet->Binary_command == Command::GetFeature(
                    state_plan(s.device.model)[next_query(s) as int],
                )
                &&& next_query(t) == next_query(s) + 1
            },
            None => next_query(t) == next_query(s),
        },
        events_left(t) < events_left(s),
        events_left(t) == 0 ==> t.step is Done,
{
    reveal(awaited);
    reveal(next);
    reveal(outgoing);
    lemma_plan_len(s.device.model);
    if let ExchangeOf::ParseReport { goal: GetGoal::State { index }, getter, .. }
        = s.step->Pending_0 {
        law_playback_mix_comes_last(s.device.model, index as int);
    }
    next(s, event)
}

/// Whether packets are the GETs of a plan from the query at `index` on.
spec fn reads_from(sent: Seq<Packet>, plan: Seq<Getter>, index: nat) -> bool {
    forall|k: int|
        0 <= k < sent.len() ==> {
            &&& #[trigger] sent[k] is Binary
            &&& sent[k]->Binary_command == Command::GetFeature(plan[index + k])
        }
}

/// A course of events takes the state query on along the plan.
proof fn lemma_querying(s: Standing, events: Seq<EventView>)
    requires
        querying(s),
        fits(s, events),
    ensures
        querying(run(s, events)),
        run(s, events).device.model == s.device.model,
        next_query(run(s, events)) == next_query(s) + packets(s, events).len(),
        next_query(run(s, events)) <= state_plan(s.device.model).len(),
        events.len() <= events_left(s),
        events.len() == events_left(s) ==> run(s, events).step is Done,
        reads_from(packets(s, events), state_plan(s.device.model), next_query(s)),
    decreases events.len(),
{
    lemma_plan_len(s.device.model);
    if events.len() > 0 {
        let t = lemma_querying_step(s, events[0]);
        let rest = packets(t, events.drop_first());
        lemma_querying(t, events.drop_first());
        if let Some(packet) = outgoing(s.step) {
            let sent = seq![packet] + rest;
            assert forall|k: int| 0 <= k < sent.len() implies {
                &&& #[trigger] sent[k] is Binary
                &&& sent[k]->Binary_command == Command::GetFeature(
                    state_plan(s.device.model)[next_query(s) + k],
                )
            } by {
                if k > 0 {
                    assert(sent[k] == rest[k - 1]);
                }
            }
        }
    }
}

/// Reading the state in the binary protocol sends one GET for each feature of the model's plan,
/// in that order and with consecutive numbers, and nothing else: no setting is changed.
pub proof fn law_reading_the_state_only_reads(d: DeviceView, events: Seq<EventView>)
    requires
        d.model !is Mv7,
        fits(query_state(d, 0), events),
    ensures
        packets(query_state(d, 0), events).len() <= state_plan(d.model).len(),
        run(query_state(d, 0), events).step is Done ==> packets(
            query_state(d, 0),
            events,
        ).len() == state_plan(d.model).len(),
        forall|k: int|
            0 <= k < packets(query_state(d, 0), events).len() ==> #[trigger] packets(
                query_state(d, 0),
                events,
            )[k] == (Packet::Binary {
                seq: later_seq(d.seq, k as nat),
                command: Command::GetFeature(state_plan(d.model)[k]),
            }),
{
    let s = query_state(d, 0);
    lemma_plan_len(d.model);
    assert(querying(s));
    assert(begun(d, s));
    lemma_querying(s, events);
    law_packets_are_numbered_in_order(d, s, events);
}

/// Reading the state in the binary protocol never fails: queries that do are passed over.
pub proof fn law_reading_the_state_succeeds(d: DeviceView, events: Seq<EventView>)
    requires
        d.model !is Mv7,
        fits(query_state(d, 0), events),
        run(query_state(d, 0), events).step is Done,
    ensures
        run(query_state(d, 0), events).step->Done_0 is Ok,
        run(query_state(d, 0), events).step->Done_0->Ok_0 is State,
{
    let s = query_state(d, 0);
    lemma_plan_len(d.model);
    assert(querying(s));
    lemma_querying(s, events);
}

/// Reading the state in the binary protocol is over after four events per feature at the latest.
pub proof fn law_reading_the_state_ends(d: DeviceView, events: Seq<EventView>)
    requires
        d.model !is Mv7,
        fits(query_state(d, 0), events),
    ensures
        events.len() <= 4 * state_plan(d.model).len(),
        events.len() == 4 * state_plan(d.model).len() ==> run(
            query_state(d, 0),
            events,
        ).step is Done,
{
    let s = query_state(d, 0);
    lemma_plan_len(d.model);
    assert(querying(s));
    lemma_querying(s, events);
}

/// The goal of a text command that an exchange is about.
spec fn text_goal(x: ExchangeView) -> Option<TextGoal> {
    match x {
        ExchangeOf::SendText { goal }
        | ExchangeOf::StartWait { goal }
        | ExchangeOf::CheckTime { goal, .. }
        | ExchangeOf::ReadText { goal, .. }
        | ExchangeOf::FindReply { goal, .. }
        | ExchangeOf::ApplyReply { goal, .. } => Some(goal),
        _ => None,
    }
}

/// Whether the state of an MV7 is being queried.
spec fn asking(s: Standing) -> bool {
    &&& s.device.model is Mv7
    &&& match s.step {
        StepOf::Pending(x) => match text_goal(x) {
            Some(TextGoal::State { index }) => index < s.device.codec.state_queries,
            _ => false,
        },
        StepOf::Done(outcome) => outcome is Ok ==> outcome->Ok_0 is State,
    }
}

/// The index of the next command line to be written, or how many there are once the state is
/// complete.
spec fn next_line(s: Standing) -> nat {
    match s.step {
        StepOf::Pending(x) => match text_goal(x) {
            Some(TextGoal::State { index }) => if x is SendText {
                index as nat
            } else {
                index as nat + 1
            },
            _ => 0,
        },
        StepOf::Done(_) => s.device.codec.state_queries as nat,
    }
}

/// Whether an operation failed.
spec fn failed(step: StepView) -> bool {
    step is Done && step->Done_0 is Err
}

/// One event keeps the state query going, and takes it on if a command line was written.
proof fn lemma_asking_step(s: Standing, event: EventView) -> (t: Standing)
    requires
        asking(s),
        awaited(s, event),
    ensures
        t == next(s, event),
        asking(t),
        t.device == s.device,
        match outgoing(s.step) {
            Some(packet) => {
                &&& packet == (Packet::Text {
                    line: TextCommand::StateQuery { index: next_line(s) as usize },
                })
                &&& next_line(s) < s.device.codec.state_queries
                &&& failed(t.step) || next_line(t) == next_line(s) + 1
            },
            None => failed(t.step) || next_line(t) == next_line(s),
        },
{
    reveal(awaited);
    reveal(next);
    reveal(outgoing);
    next(s, event)
}

/// A course of events takes the state query of an MV7 on.
proof fn lemma_asking(s: Standing, events: Seq<EventView>)
    requires
        asking(s),
        fits(s, events),
    ensures
        asking(run(s, events)),
        run(s, events).device == s.device,
        failed(s.step) || next_line(s) + packets(s, events).len() <= s.device.codec.state_queries,
        failed(run(s, events).step) || next_line(run(s, events)) == next_line(s) + packets(
            s,
            events,
        ).len(),
        asks_from(packets(s, events), next_line(s)),
    decreases events.len(),
{
    if events.len() > 0 {
        let t = lemma_asking_step(s, events[0]);
        let rest = packets(t, events.drop_first());
        lemma_asking(t, events.drop_first());
        if failed(t.step) {
            assert(fits(t, events.drop_first()));
            assert(rest.len() == 0);
        }
        if let Some(packet) = outgoing(s.step) {
            let sent = seq![packet] + rest;
            assert forall|k: int| 0 <= k < sent.len() implies #[trigger] sent[k] == (Packet::Text {
                line: TextCommand::StateQuery { index: (next_line(s) + k) as usize },
            }) by {
                if k > 0 {
                    assert(sent[k] == rest[k - 1]);
                }
            }
        }
    }
}

/// Whether packets are the state queries of the text protocol from the one at `index` on.
pub open spec fn asks_from(sent: Seq<Packet>, index: nat) -> bool {
    forall|k: int|
        0 <= k < sent.len() ==> #[trigger] sent[k] == (Packet::Text {
            line: TextCommand::StateQuery { index: (index + k) as usize },
        })
}

/// Reading the state of the MV7 sends the state queries one after the other and nothing else: no
/// setting is changed. It succeeds only once all of them were sent.
pub proof fn law_reading_the_mv7_state_only_reads(d: DeviceView, events: Seq<EventView>)
    requires
        d.model is Mv7,
        fits(query_state(d, 0), events),
    ensures
        asks_from(packets(query_state(d, 0), events), 0),
        packets(query_state(d, 0), events).len() <= d.codec.state_queries,
        run(query_state(d, 0), events).step matches StepOf::Done(Ok(output)) ==> {
            &&& output is State
            &&& packets(query_state(d, 0), events).len() == d.codec.state_queries
        },
{
    let s = query_state(d, 0);
    lemma_asking(s, events);
}

/// No playback mix above its highest value is ever given back.
pub proof fn law_playback_mix_is_capped(d: DeviceView, s: Standing, events: Seq<EventView>)
    requires
        begun(d, s),
    ensures
        match run(s, events).step {
            StepOf::Done(Ok(OutputOf::State { playback_mix: Some(mix) })) => mix
                <= PLAYBACK_MIX_MAX,
            _ => true,
        },
{
    lemma_plan_len(d.model);
    lemma_mix_is_capped(s, events);
}

/// A course of events keeps the playback mix capped.
proof fn lemma_mix_is_capped(s: Standing, events: Seq<EventView>)
    requires
        match s.step {
            StepOf::Done(Ok(OutputOf::State { playback_mix: Some(mix) })) => mix
                <= PLAYBACK_MIX_MAX,
            _ => true,
        },
    ensures
        match run(s, events).step {
            StepOf::Done(Ok(OutputOf::State { playback_mix: Some(mix) })) => mix
                <= PLAYBACK_MIX_MAX,
            _ => true,
        },
    decreases events.len(),
{
    reveal(next);
    if events.len() > 0 {
        lemma_mix_is_capped(next(s, events[0]), events.drop_first());
    }
}

/// Asking for the factory serial number never fails: without an answer there is just none.
pub proof fn law_reading_the_serial_succeeds(d: DeviceView, events: Seq<EventView>)
    requires
        fits(query_serial(d), events),
        run(query_serial(d), events).step is Done,
    ensures
        run(query_serial(d), events).step->Done_0 is Ok,
        run(query_serial(d), events).step->Done_0->Ok_0 is Serial,
{
    if d.model is Mv7 {
        law_text_serial_is_what_the_reply_brings(d, events);
    } else {
        law_serial_is_what_the_response_brings(d, events);
    }
}

/// The factory serial number that an operation gives back, if it gives one.
pub open spec fn reported_serial(step: StepView) -> Option<Seq<char>> {
    match step {
        StepOf::Done(Ok(OutputOf::Serial { factory_serial })) => factory_serial,
        _ => None,
    }
}

/// A factory serial number is only given back if the device reported it: the last event brought
/// a recognised response or reply that carries it.
pub proof fn law_no_serial_but_a_reported_one(d: DeviceView, events: Seq<EventView>)
    requires
        fits(query_serial(d), events),
    ensures
        match reported_serial(run(query_serial(d), events).step) {
            Some(serial) => {
                &&& events.len() > 0
                &&& events.last() is Applied
                &&& events.last()->Applied_0.recognised
                &&& events.last()->Applied_0.factory_serial == Some(serial)
            },
            None => true,
        },
{
    lemma_serial_was_reported(query_serial(d), events);
}

/// A serial number that was not there at first comes from the last event.
proof fn lemma_serial_was_reported(s: Standing, events: Seq<EventView>)
    requires
        fits(s, events),
        reported_serial(s.step) is None,
    ensures
        match reported_serial(run(s, events).step) {
            Some(serial) => {
                &&& events.len() > 0
                &&& events.last() is Applied
                &&& events.last()->Applied_0.recognised
                &&& events.last()->Applied_0.factory_serial == Some(serial)
            },
            None => true,
        },
    decreases events.len(),
{
    reveal(awaited);
    reveal(next);
    if events.len() > 0 {
        let t = next(s, events[0]);
        assert(fits(t, events.drop_first()));
        if reported_serial(t.step) is None {
            lemma_serial_was_reported(t, events.drop_first());
            if events.len() > 1 {
                assert(events.drop_first().last() == events.last());
            }
        } else {
            assert(events.len() == 1);
            assert(run(t, events.drop_first()) == t);
        }
    }
}

/// Every device passes exactly one of the two protocol checks, the MV7 and no other that for the
/// text protocol. What fails its check is refused with the check's error.
pub proof fn law_one_protocol_per_device(
    d: DeviceView,
    setter: Setter,
    goal: GetGoal,
    getter: Getter,
    line: TextCommand,
)
    ensures
        text_check(d) is Ok <==> d.model is Mv7,
        text_check(d) is Ok <==> binary_check(d) is Err,
        binary_check(d) matches Err(error) ==> {
            let refused = StepView::Done(Err(error));
            &&& begin_set(d, setter).step == refused
            &&& begin_get(d, goal, getter).step == refused
            &&& begin_reset(d).step == refused
        },
        text_check(d) matches Err(error) ==> begin_mv7_only(d, line) == d.done(Err(error)),
{
}

/// The gain that is sent is the one asked for, unless that is above the model's highest.
pub proof fn law_gain_is_clamped(d: DeviceView, gain_tenths: u16)
    ensures
        clamped_gain(d, gain_tenths) <= d.codec.max_gain_tenths,
        gain_tenths <= d.codec.max_gain_tenths ==> clamped_gain(d, gain_tenths) == gain_tenths,
        clamped_gain(d, clamped_gain(d, gain_tenths)) == clamped_gain(d, gain_tenths),
{
}

} // verus!
