//! How exchanges proceed: where an operation stands after each event.

use vstd::prelude::*;

use crate::command::{AutoTone, Getter, InputMode, MicPosition, Setter, TextCommand};
use crate::error::{DeviceErrorOf, DeviceErrorView};
use crate::exchange::{
    action_of, answers, AppliedOf, CodecOf, DeviceView, EventOf, EventView, ExchangeOf,
    ExchangeView, GetGoal, OutputOf, ResponseOf, StepOf, StepView, TextGoal, DRAIN_REPORTS,
    MV7_REPLY_TIMEOUT_NS, PLAYBACK_MIX_MAX,
};
use crate::plan::state_plan;
use crate::text::report_text;

verus! {

/// A device and where the operation on it stands.
pub struct Standing {
    pub device: DeviceView,
    pub step: StepView,
}

impl DeviceView {
    /// The device after one more binary packet was numbered.
    pub open spec fn numbered(self) -> DeviceView {
        DeviceView { seq: ((self.seq + 1) % 256) as u8, ..self }
    }

    /// The operation waits.
    pub open spec fn waits(self, exchange: ExchangeView) -> Standing {
        Standing { device: self, step: StepOf::Pending(exchange) }
    }

    /// The operation is done.
    pub open spec fn done(
        self,
        outcome: Result<OutputOf<Seq<char>>, DeviceErrorView>,
    ) -> Standing {
        Standing { device: self, step: StepOf::Done(outcome) }
    }
}

/// Why a write counts as failed, if it does: the backend says so, or nothing was written.
pub open spec fn write_error(outcome: Result<usize, Seq<char>>) -> Option<DeviceErrorView> {
    match outcome {
        Err(reason) => Some(DeviceErrorOf::WriteFailed { reason }),
        Ok(written) => if written == 0 {
            Some(DeviceErrorOf::WroteNothing)
        } else {
            None
        },
    }
}

/// The report that a read gave, if it gave one.
pub open spec fn read_report(outcome: Result<Seq<u8>, Seq<char>>) -> Result<
    Seq<u8>,
    DeviceErrorView,
> {
    match outcome {
        Err(reason) => Err(DeviceErrorOf::ReadFailed { reason }),
        Ok(report) => if report.len() == 0 {
            Err(DeviceErrorOf::ReadTimedOut)
        } else {
            Ok(report)
        },
    }
}

/// Every report with at least one byte counts, as it is and however long.
pub proof fn law_every_report_counts(report: Seq<u8>)
    requires
        report.len() > 0,
    ensures
        read_report(Ok(report)) == Ok::<Seq<u8>, DeviceErrorView>(report),
{
}

/// Whether there is still time for a reply at `now_ns`, when the wait began at `start_ns`.
pub open spec fn in_time(start_ns: u64, now_ns: u64) -> bool {
    now_ns < start_ns + MV7_REPLY_TIMEOUT_NS
}

/// What the MV7's reply means for the command line it answers.
pub open spec fn reply_outcome(
    codec: CodecOf<Seq<char>>,
    line: TextCommand,
    reply: Seq<char>,
) -> Result<OutputOf<Seq<char>>, DeviceErrorView> {
    if reply == codec.failed_reply {
        Err(DeviceErrorOf::Rejected { command: line })
    } else if reply == codec.locked_reply {
        Err(DeviceErrorOf::Locked { command: line })
    } else {
        Ok(OutputOf::Accepted)
    }
}

/// What the check for the binary protocol says of a device.
pub open spec fn binary_check(d: DeviceView) -> Result<(), DeviceErrorView> {
    if d.model is Mv7 {
        Err(DeviceErrorOf::NotOnMv7)
    } else {
        Ok(())
    }
}

/// What the check for the text protocol says of a device.
pub open spec fn text_check(d: DeviceView) -> Result<(), DeviceErrorView> {
    if d.model is Mv7 {
        Ok(())
    } else {
        Err(DeviceErrorOf::OnlyOnMv7 { model: d.model })
    }
}

/// A binary SET begins. The packet is numbered before the model is looked at.
pub open spec fn begin_set(d: DeviceView, setter: Setter) -> Standing {
    if d.model is Mv7 {
        d.numbered().done(Err(DeviceErrorOf::NotOnMv7))
    } else {
        d.numbered().waits(ExchangeOf::SendSet { seq: d.seq, setter })
    }
}

/// A factory reset begins.
pub open spec fn begin_reset(d: DeviceView) -> Standing {
    if d.model is Mv7 {
        d.numbered().done(Err(DeviceErrorOf::NotOnMv7))
    } else {
        d.numbered().waits(ExchangeOf::SendReset { seq: d.seq })
    }
}

/// A binary GET begins.
pub open spec fn begin_get(d: DeviceView, goal: GetGoal, getter: Getter) -> Standing {
    if d.model is Mv7 {
        d.numbered().done(Err(DeviceErrorOf::NotOnMv7))
    } else {
        d.numbered().waits(ExchangeOf::SendGet { goal, seq: d.seq, getter })
    }
}

/// A text command begins.
pub open spec fn begin_text(d: DeviceView, goal: TextGoal) -> Standing {
    d.waits(ExchangeOf::SendText { goal })
}

/// A text command that only the MV7 knows begins.
pub open spec fn begin_mv7_only(d: DeviceView, line: TextCommand) -> Standing {
    if d.model is Mv7 {
        begin_text(d, TextGoal::Change { line })
    } else {
        d.done(Err(DeviceErrorOf::OnlyOnMv7 { model: d.model }))
    }
}

/// The gain that is asked of a device, or its highest if that is lower.
pub open spec fn clamped_gain(d: DeviceView, gain_tenths: u16) -> u16 {
    if gain_tenths < d.codec.max_gain_tenths {
        gain_tenths
    } else {
        d.codec.max_gain_tenths
    }
}

/// The MV7 is switched to Auto Level with a microphone position and a tone.
pub open spec fn begin_auto_level(
    d: DeviceView,
    position: MicPosition,
    tone: AutoTone,
) -> Standing {
    begin_text(
        d,
        TextGoal::Change {
            line: TextCommand::SetDspMode { mode: InputMode::Auto, position, tone },
        },
    )
}

/// The state queries go on with the one at `index`, or are through.
pub open spec fn query_state(d: DeviceView, index: int) -> Standing {
    if d.model is Mv7 {
        if index < d.codec.state_queries {
            begin_text(d, TextGoal::State { index: index as usize })
        } else {
            d.done(Ok(OutputOf::State { playback_mix: None }))
        }
    } else if index < state_plan(d.model).len() {
        begin_get(d, GetGoal::State { index: index as usize }, state_plan(d.model)[index])
    } else {
        d.done(Ok(OutputOf::State { playback_mix: None }))
    }
}

/// The query for the factory serial number begins.
pub open spec fn query_serial(d: DeviceView) -> Standing {
    if d.model is Mv7 {
        begin_text(d, TextGoal::Serial)
    } else {
        begin_get(d, GetGoal::Serial, Getter::Serial)
    }
}

/// A GET ended without a response that could be applied.
pub open spec fn pass_over(d: DeviceView, goal: GetGoal) -> Standing {
    match goal {
        GetGoal::State { index } => query_state(d, index + 1),
        GetGoal::Serial => d.done(Ok(OutputOf::Serial { factory_serial: None })),
    }
}

/// The serial number that an applied response or reply brought, if it was recognised and carries
/// one.
pub open spec fn serial_output(applied: AppliedOf<Seq<char>>) -> OutputOf<Seq<char>> {
    OutputOf::Serial {
        factory_serial: if applied.recognised {
            applied.factory_serial
        } else {
            None
        },
    }
}

/// A text command ended without a reply.
pub open spec fn text_failed(d: DeviceView, goal: TextGoal, error: DeviceErrorView) -> Standing {
    match goal {
        TextGoal::Serial => d.done(Ok(OutputOf::Serial { factory_serial: None })),
        _ => d.done(Err(error)),
    }
}

/// A text command got its reply. A rejected gain is looked at again, because the MV7 also
/// rejects a gain that it already has.
pub open spec fn text_replied(d: DeviceView, goal: TextGoal, reply: Seq<char>) -> Standing {
    match goal {
        TextGoal::Change { line } => d.done(reply_outcome(d.codec, line, reply)),
        TextGoal::ChangeGain { gain_tenths } => if reply == d.codec.failed_reply {
            begin_text(d, TextGoal::CheckGain { gain_tenths })
        } else {
            d.done(reply_outcome(d.codec, goal.line(), reply))
        },
        _ => d.waits(ExchangeOf::ApplyReply { goal, reply }),
    }
}

/// A reply was applied to the device state.
pub open spec fn reply_applied(
    d: DeviceView,
    goal: TextGoal,
    applied: AppliedOf<Seq<char>>,
) -> Standing {
    match goal {
        TextGoal::State { index } => query_state(d, index + 1),
        TextGoal::Serial => d.done(Ok(serial_output(applied))),
        TextGoal::CheckGain { gain_tenths } => if applied.recognised {
            d.waits(ExchangeOf::SnapGain { gain_tenths, held_tenths: applied.gain_tenths })
        } else {
            d.done(
                Err(DeviceErrorOf::Rejected { command: TextCommand::SetGain { gain_tenths } }),
            )
        },
        TextGoal::ChangeGain { gain_tenths } => d.done(Ok(OutputOf::Accepted)),
        TextGoal::Change { line } => d.done(Ok(OutputOf::Accepted)),
    }
}

/// The response to the query for the playback mix was parsed. The request tells what it is about,
/// so neither its prefix nor its address matters.
pub open spec fn playback_mix_parsed(
    d: DeviceView,
    goal: GetGoal,
    parsed: Option<(u8, ResponseOf<Seq<u8>>)>,
) -> Standing {
    match parsed {
        Some((prefix, response)) => if response.value.len() > 0 {
            let mix = response.value[0];
            let capped = if mix < PLAYBACK_MIX_MAX {
                mix
            } else {
                PLAYBACK_MIX_MAX
            };
            d.done(Ok(OutputOf::State { playback_mix: Some(capped) }))
        } else {
            pass_over(d, goal)
        },
        None => pass_over(d, goal),
    }
}

/// A part of the reply was read. Nothing in time is no error as long as there is time left.
pub open spec fn text_read(
    d: DeviceView,
    goal: TextGoal,
    start_ns: u64,
    received: Seq<char>,
    outcome: Result<Seq<u8>, Seq<char>>,
) -> Standing {
    match outcome {
        Err(reason) => text_failed(d, goal, DeviceErrorOf::ReadFailed { reason }),
        Ok(report) => if report.len() == 0 {
            d.waits(ExchangeOf::CheckTime { goal, start_ns, received })
        } else {
            d.waits(
                ExchangeOf::FindReply { goal, start_ns, received: received + report_text(report) },
            )
        },
    }
}

/// The text from the device that an operation holds: what came in so far, or the reply.
pub open spec fn text_held(x: ExchangeView) -> Seq<char> {
    match x {
        ExchangeOf::CheckTime { received, .. } => received,
        ExchangeOf::ReadText { received, .. } => received,
        ExchangeOf::FindReply { received, .. } => received,
        ExchangeOf::ApplyReply { reply, .. } => reply,
        _ => Seq::empty(),
    }
}

/// Whether a reply, if the event brings one, is a part of the text that it was looked for in.
pub open spec fn quotes(x: ExchangeView, event: EventView) -> bool {
    match (x, event) {
        (ExchangeOf::FindReply { received, .. }, EventOf::Found(Some(reply))) => {
            exists|i: int, j: int|
                0 <= i <= j <= received.len() && reply == #[trigger] received.subrange(i, j)
        },
        _ => true,
    }
}

/// Where the operation on `d` that waits in `x` stands after `event`.
pub open spec fn proceed(d: DeviceView, x: ExchangeView, event: EventView) -> Standing
    recommends
        answers(event, action_of(x)),
{
    match x {
        ExchangeOf::SendSet { seq, setter } => match write_error(event->Written_0) {
            Some(error) => d.done(Err(error)),
            None => d.numbered().waits(ExchangeOf::SendConfirm { seq: d.seq }),
        },
        ExchangeOf::SendConfirm { seq } => match write_error(event->Written_0) {
            Some(error) => d.done(Err(error)),
            None => if d.model is Mv7Plus {
                d.waits(ExchangeOf::Drain { left: DRAIN_REPORTS })
            } else {
                d.done(Ok(OutputOf::Accepted))
            },
        },
        ExchangeOf::Drain { left } => if left > 1 {
            d.waits(ExchangeOf::Drain { left: (left - 1) as u8 })
        } else {
            d.done(Ok(OutputOf::Accepted))
        },
        ExchangeOf::SendReset { seq } => match write_error(event->Written_0) {
            Some(error) => d.done(Err(error)),
            None => d.done(Ok(OutputOf::Accepted)),
        },
        ExchangeOf::SendGet { goal, seq, getter } => match write_error(event->Written_0) {
            Some(error) => pass_over(d, goal),
            None => d.waits(ExchangeOf::ReadReport { goal, getter }),
        },
        ExchangeOf::ReadReport { goal, getter } => match read_report(event->Received_0) {
            Err(error) => pass_over(d, goal),
            Ok(report) => d.waits(ExchangeOf::ParseReport { goal, getter, report }),
        },
        ExchangeOf::ParseReport { goal, getter, report } => if getter is Mv7PlaybackMix {
            playback_mix_parsed(d, goal, event->ParsedPrefixed_0)
        } else {
            match event->Parsed_0 {
                Some(response) => d.waits(ExchangeOf::ApplyResponse { goal, getter, response }),
                None => pass_over(d, goal),
            }
        },
        ExchangeOf::ApplyResponse { goal, getter, response } => match goal {
            GetGoal::State { index } => query_state(d, index + 1),
            GetGoal::Serial => d.done(Ok(serial_output(event->Applied_0))),
        },
        ExchangeOf::SendText { goal } => match write_error(event->Written_0) {
            Some(error) => text_failed(d, goal, error),
            None => d.waits(ExchangeOf::StartWait { goal }),
        },
        ExchangeOf::StartWait { goal } => d.waits(
            ExchangeOf::CheckTime { goal, start_ns: event->ns, received: Seq::empty() },
        ),
        ExchangeOf::CheckTime { goal, start_ns, received } => if in_time(start_ns, event->ns) {
            d.waits(ExchangeOf::ReadText { goal, start_ns, received })
        } else {
            text_failed(d, goal, DeviceErrorOf::NoReply { command: goal.line() })
        },
        ExchangeOf::ReadText { goal, start_ns, received } => text_read(
            d,
            goal,
            start_ns,
            received,
            event->Received_0,
        ),
        ExchangeOf::FindReply { goal, start_ns, received } => match event->Found_0 {
            Some(reply) => text_replied(d, goal, reply),
            None => d.waits(ExchangeOf::CheckTime { goal, start_ns, received }),
        },
        ExchangeOf::ApplyReply { goal, reply } => reply_applied(d, goal, event->Applied_0),
        ExchangeOf::SnapGain { gain_tenths, held_tenths } => if held_tenths
            == event->Snapped_gain_tenths {
            d.done(Ok(OutputOf::Accepted))
        } else {
            d.done(
                Err(DeviceErrorOf::Rejected { command: TextCommand::SetGain { gain_tenths } }),
            )
        },
    }
}

/// Whether `s` is where some operation on `d` begins.
pub open spec fn begun(d: DeviceView, s: Standing) -> bool {
    ||| exists|setter: Setter| s == #[trigger] begin_set(d, setter)
    ||| s == begin_reset(d)
    ||| s == query_state(d, 0)
    ||| s == query_serial(d)
    ||| exists|goal: TextGoal|
        d.model is Mv7 && (goal is Change || goal is ChangeGain) && s == #[trigger] begin_text(
            d,
            goal,
        )
    ||| d.model !is Mv7 && s == d.done(Err(DeviceErrorOf::OnlyOnMv7 { model: d.model }))
}

} // verus!
