//! What the functions of a device promise, stated of calls and plain values: which packet a call
//! makes the driver write, and what each outcome leads to.

use vstd::prelude::*;

use crate::command::{
    AutoGain, AutoTone, Command, CompressorPreset, EqPreset, Getter, HpfFrequency, InputMode,
    LedBehavior, LedBrightness, LedLiveTheme, LedPulsingTheme, LedSolidTheme, MicPosition, Packet,
    ReverbType, Setter, TextCommand,
};
use crate::device::ShureDevice;
use crate::enumerate::Target;
use crate::error::{DeviceError, DeviceErrorOf};
use crate::exchange::{
    Action, ActionOf, AppliedOf, Codec, DeviceView, Event, EventOf, Exchange, ExchangeOf, GetGoal,
    OutputOf, ResponseOf, Step, StepOf, TextGoal,
};
use crate::model::DeviceModel;
use crate::plan::{lemma_place, lemma_plan_len, place, state_plan};
use crate::progress::{query_state, Standing};
use crate::text::decode_report;

verus! {

// ---------------------------------------------------------------------------------------------
// Opening
// ---------------------------------------------------------------------------------------------

/// An opened device is of the model that it was opened as, shows the serial number of its USB
/// descriptor if that could be read, and has sent nothing yet.
pub proof fn law_opened_device(
    serial: Result<Option<String>, String>,
    model: DeviceModel,
    codec: Codec,
    d: ShureDevice,
)
    requires
        call_ensures(ShureDevice::from_hid_device, (serial, model, codec), d),
    ensures
        d@.model == model,
        d@.seq == 0,
        d@.serial_number == (match serial {
            Ok(Some(serial)) => serial@,
            _ => "(unknown)"@,
        }),
        d@.codec.max_gain_tenths == codec.max_gain_tenths,
        d@.codec.failed_reply == codec.failed_reply@,
        d@.codec.locked_reply == codec.locked_reply@,
        d@.codec.state_queries == codec.state_queries,
{
}

/// A device that cannot be opened is named if its path was asked for.
pub proof fn law_failure_to_open(target: Target, reason: String, error: DeviceError)
    requires
        call_ensures(ShureDevice::cannot_open, (target, reason), error),
    ensures
        target.requested ==> {
            &&& error matches DeviceErrorOf::CannotOpenPath { path, reason: told }
            &&& path@ == target.path@
            &&& told@ == reason@
        },
        !target.requested ==> {
            &&& error matches DeviceErrorOf::CannotOpen { reason: told }
            &&& told@ == reason@
        },
{
}

// ---------------------------------------------------------------------------------------------
// What the driver is told to do
// ---------------------------------------------------------------------------------------------

/// The command line of a text command.
pub open spec fn line_of(goal: TextGoal) -> TextCommand {
    match goal {
        TextGoal::Change { line } => line,
        TextGoal::ChangeGain { gain_tenths } => TextCommand::SetGain { gain_tenths },
        TextGoal::CheckGain { gain_tenths } => TextCommand::GetGain,
        TextGoal::State { index } => TextCommand::StateQuery { index },
        TextGoal::Serial => TextCommand::GetSerial,
    }
}

/// A change is sent as it was given, a gain as itself, and what is read is asked for by name.
pub proof fn law_command_lines(
    line: TextCommand,
    gain_tenths: u16,
    index: usize,
    x: &Exchange,
    action: Action<'_>,
)
    requires
        call_ensures(Exchange::action, (x,), action),
        x is SendText,
    ensures
        action is Write,
        x->SendText_goal == (TextGoal::Change { line }) ==> action->packet == (Packet::Text { line }),
        x->SendText_goal == (TextGoal::ChangeGain { gain_tenths }) ==> action->packet == (
        Packet::Text { line: TextCommand::SetGain { gain_tenths } }),
        x->SendText_goal == (TextGoal::CheckGain { gain_tenths }) ==> action->packet == (
        Packet::Text { line: TextCommand::GetGain }),
        x->SendText_goal == (TextGoal::State { index }) ==> action->packet == (Packet::Text {
            line: TextCommand::StateQuery { index },
        }),
        x->SendText_goal == TextGoal::Serial ==> action->packet == (Packet::Text {
            line: TextCommand::GetSerial,
        }),
{
}

/// The driver writes what the operation has to say, with the number that it was given, reads for
/// a fifth of a second, or a twentieth where the reports do not matter, and hands on to the codec
/// exactly what came in.
pub proof fn law_actions(x: &Exchange, action: Action<'_>)
    requires
        call_ensures(Exchange::action, (x,), action),
    ensures
        match *x {
            ExchangeOf::SendSet { seq, setter } => action matches ActionOf::Write { packet }
                && packet == (Packet::Binary { seq, command: Command::SetFeature(setter) }),
            ExchangeOf::SendConfirm { seq } => action matches ActionOf::Write { packet } && packet
                == (Packet::Binary { seq, command: Command::Confirm }),
            ExchangeOf::Drain { .. } => action matches ActionOf::Read { timeout_ms } && timeout_ms
                == 50,
            ExchangeOf::SendReset { seq } => action matches ActionOf::Write { packet } && packet
                == (Packet::Binary { seq, command: Command::FactoryReset }),
            ExchangeOf::SendGet { seq, getter, .. } => action matches ActionOf::Write { packet }
                && packet == (Packet::Binary { seq, command: Command::GetFeature(getter) }),
            ExchangeOf::ReadReport { .. } => action matches ActionOf::Read { timeout_ms }
                && timeout_ms == 200,
            ExchangeOf::ParseReport { getter, report, .. } => if getter == Getter::Mv7PlaybackMix {
                action matches ActionOf::ParsePrefixed { report: given } && given@ == report@
            } else {
                action matches ActionOf::Parse { report: given } && given@ == report@
            },
            ExchangeOf::ApplyResponse { getter, response, .. } => {
                &&& action matches ActionOf::ApplyResponse { getter: asked, feature, value }
                &&& asked == getter
                &&& feature == response.feature
                &&& value@ == response.value@
            },
            ExchangeOf::SendText { goal } => action matches ActionOf::Write { packet } && packet
                == (Packet::Text { line: line_of(goal) }),
            ExchangeOf::StartWait { .. } => action is ReadClock,
            ExchangeOf::CheckTime { .. } => action is ReadClock,
            ExchangeOf::ReadText { .. } => action matches ActionOf::Read { timeout_ms }
                && timeout_ms == 200,
            ExchangeOf::FindReply { goal, received, .. } => {
                &&& action matches ActionOf::FindReply { line, received: given }
                &&& line == line_of(goal)
                &&& given@ == received@
            },
            ExchangeOf::ApplyReply { goal, reply } => {
                &&& action matches ActionOf::ApplyReply { line, reply: given }
                &&& line == line_of(goal)
                &&& given@ == reply@
            },
            ExchangeOf::SnapGain { gain_tenths, .. } => action matches ActionOf::SnapGain {
                gain_tenths: asked,
            } && asked == gain_tenths,
        },
{
}

/// Every action has its own kind of outcome, and no other is taken for one.
pub proof fn law_outcomes(x: &Exchange, event: &Event, fits: bool)
    requires
        call_ensures(Exchange::awaits, (x, event), fits),
    ensures
        fits <==> match *x {
            ExchangeOf::SendSet { .. }
            | ExchangeOf::SendConfirm { .. }
            | ExchangeOf::SendReset { .. }
            | ExchangeOf::SendGet { .. }
            | ExchangeOf::SendText { .. } => event is Written,
            ExchangeOf::Drain { .. }
            | ExchangeOf::ReadReport { .. }
            | ExchangeOf::ReadText { .. } => event is Received,
            ExchangeOf::ParseReport { getter, .. } => if getter == Getter::Mv7PlaybackMix {
                event is ParsedPrefixed
            } else {
                event is Parsed
            },
            ExchangeOf::ApplyResponse { .. } | ExchangeOf::ApplyReply { .. } => event is Applied,
            ExchangeOf::StartWait { .. } | ExchangeOf::CheckTime { .. } => event is Now,
            ExchangeOf::FindReply { .. } => event is Found,
            ExchangeOf::SnapGain { .. } => event is Snapped,
        },
{
}

/// Whether the driver is told to write `packet`.
pub open spec fn writes(step: Step, packet: Packet) -> bool {
    &&& step is Pending
    &&& forall|action: Action<'_>| #[trigger]
        call_ensures(Exchange::action, (&step->Pending_0,), action) ==> (action matches ActionOf::Write {
            packet: written,
        } && written == packet)
}

/// Whether a device has changed only in that one more packet was numbered, from 0 to 255 and
/// around again.
pub open spec fn counts(before: DeviceView, after: DeviceView) -> bool {
    &&& after.model == before.model
    &&& after.seq == if before.seq == 255 {
        0
    } else {
        before.seq + 1
    }
    &&& after.serial_number == before.serial_number
    &&& after.codec == before.codec
}

/// Whether a call began a binary SET: the packet is numbered and written, unless the device is an
/// MV7, which is never sent one.
pub open spec fn sets(before: DeviceView, after: DeviceView, step: Step, setter: Setter) -> bool {
    &&& counts(before, after)
    &&& if before.model is Mv7 {
        step matches StepOf::Done(Err(DeviceErrorOf::NotOnMv7))
    } else {
        &&& step == (Step::Pending(ExchangeOf::SendSet { seq: before.seq, setter }))
        &&& writes(step, Packet::Binary { seq: before.seq, command: Command::SetFeature(setter) })
    }
}

/// Whether a call began to send a command line that changes a setting. The device stays as it is.
pub open spec fn says(before: DeviceView, after: DeviceView, step: Step, line: TextCommand) -> bool {
    &&& after == before
    &&& step == (Step::Pending(ExchangeOf::SendText { goal: TextGoal::Change { line } }))
    &&& writes(step, Packet::Text { line })
}

/// Whether a call began to send a command line that only the MV7 knows, and refused any other.
pub open spec fn says_to_mv7(
    before: DeviceView,
    after: DeviceView,
    step: Step,
    line: TextCommand,
) -> bool {
    if before.model is Mv7 {
        says(before, after, step, line)
    } else {
        &&& after == before
        &&& step matches StepOf::Done(Err(DeviceErrorOf::OnlyOnMv7 { model }))
        &&& model == before.model
    }
}

// ---------------------------------------------------------------------------------------------
// Changing settings
// ---------------------------------------------------------------------------------------------

/// The gain that is sent is the one asked for, or the model's highest where that is lower.
pub proof fn law_set_gain(d: &mut ShureDevice, gain_tenths: u16, sent: u16, step: Step)
    requires
        call_ensures(ShureDevice::set_gain, (d, gain_tenths), step),
        gain_tenths <= old(d)@.codec.max_gain_tenths ==> sent == gain_tenths,
        gain_tenths > old(d)@.codec.max_gain_tenths ==> sent == old(d)@.codec.max_gain_tenths,
    ensures
        match old(d)@.model {
            DeviceModel::Mv7 => {
                &&& final(d)@ == old(d)@
                &&& step == (Step::Pending(
                    ExchangeOf::SendText { goal: TextGoal::ChangeGain { gain_tenths: sent } },
                ))
                &&& writes(step, Packet::Text { line: TextCommand::SetGain { gain_tenths: sent } })
            },
            DeviceModel::Mv7Plus => sets(old(d)@, final(d)@, step, Setter::Mv7Gain(sent)),
            _ => sets(old(d)@, final(d)@, step, Setter::Gain(sent)),
        },
{
}

/// Mode, microphone position and tone are one setting on the MV7: all three are sent as they
/// were given. The other models are sent the one that is set.
pub proof fn law_auto_level(
    d: &mut ShureDevice,
    auto: bool,
    position: MicPosition,
    tone: AutoTone,
    step: Step,
)
    ensures
        call_ensures(ShureDevice::set_mode, (d, auto, position, tone), step) ==> match old(
            d,
        )@.model {
            DeviceModel::Mv7 => says(
                old(d)@,
                final(d)@,
                step,
                TextCommand::SetDspMode {
                    mode: if auto {
                        InputMode::Auto
                    } else {
                        InputMode::Manual
                    },
                    position,
                    tone,
                },
            ),
            DeviceModel::Mv7Plus => sets(old(d)@, final(d)@, step, Setter::Mv7Mode { auto }),
            _ => sets(old(d)@, final(d)@, step, Setter::Mode { auto }),
        },
        call_ensures(ShureDevice::set_auto_position, (d, position, tone), step) ==> if old(
            d,
        )@.model is Mv7 {
            says(
                old(d)@,
                final(d)@,
                step,
                TextCommand::SetDspMode { mode: InputMode::Auto, position, tone },
            )
        } else {
            sets(old(d)@, final(d)@, step, Setter::AutoPosition(position))
        },
        call_ensures(ShureDevice::set_auto_tone, (d, position, tone), step) ==> if old(
            d,
        )@.model is Mv7 {
            says(
                old(d)@,
                final(d)@,
                step,
                TextCommand::SetDspMode { mode: InputMode::Auto, position, tone },
            )
        } else {
            sets(old(d)@, final(d)@, step, Setter::AutoTone(tone))
        },
{
}

/// The settings that several models share, one by one: the value that is sent is the one given,
/// in the command that the model takes.
pub proof fn law_shared_switches(d: &mut ShureDevice, on: bool, step: Step)
    ensures
        call_ensures(ShureDevice::set_mute, (d, on), step) ==> match old(d)@.model {
            DeviceModel::Mv7 => says(old(d)@, final(d)@, step, TextCommand::SetMute { muted: on }),
            DeviceModel::Mv7Plus => sets(old(d)@, final(d)@, step, Setter::Mv7Mute(on)),
            _ => sets(old(d)@, final(d)@, step, Setter::Mute(on)),
        },
        call_ensures(ShureDevice::set_lock, (d, on), step) ==> if old(d)@.model is Mv7 {
            says(old(d)@, final(d)@, step, TextCommand::SetLock { locked: on })
        } else {
            sets(old(d)@, final(d)@, step, Setter::Lock(on))
        },
        call_ensures(ShureDevice::set_limiter, (d, on), step) ==> sets(
            old(d)@,
            final(d)@,
            step,
            if old(d)@.model is Mv7Plus {
                Setter::Mv7Limiter(on)
            } else {
                Setter::Limiter(on)
            },
        ),
        call_ensures(ShureDevice::set_mv6_denoiser, (d, on), step) ==> sets(
            old(d)@,
            final(d)@,
            step,
            if old(d)@.model is Mv7Plus {
                Setter::Mv7Denoiser(on)
            } else {
                Setter::Mv6Denoiser(on)
            },
        ),
        call_ensures(ShureDevice::set_mv6_popper_stopper, (d, on), step) ==> sets(
            old(d)@,
            final(d)@,
            step,
            if old(d)@.model is Mv7Plus {
                Setter::Mv7PopperStopper(on)
            } else {
                Setter::Mv6PopperStopper(on)
            },
        ),
        call_ensures(ShureDevice::set_phantom, (d, on), step) ==> sets(
            old(d)@,
            final(d)@,
            step,
            Setter::Phantom(on),
        ),
        call_ensures(ShureDevice::set_eq_enable, (d, on), step) ==> sets(
            old(d)@,
            final(d)@,
            step,
            Setter::EqEnable(on),
        ),
        call_ensures(ShureDevice::set_mv6_mute_btn_disable, (d, on), step) ==> sets(
            old(d)@,
            final(d)@,
            step,
            Setter::Mv6MuteBtnDisable(on),
        ),
        call_ensures(ShureDevice::set_mv6_gain_lock, (d, on), step) ==> sets(
            old(d)@,
            final(d)@,
            step,
            Setter::Mv6GainLock(on),
        ),
{
}

/// The levels and presets that several models share, one by one.
pub proof fn law_shared_levels(
    d: &mut ShureDevice,
    mix: u8,
    tone: i8,
    freq: &HpfFrequency,
    preset: &CompressorPreset,
    gain: &AutoGain,
    step: Step,
)
    ensures
        call_ensures(ShureDevice::set_hpf, (d, freq), step) ==> sets(
            old(d)@,
            final(d)@,
            step,
            if old(d)@.model is Mv7Plus {
                Setter::Mv7Hpf(*freq)
            } else {
                Setter::Hpf(*freq)
            },
        ),
        call_ensures(ShureDevice::set_compressor, (d, preset), step) ==> match old(d)@.model {
            DeviceModel::Mv7 => says(
                old(d)@,
                final(d)@,
                step,
                TextCommand::SetCompressor { preset: *preset },
            ),
            DeviceModel::Mv7Plus => sets(old(d)@, final(d)@, step, Setter::Mv7Compressor(*preset)),
            _ => sets(old(d)@, final(d)@, step, Setter::Compressor(*preset)),
        },
        call_ensures(ShureDevice::set_mv6_monitor_mix, (d, mix), step) ==> match old(d)@.model {
            DeviceModel::Mv7 => says(old(d)@, final(d)@, step, TextCommand::SetMonitorMix { mix }),
            DeviceModel::Mv7Plus => sets(old(d)@, final(d)@, step, Setter::Mv7MicMix(mix)),
            _ => sets(old(d)@, final(d)@, step, Setter::Mv6Mix(mix)),
        },
        call_ensures(ShureDevice::set_mv6_tone, (d, tone), step) ==> sets(
            old(d)@,
            final(d)@,
            step,
            if old(d)@.model is Mv7Plus {
                Setter::Mv7Tone(tone)
            } else {
                Setter::Mv6Tone(tone)
            },
        ),
        call_ensures(ShureDevice::set_auto_gain, (d, gain), step) ==> sets(
            old(d)@,
            final(d)@,
            step,
            Setter::AutoGain(*gain),
        ),
        call_ensures(ShureDevice::set_monitor_mix, (d, mix), step) ==> sets(
            old(d)@,
            final(d)@,
            step,
            Setter::Mix(mix),
        ),
{
}

/// The equaliser: the band and its value are sent as they were given.
pub proof fn law_equaliser(
    d: &mut ShureDevice,
    band: usize,
    enabled: bool,
    gain_tenths: i16,
    preset: EqPreset,
    step: Step,
)
    ensures
        call_ensures(ShureDevice::set_eq_band_enable, (d, band, enabled), step) ==> sets(
            old(d)@,
            final(d)@,
            step,
            Setter::EqBandEnable { band, enabled },
        ),
        call_ensures(ShureDevice::set_eq_band_gain, (d, band, gain_tenths), step) ==> sets(
            old(d)@,
            final(d)@,
            step,
            Setter::EqBandGain { band, gain_tenths, model: old(d)@.model },
        ),
        call_ensures(ShureDevice::set_eq_preset, (d, preset), step) ==> says_to_mv7(
            old(d)@,
            final(d)@,
            step,
            TextCommand::SetEq { curve: preset },
        ),
{
}

/// The settings of the MV7 alone.
pub proof fn law_mv7_settings(d: &mut ShureDevice, enabled: bool, step: Step)
    ensures
        call_ensures(ShureDevice::set_led_live_meter, (d, enabled), step) ==> says_to_mv7(
            old(d)@,
            final(d)@,
            step,
            TextCommand::SetLiveMeter { enabled },
        ),
        call_ensures(ShureDevice::set_led_night_mode, (d, enabled), step) ==> says_to_mv7(
            old(d)@,
            final(d)@,
            step,
            TextCommand::SetNightMode { enabled },
        ),
{
}

/// The sound of the MV7+.
pub proof fn law_mv7_plus_sound(
    d: &mut ShureDevice,
    level: u8,
    enabled: bool,
    rtype: &ReverbType,
    step: Step,
)
    ensures
        call_ensures(ShureDevice::set_mv7_playback_mix, (d, level), step) ==> sets(
            old(d)@,
            final(d)@,
            step,
            Setter::Mv7PlaybackMix(level),
        ),
        call_ensures(ShureDevice::set_mv7_reverb_output, (d, enabled), step) ==> sets(
            old(d)@,
            final(d)@,
            step,
            Setter::Mv7ReverbOutput(enabled),
        ),
        call_ensures(ShureDevice::set_mv7_reverb_monitor, (d, enabled), step) ==> sets(
            old(d)@,
            final(d)@,
            step,
            Setter::Mv7ReverbMonitor(enabled),
        ),
        call_ensures(ShureDevice::set_mv7_reverb_type, (d, rtype), step) ==> sets(
            old(d)@,
            final(d)@,
            step,
            Setter::Mv7ReverbType(*rtype),
        ),
        call_ensures(ShureDevice::set_mv7_reverb_intensity, (d, level), step) ==> sets(
            old(d)@,
            final(d)@,
            step,
            Setter::Mv7ReverbIntensity(level),
        ),
{
}

/// The LEDs of the MV7+.
pub proof fn law_mv7_plus_leds(
    d: &mut ShureDevice,
    behavior: LedBehavior,
    brightness: LedBrightness,
    live: LedLiveTheme,
    solid: LedSolidTheme,
    pulsing: LedPulsingTheme,
    step: Step,
)
    ensures
        call_ensures(ShureDevice::set_mv7_led_behavior, (d, behavior), step) ==> sets(
            old(d)@,
            final(d)@,
            step,
            Setter::Mv7LedBehavior(behavior),
        ),
        call_ensures(ShureDevice::set_mv7_led_brightness, (d, brightness), step) ==> sets(
            old(d)@,
            final(d)@,
            step,
            Setter::Mv7LedBrightness(brightness),
        ),
        call_ensures(ShureDevice::set_mv7_led_live_theme, (d, live), step) ==> sets(
            old(d)@,
            final(d)@,
            step,
            Setter::Mv7LedLiveTheme(live),
        ),
        call_ensures(ShureDevice::set_mv7_led_solid_theme, (d, solid), step) ==> sets(
            old(d)@,
            final(d)@,
            step,
            Setter::Mv7LedSolidTheme(solid),
        ),
        call_ensures(ShureDevice::set_mv7_led_pulsing_theme, (d, pulsing), step) ==> sets(
            old(d)@,
            final(d)@,
            step,
            Setter::Mv7LedPulsingTheme(pulsing),
        ),
{
}

/// The colours of the MV7+, given as red, green and blue.
pub proof fn law_mv7_plus_colors(d: &mut ShureDevice, rgb: [u8; 3], step: Step)
    ensures
        call_ensures(ShureDevice::set_mv7_led_solid_color, (d, rgb), step) ==> sets(
            old(d)@,
            final(d)@,
            step,
            Setter::Mv7LedSolidColor { red: rgb@[0], green: rgb@[1], blue: rgb@[2] },
        ),
        call_ensures(ShureDevice::set_mv7_led_pulsing_color, (d, rgb), step) ==> sets(
            old(d)@,
            final(d)@,
            step,
            Setter::Mv7LedPulsingColor { red: rgb@[0], green: rgb@[1], blue: rgb@[2] },
        ),
        call_ensures(ShureDevice::set_mv7_led_live_edge, (d, rgb), step) ==> sets(
            old(d)@,
            final(d)@,
            step,
            Setter::Mv7LedLiveEdge { red: rgb@[0], green: rgb@[1], blue: rgb@[2] },
        ),
        call_ensures(ShureDevice::set_mv7_led_live_middle, (d, rgb), step) ==> sets(
            old(d)@,
            final(d)@,
            step,
            Setter::Mv7LedLiveMiddle { red: rgb@[0], green: rgb@[1], blue: rgb@[2] },
        ),
        call_ensures(ShureDevice::set_mv7_led_live_interior, (d, rgb), step) ==> sets(
            old(d)@,
            final(d)@,
            step,
            Setter::Mv7LedLiveInterior { red: rgb@[0], green: rgb@[1], blue: rgb@[2] },
        ),
{
}

/// A factory reset is one numbered packet, refused on the MV7.
pub proof fn law_factory_reset(d: &mut ShureDevice, step: Step)
    requires
        call_ensures(ShureDevice::factory_reset, (d,), step),
    ensures
        counts(old(d)@, final(d)@),
        old(d)@.seq < 255 ==> final(d)@.seq == old(d)@.seq + 1,
        old(d)@.seq == 255 ==> final(d)@.seq == 0,
        final(d)@.model == old(d)@.model,
        old(d)@.model is Mv7 ==> step matches StepOf::Done(Err(DeviceErrorOf::NotOnMv7)),
        old(d)@.model !is Mv7 ==> {
            &&& step == (Step::Pending(ExchangeOf::SendReset { seq: old(d)@.seq }))
            &&& writes(
                step,
                Packet::Binary { seq: old(d)@.seq, command: Command::FactoryReset },
            )
        },
{
}

/// Which protocol a device speaks: the MV7 text, all others binary.
pub proof fn law_protocols(
    d: &ShureDevice,
    binary: Result<(), DeviceError>,
    text: Result<(), DeviceError>,
)
    requires
        call_ensures(ShureDevice::ensure_binary_protocol, (d,), binary),
        call_ensures(ShureDevice::ensure_text_protocol, (d,), text),
    ensures
        d@.model is Mv7 ==> text is Ok && (binary matches Err(DeviceErrorOf::NotOnMv7)),
        d@.model !is Mv7 ==> binary is Ok && (text matches Err(
            DeviceErrorOf::OnlyOnMv7 { model },
        ) && model == d@.model),
{
}

// ---------------------------------------------------------------------------------------------
// Carrying out a change
// ---------------------------------------------------------------------------------------------

/// Whether a write got something out.
pub open spec fn wrote(outcome: Result<usize, String>) -> bool {
    outcome is Ok && outcome->Ok_0 > 0
}

/// Whether an operation failed because a write did, with the backend's reason if it gave one.
pub open spec fn failed_to_write(outcome: Result<usize, String>, step: Step) -> bool {
    match outcome {
        Ok(_) => step matches StepOf::Done(Err(DeviceErrorOf::WroteNothing)),
        Err(reason) => step matches StepOf::Done(Err(DeviceErrorOf::WriteFailed { reason: told }))
            && told@ == reason@,
    }
}

/// Once a SET was written, the CONFIRM with the next number is. It is not, and the change fails,
/// if the SET could not be written.
pub proof fn law_set_is_followed_by_confirm(
    d: &mut ShureDevice,
    seq: u8,
    setter: Setter,
    outcome: Result<usize, String>,
    step: Step,
)
    requires
        call_ensures(
            ShureDevice::resume,
            (d, ExchangeOf::SendSet { seq, setter }, EventOf::Written(outcome)),
            step,
        ),
    ensures
        wrote(outcome) ==> {
            &&& counts(old(d)@, final(d)@)
            &&& step == (Step::Pending(ExchangeOf::SendConfirm { seq: old(d)@.seq }))
            &&& writes(step, Packet::Binary { seq: old(d)@.seq, command: Command::Confirm })
        },
        !wrote(outcome) ==> final(d)@ == old(d)@ && failed_to_write(outcome, step),
{
}

/// Once the CONFIRM was written the change is made. Only the MV7+ sends two reports then, which
/// are read whatever they hold.
pub proof fn law_change_is_made_by_confirm(
    d: &mut ShureDevice,
    seq: u8,
    left: u8,
    outcome: Result<usize, String>,
    report: Result<Vec<u8>, String>,
    step: Step,
)
    ensures
        call_ensures(
            ShureDevice::resume,
            (d, ExchangeOf::SendConfirm { seq }, EventOf::Written(outcome)),
            step,
        ) ==> final(d)@ == old(d)@ && if !wrote(outcome) {
            failed_to_write(outcome, step)
        } else if old(d)@.model is Mv7Plus {
            step == (Step::Pending(ExchangeOf::Drain { left: 2 }))
        } else {
            step matches StepOf::Done(Ok(OutputOf::Accepted))
        },
        call_ensures(
            ShureDevice::resume,
            (d, ExchangeOf::Drain { left }, EventOf::Received(report)),
            step,
        ) ==> final(d)@ == old(d)@ && if left > 1 {
            step == (Step::Pending(ExchangeOf::Drain { left: (left - 1) as u8 }))
        } else {
            step matches StepOf::Done(Ok(OutputOf::Accepted))
        },
{
}

/// A factory reset is done once it was written: no CONFIRM follows.
pub proof fn law_reset_is_done_when_written(
    d: &mut ShureDevice,
    seq: u8,
    outcome: Result<usize, String>,
    step: Step,
)
    requires
        call_ensures(
            ShureDevice::resume,
            (d, ExchangeOf::SendReset { seq }, EventOf::Written(outcome)),
            step,
        ),
    ensures
        final(d)@ == old(d)@,
        match outcome {
            Ok(written) => if written == 0 {
                step matches StepOf::Done(Err(DeviceErrorOf::WroteNothing))
            } else {
                step matches StepOf::Done(Ok(OutputOf::Accepted))
            },
            Err(reason) => step matches StepOf::Done(
                Err(DeviceErrorOf::WriteFailed { reason: told }),
            ) && told@ == reason@,
        },
        wrote(outcome) <==> step matches StepOf::Done(Ok(OutputOf::Accepted)),
        !wrote(outcome) <==> failed_to_write(outcome, step),
{
}

// ---------------------------------------------------------------------------------------------
// Reading
// ---------------------------------------------------------------------------------------------

/// Whether an operation goes on with the state query at `index`: with the feature that has its
/// place there, or with the command line of that number on the MV7. It is complete if there is
/// none.
pub open spec fn queries(before: DeviceView, after: DeviceView, step: Step, index: int) -> bool {
    if before.model is Mv7 {
        &&& after == before
        &&& if index < before.codec.state_queries {
            &&& step == (Step::Pending(
                ExchangeOf::SendText { goal: TextGoal::State { index: index as usize } },
            ))
            &&& writes(
                step,
                Packet::Text { line: TextCommand::StateQuery { index: index as usize } },
            )
        } else {
            step matches StepOf::Done(Ok(OutputOf::State { playback_mix: None }))
        }
    } else {
        &&& forall|getter: Getter| #[trigger]
            place(before.model, getter) == Some(index as nat) ==> {
                &&& counts(before, after)
                &&& step == (Step::Pending(
                    ExchangeOf::SendGet {
                        goal: GetGoal::State { index: index as usize },
                        seq: before.seq,
                        getter,
                    },
                ))
                &&& writes(
                    step,
                    Packet::Binary { seq: before.seq, command: Command::GetFeature(getter) },
                )
            }
        &&& (forall|getter: Getter| #[trigger] place(before.model, getter) != Some(index as nat))
            ==> {
            &&& after == before
            &&& step matches StepOf::Done(Ok(OutputOf::State { playback_mix: None }))
        }
    }
}

/// A step along the plan is a step along the places of the features.
proof fn lemma_queries(before: DeviceView, after: DeviceView, step: Step, index: int)
    requires
        index >= 0,
        (Standing { device: after, step: step@ }) == query_state(before, index),
    ensures
        queries(before, after, step, index),
{
    lemma_plan_len(before.model);
    if before.model !is Mv7 {
        assert forall|getter: Getter| #[trigger]
            place(before.model, getter) == Some(index as nat) implies index < state_plan(
            before.model,
        ).len() && getter == state_plan(before.model)[index] by {
            lemma_place(before.model, getter, index);
        }
        if index < state_plan(before.model).len() {
            let getter = state_plan(before.model)[index];
            lemma_place(before.model, getter, index);
            assert(place(before.model, getter) == Some(index as nat));
        }
    }
}

/// Whether a query without a usable response was passed over: the state goes on with the next
/// one, and of a serial number there is none.
pub open spec fn passes_over(
    before: DeviceView,
    after: DeviceView,
    step: Step,
    goal: GetGoal,
) -> bool {
    match goal {
        GetGoal::State { index } => queries(before, after, step, index + 1),
        GetGoal::Serial => {
            &&& after == before
            &&& step matches StepOf::Done(Ok(OutputOf::Serial { factory_serial: None }))
        },
    }
}

/// Reading begins with the first feature of the model, or with its serial number.
pub proof fn law_reading_begins(d: &mut ShureDevice, step: Step)
    ensures
        call_ensures(ShureDevice::get_state, (d,), step) ==> queries(old(d)@, final(d)@, step, 0),
        call_ensures(ShureDevice::read_factory_serial, (d,), step) ==> if old(d)@.model is Mv7 {
            &&& final(d)@ == old(d)@
            &&& step == (Step::Pending(ExchangeOf::SendText { goal: TextGoal::Serial }))
            &&& writes(step, Packet::Text { line: TextCommand::GetSerial })
        } else {
            &&& counts(old(d)@, final(d)@)
            &&& step == (Step::Pending(
                ExchangeOf::SendGet {
                    goal: GetGoal::Serial,
                    seq: old(d)@.seq,
                    getter: Getter::Serial,
                },
            ))
            &&& writes(
                step,
                Packet::Binary {
                    seq: old(d)@.seq,
                    command: Command::GetFeature(Getter::Serial),
                },
            )
        },
{
    if call_ensures(ShureDevice::get_state, (d,), step) {
        lemma_queries(old(d)@, final(d)@, step, 0);
    }
}

/// Once a GET was written its report is read, and once any bytes came in they are parsed, exactly
/// those and however many. Otherwise the query is passed over.
pub proof fn law_get_reads_and_parses(
    d: &mut ShureDevice,
    goal: GetGoal,
    seq: u8,
    getter: Getter,
    outcome: Result<usize, String>,
    read: Result<Vec<u8>, String>,
    step: Step,
)
    ensures
        call_ensures(
            ShureDevice::resume,
            (d, ExchangeOf::SendGet { goal, seq, getter }, EventOf::Written(outcome)),
            step,
        ) ==> if wrote(outcome) {
            final(d)@ == old(d)@ && step == (Step::Pending(
                ExchangeOf::ReadReport { goal, getter },
            ))
        } else {
            passes_over(old(d)@, final(d)@, step, goal)
        },
        call_ensures(
            ShureDevice::resume,
            (d, ExchangeOf::ReadReport { goal, getter }, EventOf::Received(read)),
            step,
        ) ==> if read is Ok && read->Ok_0@.len() > 0 {
            &&& final(d)@ == old(d)@
            &&& step matches StepOf::Pending(
                ExchangeOf::ParseReport { goal: same_goal, getter: same_getter, report },
            )
            &&& same_goal == goal
            &&& same_getter == getter
            &&& report@ == read->Ok_0@
        } else {
            passes_over(old(d)@, final(d)@, step, goal)
        },
{
    if let GetGoal::State { index } = goal {
        if call_ensures(
            ShureDevice::resume,
            (d, ExchangeOf::SendGet { goal, seq, getter }, EventOf::Written(outcome)),
            step,
        ) && !wrote(outcome) {
            lemma_queries(old(d)@, final(d)@, step, index + 1);
        }
        if call_ensures(
            ShureDevice::resume,
            (d, ExchangeOf::ReadReport { goal, getter }, EventOf::Received(read)),
            step,
        ) && !(read is Ok && read->Ok_0@.len() > 0) {
            lemma_queries(old(d)@, final(d)@, step, index + 1);
        }
    }
}

/// A response that was parsed is applied as it is. Without one the query is passed over.
pub proof fn law_response_is_applied(
    d: &mut ShureDevice,
    goal: GetGoal,
    getter: Getter,
    report: Vec<u8>,
    parsed: Option<ResponseOf<Vec<u8>>>,
    step: Step,
)
    requires
        getter != Getter::Mv7PlaybackMix,
        call_ensures(
            ShureDevice::resume,
            (d, ExchangeOf::ParseReport { goal, getter, report }, EventOf::Parsed(parsed)),
            step,
        ),
    ensures
        match parsed {
            Some(response) => {
                &&& final(d)@ == old(d)@
                &&& step matches StepOf::Pending(
                    ExchangeOf::ApplyResponse {
                        goal: same_goal,
                        getter: same_getter,
                        response: applied,
                    },
                )
                &&& same_goal == goal
                &&& same_getter == getter
                &&& applied.feature == response.feature
                &&& applied.value@ == response.value@
            },
            None => passes_over(old(d)@, final(d)@, step, goal),
        },
{
    if parsed is None {
        if let GetGoal::State { index } = goal {
            lemma_queries(old(d)@, final(d)@, step, index + 1);
        }
    }
}

/// The playback mix is the first byte of its response, or a hundred where that is more, and with
/// it the state is complete. The prefix and the address of the response do not matter.
pub proof fn law_playback_mix(
    d: &mut ShureDevice,
    goal: GetGoal,
    report: Vec<u8>,
    parsed: Option<(u8, ResponseOf<Vec<u8>>)>,
    step: Step,
)
    requires
        call_ensures(
            ShureDevice::resume,
            (
                d,
                ExchangeOf::ParseReport { goal, getter: Getter::Mv7PlaybackMix, report },
                EventOf::ParsedPrefixed(parsed),
            ),
            step,
        ),
    ensures
        parsed is Some && (parsed->0).1.value@.len() > 0 ==> {
            &&& final(d)@ == old(d)@
            &&& step matches StepOf::Done(Ok(OutputOf::State { playback_mix: Some(mix) }))
            &&& (parsed->0).1.value@[0] <= 100 ==> mix == (parsed->0).1.value@[0]
            &&& (parsed->0).1.value@[0] > 100 ==> mix == 100
        },
        !(parsed is Some && (parsed->0).1.value@.len() > 0) ==> passes_over(
            old(d)@,
            final(d)@,
            step,
            goal,
        ),
{
    if !(parsed is Some && (parsed->0).1.value@.len() > 0) {
        if let GetGoal::State { index } = goal {
            lemma_queries(old(d)@, final(d)@, step, index + 1);
        }
    }
}

/// Whether an operation gave back the serial number that was applied, if it was recognised and
/// there was one.
pub open spec fn gives_serial(step: Step, applied: AppliedOf<String>) -> bool {
    &&& step matches StepOf::Done(Ok(OutputOf::Serial { factory_serial }))
    &&& match factory_serial {
        Some(serial) => {
            &&& applied.recognised
            &&& applied.factory_serial is Some
            &&& serial@ == applied.factory_serial->0@
        },
        None => !applied.recognised || applied.factory_serial is None,
    }
}

/// Once a response was applied, recognised or not, the state goes on with the next query. A
/// serial number is given back if the response brought one.
pub proof fn law_applied_response(
    d: &mut ShureDevice,
    goal: GetGoal,
    getter: Getter,
    response: ResponseOf<Vec<u8>>,
    applied: AppliedOf<String>,
    step: Step,
)
    requires
        call_ensures(
            ShureDevice::resume,
            (d, ExchangeOf::ApplyResponse { goal, getter, response }, EventOf::Applied(applied)),
            step,
        ),
    ensures
        match goal {
            GetGoal::State { index } => queries(old(d)@, final(d)@, step, index + 1),
            GetGoal::Serial => final(d)@ == old(d)@ && gives_serial(step, applied),
        },
{
    if let GetGoal::State { index } = goal {
        lemma_queries(old(d)@, final(d)@, step, index + 1);
    }
}

// ---------------------------------------------------------------------------------------------
// Text commands
// ---------------------------------------------------------------------------------------------

/// Once a command line was written the wait for its reply begins, with nothing received. If it
/// could not be written the operation fails, but for the serial number, of which there is none.
pub proof fn law_line_is_waited_for(
    d: &mut ShureDevice,
    goal: TextGoal,
    outcome: Result<usize, String>,
    ns: u64,
    step: Step,
)
    ensures
        call_ensures(
            ShureDevice::resume,
            (d, ExchangeOf::SendText { goal }, EventOf::Written(outcome)),
            step,
        ) ==> final(d)@ == old(d)@ && if wrote(outcome) {
            step == (Step::Pending(ExchangeOf::StartWait { goal }))
        } else if goal is Serial {
            step matches StepOf::Done(Ok(OutputOf::Serial { factory_serial: None }))
        } else {
            failed_to_write(outcome, step)
        },
        call_ensures(
            ShureDevice::resume,
            (d, ExchangeOf::StartWait { goal }, EventOf::Now { ns }),
            step,
        ) ==> final(d)@ == old(d)@ && waits_for_time(step, goal, ns, Seq::empty()),
{
}

/// Whether the clock is to be read while waiting for the reply to a text command.
pub open spec fn waits_for_time(
    step: Step,
    goal: TextGoal,
    start_ns: u64,
    received: Seq<char>,
) -> bool {
    &&& step matches StepOf::Pending(
        ExchangeOf::CheckTime { goal: same_goal, start_ns: same_start, received: held },
    )
    &&& same_goal == goal
    &&& same_start == start_ns
    &&& held@ == received
}

/// There is a second and a half for a reply. Before that a report is read, and from then on there
/// is no reply.
pub proof fn law_deadline(
    d: &mut ShureDevice,
    goal: TextGoal,
    start_ns: u64,
    received: String,
    ns: u64,
    step: Step,
)
    requires
        call_ensures(
            ShureDevice::resume,
            (d, ExchangeOf::CheckTime { goal, start_ns, received }, EventOf::Now { ns }),
            step,
        ),
    ensures
        final(d)@ == old(d)@,
        ns < start_ns + 1_500_000_000 ==> {
            &&& step matches StepOf::Pending(
                ExchangeOf::ReadText { goal: same_goal, start_ns: same_start, received: held },
            )
            &&& same_goal == goal
            &&& same_start == start_ns
            &&& held@ == received@
        },
        ns >= start_ns + 1_500_000_000 ==> if goal is Serial {
            step matches StepOf::Done(Ok(OutputOf::Serial { factory_serial: None }))
        } else {
            step matches StepOf::Done(Err(DeviceErrorOf::NoReply { command })) && command
                == line_of(goal)
        },
{
}

/// What comes in is decoded and put behind what came in before, and the reply is looked for in
/// all of it. Nothing in time leaves the wait as it is, and a failed read ends it.
pub proof fn law_text_comes_in(
    d: &mut ShureDevice,
    goal: TextGoal,
    start_ns: u64,
    received: String,
    read: Result<Vec<u8>, String>,
    text: String,
    step: Step,
)
    requires
        call_ensures(
            ShureDevice::resume,
            (d, ExchangeOf::ReadText { goal, start_ns, received }, EventOf::Received(read)),
            step,
        ),
        read is Ok ==> call_ensures(decode_report, (&read->Ok_0,), text),
    ensures
        final(d)@ == old(d)@,
        match read {
            Ok(report) => if report@.len() == 0 {
                waits_for_time(step, goal, start_ns, received@)
            } else {
                &&& step matches StepOf::Pending(
                    ExchangeOf::FindReply { goal: same_goal, start_ns: same_start, received: held },
                )
                &&& same_goal == goal
                &&& same_start == start_ns
                &&& held@ == received@ + text@
            },
            Err(reason) => if goal is Serial {
                step matches StepOf::Done(Ok(OutputOf::Serial { factory_serial: None }))
            } else {
                step matches StepOf::Done(Err(DeviceErrorOf::ReadFailed { reason: told })) && told@
                    == reason@
            },
        },
{
}

/// A reply changes a setting unless it says that the command failed or the setting is locked.
pub proof fn law_reply_to_a_change(
    d: &ShureDevice,
    line: TextCommand,
    reply: &String,
    checked: Result<(), DeviceError>,
)
    requires
        call_ensures(ShureDevice::check_text_reply, (d, line, reply), checked),
    ensures
        reply@ == d@.codec.failed_reply ==> (checked matches Err(
            DeviceErrorOf::Rejected { command },
        ) && command == line),
        reply@ == d@.codec.locked_reply && reply@ != d@.codec.failed_reply ==> (checked matches Err(
            DeviceErrorOf::Locked { command },
        ) && command == line),
        reply@ != d@.codec.failed_reply && reply@ != d@.codec.locked_reply ==> checked is Ok,
{
}

/// Without a reply the wait goes on with what was received. A reply ends it: it decides about a
/// change, and is applied where something is read. A gain that failed is looked at.
pub proof fn law_reply_ends_the_wait(
    d: &mut ShureDevice,
    goal: TextGoal,
    start_ns: u64,
    received: String,
    found: Option<String>,
    step: Step,
)
    requires
        call_ensures(
            ShureDevice::resume,
            (d, ExchangeOf::FindReply { goal, start_ns, received }, EventOf::Found(found)),
            step,
        ),
    ensures
        final(d)@ == old(d)@,
        found is None ==> waits_for_time(step, goal, start_ns, received@),
        found is Some ==> {
            let reply = found->0@;
            let failed = reply == old(d)@.codec.failed_reply;
            let locked = reply == old(d)@.codec.locked_reply;
            match goal {
                TextGoal::Change { line } => if failed {
                    step matches StepOf::Done(Err(DeviceErrorOf::Rejected { command })) && command
                        == line
                } else if locked {
                    step matches StepOf::Done(Err(DeviceErrorOf::Locked { command })) && command
                        == line
                } else {
                    step matches StepOf::Done(Ok(OutputOf::Accepted))
                },
                TextGoal::ChangeGain { gain_tenths } => if failed {
                    step == (Step::Pending(
                        ExchangeOf::SendText { goal: TextGoal::CheckGain { gain_tenths } },
                    )) && writes(step, Packet::Text { line: TextCommand::GetGain })
                } else if locked {
                    step matches StepOf::Done(Err(DeviceErrorOf::Locked { command })) && command
                        == (TextCommand::SetGain { gain_tenths })
                } else {
                    step matches StepOf::Done(Ok(OutputOf::Accepted))
                },
                _ => {
                    &&& step matches StepOf::Pending(
                        ExchangeOf::ApplyReply { goal: same_goal, reply: applied },
                    )
                    &&& same_goal == goal
                    &&& applied@ == reply
                },
            }
        },
{
}

/// Once a reply was applied, recognised or not, the state goes on with the next query, and a
/// serial number is given back if the reply brought one. A gain that was looked at is held against
/// the one that was asked for.
pub proof fn law_applied_reply(
    d: &mut ShureDevice,
    goal: TextGoal,
    reply: String,
    applied: AppliedOf<String>,
    step: Step,
)
    requires
        call_ensures(
            ShureDevice::resume,
            (d, ExchangeOf::ApplyReply { goal, reply }, EventOf::Applied(applied)),
            step,
        ),
    ensures
        match goal {
            TextGoal::State { index } => queries(old(d)@, final(d)@, step, index + 1),
            TextGoal::Serial => final(d)@ == old(d)@ && gives_serial(step, applied),
            TextGoal::CheckGain { gain_tenths } => final(d)@ == old(d)@ && if applied.recognised {
                step == (Step::Pending(
                    ExchangeOf::SnapGain { gain_tenths, held_tenths: applied.gain_tenths },
                ))
            } else {
                step matches StepOf::Done(Err(DeviceErrorOf::Rejected { command })) && command == (
                TextCommand::SetGain { gain_tenths })
            },
            _ => true,
        },
{
    if let TextGoal::State { index } = goal {
        lemma_queries(old(d)@, final(d)@, step, index + 1);
    }
}

/// A gain that the MV7 rejected counts as set if, and only if, it has that gain.
pub proof fn law_gain_is_compared(
    d: &mut ShureDevice,
    asked: u16,
    held_tenths: u16,
    snapped: u16,
    step: Step,
)
    requires
        call_ensures(
            ShureDevice::resume,
            (
                d,
                ExchangeOf::SnapGain { gain_tenths: asked, held_tenths },
                EventOf::Snapped { gain_tenths: snapped },
            ),
            step,
        ),
    ensures
        final(d)@ == old(d)@,
        held_tenths == snapped ==> step matches StepOf::Done(Ok(OutputOf::Accepted)),
        held_tenths != snapped ==> (step matches StepOf::Done(
            Err(DeviceErrorOf::Rejected { command }),
        ) && command == (TextCommand::SetGain { gain_tenths: asked })),
{
}

} // verus!
