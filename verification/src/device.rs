//! A connected device and the operations on it.
//!
//! Every SET is followed by a CONFIRM, without which the device does not apply the change. A GET
//! is answered by one report. The MV7 is the exception: it takes one command line per report and
//! answers with a line of text.
//!
//! Binary packets are numbered from 0 to 255 and around again.

use vstd::prelude::*;
use vstd::string::*;
use vstd::utf8::{decode_utf8, valid_utf8};

use crate::command::{
    AutoGain, AutoTone, CompressorPreset, EqPreset, Getter, HpfFrequency, InputMode, LedBehavior,
    LedBrightness, LedLiveTheme, LedPulsingTheme, LedSolidTheme, MicPosition, ReverbType, Setter,
    TextCommand,
};
use crate::enumerate::{
    choose_only, choose_path, only_choice, requested_choice, shown_serial, HidEntry, Target,
};
use crate::error::{DeviceError, DeviceErrorOf, DeviceErrorView};
use crate::exchange::{
    action_of, answers, report_view, result_view, AppliedOf, Codec, DeviceView, Event, EventOf,
    EventView, Exchange, ExchangeOf, ExchangeView, GetGoal, OutputOf, ResponseOf, Step, StepOf,
    StepView, TextGoal, DRAIN_REPORTS, MV7_REPLY_TIMEOUT_NS, PLAYBACK_MIX_MAX,
};
use crate::model::DeviceModel;
use crate::plan::{lemma_plan_len, state_getter, state_plan};
use crate::progress::{
    begin_auto_level, begin_get, begin_mv7_only, begin_reset, begin_set, begin_text, begun,
    binary_check, clamped_gain, pass_over, playback_mix_parsed, proceed, query_serial, query_state,
    quotes, read_report, reply_applied, reply_outcome, text_check, text_failed, text_held,
    text_read, text_replied, write_error, Standing,
};
use crate::run::{
    fits, law_serial_is_what_the_response_brings, law_state_is_complete,
    law_text_serial_is_what_the_reply_brings, law_text_state_is_complete, phase, run,
    serial_conduct, state_conduct, text_serial_conduct, text_state_conduct,
};
use crate::text::{decode_report, no_nul, without_zeros};

verus! {

/// A connected Shure microphone or interface.
#[derive(Debug, PartialEq, Eq)]
pub struct ShureDevice {
    /// Decides which protocol the device speaks and what its commands look like.
    pub model: DeviceModel,
    /// The number of the next binary packet.
    seq: u8,
    /// The serial number from the USB descriptor, read when the device was opened.
    pub serial_number: String,
    /// What the codec says of the model.
    pub codec: Codec,
}

impl ShureDevice {
    /// The device, and where the operation on it stands.
    pub open spec fn at(self, step: Step) -> Standing {
        Standing { device: self@, step: step@ }
    }
}

impl View for ShureDevice {
    type V = DeviceView;

    closed spec fn view(&self) -> DeviceView {
        DeviceView {
            model: self.model,
            seq: self.seq,
            serial_number: self.serial_number@,
            codec: self.codec@,
        }
    }
}

/// What contracts see of a device is what it holds.
proof fn law_view_shows_the_device(d: ShureDevice)
    ensures
        d@.model == d.model,
        d@.serial_number == d.serial_number@,
        d@.codec.max_gain_tenths == d.codec.max_gain_tenths,
        d@.codec.failed_reply == d.codec.failed_reply@,
        d@.codec.locked_reply == d.codec.locked_reply@,
        d@.codec.state_queries == d.codec.state_queries,
{
}

/// The serial number that reading the USB descriptor gave, if it gave one.
pub open spec fn descriptor_serial(read: Result<Option<String>, String>) -> Option<Seq<char>> {
    match read {
        Ok(Some(serial)) => Some(serial@),
        _ => None,
    }
}

/// The error when `target` cannot be opened.
pub open spec fn open_error(target: Target, reason: Seq<char>) -> DeviceErrorView {
    if target.requested {
        DeviceErrorOf::CannotOpenPath { path: target.path@, reason }
    } else {
        DeviceErrorOf::CannotOpen { reason }
    }
}

/// What a check of the protocol gave.
pub open spec fn check_view(checked: Result<(), DeviceError>) -> Result<(), DeviceErrorView> {
    match checked {
        Ok(()) => Ok(()),
        Err(error) => Err(error@),
    }
}

/// Whether a report of valid UTF-8 that was read while waiting for a reply was taken for the text
/// that it spells, padding left out.
pub open spec fn read_as_text(x: ExchangeView, event: EventView, step: StepView) -> bool {
    match (x, event) {
        (ExchangeOf::ReadText { goal, start_ns, received }, EventOf::Received(Ok(report))) => {
            report.len() > 0 && valid_utf8(without_zeros(report)) ==> step == (StepView::Pending(
                ExchangeOf::FindReply {
                    goal,
                    start_ns,
                    received: received + decode_utf8(without_zeros(report)),
                },
            ))
        },
        _ => true,
    }
}

// Opening a device.
impl ShureDevice {
    /// A device that was just opened. `serial` is what reading the serial number from its USB
    /// descriptor gave.
    pub fn from_hid_device(
        serial: Result<Option<String>, String>,
        model: DeviceModel,
        codec: Codec,
    ) -> (device: ShureDevice)
        ensures
            device@ == (DeviceView {
                model,
                seq: 0,
                serial_number: shown_serial(descriptor_serial(serial)),
                codec: codec@,
            }),
    {
        let serial_number = match serial {
            Ok(Some(serial)) => serial,
            _ => "(unknown)".to_owned(),
        };
        ShureDevice { model, seq: 0, serial_number, codec }
    }

    /// The device to open: the only supported one. It is an error if there is none or more than
    /// one. `attached` is the backend's device list, or the reason why there is none.
    pub fn open(attached: &Result<Vec<HidEntry>, String>) -> (choice: Result<Target, DeviceError>)
        ensures
            only_choice(*attached, choice),
    {
        choose_only(attached)
    }

    /// The device to open: the supported one at `path`.
    pub fn open_path(attached: &Result<Vec<HidEntry>, String>, path: &str) -> (choice: Result<
        Target,
        DeviceError,
    >)
        ensures
            requested_choice(*attached, path@, choice),
    {
        choose_path(attached, path)
    }

    /// The error when the backend cannot open `target`, for the reason that it gives.
    pub fn cannot_open(target: Target, reason: String) -> (error: DeviceError)
        ensures
            error@ == open_error(target, reason@),
    {
        if target.requested {
            DeviceErrorOf::CannotOpenPath { path: target.path, reason }
        } else {
            DeviceErrorOf::CannotOpen { reason }
        }
    }
}

// Carrying out operations.
impl ShureDevice {
    /// Takes the number for a binary packet.
    fn next_seq(&mut self) -> (seq: u8)
        ensures
            seq == old(self)@.seq,
            final(self)@ == old(self)@.numbered(),
    {
        let seq: u8 = self.seq;
        self.seq = if seq == 255 {
            0
        } else {
            seq + 1
        };
        seq
    }

    /// Judges the outcome of a write.
    fn write(outcome: Result<usize, String>) -> (checked: Result<(), DeviceError>)
        ensures
            match write_error(result_view(outcome)) {
                Some(error) => checked is Err && checked->Err_0@ == error,
                None => checked is Ok,
            },
    {
        match outcome {
            Err(reason) => Err(DeviceErrorOf::WriteFailed { reason }),
            Ok(written) => if written == 0 {
                Err(DeviceErrorOf::WroteNothing)
            } else {
                Ok(())
            },
        }
    }

    /// Judges the outcome of a read.
    fn read(outcome: Result<Vec<u8>, String>) -> (checked: Result<Vec<u8>, DeviceError>)
        ensures
            match read_report(report_view(outcome)) {
                Ok(report) => checked is Ok && checked->Ok_0@ == report,
                Err(error) => checked is Err && checked->Err_0@ == error,
            },
    {
        match outcome {
            Err(reason) => Err(DeviceErrorOf::ReadFailed { reason }),
            Ok(report) => if report.len() == 0 {
                Err(DeviceErrorOf::ReadTimedOut)
            } else {
                Ok(report)
            },
        }
    }

    /// Refuses the MV7, which would take a binary packet for a garbled command line.
    pub fn ensure_binary_protocol(&self) -> (checked: Result<(), DeviceError>)
        ensures
            check_view(checked) == binary_check(self@),
    {
        match self.model {
            DeviceModel::Mv7 => Err(DeviceErrorOf::NotOnMv7),
            DeviceModel::Mvx2u
            | DeviceModel::Mvx2uGen2
            | DeviceModel::Mv6
            | DeviceModel::Mv7Plus => Ok(()),
        }
    }

    /// Refuses every model but the MV7.
    pub fn ensure_text_protocol(&self) -> (checked: Result<(), DeviceError>)
        ensures
            check_view(checked) == text_check(self@),
    {
        match self.model {
            DeviceModel::Mv7 => Ok(()),
            DeviceModel::Mvx2u
            | DeviceModel::Mvx2uGen2
            | DeviceModel::Mv6
            | DeviceModel::Mv7Plus => Err(DeviceErrorOf::OnlyOnMv7 { model: self.model }),
        }
    }

    /// Begins a binary SET.
    fn send_set(&mut self, setter: Setter) -> (step: Step)
        ensures
            final(self).at(step) == begin_set(old(self)@, setter),
    {
        let seq: u8 = self.next_seq();
        match self.ensure_binary_protocol() {
            Err(error) => StepOf::Done(Err(error)),
            Ok(()) => StepOf::Pending(ExchangeOf::SendSet { seq, setter }),
        }
    }

    /// Begins a binary GET.
    fn send_get(&mut self, goal: GetGoal, getter: Getter) -> (step: Step)
        ensures
            final(self).at(step) == begin_get(old(self)@, goal, getter),
    {
        let seq: u8 = self.next_seq();
        match self.ensure_binary_protocol() {
            Err(error) => StepOf::Done(Err(error)),
            Ok(()) => StepOf::Pending(ExchangeOf::SendGet { goal, seq, getter }),
        }
    }

    /// Begins a text command.
    fn send_text(&self, goal: TextGoal) -> (step: Step)
        ensures
            self.at(step) == begin_text(self@, goal),
    {
        StepOf::Pending(ExchangeOf::SendText { goal })
    }

    /// Begins a text command that changes a setting.
    fn send_text_set(&self, line: TextCommand) -> (step: Step)
        ensures
            self.at(step) == begin_text(self@, TextGoal::Change { line }),
    {
        self.send_text(TextGoal::Change { line })
    }

    /// Begins a text command that changes the gain.
    fn send_text_set_gain(&self, gain_tenths: u16) -> (step: Step)
        ensures
            self.at(step) == begin_text(self@, TextGoal::ChangeGain { gain_tenths }),
    {
        self.send_text(TextGoal::ChangeGain { gain_tenths })
    }

    /// Begins a text command that only the MV7 knows.
    fn send_mv7_only(&self, line: TextCommand) -> (step: Step)
        ensures
            self.at(step) == begin_mv7_only(self@, line),
    {
        match self.ensure_text_protocol() {
            Err(error) => StepOf::Done(Err(error)),
            Ok(()) => self.send_text_set(line),
        }
    }

    /// Judges the MV7's reply to a change of a setting.
    pub fn check_text_reply(&self, line: TextCommand, reply: &String) -> (checked: Result<
        (),
        DeviceError,
    >)
        ensures
            match reply_outcome(self@.codec, line, reply@) {
                Ok(_) => checked is Ok,
                Err(error) => checked is Err && checked->Err_0@ == error,
            },
    {
        if *reply == self.codec.failed_reply {
            Err(DeviceErrorOf::Rejected { command: line })
        } else if *reply == self.codec.locked_reply {
            Err(DeviceErrorOf::Locked { command: line })
        } else {
            Ok(())
        }
    }

    /// Goes on with the state query at `index`.
    fn run_getters(&mut self, index: usize) -> (step: Step)
        ensures
            final(self).at(step) == query_state(old(self)@, index as int),
    {
        match self.model {
            DeviceModel::Mv7 => if index < self.codec.state_queries {
                self.send_text(TextGoal::State { index })
            } else {
                StepOf::Done(Ok(OutputOf::State { playback_mix: None }))
            },
            DeviceModel::Mvx2u
            | DeviceModel::Mvx2uGen2
            | DeviceModel::Mv6
            | DeviceModel::Mv7Plus => match state_getter(self.model, index) {
                Some(getter) => self.send_get(GetGoal::State { index }, getter),
                None => StepOf::Done(Ok(OutputOf::State { playback_mix: None })),
            },
        }
    }

    /// Goes on after the state query at `index`.
    fn run_getters_after(&mut self, index: usize) -> (step: Step)
        ensures
            final(self).at(step) == query_state(old(self)@, index + 1),
    {
        if index < usize::MAX {
            self.run_getters(index + 1)
        } else {
            proof {
                lemma_plan_len(self.model);
            }
            StepOf::Done(Ok(OutputOf::State { playback_mix: None }))
        }
    }

    /// Goes on after a GET that brought nothing.
    fn skip_get(&mut self, goal: GetGoal) -> (step: Step)
        ensures
            final(self).at(step) == pass_over(old(self)@, goal),
    {
        match goal {
            GetGoal::State { index } => self.run_getters_after(index),
            GetGoal::Serial => StepOf::Done(Ok(OutputOf::Serial { factory_serial: None })),
        }
    }

    /// Ends a text command that got no reply.
    fn fail_text(&self, goal: TextGoal, error: DeviceError) -> (step: Step)
        ensures
            self.at(step) == text_failed(self@, goal, error@),
    {
        match goal {
            TextGoal::Serial => StepOf::Done(Ok(OutputOf::Serial { factory_serial: None })),
            _ => StepOf::Done(Err(error)),
        }
    }

    /// Goes on with the reply to a text command.
    fn take_reply(&self, goal: TextGoal, reply: String) -> (step: Step)
        ensures
            self.at(step) == text_replied(self@, goal, reply@),
    {
        match goal {
            TextGoal::Change { line } => match self.check_text_reply(line, &reply) {
                Ok(()) => StepOf::Done(Ok(OutputOf::Accepted)),
                Err(error) => StepOf::Done(Err(error)),
            },
            TextGoal::ChangeGain { gain_tenths } => if reply == self.codec.failed_reply {
                self.send_text(TextGoal::CheckGain { gain_tenths })
            } else {
                match self.check_text_reply(goal.line(), &reply) {
                    Ok(()) => StepOf::Done(Ok(OutputOf::Accepted)),
                    Err(error) => StepOf::Done(Err(error)),
                }
            },
            _ => StepOf::Pending(ExchangeOf::ApplyReply { goal, reply }),
        }
    }

    /// Goes on after a reply was applied to the device state.
    fn take_applied(&mut self, goal: TextGoal, applied: AppliedOf<String>) -> (step: Step)
        ensures
            final(self).at(step) == reply_applied(old(self)@, goal, applied@),
    {
        match goal {
            TextGoal::State { index } => self.run_getters_after(index),
            TextGoal::Serial => StepOf::Done(
                Ok(
                    OutputOf::Serial {
                        factory_serial: if applied.recognised {
                            applied.factory_serial
                        } else {
                            None
                        },
                    },
                ),
            ),
            TextGoal::CheckGain { gain_tenths } => if applied.recognised {
                StepOf::Pending(
                    ExchangeOf::SnapGain { gain_tenths, held_tenths: applied.gain_tenths },
                )
            } else {
                StepOf::Done(
                    Err(
                        DeviceErrorOf::Rejected { command: TextCommand::SetGain { gain_tenths } },
                    ),
                )
            },
            TextGoal::ChangeGain { .. } | TextGoal::Change { .. } => StepOf::Done(
                Ok(OutputOf::Accepted),
            ),
        }
    }

    /// Takes the outcome of the action that `exchange` waits for.
    pub fn resume(&mut self, exchange: Exchange, event: Event) -> (step: Step)
        requires
            answers(event@, action_of(exchange@)),
        ensures
            final(self).at(step) == proceed(old(self)@, exchange@, event@),
            exchange is ReadText ==> read_as_text(exchange@, event@, step@),
            no_nul(text_held(exchange@)) && quotes(exchange@, event@) && step@ is Pending
                ==> no_nul(text_held(step@->Pending_0)),
    {
        match (exchange, event) {
            (ExchangeOf::SendSet { .. }, EventOf::Written(outcome)) => match Self::write(outcome) {
                Err(error) => StepOf::Done(Err(error)),
                Ok(()) => {
                    let seq: u8 = self.next_seq();
                    StepOf::Pending(ExchangeOf::SendConfirm { seq })
                },
            },
            (ExchangeOf::SendConfirm { .. }, EventOf::Written(outcome)) => match Self::write(
                outcome,
            ) {
                Err(error) => StepOf::Done(Err(error)),
                Ok(()) => if self.model == DeviceModel::Mv7Plus {
                    StepOf::Pending(ExchangeOf::Drain { left: DRAIN_REPORTS })
                } else {
                    StepOf::Done(Ok(OutputOf::Accepted))
                },
            },
            (ExchangeOf::Drain { left }, EventOf::Received(_)) => if left > 1 {
                StepOf::Pending(ExchangeOf::Drain { left: left - 1 })
            } else {
                StepOf::Done(Ok(OutputOf::Accepted))
            },
            (ExchangeOf::SendReset { .. }, EventOf::Written(outcome)) => match Self::write(
                outcome,
            ) {
                Err(error) => StepOf::Done(Err(error)),
                Ok(()) => StepOf::Done(Ok(OutputOf::Accepted)),
            },
            (ExchangeOf::SendGet { goal, getter, .. }, EventOf::Written(outcome)) => {
                match Self::write(outcome) {
                    Err(_) => self.skip_get(goal),
                    Ok(()) => StepOf::Pending(ExchangeOf::ReadReport { goal, getter }),
                }
            },
            (ExchangeOf::ReadReport { goal, getter }, EventOf::Received(outcome)) => {
                match Self::read(outcome) {
                    Err(_) => self.skip_get(goal),
                    Ok(report) => StepOf::Pending(
                        ExchangeOf::ParseReport { goal, getter, report },
                    ),
                }
            },
            (ExchangeOf::ParseReport { goal, getter, .. }, EventOf::Parsed(response)) => {
                match response {
                    Some(response) => StepOf::Pending(
                        ExchangeOf::ApplyResponse { goal, getter, response },
                    ),
                    None => self.skip_get(goal),
                }
            },
            (ExchangeOf::ParseReport { goal, .. }, EventOf::ParsedPrefixed(response)) => {
                self.take_playback_mix(goal, response)
            },
            (ExchangeOf::ApplyResponse { goal, .. }, EventOf::Applied(applied)) => match goal {
                GetGoal::State { index } => self.run_getters_after(index),
                GetGoal::Serial => StepOf::Done(
                    Ok(
                        OutputOf::Serial {
                            factory_serial: if applied.recognised {
                                applied.factory_serial
                            } else {
                                None
                            },
                        },
                    ),
                ),
            },
            (ExchangeOf::SendText { goal }, EventOf::Written(outcome)) => match Self::write(
                outcome,
            ) {
                Err(error) => self.fail_text(goal, error),
                Ok(()) => StepOf::Pending(ExchangeOf::StartWait { goal }),
            },
            (ExchangeOf::StartWait { goal }, EventOf::Now { ns }) => StepOf::Pending(
                ExchangeOf::CheckTime { goal, start_ns: ns, received: String::new() },
            ),
            (ExchangeOf::CheckTime { goal, start_ns, received }, EventOf::Now { ns }) => {
                if ns < start_ns || ns - start_ns < MV7_REPLY_TIMEOUT_NS {
                    StepOf::Pending(ExchangeOf::ReadText { goal, start_ns, received })
                } else {
                    self.fail_text(goal, DeviceErrorOf::NoReply { command: goal.line() })
                }
            },
            (
                ExchangeOf::ReadText { goal, start_ns, received },
                EventOf::Received(outcome),
            ) => self.take_text(goal, start_ns, received, outcome),
            (ExchangeOf::FindReply { goal, start_ns, received }, EventOf::Found(reply)) => {
                match reply {
                    Some(reply) => self.take_reply(goal, reply),
                    None => StepOf::Pending(ExchangeOf::CheckTime { goal, start_ns, received }),
                }
            },
            (ExchangeOf::ApplyReply { goal, .. }, EventOf::Applied(applied)) => {
                self.take_applied(goal, applied)
            },
            (ExchangeOf::SnapGain { gain_tenths, held_tenths }, EventOf::Snapped {
                gain_tenths: snapped_tenths,
            }) => if held_tenths == snapped_tenths {
                StepOf::Done(Ok(OutputOf::Accepted))
            } else {
                StepOf::Done(
                    Err(
                        DeviceErrorOf::Rejected { command: TextCommand::SetGain { gain_tenths } },
                    ),
                )
            },
            _ => vstd::pervasive::unreached(),
        }
    }

    /// Goes on with the response to the query for the playback mix.
    fn take_playback_mix(
        &mut self,
        goal: GetGoal,
        response: Option<(u8, ResponseOf<Vec<u8>>)>,
    ) -> (step: Step)
        ensures
            final(self).at(step) == playback_mix_parsed(
                old(self)@,
                goal,
                match response {
                    Some((prefix, response)) => Some((prefix, response@)),
                    None => None,
                },
            ),
    {
        if let Some((_, response)) = response {
            if response.value.len() > 0 {
                let mix: u8 = response.value[0];
                let capped: u8 = if mix < PLAYBACK_MIX_MAX {
                    mix
                } else {
                    PLAYBACK_MIX_MAX
                };
                return StepOf::Done(Ok(OutputOf::State { playback_mix: Some(capped) }));
            }
        }
        self.skip_get(goal)
    }

    /// Goes on with a part of the reply to a text command.
    fn take_text(
        &self,
        goal: TextGoal,
        start_ns: u64,
        received: String,
        outcome: Result<Vec<u8>, String>,
    ) -> (step: Step)
        ensures
            self.at(step) == text_read(
                self@,
                goal,
                start_ns,
                received@,
                report_view(outcome),
            ),
            outcome is Ok && outcome->Ok_0@.len() > 0 && valid_utf8(
                without_zeros(outcome->Ok_0@),
            ) ==> step@ == (StepView::Pending(
                ExchangeOf::FindReply {
                    goal,
                    start_ns,
                    received: received@ + decode_utf8(without_zeros(outcome->Ok_0@)),
                },
            )),
            no_nul(received@) && step@ is Pending ==> no_nul(text_held(step@->Pending_0)),
    {
        match outcome {
            Err(reason) => self.fail_text(goal, DeviceErrorOf::ReadFailed { reason }),
            Ok(report) => if report.len() == 0 {
                StepOf::Pending(ExchangeOf::CheckTime { goal, start_ns, received })
            } else {
                let text = decode_report(&report);
                Self::look_for_reply(goal, start_ns, received, &text)
            },
        }
    }

    /// Begins to look for the reply to a text command once `text` has come in after `received`.
    pub fn look_for_reply(
        goal: TextGoal,
        start_ns: u64,
        received: String,
        text: &String,
    ) -> (step: Step)
        ensures
            step@ == (StepView::Pending(
                ExchangeOf::FindReply { goal, start_ns, received: received@ + text@ },
            )),
    {
        let mut all = received;
        all.append(text.as_str());
        StepOf::Pending(ExchangeOf::FindReply { goal, start_ns, received: all })
    }
}

// Reading from a device.
impl ShureDevice {
    /// Begins to query every feature of the model. What comes back is applied to a fresh device
    /// state.
    pub fn get_state(&mut self) -> (step: Step)
        ensures
            begun(old(self)@, final(self).at(step)),
            final(self).at(step) == query_state(old(self)@, 0),
            forall|events: Seq<EventView>| #[trigger]
                fits(final(self).at(step), events) ==> phase(run(final(self).at(step), events).step)
                    == if old(self)@.model is Mv7 {
                    text_state_conduct(old(self)@, 0, events)
                } else {
                    state_conduct(state_plan(old(self)@.model), 0, old(self)@.seq, events)
                },
    {
        let ghost d = self@;
        proof {
            assert forall|events: Seq<EventView>| #[trigger]
                fits(query_state(d, 0), events) implies phase(run(query_state(d, 0), events).step)
                == if d.model is Mv7 {
                text_state_conduct(d, 0, events)
            } else {
                state_conduct(state_plan(d.model), 0, d.seq, events)
            } by {
                if d.model is Mv7 {
                    law_text_state_is_complete(d, 0, events);
                } else {
                    law_state_is_complete(d, 0, events);
                }
            }
        }
        self.run_getters(0)
    }

    /// Begins to query the factory serial number, the one printed on the device.
    pub fn read_factory_serial(&mut self) -> (step: Step)
        ensures
            begun(old(self)@, final(self).at(step)),
            final(self).at(step) == query_serial(old(self)@),
            forall|events: Seq<EventView>| #[trigger]
                fits(final(self).at(step), events) ==> phase(run(final(self).at(step), events).step)
                    == if old(self)@.model is Mv7 {
                    text_serial_conduct(events)
                } else {
                    serial_conduct(old(self)@.seq, events)
                },
    {
        let ghost d = self@;
        proof {
            assert forall|events: Seq<EventView>| #[trigger]
                fits(query_serial(d), events) implies phase(run(query_serial(d), events).step)
                == if d.model is Mv7 {
                text_serial_conduct(events)
            } else {
                serial_conduct(d.seq, events)
            } by {
                if d.model is Mv7 {
                    law_text_serial_is_what_the_reply_brings(d, events);
                } else {
                    law_serial_is_what_the_response_brings(d, events);
                }
            }
        }
        if self.model == DeviceModel::Mv7 {
            return self.send_text(TextGoal::Serial);
        }
        self.send_get(GetGoal::Serial, Getter::Serial)
    }
}

// Settings that several models share.
impl ShureDevice {
    /// Sets the manual gain in tenths of a dB, or the model's highest if that is lower.
    pub fn set_gain(&mut self, gain_tenths: u16) -> (step: Step)
        ensures
            begun(old(self)@, final(self).at(step)),
            final(self).at(step) == {
                let gain_tenths = clamped_gain(old(self)@, gain_tenths);
                match old(self)@.model {
                    DeviceModel::Mv7 => begin_text(
                        old(self)@,
                        TextGoal::ChangeGain { gain_tenths },
                    ),
                    DeviceModel::Mv7Plus => begin_set(old(self)@, Setter::Mv7Gain(gain_tenths)),
                    _ => begin_set(old(self)@, Setter::Gain(gain_tenths)),
                }
            },
    {
        let clamped: u16 = if gain_tenths < self.codec.max_gain_tenths {
            gain_tenths
        } else {
            self.codec.max_gain_tenths
        };
        match self.model {
            DeviceModel::Mv7 => self.send_text_set_gain(clamped),
            DeviceModel::Mv7Plus => self.send_set(Setter::Mv7Gain(clamped)),
            DeviceModel::Mvx2u | DeviceModel::Mvx2uGen2 | DeviceModel::Mv6 => {
                self.send_set(Setter::Gain(clamped))
            },
        }
    }

    /// Switches between Auto Level and manual control. The MV7 keeps mode, microphone position
    /// and tone in one setting, so they are passed along; other models ignore them.
    pub fn set_mode(&mut self, auto: bool, position: MicPosition, tone: AutoTone) -> (step: Step)
        ensures
            begun(old(self)@, final(self).at(step)),
            final(self).at(step) == match old(self)@.model {
                DeviceModel::Mv7 => begin_text(
                    old(self)@,
                    TextGoal::Change {
                        line: TextCommand::SetDspMode {
                            mode: if auto {
                                InputMode::Auto
                            } else {
                                InputMode::Manual
                            },
                            position,
                            tone,
                        },
                    },
                ),
                DeviceModel::Mv7Plus => begin_set(old(self)@, Setter::Mv7Mode { auto }),
                _ => begin_set(old(self)@, Setter::Mode { auto }),
            },
    {
        match self.model {
            DeviceModel::Mv7 => {
                let mode = if auto {
                    InputMode::Auto
                } else {
                    InputMode::Manual
                };
                self.send_text_set(TextCommand::SetDspMode { mode, position, tone })
            },
            DeviceModel::Mv7Plus => self.send_set(Setter::Mv7Mode { auto }),
            DeviceModel::Mvx2u | DeviceModel::Mvx2uGen2 | DeviceModel::Mv6 => {
                self.send_set(Setter::Mode { auto })
            },
        }
    }

    /// Mutes or unmutes the microphone.
    pub fn set_mute(&mut self, muted: bool) -> (step: Step)
        ensures
            begun(old(self)@, final(self).at(step)),
            final(self).at(step) == match old(self)@.model {
                DeviceModel::Mv7 => begin_text(old(self)@, TextGoal::Change { line: TextCommand::SetMute { muted } }),
                DeviceModel::Mv7Plus => begin_set(old(self)@, Setter::Mv7Mute(muted)),
                _ => begin_set(old(self)@, Setter::Mute(muted)),
            },
    {
        match self.model {
            DeviceModel::Mv7 => self.send_text_set(TextCommand::SetMute { muted }),
            DeviceModel::Mv7Plus => self.send_set(Setter::Mv7Mute(muted)),
            DeviceModel::Mvx2u | DeviceModel::Mvx2uGen2 | DeviceModel::Mv6 => {
                self.send_set(Setter::Mute(muted))
            },
        }
    }

    /// Sets the high-pass filter.
    pub fn set_hpf(&mut self, freq: &HpfFrequency) -> (step: Step)
        ensures
            begun(old(self)@, final(self).at(step)),
            final(self).at(step) == begin_set(
                old(self)@,
                if old(self)@.model is Mv7Plus {
                    Setter::Mv7Hpf(*freq)
                } else {
                    Setter::Hpf(*freq)
                },
            ),
    {
        match self.model {
            DeviceModel::Mv7Plus => self.send_set(Setter::Mv7Hpf(*freq)),
            _ => self.send_set(Setter::Hpf(*freq)),
        }
    }

    /// Sets the Auto Level microphone position. `tone` is only used by the MV7, which keeps both in
    /// one setting.
    pub fn set_auto_position(&mut self, position: MicPosition, tone: AutoTone) -> (step: Step)
        ensures
            begun(old(self)@, final(self).at(step)),
            final(self).at(step) == match old(self)@.model {
                DeviceModel::Mv7 => begin_auto_level(old(self)@, position, tone),
                _ => begin_set(old(self)@, Setter::AutoPosition(position)),
            },
    {
        match self.model {
            DeviceModel::Mv7 => self.set_mv7_auto_level(position, tone),
            DeviceModel::Mvx2u
            | DeviceModel::Mvx2uGen2
            | DeviceModel::Mv6
            | DeviceModel::Mv7Plus => self.send_set(Setter::AutoPosition(position)),
        }
    }

    /// Sets the Auto Level tone. `position` is only used by the MV7, which keeps both in one
    /// setting.
    pub fn set_auto_tone(&mut self, position: MicPosition, tone: AutoTone) -> (step: Step)
        ensures
            begun(old(self)@, final(self).at(step)),
            final(self).at(step) == match old(self)@.model {
                DeviceModel::Mv7 => begin_auto_level(old(self)@, position, tone),
                _ => begin_set(old(self)@, Setter::AutoTone(tone)),
            },
    {
        match self.model {
            DeviceModel::Mv7 => self.set_mv7_auto_level(position, tone),
            DeviceModel::Mvx2u
            | DeviceModel::Mvx2uGen2
            | DeviceModel::Mv6
            | DeviceModel::Mv7Plus => self.send_set(Setter::AutoTone(tone)),
        }
    }

    /// Switches the MV7 to Auto Level with the given microphone position and tone.
    fn set_mv7_auto_level(&self, position: MicPosition, tone: AutoTone) -> (step: Step)
        ensures
            self.at(step) == begin_auto_level(self@, position, tone),
    {
        self.send_text_set(TextCommand::SetDspMode { mode: InputMode::Auto, position, tone })
    }

    /// Sets the Auto Level gain.
    pub fn set_auto_gain(&mut self, gain: &AutoGain) -> (step: Step)
        ensures
            begun(old(self)@, final(self).at(step)),
            final(self).at(step) == begin_set(old(self)@, Setter::AutoGain(*gain)),
    {
        self.send_set(Setter::AutoGain(*gain))
    }

    /// Switches phantom power.
    pub fn set_phantom(&mut self, enabled: bool) -> (step: Step)
        ensures
            begun(old(self)@, final(self).at(step)),
            final(self).at(step) == begin_set(old(self)@, Setter::Phantom(enabled)),
    {
        self.send_set(Setter::Phantom(enabled))
    }

    /// Sets the monitor mix of an MVX2U.
    pub fn set_monitor_mix(&mut self, mix: u8) -> (step: Step)
        ensures
            begun(old(self)@, final(self).at(step)),
            final(self).at(step) == begin_set(old(self)@, Setter::Mix(mix)),
    {
        self.send_set(Setter::Mix(mix))
    }

    /// Switches the limiter.
    pub fn set_limiter(&mut self, enabled: bool) -> (step: Step)
        ensures
            begun(old(self)@, final(self).at(step)),
            final(self).at(step) == begin_set(
                old(self)@,
                if old(self)@.model is Mv7Plus {
                    Setter::Mv7Limiter(enabled)
                } else {
                    Setter::Limiter(enabled)
                },
            ),
    {
        match self.model {
            DeviceModel::Mv7Plus => self.send_set(Setter::Mv7Limiter(enabled)),
            _ => self.send_set(Setter::Limiter(enabled)),
        }
    }

    /// Sets the compressor.
    pub fn set_compressor(&mut self, preset: &CompressorPreset) -> (step: Step)
        ensures
            begun(old(self)@, final(self).at(step)),
            final(self).at(step) == match old(self)@.model {
                DeviceModel::Mv7 => begin_text(old(self)@, TextGoal::Change { line: TextCommand::SetCompressor { preset: *preset } }),
                DeviceModel::Mv7Plus => begin_set(old(self)@, Setter::Mv7Compressor(*preset)),
                _ => begin_set(old(self)@, Setter::Compressor(*preset)),
            },
    {
        match self.model {
            DeviceModel::Mv7 => self.send_text_set(TextCommand::SetCompressor { preset: *preset }),
            DeviceModel::Mv7Plus => self.send_set(Setter::Mv7Compressor(*preset)),
            DeviceModel::Mvx2u | DeviceModel::Mvx2uGen2 | DeviceModel::Mv6 => {
                self.send_set(Setter::Compressor(*preset))
            },
        }
    }

    /// Switches the equaliser.
    pub fn set_eq_enable(&mut self, enabled: bool) -> (step: Step)
        ensures
            begun(old(self)@, final(self).at(step)),
            final(self).at(step) == begin_set(old(self)@, Setter::EqEnable(enabled)),
    {
        self.send_set(Setter::EqEnable(enabled))
    }

    /// Switches one band of the equaliser.
    pub fn set_eq_band_enable(&mut self, band: usize, enabled: bool) -> (step: Step)
        ensures
            begun(old(self)@, final(self).at(step)),
            final(self).at(step) == begin_set(old(self)@, Setter::EqBandEnable { band, enabled }),
    {
        self.send_set(Setter::EqBandEnable { band, enabled })
    }

    /// Sets the gain of one band of the equaliser, in tenths of a dB.
    pub fn set_eq_band_gain(&mut self, band: usize, gain_tenths: i16) -> (step: Step)
        ensures
            begun(old(self)@, final(self).at(step)),
            final(self).at(step) == begin_set(
                old(self)@,
                Setter::EqBandGain { band, gain_tenths, model: old(self)@.model },
            ),
    {
        self.send_set(Setter::EqBandGain { band, gain_tenths, model: self.model })
    }

    /// Locks or unlocks the configuration.
    pub fn set_lock(&mut self, locked: bool) -> (step: Step)
        ensures
            begun(old(self)@, final(self).at(step)),
            final(self).at(step) == match old(self)@.model {
                DeviceModel::Mv7 => begin_text(
                    old(self)@,
                    TextGoal::Change { line: TextCommand::SetLock { locked } },
                ),
                _ => begin_set(old(self)@, Setter::Lock(locked)),
            },
    {
        match self.model {
            DeviceModel::Mv7 => self.send_text_set(TextCommand::SetLock { locked }),
            DeviceModel::Mvx2u
            | DeviceModel::Mvx2uGen2
            | DeviceModel::Mv6
            | DeviceModel::Mv7Plus => self.send_set(Setter::Lock(locked)),
        }
    }

    /// Switches the denoiser.
    pub fn set_mv6_denoiser(&mut self, enabled: bool) -> (step: Step)
        ensures
            begun(old(self)@, final(self).at(step)),
            final(self).at(step) == begin_set(
                old(self)@,
                if old(self)@.model is Mv7Plus {
                    Setter::Mv7Denoiser(enabled)
                } else {
                    Setter::Mv6Denoiser(enabled)
                },
            ),
    {
        match self.model {
            DeviceModel::Mv7Plus => self.send_set(Setter::Mv7Denoiser(enabled)),
            _ => self.send_set(Setter::Mv6Denoiser(enabled)),
        }
    }

    /// Switches the popper stopper.
    pub fn set_mv6_popper_stopper(&mut self, enabled: bool) -> (step: Step)
        ensures
            begun(old(self)@, final(self).at(step)),
            final(self).at(step) == begin_set(
                old(self)@,
                if old(self)@.model is Mv7Plus {
                    Setter::Mv7PopperStopper(enabled)
                } else {
                    Setter::Mv6PopperStopper(enabled)
                },
            ),
    {
        match self.model {
            DeviceModel::Mv7Plus => self.send_set(Setter::Mv7PopperStopper(enabled)),
            _ => self.send_set(Setter::Mv6PopperStopper(enabled)),
        }
    }

    /// Disables or enables the mute button. The MV6 and the MV7+ take the same packet.
    pub fn set_mv6_mute_btn_disable(&mut self, disabled: bool) -> (step: Step)
        ensures
            begun(old(self)@, final(self).at(step)),
            final(self).at(step) == begin_set(old(self)@, Setter::Mv6MuteBtnDisable(disabled)),
    {
        self.send_set(Setter::Mv6MuteBtnDisable(disabled))
    }

    /// Sets the tone.
    pub fn set_mv6_tone(&mut self, tone: i8) -> (step: Step)
        ensures
            begun(old(self)@, final(self).at(step)),
            final(self).at(step) == begin_set(
                old(self)@,
                if old(self)@.model is Mv7Plus {
                    Setter::Mv7Tone(tone)
                } else {
                    Setter::Mv6Tone(tone)
                },
            ),
    {
        match self.model {
            DeviceModel::Mv7Plus => self.send_set(Setter::Mv7Tone(tone)),
            _ => self.send_set(Setter::Mv6Tone(tone)),
        }
    }

    /// Locks or unlocks the gain.
    pub fn set_mv6_gain_lock(&mut self, locked: bool) -> (step: Step)
        ensures
            begun(old(self)@, final(self).at(step)),
            final(self).at(step) == begin_set(old(self)@, Setter::Mv6GainLock(locked)),
    {
        self.send_set(Setter::Mv6GainLock(locked))
    }

    /// Sets how much of the microphone is heard in the monitor mix.
    pub fn set_mv6_monitor_mix(&mut self, mix: u8) -> (step: Step)
        ensures
            begun(old(self)@, final(self).at(step)),
            final(self).at(step) == match old(self)@.model {
                DeviceModel::Mv7 => begin_text(old(self)@, TextGoal::Change { line: TextCommand::SetMonitorMix { mix } }),
                DeviceModel::Mv7Plus => begin_set(old(self)@, Setter::Mv7MicMix(mix)),
                _ => begin_set(old(self)@, Setter::Mv6Mix(mix)),
            },
    {
        match self.model {
            DeviceModel::Mv7 => self.send_text_set(TextCommand::SetMonitorMix { mix }),
            DeviceModel::Mv7Plus => self.send_set(Setter::Mv7MicMix(mix)),
            DeviceModel::Mvx2u | DeviceModel::Mvx2uGen2 | DeviceModel::Mv6 => {
                self.send_set(Setter::Mv6Mix(mix))
            },
        }
    }
}

// Settings of the MV7 alone.
impl ShureDevice {
    /// Sets the equaliser preset.
    pub fn set_eq_preset(&mut self, preset: EqPreset) -> (step: Step)
        ensures
            begun(old(self)@, final(self).at(step)),
            final(self).at(step) == begin_mv7_only(old(self)@, TextCommand::SetEq { curve: preset }),
    {
        self.send_mv7_only(TextCommand::SetEq { curve: preset })
    }

    /// Switches the live meter.
    pub fn set_led_live_meter(&mut self, enabled: bool) -> (step: Step)
        ensures
            begun(old(self)@, final(self).at(step)),
            final(self).at(step) == begin_mv7_only(old(self)@, TextCommand::SetLiveMeter { enabled }),
    {
        self.send_mv7_only(TextCommand::SetLiveMeter { enabled })
    }

    /// Switches the night mode.
    pub fn set_led_night_mode(&mut self, enabled: bool) -> (step: Step)
        ensures
            begun(old(self)@, final(self).at(step)),
            final(self).at(step) == begin_mv7_only(old(self)@, TextCommand::SetNightMode { enabled }),
    {
        self.send_mv7_only(TextCommand::SetNightMode { enabled })
    }
}

// Settings of the MV7+ alone.
impl ShureDevice {
    /// Sets how much of the playback is heard in the monitor mix.
    pub fn set_mv7_playback_mix(&mut self, mix: u8) -> (step: Step)
        ensures
            begun(old(self)@, final(self).at(step)),
            final(self).at(step) == begin_set(old(self)@, Setter::Mv7PlaybackMix(mix)),
    {
        self.send_set(Setter::Mv7PlaybackMix(mix))
    }

    /// Switches the reverb on the output.
    pub fn set_mv7_reverb_output(&mut self, enabled: bool) -> (step: Step)
        ensures
            begun(old(self)@, final(self).at(step)),
            final(self).at(step) == begin_set(old(self)@, Setter::Mv7ReverbOutput(enabled)),
    {
        self.send_set(Setter::Mv7ReverbOutput(enabled))
    }

    /// Switches the reverb on the monitor.
    pub fn set_mv7_reverb_monitor(&mut self, enabled: bool) -> (step: Step)
        ensures
            begun(old(self)@, final(self).at(step)),
            final(self).at(step) == begin_set(old(self)@, Setter::Mv7ReverbMonitor(enabled)),
    {
        self.send_set(Setter::Mv7ReverbMonitor(enabled))
    }

    /// Sets the reverb type.
    pub fn set_mv7_reverb_type(&mut self, rtype: &ReverbType) -> (step: Step)
        ensures
            begun(old(self)@, final(self).at(step)),
            final(self).at(step) == begin_set(old(self)@, Setter::Mv7ReverbType(*rtype)),
    {
        self.send_set(Setter::Mv7ReverbType(*rtype))
    }

    /// Sets the reverb intensity.
    pub fn set_mv7_reverb_intensity(&mut self, intensity: u8) -> (step: Step)
        ensures
            begun(old(self)@, final(self).at(step)),
            final(self).at(step) == begin_set(old(self)@, Setter::Mv7ReverbIntensity(intensity)),
    {
        self.send_set(Setter::Mv7ReverbIntensity(intensity))
    }

    /// Sets the LED behaviour.
    pub fn set_mv7_led_behavior(&mut self, behavior: LedBehavior) -> (step: Step)
        ensures
            begun(old(self)@, final(self).at(step)),
            final(self).at(step) == begin_set(old(self)@, Setter::Mv7LedBehavior(behavior)),
    {
        self.send_set(Setter::Mv7LedBehavior(behavior))
    }

    /// Sets the LED brightness.
    pub fn set_mv7_led_brightness(&mut self, brightness: LedBrightness) -> (step: Step)
        ensures
            begun(old(self)@, final(self).at(step)),
            final(self).at(step) == begin_set(old(self)@, Setter::Mv7LedBrightness(brightness)),
    {
        self.send_set(Setter::Mv7LedBrightness(brightness))
    }

    /// Sets the theme of the live LED.
    pub fn set_mv7_led_live_theme(&mut self, theme: LedLiveTheme) -> (step: Step)
        ensures
            begun(old(self)@, final(self).at(step)),
            final(self).at(step) == begin_set(old(self)@, Setter::Mv7LedLiveTheme(theme)),
    {
        self.send_set(Setter::Mv7LedLiveTheme(theme))
    }

    /// Sets the theme of the solid LED.
    pub fn set_mv7_led_solid_theme(&mut self, theme: LedSolidTheme) -> (step: Step)
        ensures
            begun(old(self)@, final(self).at(step)),
            final(self).at(step) == begin_set(old(self)@, Setter::Mv7LedSolidTheme(theme)),
    {
        self.send_set(Setter::Mv7LedSolidTheme(theme))
    }

    /// Sets the theme of the pulsing LED.
    pub fn set_mv7_led_pulsing_theme(&mut self, theme: LedPulsingTheme) -> (step: Step)
        ensures
            begun(old(self)@, final(self).at(step)),
            final(self).at(step) == begin_set(old(self)@, Setter::Mv7LedPulsingTheme(theme)),
    {
        self.send_set(Setter::Mv7LedPulsingTheme(theme))
    }

    /// Sets the colour of the solid LED.
    pub fn set_mv7_led_solid_color(&mut self, rgb: [u8; 3]) -> (step: Step)
        ensures
            begun(old(self)@, final(self).at(step)),
            final(self).at(step) == begin_set(
                old(self)@,
                Setter::Mv7LedSolidColor { red: rgb@[0], green: rgb@[1], blue: rgb@[2] },
            ),
    {
        self.send_set(Setter::Mv7LedSolidColor { red: rgb[0], green: rgb[1], blue: rgb[2] })
    }

    /// Sets the colour of the pulsing LED.
    pub fn set_mv7_led_pulsing_color(&mut self, rgb: [u8; 3]) -> (step: Step)
        ensures
            begun(old(self)@, final(self).at(step)),
            final(self).at(step) == begin_set(
                old(self)@,
                Setter::Mv7LedPulsingColor { red: rgb@[0], green: rgb@[1], blue: rgb@[2] },
            ),
    {
        self.send_set(Setter::Mv7LedPulsingColor { red: rgb[0], green: rgb[1], blue: rgb[2] })
    }

    /// Sets the colour at the edge of the live LED.
    pub fn set_mv7_led_live_edge(&mut self, rgb: [u8; 3]) -> (step: Step)
        ensures
            begun(old(self)@, final(self).at(step)),
            final(self).at(step) == begin_set(
                old(self)@,
                Setter::Mv7LedLiveEdge { red: rgb@[0], green: rgb@[1], blue: rgb@[2] },
            ),
    {
        self.send_set(Setter::Mv7LedLiveEdge { red: rgb[0], green: rgb[1], blue: rgb[2] })
    }

    /// Sets the colour in the middle of the live LED.
    pub fn set_mv7_led_live_middle(&mut self, rgb: [u8; 3]) -> (step: Step)
        ensures
            begun(old(self)@, final(self).at(step)),
            final(self).at(step) == begin_set(
                old(self)@,
                Setter::Mv7LedLiveMiddle { red: rgb@[0], green: rgb@[1], blue: rgb@[2] },
            ),
    {
        self.send_set(Setter::Mv7LedLiveMiddle { red: rgb[0], green: rgb[1], blue: rgb[2] })
    }

    /// Sets the colour inside the live LED.
    pub fn set_mv7_led_live_interior(&mut self, rgb: [u8; 3]) -> (step: Step)
        ensures
            begun(old(self)@, final(self).at(step)),
            final(self).at(step) == begin_set(
                old(self)@,
                Setter::Mv7LedLiveInterior { red: rgb@[0], green: rgb@[1], blue: rgb@[2] },
            ),
    {
        self.send_set(Setter::Mv7LedLiveInterior { red: rgb[0], green: rgb[1], blue: rgb[2] })
    }

    /// Begins a factory reset. The device disconnects at once, so no CONFIRM follows, and a
    /// device that took the reset is not to be used again. Like every binary packet it is
    /// refused on the MV7.
    pub fn factory_reset(&mut self) -> (step: Step)
        ensures
            begun(old(self)@, final(self).at(step)),
            final(self).at(step) == begin_reset(old(self)@),
    {
        let seq: u8 = self.next_seq();
        match self.ensure_binary_protocol() {
            Err(error) => StepOf::Done(Err(error)),
            Ok(()) => StepOf::Pending(ExchangeOf::SendReset { seq }),
        }
    }
}

} // verus!
