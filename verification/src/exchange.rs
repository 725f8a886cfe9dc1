//! Exchanges: what has to be done to carry out an operation, one action at a time.
//!
//! An operation on a device is a sequence of actions on the outside world: reports are written
//! and read, the codec is asked, the clock is looked at. An [`Exchange`] stands for an operation
//! that waits for the outcome of one action. The driver performs the action and hands the
//! outcome back as an event, until the operation is done.
//!
//! The types are generic in what holds bytes (`B`) and text (`T`). The running code has `Vec<u8>`
//! and `String` there, contracts have sequences.

use vstd::prelude::*;

use crate::command::{Command, Getter, Packet, Setter, TextCommand};
use crate::error::DeviceErrorOf;
use crate::model::DeviceModel;

verus! {

/// How long to wait for a report, in milliseconds.
pub const READ_TIMEOUT_MS: i32 = 200;

/// How long to wait for each of the two reports that the MV7+ sends after a CONFIRM.
pub const DRAIN_TIMEOUT_MS: i32 = 50;

/// How many reports the MV7+ sends after a CONFIRM: its acknowledgement and an echo of the SET.
pub const DRAIN_REPORTS: u8 = 2;

/// How long to wait for an MV7 reply, in nanoseconds. A mode change takes longer to answer than
/// a single read waits, so waiting is bounded by time, not by reads.
pub const MV7_REPLY_TIMEOUT_NS: u64 = 1_500_000_000;

/// The highest playback mix.
pub const PLAYBACK_MIX_MAX: u8 = 100;

/// What the codec says of a model.
#[derive(Debug, PartialEq, Eq)]
pub struct CodecOf<T> {
    /// The highest manual gain, in tenths of a dB.
    pub max_gain_tenths: u16,
    /// The MV7's reply to a command that it rejects.
    pub failed_reply: T,
    /// The MV7's reply to a command on a locked setting.
    pub locked_reply: T,
    /// How many state queries there are in the text protocol.
    pub state_queries: usize,
}

pub type Codec = CodecOf<String>;

/// What contracts see of a device.
pub struct DeviceView {
    pub model: DeviceModel,
    /// The sequence number of the next binary packet.
    pub seq: u8,
    pub serial_number: Seq<char>,
    pub codec: CodecOf<Seq<char>>,
}

/// A response to a binary GET.
#[derive(Debug, PartialEq, Eq)]
pub struct ResponseOf<B> {
    /// The address of the feature.
    pub feature: [u8; 2],
    pub value: B,
}

/// What came of applying a response or a reply to the device state.
#[derive(Debug, PartialEq, Eq)]
pub struct AppliedOf<T> {
    /// Whether it belongs to a known feature.
    pub recognised: bool,
    /// The state's gain afterwards.
    pub gain_tenths: u16,
    /// The factory serial number that it carries, if it carries one.
    pub factory_serial: Option<T>,
}

/// The outcome of an action.
#[derive(Debug, PartialEq, Eq)]
pub enum EventOf<B, T> {
    /// How many bytes were written, or why none could be.
    Written(Result<usize, T>),
    /// The report that was read, empty if none came in time, or why none could be read.
    Received(Result<B, T>),
    /// The response that a report holds, if it holds one.
    Parsed(Option<ResponseOf<B>>),
    /// The same with the response's prefix.
    ParsedPrefixed(Option<(u8, ResponseOf<B>)>),
    Applied(AppliedOf<T>),
    /// A reading of a monotonic clock, in nanoseconds.
    Now { ns: u64 },
    /// The reply line found in the text received so far, if it is there.
    Found(Option<T>),
    /// The gain that the MV7 holds after it accepted a gain.
    Snapped { gain_tenths: u16 },
}

pub type Event = EventOf<Vec<u8>, String>;

pub type EventView = EventOf<Seq<u8>, Seq<char>>;

/// Something for the driver to do.
#[derive(Debug, PartialEq, Eq)]
pub enum ActionOf<B, T> {
    /// Encode the packet and write it. Answered by `Written`.
    Write { packet: Packet },
    /// Read a report. Answered by `Received`.
    Read { timeout_ms: i32 },
    /// Parse a report as a response. Answered by `Parsed`.
    Parse { report: B },
    /// Parse a report as a response with a prefix. Answered by `ParsedPrefixed`.
    ParsePrefixed { report: B },
    /// Apply the response to a getter to the device state. Answered by `Applied`.
    ApplyResponse { getter: Getter, feature: [u8; 2], value: B },
    /// Apply the reply to a text command to the device state. Answered by `Applied`.
    ApplyReply { line: TextCommand, reply: T },
    /// Look at the clock. Answered by `Now`.
    ReadClock,
    /// Look for the reply to a text command. Answered by `Found`.
    FindReply { line: TextCommand, received: T },
    /// Ask for the gain that the MV7 makes of a gain. Answered by `Snapped`.
    SnapGain { gain_tenths: u16 },
}

pub type Action<'a> = ActionOf<&'a Vec<u8>, &'a String>;

pub type ActionView = ActionOf<Seq<u8>, Seq<char>>;

/// What a binary GET is sent for.
#[derive(Clone, Copy, Debug, PartialEq, Eq, Structural)]
pub enum GetGoal {
    /// The state query at `index`.
    State { index: usize },
    /// The factory serial number.
    Serial,
}

/// What a text command is sent for.
#[derive(Clone, Copy, Debug, PartialEq, Eq, Structural)]
pub enum TextGoal {
    /// Changing a setting.
    Change { line: TextCommand },
    /// Changing the gain.
    ChangeGain { gain_tenths: u16 },
    /// Looking at the gain after a change of it was rejected.
    CheckGain { gain_tenths: u16 },
    /// The state query at `index`.
    State { index: usize },
    /// The factory serial number.
    Serial,
}

/// An operation that waits for the outcome of an action.
#[allow(inconsistent_fields)]
#[derive(Debug, PartialEq, Eq)]
pub enum ExchangeOf<B, T> {
    /// A SET is being written.
    SendSet { seq: u8, setter: Setter },
    /// The CONFIRM after a SET is being written.
    SendConfirm { seq: u8 },
    /// The reports after a CONFIRM are being read; so many are left.
    Drain { left: u8 },
    /// A factory reset is being written.
    SendReset { seq: u8 },
    /// A GET is being written.
    SendGet { goal: GetGoal, seq: u8, getter: Getter },
    /// The response to a GET is being read.
    ReadReport { goal: GetGoal, getter: Getter },
    /// The response to a GET is being parsed.
    ParseReport { goal: GetGoal, getter: Getter, report: B },
    /// The response to a GET is being applied.
    ApplyResponse { goal: GetGoal, getter: Getter, response: ResponseOf<B> },
    /// A text command is being written.
    SendText { goal: TextGoal },
    /// The clock is being read for the start of the wait for a reply.
    StartWait { goal: TextGoal },
    /// The clock is being read to see whether there is time left.
    CheckTime { goal: TextGoal, start_ns: u64, received: T },
    /// A part of the reply is being read.
    ReadText { goal: TextGoal, start_ns: u64, received: T },
    /// The reply is being looked for.
    FindReply { goal: TextGoal, start_ns: u64, received: T },
    /// A reply is being applied.
    ApplyReply { goal: TextGoal, reply: T },
    /// The gain that the MV7 holds is to be checked against the one it should hold.
    SnapGain { gain_tenths: u16, held_tenths: u16 },
}

pub type Exchange = ExchangeOf<Vec<u8>, String>;

pub type ExchangeView = ExchangeOf<Seq<u8>, Seq<char>>;

/// What an operation gives back.
#[derive(Debug, PartialEq, Eq)]
pub enum OutputOf<T> {
    /// The device took the command.
    Accepted,
    /// The state is complete, but for the playback mix if there is one.
    State { playback_mix: Option<u8> },
    /// The factory serial number, if the device reports one.
    Serial { factory_serial: Option<T> },
}

pub type Output = OutputOf<String>;

/// Where an operation stands.
#[derive(Debug, PartialEq, Eq)]
pub enum StepOf<B, T> {
    Pending(ExchangeOf<B, T>),
    Done(Result<OutputOf<T>, DeviceErrorOf<T>>),
}

pub type Step = StepOf<Vec<u8>, String>;

pub type StepView = StepOf<Seq<u8>, Seq<char>>;

/// The text behind the outcome of something that can fail.
pub open spec fn result_view<A>(r: Result<A, String>) -> Result<A, Seq<char>> {
    match r {
        Ok(a) => Ok(a),
        Err(reason) => Err(reason@),
    }
}

/// The bytes or the text behind the outcome of a read.
pub open spec fn report_view(r: Result<Vec<u8>, String>) -> Result<Seq<u8>, Seq<char>> {
    match r {
        Ok(report) => Ok(report@),
        Err(reason) => Err(reason@),
    }
}

impl View for CodecOf<String> {
    type V = CodecOf<Seq<char>>;

    open spec fn view(&self) -> CodecOf<Seq<char>> {
        CodecOf {
            max_gain_tenths: self.max_gain_tenths,
            failed_reply: self.failed_reply@,
            locked_reply: self.locked_reply@,
            state_queries: self.state_queries,
        }
    }
}

impl View for ResponseOf<Vec<u8>> {
    type V = ResponseOf<Seq<u8>>;

    open spec fn view(&self) -> ResponseOf<Seq<u8>> {
        ResponseOf { feature: self.feature, value: self.value@ }
    }
}

impl View for AppliedOf<String> {
    type V = AppliedOf<Seq<char>>;

    open spec fn view(&self) -> AppliedOf<Seq<char>> {
        AppliedOf {
            recognised: self.recognised,
            gain_tenths: self.gain_tenths,
            factory_serial: match self.factory_serial {
                Some(serial) => Some(serial@),
                None => None,
            },
        }
    }
}

impl View for EventOf<Vec<u8>, String> {
    type V = EventOf<Seq<u8>, Seq<char>>;

    open spec fn view(&self) -> EventOf<Seq<u8>, Seq<char>> {
        match *self {
            EventOf::Written(outcome) => EventOf::Written(result_view(outcome)),
            EventOf::Received(outcome) => EventOf::Received(report_view(outcome)),
            EventOf::Parsed(response) => EventOf::Parsed(
                match response {
                    Some(response) => Some(response@),
                    None => None,
                },
            ),
            EventOf::ParsedPrefixed(response) => EventOf::ParsedPrefixed(
                match response {
                    Some((prefix, response)) => Some((prefix, response@)),
                    None => None,
                },
            ),
            EventOf::Applied(applied) => EventOf::Applied(applied@),
            EventOf::Now { ns } => EventOf::Now { ns },
            EventOf::Found(reply) => EventOf::Found(
                match reply {
                    Some(reply) => Some(reply@),
                    None => None,
                },
            ),
            EventOf::Snapped { gain_tenths } => EventOf::Snapped { gain_tenths },
        }
    }
}

impl<'a> View for ActionOf<&'a Vec<u8>, &'a String> {
    type V = ActionOf<Seq<u8>, Seq<char>>;

    open spec fn view(&self) -> ActionOf<Seq<u8>, Seq<char>> {
        match *self {
            ActionOf::Write { packet } => ActionOf::Write { packet },
            ActionOf::Read { timeout_ms } => ActionOf::Read { timeout_ms },
            ActionOf::Parse { report } => ActionOf::Parse { report: report@ },
            ActionOf::ParsePrefixed { report } => ActionOf::ParsePrefixed { report: report@ },
            ActionOf::ApplyResponse { getter, feature, value } => {
                ActionOf::ApplyResponse { getter, feature, value: value@ }
            },
            ActionOf::ApplyReply { line, reply } => ActionOf::ApplyReply { line, reply: reply@ },
            ActionOf::ReadClock => ActionOf::ReadClock,
            ActionOf::FindReply { line, received } => {
                ActionOf::FindReply { line, received: received@ }
            },
            ActionOf::SnapGain { gain_tenths } => ActionOf::SnapGain { gain_tenths },
        }
    }
}

impl View for ExchangeOf<Vec<u8>, String> {
    type V = ExchangeOf<Seq<u8>, Seq<char>>;

    open spec fn view(&self) -> ExchangeOf<Seq<u8>, Seq<char>> {
        match *self {
            ExchangeOf::SendSet { seq, setter } => ExchangeOf::SendSet { seq, setter },
            ExchangeOf::SendConfirm { seq } => ExchangeOf::SendConfirm { seq },
            ExchangeOf::Drain { left } => ExchangeOf::Drain { left },
            ExchangeOf::SendReset { seq } => ExchangeOf::SendReset { seq },
            ExchangeOf::SendGet { goal, seq, getter } => ExchangeOf::SendGet { goal, seq, getter },
            ExchangeOf::ReadReport { goal, getter } => ExchangeOf::ReadReport { goal, getter },
            ExchangeOf::ParseReport { goal, getter, report } => {
                ExchangeOf::ParseReport { goal, getter, report: report@ }
            },
            ExchangeOf::ApplyResponse { goal, getter, response } => {
                ExchangeOf::ApplyResponse { goal, getter, response: response@ }
            },
            ExchangeOf::SendText { goal } => ExchangeOf::SendText { goal },
            ExchangeOf::StartWait { goal } => ExchangeOf::StartWait { goal },
            ExchangeOf::CheckTime { goal, start_ns, received } => {
                ExchangeOf::CheckTime { goal, start_ns, received: received@ }
            },
            ExchangeOf::ReadText { goal, start_ns, received } => {
                ExchangeOf::ReadText { goal, start_ns, received: received@ }
            },
            ExchangeOf::FindReply { goal, start_ns, received } => {
                ExchangeOf::FindReply { goal, start_ns, received: received@ }
            },
            ExchangeOf::ApplyReply { goal, reply } => ExchangeOf::ApplyReply { goal, reply: reply@ },
            ExchangeOf::SnapGain { gain_tenths, held_tenths } => {
                ExchangeOf::SnapGain { gain_tenths, held_tenths }
            },
        }
    }
}

impl View for OutputOf<String> {
    type V = OutputOf<Seq<char>>;

    open spec fn view(&self) -> OutputOf<Seq<char>> {
        match *self {
            OutputOf::Accepted => OutputOf::Accepted,
            OutputOf::State { playback_mix } => OutputOf::State { playback_mix },
            OutputOf::Serial { factory_serial } => OutputOf::Serial {
                factory_serial: match factory_serial {
                    Some(serial) => Some(serial@),
                    None => None,
                },
            },
        }
    }
}

impl View for StepOf<Vec<u8>, String> {
    type V = StepOf<Seq<u8>, Seq<char>>;

    open spec fn view(&self) -> StepOf<Seq<u8>, Seq<char>> {
        match *self {
            StepOf::Pending(exchange) => StepOf::Pending(exchange@),
            StepOf::Done(outcome) => StepOf::Done(
                match outcome {
                    Ok(output) => Ok(output@),
                    Err(error) => Err(error@),
                },
            ),
        }
    }
}

impl TextGoal {
    /// The command line that is sent.
    pub open spec fn spec_line(self) -> TextCommand {
        match self {
            TextGoal::Change { line } => line,
            TextGoal::ChangeGain { gain_tenths } => TextCommand::SetGain { gain_tenths },
            TextGoal::CheckGain { gain_tenths } => TextCommand::GetGain,
            TextGoal::State { index } => TextCommand::StateQuery { index },
            TextGoal::Serial => TextCommand::GetSerial,
        }
    }

    /// The command line that is sent.
    #[verifier::when_used_as_spec(spec_line)]
    pub fn line(self) -> (line: TextCommand)
        ensures
            line == self.line(),
    {
        match self {
            TextGoal::Change { line } => line,
            TextGoal::ChangeGain { gain_tenths } => TextCommand::SetGain { gain_tenths },
            TextGoal::CheckGain { .. } => TextCommand::GetGain,
            TextGoal::State { index } => TextCommand::StateQuery { index },
            TextGoal::Serial => TextCommand::GetSerial,
        }
    }
}

/// The action that an exchange waits for.
pub open spec fn action_of(x: ExchangeView) -> ActionView {
    match x {
        ExchangeOf::SendSet { seq, setter } => ActionOf::Write {
            packet: Packet::Binary { seq, command: Command::SetFeature(setter) },
        },
        ExchangeOf::SendConfirm { seq } => ActionOf::Write {
            packet: Packet::Binary { seq, command: Command::Confirm },
        },
        ExchangeOf::Drain { left } => ActionOf::Read { timeout_ms: DRAIN_TIMEOUT_MS },
        ExchangeOf::SendReset { seq } => ActionOf::Write {
            packet: Packet::Binary { seq, command: Command::FactoryReset },
        },
        ExchangeOf::SendGet { goal, seq, getter } => ActionOf::Write {
            packet: Packet::Binary { seq, command: Command::GetFeature(getter) },
        },
        ExchangeOf::ReadReport { goal, getter } => ActionOf::Read { timeout_ms: READ_TIMEOUT_MS },
        ExchangeOf::ParseReport { goal, getter, report } => if getter is Mv7PlaybackMix {
            ActionOf::ParsePrefixed { report }
        } else {
            ActionOf::Parse { report }
        },
        ExchangeOf::ApplyResponse { goal, getter, response } => ActionOf::ApplyResponse {
            getter,
            feature: response.feature,
            value: response.value,
        },
        ExchangeOf::SendText { goal } => ActionOf::Write {
            packet: Packet::Text { line: goal.line() },
        },
        ExchangeOf::StartWait { goal } => ActionOf::ReadClock,
        ExchangeOf::CheckTime { goal, start_ns, received } => ActionOf::ReadClock,
        ExchangeOf::ReadText { goal, start_ns, received } => ActionOf::Read {
            timeout_ms: READ_TIMEOUT_MS,
        },
        ExchangeOf::FindReply { goal, start_ns, received } => ActionOf::FindReply {
            line: goal.line(),
            received,
        },
        ExchangeOf::ApplyReply { goal, reply } => ActionOf::ApplyReply { line: goal.line(), reply },
        ExchangeOf::SnapGain { gain_tenths, held_tenths } => ActionOf::SnapGain { gain_tenths },
    }
}

/// Whether `event` is an outcome of `action`.
pub open spec fn answers(event: EventView, action: ActionView) -> bool {
    match action {
        ActionOf::Write { packet } => event is Written,
        ActionOf::Read { timeout_ms } => event is Received,
        ActionOf::Parse { report } => event is Parsed,
        ActionOf::ParsePrefixed { report } => event is ParsedPrefixed,
        ActionOf::ApplyResponse { getter, feature, value } => event is Applied,
        ActionOf::ApplyReply { line, reply } => event is Applied,
        ActionOf::ReadClock => event is Now,
        ActionOf::FindReply { line, received } => event is Found,
        ActionOf::SnapGain { gain_tenths } => event is Snapped,
    }
}

impl ExchangeOf<Vec<u8>, String> {
    /// What to do next.
    pub fn action(&self) -> (action: Action<'_>)
        ensures
            action@ == action_of(self@),
    {
        match self {
            ExchangeOf::SendSet { seq, setter } => ActionOf::Write {
                packet: Packet::Binary { seq: *seq, command: Command::SetFeature(*setter) },
            },
            ExchangeOf::SendConfirm { seq } => ActionOf::Write {
                packet: Packet::Binary { seq: *seq, command: Command::Confirm },
            },
            ExchangeOf::Drain { .. } => ActionOf::Read { timeout_ms: DRAIN_TIMEOUT_MS },
            ExchangeOf::SendReset { seq } => ActionOf::Write {
                packet: Packet::Binary { seq: *seq, command: Command::FactoryReset },
            },
            ExchangeOf::SendGet { seq, getter, .. } => ActionOf::Write {
                packet: Packet::Binary { seq: *seq, command: Command::GetFeature(*getter) },
            },
            ExchangeOf::ReadReport { .. } => ActionOf::Read { timeout_ms: READ_TIMEOUT_MS },
            ExchangeOf::ParseReport { getter, report, .. } => match getter {
                Getter::Mv7PlaybackMix => ActionOf::ParsePrefixed { report },
                _ => ActionOf::Parse { report },
            },
            ExchangeOf::ApplyResponse { getter, response, .. } => ActionOf::ApplyResponse {
                getter: *getter,
                feature: response.feature,
                value: &response.value,
            },
            ExchangeOf::SendText { goal } => ActionOf::Write {
                packet: Packet::Text { line: goal.line() },
            },
            ExchangeOf::StartWait { .. } => ActionOf::ReadClock,
            ExchangeOf::CheckTime { .. } => ActionOf::ReadClock,
            ExchangeOf::ReadText { .. } => ActionOf::Read { timeout_ms: READ_TIMEOUT_MS },
            ExchangeOf::FindReply { goal, received, .. } => ActionOf::FindReply {
                line: goal.line(),
                received,
            },
            ExchangeOf::ApplyReply { goal, reply } => ActionOf::ApplyReply {
                line: goal.line(),
                reply,
            },
            ExchangeOf::SnapGain { gain_tenths, .. } => ActionOf::SnapGain {
                gain_tenths: *gain_tenths,
            },
        }
    }

    /// Whether `event` is an outcome of the action that this exchange waits for.
    pub fn awaits(&self, event: &Event) -> (fits: bool)
        ensures
            fits == answers(event@, action_of(self@)),
    {
        match (self.action(), event) {
            (ActionOf::Write { .. }, EventOf::Written(_)) => true,
            (ActionOf::Read { .. }, EventOf::Received(_)) => true,
            (ActionOf::Parse { .. }, EventOf::Parsed(_)) => true,
            (ActionOf::ParsePrefixed { .. }, EventOf::ParsedPrefixed(_)) => true,
            (ActionOf::ApplyResponse { .. }, EventOf::Applied(_)) => true,
            (ActionOf::ApplyReply { .. }, EventOf::Applied(_)) => true,
            (ActionOf::ReadClock, EventOf::Now { .. }) => true,
            (ActionOf::FindReply { .. }, EventOf::Found(_)) => true,
            (ActionOf::SnapGain { .. }, EventOf::Snapped { .. }) => true,
            _ => false,
        }
    }
}

} // verus!
