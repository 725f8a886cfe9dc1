//! The commands a device understands.
//!
//! A command says which setting is read or written, and with which value. The
//! packet codec turns it into the bytes of one report.

use vstd::prelude::*;

use crate::model::DeviceModel;

verus! {

/// A microphone position, as the codec numbers it.
#[derive(Clone, Copy, Debug, PartialEq, Eq, Structural)]
pub struct MicPosition {
    pub code: u8,
}

/// An Auto Level tone, as the codec numbers it.
#[derive(Clone, Copy, Debug, PartialEq, Eq, Structural)]
pub struct AutoTone {
    pub code: u8,
}

/// An Auto Level gain, as the codec numbers it.
#[derive(Clone, Copy, Debug, PartialEq, Eq, Structural)]
pub struct AutoGain {
    pub code: u8,
}

/// A high-pass filter setting, as the codec numbers it.
#[derive(Clone, Copy, Debug, PartialEq, Eq, Structural)]
pub struct HpfFrequency {
    pub code: u8,
}

/// A compressor preset, as the codec numbers it.
#[derive(Clone, Copy, Debug, PartialEq, Eq, Structural)]
pub struct CompressorPreset {
    pub code: u8,
}

/// An MV7 equaliser preset, as the codec numbers it.
#[derive(Clone, Copy, Debug, PartialEq, Eq, Structural)]
pub struct EqPreset {
    pub code: u8,
}

/// An MV7+ reverb type, as the codec numbers it.
#[derive(Clone, Copy, Debug, PartialEq, Eq, Structural)]
pub struct ReverbType {
    pub code: u8,
}

/// An MV7+ LED behaviour, as the codec numbers it.
#[derive(Clone, Copy, Debug, PartialEq, Eq, Structural)]
pub struct LedBehavior {
    pub code: u8,
}

/// An MV7+ LED brightness, as the codec numbers it.
#[derive(Clone, Copy, Debug, PartialEq, Eq, Structural)]
pub struct LedBrightness {
    pub code: u8,
}

/// An MV7+ theme for the live LED, as the codec numbers it.
#[derive(Clone, Copy, Debug, PartialEq, Eq, Structural)]
pub struct LedLiveTheme {
    pub code: u8,
}

/// An MV7+ theme for the solid LED, as the codec numbers it.
#[derive(Clone, Copy, Debug, PartialEq, Eq, Structural)]
pub struct LedSolidTheme {
    pub code: u8,
}

/// An MV7+ theme for the pulsing LED, as the codec numbers it.
#[derive(Clone, Copy, Debug, PartialEq, Eq, Structural)]
pub struct LedPulsingTheme {
    pub code: u8,
}

/// How the input level is controlled.
#[derive(Clone, Copy, Debug, PartialEq, Eq, Structural)]
pub enum InputMode {
    Auto,
    Manual,
}

/// A feature that a binary GET reads.
#[derive(Clone, Copy, Debug, PartialEq, Eq, Structural)]
pub enum Getter {
    Lock,
    Gain,
    Mute,
    Phantom,
    Mode,
    AutoPosition,
    AutoTone,
    AutoGain,
    Mix,
    Hpf,
    Limiter,
    Compressor,
    EqEnable,
    EqBandEnable { band: usize },
    EqBandGain { band: usize },
    DeviceName,
    FirmwareVersion,
    Serial,
    Mv6Denoiser,
    Mv6PopperStopper,
    Mv6Tone,
    Mv6GainLock,
    Mv6Mix,
    Mv6MuteBtnDisable,
    Mv7ReverbOutput,
    Mv7ReverbType,
    Mv7ReverbIntensity,
    Mv7ReverbMonitor,
    Mv7LedBehavior,
    Mv7LedBrightness,
    Mv7LedLiveTheme,
    Mv7LedLiveEdge,
    Mv7LedLiveMiddle,
    Mv7LedLiveInterior,
    Mv7LedSolidColor,
    Mv7LedPulsingColor,
    Mv7LedSolidTheme,
    /// Shares its feature address with the microphone mix and is told apart by a prefix.
    Mv7PlaybackMix,
}

/// A feature that a binary SET writes, with the value to write.
#[derive(Clone, Copy, Debug, PartialEq, Eq, Structural)]
pub enum Setter {
    Gain(u16),
    Mode { auto: bool },
    Mute(bool),
    Hpf(HpfFrequency),
    AutoPosition(MicPosition),
    AutoTone(AutoTone),
    AutoGain(AutoGain),
    Phantom(bool),
    Mix(u8),
    Limiter(bool),
    Compressor(CompressorPreset),
    EqEnable(bool),
    EqBandEnable { band: usize, enabled: bool },
    EqBandGain { band: usize, gain_tenths: i16, model: DeviceModel },
    Lock(bool),
    Mv6Denoiser(bool),
    Mv6PopperStopper(bool),
    Mv6MuteBtnDisable(bool),
    Mv6Tone(i8),
    Mv6GainLock(bool),
    Mv6Mix(u8),
    Mv7Gain(u16),
    Mv7Mode { auto: bool },
    Mv7Mute(bool),
    Mv7Hpf(HpfFrequency),
    Mv7Limiter(bool),
    Mv7Compressor(CompressorPreset),
    Mv7Denoiser(bool),
    Mv7PopperStopper(bool),
    Mv7Tone(i8),
    Mv7MicMix(u8),
    Mv7PlaybackMix(u8),
    Mv7ReverbOutput(bool),
    Mv7ReverbMonitor(bool),
    Mv7ReverbType(ReverbType),
    Mv7ReverbIntensity(u8),
    Mv7LedBehavior(LedBehavior),
    Mv7LedBrightness(LedBrightness),
    Mv7LedLiveTheme(LedLiveTheme),
    Mv7LedSolidTheme(LedSolidTheme),
    Mv7LedPulsingTheme(LedPulsingTheme),
    Mv7LedSolidColor { red: u8, green: u8, blue: u8 },
    Mv7LedPulsingColor { red: u8, green: u8, blue: u8 },
    Mv7LedLiveEdge { red: u8, green: u8, blue: u8 },
    Mv7LedLiveMiddle { red: u8, green: u8, blue: u8 },
    Mv7LedLiveInterior { red: u8, green: u8, blue: u8 },
}

/// What a binary packet asks of a device.
#[derive(Clone, Copy, Debug, PartialEq, Eq, Structural)]
pub enum Command {
    GetFeature(Getter),
    SetFeature(Setter),
    /// Makes the device apply the SET it has just received.
    Confirm,
    FactoryReset,
}

/// A command line of the MV7's text protocol.
#[derive(Clone, Copy, Debug, PartialEq, Eq, Structural)]
pub enum TextCommand {
    GetGain,
    GetSerial,
    /// One of the codec's state queries, counted from zero.
    StateQuery { index: usize },
    SetGain { gain_tenths: u16 },
    SetDspMode { mode: InputMode, position: MicPosition, tone: AutoTone },
    SetMute { muted: bool },
    SetCompressor { preset: CompressorPreset },
    SetLock { locked: bool },
    SetMonitorMix { mix: u8 },
    SetEq { curve: EqPreset },
    SetLiveMeter { enabled: bool },
    SetNightMode { enabled: bool },
}

/// One report to send to a device.
#[derive(Clone, Copy, Debug, PartialEq, Eq, Structural)]
pub enum Packet {
    Binary { seq: u8, command: Command },
    Text { line: TextCommand },
}

} // verus!
