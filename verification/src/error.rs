//! What can go wrong, and what the user is told about it.

use vstd::prelude::*;
use vstd::string::*;

use crate::command::TextCommand;
use crate::model::{DeviceModel, MV6_PID, MV7_PID, MV7_PLUS_PID, MVX2U_GEN2_PID, PID, VID};
use crate::text::{decimal, decimal_text, hex, hex_text};

verus! {

/// A failed operation. `T` is the type of text: [`DeviceError`] holds `String`s, contracts speak
/// of character sequences.
#[derive(Debug, PartialEq, Eq)]
pub enum DeviceErrorOf<T> {
    /// The HID backend could not be started.
    HidInit { reason: T },
    /// No supported device is attached.
    NoDevice,
    /// More than one supported device is attached.
    ManyDevices { count: usize },
    /// Nothing is attached at the requested path.
    NothingAt { path: T },
    /// What is attached at the requested path is no supported device.
    Unsupported { path: T, vendor_id: u16, product_id: u16 },
    /// The path of the only device cannot be passed on as a C string.
    NullInPath,
    /// The requested path cannot be passed on as a C string.
    NullInRequestedPath { path: T },
    /// The only device could not be opened.
    CannotOpen { reason: T },
    /// The requested device could not be opened.
    CannotOpenPath { path: T, reason: T },
    WriteFailed { reason: T },
    WroteNothing,
    ReadTimedOut,
    ReadFailed { reason: T },
    /// A binary command was meant for the MV7.
    NotOnMv7,
    /// A text command was meant for another model than the MV7.
    OnlyOnMv7 { model: DeviceModel },
    /// The MV7 did not answer in time.
    NoReply { command: TextCommand },
    /// The MV7 answered that the command failed.
    Rejected { command: TextCommand },
    /// The MV7 answered that the setting is locked.
    Locked { command: TextCommand },
}

pub type DeviceError = DeviceErrorOf<String>;

pub type DeviceErrorView = DeviceErrorOf<Seq<char>>;

impl View for DeviceErrorOf<String> {
    type V = DeviceErrorOf<Seq<char>>;

    open spec fn view(&self) -> DeviceErrorOf<Seq<char>> {
        match *self {
            DeviceErrorOf::HidInit { reason } => DeviceErrorOf::HidInit { reason: reason@ },
            DeviceErrorOf::NoDevice => DeviceErrorOf::NoDevice,
            DeviceErrorOf::ManyDevices { count } => DeviceErrorOf::ManyDevices { count },
            DeviceErrorOf::NothingAt { path } => DeviceErrorOf::NothingAt { path: path@ },
            DeviceErrorOf::Unsupported { path, vendor_id, product_id } => {
                DeviceErrorOf::Unsupported { path: path@, vendor_id, product_id }
            },
            DeviceErrorOf::NullInPath => DeviceErrorOf::NullInPath,
            DeviceErrorOf::NullInRequestedPath { path } => {
                DeviceErrorOf::NullInRequestedPath { path: path@ }
            },
            DeviceErrorOf::CannotOpen { reason } => DeviceErrorOf::CannotOpen { reason: reason@ },
            DeviceErrorOf::CannotOpenPath { path, reason } => {
                DeviceErrorOf::CannotOpenPath { path: path@, reason: reason@ }
            },
            DeviceErrorOf::WriteFailed { reason } => DeviceErrorOf::WriteFailed { reason: reason@ },
            DeviceErrorOf::WroteNothing => DeviceErrorOf::WroteNothing,
            DeviceErrorOf::ReadTimedOut => DeviceErrorOf::ReadTimedOut,
            DeviceErrorOf::ReadFailed { reason } => DeviceErrorOf::ReadFailed { reason: reason@ },
            DeviceErrorOf::NotOnMv7 => DeviceErrorOf::NotOnMv7,
            DeviceErrorOf::OnlyOnMv7 { model } => DeviceErrorOf::OnlyOnMv7 { model },
            DeviceErrorOf::NoReply { command } => DeviceErrorOf::NoReply { command },
            DeviceErrorOf::Rejected { command } => DeviceErrorOf::Rejected { command },
            DeviceErrorOf::Locked { command } => DeviceErrorOf::Locked { command },
        }
    }
}

/// The message for an error. `hint` says how to get access to a device, `line` is the command
/// line that the error's text command stands for, and `display_name` the name of its model.
pub open spec fn message_text(
    error: DeviceErrorView,
    hint: Seq<char>,
    line: Seq<char>,
    display_name: Seq<char>,
) -> Seq<char> {
    match error {
        DeviceErrorOf::HidInit { reason } => "Failed to initialise hidapi"@,
        DeviceErrorOf::NoDevice => {
            "No Shure MVX2U, MVX2U Gen 2, MV6, MV7, or MV7+ device found.\nHint: "@ + hint + "."@
        },
        DeviceErrorOf::ManyDevices { count } => {
            decimal_text(count as nat)
                + " Shure devices found. Use --device to specify one.\nRun --list to see available devices and their paths."@
        },
        DeviceErrorOf::NothingAt { path } => {
            "No device found at "@ + path + ". Use --list to see available devices."@
        },
        DeviceErrorOf::Unsupported { path, vendor_id, product_id } => {
            path + " is not a supported Shure device (VID="@ + hex_text(vendor_id) + " PID="@
                + hex_text(product_id) + "); expected VID="@ + hex_text(VID) + " with PID="@
                + hex_text(PID) + ", "@ + hex_text(MVX2U_GEN2_PID) + ", "@ + hex_text(MV6_PID)
                + ", "@ + hex_text(MV7_PID) + ", or "@ + hex_text(MV7_PLUS_PID) + "."@
        },
        DeviceErrorOf::NullInPath => "Device path contains a null byte"@,
        DeviceErrorOf::NullInRequestedPath { path } => {
            "Device path contains a null byte: "@ + path
        },
        DeviceErrorOf::CannotOpen { reason } => {
            "Cannot open device: "@ + reason + "\nHint: "@ + hint + "."@
        },
        DeviceErrorOf::CannotOpenPath { path, reason } => {
            "Cannot open "@ + path + ": "@ + reason + "\nHint: "@ + hint + "."@
        },
        DeviceErrorOf::WriteFailed { reason } => "HID write failed"@,
        DeviceErrorOf::WroteNothing => "HID write returned 0 bytes"@,
        DeviceErrorOf::ReadTimedOut => "HID read timed out — no response from device"@,
        DeviceErrorOf::ReadFailed { reason } => {
            "HID read failed (device disconnected?): "@ + reason
        },
        DeviceErrorOf::NotOnMv7 => "This setting is not available on the MV7"@,
        DeviceErrorOf::OnlyOnMv7 { model } => {
            "This setting is only available on the MV7, not the "@ + display_name
        },
        DeviceErrorOf::NoReply { command } => "No reply from the MV7 to \""@ + line + "\""@,
        DeviceErrorOf::Rejected { command } => "The MV7 rejected \""@ + line + "\""@,
        DeviceErrorOf::Locked { command } => {
            "The MV7 refused \""@ + line + "\": the setting is locked"@
        },
    }
}

/// Puts `middle` between `before` and `after`.
fn wrap(before: &str, middle: &str, after: &str) -> (text: String)
    ensures
        text@ == before@ + middle@ + after@,
{
    let mut text = before.to_owned();
    text.append(middle);
    text.append(after);
    text
}

impl DeviceErrorOf<String> {
    /// What the user is told. `hint` says how to get access to a device, `line` is the command
    /// line that the error's text command stands for, and `display_name` the name of its model.
    pub fn message(&self, hint: &str, line: &str, display_name: &str) -> (text: String)
        ensures
            text@ == message_text(self@, hint@, line@, display_name@),
    {
        match self {
            DeviceErrorOf::HidInit { reason } => "Failed to initialise hidapi".to_owned(),
            DeviceErrorOf::NoDevice => {
                wrap(
                    "No Shure MVX2U, MVX2U Gen 2, MV6, MV7, or MV7+ device found.\nHint: ",
                    hint,
                    ".",
                )
            },
            DeviceErrorOf::ManyDevices { count } => {
                let mut text = decimal(*count);
                text.append(
                    " Shure devices found. Use --device to specify one.\nRun --list to see available devices and their paths.",
                );
                text
            },
            DeviceErrorOf::NothingAt { path } => {
                wrap(
                    "No device found at ",
                    path.as_str(),
                    ". Use --list to see available devices.",
                )
            },
            DeviceErrorOf::Unsupported { path, vendor_id, product_id } => {
                let mut text = path.as_str().to_owned();
                text.append(" is not a supported Shure device (VID=");
                text.append(hex(*vendor_id).as_str());
                text.append(" PID=");
                text.append(hex(*product_id).as_str());
                text.append("); expected VID=");
                text.append(hex(VID).as_str());
                text.append(" with PID=");
                text.append(hex(PID).as_str());
                text.append(", ");
                text.append(hex(MVX2U_GEN2_PID).as_str());
                text.append(", ");
                text.append(hex(MV6_PID).as_str());
                text.append(", ");
                text.append(hex(MV7_PID).as_str());
                text.append(", or ");
                text.append(hex(MV7_PLUS_PID).as_str());
                text.append(".");
                text
            },
            DeviceErrorOf::NullInPath => "Device path contains a null byte".to_owned(),
            DeviceErrorOf::NullInRequestedPath { path } => {
                let mut text = "Device path contains a null byte: ".to_owned();
                text.append(path.as_str());
                text
            },
            DeviceErrorOf::CannotOpen { reason } => {
                let mut text = wrap("Cannot open device: ", reason.as_str(), "\nHint: ");
                text.append(hint);
                text.append(".");
                text
            },
            DeviceErrorOf::CannotOpenPath { path, reason } => {
                let mut text = wrap("Cannot open ", path.as_str(), ": ");
                text.append(reason.as_str());
                text.append("\nHint: ");
                text.append(hint);
                text.append(".");
                text
            },
            DeviceErrorOf::WriteFailed { reason } => "HID write failed".to_owned(),
            DeviceErrorOf::WroteNothing => "HID write returned 0 bytes".to_owned(),
            DeviceErrorOf::ReadTimedOut => {
                "HID read timed out — no response from device".to_owned()
            },
            DeviceErrorOf::ReadFailed { reason } => {
                let mut text = "HID read failed (device disconnected?): ".to_owned();
                text.append(reason.as_str());
                text
            },
            DeviceErrorOf::NotOnMv7 => "This setting is not available on the MV7".to_owned(),
            DeviceErrorOf::OnlyOnMv7 { model } => {
                let mut text = "This setting is only available on the MV7, not the ".to_owned();
                text.append(display_name);
                text
            },
            DeviceErrorOf::NoReply { command } => wrap("No reply from the MV7 to \"", line, "\""),
            DeviceErrorOf::Rejected { command } => wrap("The MV7 rejected \"", line, "\""),
            DeviceErrorOf::Locked { command } => {
                wrap("The MV7 refused \"", line, "\": the setting is locked")
            },
        }
    }

    /// The backend's own words, where the message does not repeat them.
    pub fn cause(&self) -> (cause: Option<&str>)
        ensures
            match self@ {
                DeviceErrorOf::HidInit { reason } | DeviceErrorOf::WriteFailed { reason } => {
                    cause is Some && cause->0@ == reason
                },
                _ => cause is None,
            },
    {
        match self {
            DeviceErrorOf::HidInit { reason } => Some(reason.as_str()),
            DeviceErrorOf::WriteFailed { reason } => Some(reason.as_str()),
            _ => None,
        }
    }
}

/// What the user is told about devices that are not found or not chosen. Counts are written by
/// `decimal` and identifiers by `hex`; every supported identifier is named.
#[verifier::rlimit(40)]
pub proof fn law_messages_about_choosing(
    error: &DeviceError,
    hint: &str,
    line: &str,
    display_name: &str,
    text: String,
    number: String,
    vendor: String,
    product: String,
)
    requires
        call_ensures(DeviceError::message, (error, hint, line, display_name), text),
        error matches DeviceErrorOf::ManyDevices { count } ==> call_ensures(
            decimal,
            (*count,),
            number,
        ),
        error matches DeviceErrorOf::Unsupported { vendor_id, product_id, .. } ==> call_ensures(
            hex,
            (*vendor_id,),
            vendor,
        ) && call_ensures(hex, (*product_id,), product),
    ensures
        match *error {
            DeviceErrorOf::HidInit { reason } => text@ == "Failed to initialise hidapi"@,
            DeviceErrorOf::NoDevice => {
                text@
                    == "No Shure MVX2U, MVX2U Gen 2, MV6, MV7, or MV7+ device found.\nHint: "@
                    + hint@ + "."@
            },
            DeviceErrorOf::ManyDevices { count } => {
                text@ == number@
                    + " Shure devices found. Use --device to specify one.\nRun --list to see available devices and their paths."@
            },
            DeviceErrorOf::NothingAt { path } => {
                text@ == "No device found at "@ + path@
                    + ". Use --list to see available devices."@
            },
            DeviceErrorOf::Unsupported { path, vendor_id, product_id } => {
                text@ == path@ + " is not a supported Shure device (VID="@ + vendor@ + " PID="@
                    + product@
                    + "); expected VID=0x14ed with PID=0x1013, 0x1033, 0x1026, 0x1012, or 0x1019."@
            },
            DeviceErrorOf::NullInPath => text@ == "Device path contains a null byte"@,
            DeviceErrorOf::NullInRequestedPath { path } => {
                text@ == "Device path contains a null byte: "@ + path@
            },
            DeviceErrorOf::CannotOpen { reason } => {
                text@ == "Cannot open device: "@ + reason@ + "\nHint: "@ + hint@ + "."@
            },
            DeviceErrorOf::CannotOpenPath { path, reason } => {
                text@ == "Cannot open "@ + path@ + ": "@ + reason@ + "\nHint: "@ + hint@ + "."@
            },
            _ => true,
        },
{
    if let DeviceErrorOf::Unsupported { path, vendor_id, product_id } = *error {
        reveal_strlit("); expected VID=");
        reveal_strlit(" with PID=");
        reveal_strlit(", ");
        reveal_strlit(", or ");
        reveal_strlit(".");
        reveal_strlit(
            "); expected VID=0x14ed with PID=0x1013, 0x1033, 0x1026, 0x1012, or 0x1019.",
        );
        let start = path@ + " is not a supported Shure device (VID="@ + vendor@ + " PID="@
            + product@;
        let list = "); expected VID="@ + hex_text(VID) + " with PID="@ + hex_text(PID) + ", "@
            + hex_text(MVX2U_GEN2_PID) + ", "@ + hex_text(MV6_PID) + ", "@ + hex_text(MV7_PID)
            + ", or "@ + hex_text(MV7_PLUS_PID) + "."@;
        assert(text@ =~= start + list);
        assert(list
            =~= "); expected VID=0x14ed with PID=0x1013, 0x1033, 0x1026, 0x1012, or 0x1019."@);
    }
}

/// What the user is told about devices that do not do what they are asked to.
pub proof fn law_messages_about_operations(
    error: &DeviceError,
    hint: &str,
    line: &str,
    display_name: &str,
    text: String,
)
    requires
        call_ensures(DeviceError::message, (error, hint, line, display_name), text),
    ensures
        match *error {
            DeviceErrorOf::WriteFailed { reason } => text@ == "HID write failed"@,
            DeviceErrorOf::WroteNothing => text@ == "HID write returned 0 bytes"@,
            DeviceErrorOf::ReadTimedOut => {
                text@ == "HID read timed out — no response from device"@
            },
            DeviceErrorOf::ReadFailed { reason } => {
                text@ == "HID read failed (device disconnected?): "@ + reason@
            },
            DeviceErrorOf::NotOnMv7 => text@ == "This setting is not available on the MV7"@,
            DeviceErrorOf::OnlyOnMv7 { model } => {
                text@ == "This setting is only available on the MV7, not the "@ + display_name@
            },
            DeviceErrorOf::NoReply { command } => {
                text@ == "No reply from the MV7 to \""@ + line@ + "\""@
            },
            DeviceErrorOf::Rejected { command } => {
                text@ == "The MV7 rejected \""@ + line@ + "\""@
            },
            DeviceErrorOf::Locked { command } => {
                text@ == "The MV7 refused \""@ + line@ + "\": the setting is locked"@
            },
            _ => true,
        },
{
}

/// The backend's words are never lost: where the message does not hold them, the cause does.
pub proof fn law_cause_is_the_reason(error: &DeviceError, cause: Option<&str>)
    requires
        call_ensures(DeviceError::cause, (error,), cause),
    ensures
        match *error {
            DeviceErrorOf::HidInit { reason } => cause is Some && cause->0@ == reason@,
            DeviceErrorOf::WriteFailed { reason } => cause is Some && cause->0@ == reason@,
            _ => cause is None,
        },
{
}

} // verus!
