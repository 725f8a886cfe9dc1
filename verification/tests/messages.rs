use shurectl::command::TextCommand;
use shurectl::error::DeviceError;
use shurectl::model::DeviceModel;
use shurectl::text::{contains_null, decimal, decode_report, hex, strip_zeros};

fn says(error: DeviceError) -> String {
    error.message("plug it in", "micMute on", "MV6")
}

#[test]
fn numbers_are_written_out() {
    assert_eq!(decimal(0), "0");
    assert_eq!(decimal(7), "7");
    assert_eq!(decimal(10), "10");
    assert_eq!(decimal(90210), "90210");
    assert_eq!(decimal(usize::MAX), format!("{}", usize::MAX));
    assert_eq!(hex(0), "0x0000");
    assert_eq!(hex(0x14ED), "0x14ed");
    assert_eq!(hex(0xABCF), format!("{:#06x}", 0xABCF));
    assert_eq!(hex(0xFFFF), "0xffff");
}

#[test]
fn nulls_are_found_in_paths() {
    assert!(!contains_null(""));
    assert!(!contains_null("/dev/hidraw0"));
    assert!(contains_null("\0"));
    assert!(contains_null("é\0"));
}

#[test]
fn zero_bytes_carry_no_text() {
    assert_eq!(strip_zeros(&vec![0, 1, 0, 2, 0]), vec![1, 2]);
    assert_eq!(strip_zeros(&vec![]), Vec::<u8>::new());
    assert_eq!(decode_report(&b"gain=36\r\n\0\0\0".to_vec()), "gain=36\r\n");
    assert_eq!(decode_report(&vec![0, 0]), "");
}

#[test]
fn invalid_utf8_is_replaced() {
    assert_eq!(decode_report(&vec![b'a', 0, 0xFF, b'b']), "a\u{FFFD}b");
    assert_eq!(decode_report(&"grün".as_bytes().to_vec()), "grün");
}

#[test]
fn opening_errors_say_what_to_do() {
    assert_eq!(
        says(DeviceError::HidInit { reason: "x".to_string() }),
        "Failed to initialise hidapi"
    );
    assert_eq!(
        says(DeviceError::NoDevice),
        "No Shure MVX2U, MVX2U Gen 2, MV6, MV7, or MV7+ device found.\nHint: plug it in."
    );
    assert_eq!(
        says(DeviceError::ManyDevices { count: 12 }),
        "12 Shure devices found. Use --device to specify one.\n\
         Run --list to see available devices and their paths."
    );
    assert_eq!(
        says(DeviceError::NothingAt { path: "/dev/x".to_string() }),
        "No device found at /dev/x. Use --list to see available devices."
    );
    assert_eq!(
        says(DeviceError::Unsupported {
            path: "/dev/x".to_string(),
            vendor_id: 0x046D,
            product_id: 0xC077,
        }),
        "/dev/x is not a supported Shure device (VID=0x046d PID=0xc077); \
         expected VID=0x14ed with PID=0x1013, 0x1033, 0x1026, 0x1012, or 0x1019."
    );
    assert_eq!(says(DeviceError::NullInPath), "Device path contains a null byte");
    assert_eq!(
        says(DeviceError::NullInRequestedPath { path: "p".to_string() }),
        "Device path contains a null byte: p"
    );
    assert_eq!(
        says(DeviceError::CannotOpen { reason: "busy".to_string() }),
        "Cannot open device: busy\nHint: plug it in."
    );
    assert_eq!(
        says(DeviceError::CannotOpenPath {
            path: "/dev/x".to_string(),
            reason: "busy".to_string(),
        }),
        "Cannot open /dev/x: busy\nHint: plug it in."
    );
}

#[test]
fn transport_errors_are_told_apart() {
    assert_eq!(
        says(DeviceError::WriteFailed { reason: "gone".to_string() }),
        "HID write failed"
    );
    assert_eq!(says(DeviceError::WroteNothing), "HID write returned 0 bytes");
    assert_eq!(
        says(DeviceError::ReadTimedOut),
        "HID read timed out — no response from device"
    );
    assert_eq!(
        says(DeviceError::ReadFailed { reason: "gone".to_string() }),
        "HID read failed (device disconnected?): gone"
    );
}

#[test]
fn protocol_errors_name_the_command_or_the_model() {
    let command = TextCommand::SetMute { muted: true };
    assert_eq!(says(DeviceError::NotOnMv7), "This setting is not available on the MV7");
    assert_eq!(
        says(DeviceError::OnlyOnMv7 { model: DeviceModel::Mv6 }),
        "This setting is only available on the MV7, not the MV6"
    );
    assert_eq!(
        says(DeviceError::NoReply { command }),
        "No reply from the MV7 to \"micMute on\""
    );
    assert_eq!(
        says(DeviceError::Rejected { command }),
        "The MV7 rejected \"micMute on\""
    );
    assert_eq!(
        says(DeviceError::Locked { command }),
        "The MV7 refused \"micMute on\": the setting is locked"
    );
}

#[test]
fn only_wrapped_errors_have_a_cause() {
    assert_eq!(
        DeviceError::HidInit { reason: "x".to_string() }.cause(),
        Some("x")
    );
    assert_eq!(
        DeviceError::WriteFailed { reason: "y".to_string() }.cause(),
        Some("y")
    );
    assert_eq!(DeviceError::ReadFailed { reason: "z".to_string() }.cause(), None);
    assert_eq!(DeviceError::WroteNothing.cause(), None);
}
