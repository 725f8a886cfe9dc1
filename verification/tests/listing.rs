use shurectl::device::ShureDevice;
use shurectl::enumerate::{
    list_devices, shure_devices, supported_model, DeviceInfo, HidEntry, Target,
};
use shurectl::error::DeviceError;
use shurectl::model::{
    DeviceModel, MV6_PID, MV7_PID, MV7_PLUS_PID, MVX2U_GEN2_PID, PID, VID,
};

fn entry(path: &str, vendor_id: u16, product_id: u16, usage_page: u16) -> HidEntry {
    HidEntry {
        path: path.to_string(),
        vendor_id,
        product_id,
        usage_page,
        serial: Some(format!("serial of {path}")),
    }
}

#[test]
fn every_product_id_names_its_model() {
    assert_eq!(DeviceModel::from_pid(0x1013), Some(DeviceModel::Mvx2u));
    assert_eq!(DeviceModel::from_pid(0x1033), Some(DeviceModel::Mvx2uGen2));
    assert_eq!(DeviceModel::from_pid(0x1026), Some(DeviceModel::Mv6));
    assert_eq!(DeviceModel::from_pid(0x1012), Some(DeviceModel::Mv7));
    assert_eq!(DeviceModel::from_pid(0x1019), Some(DeviceModel::Mv7Plus));
    assert_eq!(DeviceModel::from_pid(0x1014), None);
    assert_eq!(DeviceModel::from_pid(0), None);
}

#[test]
fn other_vendors_are_not_supported() {
    assert_eq!(supported_model(&entry("a", VID, MV6_PID, 0)), Some(DeviceModel::Mv6));
    assert_eq!(supported_model(&entry("a", 0x046D, MV6_PID, 0)), None);
    assert_eq!(supported_model(&entry("a", VID, 0x2000, 0)), None);
}

#[test]
fn nothing_attached_lists_nothing() {
    assert!(shure_devices(&vec![]).is_empty());
    assert!(list_devices(&Ok(vec![])).is_empty());
}

#[test]
fn a_failed_backend_lists_nothing() {
    assert!(list_devices(&Err("no backend".to_string())).is_empty());
}

#[test]
fn vendor_defined_entries_drop_the_others() {
    let entries = vec![
        entry("telephony", VID, MV7_PLUS_PID, 0x000B),
        entry("config", VID, MV7_PLUS_PID, 0xFF00),
        entry("mouse", 0x046D, 0xC077, 0xFFFF),
    ];
    assert_eq!(shure_devices(&entries), vec![(1, DeviceModel::Mv7Plus)]);
}

#[test]
fn a_usage_page_below_the_vendor_range_does_not_count() {
    let entries = vec![
        entry("a", VID, MV6_PID, 0xFEFF),
        entry("b", VID, PID, 0xFFFF),
    ];
    assert_eq!(shure_devices(&entries), vec![(1, DeviceModel::Mvx2u)]);
}

#[test]
fn a_foreign_vendor_defined_entry_drops_nothing() {
    let entries = vec![
        entry("mouse", 0x046D, 0xC077, 0xFF00),
        entry("mic", VID, MV6_PID, 0x000C),
    ];
    assert_eq!(shure_devices(&entries), vec![(1, DeviceModel::Mv6)]);
}

#[test]
fn unparsed_usage_pages_keep_all_and_paths_are_listed_once() {
    let entries = vec![
        entry("/dev/hidraw0", VID, PID, 0),
        entry("/dev/hidraw0", VID, PID, 0),
        entry("/dev/hidraw1", VID, MV7_PID, 0),
        entry("/dev/hidraw0", VID, PID, 0),
    ];
    assert_eq!(
        shure_devices(&entries),
        vec![(0, DeviceModel::Mvx2u), (2, DeviceModel::Mv7)]
    );
}

#[test]
fn an_ineligible_entry_does_not_hide_a_later_one_at_its_path() {
    let entries = vec![
        entry("/dev/hidraw0", VID, PID, 0x000B),
        entry("/dev/hidraw0", VID, PID, 0xFF01),
    ];
    assert_eq!(shure_devices(&entries), vec![(1, DeviceModel::Mvx2u)]);
}

#[test]
fn listing_what_was_listed_changes_nothing() {
    let entries = vec![
        entry("a", VID, PID, 0x000B),
        entry("b", VID, MV6_PID, 0xFF00),
        entry("b", VID, MV6_PID, 0xFF00),
        entry("c", VID, MVX2U_GEN2_PID, 0xFF10),
    ];
    let found = shure_devices(&entries);
    assert_eq!(found, vec![(1, DeviceModel::Mv6), (3, DeviceModel::Mvx2uGen2)]);
    let listed = vec![
        entry("b", VID, MV6_PID, 0xFF00),
        entry("c", VID, MVX2U_GEN2_PID, 0xFF10),
    ];
    assert_eq!(
        shure_devices(&listed),
        vec![(0, DeviceModel::Mv6), (1, DeviceModel::Mvx2uGen2)]
    );
}

#[test]
fn listed_devices_show_path_serial_and_model() {
    let mut silent = entry("two", VID, MV6_PID, 0);
    silent.serial = None;
    let infos = list_devices(&Ok(vec![entry("one", VID, MV7_PID, 0), silent]));
    assert_eq!(
        infos,
        vec![
            DeviceInfo {
                path: "one".to_string(),
                serial: "serial of one".to_string(),
                model: DeviceModel::Mv7,
            },
            DeviceInfo {
                path: "two".to_string(),
                serial: "(unknown)".to_string(),
                model: DeviceModel::Mv6,
            },
        ]
    );
}

#[test]
fn the_only_device_is_opened() {
    let attached = Ok(vec![
        entry("mouse", 0x046D, 0xC077, 1),
        entry("mic", VID, MV7_PLUS_PID, 0xFF00),
    ]);
    let target = Target {
        path: "mic".to_string(),
        model: DeviceModel::Mv7Plus,
        requested: false,
    };
    assert_eq!(ShureDevice::open(&attached), Ok(target));
}

#[test]
fn none_or_many_devices_are_an_error() {
    assert_eq!(ShureDevice::open(&Ok(vec![])), Err(DeviceError::NoDevice));
    let two = Ok(vec![entry("a", VID, PID, 0), entry("b", VID, PID, 0)]);
    assert_eq!(ShureDevice::open(&two), Err(DeviceError::ManyDevices { count: 2 }));
}

#[test]
fn a_failed_backend_is_an_error() {
    let reason = "denied".to_string();
    let attached: Result<Vec<HidEntry>, String> = Err(reason.clone());
    assert_eq!(
        ShureDevice::open(&attached),
        Err(DeviceError::HidInit { reason: reason.clone() })
    );
    assert_eq!(
        ShureDevice::open_path(&attached, "a"),
        Err(DeviceError::HidInit { reason })
    );
}

#[test]
fn a_null_in_the_path_is_an_error() {
    let attached = Ok(vec![entry("a\0b", VID, PID, 0)]);
    assert_eq!(ShureDevice::open(&attached), Err(DeviceError::NullInPath));
    assert_eq!(
        ShureDevice::open_path(&attached, "a\0b"),
        Err(DeviceError::NullInRequestedPath { path: "a\0b".to_string() })
    );
}

#[test]
fn a_requested_path_is_opened_among_many() {
    let attached = Ok(vec![entry("a", VID, PID, 0), entry("b", VID, MV7_PID, 0)]);
    let target = Target {
        path: "b".to_string(),
        model: DeviceModel::Mv7,
        requested: true,
    };
    assert_eq!(ShureDevice::open_path(&attached, "b"), Ok(target));
}

#[test]
fn a_requested_path_must_be_there_and_supported() {
    let attached = Ok(vec![
        entry("mouse", 0x046D, 0xC077, 1),
        entry("mouse", VID, PID, 1),
    ]);
    assert_eq!(
        ShureDevice::open_path(&attached, "mic"),
        Err(DeviceError::NothingAt { path: "mic".to_string() })
    );
    assert_eq!(
        ShureDevice::open_path(&attached, "mouse"),
        Err(DeviceError::Unsupported {
            path: "mouse".to_string(),
            vendor_id: 0x046D,
            product_id: 0xC077,
        })
    );
}
