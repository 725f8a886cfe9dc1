//! Finding the supported devices among everything the HID backend lists.

use vstd::prelude::*;

use crate::device::ShureDevice;
use crate::error::{DeviceError, DeviceErrorOf, DeviceErrorView};
use crate::model::{DeviceModel, VID};
use crate::text::contains_null;

verus! {

/// Usage pages from here on are vendor-defined. A device's configuration interface is one of
/// them; the telephony collection that Windows lists beside it is not.
pub const VENDOR_USAGE_PAGE_MIN: u16 = 0xFF00;

/// One entry of the HID backend's device list.
#[derive(Debug, PartialEq, Eq)]
pub struct HidEntry {
    pub path: String,
    pub vendor_id: u16,
    pub product_id: u16,
    pub usage_page: u16,
    pub serial: Option<String>,
}

/// A supported device that is attached.
#[derive(Debug, PartialEq, Eq)]
pub struct DeviceInfo {
    pub path: String,
    pub serial: String,
    pub model: DeviceModel,
}

/// A device chosen for opening.
#[derive(Debug, PartialEq, Eq)]
pub struct Target {
    pub path: String,
    pub model: DeviceModel,
    /// Whether the caller asked for this path.
    pub requested: bool,
}

impl HidEntry {
    /// The model of a supported device, nothing for any other.
    pub open spec fn model(self) -> Option<DeviceModel> {
        if self.vendor_id == VID {
            DeviceModel::with_pid(self.product_id)
        } else {
            None
        }
    }

    /// Whether the entry is a vendor-defined interface.
    pub open spec fn vendor_defined(self) -> bool {
        self.usage_page >= VENDOR_USAGE_PAGE_MIN
    }
}

/// Whether some supported device shows a vendor-defined interface.
pub open spec fn any_vendor_defined(entries: Seq<HidEntry>) -> bool {
    exists|j: int|
        #![trigger entries[j]]
        0 <= j < entries.len() && entries[j].model() is Some && entries[j].vendor_defined()
}

/// Whether entry `i` is a supported device's, and a vendor-defined one if there is any such.
pub open spec fn eligible(entries: Seq<HidEntry>, i: int) -> bool {
    &&& 0 <= i < entries.len()
    &&& entries[i].model() is Some
    &&& any_vendor_defined(entries) ==> entries[i].vendor_defined()
}

/// Whether entry `i` is the first eligible one at its path.
pub open spec fn listed(entries: Seq<HidEntry>, i: int) -> bool {
    &&& eligible(entries, i)
    &&& forall|j: int|
        0 <= j < i && #[trigger] eligible(entries, j) ==> entries[j].path@ != entries[i].path@
}

/// The listed ones among the first `n` entries, in order, each with its model.
pub open spec fn listed_among(entries: Seq<HidEntry>, n: nat) -> Seq<(usize, DeviceModel)>
    decreases n,
{
    if n == 0 {
        Seq::empty()
    } else if listed(entries, n - 1) {
        listed_among(entries, (n - 1) as nat).push(
            ((n - 1) as usize, entries[n - 1].model()->0),
        )
    } else {
        listed_among(entries, (n - 1) as nat)
    }
}

/// The supported devices among `entries`: for each path, the first eligible entry.
pub open spec fn devices_of(entries: Seq<HidEntry>) -> Seq<(usize, DeviceModel)> {
    listed_among(entries, entries.len())
}

/// The model of an entry if it is a supported device.
pub fn supported_model(entry: &HidEntry) -> (model: Option<DeviceModel>)
    ensures
        model == entry.model(),
{
    if entry.vendor_id != VID {
        return None;
    }
    DeviceModel::from_pid(entry.product_id)
}

/// Whether some supported device shows a vendor-defined interface.
fn has_vendor_defined(entries: &Vec<HidEntry>) -> (found: bool)
    ensures
        found == any_vendor_defined(entries@),
{
    let mut i: usize = 0;
    while i < entries.len()
        invariant
            i <= entries.len(),
            forall|j: int|
                #![trigger entries@[j]]
                0 <= j < i ==> !(entries@[j].model() is Some && entries@[j].vendor_defined()),
        decreases entries.len() - i,
    {
        if entries[i].usage_page >= VENDOR_USAGE_PAGE_MIN && supported_model(&entries[i]).is_some() {
            assert(entries@[i as int].vendor_defined());
            return true;
        }
        i = i + 1;
    }
    false
}

/// The entries of supported devices, one per physical device, by index and in order.
///
/// If any supported entry is vendor-defined, only such entries count. Backends that report no
/// usage page leave all of them in. Of several entries at one path the first is taken.
pub fn shure_devices(entries: &Vec<HidEntry>) -> (found: Vec<(usize, DeviceModel)>)
    ensures
        found@ == devices_of(entries@),
{
    let has_vendor: bool = has_vendor_defined(entries);
    let mut found: Vec<(usize, DeviceModel)> = Vec::new();
    let mut i: usize = 0;
    while i < entries.len()
        invariant
            i <= entries.len(),
            has_vendor == any_vendor_defined(entries@),
            found@ == listed_among(entries@, i as nat),
        decreases entries.len() - i,
    {
        if let Some(model) = supported_model(&entries[i]) {
            if !has_vendor || entries[i].usage_page >= VENDOR_USAGE_PAGE_MIN {
                assert(eligible(entries@, i as int));
                if !seen_path(entries, &found, i) {
                    found.push((i, model));
                }
            }
        }
        i = i + 1;
    }
    found
}

/// Whether one of the devices found before entry `i` is at the path of entry `i`.
fn seen_path(entries: &Vec<HidEntry>, found: &Vec<(usize, DeviceModel)>, i: usize) -> (seen: bool)
    requires
        i < entries.len(),
        eligible(entries@, i as int),
        found@ == listed_among(entries@, i as nat),
    ensures
        seen == !listed(entries@, i as int),
{
    proof {
        lemma_listed_among(entries@, i as nat);
    }
    let mut k: usize = 0;
    while k < found.len()
        invariant
            k <= found.len(),
            i < entries.len(),
            found@ == listed_among(entries@, i as nat),
            forall|m: int|
                #![trigger found@[m]]
                0 <= m < found.len() ==> found@[m].0 < i && listed(
                    entries@,
                    found@[m].0 as int,
                ),
            forall|m: int|
                #![trigger found@[m]]
                0 <= m < k ==> entries@[found@[m].0 as int].path@ != entries@[i as int].path@,
        decreases found.len() - k,
    {
        if entries[found[k].0].path == entries[i].path {
            assert(eligible(entries@, found@[k as int].0 as int));
            return true;
        }
        k = k + 1;
    }
    proof {
        assert forall|j: int| 0 <= j < i && #[trigger] eligible(entries@, j) implies entries@[j].path@
            != entries@[i as int].path@ by {
            let f = lemma_first_at_path(entries@, j);
            lemma_listed_index(entries@, i as nat, f);
        }
    }
    false
}

/// The serial number shown for a device, given the one it reports.
pub open spec fn shown_serial(reported: Option<Seq<char>>) -> Seq<char> {
    match reported {
        Some(serial) => serial,
        None => "(unknown)"@,
    }
}

/// The serial number an entry reports.
pub open spec fn reported_serial(entry: HidEntry) -> Option<Seq<char>> {
    match entry.serial {
        Some(serial) => Some(serial@),
        None => None,
    }
}

/// Whether `info` is about the device of model `model` that `entry` is about.
pub open spec fn describes(info: DeviceInfo, entry: HidEntry, model: DeviceModel) -> bool {
    &&& info.path@ == entry.path@
    &&& info.serial@ == shown_serial(reported_serial(entry))
    &&& info.model == model
}

/// The supported devices that are attached, none if the HID backend could not be started.
/// `attached` is the backend's device list, or the reason why there is none.
pub fn list_devices(attached: &Result<Vec<HidEntry>, String>) -> (infos: Vec<DeviceInfo>)
    ensures
        match *attached {
            Err(_) => infos@.len() == 0,
            Ok(entries) => {
                &&& infos@.len() == devices_of(entries@).len()
                &&& forall|k: int|
                    #![trigger infos@[k]]
                    0 <= k < infos@.len() ==> describes(
                        infos@[k],
                        entries@[devices_of(entries@)[k].0 as int],
                        devices_of(entries@)[k].1,
                    )
            },
        },
{
    let mut infos: Vec<DeviceInfo> = Vec::new();
    if let Ok(entries) = attached {
        let found = shure_devices(entries);
        proof {
            assert(entries.len() == entries@.len());
            lemma_listed_among(entries@, entries@.len());
        }
        let mut k: usize = 0;
        while k < found.len()
            invariant
                k <= found.len(),
                infos@.len() == k,
                found@ == devices_of(entries@),
                forall|m: int|
                    #![trigger found@[m]]
                    0 <= m < found.len() ==> found@[m].0 < entries.len(),
                forall|m: int|
                    #![trigger infos@[m]]
                    0 <= m < k ==> describes(
                        infos@[m],
                        entries@[found@[m].0 as int],
                        found@[m].1,
                    ),
            decreases found.len() - k,
        {
            let (i, model) = found[k];
            let entry = &entries[i];
            let serial = match &entry.serial {
                Some(serial) => serial.clone(),
                None => "(unknown)".to_owned(),
            };
            infos.push(DeviceInfo { path: entry.path.clone(), serial, model });
            k = k + 1;
        }
    }
    infos
}

/// What opening the only device comes to.
pub open spec fn only_choice(
    attached: Result<Vec<HidEntry>, String>,
    choice: Result<Target, DeviceError>,
) -> bool {
    match attached {
        Err(reason) => choice is Err && choice->Err_0@ == (DeviceErrorView::HidInit {
            reason: reason@,
        }),
        Ok(entries) => {
            let found = devices_of(entries@);
            if found.len() == 0 {
                choice is Err && choice->Err_0@ == DeviceErrorView::NoDevice
            } else if found.len() > 1 {
                choice is Err && choice->Err_0@ == (DeviceErrorView::ManyDevices {
                    count: found.len() as usize,
                })
            } else {
                let (i, model) = found[0];
                let path = entries@[i as int].path@;
                if path.contains('\0') {
                    choice is Err && choice->Err_0@ == DeviceErrorView::NullInPath
                } else {
                    &&& choice is Ok
                    &&& choice->Ok_0.path@ == path
                    &&& choice->Ok_0.model == model
                    &&& !choice->Ok_0.requested
                }
            }
        },
    }
}

/// The device to open when none is asked for: the only supported one.
pub(crate) fn choose_only(attached: &Result<Vec<HidEntry>, String>) -> (choice: Result<
    Target,
    DeviceError,
>)
    ensures
        only_choice(*attached, choice),
{
    match attached {
        Err(reason) => Err(DeviceErrorOf::HidInit { reason: reason.clone() }),
        Ok(entries) => {
            let found = shure_devices(entries);
            proof {
                assert(entries.len() == entries@.len());
                lemma_listed_among(entries@, entries@.len());
            }
            if found.len() == 0 {
                Err(DeviceErrorOf::NoDevice)
            } else if found.len() > 1 {
                Err(DeviceErrorOf::ManyDevices { count: found.len() })
            } else {
                let (i, model) = found[0];
                let path = entries[i].path.clone();
                if contains_null(path.as_str()) {
                    Err(DeviceErrorOf::NullInPath)
                } else {
                    Ok(Target { path, model, requested: false })
                }
            }
        },
    }
}

/// Whether entry `i` is the first one at `path`.
pub open spec fn first_at(entries: Seq<HidEntry>, path: Seq<char>, i: int) -> bool {
    &&& 0 <= i < entries.len()
    &&& entries[i].path@ == path
    &&& forall|j: int| #![trigger entries[j]] 0 <= j < i ==> entries[j].path@ != path
}

/// What opening `path` comes to, if `entry` is the first one there.
pub open spec fn path_choice(
    entry: HidEntry,
    path: Seq<char>,
    choice: Result<Target, DeviceError>,
) -> bool {
    match entry.model() {
        None => choice is Err && choice->Err_0@ == (DeviceErrorView::Unsupported {
            path,
            vendor_id: entry.vendor_id,
            product_id: entry.product_id,
        }),
        Some(model) => if path.contains('\0') {
            choice is Err && choice->Err_0@ == (DeviceErrorView::NullInRequestedPath { path })
        } else {
            &&& choice is Ok
            &&& choice->Ok_0.path@ == path
            &&& choice->Ok_0.model == model
            &&& choice->Ok_0.requested
        },
    }
}

/// What opening `path` comes to.
pub open spec fn requested_choice(
    attached: Result<Vec<HidEntry>, String>,
    path: Seq<char>,
    choice: Result<Target, DeviceError>,
) -> bool {
    match attached {
        Err(reason) => choice is Err && choice->Err_0@ == (DeviceErrorView::HidInit {
            reason: reason@,
        }),
        Ok(entries) => {
            &&& forall|i: int|
                #[trigger] first_at(entries@, path, i) ==> path_choice(
                    entries@[i],
                    path,
                    choice,
                )
            &&& (forall|i: int| !#[trigger] first_at(entries@, path, i)) ==> choice is Err
                && choice->Err_0@ == (DeviceErrorView::NothingAt { path: path })
        },
    }
}

/// The device to open when `path` is asked for.
pub(crate) fn choose_path(attached: &Result<Vec<HidEntry>, String>, path: &str) -> (choice: Result<
    Target,
    DeviceError,
>)
    ensures
        requested_choice(*attached, path@, choice),
{
    let requested = path.to_owned();
    match attached {
        Err(reason) => Err(DeviceErrorOf::HidInit { reason: reason.clone() }),
        Ok(entries) => {
            let mut i: usize = 0;
            while i < entries.len()
                invariant
                    i <= entries.len(),
                    *attached == Ok::<Vec<HidEntry>, String>(*entries),
                    requested@ == path@,
                    forall|j: int|
                        #![trigger entries@[j]]
                        0 <= j < i ==> entries@[j].path@ != path@,
                decreases entries.len() - i,
            {
                let entry = &entries[i];
                if entry.path == requested {
                    assert(first_at(entries@, path@, i as int));
                    assert forall|j: int| #[trigger] first_at(entries@, path@, j) implies j == i by {
                        if j < i {
                            assert(entries@[j].path@ != path@);
                        } else if i < j {
                            assert(entries@[i as int].path@ == path@);
                        }
                    }
                    return match supported_model(entry) {
                        None => Err(
                            DeviceErrorOf::Unsupported {
                                path: requested,
                                vendor_id: entry.vendor_id,
                                product_id: entry.product_id,
                            },
                        ),
                        Some(model) => if contains_null(path) {
                            Err(DeviceErrorOf::NullInRequestedPath { path: requested })
                        } else {
                            Ok(Target { path: requested, model, requested: true })
                        },
                    };
                }
                i = i + 1;
            }
            Err(DeviceErrorOf::NothingAt { path: requested })
        },
    }
}

/// Each of the first listed entries lies below `n`, is listed, and comes with its model.
proof fn lemma_listed_among(entries: Seq<HidEntry>, n: nat)
    requires
        n <= entries.len(),
        entries.len() <= usize::MAX,
    ensures
        forall|k: int|
            #![trigger listed_among(entries, n)[k]]
            0 <= k < listed_among(entries, n).len() ==> {
                let (i, model) = listed_among(entries, n)[k];
                &&& i < n
                &&& listed(entries, i as int)
                &&& entries[i as int].model() == Some(model)
            },
        forall|k: int, l: int|
            #![trigger listed_among(entries, n)[k], listed_among(entries, n)[l]]
            0 <= k < l < listed_among(entries, n).len() ==> listed_among(entries, n)[k].0
                < listed_among(entries, n)[l].0,
    decreases n,
{
    if n > 0 {
        lemma_listed_among(entries, (n - 1) as nat);
    }
}

/// A listed entry below `n` is among the first listed entries.
proof fn lemma_listed_index(entries: Seq<HidEntry>, n: nat, i: int) -> (k: int)
    requires
        n <= entries.len(),
        entries.len() <= usize::MAX,
        0 <= i < n,
        listed(entries, i),
    ensures
        0 <= k < listed_among(entries, n).len(),
        listed_among(entries, n)[k].0 == i,
    decreases n,
{
    if i == n - 1 {
        listed_among(entries, n).len() - 1
    } else {
        lemma_listed_index(entries, (n - 1) as nat, i)
    }
}

/// At the path of an eligible entry there is a listed one, no later than it.
proof fn lemma_first_at_path(entries: Seq<HidEntry>, i: int) -> (f: int)
    requires
        eligible(entries, i),
    ensures
        0 <= f <= i,
        listed(entries, f),
        entries[f].path@ == entries[i].path@,
    decreases i,
{
    if listed(entries, i) {
        i
    } else {
        let j = choose|j: int|
            0 <= j < i && #[trigger] eligible(entries, j) && entries[j].path@ == entries[i].path@;
        lemma_first_at_path(entries, j)
    }
}

/// No device is listed twice: the listed entries are at different paths.
pub proof fn law_one_entry_per_path(entries: Seq<HidEntry>, k: int, l: int)
    requires
        entries.len() <= usize::MAX,
        0 <= k < l < devices_of(entries).len(),
    ensures
        entries[devices_of(entries)[k].0 as int].path@ != entries[devices_of(
            entries,
        )[l].0 as int].path@,
{
    lemma_listed_among(entries, entries.len());
    let i = devices_of(entries)[k].0 as int;
    let j = devices_of(entries)[l].0 as int;
    assert(listed(entries, j) && listed(entries, i) && i < j);
    assert(eligible(entries, i));
}

/// The devices are listed in the backend's order.
pub proof fn law_listing_keeps_order(entries: Seq<HidEntry>, k: int, l: int)
    requires
        entries.len() <= usize::MAX,
        0 <= k < l < devices_of(entries).len(),
    ensures
        devices_of(entries)[k].0 < devices_of(entries)[l].0,
{
    lemma_listed_among(entries, entries.len());
}

/// Every listed entry is a supported device's and comes with its model.
pub proof fn law_only_supported_listed(entries: Seq<HidEntry>, k: int)
    requires
        entries.len() <= usize::MAX,
        0 <= k < devices_of(entries).len(),
    ensures
        devices_of(entries)[k].0 < entries.len(),
        entries[devices_of(entries)[k].0 as int].vendor_id == VID,
        entries[devices_of(entries)[k].0 as int].product_id == devices_of(entries)[k].1.pid(),
        any_vendor_defined(entries) ==> entries[devices_of(
            entries,
        )[k].0 as int].vendor_defined(),
{
    lemma_listed_among(entries, entries.len());
}

/// No device is lost: every eligible entry's path is listed.
pub proof fn law_every_device_listed(entries: Seq<HidEntry>, i: int) -> (k: int)
    requires
        entries.len() <= usize::MAX,
        eligible(entries, i),
    ensures
        0 <= k < devices_of(entries).len(),
        entries[devices_of(entries)[k].0 as int].path@ == entries[i].path@,
{
    let f = lemma_first_at_path(entries, i);
    lemma_listed_index(entries, entries.len(), f)
}

/// Something is listed if and only if a supported device is attached.
pub proof fn law_listing_empty_iff_none_supported(entries: Seq<HidEntry>)
    requires
        entries.len() <= usize::MAX,
    ensures
        devices_of(entries).len() == 0 <==> (forall|i: int|
            #![trigger entries[i]]
            0 <= i < entries.len() ==> entries[i].model() is None),
{
    lemma_listed_among(entries, entries.len());
    if devices_of(entries).len() != 0 {
        let i = devices_of(entries)[0].0 as int;
        assert(entries[i].model() is Some);
    } else {
        assert forall|i: int| #![trigger entries[i]] 0 <= i < entries.len() implies entries[i].model() is None by {
            if entries[i].model() is Some {
                if any_vendor_defined(entries) {
                    let j = choose|j: int|
                        #![trigger entries[j]]
                        0 <= j < entries.len() && entries[j].model() is Some
                            && entries[j].vendor_defined();
                    let k = law_every_device_listed(entries, j);
                } else {
                    let k = law_every_device_listed(entries, i);
                }
            }
        }
    }
}

/// The entries that were listed, as a device list of their own.
pub open spec fn listed_entries(entries: Seq<HidEntry>) -> Seq<HidEntry> {
    devices_of(entries).map_values(|found: (usize, DeviceModel)| entries[found.0 as int])
}

/// Listing is settled after one pass: of the entries that were listed, all are listed again.
pub proof fn law_listing_is_settled(entries: Seq<HidEntry>)
    requires
        entries.len() <= usize::MAX,
    ensures
        listed_entries(listed_entries(entries)) == listed_entries(entries),
{
    let again = listed_entries(entries);
    lemma_listed_among(entries, entries.len());
    lemma_listed_among_len(entries, entries.len());
    assert forall|k: int| 0 <= k < again.len() implies #[trigger] listed(again, k) by {
        let i = devices_of(entries)[k].0 as int;
        assert(listed(entries, i));
        assert(again[k] == entries[i]);
        if any_vendor_defined(again) {
            let l = choose|l: int|
                #![trigger again[l]]
                0 <= l < again.len() && again[l].model() is Some && again[l].vendor_defined();
            assert(again[l] == entries[devices_of(entries)[l].0 as int]);
            assert(any_vendor_defined(entries));
        }
        assert forall|l: int| 0 <= l < k && #[trigger] eligible(again, l) implies again[l].path@
            != again[k].path@ by {
            assert(again[l] == entries[devices_of(entries)[l].0 as int]);
            law_one_entry_per_path(entries, l, k);
        }
    }
    lemma_all_listed(again, again.len());
    assert(listed_entries(again) =~= again);
}

/// No more entries are listed than there are.
proof fn lemma_listed_among_len(entries: Seq<HidEntry>, n: nat)
    ensures
        listed_among(entries, n).len() <= n,
    decreases n,
{
    if n > 0 {
        lemma_listed_among_len(entries, (n - 1) as nat);
    }
}

/// Where every entry is listed, the listing counts them off.
proof fn lemma_all_listed(entries: Seq<HidEntry>, n: nat)
    requires
        n <= entries.len(),
        entries.len() <= usize::MAX,
        forall|k: int| 0 <= k < entries.len() ==> #[trigger] listed(entries, k),
    ensures
        listed_among(entries, n).len() == n,
        forall|k: int|
            #![trigger listed_among(entries, n)[k]]
            0 <= k < n ==> listed_among(entries, n)[k].0 == k,
    decreases n,
{
    if n > 0 {
        lemma_all_listed(entries, (n - 1) as nat);
        assert(listed(entries, n - 1));
    }
}

/// Whether an entry is one of `model`, by its vendor and its product identifier.
pub open spec fn enumerates_as(entry: HidEntry, model: DeviceModel) -> bool {
    &&& entry.vendor_id == 0x14ED
    &&& match model {
        DeviceModel::Mvx2u => entry.product_id == 0x1013,
        DeviceModel::Mvx2uGen2 => entry.product_id == 0x1033,
        DeviceModel::Mv6 => entry.product_id == 0x1026,
        DeviceModel::Mv7 => entry.product_id == 0x1012,
        DeviceModel::Mv7Plus => entry.product_id == 0x1019,
    }
}

/// Whether an entry is one of any supported model.
pub open spec fn is_supported(entry: HidEntry) -> bool {
    entry.vendor_id == 0x14ED && (entry.product_id == 0x1013 || entry.product_id == 0x1033
        || entry.product_id == 0x1026 || entry.product_id == 0x1012 || entry.product_id == 0x1019)
}

/// Vendor and product identifier decide about the model of an entry.
proof fn lemma_model_by_ids(entry: HidEntry)
    ensures
        entry.model() is Some <==> is_supported(entry),
        entry.model() is Some ==> enumerates_as(entry, entry.model()->0),
        forall|model: DeviceModel|
            enumerates_as(entry, model) ==> entry.model() == Some(model),
{
    assert(DeviceModel::Mvx2u.pid() == 0x1013);
    assert(DeviceModel::Mvx2uGen2.pid() == 0x1033);
    assert(DeviceModel::Mv6.pid() == 0x1026);
    assert(DeviceModel::Mv7.pid() == 0x1012);
    assert(DeviceModel::Mv7Plus.pid() == 0x1019);
}

/// An entry is supported if it has Shure's vendor identifier and the product identifier of a
/// model, and it is of that model. Nothing else of it matters.
pub proof fn law_identifiers_decide(
    entry: &HidEntry,
    found: Option<DeviceModel>,
    model: DeviceModel,
)
    requires
        call_ensures(supported_model, (entry,), found),
    ensures
        found is Some <==> is_supported(*entry),
        found == Some(model) <==> enumerates_as(*entry, model),
        entry.vendor_id != 0x14ED ==> found is None,
        entry.vendor_id == 0x14ED ==> {
            &&& found == Some(DeviceModel::Mvx2u) <==> entry.product_id == 0x1013
            &&& found == Some(DeviceModel::Mvx2uGen2) <==> entry.product_id == 0x1033
            &&& found == Some(DeviceModel::Mv6) <==> entry.product_id == 0x1026
            &&& found == Some(DeviceModel::Mv7) <==> entry.product_id == 0x1012
            &&& found == Some(DeviceModel::Mv7Plus) <==> entry.product_id == 0x1019
        },
{
    lemma_model_by_ids(*entry);
}

/// What a list of devices must satisfy: each device is that of a supported entry, no two are at
/// one path, they keep the order, a vendor-defined entry of any supported device keeps all others
/// out, and nothing else is left out. Of the entries at one path the first one counts.
/// `at` says which entries they are, as `shure_devices` finds them.
pub proof fn law_listing(
    attached: &Result<Vec<HidEntry>, String>,
    infos: Vec<DeviceInfo>,
    found: Vec<(usize, DeviceModel)>,
) -> (at: Seq<int>)
    requires
        attached is Ok,
        call_ensures(list_devices, (attached,), infos),
        call_ensures(shure_devices, (&attached->Ok_0,), found),
    ensures
        at.len() == infos@.len(),
        at.len() == found@.len(),
        forall|k: int|
            0 <= k < at.len() ==> #[trigger] at[k] == found@[k].0 && infos@[k].model == found@[k].1,
        forall|k: int|
            0 <= k < at.len() ==> 0 <= #[trigger] at[k] < attached->Ok_0@.len() && enumerates_as(
                attached->Ok_0@[at[k]],
                infos@[k].model,
            ) && infos@[k].path@ == attached->Ok_0@[at[k]].path@ && infos@[k].serial@ == (
            match attached->Ok_0@[at[k]].serial {
                Some(serial) => serial@,
                None => "(unknown)"@,
            }),
        forall|k: int, l: int|
            #![trigger at[k], at[l]]
            0 <= k < l < at.len() ==> at[k] < at[l] && infos@[k].path@ != infos@[l].path@,
        forall|j: int, k: int|
            #![trigger attached->Ok_0@[j], at[k]]
            0 <= j < attached->Ok_0@.len() && is_supported(attached->Ok_0@[j])
                && attached->Ok_0@[j].usage_page >= 0xFF00 && 0 <= k < at.len()
                ==> attached->Ok_0@[at[k]].usage_page >= 0xFF00,
        forall|i: int|
            0 <= i < attached->Ok_0@.len() && is_supported(#[trigger] attached->Ok_0@[i]) && (
            attached->Ok_0@[i].usage_page >= 0xFF00 || forall|j: int|
                #![trigger attached->Ok_0@[j]]
                0 <= j < attached->Ok_0@.len() && is_supported(attached->Ok_0@[j])
                    ==> attached->Ok_0@[j].usage_page < 0xFF00) ==> exists|k: int|
                0 <= k < at.len() && #[trigger] at[k] <= i && infos@[k].path@
                    == attached->Ok_0@[i].path@,
{
    let entries = attached->Ok_0@;
    assert(attached->Ok_0.len() == entries.len());
    let at = Seq::new(infos@.len(), |k: int| devices_of(entries)[k].0 as int);
    assert forall|i: int| 0 <= i < entries.len() implies {
        &&& (#[trigger] entries[i]).model() is Some <==> is_supported(entries[i])
        &&& entries[i].vendor_defined() <==> entries[i].usage_page >= 0xFF00
    } by {
        lemma_model_by_ids(entries[i]);
    }
    lemma_listed_among(entries, entries.len());
    assert forall|k: int| 0 <= k < at.len() implies 0 <= #[trigger] at[k] < entries.len()
        && enumerates_as(entries[at[k]], infos@[k].model) && infos@[k].path@ == entries[at[k]].path@
        && infos@[k].serial@ == (match entries[at[k]].serial {
        Some(serial) => serial@,
        None => "(unknown)"@,
    }) by {
        let (i, model) = devices_of(entries)[k];
        assert(describes(infos@[k], entries[i as int], model));
        lemma_model_by_ids(entries[i as int]);
    }
    assert forall|k: int| 0 <= k < at.len() implies #[trigger] at[k] == found@[k].0
        && infos@[k].model == found@[k].1 by {
        assert(describes(
            infos@[k],
            entries[devices_of(entries)[k].0 as int],
            devices_of(entries)[k].1,
        ));
    }
    assert forall|k: int, l: int|
        #![trigger at[k], at[l]]
        0 <= k < l < at.len() implies at[k] < at[l] && infos@[k].path@ != infos@[l].path@ by {
        law_one_entry_per_path(entries, k, l);
        law_listing_keeps_order(entries, k, l);
    }
    assert forall|j: int, k: int|
        #![trigger entries[j], at[k]]
        0 <= j < entries.len() && is_supported(entries[j]) && entries[j].usage_page >= 0xFF00 && 0
            <= k < at.len() implies entries[at[k]].usage_page >= 0xFF00 by {
        assert(entries[j].model() is Some && entries[j].vendor_defined());
        assert(any_vendor_defined(entries));
        law_only_supported_listed(entries, k);
    }
    assert forall|i: int|
        0 <= i < entries.len() && is_supported(#[trigger] entries[i]) && (entries[i].usage_page
            >= 0xFF00 || forall|j: int|
            #![trigger entries[j]]
            0 <= j < entries.len() && is_supported(entries[j]) ==> entries[j].usage_page
                < 0xFF00) implies exists|k: int|
        0 <= k < at.len() && #[trigger] at[k] <= i && infos@[k].path@ == entries[i].path@ by {
        assert(eligible(entries, i));
        let f = lemma_first_at_path(entries, i);
        let k = lemma_listed_index(entries, entries.len(), f);
        assert(at[k] == f);
        assert(infos@[k].path@ == entries[at[k]].path@);
    }
    at
}

/// Without a device list nothing is listed and nothing is opened.
pub proof fn law_no_backend(
    attached: &Result<Vec<HidEntry>, String>,
    path: &str,
    infos: Vec<DeviceInfo>,
    only: Result<Target, DeviceError>,
    requested: Result<Target, DeviceError>,
)
    requires
        attached is Err,
        call_ensures(list_devices, (attached,), infos),
        call_ensures(ShureDevice::open, (attached,), only),
        call_ensures(ShureDevice::open_path, (attached, path), requested),
    ensures
        infos@.len() == 0,
        only matches Err(DeviceErrorOf::HidInit { reason }) && reason@ == attached->Err_0@,
        requested matches Err(DeviceErrorOf::HidInit { reason }) && reason@ == attached->Err_0@,
{
}

/// Opening the only device goes by the list of devices: if nothing is listed there is no device,
/// if several are there are as many as are listed, and if one is, that one is opened.
pub proof fn law_only_device_is_the_listed_one(
    attached: &Result<Vec<HidEntry>, String>,
    infos: Vec<DeviceInfo>,
    choice: Result<Target, DeviceError>,
)
    requires
        attached is Ok,
        call_ensures(list_devices, (attached,), infos),
        call_ensures(ShureDevice::open, (attached,), choice),
    ensures
        infos@.len() == 0 <==> choice matches Err(DeviceErrorOf::NoDevice),
        infos@.len() > 1 <==> choice matches Err(DeviceErrorOf::ManyDevices { count }),
        choice matches Err(DeviceErrorOf::ManyDevices { count }) ==> count == infos@.len(),
        infos@.len() == 1 && infos@[0].path@.contains('\0') ==> choice matches Err(
            DeviceErrorOf::NullInPath,
        ),
        infos@.len() == 1 && !infos@[0].path@.contains('\0') ==> {
            &&& choice matches Ok(target)
            &&& target.path@ == infos@[0].path@
            &&& target.model == infos@[0].model
            &&& !target.requested
        },
{
    let entries = attached->Ok_0@;
    assert(attached->Ok_0.len() == entries.len());
    lemma_listed_among_len(entries, entries.len());
    if infos@.len() > 0 {
        assert(describes(
            infos@[0],
            entries[devices_of(entries)[0].0 as int],
            devices_of(entries)[0].1,
        ));
    }
}

/// Opening a path goes by the first entry there, whatever else is attached: it is an error if
/// there is none or it is not supported, or if the path cannot be passed on.
pub proof fn law_requested_path_is_opened(
    attached: &Result<Vec<HidEntry>, String>,
    path: &str,
    choice: Result<Target, DeviceError>,
    i: int,
)
    requires
        attached is Ok,
        call_ensures(ShureDevice::open_path, (attached, path), choice),
    ensures
        (forall|j: int|
            0 <= j < attached->Ok_0@.len() ==> (#[trigger] attached->Ok_0@[j]).path@ != path@)
            <==> choice matches Err(DeviceErrorOf::NothingAt { path: missing }),
        choice matches Err(DeviceErrorOf::NothingAt { path: missing }) ==> missing@ == path@,
        0 <= i < attached->Ok_0@.len() && attached->Ok_0@[i].path@ == path@ && (forall|j: int|
            0 <= j < i ==> (#[trigger] attached->Ok_0@[j]).path@ != path@) ==> {
            let entry = attached->Ok_0@[i];
            if !is_supported(entry) {
                &&& choice matches Err(
                    DeviceErrorOf::Unsupported { path: refused, vendor_id, product_id },
                )
                &&& refused@ == path@
                &&& vendor_id == entry.vendor_id
                &&& product_id == entry.product_id
            } else if path@.contains('\0') {
                &&& choice matches Err(DeviceErrorOf::NullInRequestedPath { path: refused })
                &&& refused@ == path@
            } else {
                &&& choice matches Ok(target)
                &&& target.path@ == path@
                &&& enumerates_as(entry, target.model)
                &&& target.requested
            }
        },
{
    let entries = attached->Ok_0@;
    if forall|j: int| 0 <= j < entries.len() ==> (#[trigger] entries[j]).path@ != path@ {
        assert forall|j: int| !#[trigger] first_at(entries, path@, j) by {}
    } else {
        let j = choose|j: int| 0 <= j < entries.len() && (#[trigger] entries[j]).path@ == path@;
        let f = lemma_first_there(entries, path@, j);
        lemma_model_by_ids(entries[f]);
    }
    if 0 <= i < entries.len() && entries[i].path@ == path@ && (forall|j: int|
        0 <= j < i ==> (#[trigger] entries[j]).path@ != path@) {
        assert(first_at(entries, path@, i));
        lemma_model_by_ids(entries[i]);
    }
}

/// Where an entry is at a path, there is a first one.
proof fn lemma_first_there(entries: Seq<HidEntry>, path: Seq<char>, i: int) -> (f: int)
    requires
        0 <= i < entries.len(),
        entries[i].path@ == path,
    ensures
        first_at(entries, path, f),
    decreases i,
{
    if exists|j: int| 0 <= j < i && (#[trigger] entries[j]).path@ == path {
        let j = choose|j: int| 0 <= j < i && (#[trigger] entries[j]).path@ == path;
        lemma_first_there(entries, path, j)
    } else {
        i
    }
}

} // verus!
