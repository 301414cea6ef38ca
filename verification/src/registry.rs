//! Device registry: which of the devices found on a scan are keyboards, how
//! they are presented, and what a scan does to the current selection.

use vstd::prelude::*;
use vstd::string::*;

verus! {

/// Key code of the letter key that a device must support to count as a
/// keyboard.
pub const BASELINE_KEY_CODE: u16 = 30;

/// Seconds between two scans for devices.
pub const REFRESH_INTERVAL_SECS: u64 = 2;

/// What the input subsystem reports of one device: the path that identifies
/// it, its name if it has one, and the key codes it supports if it has keys.
pub struct FoundDevice {
    pub path: String,
    pub name: Option<String>,
    pub keys: Option<Vec<u16>>,
}

/// A found device as plain values.
pub struct FoundDeviceView {
    pub path: Seq<char>,
    pub name: Option<Seq<char>>,
    pub keys: Option<Seq<u16>>,
}

impl View for FoundDevice {
    type V = FoundDeviceView;

    open spec fn view(&self) -> FoundDeviceView {
        FoundDeviceView {
            path: self.path@,
            name: text_of(self.name),
            keys: codes_of(self.keys),
        }
    }
}

/// One entry of the registry: the path that identifies the device, the name
/// shown for it, and whether it supports the baseline letter key.
pub struct DeviceDescriptor {
    pub path: String,
    pub name: String,
    pub keyboard: bool,
}

/// A descriptor as plain values.
pub struct DescriptorView {
    pub path: Seq<char>,
    pub name: Seq<char>,
    pub keyboard: bool,
}

impl View for DeviceDescriptor {
    type V = DescriptorView;

    open spec fn view(&self) -> DescriptorView {
        DescriptorView { path: self.path@, name: self.name@, keyboard: self.keyboard }
    }
}

/// The descriptors of a list as plain values, in the same order.
pub open spec fn descriptor_views(devices: Seq<DeviceDescriptor>) -> Seq<DescriptorView> {
    devices.map_values(|d: DeviceDescriptor| d@)
}

/// The found devices of a list as plain values, in the same order.
pub open spec fn found_views(found: Seq<FoundDevice>) -> Seq<FoundDeviceView> {
    found.map_values(|d: FoundDevice| d@)
}

/// An optional text as plain values.
pub open spec fn text_of(text: Option<String>) -> Option<Seq<char>> {
    match text {
        Some(t) => Some(t@),
        None => None,
    }
}

/// Optional key codes as plain values.
pub open spec fn codes_of(keys: Option<Vec<u16>>) -> Option<Seq<u16>> {
    match keys {
        Some(k) => Some(k@),
        None => None,
    }
}

/// The device reports keys and the baseline letter key is among them.
pub open spec fn supports_baseline(keys: Option<Seq<u16>>) -> bool {
    match keys {
        Some(k) => k.contains(BASELINE_KEY_CODE),
        None => false,
    }
}

/// The name shown for a device: its own name, or `Unknown` if it has none,
/// followed by its path in parentheses.
pub open spec fn display_name(name: Option<Seq<char>>, path: Seq<char>) -> Seq<char> {
    let base = match name {
        Some(n) => n,
        None => "Unknown"@,
    };
    base + " ("@ + path + ")"@
}

/// The descriptor made for a found device.
pub open spec fn describe_spec(found: FoundDeviceView) -> DescriptorView {
    DescriptorView {
        path: found.path,
        name: display_name(found.name, found.path),
        keyboard: supports_baseline(found.keys),
    }
}

/// The result of a scan: the descriptors of the keyboards among the found
/// devices, in the order in which they were found.
pub open spec fn scan_spec(found: Seq<FoundDeviceView>) -> Seq<DescriptorView>
    decreases found.len(),
{
    if found.len() == 0 {
        Seq::empty()
    } else if supports_baseline(found.last().keys) {
        scan_spec(found.drop_last()).push(describe_spec(found.last()))
    } else {
        scan_spec(found.drop_last())
    }
}

/// The list holds a device with this path.
pub open spec fn lists(devices: Seq<DescriptorView>, path: Seq<char>) -> bool {
    exists|i: int| 0 <= i < devices.len() && #[trigger] devices[i].path == path
}

/// The selection after a scan.  A selected device that is still listed stays
/// selected; one that is gone is deselected.  With nothing selected the first
/// listed device is selected, if there is one.
pub open spec fn next_selection(devices: Seq<DescriptorView>, selected: Option<Seq<char>>) -> Option<
    Seq<char>,
> {
    match selected {
        Some(path) => if lists(devices, path) {
            Some(path)
        } else {
            None
        },
        None => if devices.len() > 0 {
            Some(devices[0].path)
        } else {
            None
        },
    }
}

/// Reads `evdev::Key::KEY_A` and returns its code, which is 30.
#[verifier::external_body]
fn baseline_key_code() -> (code: u16)
    ensures
        code == 30,
{
    evdev::Key::KEY_A.code()
}

/// Whether a device with these supported keys counts as a keyboard.
pub fn is_keyboard(keys: &Option<Vec<u16>>) -> (yes: bool)
    ensures
        yes == supports_baseline(codes_of(*keys)),
{
    match keys {
        Some(codes) => {
            let baseline = baseline_key_code();
            let mut i: usize = 0;
            while i < codes.len()
                invariant
                    i <= codes.len(),
                    baseline == BASELINE_KEY_CODE,
                    codes_of(*keys) == Some(codes@),
                    forall|j: int| 0 <= j < i ==> codes@[j] != BASELINE_KEY_CODE,
                decreases codes.len() - i,
            {
                if codes[i] == baseline {
                    assert(codes@[i as int] == BASELINE_KEY_CODE);
                    return true;
                }
                i += 1;
            }
            false
        },
        None => false,
    }
}

/// The descriptor of a found device.
pub fn describe(found: &FoundDevice) -> (descriptor: DeviceDescriptor)
    ensures
        descriptor@ == describe_spec(found@),
{
    let mut name = match &found.name {
        Some(n) => n.clone(),
        None => String::from_str("Unknown"),
    };
    name.append(" (");
    name.append(found.path.as_str());
    name.append(")");
    DeviceDescriptor { path: found.path.clone(), name, keyboard: is_keyboard(&found.keys) }
}

/// Builds the registry's list from what a scan found: the keyboards, in the
/// order found.  An empty list is an ordinary result.
pub fn scan_devices(found: &Vec<FoundDevice>) -> (devices: Vec<DeviceDescriptor>)
    ensures
        descriptor_views(devices@) == scan_spec(found_views(found@)),
{
    let mut devices: Vec<DeviceDescriptor> = Vec::new();
    let mut i: usize = 0;
    assert(found_views(found@).take(0) =~= Seq::<FoundDeviceView>::empty());
    while i < found.len()
        invariant
            i <= found.len(),
            descriptor_views(devices@) =~= scan_spec(found_views(found@).take(i as int)),
        decreases found.len() - i,
    {
        let ghost before = found_views(found@).take(i as int);
        let ghost upto = found_views(found@).take(i + 1);
        assert(upto.drop_last() =~= before);
        assert(upto.last() == found@[i as int]@);
        let descriptor = describe(&found[i]);
        if descriptor.keyboard {
            let ghost old_views = descriptor_views(devices@);
            devices.push(descriptor);
            assert(descriptor_views(devices@) =~= old_views.push(descriptor@));
        }
        i += 1;
    }
    assert(found_views(found@).take(found.len() as int) =~= found_views(found@));
    devices
}

/// Whether the list holds a device with this path.
pub fn is_listed(devices: &Vec<DeviceDescriptor>, path: &String) -> (yes: bool)
    ensures
        yes == lists(descriptor_views(devices@), path@),
{
    let mut i: usize = 0;
    while i < devices.len()
        invariant
            i <= devices.len(),
            forall|j: int| 0 <= j < i ==> (#[trigger] descriptor_views(devices@)[j]).path != path@,
        decreases devices.len() - i,
    {
        if devices[i].path == *path {
            assert(descriptor_views(devices@)[i as int].path == path@);
            return true;
        }
        i += 1;
    }
    false
}

/// The selection after a scan that produced `devices`.
pub fn reconcile_selection(devices: &Vec<DeviceDescriptor>, selected: Option<String>) -> (next:
    Option<String>)
    ensures
        text_of(next) == next_selection(descriptor_views(devices@), text_of(selected)),
{
    match selected {
        Some(path) => {
            if is_listed(devices, &path) {
                Some(path)
            } else {
                None
            }
        },
        None => {
            if devices.len() > 0 {
                Some(devices[0].path.clone())
            } else {
                None
            }
        },
    }
}

/// A scan keeps exactly the keyboards: every listed device supports the
/// baseline key, and no more devices are listed than were found.
pub proof fn lemma_scan_keeps_keyboards(found: Seq<FoundDeviceView>)
    ensures
        scan_spec(found).len() <= found.len(),
        forall|i: int| 0 <= i < scan_spec(found).len() ==> (#[trigger] scan_spec(found)[i]).keyboard,
        forall|i: int|
            0 <= i < found.len() && supports_baseline(found[i].keys) ==> lists(
                scan_spec(found),
                (#[trigger] found[i]).path,
            ),
    decreases found.len(),
{
    if found.len() > 0 {
        let rest = found.drop_last();
        lemma_scan_keeps_keyboards(rest);
        assert forall|i: int|
            0 <= i < found.len() && supports_baseline(found[i].keys) implies lists(
            scan_spec(found),
            (#[trigger] found[i]).path,
        ) by {
            if i < rest.len() {
                assert(rest[i] == found[i]);
                assert(lists(scan_spec(rest), rest[i].path));
                let k = choose|k: int|
                    0 <= k < scan_spec(rest).len() && #[trigger] scan_spec(rest)[k].path
                        == found[i].path;
                assert(scan_spec(found)[k].path == found[i].path);
            } else {
                let k = scan_spec(found).len() - 1;
                assert(scan_spec(found)[k].path == found[i].path);
            }
        }
    }
}

/// What a scan does to the selection: a selected device that is no longer
/// listed is deselected; with nothing selected and a device listed, the first
/// one is selected; a selected device that is still listed stays selected.
/// Whatever is selected afterwards is listed.
pub proof fn lemma_selection_policy(devices: Seq<DescriptorView>, selected: Option<Seq<char>>)
    ensures
        selected is Some && !lists(devices, selected->0) ==> next_selection(devices, selected)
            is None,
        selected is None && devices.len() > 0 ==> next_selection(devices, selected) == Some(
            devices[0].path,
        ),
        selected is None && devices.len() == 0 ==> next_selection(devices, selected) is None,
        selected is Some && lists(devices, selected->0) ==> next_selection(devices, selected)
            == selected,
        next_selection(devices, selected) is Some ==> lists(
            devices,
            next_selection(devices, selected)->0,
        ),
{
    if selected is None && devices.len() > 0 {
        assert(devices[0].path == devices[0].path);
    }
}

} // verus!
