use vstd::prelude::*;
use crate::mode::DisplayMode;
use crate::wide::{wide_string_to_string, wide_text};

verus! {

/// State flag: the device is part of the desktop (`DISPLAY_DEVICE_ATTACHED_TO_DESKTOP`).
pub const DISPLAY_DEVICE_ATTACHED_TO_DESKTOP: u32 = 0x0000_0001;

/// State flag: the device is the primary display (`DISPLAY_DEVICE_PRIMARY_DEVICE`).
pub const DISPLAY_DEVICE_PRIMARY_DEVICE: u32 = 0x0000_0004;

/// A display-device record as the system reports it: NUL-terminated
/// wide-character buffers and a state-flags bitmask.
#[derive(Debug, Clone)]
pub struct DisplayDevice {
    pub device_name: Vec<u16>,
    pub device_string: Vec<u16>,
    pub state_flags: u32,
}

/// A display-device record decoded once: host strings and named flags.
#[derive(Debug, Clone)]
pub struct DeviceEntry {
    pub device_name: String,
    pub device_string: String,
    pub attached: bool,
    pub primary: bool,
}

pub struct DeviceView {
    pub device_name: Seq<char>,
    pub device_string: Seq<char>,
    pub attached: bool,
    pub primary: bool,
}

impl View for DeviceEntry {
    type V = DeviceView;

    open spec fn view(&self) -> DeviceView {
        DeviceView {
            device_name: self.device_name@,
            device_string: self.device_string@,
            attached: self.attached,
            primary: self.primary,
        }
    }
}

/// One display device attached to the desktop, with the mode active when it
/// was enumerated.
#[derive(Debug, Clone)]
pub struct MonitorInfo {
    pub device_name: String,
    pub device_string: String,
    pub current_width: u32,
    pub current_height: u32,
    pub current_frequency: u32,
    pub is_primary: bool,
}

pub struct MonitorView {
    pub device_name: Seq<char>,
    pub device_string: Seq<char>,
    pub current_width: u32,
    pub current_height: u32,
    pub current_frequency: u32,
    pub is_primary: bool,
}

impl View for MonitorInfo {
    type V = MonitorView;

    open spec fn view(&self) -> MonitorView {
        MonitorView {
            device_name: self.device_name@,
            device_string: self.device_string@,
            current_width: self.current_width,
            current_height: self.current_height,
            current_frequency: self.current_frequency,
            is_primary: self.is_primary,
        }
    }
}

/// Why enumeration produced no monitor list.
#[derive(Debug, Clone, Copy, PartialEq, Eq, Structural)]
pub enum EnumerationError {
    /// No attached device yielded a descriptor.
    NoMonitorsFound,
}

/// What a raw device record decodes to.
pub open spec fn decoded(d: DisplayDevice) -> DeviceView {
    DeviceView {
        device_name: wide_text(d.device_name@),
        device_string: wide_text(d.device_string@),
        attached: d.state_flags & DISPLAY_DEVICE_ATTACHED_TO_DESKTOP != 0,
        primary: d.state_flags & DISPLAY_DEVICE_PRIMARY_DEVICE != 0,
    }
}

/// Decodes a raw device record.
pub fn decode_device(d: &DisplayDevice) -> (r: DeviceEntry)
    ensures
        r@ == decoded(*d),
{
    DeviceEntry {
        device_name: wide_string_to_string(d.device_name.as_slice()),
        device_string: wide_string_to_string(d.device_string.as_slice()),
        attached: d.state_flags & DISPLAY_DEVICE_ATTACHED_TO_DESKTOP != 0,
        primary: d.state_flags & DISPLAY_DEVICE_PRIMARY_DEVICE != 0,
    }
}

/// The descriptor of a device whose current mode is `mode`.
pub open spec fn describe(d: DeviceView, mode: DisplayMode) -> MonitorView {
    MonitorView {
        device_name: d.device_name,
        device_string: d.device_string,
        current_width: mode.width,
        current_height: mode.height,
        current_frequency: mode.frequency,
        is_primary: d.primary,
    }
}

/// A device seen by a scan, with its current mode where that was read.
pub type Probe = (DeviceView, Option<DisplayMode>);

/// The descriptors that a scan which saw `probes`, in index order, yields:
/// one for each attached device whose current mode was read.
pub open spec fn descriptors(probes: Seq<Probe>) -> Seq<MonitorView>
    decreases probes.len(),
{
    if probes.len() == 0 {
        Seq::empty()
    } else {
        let prev = descriptors(probes.drop_last());
        let (d, mode) = probes.last();
        if d.attached && mode is Some {
            prev.push(describe(d, mode.unwrap()))
        } else {
            prev
        }
    }
}

/// What a scan asks of the system next.
#[derive(Debug, Clone)]
pub enum ScanAction {
    /// Report the display device at this index, or that there is none.
    QueryDevice(u32),
    /// Report the current mode of the device of this name, or that it could
    /// not be read.
    QueryCurrentMode(String),
    /// The scan is over.
    Finished,
}

pub struct ScanView {
    /// The devices seen so far, in index order.
    pub probes: Seq<Probe>,
    pub next_index: u32,
    /// An attached device whose current mode is awaited.
    pub pending: Option<DeviceView>,
    pub finished: bool,
}

/// Moves a scan past the device at its current index.
pub open spec fn advanced(s: ScanView) -> ScanView {
    if s.next_index == u32::MAX {
        ScanView { finished: true, ..s }
    } else {
        ScanView { next_index: (s.next_index + 1) as u32, ..s }
    }
}

/// The scan after the system reported the device at its current index.
pub open spec fn after_device(s: ScanView, device: Option<DisplayDevice>) -> ScanView {
    if s.finished || s.pending is Some {
        s
    } else {
        match device {
            None => ScanView { finished: true, ..s },
            Some(d) => {
                let v = decoded(d);
                if v.attached {
                    ScanView { pending: Some(v), ..s }
                } else {
                    advanced(ScanView { probes: s.probes.push((v, None)), ..s })
                }
            },
        }
    }
}

/// The scan after the system reported the current mode of its pending device.
pub open spec fn after_mode(s: ScanView, mode: Option<DisplayMode>) -> ScanView {
    match s.pending {
        Some(v) if !s.finished => advanced(
            ScanView { probes: s.probes.push((v, mode)), pending: None, ..s },
        ),
        _ => s,
    }
}

/// An enumeration of the display devices, index by index from 0 until the
/// system reports no device at an index.
pub struct MonitorScan {
    next_index: u32,
    pending: Option<DeviceEntry>,
    finished: bool,
    found: Vec<MonitorInfo>,
    probes: Ghost<Seq<Probe>>,
}

impl View for MonitorScan {
    type V = ScanView;

    closed spec fn view(&self) -> ScanView {
        ScanView {
            probes: self.probes@,
            next_index: self.next_index,
            pending: match self.pending {
                Some(e) => Some(e@),
                None => None,
            },
            finished: self.finished,
        }
    }
}

pub open spec fn monitor_views(v: Seq<MonitorInfo>) -> Seq<MonitorView> {
    v.map_values(|m: MonitorInfo| m@)
}

impl MonitorScan {
    pub closed spec fn wf(&self) -> bool {
        &&& monitor_views(self.found@) == descriptors(self.probes@)
        &&& (self.pending matches Some(e) ==> e.attached && !self.finished)
    }

    /// Starts a scan at device index 0.
    pub fn new() -> (r: Self)
        ensures
            r.wf(),
            r@ == (ScanView { probes: Seq::empty(), next_index: 0, pending: None, finished: false }),
    {
        let r = MonitorScan {
            next_index: 0,
            pending: None,
            finished: false,
            found: Vec::new(),
            probes: Ghost(Seq::empty()),
        };
        assert(monitor_views(r.found@) =~= descriptors(r.probes@));
        r
    }

    /// The query that the scan waits on.
    pub fn next_action(&self) -> (r: ScanAction)
        ensures
            self@.finished ==> r is Finished,
            !self@.finished ==> match self@.pending {
                Some(v) => r matches ScanAction::QueryCurrentMode(name) && name@ == v.device_name,
                None => r == ScanAction::QueryDevice(self@.next_index),
            },
    {
        if self.finished {
            ScanAction::Finished
        } else {
            match &self.pending {
                Some(e) => ScanAction::QueryCurrentMode(e.device_name.clone()),
                None => ScanAction::QueryDevice(self.next_index),
            }
        }
    }

    /// Whether the scan is over.
    pub fn is_finished(&self) -> (r: bool)
        ensures
            r == self@.finished,
    {
        self.finished
    }

    fn advance(&mut self)
        ensures
            final(self)@ == advanced(old(self)@),
            final(self).found == old(self).found,
            final(self).pending == old(self).pending,
    {
        if self.next_index == u32::MAX {
            self.finished = true;
        } else {
            self.next_index = self.next_index + 1;
        }
    }

    /// Takes in the device record at the current index, or `None` where the
    /// system reports no device there. Ignored unless a device is awaited.
    pub fn device_reported(&mut self, device: Option<DisplayDevice>)
        requires
            old(self).wf(),
        ensures
            final(self).wf(),
            final(self)@ == after_device(old(self)@, device),
    {
        if self.finished || self.pending.is_some() {
            return;
        }
        match device {
            None => {
                self.finished = true;
            },
            Some(d) => {
                let entry = decode_device(&d);
                if entry.attached {
                    self.pending = Some(entry);
                } else {
                    let ghost probe: Probe = (entry@, None);
                    self.probes = Ghost(self.probes@.push(probe));
                    assert(self.probes@.drop_last() =~= old(self).probes@);
                    self.advance();
                }
            },
        }
    }

    /// Takes in the current mode of the awaited device, or `None` where it
    /// could not be read. Ignored unless a mode is awaited.
    pub fn mode_reported(&mut self, mode: Option<DisplayMode>)
        requires
            old(self).wf(),
        ensures
            final(self).wf(),
            final(self)@ == after_mode(old(self)@, mode),
    {
        if self.finished {
            return;
        }
        let pending = self.pending.take();
        match pending {
            None => {},
            Some(entry) => {
                let ghost probe: Probe = (entry@, mode);
                if let Some(m) = mode {
                    let info = MonitorInfo {
                        device_name: entry.device_name,
                        device_string: entry.device_string,
                        current_width: m.width,
                        current_height: m.height,
                        current_frequency: m.frequency,
                        is_primary: entry.primary,
                    };
                    self.found.push(info);
                }
                self.probes = Ghost(self.probes@.push(probe));
                assert(self.probes@.drop_last() =~= old(self).probes@);
                assert(monitor_views(self.found@) =~= descriptors(self.probes@));
                self.advance();
            },
        }
    }

    /// The descriptors found, in index order; `NoMonitorsFound` where there
    /// are none.
    pub fn into_result(self) -> (r: Result<Vec<MonitorInfo>, EnumerationError>)
        requires
            self.wf(),
        ensures
            r is Err <==> descriptors(self@.probes).len() == 0,
            r matches Err(e) ==> e == EnumerationError::NoMonitorsFound,
            r matches Ok(v) ==> monitor_views(v@) == descriptors(self@.probes),
    {
        if self.found.len() == 0 {
            Err(EnumerationError::NoMonitorsFound)
        } else {
            Ok(self.found)
        }
    }
}

/// A device of the system's list, with the current mode it reports.
pub type ListedDevice = (DisplayDevice, Option<DisplayMode>);

/// What a scan learns of a listed device: its mode is asked for only where
/// the device is attached.
pub open spec fn probe_of(entry: ListedDevice) -> Probe {
    let v = decoded(entry.0);
    (v, if v.attached { entry.1 } else { None })
}

/// What a scan learns of each device of a list, in index order.
pub open spec fn listed_probes(devices: Seq<ListedDevice>) -> Seq<Probe> {
    devices.map_values(|e: ListedDevice| probe_of(e))
}

/// The scan after the system answered its current query from `devices`,
/// which it lists by index.
pub open spec fn answer(s: ScanView, devices: Seq<ListedDevice>) -> ScanView {
    if s.finished {
        s
    } else if s.pending is Some {
        after_mode(s, devices[s.next_index as int].1)
    } else if s.next_index < devices.len() {
        after_device(s, Some(devices[s.next_index as int].0))
    } else {
        after_device(s, None)
    }
}

/// The scan after `n` queries answered from `devices`.
pub open spec fn answered(s: ScanView, devices: Seq<ListedDevice>, n: nat) -> ScanView
    decreases n,
{
    if n == 0 {
        s
    } else {
        answered(answer(s, devices), devices, (n - 1) as nat)
    }
}

proof fn lemma_finished_scan_stays(s: ScanView, devices: Seq<ListedDevice>, n: nat)
    requires
        s.finished,
    ensures
        answered(s, devices, n) == s,
    decreases n,
{
    if n > 0 {
        lemma_finished_scan_stays(s, devices, (n - 1) as nat);
    }
}

proof fn lemma_scan_from(devices: Seq<ListedDevice>, k: nat, n: nat)
    requires
        devices.len() < u32::MAX,
        k <= devices.len(),
        n >= 2 * (devices.len() - k) + 1,
    ensures
        answered(
            ScanView {
                probes: listed_probes(devices.take(k as int)),
                next_index: k as u32,
                pending: None,
                finished: false,
            },
            devices,
            n,
        ) == (ScanView {
            probes: listed_probes(devices),
            next_index: devices.len() as u32,
            pending: None,
            finished: true,
        }),
    decreases devices.len() - k,
{
    let s = ScanView {
        probes: listed_probes(devices.take(k as int)),
        next_index: k as u32,
        pending: None,
        finished: false,
    };
    if k == devices.len() {
        assert(devices.take(k as int) =~= devices);
        lemma_finished_scan_stays(answer(s, devices), devices, (n - 1) as nat);
    } else {
        let e = devices[k as int];
        let pushed = listed_probes(devices.take(k as int)).push(probe_of(e));
        assert(pushed =~= listed_probes(devices.take(k + 1int)));
        let t = ScanView {
            probes: pushed,
            next_index: (k + 1) as u32,
            pending: None,
            finished: false,
        };
        lemma_scan_from(devices, k + 1, (n - 2) as nat);
        if decoded(e.0).attached {
            assert(answer(answer(s, devices), devices) == t);
            assert(answered(s, devices, n) == answered(answer(s, devices), devices, (n - 1) as nat));
            assert(answered(answer(s, devices), devices, (n - 1) as nat) == answered(t, devices, (n - 2) as nat));
        } else {
            lemma_scan_from(devices, k + 1, (n - 1) as nat);
            assert(answer(s, devices) == t);
        }
    }
}

/// A scan whose queries are answered from one device list, given enough
/// answers, ends having seen exactly that list's devices in index order. Its
/// descriptors depend on the list alone: scanning an unchanged list again
/// yields descriptors with identical fields.
pub proof fn lemma_scan_sees_device_list(devices: Seq<ListedDevice>, n: nat)
    requires
        devices.len() < u32::MAX,
        n >= 2 * devices.len() + 1,
    ensures
        answered(
            ScanView { probes: Seq::empty(), next_index: 0, pending: None, finished: false },
            devices,
            n,
        ).finished,
        answered(
            ScanView { probes: Seq::empty(), next_index: 0, pending: None, finished: false },
            devices,
            n,
        ).probes == listed_probes(devices),
{
    assert(listed_probes(devices.take(0)) =~= Seq::<Probe>::empty());
    lemma_scan_from(devices, 0, n);
}

/// `m` describes a device of the list that carries the attached-to-desktop
/// flag, with the current mode reported for it.
pub open spec fn from_attached_device(devices: Seq<ListedDevice>, m: MonitorView) -> bool {
    exists|j: int|
        0 <= j < devices.len()
        && (#[trigger] devices[j]).0.state_flags & DISPLAY_DEVICE_ATTACHED_TO_DESKTOP != 0
        && devices[j].1 is Some
        && m == describe(decoded(devices[j].0), devices[j].1.unwrap())
}

/// No descriptor that a scan of a device list yields stands for a device
/// without the attached-to-desktop flag.
pub proof fn lemma_no_detached_device(devices: Seq<ListedDevice>)
    ensures
        forall|i: int| 0 <= i < descriptors(listed_probes(devices)).len()
            ==> from_attached_device(devices, #[trigger] descriptors(listed_probes(devices))[i]),
{
    let probes = listed_probes(devices);
    lemma_only_attached_devices(probes);
    assert forall|i: int| 0 <= i < descriptors(probes).len()
        implies from_attached_device(devices, #[trigger] descriptors(probes)[i]) by {
        let j = choose|j: int| 0 <= j < probes.len() && probes[j].0.attached && probes[j].1 is Some
            && #[trigger] descriptors(probes)[i] == describe(probes[j].0, probes[j].1.unwrap());
        assert(probes[j] == probe_of(devices[j]));
    }
}

/// How many of the descriptors are marked primary.
pub open spec fn primary_monitor_count(s: Seq<MonitorView>) -> nat
    decreases s.len(),
{
    if s.len() == 0 {
        0
    } else {
        primary_monitor_count(s.drop_last()) + if s.last().is_primary { 1nat } else { 0nat }
    }
}

/// How many of the devices seen are flagged primary.
pub open spec fn primary_device_count(probes: Seq<Probe>) -> nat
    decreases probes.len(),
{
    if probes.len() == 0 {
        0
    } else {
        primary_device_count(probes.drop_last()) + if probes.last().0.primary { 1nat } else { 0nat }
    }
}

/// Every descriptor stands for a device that was attached to the desktop and
/// whose current mode was read, and carries that device's fields and mode.
pub proof fn lemma_only_attached_devices(probes: Seq<Probe>)
    ensures
        forall|i: int| 0 <= i < descriptors(probes).len() ==> exists|j: int|
            0 <= j < probes.len() && probes[j].0.attached && probes[j].1 is Some
                && #[trigger] descriptors(probes)[i] == describe(probes[j].0, probes[j].1.unwrap()),
    decreases probes.len(),
{
    if probes.len() > 0 {
        let prev = probes.drop_last();
        lemma_only_attached_devices(prev);
        let d = descriptors(probes);
        assert forall|i: int| 0 <= i < d.len() implies exists|j: int|
            0 <= j < probes.len() && probes[j].0.attached && probes[j].1 is Some
                && #[trigger] d[i] == describe(probes[j].0, probes[j].1.unwrap()) by {
            if i < descriptors(prev).len() {
                let j = choose|j: int|
                    0 <= j < prev.len() && prev[j].0.attached && prev[j].1 is Some
                        && #[trigger] descriptors(prev)[i] == describe(prev[j].0, prev[j].1.unwrap());
                assert(probes[j] == prev[j]);
            } else {
                let j = probes.len() - 1;
                assert(probes[j] == probes.last());
            }
        }
    }
}

/// A scan marks no device primary that the system did not: its descriptors
/// hold no more primary entries than the devices it saw. Where the system
/// flags at most one device primary, at most one descriptor is primary.
pub proof fn lemma_no_added_primary(probes: Seq<Probe>)
    ensures
        primary_monitor_count(descriptors(probes)) <= primary_device_count(probes),
    decreases probes.len(),
{
    if probes.len() > 0 {
        let prev = probes.drop_last();
        lemma_no_added_primary(prev);
        let (d, mode) = probes.last();
        if d.attached && mode is Some {
            let s = descriptors(prev).push(describe(d, mode.unwrap()));
            assert(s.drop_last() =~= descriptors(prev));
        }
    }
}

/// Descriptors come in the order in which their devices were seen, and what
/// a device contributes depends on that device alone: the devices of `a`
/// followed by those of `b` yield the descriptors of `a` followed by those of
/// `b`. A scan that sees the same devices again yields the same descriptors.
pub proof fn lemma_descriptors_in_scan_order(a: Seq<Probe>, b: Seq<Probe>)
    ensures
        descriptors(a + b) == descriptors(a) + descriptors(b),
    decreases b.len(),
{
    if b.len() == 0 {
        assert(a + b =~= a);
        assert(descriptors(a) + descriptors(b) =~= descriptors(a));
    } else {
        lemma_descriptors_in_scan_order(a, b.drop_last());
        assert((a + b).drop_last() =~= a + b.drop_last());
        assert((a + b).last() == b.last());
        let (d, mode) = b.last();
        if d.attached && mode is Some {
            let x = describe(d, mode.unwrap());
            assert((descriptors(a) + descriptors(b.drop_last())).push(x)
                =~= descriptors(a) + descriptors(b.drop_last()).push(x));
        }
    }
}

} // verus!
