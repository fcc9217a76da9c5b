use flip::mode::{interpret_commit, overlay, DISP_CHANGE_BADMODE, DISP_CHANGE_RESTART, DISP_CHANGE_SUCCESSFUL};
use flip::monitor::decode_device;
use flip::{
    select_monitor, toggle_change, toggle_target, wide_string_to_string, ChangeError, ChangeEvent,
    ChangeOutcome, ChangePhase, DisplayDevice, DisplayMode, EnumerationError, ModeChange, MonitorInfo,
    MonitorScan, ResolutionChange, ScanAction, SelectionError,
};

const ATTACHED: u32 = 0x1;
const PRIMARY: u32 = 0x4;

fn wide(s: &str, size: usize) -> Vec<u16> {
    let mut v: Vec<u16> = s.encode_utf16().collect();
    v.resize(size, 0);
    v
}

fn device(name: &str, description: &str, flags: u32) -> DisplayDevice {
    DisplayDevice { device_name: wide(name, 32), device_string: wide(description, 128), state_flags: flags }
}

fn mode(width: u32, height: u32, frequency: u32) -> DisplayMode {
    DisplayMode {
        width,
        height,
        frequency,
        bits_per_pel: 32,
        position_x: -1920,
        position_y: 0,
        orientation: 0,
        display_flags: 0,
        fields: 0x005C_00A0,
    }
}

/// A fake system: devices by index, each with the current mode it reports.
struct FakeSystem {
    devices: Vec<(DisplayDevice, Option<DisplayMode>)>,
    test_code: i32,
    commit_code: i32,
    calls: Vec<String>,
}

impl FakeSystem {
    fn new(devices: Vec<(DisplayDevice, Option<DisplayMode>)>) -> Self {
        FakeSystem { devices, test_code: DISP_CHANGE_SUCCESSFUL, commit_code: DISP_CHANGE_SUCCESSFUL, calls: Vec::new() }
    }

    fn current_mode(&self, name: &str) -> Option<DisplayMode> {
        self.devices
            .iter()
            .find(|(d, _)| wide_string_to_string(&d.device_name) == name)
            .and_then(|(_, m)| *m)
    }

    fn enumerate(&mut self) -> Result<Vec<MonitorInfo>, EnumerationError> {
        let mut scan = MonitorScan::new();
        loop {
            match scan.next_action() {
                ScanAction::QueryDevice(i) => {
                    self.calls.push(format!("device {}", i));
                    let d = self.devices.get(i as usize).map(|(d, _)| d.clone());
                    scan.device_reported(d);
                }
                ScanAction::QueryCurrentMode(name) => {
                    self.calls.push(format!("mode {}", name));
                    let m = self.current_mode(&name);
                    scan.mode_reported(m);
                }
                ScanAction::Finished => break,
            }
        }
        scan.into_result()
    }

    /// Runs the change protocol; also returns the record that was tested.
    fn change(&mut self, request: ResolutionChange) -> (Result<ChangeOutcome, ChangeError>, Option<DisplayMode>) {
        let mut change = ModeChange::new(request);
        let mut tested = None;
        while !change.is_finished() {
            let event = match change.phase {
                ChangePhase::AwaitingBaseline => {
                    self.calls.push("baseline".to_string());
                    ChangeEvent::Baseline(self.current_mode(&change.request.device_name))
                }
                ChangePhase::Testing(m) => {
                    self.calls.push("test".to_string());
                    tested = Some(m);
                    ChangeEvent::Tested(self.test_code)
                }
                ChangePhase::Committing(_) => {
                    self.calls.push("commit".to_string());
                    ChangeEvent::Committed(self.commit_code)
                }
                ChangePhase::Finished(_) => unreachable!(),
            };
            change.step(event);
        }
        (change.into_result().unwrap(), tested)
    }
}

fn request(name: &str, width: u32, height: u32, frequency: u32) -> ResolutionChange {
    ResolutionChange { device_name: name.to_string(), width, height, frequency }
}

#[test]
fn one_attached_primary_device_enumerates() {
    let mut os = FakeSystem::new(vec![(device("DISPLAY1", "Generic Monitor", ATTACHED | PRIMARY), Some(mode(1920, 1080, 60)))]);
    let monitors = os.enumerate().unwrap();
    assert_eq!(monitors.len(), 1);
    let m = &monitors[0];
    assert_eq!(m.device_name, "DISPLAY1");
    assert_eq!(m.device_string, "Generic Monitor");
    assert_eq!((m.current_width, m.current_height, m.current_frequency), (1920, 1080, 60));
    assert!(m.is_primary);
    assert_eq!(os.calls, vec!["device 0", "mode DISPLAY1", "device 1"]);
}

#[test]
fn zero_attached_devices_is_no_monitors_found() {
    let mut os = FakeSystem::new(vec![]);
    assert_eq!(os.enumerate().unwrap_err(), EnumerationError::NoMonitorsFound);
    let mut os = FakeSystem::new(vec![(device("DISPLAY1", "Off", 0), Some(mode(1920, 1080, 60)))]);
    assert_eq!(os.enumerate().unwrap_err(), EnumerationError::NoMonitorsFound);
}

#[test]
fn detached_devices_are_skipped_and_never_queried() {
    let mut os = FakeSystem::new(vec![
        (device("DISPLAY1", "Off", PRIMARY), Some(mode(1920, 1080, 60))),
        (device("DISPLAY2", "On", ATTACHED), Some(mode(2560, 1440, 144))),
        (device("DISPLAY3", "Off", 0x2), Some(mode(1280, 720, 60))),
    ]);
    let monitors = os.enumerate().unwrap();
    assert_eq!(monitors.len(), 1);
    assert_eq!(monitors[0].device_name, "DISPLAY2");
    assert!(!monitors[0].is_primary);
    assert_eq!(os.calls, vec!["device 0", "device 1", "mode DISPLAY2", "device 2", "device 3"]);
}

#[test]
fn device_whose_mode_cannot_be_read_is_skipped() {
    let mut os = FakeSystem::new(vec![
        (device("DISPLAY1", "A", ATTACHED | PRIMARY), None),
        (device("DISPLAY2", "B", ATTACHED), Some(mode(3840, 2160, 60))),
    ]);
    let monitors = os.enumerate().unwrap();
    assert_eq!(monitors.len(), 1);
    assert_eq!(monitors[0].device_name, "DISPLAY2");
}

#[test]
fn enumeration_keeps_index_order_and_is_repeatable() {
    let devices = vec![
        (device("DISPLAY1", "A", ATTACHED), Some(mode(1920, 1080, 60))),
        (device("DISPLAY2", "B", ATTACHED | PRIMARY), Some(mode(3840, 2160, 120))),
    ];
    let mut os = FakeSystem::new(devices);
    let first = os.enumerate().unwrap();
    let second = os.enumerate().unwrap();
    let names: Vec<&str> = first.iter().map(|m| m.device_name.as_str()).collect();
    assert_eq!(names, vec!["DISPLAY1", "DISPLAY2"]);
    assert_eq!(first.len(), second.len());
    for (a, b) in first.iter().zip(second.iter()) {
        assert_eq!(a.device_name, b.device_name);
        assert_eq!(a.device_string, b.device_string);
        assert_eq!((a.current_width, a.current_height, a.current_frequency), (b.current_width, b.current_height, b.current_frequency));
        assert_eq!(a.is_primary, b.is_primary);
    }
    assert_eq!(first.iter().filter(|m| m.is_primary).count(), 1);
}

#[test]
fn scan_ignores_answers_out_of_turn() {
    let mut scan = MonitorScan::new();
    scan.mode_reported(Some(mode(1, 1, 1)));
    assert!(matches!(scan.next_action(), ScanAction::QueryDevice(0)));
    scan.device_reported(None);
    assert!(scan.is_finished());
    scan.device_reported(Some(device("DISPLAY1", "A", ATTACHED)));
    assert!(matches!(scan.next_action(), ScanAction::Finished));
    assert_eq!(scan.into_result().unwrap_err(), EnumerationError::NoMonitorsFound);
}

#[test]
fn wide_strings_stop_at_the_terminator() {
    let mut w = wide("DISPLAY1", 32);
    w[10] = 'x' as u16;
    assert_eq!(wide_string_to_string(&w), "DISPLAY1");
    assert_eq!(wide_string_to_string(&[0x0041, 0x0042]), "AB");
    assert_eq!(wide_string_to_string(&[0, 0x0041]), "");
    assert_eq!(wide_string_to_string(&[]), "");
    assert_eq!(wide_string_to_string(&[0x0041, 0xD800, 0x0042, 0]), "A\u{FFFD}B");
}

#[test]
fn decode_names_the_flags() {
    let d = decode_device(&device(r"\\.\DISPLAY1", "Adapter", ATTACHED | PRIMARY | 0x8));
    assert_eq!(d.device_name, r"\\.\DISPLAY1");
    assert_eq!(d.device_string, "Adapter");
    assert!(d.attached && d.primary);
    let d = decode_device(&device("DISPLAY2", "Adapter", 0x2));
    assert!(!d.attached && !d.primary);
}

#[test]
fn overlay_changes_only_the_mode_fields() {
    let base = mode(1920, 1080, 60);
    let r = overlay(&base, &request("DISPLAY1", 3840, 2160, 144));
    assert_eq!((r.width, r.height, r.frequency), (3840, 2160, 144));
    assert_eq!(r.fields, 0x0008_0000 | 0x0010_0000 | 0x0040_0000);
    assert_eq!(r.fields & !0x0058_0000, 0);
    assert_eq!((r.bits_per_pel, r.position_x, r.position_y, r.orientation, r.display_flags), (32, -1920, 0, 0, 0));
}

#[test]
fn rejected_test_is_unsupported_mode() {
    let mut os = FakeSystem::new(vec![(device("DISPLAY1", "A", ATTACHED | PRIMARY), Some(mode(1920, 1080, 60)))]);
    os.test_code = DISP_CHANGE_BADMODE;
    let (result, _) = os.change(request("DISPLAY1", 3840, 2160, 60));
    match result {
        Err(ChangeError::UnsupportedMode { width, height, frequency, device_name, raw_code }) => {
            assert_eq!((width, height, frequency), (3840, 2160, 60));
            assert_eq!(device_name, "DISPLAY1");
            assert_eq!(raw_code, -2);
        }
        other => panic!("unexpected {:?}", other),
    }
    assert_eq!(os.calls, vec!["baseline", "test"]);
}

#[test]
fn failed_test_never_commits() {
    let mut change = ModeChange::new(request("DISPLAY1", 3840, 2160, 60));
    change.step(ChangeEvent::Baseline(Some(mode(1920, 1080, 60))));
    change.step(ChangeEvent::Tested(-1));
    assert!(change.is_finished());
    change.step(ChangeEvent::Committed(DISP_CHANGE_SUCCESSFUL));
    change.step(ChangeEvent::Tested(DISP_CHANGE_SUCCESSFUL));
    match change.into_result() {
        Some(Err(ChangeError::UnsupportedMode { raw_code, .. })) => assert_eq!(raw_code, -1),
        other => panic!("unexpected {:?}", other),
    }
}

#[test]
fn restart_required_at_commit_is_applied_pending_restart() {
    let mut os = FakeSystem::new(vec![(device("DISPLAY1", "A", ATTACHED), Some(mode(1920, 1080, 60)))]);
    os.commit_code = DISP_CHANGE_RESTART;
    let (result, _) = os.change(request("DISPLAY1", 3840, 2160, 60));
    assert_eq!(result.unwrap(), ChangeOutcome::AppliedPendingRestart);
    assert_eq!(os.calls, vec!["baseline", "test", "commit"]);
}

#[test]
fn successful_commit_is_applied() {
    let mut os = FakeSystem::new(vec![(device("DISPLAY1", "A", ATTACHED), Some(mode(1920, 1080, 60)))]);
    let (result, tested) = os.change(request("DISPLAY1", 3840, 2160, 60));
    assert_eq!(result.unwrap(), ChangeOutcome::Applied);
    let tested = tested.unwrap();
    assert_eq!((tested.width, tested.height, tested.frequency, tested.fields), (3840, 2160, 60, 0x0058_0000));
}

#[test]
fn bad_mode_at_commit_is_rejected_at_commit() {
    let mut os = FakeSystem::new(vec![(device("DISPLAY1", "A", ATTACHED), Some(mode(1920, 1080, 60)))]);
    os.commit_code = DISP_CHANGE_BADMODE;
    match os.change(request("DISPLAY1", 3840, 2160, 60)).0 {
        Err(ChangeError::RejectedAtCommit(name)) => assert_eq!(name, "DISPLAY1"),
        other => panic!("unexpected {:?}", other),
    }
}

#[test]
fn other_commit_code_is_unknown_failure() {
    match interpret_commit(&request("DISPLAY1", 800, 600, 60), -5) {
        Err(ChangeError::UnknownFailure { device_name, raw_code }) => {
            assert_eq!(device_name, "DISPLAY1");
            assert_eq!(raw_code, -5);
        }
        other => panic!("unexpected {:?}", other),
    }
}

#[test]
fn unknown_device_is_device_query_failed() {
    let mut os = FakeSystem::new(vec![(device("DISPLAY1", "A", ATTACHED), Some(mode(1920, 1080, 60)))]);
    match os.change(request("DISPLAY9", 3840, 2160, 60)).0 {
        Err(ChangeError::DeviceQueryFailed(name)) => assert_eq!(name, "DISPLAY9"),
        other => panic!("unexpected {:?}", other),
    }
    assert_eq!(os.calls, vec!["baseline"]);
}

#[test]
fn successive_changes_each_pass_the_test() {
    let mut os = FakeSystem::new(vec![(device("DISPLAY1", "A", ATTACHED), Some(mode(1280, 720, 60)))]);
    let (first, tested_first) = os.change(request("DISPLAY1", 1920, 1080, 60));
    os.devices[0].1 = Some(mode(1920, 1080, 60));
    let (second, tested_second) = os.change(request("DISPLAY1", 3840, 2160, 60));
    assert_eq!(first.unwrap(), ChangeOutcome::Applied);
    assert_eq!(second.unwrap(), ChangeOutcome::Applied);
    let a = tested_first.unwrap();
    let b = tested_second.unwrap();
    assert_eq!((a.width, a.height, a.frequency), (1920, 1080, 60));
    assert_eq!((b.width, b.height, b.frequency), (3840, 2160, 60));
    assert_eq!(os.calls, vec!["baseline", "test", "commit", "baseline", "test", "commit"]);
}

fn info(name: &str, width: u32, height: u32, frequency: u32) -> MonitorInfo {
    MonitorInfo {
        device_name: name.to_string(),
        device_string: "Monitor".to_string(),
        current_width: width,
        current_height: height,
        current_frequency: frequency,
        is_primary: false,
    }
}

#[test]
fn toggle_switches_between_1080p_and_4k() {
    let c = toggle_change(&info("DISPLAY1", 1920, 1080, 144)).unwrap();
    assert_eq!((c.device_name.as_str(), c.width, c.height, c.frequency), ("DISPLAY1", 3840, 2160, 144));
    let c = toggle_change(&info("DISPLAY2", 3840, 2160, 60)).unwrap();
    assert_eq!((c.device_name.as_str(), c.width, c.height, c.frequency), ("DISPLAY2", 1920, 1080, 60));
    assert!(toggle_change(&info("DISPLAY3", 2560, 1440, 60)).is_none());
}

#[test]
fn toggle_targets_the_first_matching_monitor() {
    let monitors = vec![info("A", 2560, 1440, 60), info("B", 3840, 2160, 60), info("C", 1920, 1080, 60)];
    assert_eq!(toggle_target(&monitors), Some(1));
    assert_eq!(toggle_target(&vec![info("A", 2560, 1440, 60)]), None);
    assert_eq!(toggle_target(&vec![]), None);
}

#[test]
fn explicit_selection_is_one_based() {
    let monitors = vec![info("A", 2560, 1440, 60), info("B", 3840, 2160, 60)];
    let c = select_monitor(&monitors, 2, 1280, 720, 75).unwrap();
    assert_eq!((c.device_name.as_str(), c.width, c.height, c.frequency), ("B", 1280, 720, 75));
    assert_eq!(select_monitor(&monitors, 0, 1280, 720, 75).unwrap_err(), SelectionError::InvalidMonitorNumber);
    assert_eq!(select_monitor(&monitors, 3, 1280, 720, 75).unwrap_err(), SelectionError::InvalidMonitorNumber);
}
