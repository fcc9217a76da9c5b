use vstd::prelude::*;
use crate::mode::ResolutionChange;
use crate::monitor::{MonitorInfo, MonitorView};

verus! {

/// Why a caller's choice of monitor was refused.
#[derive(Debug, Clone, Copy, PartialEq, Eq, Structural)]
pub enum SelectionError {
    /// The 1-based monitor number names no monitor of the list.
    InvalidMonitorNumber,
}

/// The resolution that the automatic toggle switches a monitor to: 1080p
/// becomes 4K and 4K becomes 1080p; any other resolution is left alone.
pub open spec fn toggled(m: MonitorView) -> Option<(u32, u32)> {
    if m.current_width == 1920 && m.current_height == 1080 {
        Some((3840u32, 2160u32))
    } else if m.current_width == 3840 && m.current_height == 2160 {
        Some((1920u32, 1080u32))
    } else {
        None
    }
}

/// A request for `monitor`'s device with the given mode.
pub fn change_for(monitor: &MonitorInfo, width: u32, height: u32, frequency: u32) -> (r: ResolutionChange)
    ensures
        r.device_name@ == monitor.device_name@,
        r.width == width,
        r.height == height,
        r.frequency == frequency,
{
    ResolutionChange { device_name: monitor.device_name.clone(), width, height, frequency }
}

/// The automatic toggle for one monitor, at its current refresh rate.
pub fn toggle_change(monitor: &MonitorInfo) -> (r: Option<ResolutionChange>)
    ensures
        r is None <==> toggled(monitor@) is None,
        r matches Some(c) ==> {
            &&& c.device_name@ == monitor.device_name@
            &&& (c.width, c.height) == toggled(monitor@).unwrap()
            &&& c.frequency == monitor.current_frequency
        },
{
    if monitor.current_width == 1920 && monitor.current_height == 1080 {
        Some(change_for(monitor, 3840, 2160, monitor.current_frequency))
    } else if monitor.current_width == 3840 && monitor.current_height == 2160 {
        Some(change_for(monitor, 1920, 1080, monitor.current_frequency))
    } else {
        None
    }
}

/// The index of the first monitor that the automatic toggle applies to.
pub fn toggle_target(monitors: &Vec<MonitorInfo>) -> (r: Option<usize>)
    ensures
        r is None <==> forall|i: int| 0 <= i < monitors@.len() ==> toggled(#[trigger] monitors@[i]@) is None,
        r matches Some(i) ==> {
            &&& i < monitors@.len()
            &&& toggled(monitors@[i as int]@) is Some
            &&& forall|k: int| 0 <= k < i ==> toggled(#[trigger] monitors@[k]@) is None
        },
{
    let mut i: usize = 0;
    while i < monitors.len()
        invariant
            i <= monitors@.len(),
            forall|k: int| 0 <= k < i ==> toggled(#[trigger] monitors@[k]@) is None,
        decreases monitors.len() - i,
    {
        let m = &monitors[i];
        if (m.current_width == 1920 && m.current_height == 1080)
            || (m.current_width == 3840 && m.current_height == 2160) {
            return Some(i);
        }
        i = i + 1;
    }
    None
}

/// A request for the monitor that a caller picked by its 1-based number in
/// the list.
pub fn select_monitor(
    monitors: &Vec<MonitorInfo>,
    number: usize,
    width: u32,
    height: u32,
    frequency: u32,
) -> (r: Result<ResolutionChange, SelectionError>)
    ensures
        r is Err <==> number == 0 || number > monitors@.len(),
        r matches Err(e) ==> e == SelectionError::InvalidMonitorNumber,
        r matches Ok(c) ==> {
            &&& c.device_name@ == monitors@[number - 1]@.device_name
            &&& c.width == width && c.height == height && c.frequency == frequency
        },
{
    if number == 0 || number > monitors.len() {
        Err(SelectionError::InvalidMonitorNumber)
    } else {
        Ok(change_for(&monitors[number - 1], width, height, frequency))
    }
}

} // verus!
