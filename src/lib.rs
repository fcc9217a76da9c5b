//! Display-configuration core: decoding of display-device records, the
//! monitor enumeration scan, and the test-then-commit mode change protocol.
//!
//! Every operation that talks to the operating system is left to the caller:
//! the scan and the mode change are state machines that say which query to
//! make next and take its answer back as plain values.
pub mod mode;
pub mod monitor;
pub mod policy;
pub mod wide;

pub use mode::{ChangeError, ChangeEvent, ChangeOutcome, ChangePhase, DisplayMode, ModeChange, ResolutionChange};
pub use monitor::{DisplayDevice, EnumerationError, MonitorInfo, MonitorScan, ScanAction};
pub use policy::{select_monitor, toggle_change, toggle_target, SelectionError};
pub use wide::wide_string_to_string;
