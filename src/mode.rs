use vstd::prelude::*;

verus! {

/// Field-selector bit for the horizontal resolution (`DM_PELSWIDTH`).
pub const FIELD_PELS_WIDTH: u32 = 0x0008_0000;

/// Field-selector bit for the vertical resolution (`DM_PELSHEIGHT`).
pub const FIELD_PELS_HEIGHT: u32 = 0x0010_0000;

/// Field-selector bit for the refresh rate (`DM_DISPLAYFREQUENCY`).
pub const FIELD_DISPLAY_FREQUENCY: u32 = 0x0040_0000;

/// The three fields that a mode change asks the system to apply.
pub const MODE_CHANGE_FIELDS: u32 = 0x0058_0000;

/// Result code: the change succeeded (`DISP_CHANGE_SUCCESSFUL`).
pub const DISP_CHANGE_SUCCESSFUL: i32 = 0;

/// Result code: the change takes full effect after a restart (`DISP_CHANGE_RESTART`).
pub const DISP_CHANGE_RESTART: i32 = 1;

/// Result code: the graphics mode is not supported (`DISP_CHANGE_BADMODE`).
pub const DISP_CHANGE_BADMODE: i32 = -2;

/// A device's mode record: the signal configuration and the fields that a
/// change of it asks the system to apply.
#[derive(Debug, Clone, Copy, PartialEq, Eq, Structural)]
pub struct DisplayMode {
    pub width: u32,
    pub height: u32,
    pub frequency: u32,
    pub bits_per_pel: u32,
    pub position_x: i32,
    pub position_y: i32,
    pub orientation: u32,
    pub display_flags: u32,
    /// Field-selector mask: which of the fields above are to be applied.
    pub fields: u32,
}

/// A desired mode for one device, named as enumeration reported it.
#[derive(Debug, Clone)]
pub struct ResolutionChange {
    pub device_name: String,
    pub width: u32,
    pub height: u32,
    pub frequency: u32,
}

/// A mode change that the system accepted.
#[derive(Debug, Clone, Copy, PartialEq, Eq, Structural)]
pub enum ChangeOutcome {
    /// The new mode is active.
    Applied,
    /// The new mode was accepted; it becomes fully active after a restart.
    AppliedPendingRestart,
}

/// Why a mode change did not take place.
#[derive(Debug, Clone)]
pub enum ChangeError {
    /// The device's current mode could not be read.
    DeviceQueryFailed(String),
    /// The test phase rejected the requested mode.
    UnsupportedMode { width: u32, height: u32, frequency: u32, device_name: String, raw_code: i32 },
    /// The test phase accepted the mode but the commit phase reported it bad.
    RejectedAtCommit(String),
    /// The commit phase returned a code with no meaning of its own here.
    UnknownFailure { device_name: String, raw_code: i32 },
}

/// The baseline record with the requested width, height and frequency laid
/// over it; only those three fields are marked as changing.
pub open spec fn overlaid(base: DisplayMode, width: u32, height: u32, frequency: u32) -> DisplayMode {
    DisplayMode { width, height, frequency, fields: MODE_CHANGE_FIELDS, ..base }
}

/// Lays the request over a freshly read baseline record.
pub fn overlay(base: &DisplayMode, change: &ResolutionChange) -> (r: DisplayMode)
    ensures
        r == overlaid(*base, change.width, change.height, change.frequency),
{
    assert(0x0008_0000u32 | 0x0010_0000u32 | 0x0040_0000u32 == 0x0058_0000u32) by (bit_vector);
    DisplayMode {
        width: change.width,
        height: change.height,
        frequency: change.frequency,
        fields: FIELD_PELS_WIDTH | FIELD_PELS_HEIGHT | FIELD_DISPLAY_FREQUENCY,
        ..*base
    }
}

/// What a commit phase result code means for a request.
pub open spec fn commit_result(change: ResolutionChange, code: i32) -> Result<ChangeOutcome, ChangeError> {
    if code == DISP_CHANGE_SUCCESSFUL {
        Ok(ChangeOutcome::Applied)
    } else if code == DISP_CHANGE_RESTART {
        Ok(ChangeOutcome::AppliedPendingRestart)
    } else if code == DISP_CHANGE_BADMODE {
        Err(ChangeError::RejectedAtCommit(change.device_name))
    } else {
        Err(ChangeError::UnknownFailure { device_name: change.device_name, raw_code: code })
    }
}

/// Interprets the result code of the commit phase.
pub fn interpret_commit(change: &ResolutionChange, code: i32) -> (r: Result<ChangeOutcome, ChangeError>)
    ensures
        r == commit_result(*change, code),
{
    if code == DISP_CHANGE_SUCCESSFUL {
        Ok(ChangeOutcome::Applied)
    } else if code == DISP_CHANGE_RESTART {
        Ok(ChangeOutcome::AppliedPendingRestart)
    } else if code == DISP_CHANGE_BADMODE {
        Err(ChangeError::RejectedAtCommit(change.device_name.clone()))
    } else {
        Err(ChangeError::UnknownFailure { device_name: change.device_name.clone(), raw_code: code })
    }
}

/// Where a mode change stands, and so what the caller does next.
#[derive(Debug)]
pub enum ChangePhase {
    /// Read the device's current mode record, by the request's device name.
    AwaitingBaseline,
    /// Submit this record in test-only mode.
    Testing(DisplayMode),
    /// Submit this record again, persisting it.
    Committing(DisplayMode),
    /// The protocol has ended with this result.
    Finished(Result<ChangeOutcome, ChangeError>),
}

/// An answer of the system to the query that a phase asked for.
#[derive(Debug, Clone, Copy)]
pub enum ChangeEvent {
    /// The device's current mode record, or `None` where it could not be read.
    Baseline(Option<DisplayMode>),
    /// The result code of the test-only submission.
    Tested(i32),
    /// The result code of the persisting submission.
    Committed(i32),
}

/// The phase that follows `phase` once `event` has come in. An answer that
/// the phase did not ask for changes nothing.
pub open spec fn next_phase(change: ResolutionChange, phase: ChangePhase, event: ChangeEvent) -> ChangePhase {
    match (phase, event) {
        (ChangePhase::AwaitingBaseline, ChangeEvent::Baseline(None)) => {
            ChangePhase::Finished(Err(ChangeError::DeviceQueryFailed(change.device_name)))
        },
        (ChangePhase::AwaitingBaseline, ChangeEvent::Baseline(Some(base))) => {
            ChangePhase::Testing(overlaid(base, change.width, change.height, change.frequency))
        },
        (ChangePhase::Testing(mode), ChangeEvent::Tested(code)) => {
            if code == DISP_CHANGE_SUCCESSFUL {
                ChangePhase::Committing(mode)
            } else {
                ChangePhase::Finished(Err(unsupported(change, code)))
            }
        },
        (ChangePhase::Committing(_), ChangeEvent::Committed(code)) => {
            ChangePhase::Finished(commit_result(change, code))
        },
        _ => phase,
    }
}

/// The error for a mode that the test phase rejected with `code`.
pub open spec fn unsupported(change: ResolutionChange, code: i32) -> ChangeError {
    ChangeError::UnsupportedMode {
        width: change.width,
        height: change.height,
        frequency: change.frequency,
        device_name: change.device_name,
        raw_code: code,
    }
}

/// The phase reached from `phase` through the answers `events`, in order.
pub open spec fn run(change: ResolutionChange, phase: ChangePhase, events: Seq<ChangeEvent>) -> ChangePhase
    decreases events.len(),
{
    if events.len() == 0 {
        phase
    } else {
        run(change, next_phase(change, phase, events[0]), events.drop_first())
    }
}

/// One mode change of one device: re-read the baseline, overlay, test, and
/// commit only after a passed test.
#[derive(Debug)]
pub struct ModeChange {
    pub request: ResolutionChange,
    pub phase: ChangePhase,
}

impl ModeChange {
    /// Starts the protocol; its first query is the device's current mode.
    pub fn new(request: ResolutionChange) -> (r: Self)
        ensures
            r.request == request,
            r.phase == ChangePhase::AwaitingBaseline,
    {
        ModeChange { request, phase: ChangePhase::AwaitingBaseline }
    }

    /// Takes in the system's answer to the current phase's query.
    pub fn step(&mut self, event: ChangeEvent)
        ensures
            final(self).request == old(self).request,
            final(self).phase == next_phase(old(self).request, old(self).phase, event),
    {
        let next: Option<ChangePhase> = match (&self.phase, event) {
            (ChangePhase::AwaitingBaseline, ChangeEvent::Baseline(None)) => {
                Some(ChangePhase::Finished(Err(ChangeError::DeviceQueryFailed(self.request.device_name.clone()))))
            },
            (ChangePhase::AwaitingBaseline, ChangeEvent::Baseline(Some(base))) => {
                Some(ChangePhase::Testing(overlay(&base, &self.request)))
            },
            (ChangePhase::Testing(mode), ChangeEvent::Tested(code)) => {
                if code == DISP_CHANGE_SUCCESSFUL {
                    Some(ChangePhase::Committing(*mode))
                } else {
                    Some(ChangePhase::Finished(Err(ChangeError::UnsupportedMode {
                        width: self.request.width,
                        height: self.request.height,
                        frequency: self.request.frequency,
                        device_name: self.request.device_name.clone(),
                        raw_code: code,
                    })))
                }
            },
            (ChangePhase::Committing(_), ChangeEvent::Committed(code)) => {
                Some(ChangePhase::Finished(interpret_commit(&self.request, code)))
            },
            _ => None,
        };
        if let Some(phase) = next {
            self.phase = phase;
        }
    }

    /// Whether the protocol has ended.
    pub fn is_finished(&self) -> (r: bool)
        ensures
            r == (self.phase is Finished),
    {
        matches!(self.phase, ChangePhase::Finished(_))
    }

    /// The result of a finished protocol; `None` while it is still running.
    pub fn into_result(self) -> (r: Option<Result<ChangeOutcome, ChangeError>>)
        ensures
            match self.phase {
                ChangePhase::Finished(res) => r == Some(res),
                _ => r is None,
            },
    {
        match self.phase {
            ChangePhase::Finished(res) => Some(res),
            _ => None,
        }
    }
}

proof fn lemma_finished_is_final(change: ResolutionChange, res: Result<ChangeOutcome, ChangeError>, events: Seq<ChangeEvent>)
    ensures
        run(change, ChangePhase::Finished(res), events) == ChangePhase::Finished(res),
    decreases events.len(),
{
    if events.len() > 0 {
        lemma_finished_is_final(change, res, events.drop_first());
    }
}

/// The overlay changes the width, height and frequency alone, and its
/// field-selector mask marks exactly those three fields, whatever the
/// baseline marked.
pub proof fn lemma_overlay_touches_only_mode(base: DisplayMode, width: u32, height: u32, frequency: u32)
    ensures
        ({
            let m = overlaid(base, width, height, frequency);
            &&& m.width == width && m.height == height && m.frequency == frequency
            &&& m.bits_per_pel == base.bits_per_pel
            &&& m.position_x == base.position_x && m.position_y == base.position_y
            &&& m.orientation == base.orientation
            &&& m.display_flags == base.display_flags
            &&& m.fields & FIELD_PELS_WIDTH != 0
            &&& m.fields & FIELD_PELS_HEIGHT != 0
            &&& m.fields & FIELD_DISPLAY_FREQUENCY != 0
            &&& m.fields & !(FIELD_PELS_WIDTH | FIELD_PELS_HEIGHT | FIELD_DISPLAY_FREQUENCY) == 0
        }),
{
    let f = overlaid(base, width, height, frequency).fields;
    assert(f == 0x0058_0000u32);
    assert(f & 0x0008_0000u32 != 0 && f & 0x0010_0000u32 != 0 && f & 0x0040_0000u32 != 0
        && f & !(0x0008_0000u32 | 0x0010_0000u32 | 0x0040_0000u32) == 0) by (bit_vector)
        requires f == 0x0058_0000u32;
}

/// Once the test phase has rejected the overlaid mode, the change ends with
/// `UnsupportedMode`, and no later answer brings it to the commit phase.
pub proof fn lemma_failed_test_never_commits(
    change: ResolutionChange,
    mode: DisplayMode,
    code: i32,
    later: Seq<ChangeEvent>,
)
    requires
        code != DISP_CHANGE_SUCCESSFUL,
    ensures
        run(change, ChangePhase::Testing(mode), seq![ChangeEvent::Tested(code)] + later)
            == ChangePhase::Finished(Err(unsupported(change, code))),
{
    let events = seq![ChangeEvent::Tested(code)] + later;
    assert(events[0] == ChangeEvent::Tested(code));
    assert(events.drop_first() =~= later);
    lemma_finished_is_final(change, Err(unsupported(change, code)), later);
}

/// A change started afresh, given its device's current record and a passed
/// test, reaches the commit phase with that record overlaid by its own
/// request, whatever change came before it.
pub proof fn lemma_passed_test_reaches_commit(change: ResolutionChange, baseline: DisplayMode)
    ensures
        run(
            change,
            ChangePhase::AwaitingBaseline,
            seq![ChangeEvent::Baseline(Some(baseline)), ChangeEvent::Tested(DISP_CHANGE_SUCCESSFUL)],
        ) == ChangePhase::Committing(overlaid(baseline, change.width, change.height, change.frequency)),
{
    let events = seq![ChangeEvent::Baseline(Some(baseline)), ChangeEvent::Tested(DISP_CHANGE_SUCCESSFUL)];
    assert(events.drop_first() =~= seq![ChangeEvent::Tested(DISP_CHANGE_SUCCESSFUL)]);
    assert(events.drop_first().drop_first() =~= Seq::<ChangeEvent>::empty());
    reveal_with_fuel(run, 3);
}

} // verus!
