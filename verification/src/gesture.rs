//! Gesture samples, run modes and the outcome of processing one camera frame.
use vstd::prelude::*;

use crate::command::{CommandExecutionResult, OsCommand};
use crate::gesture_id::GestureId;

verus! {

/// Kind of a gesture, which selects the thresholds of the temporal filter.
#[derive(Clone, Copy, Debug, PartialEq, Eq, Structural)]
pub enum GestureType {
    NoType,
    Static,
    Dynamic,
}

/// One classified frame. Confidences are in thousandths (`0..=1000` stands for
/// `0.0..=1.0`), times are milliseconds of a monotonic clock.
#[derive(Clone, Copy, Debug, PartialEq, Eq, Structural)]
pub struct GestureResult {
    pub gesture: GestureId,
    pub confidence_pm: u32,
    pub gesture_type: GestureType,
    pub timestamp_ms: u64,
}

impl GestureResult {
    /// A frame in which no gesture was recognised.
    pub fn empty(timestamp_ms: u64) -> (r: GestureResult)
        ensures
            r.gesture == GestureId::NoGesture,
            r.confidence_pm == 0,
            r.gesture_type == GestureType::NoType,
            r.timestamp_ms == timestamp_ms,
    {
        GestureResult {
            gesture: GestureId::NoGesture,
            confidence_pm: 0,
            gesture_type: GestureType::NoType,
            timestamp_ms,
        }
    }
}

/// Application mode that selects the gesture-to-command table.
#[derive(Clone, Copy, Debug, PartialEq, Eq, Hash, Structural)]
pub enum AppRunMode {
    Desktop,
    Media,
    Browser,
}

impl Default for AppRunMode {
    fn default() -> (r: Self)
        ensures
            r == AppRunMode::Desktop,
    {
        AppRunMode::Desktop
    }
}

/// The user-facing label of a run mode.
pub open spec fn run_mode_label(m: AppRunMode) -> Seq<char> {
    match m {
        AppRunMode::Desktop => "стол"@,
        AppRunMode::Media => "медиа"@,
        AppRunMode::Browser => "браузер"@,
    }
}

impl AppRunMode {
    /// The user-facing label of the mode.
    pub fn label_ru(self) -> (r: &'static str)
        ensures
            r@ == run_mode_label(self),
    {
        match self {
            AppRunMode::Desktop => "стол",
            AppRunMode::Media => "медиа",
            AppRunMode::Browser => "браузер",
        }
    }
}

/// Decision of the temporal filter about the current window of frames.
#[derive(Clone, Copy, Debug, PartialEq, Eq, Structural)]
pub enum TemporalDecisionStatus {
    Pending,
    Confirmed,
    Rejected,
}

impl Default for TemporalDecisionStatus {
    fn default() -> (r: Self)
        ensures
            r == TemporalDecisionStatus::Rejected,
    {
        TemporalDecisionStatus::Rejected
    }
}

/// The user-facing label of a filter decision.
pub open spec fn decision_label(s: TemporalDecisionStatus) -> Seq<char> {
    match s {
        TemporalDecisionStatus::Pending => "ожидание"@,
        TemporalDecisionStatus::Confirmed => "подтверждён"@,
        TemporalDecisionStatus::Rejected => "отклонён"@,
    }
}

impl TemporalDecisionStatus {
    /// The user-facing label of the decision.
    pub fn label_ru(self) -> (r: &'static str)
        ensures
            r@ == decision_label(self),
    {
        match self {
            TemporalDecisionStatus::Pending => "ожидание",
            TemporalDecisionStatus::Confirmed => "подтверждён",
            TemporalDecisionStatus::Rejected => "отклонён",
        }
    }
}

/// What came of one processed frame.
#[derive(Clone, Debug)]
pub enum FrameProcessingOutcome {
    NoGesture,
    GesturePending,
    GestureRejected { reason: String },
    GestureConfirmedCommandDenied { reason: String },
    /// The command passed the filter and the safety guard; an outer layer executes it.
    CommandReady { command: OsCommand },
    CommandExecuted { command: OsCommand, execution: CommandExecutionResult },
    CommandFailed { command: OsCommand, execution: CommandExecutionResult },
}

/// Result of processing one frame.
#[derive(Clone, Debug)]
pub struct FrameProcessingResult {
    pub outcome: FrameProcessingOutcome,
    pub raw_gesture: GestureResult,
    /// Stability of the dominant gesture, in thousandths.
    pub filter_stability_pm: u32,
    pub filter_status: TemporalDecisionStatus,
    pub filter_reason: String,
    /// Whether this frame started the pause after a command; the caller then also
    /// forgets the classifier's palm history.
    pub cooldown_started: bool,
}

/// Statistics shown in the camera panel. `fps_centi` is frames per second in
/// hundredths; confidence and stability are in thousandths.
#[derive(Clone, Copy, Debug)]
pub struct PipelineGestureStats {
    pub fps_centi: u32,
    pub frames_captured: u64,
    pub consecutive_errors: u32,
    pub last_gesture: GestureId,
    pub last_confidence_pm: u32,
    pub last_filter_status: TemporalDecisionStatus,
    pub last_stability_pm: u32,
}

impl PipelineGestureStats {
    /// Statistics before the first frame.
    pub fn initial() -> (r: PipelineGestureStats)
        ensures
            r.fps_centi == 0,
            r.frames_captured == 0,
            r.consecutive_errors == 0,
            r.last_gesture == GestureId::NoGesture,
            r.last_confidence_pm == 0,
            r.last_filter_status == TemporalDecisionStatus::Rejected,
            r.last_stability_pm == 0,
    {
        PipelineGestureStats {
            fps_centi: 0,
            frames_captured: 0,
            consecutive_errors: 0,
            last_gesture: GestureId::NoGesture,
            last_confidence_pm: 0,
            last_filter_status: TemporalDecisionStatus::Rejected,
            last_stability_pm: 0,
        }
    }
}

} // verus!
