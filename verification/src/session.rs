//! State of the frame-processing pipeline between frames.
use vstd::prelude::*;

use crate::command::OsCommand;
use crate::command_mapper::{lookup_spec, CommandMapper, GestureCommandMap};
use crate::gesture::{AppRunMode, PipelineGestureStats};
use crate::gesture_id::GestureId;
use crate::safety_guard::{SafetyContext, SafetyGuard, SafetyGuardConfig};
use crate::temporal_filter::{TemporalFilterConfig, TemporalGestureFilter};

verus! {

/// The command `mapper` gives for `gesture` in `mode` (`NoAction` for `NoGesture`).
pub open spec fn resolve_spec(mapper: CommandMapper, mode: AppRunMode, gesture: GestureId) -> OsCommand {
    if gesture == GestureId::NoGesture {
        OsCommand::NoAction
    } else {
        lookup_spec(mapper.bindings(), mode, gesture)
    }
}

/// Filter, mapper and guard state of one recognition session. The gesture
/// classifier, which works on floating-point landmarks, is kept by the caller.
pub struct FrameProcessingSession {
    pub temporal: TemporalGestureFilter,
    pub mapper: CommandMapper,
    pub safety: SafetyGuard,
    pub safety_context: SafetyContext,
    pub stats: PipelineGestureStats,
    /// Until this time (ms) no gesture is recognised after a command.
    pub gesture_cooldown_until_ms: Option<u64>,
}

impl Default for FrameProcessingSession {
    fn default() -> (r: Self)
        ensures
            r.mapper.bindings().desktop@ == crate::command_mapper::default_desktop_table(),
            r.mapper.bindings().media@ == crate::command_mapper::default_media_table(),
            r.mapper.bindings().browser@ == crate::command_mapper::default_browser_table(),
            r.temporal.window() == Seq::<crate::gesture::GestureResult>::empty(),
            r.temporal.last_confirmed().is_none(),
            r.safety_context.last_execution_ms.is_none(),
            !r.safety_context.shutdown_confirmation_pending,
            r.stats.frames_captured == 0,
            r.gesture_cooldown_until_ms.is_none(),
    {
        Self::with_command_map(GestureCommandMap::app_defaults())
    }
}

impl FrameProcessingSession {
    /// A fresh session with default filter and guard limits over the given bindings.
    pub fn with_command_map(command_map: GestureCommandMap) -> (r: FrameProcessingSession)
        ensures
            r.mapper.bindings() == command_map,
            r.temporal.window() == Seq::<crate::gesture::GestureResult>::empty(),
            r.temporal.last_confirmed().is_none(),
            r.temporal.config().window_size == 7,
            r.safety.config().min_confidence_pm == 360,
            r.safety_context.last_execution_ms.is_none(),
            !r.safety_context.shutdown_confirmation_pending,
            r.stats.frames_captured == 0,
            r.stats.last_gesture == GestureId::NoGesture,
            r.gesture_cooldown_until_ms.is_none(),
    {
        FrameProcessingSession {
            temporal: TemporalGestureFilter::new(TemporalFilterConfig::default()),
            mapper: CommandMapper::new(command_map),
            safety: SafetyGuard::new(SafetyGuardConfig::default()),
            safety_context: SafetyContext::default(),
            stats: PipelineGestureStats::initial(),
            gesture_cooldown_until_ms: None,
        }
    }

    /// Starts the pause after a command: no gesture until `now_ms + duration_ms`
    /// (saturating), and the filter forgets its window.
    pub fn begin_gesture_cooldown(&mut self, now_ms: u64, duration_ms: u64)
        ensures
            final(self).gesture_cooldown_until_ms == Some(now_ms.saturating_add(duration_ms)),
            final(self).temporal.window() == Seq::<crate::gesture::GestureResult>::empty(),
            final(self).temporal.last_confirmed().is_none(),
            final(self).temporal.config() == old(self).temporal.config(),
            final(self).mapper == old(self).mapper,
            final(self).safety == old(self).safety,
            final(self).safety_context == old(self).safety_context,
            final(self).stats == old(self).stats,
    {
        self.gesture_cooldown_until_ms = Some(now_ms.saturating_add(duration_ms));
        self.temporal.clear();
    }
}

/// Resets sessions.
pub struct ManageSessionUseCase;

impl ManageSessionUseCase {
    /// Replaces the session by a fresh one with the default bindings.
    pub fn reset(session: &mut FrameProcessingSession)
        ensures
            final(session).temporal.window() == Seq::<crate::gesture::GestureResult>::empty(),
            final(session).temporal.last_confirmed().is_none(),
            final(session).mapper.bindings().desktop@ == crate::command_mapper::default_desktop_table(),
            final(session).mapper.bindings().media@ == crate::command_mapper::default_media_table(),
            final(session).mapper.bindings().browser@ == crate::command_mapper::default_browser_table(),
            final(session).safety_context.last_execution_ms.is_none(),
            !final(session).safety_context.shutdown_confirmation_pending,
            final(session).stats.frames_captured == 0,
            final(session).gesture_cooldown_until_ms.is_none(),
    {
        *session = FrameProcessingSession::default();
    }
}

} // verus!
