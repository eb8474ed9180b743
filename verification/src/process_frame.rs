//! One frame of the pipeline: pause check, temporal filter, mapping and safety guard.
//!
//! Landmark estimation and classification work on floating-point geometry and stay
//! with the caller: a frame first passes `enter_frame`; unless that ends the frame,
//! the caller classifies it and hands the sample to `execute`.
use vstd::prelude::*;

use crate::command::OsCommand;
use crate::gesture::{
    AppRunMode, FrameProcessingOutcome, FrameProcessingResult, GestureResult, TemporalDecisionStatus,
};
use crate::gesture_id::GestureId;
use crate::safety_guard::judge;
use crate::session::{resolve_spec, FrameProcessingSession};
use crate::temporal_filter::{decide, slide, TemporalFilterOutput};

verus! {

/// The statistics after a frame without a gesture.
pub open spec fn stats_cleared(before: crate::gesture::PipelineGestureStats, after: crate::gesture::PipelineGestureStats) -> bool {
    &&& after.last_gesture == GestureId::NoGesture
    &&& after.last_confidence_pm == 0
    &&& after.last_filter_status == TemporalDecisionStatus::Rejected
    &&& after.last_stability_pm == 0
    &&& after.frames_captured == before.frames_captured
    &&& after.fps_centi == before.fps_centi
    &&& after.consecutive_errors == before.consecutive_errors
}

/// A result for a frame in which no gesture is considered.
pub open spec fn is_no_gesture_result(r: FrameProcessingResult, now: u64) -> bool {
    &&& r.outcome is NoGesture
    &&& r.raw_gesture == GestureResult {
        gesture: GestureId::NoGesture,
        confidence_pm: 0,
        gesture_type: crate::gesture::GestureType::NoType,
        timestamp_ms: now,
    }
    &&& r.filter_stability_pm == 0
    &&& r.filter_status == TemporalDecisionStatus::Rejected
    &&& r.filter_reason@ == Seq::<char>::empty()
    &&& !r.cooldown_started
}

/// `o` rejects the gesture for the reason `text`.
pub open spec fn rejected_with(o: FrameProcessingOutcome, text: Seq<char>) -> bool {
    match o {
        FrameProcessingOutcome::GestureRejected { reason } => reason@ == text,
        _ => false,
    }
}

/// `o` refuses the command of a confirmed gesture for the reason `text`.
pub open spec fn denied_with(o: FrameProcessingOutcome, text: Seq<char>) -> bool {
    match o {
        FrameProcessingOutcome::GestureConfirmedCommandDenied { reason } => reason@ == text,
        _ => false,
    }
}

/// `o` hands command `c` over for execution.
pub open spec fn ready_with(o: FrameProcessingOutcome, c: OsCommand) -> bool {
    match o {
        FrameProcessingOutcome::CommandReady { command } => command == c,
        _ => false,
    }
}

/// Runs one frame through the decision part of the pipeline.
pub struct ProcessFrameUseCase;

impl ProcessFrameUseCase {
    /// Counts the frame and checks the pause after a command. During the pause the
    /// frame ends here with `NoGesture`; once the pause is over it is forgotten and
    /// `None` tells the caller to classify the frame.
    pub fn enter_frame(session: &mut FrameProcessingSession, now_ms: u64) -> (r: Option<FrameProcessingResult>)
        ensures
            final(session).stats.frames_captured == old(session).stats.frames_captured.saturating_add(1),
            final(session).temporal == old(session).temporal,
            final(session).mapper == old(session).mapper,
            final(session).safety == old(session).safety,
            final(session).safety_context == old(session).safety_context,
            (old(session).gesture_cooldown_until_ms matches Some(until) && now_ms < until) ==> {
                &&& r matches Some(res) && is_no_gesture_result(res, now_ms)
                &&& final(session).gesture_cooldown_until_ms == old(session).gesture_cooldown_until_ms
                &&& final(session).stats.last_gesture == GestureId::NoGesture
                &&& final(session).stats.last_confidence_pm == 0
                &&& final(session).stats.last_filter_status == TemporalDecisionStatus::Rejected
                &&& final(session).stats.last_stability_pm == 0
            },
            !(old(session).gesture_cooldown_until_ms matches Some(until) && now_ms < until) ==> {
                &&& r is None
                &&& final(session).gesture_cooldown_until_ms is None
                &&& final(session).stats.last_gesture == old(session).stats.last_gesture
                &&& final(session).stats.last_confidence_pm == old(session).stats.last_confidence_pm
                &&& final(session).stats.last_filter_status == old(session).stats.last_filter_status
                &&& final(session).stats.last_stability_pm == old(session).stats.last_stability_pm
            },
    {
        session.stats.frames_captured = session.stats.frames_captured.saturating_add(1);
        if let Some(until) = session.gesture_cooldown_until_ms {
            if now_ms < until {
                session.stats.last_gesture = GestureId::NoGesture;
                session.stats.last_confidence_pm = 0;
                session.stats.last_filter_status = TemporalDecisionStatus::Rejected;
                session.stats.last_stability_pm = 0;
                return Some(Self::no_gesture(now_ms));
            }
            session.gesture_cooldown_until_ms = None;
        }
        None
    }

    fn no_gesture(now_ms: u64) -> (r: FrameProcessingResult)
        ensures
            is_no_gesture_result(r, now_ms),
    {
        FrameProcessingResult {
            outcome: FrameProcessingOutcome::NoGesture,
            raw_gesture: GestureResult::empty(now_ms),
            filter_stability_pm: 0,
            filter_status: TemporalDecisionStatus::Rejected,
            filter_reason: String::new(),
            cooldown_started: false,
        }
    }

    /// Decides on a classified frame taken at `now_ms`: `None` when no hand was
    /// found. The sample goes through the temporal filter; a confirmed gesture is
    /// mapped to a command for `run_mode` and checked by the safety guard. A command
    /// that passes is returned as ready, and a positive `gesture_cooldown_ms` starts
    /// the pause after it.
    pub fn execute(
        session: &mut FrameProcessingSession,
        now_ms: u64,
        raw: Option<GestureResult>,
        run_mode: AppRunMode,
        gesture_cooldown_ms: u64,
    ) -> (r: FrameProcessingResult)
        ensures
            final(session).mapper == old(session).mapper,
            final(session).safety == old(session).safety,
            final(session).stats.frames_captured == old(session).stats.frames_captured,
            final(session).temporal.config() == old(session).temporal.config(),
            raw is None ==> {
                &&& is_no_gesture_result(r, now_ms)
                &&& stats_cleared(old(session).stats, final(session).stats)
                &&& final(session).temporal == old(session).temporal
                &&& final(session).safety_context == old(session).safety_context
                &&& final(session).gesture_cooldown_until_ms == old(session).gesture_cooldown_until_ms
            },
            raw matches Some(s) ==> ({
                let t = old(session).temporal;
                let w = slide(t.window(), s, t.config().window_size as nat);
                let d = decide(t.config(), w, t.last_confirmed(), s, now_ms);
                let command = resolve_spec(old(session).mapper, run_mode, d.2);
                let j = judge(old(session).safety.config(), command, d.3 as u32, now_ms, old(session).safety_context);
                let ready = d.0 == TemporalDecisionStatus::Confirmed && command != OsCommand::NoAction && j.0;
                &&& r.raw_gesture == s
                &&& r.filter_status == d.0
                &&& r.filter_stability_pm == d.1
                &&& r.filter_reason@ == d.5
                &&& final(session).stats.last_filter_status == d.0
                &&& final(session).stats.last_stability_pm == d.1
                &&& final(session).stats.last_gesture == d.2
                &&& final(session).stats.last_confidence_pm == d.3
                &&& (d.0 == TemporalDecisionStatus::Pending ==> r.outcome is GesturePending)
                &&& (d.0 == TemporalDecisionStatus::Rejected ==> rejected_with(r.outcome, "Нестабильный или пустой жест."@))
                &&& (d.0 == TemporalDecisionStatus::Confirmed && command == OsCommand::NoAction
                    ==> rejected_with(r.outcome, "Для жеста не найдена команда."@))
                &&& (d.0 == TemporalDecisionStatus::Confirmed && command != OsCommand::NoAction
                    ==> final(session).safety_context == j.3)
                &&& (d.0 == TemporalDecisionStatus::Confirmed && command != OsCommand::NoAction && !j.0
                    ==> denied_with(r.outcome, j.1))
                &&& (ready ==> ready_with(r.outcome, command))
                &&& !(d.0 == TemporalDecisionStatus::Confirmed && command != OsCommand::NoAction)
                    ==> final(session).safety_context == old(session).safety_context
                &&& r.cooldown_started == (ready && gesture_cooldown_ms > 0)
                &&& r.cooldown_started ==> {
                    &&& final(session).gesture_cooldown_until_ms == Some(now_ms.saturating_add(gesture_cooldown_ms))
                    &&& final(session).temporal.window() == Seq::<GestureResult>::empty()
                    &&& final(session).temporal.last_confirmed().is_none()
                }
                &&& !r.cooldown_started ==> {
                    &&& final(session).gesture_cooldown_until_ms == old(session).gesture_cooldown_until_ms
                    &&& final(session).temporal.window() == w
                    &&& final(session).temporal.last_confirmed() == if d.0 == TemporalDecisionStatus::Confirmed {
                        Some((d.2, now_ms))
                    } else {
                        t.last_confirmed()
                    }
                }
            }),
    {
        let sample = match raw {
            Some(s) => s,
            None => {
                session.stats.last_gesture = GestureId::NoGesture;
                session.stats.last_confidence_pm = 0;
                session.stats.last_filter_status = TemporalDecisionStatus::Rejected;
                session.stats.last_stability_pm = 0;
                return Self::no_gesture(now_ms);
            },
        };
        let filter_out = session.temporal.push(sample, now_ms);
        session.stats.last_filter_status = filter_out.status;
        session.stats.last_stability_pm = filter_out.stability_pm;
        session.stats.last_gesture = filter_out.gesture;
        session.stats.last_confidence_pm = filter_out.confidence_pm;
        let filter_status = filter_out.status;
        let filter_stability = filter_out.stability_pm;
        let mut cooldown_started = false;
        let outcome = match filter_out.status {
            TemporalDecisionStatus::Pending => FrameProcessingOutcome::GesturePending,
            TemporalDecisionStatus::Rejected => FrameProcessingOutcome::GestureRejected {
                reason: String::from_str("Нестабильный или пустой жест."),
            },
            TemporalDecisionStatus::Confirmed => {
                let (o, started) = Self::handle_confirmed(
                    &filter_out,
                    run_mode,
                    session,
                    now_ms,
                    gesture_cooldown_ms,
                );
                cooldown_started = started;
                o
            },
        };
        FrameProcessingResult {
            outcome,
            raw_gesture: sample,
            filter_stability_pm: filter_stability,
            filter_status,
            filter_reason: filter_out.reason,
            cooldown_started,
        }
    }

    fn handle_confirmed(
        filter_out: &TemporalFilterOutput,
        run_mode: AppRunMode,
        session: &mut FrameProcessingSession,
        now_ms: u64,
        gesture_cooldown_ms: u64,
    ) -> (r: (FrameProcessingOutcome, bool))
        ensures
            ({
                let command = resolve_spec(old(session).mapper, run_mode, filter_out.gesture);
                let j = judge(
                    old(session).safety.config(),
                    command,
                    filter_out.confidence_pm,
                    now_ms,
                    old(session).safety_context,
                );
                let ready = command != OsCommand::NoAction && j.0;
                &&& final(session).mapper == old(session).mapper
                &&& final(session).safety == old(session).safety
                &&& final(session).stats == old(session).stats
                &&& final(session).temporal.config() == old(session).temporal.config()
                &&& (command == OsCommand::NoAction ==> rejected_with(r.0, "Для жеста не найдена команда."@))
                &&& (command == OsCommand::NoAction ==> final(session).safety_context == old(
                    session,
                ).safety_context)
                &&& (command != OsCommand::NoAction ==> final(session).safety_context == j.3)
                &&& (command != OsCommand::NoAction && !j.0 ==> denied_with(r.0, j.1))
                &&& (ready ==> ready_with(r.0, command))
                &&& r.1 == (ready && gesture_cooldown_ms > 0)
                &&& r.1 ==> {
                    &&& final(session).gesture_cooldown_until_ms == Some(now_ms.saturating_add(gesture_cooldown_ms))
                    &&& final(session).temporal.window() == Seq::<GestureResult>::empty()
                    &&& final(session).temporal.last_confirmed().is_none()
                }
                &&& !r.1 ==> final(session).gesture_cooldown_until_ms == old(
                    session,
                ).gesture_cooldown_until_ms && final(session).temporal == old(session).temporal
            }),
    {
        let command = session.mapper.resolve(run_mode, filter_out.gesture);
        if command == OsCommand::NoAction {
            return (
                FrameProcessingOutcome::GestureRejected {
                    reason: String::from_str("Для жеста не найдена команда."),
                },
                false,
            );
        }
        let decision = session.safety.evaluate(
            command,
            filter_out.confidence_pm,
            now_ms,
            &mut session.safety_context,
        );
        if !decision.allow {
            return (
                FrameProcessingOutcome::GestureConfirmedCommandDenied { reason: decision.reason },
                false,
            );
        }
        let mut started = false;
        if gesture_cooldown_ms > 0 {
            session.begin_gesture_cooldown(now_ms, gesture_cooldown_ms);
            started = true;
        }
        (FrameProcessingOutcome::CommandReady { command }, started)
    }
}

} // verus!
