use gesture_os_control::command::OsCommand;
use gesture_os_control::gesture::{
    AppRunMode, FrameProcessingOutcome, GestureResult, GestureType, TemporalDecisionStatus,
};
use gesture_os_control::gesture_id::GestureId;
use gesture_os_control::numeric::{permille, push_decimal, to_hundredths};
use gesture_os_control::process_frame::ProcessFrameUseCase;
use gesture_os_control::safety_guard::{SafetyContext, SafetyGuard, SafetyGuardConfig};
use gesture_os_control::session::{FrameProcessingSession, ManageSessionUseCase};
use gesture_os_control::temporal_filter::{TemporalFilterConfig, TemporalGestureFilter};

fn sample(g: GestureId, t: GestureType, pm: u32, at: u64) -> GestureResult {
    GestureResult { gesture: g, confidence_pm: pm, gesture_type: t, timestamp_ms: at }
}

fn thumb(at: u64) -> GestureResult {
    sample(GestureId::ThumbUp, GestureType::Static, 900, at)
}

#[test]
fn filter_collects_three_frames_first() {
    let mut f = TemporalGestureFilter::new(TemporalFilterConfig::default());
    let a = f.push(thumb(0), 0);
    assert_eq!(a.status, TemporalDecisionStatus::Pending);
    assert_eq!(a.gesture, GestureId::NoGesture);
    assert_eq!(a.stability_pm, 0);
    assert_eq!(a.reason, "Собираю окно кадров для стабилизации.");
    let b = f.push(thumb(33), 33);
    assert_eq!(b.status, TemporalDecisionStatus::Pending);
}

#[test]
fn filter_confirms_stable_static_gesture() {
    let mut f = TemporalGestureFilter::new(TemporalFilterConfig::default());
    f.push(thumb(0), 0);
    f.push(thumb(33), 33);
    let c = f.push(thumb(66), 66);
    assert_eq!(c.status, TemporalDecisionStatus::Confirmed);
    assert_eq!(c.gesture, GestureId::ThumbUp);
    assert_eq!(c.gesture_type, GestureType::Static);
    assert_eq!(c.stability_pm, 1000);
    assert_eq!(c.confidence_pm, 900);
    assert_eq!(c.reason, "Жест стабилен и подтверждён.");
}

#[test]
fn filter_limits_repeats_of_a_confirmed_gesture() {
    let mut f = TemporalGestureFilter::new(TemporalFilterConfig::default());
    f.push(thumb(0), 0);
    f.push(thumb(33), 33);
    assert_eq!(f.push(thumb(66), 66).status, TemporalDecisionStatus::Confirmed);
    let soon = f.push(thumb(100), 100);
    assert_eq!(soon.status, TemporalDecisionStatus::Pending);
    assert_eq!(soon.reason, "Жест подтверждён слишком недавно.");
    let later = f.push(thumb(586), 586);
    assert_eq!(later.status, TemporalDecisionStatus::Confirmed);
}

#[test]
fn filter_rejects_window_without_gesture() {
    let mut f = TemporalGestureFilter::new(TemporalFilterConfig::default());
    for t in 0..3u64 {
        let out = f.push(GestureResult::empty(t), t);
        if t == 2 {
            assert_eq!(out.status, TemporalDecisionStatus::Rejected);
            assert_eq!(out.reason, "Жест не найден в полном окне кадров.");
        }
    }
}

#[test]
fn filter_asks_more_hits_for_dynamic_gestures() {
    let mut f = TemporalGestureFilter::new(TemporalFilterConfig::default());
    let swipe = |t: u64| sample(GestureId::SwipeLeft, GestureType::Dynamic, 800, t);
    f.push(swipe(0), 0);
    f.push(swipe(10), 10);
    let out = f.push(swipe(20), 20);
    assert_eq!(out.status, TemporalDecisionStatus::Pending);
    assert_eq!(out.reason, "Недостаточно подтверждений жеста: 3/4.");
    let out = f.push(swipe(30), 30);
    assert_eq!(out.status, TemporalDecisionStatus::Confirmed);
}

#[test]
fn filter_weights_recent_frames_more() {
    let mut f = TemporalGestureFilter::new(TemporalFilterConfig::default());
    f.push(GestureResult::empty(0), 0);
    f.push(thumb(1), 1);
    let out = f.push(thumb(2), 2);
    // weights 1, 2, 3: the thumb holds 5 of 6
    assert_eq!(out.stability_pm, 833);
    assert_eq!(out.gesture, GestureId::ThumbUp);
    assert_eq!(out.status, TemporalDecisionStatus::Pending);
    assert_eq!(out.reason, "Недостаточно подтверждений жеста: 2/3.");
}

#[test]
fn filter_clear_forgets_everything() {
    let mut f = TemporalGestureFilter::new(TemporalFilterConfig::default());
    f.push(thumb(0), 0);
    f.push(thumb(1), 1);
    f.clear();
    let out = f.push(thumb(2), 2);
    assert_eq!(out.status, TemporalDecisionStatus::Pending);
    assert_eq!(out.gesture, GestureId::NoGesture);
}

#[test]
fn guard_denies_empty_and_uncertain_commands() {
    let guard = SafetyGuard::new(SafetyGuardConfig::default());
    let mut ctx = SafetyContext::default();
    let d = guard.evaluate(OsCommand::NoAction, 990, 0, &mut ctx);
    assert!(!d.allow);
    assert_eq!(d.reason, "Пустая команда.");
    let d = guard.evaluate(OsCommand::Mute, 300, 0, &mut ctx);
    assert!(!d.allow);
    assert_eq!(d.reason, "Низкая уверенность распознавания (0.30).");
    assert!(!d.needs_extra_confirmation);
}

#[test]
fn guard_rate_limits_commands() {
    let guard = SafetyGuard::new(SafetyGuardConfig::default());
    let mut ctx = SafetyContext::default();
    let d = guard.evaluate(OsCommand::VolumeUp, 800, 1000, &mut ctx);
    assert!(d.allow);
    assert_eq!(d.reason, "Команда разрешена.");
    assert_eq!(ctx.last_execution_ms, Some(1000));
    let d = guard.evaluate(OsCommand::VolumeUp, 800, 1100, &mut ctx);
    assert!(!d.allow);
    assert_eq!(d.reason, "Антидребезг: команды слишком частые.");
    let d = guard.evaluate(OsCommand::VolumeUp, 800, 1280, &mut ctx);
    assert!(d.allow);
}

#[test]
fn guard_needs_two_confident_shutdown_requests() {
    let guard = SafetyGuard::new(SafetyGuardConfig::default());
    let mut ctx = SafetyContext::default();
    let d = guard.evaluate(OsCommand::ShutdownComputer, 700, 0, &mut ctx);
    assert!(!d.allow);
    assert!(d.needs_extra_confirmation);
    assert_eq!(d.reason, "Критичная команда отклонена из-за недостаточной уверенности.");
    assert!(!ctx.shutdown_confirmation_pending);
    let d = guard.evaluate(OsCommand::ShutdownComputer, 900, 10, &mut ctx);
    assert!(!d.allow);
    assert_eq!(d.reason, "Требуется дополнительное подтверждение выключения.");
    assert!(ctx.shutdown_confirmation_pending);
    let d = guard.evaluate(OsCommand::ShutdownComputer, 900, 20, &mut ctx);
    assert!(d.allow);
}

#[test]
fn session_defaults() {
    let s = FrameProcessingSession::default();
    assert_eq!(s.stats.frames_captured, 0);
    assert_eq!(s.gesture_cooldown_until_ms, None);
    assert_eq!(s.safety_context.last_execution_ms, None);
}

fn run_frame(s: &mut FrameProcessingSession, now: u64, raw: Option<GestureResult>) -> gesture_os_control::gesture::FrameProcessingResult {
    match ProcessFrameUseCase::enter_frame(s, now) {
        Some(r) => r,
        None => ProcessFrameUseCase::execute(s, now, raw, AppRunMode::Desktop, 1200),
    }
}

#[test]
fn pipeline_turns_stable_gesture_into_command() {
    let mut s = FrameProcessingSession::default();
    let r = run_frame(&mut s, 0, Some(thumb(0)));
    assert!(matches!(r.outcome, FrameProcessingOutcome::GesturePending));
    run_frame(&mut s, 33, Some(thumb(33)));
    let r = run_frame(&mut s, 66, Some(thumb(66)));
    match r.outcome {
        FrameProcessingOutcome::CommandReady { command } => assert_eq!(command, OsCommand::VolumeUp),
        other => panic!("unexpected outcome {:?}", other),
    }
    assert!(r.cooldown_started);
    assert_eq!(s.gesture_cooldown_until_ms, Some(1266));
    assert_eq!(s.stats.frames_captured, 3);
    assert_eq!(s.stats.last_gesture, GestureId::ThumbUp);
}

#[test]
fn pipeline_pauses_after_a_command() {
    let mut s = FrameProcessingSession::default();
    run_frame(&mut s, 0, Some(thumb(0)));
    run_frame(&mut s, 33, Some(thumb(33)));
    run_frame(&mut s, 66, Some(thumb(66)));
    let r = run_frame(&mut s, 500, Some(thumb(500)));
    assert!(matches!(r.outcome, FrameProcessingOutcome::NoGesture));
    assert_eq!(r.raw_gesture.gesture, GestureId::NoGesture);
    let r = run_frame(&mut s, 1266, Some(thumb(1266)));
    assert!(matches!(r.outcome, FrameProcessingOutcome::GesturePending));
    assert_eq!(s.gesture_cooldown_until_ms, None);
}

#[test]
fn pipeline_reports_missing_hand() {
    let mut s = FrameProcessingSession::default();
    let r = run_frame(&mut s, 5, None);
    assert!(matches!(r.outcome, FrameProcessingOutcome::NoGesture));
    assert_eq!(r.filter_status, TemporalDecisionStatus::Rejected);
    assert_eq!(r.raw_gesture.timestamp_ms, 5);
}

#[test]
fn pipeline_rejects_unbound_gesture() {
    let mut map = gesture_os_control::command_mapper::GestureCommandMap::app_defaults();
    map.set_binding(AppRunMode::Desktop, GestureId::ThumbUp, OsCommand::NoAction);
    let mut s = FrameProcessingSession::with_command_map(map);
    run_frame(&mut s, 0, Some(thumb(0)));
    run_frame(&mut s, 33, Some(thumb(33)));
    let r = run_frame(&mut s, 66, Some(thumb(66)));
    match r.outcome {
        FrameProcessingOutcome::GestureRejected { reason } => {
            assert_eq!(reason, "Для жеста не найдена команда.")
        }
        other => panic!("unexpected outcome {:?}", other),
    }
    assert!(!r.cooldown_started);
}

#[test]
fn pipeline_reports_guard_denial() {
    let low = |t: u64| sample(GestureId::ThumbUp, GestureType::Static, 300, t);
    let mut s = FrameProcessingSession::default();
    run_frame(&mut s, 0, Some(low(0)));
    run_frame(&mut s, 33, Some(low(33)));
    let r = run_frame(&mut s, 66, Some(low(66)));
    match r.outcome {
        FrameProcessingOutcome::GestureConfirmedCommandDenied { reason } => {
            assert_eq!(reason, "Низкая уверенность распознавания (0.30).")
        }
        other => panic!("unexpected outcome {:?}", other),
    }
}

#[test]
fn session_reset_clears_filter_and_pause() {
    let mut s = FrameProcessingSession::default();
    run_frame(&mut s, 0, Some(thumb(0)));
    run_frame(&mut s, 33, Some(thumb(33)));
    run_frame(&mut s, 66, Some(thumb(66)));
    ManageSessionUseCase::reset(&mut s);
    assert_eq!(s.gesture_cooldown_until_ms, None);
    let r = run_frame(&mut s, 70, Some(thumb(70)));
    assert!(matches!(r.outcome, FrameProcessingOutcome::GesturePending));
}

#[test]
fn permille_rounds_down() {
    assert_eq!(permille(5, 6), 833);
    assert_eq!(permille(0, 7), 0);
    assert_eq!(permille(7, 7), 1000);
    assert_eq!(permille(1, 3), 333);
    assert_eq!(permille(2, 3), 666);
}

#[test]
fn decimal_text_of_numbers() {
    let mut s = String::from("n=");
    push_decimal(&mut s, 0);
    s.push(',');
    push_decimal(&mut s, 1204);
    assert_eq!(s, "n=0,1204");
}

#[test]
fn hundredths_round_like_float_formatting() {
    assert_eq!(to_hundredths(124), 12);
    assert_eq!(to_hundredths(126), 13);
    assert_eq!(to_hundredths(125), 12);
    assert_eq!(to_hundredths(375), 38);
    assert_eq!(to_hundredths(625), 62);
    assert_eq!(to_hundredths(875), 88);
    assert_eq!(to_hundredths(135), 14);
    assert_eq!(to_hundredths(145), 15);
    assert_eq!(to_hundredths(1000), 100);
}

#[test]
fn guard_shows_exact_half_confidence_rounded_to_even() {
    let guard = SafetyGuard::new(SafetyGuardConfig::default());
    let mut ctx = SafetyContext::default();
    let d = guard.evaluate(OsCommand::Mute, 125, 0, &mut ctx);
    assert_eq!(d.reason, "Низкая уверенность распознавания (0.12).");
    let d = guard.evaluate(OsCommand::Mute, 355, 0, &mut ctx);
    assert_eq!(d.reason, "Низкая уверенность распознавания (0.36).");
}
