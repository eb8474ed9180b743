use gesture_os_control::adapters::{
    EventBus, FileLoggerAdapter, LinuxOsAdapter, ThreadingHints, UiControllerAdapter,
};
use gesture_os_control::backend_labels::{
    compose_backend_label, helper_label, python_command_candidates, with_model_hint,
};
use gesture_os_control::camera::{
    camera_position, count_read_failure, dedupe, normalize_device_name, output_lines, resolution_candidates, resolve_camera_index,
    WebcamAdapterConfig, DEFAULT_DEVICE_LABEL,
};
use gesture_os_control::command::{CommandExecutionResult, OsCommand};
use gesture_os_control::context::ContextDetectionMode;
use gesture_os_control::gesture::{
    AppRunMode, FrameProcessingOutcome, FrameProcessingResult, GestureResult, GestureType,
    TemporalDecisionStatus,
};
use gesture_os_control::gesture_backend::GestureBackendKind;
use gesture_os_control::gesture_id::GestureId;
use gesture_os_control::pipeline::{command_status, PipelineScheduler};
use gesture_os_control::ports::{ExecuteCommandUseCase, LogPort, OsCommandPort, UiInputPort};
use gesture_os_control::settings::{
    default_rules, live_cooldown_ms, rules_or_defaults, GestureCameraConfig,
};
use gesture_os_control::view_state::{
    clamp_camera_fps, clamp_camera_resolution, ensure_non_empty, run_mode_log_text, EventLog,
};
use gesture_os_control::windows_commands::{
    CommandLaunch, WindowsPipelineOsAdapter, AUDIO_VOLUME_UP_SCRIPT, SHUTDOWN_SCRIPT,
};

fn strings(items: &[&str]) -> Vec<String> {
    items.iter().map(|s| s.to_string()).collect()
}

#[test]
fn resolutions_start_with_the_requested_one() {
    assert_eq!(
        resolution_candidates(1280, 720),
        vec![(1280, 720), (640, 480), (320, 240), (848, 480), (1920, 1080)]
    );
    assert_eq!(resolution_candidates(0, 480)[0], (640, 480));
    assert_eq!(resolution_candidates(800, 600).len(), 6);
}

#[test]
fn dedupe_keeps_first_occurrences() {
    let out = dedupe(strings(&["a", "b", "a", "c", "b"]));
    assert_eq!(out, strings(&["a", "b", "c"]));
    assert!(dedupe(Vec::new()).is_empty());
}

#[test]
fn device_names_are_normalised() {
    assert_eq!(normalize_device_name("Камера HD-Pro (Logitech)"), "камера hd pro logitech");
    assert_eq!(normalize_device_name("  ЁЛКА   Cam  "), "елка cam");
    assert_eq!(normalize_device_name("---"), "");
}

#[test]
fn camera_names_resolve_to_positions() {
    let names = strings(&["Integrated Camera", "USB Camera HD"]);
    assert_eq!(resolve_camera_index("usb camera (hd)", &names), Ok(1));
    assert_eq!(resolve_camera_index("camera", &names), Ok(0));
    assert_eq!(resolve_camera_index(DEFAULT_DEVICE_LABEL, &names), Ok(0));
    assert_eq!(
        resolve_camera_index("webcam", &names),
        Err("Камера `webcam` не найдена.".to_string())
    );
}

#[test]
fn no_cameras_is_an_error() {
    assert_eq!(
        camera_position("anything", &[]),
        Err("В системе не найдено доступных камер.".to_string())
    );
    assert_eq!(camera_position(DEFAULT_DEVICE_LABEL, &strings(&["x"])), Ok(0));
}

#[test]
fn webcam_defaults() {
    let c = WebcamAdapterConfig::default();
    assert_eq!(c.camera_id, "Камера по умолчанию");
    assert_eq!((c.width, c.height, c.fps), (640, 480, 30));
    assert!(!c.mirror_horizontal);
}

#[test]
fn windows_plans_per_command() {
    let a = WindowsPipelineOsAdapter::new();
    let p = a.plan(OsCommand::LockWorkstation);
    match p.launch {
        CommandLaunch::Program { program, args } => {
            assert_eq!(program, "rundll32.exe");
            assert_eq!(args, strings(&["user32.dll,LockWorkStation"]));
        }
        other => panic!("unexpected launch {:?}", other),
    }
    assert_eq!(p.success, "Сеанс Windows заблокирован.");
    assert_eq!(p.failure, "Не удалось заблокировать сеанс.");
    match a.plan(OsCommand::VolumeUp).launch {
        CommandLaunch::PowerShell { script } => assert_eq!(script, AUDIO_VOLUME_UP_SCRIPT),
        other => panic!("unexpected launch {:?}", other),
    }
    match a.plan(OsCommand::ShutdownComputer).launch {
        CommandLaunch::PowerShell { script } => assert_eq!(script, SHUTDOWN_SCRIPT),
        other => panic!("unexpected launch {:?}", other),
    }
    assert!(matches!(a.plan(OsCommand::NoAction).launch, CommandLaunch::Nothing));
    assert_eq!(a.plan(OsCommand::ScrollDown).success, "Прокрутка вниз.");
}

#[test]
fn windows_results_follow_the_launch() {
    let a = WindowsPipelineOsAdapter::default();
    let r = a.execute(OsCommand::OpenNotepad, Ok(()));
    assert!(r.ok);
    assert_eq!(r.description, "Блокнот запущен.");
    let r = a.execute(OsCommand::Mute, Err("код 1".to_string()));
    assert!(!r.ok);
    assert_eq!(r.description, "Ошибка выполнения команды в Windows.");
    assert_eq!(r.system_error, Some("код 1".to_string()));
    let r = a.execute(OsCommand::NoAction, Err("ignored".to_string()));
    assert!(r.ok);
    assert_eq!(r.description, "Нет действия.");
    assert_eq!(r.system_error, None);
    let r = a.unavailable();
    assert!(!r.ok);
    assert_eq!(r.description, "Windows-адаптер недоступен на этой платформе.");
}

#[test]
fn linux_adapter_reports_no_support() {
    let a = LinuxOsAdapter::new();
    let r = ExecuteCommandUseCase::run(&a, OsCommand::VolumeUp);
    assert!(!r.ok);
    assert_eq!(r.description, "Исполнение команд жестов на Linux пока не реализовано.");
    assert_eq!(a.execute_command(OsCommand::Mute).system_error, None);
}

#[test]
fn logger_prefixes_levels() {
    let mut log = FileLoggerAdapter::new();
    assert!(log.lines().is_empty());
    log.info("старт");
    log.warn("нет камеры");
    assert_eq!(log.lines(), &strings(&["[INFO] старт", "[WARN] нет камеры"])[..]);
    let d = FileLoggerAdapter::default();
    assert!(d.lines().is_empty());
}

#[test]
fn small_stubs() {
    let mut ui = UiControllerAdapter;
    assert_eq!(ui.poll_pending_action(), None);
    let _bus = EventBus::new();
    let _bus2 = EventBus::default();
    assert_eq!(ThreadingHints::desktop_default().gesture_worker_stack_kb, 2048);
    assert_eq!(ThreadingHints::default().gesture_worker_stack_kb, 0);
}

fn ready_result() -> FrameProcessingResult {
    FrameProcessingResult {
        outcome: FrameProcessingOutcome::CommandReady { command: OsCommand::VolumeUp },
        raw_gesture: GestureResult {
            gesture: GestureId::ThumbUp,
            confidence_pm: 900,
            gesture_type: GestureType::Static,
            timestamp_ms: 1300,
        },
        filter_stability_pm: 833,
        filter_status: TemporalDecisionStatus::Confirmed,
        filter_reason: String::new(),
        cooldown_started: true,
    }
}

#[test]
fn scheduler_paces_previews_and_polls() {
    let mut s = PipelineScheduler::new(1000);
    let p = s.begin_frame(0, 1000);
    assert!(p.send_preview);
    assert!(p.poll_foreground);
    let p = s.begin_frame(1, 1100);
    assert!(!p.send_preview);
    assert!(!p.poll_foreground);
    let p = s.begin_frame(4, 1250);
    assert!(p.send_preview);
    assert!(p.poll_foreground);
    let mut early = PipelineScheduler::new(0);
    assert_eq!(early.last_foreground_poll_ms, None);
    assert!(early.begin_frame(0, 100).poll_foreground);
    assert_eq!(early.last_foreground_poll_ms, Some(100));
    assert!(!early.begin_frame(1, 200).poll_foreground);
}

#[test]
fn scheduler_reports_context_stats_and_log() {
    let mut s = PipelineScheduler::new(1000);
    let mut result = ready_result();
    result.outcome = FrameProcessingOutcome::GesturePending;
    let r = s.finish_frame(0, 1100, "стол (ручной)".to_string(), AppRunMode::Desktop, &result);
    assert!(r.send_debug);
    assert_eq!(r.context_status, Some("контекст: стол (ручной)".to_string()));
    assert!(!r.send_stats);
    assert_eq!(r.gesture_log, None);
    assert_eq!(r.command, None);
    let r = s.finish_frame(5, 1300, "стол (ручной)".to_string(), AppRunMode::Desktop, &ready_result());
    assert!(!r.send_debug);
    assert_eq!(r.context_status, None);
    assert!(r.send_stats);
    assert_eq!(
        r.gesture_log,
        Some("большой палец вверх · 90% · устойч. 83% · стол · подтверждён".to_string())
    );
    assert_eq!(r.command, Some(OsCommand::VolumeUp));
    assert_eq!(r.guard_status, None);
    assert_eq!(s.last_gesture_log_ms, 1300);
}

#[test]
fn scheduler_reports_guard_denials() {
    let mut s = PipelineScheduler::new(0);
    let mut result = ready_result();
    result.outcome = FrameProcessingOutcome::GestureConfirmedCommandDenied { reason: "мало".to_string() };
    let r = s.finish_frame(1, 10, String::new(), AppRunMode::Media, &result);
    assert_eq!(r.command, None);
    assert_eq!(r.guard_status, Some("защита: мало".to_string()));
    assert_eq!(r.context_status, None);
}

#[test]
fn command_status_lines() {
    let ok = CommandExecutionResult { ok: true, description: "x".to_string(), system_error: None };
    assert_eq!(
        command_status(OsCommand::VolumeUp, GestureId::ThumbUp, AppRunMode::Desktop, &ok),
        "OK Громкость + · большой палец вверх · стол"
    );
    assert_eq!(
        command_status(OsCommand::Mute, GestureId::NoGesture, AppRunMode::Media, &ok),
        "OK Без звука · жест · медиа"
    );
    let failed = CommandExecutionResult { ok: false, description: "x".to_string(), system_error: Some("boom".to_string()) };
    assert_eq!(
        command_status(OsCommand::VolumeUp, GestureId::ThumbUp, AppRunMode::Desktop, &failed),
        "нет Громкость +: boom"
    );
}

#[test]
fn backend_label_texts() {
    assert_eq!(compose_backend_label(true, &Some("MediaPipe 0.10".to_string()), &None, ""), "MediaPipe 0.10");
    assert_eq!(compose_backend_label(true, &None, &None, "   "), "MediaPipe Hands");
    assert_eq!(
        compose_backend_label(false, &None, &Some("нет python".to_string()), "m.task"),
        "fallback: Classic CV · нет python · path: m.task"
    );
    assert_eq!(helper_label(Some("mp".to_string()), Some("1.0".to_string())), "mp 1.0");
    assert_eq!(helper_label(Some("mp".to_string()), None), "mp");
    assert_eq!(helper_label(None, Some("1.0".to_string())), "MediaPipe Hands (python)");
    assert_eq!(with_model_hint(Some("x".to_string()), "m"), Some("x · model hint: m".to_string()));
    assert_eq!(with_model_hint(None, "m"), Some(" · model hint: m".to_string()));
    assert_eq!(with_model_hint(Some("x".to_string()), "  "), Some("x".to_string()));
}

#[test]
fn python_interpreters_per_platform() {
    let unix = python_command_candidates(false);
    assert_eq!(unix, vec![("python3", vec![]), ("python", vec![])]);
    let win = python_command_candidates(true);
    assert_eq!(win.len(), 6);
    assert_eq!(win[0], ("py", vec!["-3"]));
    assert_eq!(win[5], ("python3", vec![]));
}

#[test]
fn shipped_context_rules() {
    let rules = default_rules();
    assert_eq!(rules.len(), 8);
    assert_eq!(rules[0].name, "Chrome / Edge / Firefox");
    assert_eq!(rules[0].process_name_contains, "chrome");
    assert_eq!(rules[6].window_title_contains, "youtube");
    assert_eq!(rules[6].mode, AppRunMode::Media);
    assert!(rules.iter().all(|r| r.enabled));
    assert_eq!(rules_or_defaults(None).len(), 8);
    assert_eq!(rules_or_defaults(Some(Vec::new())).len(), 8);
    let one = vec![gesture_os_control::context::ContextRule::new("a", "b", "", AppRunMode::Media)];
    let kept = rules_or_defaults(Some(one));
    assert_eq!(kept.len(), 1);
    assert_eq!(kept[0].name, "a");
}

#[test]
fn camera_service_defaults() {
    let c = GestureCameraConfig::default();
    assert_eq!(c.device_display_name, DEFAULT_DEVICE_LABEL);
    assert_eq!((c.width, c.height, c.fps), (640, 480, 60));
    assert_eq!(c.gesture_cooldown_ms, 1200);
    assert_eq!(c.context_detection_mode, ContextDetectionMode::Manual);
    assert_eq!(c.backend.kind, GestureBackendKind::MediaPipe);
    assert_eq!(c.command_map.lookup(AppRunMode::Desktop, GestureId::ThumbUp), OsCommand::VolumeUp);
    assert_eq!(live_cooldown_ms(700_000), 600_000);
    assert_eq!(live_cooldown_ms(1200), 1200);
}

#[test]
fn event_log_keeps_the_newest_lines() {
    let mut log = EventLog::new();
    for i in 0..305 {
        log.push(format!("{i}"));
    }
    assert_eq!(log.len(), 300);
    assert_eq!(log.lines()[0], "5");
    assert_eq!(log.lines()[299], "304");
}

#[test]
fn panel_limits() {
    assert_eq!(clamp_camera_resolution(100, 100), (160, 120));
    assert_eq!(clamp_camera_resolution(1920, 1080), (1920, 1080));
    assert_eq!(clamp_camera_fps(1), 5);
    assert_eq!(clamp_camera_fps(120), 60);
    assert_eq!(clamp_camera_fps(30), 30);
    assert_eq!(run_mode_log_text(AppRunMode::Media), "контекст: медиа");
    assert_eq!(ensure_non_empty(Vec::new(), "Камера по умолчанию"), strings(&["Камера по умолчанию"]));
    assert_eq!(ensure_non_empty(strings(&["a"]), "b"), strings(&["a"]));
}

#[test]
fn program_output_lines_are_trimmed_and_nonblank() {
    assert_eq!(output_lines("  USB Camera \r\n\n  \nIntegrated Webcam\n"), strings(&["USB Camera", "Integrated Webcam"]));
    assert_eq!(output_lines("single"), strings(&["single"]));
    assert!(output_lines("").is_empty());
    assert!(output_lines("\n \t\n").is_empty());
}

#[test]
fn camera_reconnects_from_the_fourth_failure() {
    assert_eq!(count_read_failure(0), (1, false));
    assert_eq!(count_read_failure(2), (3, false));
    assert_eq!(count_read_failure(3), (4, true));
    assert_eq!(count_read_failure(u32::MAX), (u32::MAX, true));
}
