use gesture_os_control::command::OsCommand;
use gesture_os_control::command_mapper::{BindingTable, CommandMapper, GestureCommandMap};
use gesture_os_control::context::{
    contains_case_insensitive, ContextDecisionSource, ContextDetectionMode, ContextRule,
    ForegroundWindowInfo, ResolvedAppContext,
};
use gesture_os_control::context_resolver::ContextResolver;
use gesture_os_control::gesture::{AppRunMode, TemporalDecisionStatus};
use gesture_os_control::gesture_backend::{GestureBackendConfig, GestureBackendKind};
use gesture_os_control::gesture_bindings::{
    apply_overrides, bindings_file, merge_with_defaults, table_to_strings, GestureBindingsFile,
};
use gesture_os_control::gesture_id::GestureId;

fn chars(s: &str) -> Vec<char> {
    s.chars().collect()
}

fn pair(a: &str, b: &str) -> (String, String) {
    (a.to_string(), b.to_string())
}

#[test]
fn gesture_wire_keys_round_trip() {
    for g in GestureId::bindable() {
        let key = g.wire_key().expect("bindable gestures have a key");
        assert_eq!(GestureId::parse_wire_key(key), Some(g));
    }
    assert_eq!(GestureId::NoGesture.wire_key(), None);
}

#[test]
fn gesture_wire_key_is_trimmed() {
    assert_eq!(GestureId::parse_wire_key("  ThumbUp \n"), Some(GestureId::ThumbUp));
    assert_eq!(GestureId::parse_wire_key("thumbup"), None);
    assert_eq!(GestureId::parse_wire_key(""), None);
}

#[test]
fn gesture_trigger_names() {
    assert_eq!(GestureId::OpenPalm.user_trigger_ru(), Some("открытая ладонь"));
    assert_eq!(GestureId::Victory.user_trigger_ru(), Some("victory / peace"));
    assert_eq!(GestureId::NoGesture.user_trigger_ru(), None);
}

#[test]
fn mediapipe_labels_are_recognised() {
    assert_eq!(GestureId::from_mediapipe_label("Open_Palm"), Some(GestureId::OpenPalm));
    assert_eq!(GestureId::from_mediapipe_label("  Closed Fist "), Some(GestureId::ClosedFist));
    assert_eq!(GestureId::from_mediapipe_label("Thumb_Up"), Some(GestureId::ThumbUp));
    assert_eq!(GestureId::from_mediapipe_label("thumb down"), Some(GestureId::ThumbDown));
    assert_eq!(GestureId::from_mediapipe_label("POINTING_UP"), Some(GestureId::Pointing));
    assert_eq!(GestureId::from_mediapipe_label("peace"), Some(GestureId::Victory));
    assert_eq!(GestureId::from_mediapipe_label("ILoveYou"), None);
    assert_eq!(GestureId::from_mediapipe_label(""), None);
}

#[test]
fn bindable_gestures_in_order() {
    assert_eq!(
        GestureId::bindable(),
        vec![
            GestureId::SwipeLeft,
            GestureId::SwipeRight,
            GestureId::OpenPalm,
            GestureId::ClosedFist,
            GestureId::ThumbUp,
            GestureId::ThumbDown,
            GestureId::Pointing,
            GestureId::Victory,
        ]
    );
}

#[test]
fn command_wire_keys_round_trip() {
    let all = OsCommand::all();
    assert_eq!(all.len(), 21);
    assert_eq!(all[0], OsCommand::NoAction);
    for c in all {
        assert_eq!(OsCommand::parse_wire_key(c.wire_key()), Some(c));
    }
    assert_eq!(OsCommand::parse_wire_key(" VolumeUp "), Some(OsCommand::VolumeUp));
    assert_eq!(OsCommand::parse_wire_key("Volume"), None);
}

#[test]
fn command_labels() {
    assert_eq!(OsCommand::VolumeUp.label_ru(), "Громкость +");
    assert_eq!(OsCommand::ShutdownComputer.label_ru(), "Выключение ПК (2×)");
    assert_eq!(OsCommand::NoAction.label_ru(), "Нет действия");
}

#[test]
fn command_labels_are_distinct_and_non_empty() {
    let all = OsCommand::all();
    for (i, a) in all.iter().enumerate() {
        assert!(!a.label_ru().is_empty());
        for b in &all[i + 1..] {
            assert_ne!(a.label_ru(), b.label_ru());
        }
    }
}

#[test]
fn trigger_names_are_distinct() {
    let all = GestureId::bindable();
    for (i, a) in all.iter().enumerate() {
        let na = a.user_trigger_ru().unwrap();
        assert!(!na.is_empty());
        for b in &all[i + 1..] {
            assert_ne!(Some(na), b.user_trigger_ru());
        }
    }
}

#[test]
fn default_bindings_per_mode() {
    let map = GestureCommandMap::app_defaults();
    assert_eq!(map.lookup(AppRunMode::Desktop, GestureId::SwipeRight), OsCommand::SwitchNextWindow);
    assert_eq!(map.lookup(AppRunMode::Desktop, GestureId::OpenPalm), OsCommand::LockWorkstation);
    assert_eq!(map.lookup(AppRunMode::Desktop, GestureId::Victory), OsCommand::OpenExplorer);
    assert_eq!(map.lookup(AppRunMode::Media, GestureId::ClosedFist), OsCommand::PlayPause);
    assert_eq!(map.lookup(AppRunMode::Media, GestureId::ThumbUp), OsCommand::VolumeUp);
    assert_eq!(map.lookup(AppRunMode::Media, GestureId::OpenPalm), OsCommand::SwitchAudioOutput);
    assert_eq!(map.lookup(AppRunMode::Browser, GestureId::ThumbDown), OsCommand::BrowserPreviousTab);
    assert_eq!(map.lookup(AppRunMode::Browser, GestureId::ClosedFist), OsCommand::Mute);
    assert_eq!(map.lookup(AppRunMode::Browser, GestureId::NoGesture), OsCommand::NoAction);
}

#[test]
fn set_binding_then_lookup() {
    let mut map = GestureCommandMap::default();
    map.set_binding(AppRunMode::Media, GestureId::Victory, OsCommand::ShutdownComputer);
    assert_eq!(map.lookup(AppRunMode::Media, GestureId::Victory), OsCommand::ShutdownComputer);
    assert_eq!(map.lookup(AppRunMode::Desktop, GestureId::Victory), OsCommand::OpenExplorer);
    assert_eq!(map.table(AppRunMode::Media).get(GestureId::Victory), Some(OsCommand::ShutdownComputer));
}

#[test]
fn binding_table_insert_and_get() {
    let mut t = BindingTable::new();
    assert_eq!(t.get(GestureId::ThumbUp), None);
    t.insert(GestureId::ThumbUp, OsCommand::Mute);
    assert_eq!(t.get(GestureId::ThumbUp), Some(OsCommand::Mute));
    t.insert(GestureId::ThumbUp, OsCommand::VolumeUp);
    assert_eq!(t.get(GestureId::ThumbUp), Some(OsCommand::VolumeUp));
}

#[test]
fn mapper_resolves_through_bindings() {
    let mapper = CommandMapper::with_defaults();
    assert_eq!(mapper.resolve(AppRunMode::Desktop, GestureId::ThumbUp), OsCommand::VolumeUp);
    assert_eq!(mapper.resolve(AppRunMode::Desktop, GestureId::NoGesture), OsCommand::NoAction);
    let mut map = GestureCommandMap::app_defaults();
    map.table_mut(AppRunMode::Desktop).insert(GestureId::ThumbUp, OsCommand::BrightnessUp);
    let mapper = CommandMapper::new(map);
    assert_eq!(mapper.resolve(AppRunMode::Desktop, GestureId::ThumbUp), OsCommand::BrightnessUp);
}

#[test]
fn overrides_skip_unknown_keys() {
    let mut t = GestureCommandMap::app_defaults().desktop;
    let raw = vec![
        pair("ThumbUp", "BrightnessUp"),
        pair("Unknown", "Mute"),
        pair("ThumbDown", "Nonsense"),
        pair(" Victory ", " OpenNotepad "),
    ];
    apply_overrides(&mut t, &raw);
    assert_eq!(t.get(GestureId::ThumbUp), Some(OsCommand::BrightnessUp));
    assert_eq!(t.get(GestureId::ThumbDown), Some(OsCommand::VolumeDown));
    assert_eq!(t.get(GestureId::Victory), Some(OsCommand::OpenNotepad));
}

#[test]
fn table_strings_in_bindable_order() {
    let map = GestureCommandMap::app_defaults();
    let rows = table_to_strings(&map.desktop);
    assert_eq!(rows.len(), 8);
    assert_eq!(rows[0], pair("SwipeLeft", "MinimizeAllWindows"));
    assert_eq!(rows[1], pair("SwipeRight", "SwitchNextWindow"));
    assert_eq!(rows[7], pair("Victory", "OpenExplorer"));
}

#[test]
fn bindings_file_round_trip() {
    let mut map = GestureCommandMap::app_defaults();
    map.set_binding(AppRunMode::Browser, GestureId::Pointing, OsCommand::PlayPause);
    map.set_binding(AppRunMode::Desktop, GestureId::SwipeLeft, OsCommand::NoAction);
    let file = bindings_file(&map);
    let back = merge_with_defaults(&file);
    for mode in [AppRunMode::Desktop, AppRunMode::Media, AppRunMode::Browser] {
        for g in GestureId::bindable() {
            assert_eq!(back.lookup(mode, g), map.lookup(mode, g));
        }
    }
}

#[test]
fn empty_bindings_file_gives_defaults() {
    let file = GestureBindingsFile { desktop: vec![], media: vec![], browser: vec![] };
    let map = merge_with_defaults(&file);
    let defaults = GestureCommandMap::app_defaults();
    for g in GestureId::bindable() {
        assert_eq!(map.lookup(AppRunMode::Media, g), defaults.lookup(AppRunMode::Media, g));
    }
}

#[test]
fn rule_matching_is_case_insensitive() {
    let rule = ContextRule::new("Chrome", "chrome", "", AppRunMode::Browser);
    let fg = ForegroundWindowInfo {
        process_name: "Chrome.EXE".to_string(),
        window_title: "Новая вкладка".to_string(),
    };
    assert!(rule.matches(&fg));
    let other = ForegroundWindowInfo {
        process_name: "code.exe".to_string(),
        window_title: "chrome docs".to_string(),
    };
    assert!(!rule.matches(&other));
    let title_rule = ContextRule::new("YouTube", "", "youtube", AppRunMode::Media);
    let yt = ForegroundWindowInfo {
        process_name: "firefox.exe".to_string(),
        window_title: "Music - YouTube".to_string(),
    };
    assert!(title_rule.matches(&yt));
}

#[test]
fn disabled_rules_never_match_and_empty_patterns_match_all() {
    let fg = ForegroundWindowInfo {
        process_name: "vlc.exe".to_string(),
        window_title: "film".to_string(),
    };
    let empty = ContextRule::new("anything", "  ", "", AppRunMode::Media);
    assert!(empty.matches(&fg));
    let mut disabled = ContextRule::new("VLC", "vlc", "", AppRunMode::Media);
    disabled.enabled = false;
    assert!(!disabled.matches(&fg));
}

#[test]
fn substring_search_ignores_case() {
    assert!(contains_case_insensitive(&chars("Mozilla FIREFOX"), &chars("firefox")));
    assert!(contains_case_insensitive(&chars("abc"), &chars("")));
    assert!(!contains_case_insensitive(&chars("abc"), &chars("abcd")));
}

#[test]
fn manual_context_uses_chosen_mode() {
    let rules = vec![ContextRule::new("VLC", "vlc", "", AppRunMode::Media)];
    let fg = ForegroundWindowInfo { process_name: "vlc.exe".to_string(), window_title: String::new() };
    let r = ContextResolver::resolve(ContextDetectionMode::Manual, AppRunMode::Browser, &rules, Some(&fg));
    assert_eq!(r.mode, AppRunMode::Browser);
    assert_eq!(r.source, ContextDecisionSource::Manual);
    assert_eq!(r.process_name, "vlc.exe");
}

#[test]
fn auto_context_first_matching_rule_wins() {
    let rules = vec![
        ContextRule::new("Browsers", "fire", "", AppRunMode::Browser),
        ContextRule::new("Firefox media", "firefox", "", AppRunMode::Media),
    ];
    let fg = ForegroundWindowInfo { process_name: "firefox.exe".to_string(), window_title: "t".to_string() };
    let r = ContextResolver::resolve(ContextDetectionMode::Auto, AppRunMode::Media, &rules, Some(&fg));
    assert_eq!(r.mode, AppRunMode::Browser);
    assert_eq!(r.source, ContextDecisionSource::Rule);
    assert_eq!(r.matched_rule_name.as_deref(), Some("Browsers"));
}

#[test]
fn auto_context_falls_back_to_desktop() {
    let rules = vec![ContextRule::new("VLC", "vlc", "", AppRunMode::Media)];
    let fg = ForegroundWindowInfo { process_name: "code.exe".to_string(), window_title: String::new() };
    let r = ContextResolver::resolve(ContextDetectionMode::Auto, AppRunMode::Media, &rules, Some(&fg));
    assert_eq!(r.mode, AppRunMode::Desktop);
    assert_eq!(r.source, ContextDecisionSource::Fallback);
    let none = ContextResolver::resolve(ContextDetectionMode::Auto, AppRunMode::Media, &rules, None);
    assert_eq!(none.mode, AppRunMode::Desktop);
    assert_eq!(none.source, ContextDecisionSource::Fallback);
    assert_eq!(none.process_name, "");
}

#[test]
fn context_summary_lists_the_parts() {
    let c = ResolvedAppContext {
        mode: AppRunMode::Media,
        source: ContextDecisionSource::Rule,
        process_name: "vlc.exe".to_string(),
        window_title: String::new(),
        matched_rule_name: Some("VLC".to_string()),
    };
    let s = c.summary_ru();
    assert!(s.starts_with("медиа ("));
    assert!(s.contains(" · правило `VLC`"));
    assert!(s.ends_with(" · vlc.exe"));
    let d = ResolvedAppContext::default();
    assert_eq!(d.mode, AppRunMode::Desktop);
}

#[test]
fn labels_of_modes_and_backends() {
    assert_eq!(AppRunMode::Desktop.label_ru(), "стол");
    assert_eq!(AppRunMode::Browser.label_ru(), "браузер");
    assert_eq!(TemporalDecisionStatus::Confirmed.label_ru(), "подтверждён");
    assert_eq!(GestureBackendKind::Classic.label_ru(), "Классический CV");
    assert_eq!(GestureBackendKind::MediaPipe.label_ru(), "MediaPipe");
    assert!(GestureBackendKind::MediaPipe.description_ru().starts_with("MediaPipe Hands"));
    let cfg = GestureBackendConfig::default();
    assert_eq!(cfg.kind, GestureBackendKind::MediaPipe);
    assert_eq!(cfg.mediapipe_model_path, "");
    let _ = ContextDetectionMode::Auto.label_ru();
}
