//! Default settings: the context rules shipped with the application and the
//! camera settings of the gesture service.
use vstd::prelude::*;
use crate::camera::DEFAULT_DEVICE_LABEL;
use crate::command_mapper::{
    default_browser_table, default_desktop_table, default_media_table, GestureCommandMap,
};
use crate::context::{ContextDetectionMode, ContextRule};
use crate::gesture::AppRunMode;
use crate::gesture_backend::{GestureBackendConfig, GestureBackendKind};

verus! {

/// Rule `r` is the enabled rule with these fields.
pub open spec fn is_rule(r: ContextRule, name: Seq<char>, process: Seq<char>, title: Seq<char>, mode: AppRunMode) -> bool {
    &&& r.name@ == name
    &&& r.enabled
    &&& r.process_name_contains@ == process
    &&& r.window_title_contains@ == title
    &&& r.mode == mode
}

/// The context rules shipped with the application: browsers by process name,
/// media players by process name and video sites by window title.
pub open spec fn is_default_rule_list(r: Seq<ContextRule>) -> bool {
    &&& r.len() == 8
    &&& is_rule(r[0], "Chrome / Edge / Firefox"@, "chrome"@, ""@, AppRunMode::Browser)
    &&& is_rule(r[1], "Microsoft Edge"@, "msedge"@, ""@, AppRunMode::Browser)
    &&& is_rule(r[2], "Firefox"@, "firefox"@, ""@, AppRunMode::Browser)
    &&& is_rule(r[3], "Opera"@, "opera"@, ""@, AppRunMode::Browser)
    &&& is_rule(r[4], "Spotify"@, "spotify"@, ""@, AppRunMode::Media)
    &&& is_rule(r[5], "VLC"@, "vlc"@, ""@, AppRunMode::Media)
    &&& is_rule(r[6], "YouTube вкладка"@, ""@, "youtube"@, AppRunMode::Media)
    &&& is_rule(r[7], "Netflix вкладка"@, ""@, "netflix"@, AppRunMode::Media)
}

/// The context rules shipped with the application.
pub fn default_rules() -> (r: Vec<ContextRule>)
    ensures
        is_default_rule_list(r@),
{
    let mut v: Vec<ContextRule> = Vec::new();
    v.push(ContextRule::new("Chrome / Edge / Firefox", "chrome", "", AppRunMode::Browser));
    v.push(ContextRule::new("Microsoft Edge", "msedge", "", AppRunMode::Browser));
    v.push(ContextRule::new("Firefox", "firefox", "", AppRunMode::Browser));
    v.push(ContextRule::new("Opera", "opera", "", AppRunMode::Browser));
    v.push(ContextRule::new("Spotify", "spotify", "", AppRunMode::Media));
    v.push(ContextRule::new("VLC", "vlc", "", AppRunMode::Media));
    v.push(ContextRule::new("YouTube вкладка", "", "youtube", AppRunMode::Media));
    v.push(ContextRule::new("Netflix вкладка", "", "netflix", AppRunMode::Media));
    v
}

/// The rules to use after reading the rules file: the file's rules when it was
/// read and holds at least one, the shipped defaults otherwise.
pub fn rules_or_defaults(loaded: Option<Vec<ContextRule>>) -> (r: Vec<ContextRule>)
    ensures
        match loaded {
            Some(rules) => if rules@.len() > 0 {
                r@ == rules@
            } else {
                is_default_rule_list(r@)
            },
            None => is_default_rule_list(r@),
        },
{
    match loaded {
        Some(rules) => {
            if rules.len() > 0 {
                rules
            } else {
                default_rules()
            }
        },
        None => default_rules(),
    }
}

/// The longest pause after a command, in milliseconds.
pub const MAX_GESTURE_COOLDOWN_MS: u32 = 600_000;

/// The pause after a command as the service applies it: at most ten minutes.
pub fn live_cooldown_ms(ms: u32) -> (r: u32)
    ensures
        r == if ms > 600_000 {
            600_000
        } else {
            ms
        },
{
    if ms > MAX_GESTURE_COOLDOWN_MS {
        MAX_GESTURE_COOLDOWN_MS
    } else {
        ms
    }
}

/// Video stream and processing settings of the gesture service.
pub struct GestureCameraConfig {
    pub device_display_name: String,
    pub width: u32,
    pub height: u32,
    pub fps: u32,
    pub mirror_horizontal: bool,
    pub manual_run_mode: AppRunMode,
    pub context_detection_mode: ContextDetectionMode,
    pub context_rules: Vec<ContextRule>,
    pub backend: GestureBackendConfig,
    pub command_map: GestureCommandMap,
    /// Pause without recognition after a command, in milliseconds.
    pub gesture_cooldown_ms: u32,
}

impl Default for GestureCameraConfig {
    /// The default camera at 640×480 and 60 frames per second, not mirrored, in the
    /// desktop mode chosen by hand, without rules, with the MediaPipe backend, the
    /// application's bindings and a 1.2 s pause after a command.
    fn default() -> (r: Self)
        ensures
            r.device_display_name@ == DEFAULT_DEVICE_LABEL@,
            r.width == 640,
            r.height == 480,
            r.fps == 60,
            !r.mirror_horizontal,
            r.manual_run_mode == AppRunMode::Desktop,
            r.context_detection_mode == ContextDetectionMode::Manual,
            r.context_rules@.len() == 0,
            r.backend.kind == GestureBackendKind::MediaPipe,
            r.backend.mediapipe_model_path@ == Seq::<char>::empty(),
            r.command_map.desktop@ == default_desktop_table(),
            r.command_map.media@ == default_media_table(),
            r.command_map.browser@ == default_browser_table(),
            r.gesture_cooldown_ms == 1200,
    {
        GestureCameraConfig {
            device_display_name: String::from_str(DEFAULT_DEVICE_LABEL),
            width: 640,
            height: 480,
            fps: 60,
            mirror_horizontal: false,
            manual_run_mode: AppRunMode::Desktop,
            context_detection_mode: ContextDetectionMode::Manual,
            context_rules: Vec::new(),
            backend: GestureBackendConfig::default(),
            command_map: GestureCommandMap::app_defaults(),
            gesture_cooldown_ms: 1200,
        }
    }
}

} // verus!
