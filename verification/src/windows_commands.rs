//! Windows execution of commands: what each command launches, and the result
//! reported from what the launch gave back.
use vstd::prelude::*;
use crate::command::{CommandExecutionResult, OsCommand};

verus! {

/// PowerShell command line that sends Alt+Tab.
pub const SWITCH_NEXT_WINDOW_SCRIPT: &'static str = "$wshell = New-Object -ComObject WScript.Shell; Start-Sleep -Milliseconds 80; $wshell.SendKeys('%{TAB}')";

/// PowerShell command line that minimises every window.
pub const MINIMIZE_ALL_SCRIPT: &'static str = "$shell = New-Object -ComObject Shell.Application; $shell.MinimizeAll()";

/// PowerShell command line that sends Ctrl+Tab.
pub const BROWSER_NEXT_TAB_SCRIPT: &'static str = "$wshell = New-Object -ComObject WScript.Shell; Start-Sleep -Milliseconds 80; $wshell.SendKeys('^{TAB}')";

/// PowerShell command line that sends Ctrl+Shift+Tab.
pub const BROWSER_PREVIOUS_TAB_SCRIPT: &'static str = "$wshell = New-Object -ComObject WScript.Shell; Start-Sleep -Milliseconds 80; $wshell.SendKeys('^+{TAB}')";

/// PowerShell command line that shuts the computer down.
pub const SHUTDOWN_SCRIPT: &'static str = "Stop-Computer -Force";

/// PowerShell script run for one command.
pub const AUDIO_VOLUME_UP_SCRIPT: &'static str = r#"
Add-Type -TypeDefinition @"
using System;
using System.Runtime.InteropServices;
public static class Keyboard {
    [DllImport("user32.dll", SetLastError=true)]
    public static extern void keybd_event(byte bVk, byte bScan, int dwFlags, int dwExtraInfo);
}
"@
[Keyboard]::keybd_event(0xAF, 0, 0, 0)
[Keyboard]::keybd_event(0xAF, 0, 2, 0)
"#;

/// PowerShell script run for one command.
pub const AUDIO_VOLUME_DOWN_SCRIPT: &'static str = r#"
Add-Type -TypeDefinition @"
using System;
using System.Runtime.InteropServices;
public static class Keyboard {
    [DllImport("user32.dll", SetLastError=true)]
    public static extern void keybd_event(byte bVk, byte bScan, int dwFlags, int dwExtraInfo);
}
"@
[Keyboard]::keybd_event(0xAE, 0, 0, 0)
[Keyboard]::keybd_event(0xAE, 0, 2, 0)
"#;

/// PowerShell script run for one command.
pub const AUDIO_VOLUME_MUTE_SCRIPT: &'static str = r#"
Add-Type -TypeDefinition @"
using System;
using System.Runtime.InteropServices;
public static class Keyboard {
    [DllImport("user32.dll", SetLastError=true)]
    public static extern void keybd_event(byte bVk, byte bScan, int dwFlags, int dwExtraInfo);
}
"@
[Keyboard]::keybd_event(0xAD, 0, 0, 0)
[Keyboard]::keybd_event(0xAD, 0, 2, 0)
"#;

/// PowerShell script run for one command.
pub const BRIGHTNESS_UP_SCRIPT: &'static str = r#"
$monitor = Get-WmiObject -Namespace root/WMI -Class WmiMonitorBrightnessMethods -ErrorAction Stop | Select-Object -First 1
$current = Get-WmiObject -Namespace root/WMI -Class WmiMonitorBrightness -ErrorAction Stop | Select-Object -First 1
$target = [Math]::Min($current.CurrentBrightness + 10, 100)
$monitor.WmiSetBrightness(1, $target) | Out-Null
"#;

/// PowerShell script run for one command.
pub const BRIGHTNESS_DOWN_SCRIPT: &'static str = r#"
$monitor = Get-WmiObject -Namespace root/WMI -Class WmiMonitorBrightnessMethods -ErrorAction Stop | Select-Object -First 1
$current = Get-WmiObject -Namespace root/WMI -Class WmiMonitorBrightness -ErrorAction Stop | Select-Object -First 1
$target = [Math]::Max($current.CurrentBrightness - 10, 0)
$monitor.WmiSetBrightness(1, $target) | Out-Null
"#;

/// PowerShell script run for one command.
pub const SWITCH_AUDIO_OUTPUT_SCRIPT: &'static str = r#"
if (Get-Module -ListAvailable -Name AudioDeviceCmdlets) {
    Import-Module AudioDeviceCmdlets
} elseif (Test-Path 'C:\Users\Tsukimi\psmodules\AudioDeviceCmdlets\3.1.0.2\AudioDeviceCmdlets.psd1') {
    Import-Module 'C:\Users\Tsukimi\psmodules\AudioDeviceCmdlets\3.1.0.2\AudioDeviceCmdlets.psd1'
} else {
    throw 'Для переключения аудиовывода нужен PowerShell-модуль AudioDeviceCmdlets.'
}
$devices = Get-AudioDevice -List | Where-Object { $_.Type -eq 'Playback' }
$current = Get-AudioDevice -Playback
if (-not $devices -or $devices.Count -lt 2) {
    throw 'Недостаточно доступных устройств воспроизведения для переключения.'
}
$index = [Array]::IndexOf($devices, ($devices | Where-Object { $_.ID -eq $current.ID } | Select-Object -First 1))
if ($index -lt 0) { $index = 0 }
$next = $devices[($index + 1) % $devices.Count]
Set-AudioDevice -ID $next.ID | Out-Null
"#;

/// PowerShell script run for one command.
pub const WIN_CTRL_ARROW_RIGHT: &'static str = r#"
Add-Type @"
using System;
using System.Runtime.InteropServices;
public class K {
  [DllImport("user32.dll")] public static extern void keybd_event(byte bVk, byte bScan, int dwFlags, int dwExtra);
  public const int KEYEVENTF_KEYUP = 2;
}
"@
[K]::keybd_event(0x5B,0,0,0)
[K]::keybd_event(0x11,0,0,0)
[K]::keybd_event(0x27,0,0,0)
[K]::keybd_event(0x27,0,[K]::KEYEVENTF_KEYUP,0)
[K]::keybd_event(0x11,0,[K]::KEYEVENTF_KEYUP,0)
[K]::keybd_event(0x5B,0,[K]::KEYEVENTF_KEYUP,0)
"#;

/// PowerShell script run for one command.
pub const WIN_CTRL_ARROW_LEFT: &'static str = r#"
Add-Type @"
using System;
using System.Runtime.InteropServices;
public class K {
  [DllImport("user32.dll")] public static extern void keybd_event(byte bVk, byte bScan, int dwFlags, int dwExtra);
  public const int KEYEVENTF_KEYUP = 2;
}
"@
[K]::keybd_event(0x5B,0,0,0)
[K]::keybd_event(0x11,0,0,0)
[K]::keybd_event(0x25,0,0,0)
[K]::keybd_event(0x25,0,[K]::KEYEVENTF_KEYUP,0)
[K]::keybd_event(0x11,0,[K]::KEYEVENTF_KEYUP,0)
[K]::keybd_event(0x5B,0,[K]::KEYEVENTF_KEYUP,0)
"#;

/// PowerShell script run for one command.
pub const MOUSE_WHEEL_UP: &'static str = r#"
Add-Type @"
using System;
using System.Runtime.InteropServices;
public class M {
  [DllImport("user32.dll")] public static extern void mouse_event(int flags, int dx, int dy, int data, int extra);
  public const int MOUSEEVENTF_WHEEL = 0x800;
}
[M]::mouse_event([M]::MOUSEEVENTF_WHEEL,0,0,120,0)
"#;

/// PowerShell script run for one command.
pub const MOUSE_WHEEL_DOWN: &'static str = r#"
Add-Type @"
using System;
using System.Runtime.InteropServices;
public class M {
  [DllImport("user32.dll")] public static extern void mouse_event(int flags, int dx, int dy, int data, int extra);
  public const int MOUSEEVENTF_WHEEL = 0x800;
}
[M]::mouse_event([M]::MOUSEEVENTF_WHEEL,0,0,-120,0)
"#;

/// PowerShell script run for one command.
pub const MEDIA_PLAY_PAUSE: &'static str = r#"
Add-Type @"
using System;
using System.Runtime.InteropServices;
public class K {
  [DllImport("user32.dll")] public static extern void keybd_event(byte bVk, byte bScan, int dwFlags, int dwExtra);
  public const int KEYEVENTF_KEYUP = 2;
}
"@
[K]::keybd_event(0xB3,0,0,0)
[K]::keybd_event(0xB3,0,[K]::KEYEVENTF_KEYUP,0)
"#;

/// PowerShell script run for one command.
pub const WIN_X_MENU: &'static str = r#"
Add-Type @"
using System;
using System.Runtime.InteropServices;
public class K {
  [DllImport("user32.dll")] public static extern void keybd_event(byte bVk, byte bScan, int dwFlags, int dwExtra);
  public const int KEYEVENTF_KEYUP = 2;
}
"@
[K]::keybd_event(0x5B,0,0,0)
[K]::keybd_event(0x58,0,0,0)
[K]::keybd_event(0x58,0,[K]::KEYEVENTF_KEYUP,0)
[K]::keybd_event(0x5B,0,[K]::KEYEVENTF_KEYUP,0)
"#;


/// What carrying out a command on Windows launches.
#[derive(Clone, Debug)]
pub enum CommandLaunch {
    /// Nothing is launched.
    Nothing,
    /// A program started with arguments, not waited for.
    Program { program: String, args: Vec<String> },
    /// A PowerShell script run to completion; its exit status decides success.
    PowerShell { script: String },
}

/// The launch of a command together with the texts that report its outcome.
#[derive(Clone, Debug)]
pub struct WindowsCommandPlan {
    pub launch: CommandLaunch,
    pub success: String,
    pub failure: String,
}

/// The PowerShell script that carries out a command, for the commands that use one.
pub open spec fn powershell_script(c: OsCommand) -> Seq<char> {
    match c {
        OsCommand::VolumeUp => AUDIO_VOLUME_UP_SCRIPT@,
        OsCommand::VolumeDown => AUDIO_VOLUME_DOWN_SCRIPT@,
        OsCommand::Mute => AUDIO_VOLUME_MUTE_SCRIPT@,
        OsCommand::BrightnessUp => BRIGHTNESS_UP_SCRIPT@,
        OsCommand::BrightnessDown => BRIGHTNESS_DOWN_SCRIPT@,
        OsCommand::SwitchAudioOutput => SWITCH_AUDIO_OUTPUT_SCRIPT@,
        OsCommand::SwitchNextWindow => SWITCH_NEXT_WINDOW_SCRIPT@,
        OsCommand::MinimizeAllWindows => MINIMIZE_ALL_SCRIPT@,
        OsCommand::BrowserNextTab => BROWSER_NEXT_TAB_SCRIPT@,
        OsCommand::BrowserPreviousTab => BROWSER_PREVIOUS_TAB_SCRIPT@,
        OsCommand::NextDesktop => WIN_CTRL_ARROW_RIGHT@,
        OsCommand::PreviousDesktop => WIN_CTRL_ARROW_LEFT@,
        OsCommand::ScrollUp => MOUSE_WHEEL_UP@,
        OsCommand::ScrollDown => MOUSE_WHEEL_DOWN@,
        OsCommand::PlayPause => MEDIA_PLAY_PAUSE@,
        OsCommand::OpenMenu => WIN_X_MENU@,
        OsCommand::ShutdownComputer => SHUTDOWN_SCRIPT@,
        _ => Seq::empty(),
    }
}

/// Whether a command is carried out by a PowerShell script.
pub open spec fn uses_powershell(c: OsCommand) -> bool {
    !(c == OsCommand::NoAction || c == OsCommand::LockWorkstation || c == OsCommand::OpenNotepad
        || c == OsCommand::OpenExplorer)
}

/// The text reported when a command's launch succeeds.
pub open spec fn success_text(c: OsCommand) -> Seq<char> {
    match c {
        OsCommand::NoAction => "Нет действия."@,
        OsCommand::LockWorkstation => "Сеанс Windows заблокирован."@,
        OsCommand::OpenNotepad => "Блокнот запущен."@,
        OsCommand::OpenExplorer => "Проводник запущен."@,
        OsCommand::VolumeUp => "Громкость увеличена."@,
        OsCommand::VolumeDown => "Громкость уменьшена."@,
        OsCommand::Mute => "Mute переключён."@,
        OsCommand::BrightnessUp => "Яркость увеличена."@,
        OsCommand::BrightnessDown => "Яркость уменьшена."@,
        OsCommand::SwitchAudioOutput => "Аудиовыход переключён."@,
        OsCommand::SwitchNextWindow => "Переключение окна отправлено."@,
        OsCommand::MinimizeAllWindows => "Все окна свернуты."@,
        OsCommand::BrowserNextTab => "Следующая вкладка браузера."@,
        OsCommand::BrowserPreviousTab => "Предыдущая вкладка браузера."@,
        OsCommand::NextDesktop => "Следующий виртуальный рабочий стол."@,
        OsCommand::PreviousDesktop => "Предыдущий виртуальный рабочий стол."@,
        OsCommand::ScrollUp => "Прокрутка вверх."@,
        OsCommand::ScrollDown => "Прокрутка вниз."@,
        OsCommand::PlayPause => "Play/Pause."@,
        OsCommand::OpenMenu => "Открыто меню Win+X."@,
        OsCommand::ShutdownComputer => "Команда выключения отправлена."@,
    }
}

/// The text reported when a command's launch fails.
pub open spec fn failure_text(c: OsCommand) -> Seq<char> {
    match c {
        OsCommand::NoAction => ""@,
        OsCommand::LockWorkstation => "Не удалось заблокировать сеанс."@,
        OsCommand::OpenNotepad => "Не удалось запустить Блокнот."@,
        OsCommand::OpenExplorer => "Не удалось запустить Проводник."@,
        _ => "Ошибка выполнения команды в Windows."@,
    }
}

/// Whether `l` is what carrying out `c` on Windows launches.
pub open spec fn is_launch_of(l: CommandLaunch, c: OsCommand) -> bool {
    match c {
        OsCommand::NoAction => l is Nothing,
        OsCommand::LockWorkstation => l matches CommandLaunch::Program { program, args }
            && program@ == "rundll32.exe"@ && args@.len() == 1 && args@[0]@
            == "user32.dll,LockWorkStation"@,
        OsCommand::OpenNotepad => l matches CommandLaunch::Program { program, args }
            && program@ == "notepad"@ && args@.len() == 0,
        OsCommand::OpenExplorer => l matches CommandLaunch::Program { program, args }
            && program@ == "explorer"@ && args@.len() == 0,
        _ => l matches CommandLaunch::PowerShell { script } && script@ == powershell_script(c),
    }
}

fn powershell_script_text(c: OsCommand) -> (r: &'static str)
    requires
        uses_powershell(c),
    ensures
        r@ == powershell_script(c),
{
    match c {
        OsCommand::VolumeUp => AUDIO_VOLUME_UP_SCRIPT,
        OsCommand::VolumeDown => AUDIO_VOLUME_DOWN_SCRIPT,
        OsCommand::Mute => AUDIO_VOLUME_MUTE_SCRIPT,
        OsCommand::BrightnessUp => BRIGHTNESS_UP_SCRIPT,
        OsCommand::BrightnessDown => BRIGHTNESS_DOWN_SCRIPT,
        OsCommand::SwitchAudioOutput => SWITCH_AUDIO_OUTPUT_SCRIPT,
        OsCommand::SwitchNextWindow => SWITCH_NEXT_WINDOW_SCRIPT,
        OsCommand::MinimizeAllWindows => MINIMIZE_ALL_SCRIPT,
        OsCommand::BrowserNextTab => BROWSER_NEXT_TAB_SCRIPT,
        OsCommand::BrowserPreviousTab => BROWSER_PREVIOUS_TAB_SCRIPT,
        OsCommand::NextDesktop => WIN_CTRL_ARROW_RIGHT,
        OsCommand::PreviousDesktop => WIN_CTRL_ARROW_LEFT,
        OsCommand::ScrollUp => MOUSE_WHEEL_UP,
        OsCommand::ScrollDown => MOUSE_WHEEL_DOWN,
        OsCommand::PlayPause => MEDIA_PLAY_PAUSE,
        OsCommand::OpenMenu => WIN_X_MENU,
        _ => SHUTDOWN_SCRIPT,
    }
}

fn success_text_of(c: OsCommand) -> (r: &'static str)
    ensures
        r@ == success_text(c),
{
    match c {
        OsCommand::NoAction => "Нет действия.",
        OsCommand::LockWorkstation => "Сеанс Windows заблокирован.",
        OsCommand::OpenNotepad => "Блокнот запущен.",
        OsCommand::OpenExplorer => "Проводник запущен.",
        OsCommand::VolumeUp => "Громкость увеличена.",
        OsCommand::VolumeDown => "Громкость уменьшена.",
        OsCommand::Mute => "Mute переключён.",
        OsCommand::BrightnessUp => "Яркость увеличена.",
        OsCommand::BrightnessDown => "Яркость уменьшена.",
        OsCommand::SwitchAudioOutput => "Аудиовыход переключён.",
        OsCommand::SwitchNextWindow => "Переключение окна отправлено.",
        OsCommand::MinimizeAllWindows => "Все окна свернуты.",
        OsCommand::BrowserNextTab => "Следующая вкладка браузера.",
        OsCommand::BrowserPreviousTab => "Предыдущая вкладка браузера.",
        OsCommand::NextDesktop => "Следующий виртуальный рабочий стол.",
        OsCommand::PreviousDesktop => "Предыдущий виртуальный рабочий стол.",
        OsCommand::ScrollUp => "Прокрутка вверх.",
        OsCommand::ScrollDown => "Прокрутка вниз.",
        OsCommand::PlayPause => "Play/Pause.",
        OsCommand::OpenMenu => "Открыто меню Win+X.",
        OsCommand::ShutdownComputer => "Команда выключения отправлена.",
    }
}

fn failure_text_of(c: OsCommand) -> (r: &'static str)
    ensures
        r@ == failure_text(c),
{
    match c {
        OsCommand::NoAction => "",
        OsCommand::LockWorkstation => "Не удалось заблокировать сеанс.",
        OsCommand::OpenNotepad => "Не удалось запустить Блокнот.",
        OsCommand::OpenExplorer => "Не удалось запустить Проводник.",
        _ => "Ошибка выполнения команды в Windows.",
    }
}

/// Runs commands through PowerShell, `rundll32` and program launches on Windows.
pub struct WindowsPipelineOsAdapter;

impl WindowsPipelineOsAdapter {
    pub fn new() -> (r: Self) {
        WindowsPipelineOsAdapter
    }

    /// What carrying out `command` launches, with the texts that report the outcome.
    pub fn plan(&self, command: OsCommand) -> (r: WindowsCommandPlan)
        ensures
            is_launch_of(r.launch, command),
            r.success@ == success_text(command),
            r.failure@ == failure_text(command),
    {
        let launch = match command {
            OsCommand::NoAction => CommandLaunch::Nothing,
            OsCommand::LockWorkstation => {
                let mut args: Vec<String> = Vec::new();
                args.push(String::from_str("user32.dll,LockWorkStation"));
                CommandLaunch::Program { program: String::from_str("rundll32.exe"), args }
            },
            OsCommand::OpenNotepad => CommandLaunch::Program {
                program: String::from_str("notepad"),
                args: Vec::new(),
            },
            OsCommand::OpenExplorer => CommandLaunch::Program {
                program: String::from_str("explorer"),
                args: Vec::new(),
            },
            _ => CommandLaunch::PowerShell {
                script: String::from_str(powershell_script_text(command)),
            },
        };
        WindowsCommandPlan {
            launch,
            success: String::from_str(success_text_of(command)),
            failure: String::from_str(failure_text_of(command)),
        }
    }

    /// The result of carrying out `command`, given what launching its plan gave back:
    /// `NoAction` launches nothing and succeeds; any other command succeeds exactly
    /// when its launch did, and a failed launch reports the system's error.
    pub fn execute(&self, command: OsCommand, launched: Result<(), String>) -> (r: CommandExecutionResult)
        ensures
            command == OsCommand::NoAction ==> r.ok && r.description@ == success_text(command)
                && r.system_error is None,
            command != OsCommand::NoAction ==> match launched {
                Ok(()) => r.ok && r.description@ == success_text(command) && r.system_error is None,
                Err(e) => !r.ok && r.description@ == failure_text(command) && r.system_error
                    == Some(e),
            },
    {
        if let OsCommand::NoAction = command {
            return CommandExecutionResult {
                ok: true,
                description: String::from_str(success_text_of(command)),
                system_error: None,
            };
        }
        match launched {
            Ok(()) => CommandExecutionResult {
                ok: true,
                description: String::from_str(success_text_of(command)),
                system_error: None,
            },
            Err(e) => CommandExecutionResult {
                ok: false,
                description: String::from_str(failure_text_of(command)),
                system_error: Some(e),
            },
        }
    }

    /// The result on a system that is not Windows: nothing is run.
    pub fn unavailable(&self) -> (r: CommandExecutionResult)
        ensures
            !r.ok,
            r.description@ == "Windows-адаптер недоступен на этой платформе."@,
            r.system_error is None,
    {
        CommandExecutionResult {
            ok: false,
            description: String::from_str("Windows-адаптер недоступен на этой платформе."),
            system_error: None,
        }
    }
}

impl Default for WindowsPipelineOsAdapter {
    fn default() -> (r: Self) {
        WindowsPipelineOsAdapter
    }
}

/// Scrolling turns the mouse wheel in the command's own direction: whatever carries
/// out `ScrollUp` runs the wheel-up script and whatever carries out `ScrollDown` the
/// wheel-down one. The up script ends by sending a wheel turn of +120, the down
/// script one of -120.
pub proof fn lemma_scroll_direction(l: CommandLaunch, c: OsCommand)
    requires
        is_launch_of(l, c),
        c == OsCommand::ScrollUp || c == OsCommand::ScrollDown,
    ensures
        l matches CommandLaunch::PowerShell { script } && script@ == if c == OsCommand::ScrollUp {
            MOUSE_WHEEL_UP@
        } else {
            MOUSE_WHEEL_DOWN@
        },
        MOUSE_WHEEL_UP@.subrange(MOUSE_WHEEL_UP@.len() - 52, MOUSE_WHEEL_UP@.len() as int) == "\n[M]::mouse_event([M]::MOUSEEVENTF_WHEEL,0,0,120,0)\n"@,
        MOUSE_WHEEL_DOWN@.subrange(MOUSE_WHEEL_DOWN@.len() - 53, MOUSE_WHEEL_DOWN@.len() as int)
            == "\n[M]::mouse_event([M]::MOUSEEVENTF_WHEEL,0,0,-120,0)\n"@,
{
    reveal_strlit(r#"
Add-Type @"
using System;
using System.Runtime.InteropServices;
public class M {
  [DllImport("user32.dll")] public static extern void mouse_event(int flags, int dx, int dy, int data, int extra);
  public const int MOUSEEVENTF_WHEEL = 0x800;
}
[M]::mouse_event([M]::MOUSEEVENTF_WHEEL,0,0,120,0)
"#);
    reveal_strlit(r#"
Add-Type @"
using System;
using System.Runtime.InteropServices;
public class M {
  [DllImport("user32.dll")] public static extern void mouse_event(int flags, int dx, int dy, int data, int extra);
  public const int MOUSEEVENTF_WHEEL = 0x800;
}
[M]::mouse_event([M]::MOUSEEVENTF_WHEEL,0,0,-120,0)
"#);
    reveal_strlit("\n[M]::mouse_event([M]::MOUSEEVENTF_WHEEL,0,0,120,0)\n");
    reveal_strlit("\n[M]::mouse_event([M]::MOUSEEVENTF_WHEEL,0,0,-120,0)\n");
    assert(MOUSE_WHEEL_UP@.subrange(MOUSE_WHEEL_UP@.len() - 52, MOUSE_WHEEL_UP@.len() as int) =~= "\n[M]::mouse_event([M]::MOUSEEVENTF_WHEEL,0,0,120,0)\n"@);
    assert(MOUSE_WHEEL_DOWN@.subrange(MOUSE_WHEEL_DOWN@.len() - 53, MOUSE_WHEEL_DOWN@.len() as int)
        =~= "\n[M]::mouse_event([M]::MOUSEEVENTF_WHEEL,0,0,-120,0)\n"@);
}

} // verus!
