//! Abstract operating-system commands that gestures trigger.
use vstd::prelude::*;

use crate::text::{chars_equal_str, chars_of, trim_chars, trimmed};

verus! {

/// An abstract command of the operating system.
#[derive(Clone, Copy, Debug, PartialEq, Eq, Hash, Structural)]
pub enum OsCommand {
    VolumeUp,
    VolumeDown,
    NextDesktop,
    PreviousDesktop,
    ScrollUp,
    ScrollDown,
    PlayPause,
    Mute,
    OpenMenu,
    NoAction,
    SwitchNextWindow,
    LockWorkstation,
    MinimizeAllWindows,
    BrowserNextTab,
    BrowserPreviousTab,
    BrightnessUp,
    BrightnessDown,
    SwitchAudioOutput,
    OpenNotepad,
    OpenExplorer,
    ShutdownComputer,
}

/// The user-facing (Russian) label of a command.
pub open spec fn command_label(c: OsCommand) -> Seq<char> {
    match c {
        OsCommand::VolumeUp => "Громкость +"@,
        OsCommand::VolumeDown => "Громкость −"@,
        OsCommand::NextDesktop => "Следующий вирт. стол"@,
        OsCommand::PreviousDesktop => "Предыдущий вирт. стол"@,
        OsCommand::ScrollUp => "Прокрутка вверх"@,
        OsCommand::ScrollDown => "Прокрутка вниз"@,
        OsCommand::PlayPause => "Пауза / воспроизведение"@,
        OsCommand::Mute => "Без звука"@,
        OsCommand::OpenMenu => "Меню Win+X"@,
        OsCommand::NoAction => "Нет действия"@,
        OsCommand::SwitchNextWindow => "Следующее окно (Alt+Tab)"@,
        OsCommand::LockWorkstation => "Заблокировать ПК"@,
        OsCommand::MinimizeAllWindows => "Свернуть всё (Win+D)"@,
        OsCommand::BrowserNextTab => "Браузер: следующая вкладка"@,
        OsCommand::BrowserPreviousTab => "Браузер: предыдущая вкладка"@,
        OsCommand::BrightnessUp => "Яркость +"@,
        OsCommand::BrightnessDown => "Яркость −"@,
        OsCommand::SwitchAudioOutput => "Сменить аудиовыход"@,
        OsCommand::OpenNotepad => "Блокнот"@,
        OsCommand::OpenExplorer => "Проводник"@,
        OsCommand::ShutdownComputer => "Выключение ПК (2×)"@,
    }
}

/// The key of a command in the bindings file (its variant name).
pub open spec fn command_wire_text(c: OsCommand) -> Seq<char> {
    match c {
        OsCommand::VolumeUp => "VolumeUp"@,
        OsCommand::VolumeDown => "VolumeDown"@,
        OsCommand::NextDesktop => "NextDesktop"@,
        OsCommand::PreviousDesktop => "PreviousDesktop"@,
        OsCommand::ScrollUp => "ScrollUp"@,
        OsCommand::ScrollDown => "ScrollDown"@,
        OsCommand::PlayPause => "PlayPause"@,
        OsCommand::Mute => "Mute"@,
        OsCommand::OpenMenu => "OpenMenu"@,
        OsCommand::NoAction => "NoAction"@,
        OsCommand::SwitchNextWindow => "SwitchNextWindow"@,
        OsCommand::LockWorkstation => "LockWorkstation"@,
        OsCommand::MinimizeAllWindows => "MinimizeAllWindows"@,
        OsCommand::BrowserNextTab => "BrowserNextTab"@,
        OsCommand::BrowserPreviousTab => "BrowserPreviousTab"@,
        OsCommand::BrightnessUp => "BrightnessUp"@,
        OsCommand::BrightnessDown => "BrightnessDown"@,
        OsCommand::SwitchAudioOutput => "SwitchAudioOutput"@,
        OsCommand::OpenNotepad => "OpenNotepad"@,
        OsCommand::OpenExplorer => "OpenExplorer"@,
        OsCommand::ShutdownComputer => "ShutdownComputer"@,
    }
}

/// The command whose bindings-file key is exactly `t`.
pub open spec fn command_for_wire_text(t: Seq<char>) -> Option<OsCommand> {
    if t == "VolumeUp"@ {
        Some(OsCommand::VolumeUp)
    } else if t == "VolumeDown"@ {
        Some(OsCommand::VolumeDown)
    } else if t == "NextDesktop"@ {
        Some(OsCommand::NextDesktop)
    } else if t == "PreviousDesktop"@ {
        Some(OsCommand::PreviousDesktop)
    } else if t == "ScrollUp"@ {
        Some(OsCommand::ScrollUp)
    } else if t == "ScrollDown"@ {
        Some(OsCommand::ScrollDown)
    } else if t == "PlayPause"@ {
        Some(OsCommand::PlayPause)
    } else if t == "Mute"@ {
        Some(OsCommand::Mute)
    } else if t == "OpenMenu"@ {
        Some(OsCommand::OpenMenu)
    } else if t == "NoAction"@ {
        Some(OsCommand::NoAction)
    } else if t == "SwitchNextWindow"@ {
        Some(OsCommand::SwitchNextWindow)
    } else if t == "LockWorkstation"@ {
        Some(OsCommand::LockWorkstation)
    } else if t == "MinimizeAllWindows"@ {
        Some(OsCommand::MinimizeAllWindows)
    } else if t == "BrowserNextTab"@ {
        Some(OsCommand::BrowserNextTab)
    } else if t == "BrowserPreviousTab"@ {
        Some(OsCommand::BrowserPreviousTab)
    } else if t == "BrightnessUp"@ {
        Some(OsCommand::BrightnessUp)
    } else if t == "BrightnessDown"@ {
        Some(OsCommand::BrightnessDown)
    } else if t == "SwitchAudioOutput"@ {
        Some(OsCommand::SwitchAudioOutput)
    } else if t == "OpenNotepad"@ {
        Some(OsCommand::OpenNotepad)
    } else if t == "OpenExplorer"@ {
        Some(OsCommand::OpenExplorer)
    } else if t == "ShutdownComputer"@ {
        Some(OsCommand::ShutdownComputer)
    } else {
        None
    }
}

/// Every command, in the order the bindings editor offers them.
pub open spec fn all_commands_seq() -> Seq<OsCommand> {
    seq![
        OsCommand::NoAction,
        OsCommand::VolumeUp,
        OsCommand::VolumeDown,
        OsCommand::NextDesktop,
        OsCommand::PreviousDesktop,
        OsCommand::ScrollUp,
        OsCommand::ScrollDown,
        OsCommand::PlayPause,
        OsCommand::Mute,
        OsCommand::OpenMenu,
        OsCommand::SwitchNextWindow,
        OsCommand::LockWorkstation,
        OsCommand::MinimizeAllWindows,
        OsCommand::BrowserNextTab,
        OsCommand::BrowserPreviousTab,
        OsCommand::BrightnessUp,
        OsCommand::BrightnessDown,
        OsCommand::SwitchAudioOutput,
        OsCommand::OpenNotepad,
        OsCommand::OpenExplorer,
        OsCommand::ShutdownComputer,
    ]
}

impl OsCommand {
    /// Every command, in the order the bindings editor offers them.
    pub fn all() -> (r: Vec<OsCommand>)
        ensures
            r@ == all_commands_seq(),
    {
        let mut v: Vec<OsCommand> = Vec::new();
        v.push(OsCommand::NoAction);
        v.push(OsCommand::VolumeUp);
        v.push(OsCommand::VolumeDown);
        v.push(OsCommand::NextDesktop);
        v.push(OsCommand::PreviousDesktop);
        v.push(OsCommand::ScrollUp);
        v.push(OsCommand::ScrollDown);
        v.push(OsCommand::PlayPause);
        v.push(OsCommand::Mute);
        v.push(OsCommand::OpenMenu);
        v.push(OsCommand::SwitchNextWindow);
        v.push(OsCommand::LockWorkstation);
        v.push(OsCommand::MinimizeAllWindows);
        v.push(OsCommand::BrowserNextTab);
        v.push(OsCommand::BrowserPreviousTab);
        v.push(OsCommand::BrightnessUp);
        v.push(OsCommand::BrightnessDown);
        v.push(OsCommand::SwitchAudioOutput);
        v.push(OsCommand::OpenNotepad);
        v.push(OsCommand::OpenExplorer);
        v.push(OsCommand::ShutdownComputer);
        v
    }

    /// The user-facing label of the command.
    pub fn label_ru(self) -> (r: &'static str)
        ensures
            r@ == command_label(self),
    {
        match self {
            OsCommand::VolumeUp => "Громкость +",
            OsCommand::VolumeDown => "Громкость −",
            OsCommand::NextDesktop => "Следующий вирт. стол",
            OsCommand::PreviousDesktop => "Предыдущий вирт. стол",
            OsCommand::ScrollUp => "Прокрутка вверх",
            OsCommand::ScrollDown => "Прокрутка вниз",
            OsCommand::PlayPause => "Пауза / воспроизведение",
            OsCommand::Mute => "Без звука",
            OsCommand::OpenMenu => "Меню Win+X",
            OsCommand::NoAction => "Нет действия",
            OsCommand::SwitchNextWindow => "Следующее окно (Alt+Tab)",
            OsCommand::LockWorkstation => "Заблокировать ПК",
            OsCommand::MinimizeAllWindows => "Свернуть всё (Win+D)",
            OsCommand::BrowserNextTab => "Браузер: следующая вкладка",
            OsCommand::BrowserPreviousTab => "Браузер: предыдущая вкладка",
            OsCommand::BrightnessUp => "Яркость +",
            OsCommand::BrightnessDown => "Яркость −",
            OsCommand::SwitchAudioOutput => "Сменить аудиовыход",
            OsCommand::OpenNotepad => "Блокнот",
            OsCommand::OpenExplorer => "Проводник",
            OsCommand::ShutdownComputer => "Выключение ПК (2×)",
        }
    }

    /// Key of the command in the bindings file.
    pub fn wire_key(self) -> (r: &'static str)
        ensures
            r@ == command_wire_text(self),
    {
        match self {
            OsCommand::VolumeUp => "VolumeUp",
            OsCommand::VolumeDown => "VolumeDown",
            OsCommand::NextDesktop => "NextDesktop",
            OsCommand::PreviousDesktop => "PreviousDesktop",
            OsCommand::ScrollUp => "ScrollUp",
            OsCommand::ScrollDown => "ScrollDown",
            OsCommand::PlayPause => "PlayPause",
            OsCommand::Mute => "Mute",
            OsCommand::OpenMenu => "OpenMenu",
            OsCommand::NoAction => "NoAction",
            OsCommand::SwitchNextWindow => "SwitchNextWindow",
            OsCommand::LockWorkstation => "LockWorkstation",
            OsCommand::MinimizeAllWindows => "MinimizeAllWindows",
            OsCommand::BrowserNextTab => "BrowserNextTab",
            OsCommand::BrowserPreviousTab => "BrowserPreviousTab",
            OsCommand::BrightnessUp => "BrightnessUp",
            OsCommand::BrightnessDown => "BrightnessDown",
            OsCommand::SwitchAudioOutput => "SwitchAudioOutput",
            OsCommand::OpenNotepad => "OpenNotepad",
            OsCommand::OpenExplorer => "OpenExplorer",
            OsCommand::ShutdownComputer => "ShutdownComputer",
        }
    }

    /// Parses a bindings-file key; surrounding whitespace is ignored.
    pub fn parse_wire_key(s: &str) -> (r: Option<OsCommand>)
        ensures
            r == command_for_wire_text(trimmed(s@)),
    {
        let t = trim_chars(&chars_of(s));
        if chars_equal_str(&t, "VolumeUp") {
            Some(OsCommand::VolumeUp)
        } else if chars_equal_str(&t, "VolumeDown") {
            Some(OsCommand::VolumeDown)
        } else if chars_equal_str(&t, "NextDesktop") {
            Some(OsCommand::NextDesktop)
        } else if chars_equal_str(&t, "PreviousDesktop") {
            Some(OsCommand::PreviousDesktop)
        } else if chars_equal_str(&t, "ScrollUp") {
            Some(OsCommand::ScrollUp)
        } else if chars_equal_str(&t, "ScrollDown") {
            Some(OsCommand::ScrollDown)
        } else if chars_equal_str(&t, "PlayPause") {
            Some(OsCommand::PlayPause)
        } else if chars_equal_str(&t, "Mute") {
            Some(OsCommand::Mute)
        } else if chars_equal_str(&t, "OpenMenu") {
            Some(OsCommand::OpenMenu)
        } else if chars_equal_str(&t, "NoAction") {
            Some(OsCommand::NoAction)
        } else if chars_equal_str(&t, "SwitchNextWindow") {
            Some(OsCommand::SwitchNextWindow)
        } else if chars_equal_str(&t, "LockWorkstation") {
            Some(OsCommand::LockWorkstation)
        } else if chars_equal_str(&t, "MinimizeAllWindows") {
            Some(OsCommand::MinimizeAllWindows)
        } else if chars_equal_str(&t, "BrowserNextTab") {
            Some(OsCommand::BrowserNextTab)
        } else if chars_equal_str(&t, "BrowserPreviousTab") {
            Some(OsCommand::BrowserPreviousTab)
        } else if chars_equal_str(&t, "BrightnessUp") {
            Some(OsCommand::BrightnessUp)
        } else if chars_equal_str(&t, "BrightnessDown") {
            Some(OsCommand::BrightnessDown)
        } else if chars_equal_str(&t, "SwitchAudioOutput") {
            Some(OsCommand::SwitchAudioOutput)
        } else if chars_equal_str(&t, "OpenNotepad") {
            Some(OsCommand::OpenNotepad)
        } else if chars_equal_str(&t, "OpenExplorer") {
            Some(OsCommand::OpenExplorer)
        } else if chars_equal_str(&t, "ShutdownComputer") {
            Some(OsCommand::ShutdownComputer)
        } else {
            None
        }
    }
}

/// The bindings-file key of every command parses back to that command, also when it is
/// surrounded by whitespace.
pub proof fn lemma_command_wire_key_round_trip(c: OsCommand)
    ensures
        command_for_wire_text(trimmed(command_wire_text(c))) == Some(c),
{
    reveal_strlit("VolumeUp");
    reveal_strlit("VolumeDown");
    reveal_strlit("NextDesktop");
    reveal_strlit("PreviousDesktop");
    reveal_strlit("ScrollUp");
    reveal_strlit("ScrollDown");
    reveal_strlit("PlayPause");
    reveal_strlit("Mute");
    reveal_strlit("OpenMenu");
    reveal_strlit("NoAction");
    reveal_strlit("SwitchNextWindow");
    reveal_strlit("LockWorkstation");
    reveal_strlit("MinimizeAllWindows");
    reveal_strlit("BrowserNextTab");
    reveal_strlit("BrowserPreviousTab");
    reveal_strlit("BrightnessUp");
    reveal_strlit("BrightnessDown");
    reveal_strlit("SwitchAudioOutput");
    reveal_strlit("OpenNotepad");
    reveal_strlit("OpenExplorer");
    reveal_strlit("ShutdownComputer");
    crate::text::lemma_trimmed_no_space(command_wire_text(c));
}

/// Length, first two and last character of a command's label.
spec fn label_signature(c: OsCommand) -> (nat, char, char, char) {
    match c {
        OsCommand::VolumeUp => (11, 'Г', 'р', '+'),
        OsCommand::VolumeDown => (11, 'Г', 'р', '−'),
        OsCommand::NextDesktop => (20, 'С', 'л', 'л'),
        OsCommand::PreviousDesktop => (21, 'П', 'р', 'л'),
        OsCommand::ScrollUp => (15, 'П', 'р', 'х'),
        OsCommand::ScrollDown => (14, 'П', 'р', 'з'),
        OsCommand::PlayPause => (23, 'П', 'а', 'е'),
        OsCommand::Mute => (9, 'Б', 'е', 'а'),
        OsCommand::OpenMenu => (10, 'М', 'е', 'X'),
        OsCommand::NoAction => (12, 'Н', 'е', 'я'),
        OsCommand::SwitchNextWindow => (24, 'С', 'л', ')'),
        OsCommand::LockWorkstation => (16, 'З', 'а', 'К'),
        OsCommand::MinimizeAllWindows => (20, 'С', 'в', ')'),
        OsCommand::BrowserNextTab => (26, 'Б', 'р', 'а'),
        OsCommand::BrowserPreviousTab => (27, 'Б', 'р', 'а'),
        OsCommand::BrightnessUp => (9, 'Я', 'р', '+'),
        OsCommand::BrightnessDown => (9, 'Я', 'р', '−'),
        OsCommand::SwitchAudioOutput => (18, 'С', 'м', 'д'),
        OsCommand::OpenNotepad => (7, 'Б', 'л', 'т'),
        OsCommand::OpenExplorer => (9, 'П', 'р', 'к'),
        OsCommand::ShutdownComputer => (18, 'В', 'ы', ')'),
    }
}

proof fn lemma_label_signature(c: OsCommand)
    ensures
        command_label(c).len() == label_signature(c).0,
        command_label(c)[0] == label_signature(c).1,
        command_label(c)[1] == label_signature(c).2,
        command_label(c)[command_label(c).len() - 1] == label_signature(c).3,
{
    reveal_strlit("Громкость +");
    reveal_strlit("Громкость −");
    reveal_strlit("Следующий вирт. стол");
    reveal_strlit("Предыдущий вирт. стол");
    reveal_strlit("Прокрутка вверх");
    reveal_strlit("Прокрутка вниз");
    reveal_strlit("Пауза / воспроизведение");
    reveal_strlit("Без звука");
    reveal_strlit("Меню Win+X");
    reveal_strlit("Нет действия");
    reveal_strlit("Следующее окно (Alt+Tab)");
    reveal_strlit("Заблокировать ПК");
    reveal_strlit("Свернуть всё (Win+D)");
    reveal_strlit("Браузер: следующая вкладка");
    reveal_strlit("Браузер: предыдущая вкладка");
    reveal_strlit("Яркость +");
    reveal_strlit("Яркость −");
    reveal_strlit("Сменить аудиовыход");
    reveal_strlit("Блокнот");
    reveal_strlit("Проводник");
    reveal_strlit("Выключение ПК (2×)");
}

/// Every command has a non-empty label, and different commands have different labels.
pub proof fn lemma_command_labels_distinct(a: OsCommand, b: OsCommand)
    ensures
        command_label(a).len() > 0,
        a != b ==> command_label(a) != command_label(b),
{
    lemma_label_signature(a);
    lemma_label_signature(b);
}

/// Every command occurs in the editor list, which has one entry per command.
pub proof fn lemma_all_commands_listed(c: OsCommand)
    ensures
        all_commands_seq().contains(c),
        all_commands_seq().len() == 21,
{
    let i: int = match c {
        OsCommand::NoAction => 0,
        OsCommand::VolumeUp => 1,
        OsCommand::VolumeDown => 2,
        OsCommand::NextDesktop => 3,
        OsCommand::PreviousDesktop => 4,
        OsCommand::ScrollUp => 5,
        OsCommand::ScrollDown => 6,
        OsCommand::PlayPause => 7,
        OsCommand::Mute => 8,
        OsCommand::OpenMenu => 9,
        OsCommand::SwitchNextWindow => 10,
        OsCommand::LockWorkstation => 11,
        OsCommand::MinimizeAllWindows => 12,
        OsCommand::BrowserNextTab => 13,
        OsCommand::BrowserPreviousTab => 14,
        OsCommand::BrightnessUp => 15,
        OsCommand::BrightnessDown => 16,
        OsCommand::SwitchAudioOutput => 17,
        OsCommand::OpenNotepad => 18,
        OsCommand::OpenExplorer => 19,
        OsCommand::ShutdownComputer => 20,
    };
    assert(all_commands_seq()[i] == c);
}

/// The result of executing a command in the operating system.
#[derive(Clone, Debug)]
pub struct CommandExecutionResult {
    pub ok: bool,
    pub description: String,
    pub system_error: Option<String>,
}

} // verus!
