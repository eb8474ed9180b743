//! Adapters that need no device: the Linux command stub, the in-memory log and
//! the user-interface stub.
use vstd::prelude::*;
use crate::command::{CommandExecutionResult, OsCommand};
use crate::ports::{LogPort, OsCommandPort, UiInputPort};

verus! {

/// Command execution on Linux: gesture commands are not carried out there.
pub struct LinuxOsAdapter;

impl LinuxOsAdapter {
    pub fn new() -> (r: Self) {
        LinuxOsAdapter
    }

    /// Reports that commands are not carried out on Linux.
    pub fn execute(&self, command: OsCommand) -> (r: CommandExecutionResult)
        ensures
            !r.ok,
            r.description@ == "Исполнение команд жестов на Linux пока не реализовано."@,
            r.system_error is None,
    {
        CommandExecutionResult {
            ok: false,
            description: String::from_str("Исполнение команд жестов на Linux пока не реализовано."),
            system_error: None,
        }
    }
}

impl OsCommandPort for LinuxOsAdapter {
    fn execute_command(&self, command: OsCommand) -> (r: CommandExecutionResult)
        ensures
            !r.ok,
            r.description@ == "Исполнение команд жестов на Linux пока не реализовано."@,
            r.system_error is None,
    {
        self.execute(command)
    }
}

/// A log kept in memory, one line per message.
pub struct FileLoggerAdapter {
    lines: Vec<String>,
}

impl View for FileLoggerAdapter {
    type V = Seq<Seq<char>>;

    closed spec fn view(&self) -> Seq<Seq<char>> {
        self.lines@.map_values(|l: String| l@)
    }
}

impl FileLoggerAdapter {
    /// An empty log.
    pub fn new() -> (r: Self)
        ensures
            r@ == Seq::<Seq<char>>::empty(),
    {
        let r = FileLoggerAdapter { lines: Vec::new() };
        assert(r@ =~= Seq::<Seq<char>>::empty());
        r
    }

    /// The lines logged so far, oldest first.
    pub fn lines(&self) -> (r: &[String])
        ensures
            r@.map_values(|l: String| l@) == self@,
    {
        self.lines.as_slice()
    }

    fn push_line(&mut self, prefix: &str, message: &str)
        ensures
            final(self)@ == old(self)@.push(prefix@ + message@),
    {
        let mut line = String::from_str(prefix);
        line.append(message);
        let ghost before = self.lines@;
        self.lines.push(line);
        assert(self@ =~= old(self)@.push(prefix@ + message@)) by {
            assert(self.lines@ == before.push(line));
        }
    }
}

impl Default for FileLoggerAdapter {
    fn default() -> (r: Self)
        ensures
            r@ == Seq::<Seq<char>>::empty(),
    {
        FileLoggerAdapter::new()
    }
}

impl LogPort for FileLoggerAdapter {
    /// Logs `message` as an information line.
    fn info(&mut self, message: &str)
        ensures
            final(self)@ == old(self)@.push("[INFO] "@ + message@),
    {
        self.push_line("[INFO] ", message);
    }

    /// Logs `message` as a warning line.
    fn warn(&mut self, message: &str)
        ensures
            final(self)@ == old(self)@.push("[WARN] "@ + message@),
    {
        self.push_line("[WARN] ", message);
    }
}

/// The user-interface port: no action is ever pending.
pub struct UiControllerAdapter;

impl UiInputPort for UiControllerAdapter {
    fn poll_pending_action(&mut self) -> (r: Option<String>)
        ensures
            r is None,
    {
        None
    }
}

/// The event bus between the layers; it carries nothing.
pub struct EventBus;

impl EventBus {
    pub fn new() -> (r: Self) {
        EventBus
    }
}

impl Default for EventBus {
    fn default() -> (r: Self) {
        EventBus
    }
}

/// Thread settings for the gesture worker.
pub struct ThreadingHints {
    pub gesture_worker_stack_kb: u32,
}

impl ThreadingHints {
    /// The desktop setting: a 2048 KiB stack for the gesture worker.
    pub fn desktop_default() -> (r: Self)
        ensures
            r.gesture_worker_stack_kb == 2048,
    {
        ThreadingHints { gesture_worker_stack_kb: 2048 }
    }
}

impl Default for ThreadingHints {
    fn default() -> (r: Self)
        ensures
            r.gesture_worker_stack_kb == 0,
    {
        ThreadingHints { gesture_worker_stack_kb: 0 }
    }
}

} // verus!
