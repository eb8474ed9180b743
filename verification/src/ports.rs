//! The boundaries of the pipeline: frames coming in, commands and log lines going out.
use vstd::prelude::*;
use crate::command::{CommandExecutionResult, OsCommand};

verus! {

/// A frame from the camera in the form the pipeline uses.
#[derive(Clone, Debug)]
pub struct FrameDto {
    pub frame_index: u64,
    /// When the frame was taken, in milliseconds of a monotonic clock.
    pub timestamp_ms: u64,
    pub width: u32,
    pub height: u32,
    /// RGB888, `width * height * 3` bytes.
    pub rgb8: Vec<u8>,
}

/// A source of frames (camera, file, test stream).
pub trait CameraInputPort {
    fn pull_frame(&mut self) -> Result<FrameDto, String>;

    fn release_input(&mut self);
}

/// Frames made up without a device.
pub trait TestInputPort {
    fn next_synthetic_frame(&mut self) -> Option<FrameDto>;
}

/// Events and commands coming from the user interface.
pub trait UiInputPort {
    fn poll_pending_action(&mut self) -> Option<String>;
}

/// A structured log of the gesture pipeline.
pub trait LogPort {
    fn info(&mut self, message: &str);

    fn warn(&mut self, message: &str);
}

/// Carries out commands in the operating system.
pub trait OsCommandPort {
    fn execute_command(&self, command: OsCommand) -> CommandExecutionResult;
}

/// Hands a command to the operating system port.
pub struct ExecuteCommandUseCase;

impl ExecuteCommandUseCase {
    /// Executes `command` through `port` and returns what the port reports.
    pub fn run<P: OsCommandPort>(port: &P, command: OsCommand) -> (r: CommandExecutionResult)
        ensures
            call_ensures(P::execute_command, (port, command), r),
    {
        port.execute_command(command)
    }
}

} // verus!
