//! Decisions of the camera pipeline loop around each frame: what to send to the
//! interface and when, which command to hand to the operating system, and the
//! status lines reported. The loop itself (camera, threads, channels) runs outside
//! the library and feeds these functions the time and each frame's results.
use vstd::prelude::*;
use crate::command::{command_label, CommandExecutionResult, OsCommand};
use crate::gesture::{
    decision_label, run_mode_label, AppRunMode, FrameProcessingOutcome, FrameProcessingResult,
};
use crate::gesture_id::{trigger_text, GestureId};
use crate::numeric::{decimal_text, hundredths, push_decimal, to_hundredths};
use crate::temporal_filter::elapsed_ms;

verus! {

/// Every how many frames a preview and a debug frame are sent.
pub const PREVIEW_EVERY_FRAMES: u64 = 4;

/// Least time between two reads of the foreground window, in milliseconds.
pub const FOREGROUND_POLL_MS: u64 = 250;

/// Least time between two statistics messages, in milliseconds.
pub const STATS_INTERVAL_MS: u64 = 180;

/// Least time between two recognition log lines, in milliseconds.
pub const GESTURE_LOG_INTERVAL_MS: u64 = 280;

/// The longest side of the preview frames, in pixels.
pub const PREVIEW_MAX_SIDE: u32 = 480;

/// Timers and the last context line of one run of the camera pipeline.
pub struct PipelineScheduler {
    pub last_stats_sent_ms: u64,
    pub last_gesture_log_ms: u64,
    /// When the foreground window was last read; `None` before the first read.
    pub last_foreground_poll_ms: Option<u64>,
    pub last_context_line: String,
}

/// What to do with a frame before it is recognised.
pub struct FramePlan {
    /// Send a scaled-down copy of the frame to the interface.
    pub send_preview: bool,
    /// Read the foreground window again.
    pub poll_foreground: bool,
}

/// What to report after a frame was processed.
pub struct FrameReport {
    /// Send the frame's debug overlay to the interface.
    pub send_debug: bool,
    /// A status line announcing a new context, when the context changed.
    pub context_status: Option<String>,
    /// Send the pipeline statistics.
    pub send_stats: bool,
    /// A recognition log line.
    pub gesture_log: Option<String>,
    /// A command that passed the filter and the guard, to be executed.
    pub command: Option<OsCommand>,
    /// A status line when the guard denied a confirmed gesture.
    pub guard_status: Option<String>,
}

/// A percentage, rounded to whole percent (see `hundredths`), of a value in thousandths.
pub open spec fn percent_text(pm: nat) -> Seq<char> {
    decimal_text(hundredths(pm))
}

/// The recognition log line of a frame.
pub open spec fn gesture_log_line(
    gesture: GestureId,
    confidence_pm: nat,
    stability_pm: nat,
    mode: AppRunMode,
    status: crate::gesture::TemporalDecisionStatus,
) -> Seq<char> {
    let name = match trigger_text(gesture) {
        Some(t) => t,
        None => "?"@,
    };
    name + " · "@ + percent_text(confidence_pm) + "% · устойч. "@ + percent_text(stability_pm) + "% · "@
        + run_mode_label(mode) + " · "@ + decision_label(status)
}

/// The status line reporting what executing a command gave.
pub open spec fn command_status_line(
    command: OsCommand,
    trigger: GestureId,
    mode: AppRunMode,
    ok: bool,
    system_error: Option<Seq<char>>,
) -> Seq<char> {
    let name = match trigger_text(trigger) {
        Some(t) => t,
        None => "жест"@,
    };
    let error = match system_error {
        Some(e) => e,
        None => Seq::empty(),
    };
    if ok {
        "OK "@ + command_label(command) + " · "@ + name + " · "@ + run_mode_label(mode)
    } else {
        "нет "@ + command_label(command) + ": "@ + error
    }
}

fn push_percent(s: &mut String, pm: u32)
    ensures
        final(s)@ == old(s)@ + percent_text(pm as nat),
{
    push_decimal(s, to_hundredths(pm as u64));
}

impl PipelineScheduler {
    /// The timers of a pipeline started at `now_ms`: statistics and log timers start
    /// then, and the foreground window, never read yet, is due at the first frame.
    pub fn new(now_ms: u64) -> (r: Self)
        ensures
            r.last_stats_sent_ms == now_ms,
            r.last_gesture_log_ms == now_ms,
            r.last_foreground_poll_ms is None,
            r.last_context_line@ == Seq::<char>::empty(),
    {
        PipelineScheduler {
            last_stats_sent_ms: now_ms,
            last_gesture_log_ms: now_ms,
            last_foreground_poll_ms: None,
            last_context_line: String::new(),
        }
    }

    /// Decides, for frame `frame_index` arriving at `now_ms`, whether to send a
    /// preview (every fourth frame) and whether to read the foreground window (at the
    /// first frame, then 250 ms after the last read, which this read then becomes).
    pub fn begin_frame(&mut self, frame_index: u64, now_ms: u64) -> (r: FramePlan)
        ensures
            r.send_preview == (frame_index % 4 == 0),
            r.poll_foreground == match old(self).last_foreground_poll_ms {
                None => true,
                Some(t) => elapsed_ms(now_ms, t) >= 250,
            },
            final(self).last_foreground_poll_ms == if r.poll_foreground {
                Some(now_ms)
            } else {
                old(self).last_foreground_poll_ms
            },
            final(self).last_stats_sent_ms == old(self).last_stats_sent_ms,
            final(self).last_gesture_log_ms == old(self).last_gesture_log_ms,
            final(self).last_context_line@ == old(self).last_context_line@,
    {
        let send_preview = frame_index % PREVIEW_EVERY_FRAMES == 0;
        let poll_foreground = match self.last_foreground_poll_ms {
            None => true,
            Some(t) => now_ms.saturating_sub(t) >= FOREGROUND_POLL_MS,
        };
        if poll_foreground {
            self.last_foreground_poll_ms = Some(now_ms);
        }
        FramePlan { send_preview, poll_foreground }
    }

    /// Decides what to report after frame `frame_index` was processed at `now_ms`
    /// in `mode`, with the context summary `context_line`:
    /// - a debug frame every fourth frame;
    /// - "контекст: " and the summary when it differs from the last one, which it
    ///   then becomes;
    /// - statistics 180 ms after the last ones;
    /// - a log line 280 ms after the last log time, which this frame then becomes,
    ///   when a gesture was seen;
    /// - the command to execute when one is ready, and "защита: " and the guard's
    ///   reason when it denied one.
    pub fn finish_frame(
        &mut self,
        frame_index: u64,
        now_ms: u64,
        context_line: String,
        mode: AppRunMode,
        result: &FrameProcessingResult,
    ) -> (r: FrameReport)
        ensures
            r.send_debug == (frame_index % 4 == 0),
            context_line@ != old(self).last_context_line@ ==> (r.context_status matches Some(s) && s@
                == "контекст: "@ + context_line@),
            context_line@ == old(self).last_context_line@ ==> r.context_status is None,
            final(self).last_context_line@ == context_line@,
            r.send_stats == (elapsed_ms(now_ms, old(self).last_stats_sent_ms) >= 180),
            final(self).last_stats_sent_ms == if r.send_stats {
                now_ms
            } else {
                old(self).last_stats_sent_ms
            },
            ({
                let due = elapsed_ms(now_ms, old(self).last_gesture_log_ms) >= 280;
                &&& final(self).last_gesture_log_ms == if due {
                    now_ms
                } else {
                    old(self).last_gesture_log_ms
                }
                &&& (due && result.raw_gesture.gesture != GestureId::NoGesture) ==> (r.gesture_log matches Some(s)
                    && s@ == gesture_log_line(
                    result.raw_gesture.gesture,
                    result.raw_gesture.confidence_pm as nat,
                    result.filter_stability_pm as nat,
                    mode,
                    result.filter_status,
                ))
                &&& !(due && result.raw_gesture.gesture != GestureId::NoGesture) ==> r.gesture_log is None
            }),
            final(self).last_foreground_poll_ms == old(self).last_foreground_poll_ms,
            match result.outcome {
                FrameProcessingOutcome::CommandReady { command } => r.command == Some(command)
                    && r.guard_status is None,
                FrameProcessingOutcome::GestureConfirmedCommandDenied { reason } => r.command is None
                    && (r.guard_status matches Some(s) && s@ == "защита: "@ + reason@),
                _ => r.command is None && r.guard_status is None,
            },
    {
        let send_debug = frame_index % PREVIEW_EVERY_FRAMES == 0;
        let context_status = if context_line != self.last_context_line {
            let mut s = String::from_str("контекст: ");
            s.append(context_line.as_str());
            Some(s)
        } else {
            None
        };
        self.last_context_line = context_line;
        let send_stats = now_ms.saturating_sub(self.last_stats_sent_ms) >= STATS_INTERVAL_MS;
        if send_stats {
            self.last_stats_sent_ms = now_ms;
        }
        let mut gesture_log: Option<String> = None;
        if now_ms.saturating_sub(self.last_gesture_log_ms) >= GESTURE_LOG_INTERVAL_MS {
            self.last_gesture_log_ms = now_ms;
            let g = result.raw_gesture.gesture;
            if g != GestureId::NoGesture {
                let mut s = match g.user_trigger_ru() {
                    Some(t) => String::from_str(t),
                    None => String::from_str("?"),
                };
                s.append(" · ");
                push_percent(&mut s, result.raw_gesture.confidence_pm);
                s.append("% · устойч. ");
                push_percent(&mut s, result.filter_stability_pm);
                s.append("% · ");
                s.append(mode.label_ru());
                s.append(" · ");
                s.append(result.filter_status.label_ru());
                gesture_log = Some(s);
            }
        }
        let (command, guard_status) = match &result.outcome {
            FrameProcessingOutcome::CommandReady { command } => (Some(*command), None),
            FrameProcessingOutcome::GestureConfirmedCommandDenied { reason } => {
                let mut s = String::from_str("защита: ");
                s.append(reason.as_str());
                (None, Some(s))
            },
            _ => (None, None),
        };
        FrameReport { send_debug, context_status, send_stats, gesture_log, command, guard_status }
    }
}

/// The status line reporting the execution of `command`, confirmed by gesture
/// `trigger` in `mode`: "OK", the command, the gesture and the mode on success;
/// "нет", the command and the system's error otherwise.
pub fn command_status(
    command: OsCommand,
    trigger: GestureId,
    mode: AppRunMode,
    execution: &CommandExecutionResult,
) -> (r: String)
    ensures
        r@ == command_status_line(
            command,
            trigger,
            mode,
            execution.ok,
            match execution.system_error {
                Some(e) => Some(e@),
                None => None,
            },
        ),
{
    if execution.ok {
        let mut s = String::from_str("OK ");
        s.append(command.label_ru());
        s.append(" · ");
        match trigger.user_trigger_ru() {
            Some(t) => s.append(t),
            None => s.append("жест"),
        }
        s.append(" · ");
        s.append(mode.label_ru());
        s
    } else {
        let mut s = String::from_str("нет ");
        s.append(command.label_ru());
        s.append(": ");
        match &execution.system_error {
            Some(e) => s.append(e.as_str()),
            None => {},
        }
        s
    }
}

} // verus!
