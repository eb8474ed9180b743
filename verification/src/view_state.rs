//! State kept by the camera panel of the interface: the bounded event log and the
//! limits applied to the settings the user changes.
use std::collections::VecDeque;
use vstd::prelude::*;
use crate::gesture::{run_mode_label, AppRunMode};

verus! {

/// How many lines the event log keeps.
pub const LOG_CAP: usize = 300;

/// The last `cap` items of `s` (all of them when there are fewer).
pub open spec fn last_items(s: Seq<Seq<char>>, cap: int) -> Seq<Seq<char>> {
    if s.len() <= cap {
        s
    } else {
        s.subrange(s.len() - cap, s.len() as int)
    }
}

/// The event log of the camera panel: the newest 300 lines, oldest first.
pub struct EventLog {
    lines: VecDeque<String>,
}

impl View for EventLog {
    type V = Seq<Seq<char>>;

    closed spec fn view(&self) -> Seq<Seq<char>> {
        self.lines@.map_values(|l: String| l@)
    }
}

impl EventLog {
    #[verifier::type_invariant]
    spec fn bounded(&self) -> bool {
        self.lines@.len() <= 300
    }

    /// An empty log.
    pub fn new() -> (r: Self)
        ensures
            r@ == Seq::<Seq<char>>::empty(),
    {
        let r = EventLog { lines: VecDeque::new() };
        assert(r@ =~= Seq::<Seq<char>>::empty());
        r
    }

    /// Appends a line, dropping the oldest lines beyond 300.
    pub fn push(&mut self, line: String)
        ensures
            final(self)@ == last_items(old(self)@.push(line@), 300),
            final(self)@.len() <= 300,
    {
        proof {
            use_type_invariant(&*self);
        }
        let ghost all = old(self)@.push(line@);
        let mut lines: VecDeque<String> = VecDeque::new();
        std::mem::swap(&mut lines, &mut self.lines);
        lines.push_back(line);
        assert(lines@.map_values(|l: String| l@) =~= all);
        if lines.len() > LOG_CAP {
            let ghost before = lines@;
            lines.pop_front();
            assert(lines@.map_values(|l: String| l@) =~= all.subrange(all.len() - 300, all.len() as int)) by {
                assert(lines@ == before.subrange(1, before.len() as int));
            }
        }
        self.lines = lines;
    }

    /// The lines, oldest first.
    pub fn lines(&self) -> (r: &VecDeque<String>)
        ensures
            r@.map_values(|l: String| l@) == self@,
    {
        &self.lines
    }

    /// How many lines the log holds.
    pub fn len(&self) -> (r: usize)
        ensures
            r == self@.len(),
            r <= 300,
    {
        proof {
            use_type_invariant(self);
        }
        self.lines.len()
    }
}

/// Pushing any number of lines keeps exactly the newest 300 of all lines pushed.
pub proof fn lemma_log_keeps_newest(s: Seq<Seq<char>>, line: Seq<char>)
    ensures
        last_items(last_items(s, 300).push(line), 300) == last_items(s.push(line), 300),
{
    if s.len() > 300 {
        assert(last_items(s, 300).push(line).len() == 301);
        assert(last_items(last_items(s, 300).push(line), 300) =~= last_items(s.push(line), 300));
    } else {
        assert(last_items(s, 300) == s);
    }
}

/// The device list shown to the user: the found devices, or the fallback alone
/// when none was found.
pub fn ensure_non_empty(items: Vec<String>, fallback: &str) -> (r: Vec<String>)
    ensures
        items@.len() > 0 ==> r@ == items@,
        items@.len() == 0 ==> r@.len() == 1 && r@[0]@ == fallback@,
{
    let mut items = items;
    if items.len() == 0 {
        items.push(String::from_str(fallback));
    }
    items
}

/// The camera resolution as the panel stores it: at least 160×120.
pub fn clamp_camera_resolution(width: u32, height: u32) -> (r: (u32, u32))
    ensures
        r.0 == if width < 160 {
            160
        } else {
            width
        },
        r.1 == if height < 120 {
            120
        } else {
            height
        },
{
    (if width < 160 {
        160
    } else {
        width
    }, if height < 120 {
        120
    } else {
        height
    })
}

/// The frame rate as the panel stores it: between 5 and 60.
pub fn clamp_camera_fps(fps: u32) -> (r: u32)
    ensures
        r == if fps < 5 {
            5
        } else if fps > 60 {
            60
        } else {
            fps
        },
{
    if fps < 5 {
        5
    } else if fps > 60 {
        60
    } else {
        fps
    }
}

/// The log line written when the user picks a run mode.
pub fn run_mode_log_text(mode: AppRunMode) -> (r: &'static str)
    ensures
        r@ == "контекст: "@ + run_mode_label(mode),
{
    let r = match mode {
        AppRunMode::Desktop => "контекст: стол",
        AppRunMode::Media => "контекст: медиа",
        AppRunMode::Browser => "контекст: браузер",
    };
    proof {
        reveal_strlit("контекст: стол");
        reveal_strlit("контекст: медиа");
        reveal_strlit("контекст: браузер");
        reveal_strlit("контекст: ");
        reveal_strlit("стол");
        reveal_strlit("медиа");
        reveal_strlit("браузер");
        assert(r@ =~= "контекст: "@ + run_mode_label(mode));
    }
    r
}

} // verus!
