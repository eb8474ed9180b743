//! Application context: rules that map the foreground window to a run mode.
use vstd::prelude::*;

use crate::gesture::{run_mode_label, AppRunMode};
use crate::text::{chars_of, contains_chars, contains_seq, lowercase, lowercase_chars, trim_chars, trimmed};

verus! {

/// How the run mode is chosen.
#[derive(Clone, Copy, Debug, PartialEq, Eq, Structural)]
pub enum ContextDetectionMode {
    Manual,
    Auto,
}

impl Default for ContextDetectionMode {
    fn default() -> (r: Self)
        ensures
            r == ContextDetectionMode::Manual,
    {
        ContextDetectionMode::Manual
    }
}

/// The user-facing label of a detection mode.
pub open spec fn detection_mode_label(m: ContextDetectionMode) -> Seq<char> {
    match m {
        ContextDetectionMode::Manual => "ручной"@,
        ContextDetectionMode::Auto => "авто"@,
    }
}

impl ContextDetectionMode {
    /// The user-facing label of the detection mode.
    pub fn label_ru(self) -> (r: &'static str)
        ensures
            r@ == detection_mode_label(self),
    {
        match self {
            ContextDetectionMode::Manual => "ручной",
            ContextDetectionMode::Auto => "авто",
        }
    }
}

/// Where a resolved run mode came from.
#[derive(Clone, Copy, Debug, PartialEq, Eq, Structural)]
pub enum ContextDecisionSource {
    Manual,
    Rule,
    Fallback,
}

impl Default for ContextDecisionSource {
    fn default() -> (r: Self)
        ensures
            r == ContextDecisionSource::Manual,
    {
        ContextDecisionSource::Manual
    }
}

/// The user-facing label of a decision source.
pub open spec fn decision_source_label(s: ContextDecisionSource) -> Seq<char> {
    match s {
        ContextDecisionSource::Manual => "вручную"@,
        ContextDecisionSource::Rule => "по правилу"@,
        ContextDecisionSource::Fallback => "fallback"@,
    }
}

impl ContextDecisionSource {
    /// The user-facing label of the decision source.
    pub fn label_ru(self) -> (r: &'static str)
        ensures
            r@ == decision_source_label(self),
    {
        match self {
            ContextDecisionSource::Manual => "вручную",
            ContextDecisionSource::Rule => "по правилу",
            ContextDecisionSource::Fallback => "fallback",
        }
    }
}

/// The process and title of the window in the foreground.
#[derive(Clone, Debug)]
pub struct ForegroundWindowInfo {
    pub process_name: String,
    pub window_title: String,
}

impl Default for ForegroundWindowInfo {
    fn default() -> (r: Self)
        ensures
            r.process_name@ == Seq::<char>::empty(),
            r.window_title@ == Seq::<char>::empty(),
    {
        ForegroundWindowInfo { process_name: String::new(), window_title: String::new() }
    }
}

/// A rule: when the process name and the window title contain the given parts
/// (case-insensitively; an empty part matches anything), use `mode`.
#[derive(Clone, Debug)]
pub struct ContextRule {
    pub name: String,
    pub enabled: bool,
    pub process_name_contains: String,
    pub window_title_contains: String,
    pub mode: AppRunMode,
}

/// Whether `needle` occurs in `hay` when both are lowercased; an empty needle
/// occurs everywhere.
pub open spec fn contains_ci(hay: Seq<char>, needle: Seq<char>) -> bool {
    needle.len() == 0 || contains_seq(lowercase(hay), lowercase(needle))
}

/// Whether an (enabled) rule applies to a foreground window, given the views of
/// its fields.
pub open spec fn rule_applies(
    enabled: bool,
    process_part: Seq<char>,
    title_part: Seq<char>,
    process_name: Seq<char>,
    window_title: Seq<char>,
) -> bool {
    &&& enabled
    &&& contains_ci(process_name, trimmed(process_part))
    &&& contains_ci(window_title, trimmed(title_part))
}

/// Whether `rule` applies to the window `fg`.
pub open spec fn rule_matches(rule: ContextRule, fg: ForegroundWindowInfo) -> bool {
    rule_applies(
        rule.enabled,
        rule.process_name_contains@,
        rule.window_title_contains@,
        fg.process_name@,
        fg.window_title@,
    )
}

impl ContextRule {
    /// An enabled rule.
    pub fn new(name: &str, process_name_contains: &str, window_title_contains: &str, mode: AppRunMode) -> (r: ContextRule)
        ensures
            r.name@ == name@,
            r.enabled,
            r.process_name_contains@ == process_name_contains@,
            r.window_title_contains@ == window_title_contains@,
            r.mode == mode,
    {
        ContextRule {
            name: name.to_owned(),
            enabled: true,
            process_name_contains: process_name_contains.to_owned(),
            window_title_contains: window_title_contains.to_owned(),
            mode,
        }
    }

    /// Whether the rule applies to the foreground window.
    pub fn matches(&self, foreground: &ForegroundWindowInfo) -> (r: bool)
        ensures
            r == rule_matches(*self, *foreground),
    {
        if !self.enabled {
            return false;
        }
        let process_part = trim_chars(&chars_of(self.process_name_contains.as_str()));
        let title_part = trim_chars(&chars_of(self.window_title_contains.as_str()));
        let process_ok = contains_case_insensitive(
            &chars_of(foreground.process_name.as_str()),
            &process_part,
        );
        let title_ok = contains_case_insensitive(
            &chars_of(foreground.window_title.as_str()),
            &title_part,
        );
        process_ok && title_ok
    }
}

/// Whether `needle` occurs in `haystack`, ignoring case; an empty needle always does.
pub fn contains_case_insensitive(haystack: &Vec<char>, needle: &Vec<char>) -> (r: bool)
    ensures
        r == contains_ci(haystack@, needle@),
{
    if needle.len() == 0 {
        return true;
    }
    contains_chars(&lowercase_chars(haystack), &lowercase_chars(needle))
}

/// The run mode in use, where it came from, and the window it was decided for.
#[derive(Clone, Debug)]
pub struct ResolvedAppContext {
    pub mode: AppRunMode,
    pub source: ContextDecisionSource,
    pub process_name: String,
    pub window_title: String,
    pub matched_rule_name: Option<String>,
}

impl Default for ResolvedAppContext {
    fn default() -> (r: Self)
        ensures
            r.mode == AppRunMode::Desktop,
            r.source == ContextDecisionSource::Manual,
            r.process_name@ == Seq::<char>::empty(),
            r.window_title@ == Seq::<char>::empty(),
            r.matched_rule_name.is_none(),
    {
        ResolvedAppContext {
            mode: AppRunMode::Desktop,
            source: ContextDecisionSource::Manual,
            process_name: String::new(),
            window_title: String::new(),
            matched_rule_name: None,
        }
    }
}

/// ` · ` followed by `part`, or nothing when `part` is empty.
pub open spec fn optional_part(part: Seq<char>) -> Seq<char> {
    if part.len() == 0 {
        Seq::empty()
    } else {
        " · "@ + part
    }
}

/// The one-line summary of a resolved context: mode and source, then the matched
/// rule, the process and the title where they are not empty.
pub open spec fn context_summary(c: ResolvedAppContext) -> Seq<char> {
    let head = run_mode_label(c.mode) + " ("@ + decision_source_label(c.source) + ")"@;
    head + rule_part(c.matched_rule_name) + optional_part(c.process_name@) + optional_part(
        c.window_title@,
    )
}

/// The part of the summary that names the matched rule, if it has a name.
pub open spec fn rule_part(name: Option<String>) -> Seq<char> {
    match name {
        Some(r) => if r@.len() == 0 {
            Seq::empty()
        } else {
            " · правило `"@ + r@ + "`"@
        },
        None => Seq::empty(),
    }
}

impl ResolvedAppContext {
    /// One-line summary for the status bar and the log.
    pub fn summary_ru(&self) -> (r: String)
        ensures
            r@ == context_summary(*self),
    {
        let mut line = String::from_str(self.mode.label_ru());
        line.append(" (");
        line.append(self.source.label_ru());
        line.append(")");
        let ghost head = line@;
        if let Some(rule) = &self.matched_rule_name {
            if rule.as_str().unicode_len() != 0 {
                line.append(" · правило `");
                line.append(rule.as_str());
                line.append("`");
            }
        }
        let ghost with_rule = line@;
        if self.process_name.as_str().unicode_len() != 0 {
            line.append(" · ");
            line.append(self.process_name.as_str());
        }
        let ghost with_process = line@;
        if self.window_title.as_str().unicode_len() != 0 {
            line.append(" · ");
            line.append(self.window_title.as_str());
        }
        proof {
            let rule_part = rule_part(self.matched_rule_name);
            assert(with_rule == head + rule_part);
            assert(with_process == with_rule + optional_part(self.process_name@));
            assert(line@ == with_process + optional_part(self.window_title@));
            assert(head + rule_part + optional_part(self.process_name@) + optional_part(
                self.window_title@,
            ) == line@);
        }
        line
    }
}

} // verus!
