//! Chooses the run mode from the detection mode, the rules and the foreground window.
use vstd::prelude::*;

use crate::context::{
    rule_matches, ContextDecisionSource, ContextDetectionMode, ContextRule, ForegroundWindowInfo,
    ResolvedAppContext,
};
use crate::gesture::AppRunMode;

verus! {

/// `i` is the position of the first rule in `rules` that applies to `fg`.
pub open spec fn is_first_match(rules: Seq<ContextRule>, fg: ForegroundWindowInfo, i: int) -> bool {
    &&& 0 <= i < rules.len()
    &&& rule_matches(rules[i], fg)
    &&& forall|j: int| 0 <= j < i ==> !rule_matches(#[trigger] rules[j], fg)
}

/// Whether some rule of `rules` applies to `fg`.
pub open spec fn some_rule_matches(rules: Seq<ContextRule>, fg: ForegroundWindowInfo) -> bool {
    exists|i: int| 0 <= i < rules.len() && rule_matches(#[trigger] rules[i], fg)
}

/// Resolves the application context.
pub struct ContextResolver;

impl ContextResolver {
    /// In manual mode the manual run mode is used. In automatic mode the first rule
    /// that applies to the foreground window decides; without such a rule, or
    /// without a foreground window, the desktop mode is the fallback.
    pub fn resolve(
        detection_mode: ContextDetectionMode,
        manual_mode: AppRunMode,
        rules: &[ContextRule],
        foreground: Option<&ForegroundWindowInfo>,
    ) -> (r: ResolvedAppContext)
        ensures
            detection_mode == ContextDetectionMode::Manual ==> {
                &&& r.mode == manual_mode
                &&& r.source == ContextDecisionSource::Manual
                &&& r.matched_rule_name.is_none()
            },
            foreground.is_none() ==> r.process_name@ == Seq::<char>::empty()
                && r.window_title@ == Seq::<char>::empty(),
            foreground matches Some(f) ==> r.process_name@ == f.process_name@
                && r.window_title@ == f.window_title@,
            detection_mode == ContextDetectionMode::Auto && foreground.is_none() ==> {
                &&& r.mode == AppRunMode::Desktop
                &&& r.source == ContextDecisionSource::Fallback
                &&& r.matched_rule_name.is_none()
            },
            detection_mode == ContextDetectionMode::Auto && foreground is Some && !some_rule_matches(
                rules@,
                *foreground.unwrap(),
            ) ==> {
                &&& r.mode == AppRunMode::Desktop
                &&& r.source == ContextDecisionSource::Fallback
                &&& r.matched_rule_name.is_none()
            },
            detection_mode == ContextDetectionMode::Auto && foreground is Some && some_rule_matches(
                rules@,
                *foreground.unwrap(),
            ) ==> exists|i: int|
                {
                    &&& is_first_match(rules@, *foreground.unwrap(), i)
                    &&& r.mode == rules@[i].mode
                    &&& r.source == ContextDecisionSource::Rule
                    &&& r.matched_rule_name matches Some(n) && n@ == rules@[i].name@
                },
    {
        if detection_mode == ContextDetectionMode::Manual {
            return Self::manual(manual_mode, foreground);
        }
        match foreground {
            Some(fg) => {
                let mut i: usize = 0;
                while i < rules.len()
                    invariant
                        i <= rules@.len(),
                        detection_mode == ContextDetectionMode::Auto,
                        foreground == Some(fg),
                        forall|j: int| 0 <= j < i ==> !rule_matches(#[trigger] rules@[j], *fg),
                    decreases rules.len() - i,
                {
                    if rules[i].matches(fg) {
                        let r = ResolvedAppContext {
                            mode: rules[i].mode,
                            source: ContextDecisionSource::Rule,
                            process_name: fg.process_name.clone(),
                            window_title: fg.window_title.clone(),
                            matched_rule_name: Some(rules[i].name.clone()),
                        };
                        assert(is_first_match(rules@, *fg, i as int));
                        return r;
                    }
                    i += 1;
                }
                ResolvedAppContext {
                    mode: AppRunMode::Desktop,
                    source: ContextDecisionSource::Fallback,
                    process_name: fg.process_name.clone(),
                    window_title: fg.window_title.clone(),
                    matched_rule_name: None,
                }
            },
            None => ResolvedAppContext {
                mode: AppRunMode::Desktop,
                source: ContextDecisionSource::Fallback,
                process_name: String::new(),
                window_title: String::new(),
                matched_rule_name: None,
            },
        }
    }

    /// The manually chosen mode, annotated with the foreground window if known.
    pub fn manual(manual_mode: AppRunMode, foreground: Option<&ForegroundWindowInfo>) -> (r: ResolvedAppContext)
        ensures
            r.mode == manual_mode,
            r.source == ContextDecisionSource::Manual,
            r.matched_rule_name.is_none(),
            foreground.is_none() ==> r.process_name@ == Seq::<char>::empty()
                && r.window_title@ == Seq::<char>::empty(),
            foreground matches Some(f) ==> r.process_name@ == f.process_name@
                && r.window_title@ == f.window_title@,
    {
        let (process_name, window_title) = match foreground {
            Some(info) => (info.process_name.clone(), info.window_title.clone()),
            None => (String::new(), String::new()),
        };
        ResolvedAppContext {
            mode: manual_mode,
            source: ContextDecisionSource::Manual,
            process_name,
            window_title,
            matched_rule_name: None,
        }
    }
}

} // verus!
