//! Temporal smoothing of the per-frame recognition and rate limiting of confirmations.
//!
//! The filter keeps a sliding window of the latest samples. Within the window a
//! sample at position `i` weighs `i + 1`, so recent frames count more. The dominant
//! gesture is the one with the largest total weight; on a tie, the gesture that
//! first appears later in the window wins.
use std::collections::VecDeque;
use vstd::prelude::*;

use crate::gesture::{GestureResult, GestureType, TemporalDecisionStatus};
use crate::gesture_id::GestureId;
use crate::numeric::{decimal_text, hundredths, permille, push_decimal, to_hundredths};

verus! {

/// Thresholds of the temporal filter. Stability thresholds are in thousandths,
/// intervals in milliseconds.
#[derive(Clone, Copy, Debug)]
pub struct TemporalFilterConfig {
    pub window_size: usize,
    pub static_stability_threshold_pm: u32,
    pub dynamic_stability_threshold_pm: u32,
    pub static_min_repeat_interval_ms: u64,
    pub dynamic_min_repeat_interval_ms: u64,
    pub static_min_hits: usize,
    pub dynamic_min_hits: usize,
}

impl Default for TemporalFilterConfig {
    fn default() -> (r: Self)
        ensures
            r.window_size == 7,
            r.static_stability_threshold_pm == 560,
            r.dynamic_stability_threshold_pm == 680,
            r.static_min_repeat_interval_ms == 520,
            r.dynamic_min_repeat_interval_ms == 760,
            r.static_min_hits == 3,
            r.dynamic_min_hits == 4,
    {
        TemporalFilterConfig {
            window_size: 7,
            static_stability_threshold_pm: 560,
            dynamic_stability_threshold_pm: 680,
            static_min_repeat_interval_ms: 520,
            dynamic_min_repeat_interval_ms: 760,
            static_min_hits: 3,
            dynamic_min_hits: 4,
        }
    }
}

/// Sum of the weights of the samples of `g` in `w` (the sample at `i` weighs `i + 1`).
pub open spec fn weight_of(w: Seq<GestureResult>, g: GestureId) -> nat
    decreases w.len(),
{
    if w.len() == 0 {
        0
    } else {
        weight_of(w.drop_last(), g) + if w.last().gesture == g {
            w.len()
        } else {
            0
        }
    }
}

/// Number of samples of `g` in `w`.
pub open spec fn hits_of(w: Seq<GestureResult>, g: GestureId) -> nat
    decreases w.len(),
{
    if w.len() == 0 {
        0
    } else {
        hits_of(w.drop_last(), g) + if w.last().gesture == g {
            1nat
        } else {
            0nat
        }
    }
}

/// Sum of the confidences of the samples of `g` in `w`.
pub open spec fn confidence_sum_of(w: Seq<GestureResult>, g: GestureId) -> nat
    decreases w.len(),
{
    if w.len() == 0 {
        0
    } else {
        confidence_sum_of(w.drop_last(), g) + if w.last().gesture == g {
            w.last().confidence_pm as nat
        } else {
            0nat
        }
    }
}

/// Sum of the weights of all positions of a window of length `n`.
pub open spec fn total_weight(n: nat) -> nat
    decreases n,
{
    if n == 0 {
        0
    } else {
        total_weight((n - 1) as nat) + n
    }
}

/// Position of the first sample of `g` in `w`, or `-1`.
pub open spec fn first_pos(w: Seq<GestureResult>, g: GestureId) -> int
    decreases w.len(),
{
    if w.len() == 0 {
        -1
    } else {
        let p = first_pos(w.drop_last(), g);
        if p >= 0 {
            p
        } else if w.last().gesture == g {
            w.len() - 1
        } else {
            -1
        }
    }
}

/// Whether `g` is a gesture (not `NoGesture`) that occurs in `w`.
pub open spec fn occurs(w: Seq<GestureResult>, g: GestureId) -> bool {
    g != GestureId::NoGesture && first_pos(w, g) >= 0
}

/// `h` is preferred over `g` as the dominant gesture of `w`.
pub open spec fn beats(w: Seq<GestureResult>, h: GestureId, g: GestureId) -> bool {
    ||| weight_of(w, h) > weight_of(w, g)
    ||| weight_of(w, h) == weight_of(w, g) && first_pos(w, h) > first_pos(w, g)
}

/// `g` is the dominant gesture of `w`.
pub open spec fn is_dominant(w: Seq<GestureResult>, g: GestureId) -> bool {
    &&& occurs(w, g)
    &&& forall|h: GestureId| #[trigger] occurs(w, h) && h != g ==> !beats(w, h, g)
}

/// Whether some gesture occurs in `w`.
pub open spec fn has_gesture(w: Seq<GestureResult>) -> bool {
    exists|h: GestureId| #[trigger] occurs(w, h)
}

/// The dominant gesture of a window with its statistics.
#[derive(Clone, Copy, Debug)]
struct DominantGesture {
    gesture: GestureId,
    weight: u128,
    total: u128,
    hits: usize,
    confidence_pm: u32,
    gesture_type: GestureType,
}

/// The statistics that describe `g` as the dominant gesture of `w`.
spec fn describes(d: DominantGesture, w: Seq<GestureResult>) -> bool {
    &&& is_dominant(w, d.gesture)
    &&& d.weight == weight_of(w, d.gesture)
    &&& d.total == total_weight(w.len())
    &&& d.hits == hits_of(w, d.gesture)
    &&& d.hits >= 1
    &&& d.confidence_pm == confidence_sum_of(w, d.gesture) / hits_of(w, d.gesture)
    &&& d.gesture_type == w[first_pos(w, d.gesture)].gesture_type
}

/// Running totals of one gesture while the window is scanned.
#[derive(Clone, Copy, Debug)]
struct Tally {
    gesture: GestureId,
    gesture_type: GestureType,
    weight: u128,
    hits: usize,
    confidence_sum: u128,
}

spec fn tally_ok(t: Tally, p: Seq<GestureResult>) -> bool {
    &&& occurs(p, t.gesture)
    &&& t.weight == weight_of(p, t.gesture)
    &&& t.hits == hits_of(p, t.gesture)
    &&& t.confidence_sum == confidence_sum_of(p, t.gesture)
    &&& t.gesture_type == p[first_pos(p, t.gesture)].gesture_type
}

proof fn lemma_prefix_stats(p: Seq<GestureResult>, g: GestureId)
    ensures
        weight_of(p, g) <= total_weight(p.len()),
        hits_of(p, g) <= p.len(),
        confidence_sum_of(p, g) <= hits_of(p, g) * 0xFFFF_FFFF,
        -1 <= first_pos(p, g) < p.len(),
        first_pos(p, g) >= 0 ==> p[first_pos(p, g)].gesture == g,
        first_pos(p, g) >= 0 ==> hits_of(p, g) >= 1,
        first_pos(p, g) < 0 ==> hits_of(p, g) == 0 && weight_of(p, g) == 0
            && confidence_sum_of(p, g) == 0,
        forall|i: int| 0 <= i < p.len() && #[trigger] p[i].gesture == g ==> first_pos(p, g) >= 0
            && first_pos(p, g) <= i,
    decreases p.len(),
{
    if p.len() > 0 {
        lemma_prefix_stats(p.drop_last(), g);
        assert forall|i: int| 0 <= i < p.len() && #[trigger] p[i].gesture == g implies first_pos(
            p,
            g,
        ) >= 0 && first_pos(p, g) <= i by {
            if i < p.len() - 1 {
                assert(p.drop_last()[i] == p[i]);
            }
        }
        if first_pos(p.drop_last(), g) >= 0 {
            assert(p.drop_last()[first_pos(p.drop_last(), g)] == p[first_pos(p.drop_last(), g)]);
        }
    }
}

proof fn lemma_total_weight_bound(n: nat)
    ensures
        total_weight(n) * 2 == n * (n + 1),
    decreases n,
{
    if n == 0 {
        assert(total_weight(0) == 0);
    } else {
        let m = (n - 1) as nat;
        lemma_total_weight_bound(m);
        assert(total_weight(n) == total_weight(m) + n);
        let t = total_weight(n);
        let tm = total_weight(m);
        assert(t * 2 == n * (n + 1)) by (nonlinear_arith)
            requires
                t == tm + n,
                tm * 2 == m * (m + 1),
                n == m + 1,
        ;
    }
}

proof fn lemma_total_weight_fits(n: nat)
    requires
        n < 0x1_0000_0000_0000_0000,
    ensures
        total_weight(n) < 0x8000_0000_0000_0000_0000_0000_0000_0000,
{
    lemma_total_weight_bound(n);
    assert(n * (n + 1) < 0x1_0000_0000_0000_0000 * 0x1_0000_0000_0000_0000) by (nonlinear_arith)
        requires
            n < 0x1_0000_0000_0000_0000,
    ;
}

proof fn lemma_occurs_step(p: Seq<GestureResult>, x: GestureResult, h: GestureId)
    ensures
        occurs(p.push(x), h) <==> (occurs(p, h) || (h != GestureId::NoGesture && x.gesture == h)),
        occurs(p, h) ==> first_pos(p.push(x), h) == first_pos(p, h),
        !occurs(p, h) && h != GestureId::NoGesture && x.gesture == h ==> first_pos(p.push(x), h)
            == p.len(),
{
    assert(p.push(x).drop_last() =~= p);
    lemma_prefix_stats(p, h);
}

/// Finds the dominant gesture of a non-empty window, if any gesture occurs in it.
fn weighted_majority_gesture(window: &VecDeque<GestureResult>) -> (r: Option<DominantGesture>)
    requires
        window@.len() > 0,
    ensures
        r is None <==> !has_gesture(window@),
        r matches Some(d) ==> describes(d, window@),
{
    let n = window.len();
    let mut counts: Vec<Tally> = Vec::new();
    let mut total: u128 = 0;
    let mut i: usize = 0;
    while i < n
        invariant
            n == window@.len(),
            i <= n,
            total == total_weight(i as nat),
            forall|k: int| 0 <= k < counts@.len() ==> tally_ok(#[trigger] counts@[k], window@.take(i as int)),
            forall|k: int, l: int|
                0 <= k < l < counts@.len() ==> first_pos(window@.take(i as int), #[trigger] counts@[k].gesture)
                    < first_pos(window@.take(i as int), #[trigger] counts@[l].gesture),
            forall|h: GestureId| #[trigger]
                occurs(window@.take(i as int), h) ==> exists|k: int|
                    0 <= k < counts@.len() && (#[trigger] counts@[k]).gesture == h,
        decreases n - i,
    {
        let ghost p = window@.take(i as int);
        let ghost q = window@.take(i + 1);
        let item = window[i];
        proof {
            assert(q =~= p.push(item));
            assert(q.drop_last() =~= p);
            lemma_total_weight_fits((i + 1) as nat);
            lemma_total_weight_bound(i as nat);
        }
        let weight: u128 = (i as u128) + 1;
        total = total + weight;
        if item.gesture != GestureId::NoGesture {
            let mut k: usize = 0;
            while k < counts.len() && counts[k].gesture != item.gesture
                invariant
                    0 <= k <= counts@.len(),
                    forall|j: int| 0 <= j < k ==> (#[trigger] counts@[j]).gesture != item.gesture,
                decreases counts.len() - k,
            {
                k += 1;
            }
            if k < counts.len() {
                let t = counts[k];
                proof {
                    lemma_prefix_stats(p, item.gesture);
                    lemma_prefix_stats(q, item.gesture);
                    lemma_total_weight_fits(i as nat);
                    lemma_occurs_step(p, item, item.gesture);
                    assert(t.hits < n);
                    assert(t.weight <= total_weight(i as nat));
                    assert(t.confidence_sum <= t.hits * 0xFFFF_FFFF) by (nonlinear_arith)
                        requires
                            t.confidence_sum == confidence_sum_of(p, item.gesture),
                            confidence_sum_of(p, item.gesture) <= hits_of(p, item.gesture)
                                * 0xFFFF_FFFF,
                            t.hits == hits_of(p, item.gesture),
                    ;
                    assert(t.confidence_sum < 0x1_0000_0000_0000_0000 * 0x1_0000_0000) by (nonlinear_arith)
                        requires
                            t.confidence_sum <= t.hits * 0xFFFF_FFFF,
                            t.hits < 0x1_0000_0000_0000_0000,
                    ;
                }
                let nt = Tally {
                    gesture: t.gesture,
                    gesture_type: t.gesture_type,
                    weight: t.weight + weight,
                    hits: t.hits + 1,
                    confidence_sum: t.confidence_sum + item.confidence_pm as u128,
                };
                let ghost old_counts = counts@;
                counts.set(k, nt);
                proof {
                    assert forall|j: int| 0 <= j < counts@.len() implies tally_ok(#[trigger] counts@[j], q) by {
                        let g = counts@[j].gesture;
                        lemma_occurs_step(p, item, g);
                        if j != k {
                            assert(old_counts[j] == counts@[j]);
                            assert(tally_ok(old_counts[j], p));
                            assert(g != item.gesture);
                            lemma_prefix_stats(p, g);
                            assert(q[first_pos(q, g)] == p[first_pos(p, g)]);
                        } else {
                            assert(q[first_pos(q, g)] == p[first_pos(p, g)]);
                        }
                    }
                    assert forall|a: int, b: int|
                        0 <= a < b < counts@.len() implies first_pos(q, #[trigger] counts@[a].gesture)
                        < first_pos(q, #[trigger] counts@[b].gesture) by {
                        assert(old_counts[a].gesture == counts@[a].gesture);
                        assert(old_counts[b].gesture == counts@[b].gesture);
                        assert(tally_ok(old_counts[a], p));
                        assert(tally_ok(old_counts[b], p));
                        lemma_occurs_step(p, item, counts@[a].gesture);
                        lemma_occurs_step(p, item, counts@[b].gesture);
                    }
                    assert forall|h: GestureId| #[trigger] occurs(q, h) implies exists|j: int|
                        0 <= j < counts@.len() && (#[trigger] counts@[j]).gesture == h by {
                        lemma_occurs_step(p, item, h);
                        if h == item.gesture {
                            assert(counts@[k as int].gesture == h);
                        } else {
                            let j = choose|j: int| 0 <= j < old_counts.len() && (#[trigger] old_counts[j]).gesture == h;
                            assert(counts@[j].gesture == h);
                        }
                    }
                }
            } else {
                let ghost old_counts = counts@;
                proof {
                    lemma_occurs_step(p, item, item.gesture);
                    if occurs(p, item.gesture) {
                        let j = choose|j: int| 0 <= j < old_counts.len() && (#[trigger] old_counts[j]).gesture == item.gesture;
                        assert(false);
                    }
                    lemma_prefix_stats(q, item.gesture);
                    lemma_prefix_stats(p, item.gesture);
                    assert(q[i as int] == item);
                }
                counts.push(
                    Tally {
                        gesture: item.gesture,
                        gesture_type: item.gesture_type,
                        weight: weight,
                        hits: 1,
                        confidence_sum: item.confidence_pm as u128,
                    },
                );
                proof {
                    assert forall|j: int| 0 <= j < counts@.len() implies tally_ok(#[trigger] counts@[j], q) by {
                        let g = counts@[j].gesture;
                        lemma_occurs_step(p, item, g);
                        if j < old_counts.len() {
                            assert(old_counts[j] == counts@[j]);
                            assert(tally_ok(old_counts[j], p));
                            lemma_prefix_stats(p, g);
                            assert(q[first_pos(q, g)] == p[first_pos(p, g)]);
                        }
                    }
                    assert forall|a: int, b: int|
                        0 <= a < b < counts@.len() implies first_pos(q, #[trigger] counts@[a].gesture)
                        < first_pos(q, #[trigger] counts@[b].gesture) by {
                        lemma_occurs_step(p, item, counts@[a].gesture);
                        lemma_occurs_step(p, item, counts@[b].gesture);
                        assert(tally_ok(old_counts[a], p));
                        lemma_prefix_stats(p, counts@[a].gesture);
                        if b < old_counts.len() {
                            assert(tally_ok(old_counts[b], p));
                        }
                    }
                    assert forall|h: GestureId| #[trigger] occurs(q, h) implies exists|j: int|
                        0 <= j < counts@.len() && (#[trigger] counts@[j]).gesture == h by {
                        lemma_occurs_step(p, item, h);
                        if h == item.gesture {
                            assert(counts@[old_counts.len() as int].gesture == h);
                        } else {
                            let j = choose|j: int| 0 <= j < old_counts.len() && (#[trigger] old_counts[j]).gesture == h;
                            assert(counts@[j].gesture == h);
                        }
                    }
                }
            }
        } else {
            proof {
                assert forall|j: int| 0 <= j < counts@.len() implies tally_ok(#[trigger] counts@[j], q) by {
                    let g = counts@[j].gesture;
                    lemma_occurs_step(p, item, g);
                    lemma_prefix_stats(p, g);
                    assert(q[first_pos(q, g)] == p[first_pos(p, g)]);
                }
                assert forall|a: int, b: int|
                    0 <= a < b < counts@.len() implies first_pos(q, #[trigger] counts@[a].gesture)
                    < first_pos(q, #[trigger] counts@[b].gesture) by {
                    lemma_occurs_step(p, item, counts@[a].gesture);
                    lemma_occurs_step(p, item, counts@[b].gesture);
                }
                assert forall|h: GestureId| #[trigger] occurs(q, h) implies exists|j: int|
                    0 <= j < counts@.len() && (#[trigger] counts@[j]).gesture == h by {
                    lemma_occurs_step(p, item, h);
                }
            }
        }
        i += 1;
    }
    let ghost w = window@;
    assert(window@.take(n as int) =~= w);
    if counts.len() == 0 {
        proof {
            assert forall|h: GestureId| !#[trigger] occurs(w, h) by {
                if occurs(w, h) {
                    let j = choose|j: int| 0 <= j < counts@.len() && (#[trigger] counts@[j]).gesture == h;
                }
            }
        }
        return None;
    }
    let mut best: usize = 0;
    let mut k: usize = 1;
    while k < counts.len()
        invariant
            1 <= k <= counts@.len(),
            best < k,
            forall|j: int|
                0 <= j < k ==> (#[trigger] counts@[j]).weight < counts@[best as int].weight || (
                counts@[j].weight == counts@[best as int].weight && j <= best),
        decreases counts.len() - k,
    {
        if counts[k].weight >= counts[best].weight {
            best = k;
        }
        k += 1;
    }
    let t = counts[best];
    proof {
        assert(tally_ok(t, w));
        lemma_prefix_stats(w, t.gesture);
        lemma_total_weight_fits(n as nat);
        assert forall|h: GestureId| #[trigger] occurs(w, h) && h != t.gesture implies !beats(w, h, t.gesture) by {
            let j = choose|j: int| 0 <= j < counts@.len() && (#[trigger] counts@[j]).gesture == h;
            assert(tally_ok(counts@[j], w));
            if j < best {
                assert(first_pos(w, counts@[j].gesture) < first_pos(w, counts@[best as int].gesture));
            }
        }
        assert((t.confidence_sum as int) / (t.hits as int) <= 0xFFFF_FFFF) by {
            assert(t.confidence_sum <= t.hits * 0xFFFF_FFFF);
            vstd::arithmetic::div_mod::lemma_div_is_ordered(
                t.confidence_sum as int,
                t.hits * 0xFFFF_FFFF,
                t.hits as int,
            );
            vstd::arithmetic::div_mod::lemma_div_multiples_vanish(0xFFFF_FFFF, t.hits as int);
        }
    }
    let hits_wide: u128 = t.hits as u128;
    let confidence = (t.confidence_sum / hits_wide) as u32;
    Some(
        DominantGesture {
            gesture: t.gesture,
            weight: t.weight,
            total,
            hits: t.hits,
            confidence_pm: confidence,
            gesture_type: t.gesture_type,
        },
    )
}


/// The window after `s` is appended and the oldest samples beyond `size` dropped.
pub open spec fn slide(w: Seq<GestureResult>, s: GestureResult, size: nat) -> Seq<GestureResult> {
    let full = w.push(s);
    if full.len() > size {
        full.subrange(full.len() - size, full.len() as int)
    } else {
        full
    }
}

/// Confirmations a gesture of type `t` needs within the window.
pub open spec fn min_hits_for(c: TemporalFilterConfig, t: GestureType) -> nat {
    match t {
        GestureType::Dynamic => c.dynamic_min_hits as nat,
        GestureType::Static => c.static_min_hits as nat,
        GestureType::NoType => usize::MAX as nat,
    }
}

/// Stability (in thousandths) a gesture of type `t` needs.
pub open spec fn required_pm_for(c: TemporalFilterConfig, t: GestureType) -> nat {
    match t {
        GestureType::Dynamic => c.dynamic_stability_threshold_pm as nat,
        GestureType::Static => c.static_stability_threshold_pm as nat,
        GestureType::NoType => 1000,
    }
}

/// Minimal time (ms) between two confirmations of the same gesture of type `t`.
pub open spec fn repeat_ms_for(c: TemporalFilterConfig, t: GestureType) -> nat {
    match t {
        GestureType::Dynamic => c.dynamic_min_repeat_interval_ms as nat,
        GestureType::Static => c.static_min_repeat_interval_ms as nat,
        GestureType::NoType => 3_600_000,
    }
}

/// Time from `earlier` to `now`, zero when `earlier` is later (as `Instant::duration_since`).
pub open spec fn elapsed_ms(now: u64, earlier: u64) -> nat {
    if now >= earlier {
        (now - earlier) as nat
    } else {
        0
    }
}

/// The dominant gesture of `w` (see `is_dominant`).
pub open spec fn dominant_of(w: Seq<GestureResult>) -> GestureId {
    choose|g: GestureId| is_dominant(w, g)
}

/// Stability of the dominant gesture in thousandths, rounded down.
pub open spec fn stability_pm_of(w: Seq<GestureResult>) -> nat {
    ((1000 * weight_of(w, dominant_of(w))) / total_weight(w.len())) as nat
}

/// Mean confidence of the dominant gesture, rounded down.
pub open spec fn dominant_confidence(w: Seq<GestureResult>) -> nat {
    confidence_sum_of(w, dominant_of(w)) / hits_of(w, dominant_of(w))
}

/// Type of the dominant gesture (that of its first sample in the window).
pub open spec fn dominant_type(w: Seq<GestureResult>) -> GestureType {
    w[first_pos(w, dominant_of(w))].gesture_type
}

/// The reason given when the window is still too short.
pub open spec fn reason_collecting() -> Seq<char> {
    "Собираю окно кадров для стабилизации."@
}

/// The reason given when no gesture occurs in the window.
pub open spec fn reason_no_gesture() -> Seq<char> {
    "Жест не найден в полном окне кадров."@
}

/// The reason given when the dominant gesture has too few samples.
pub open spec fn reason_few_hits(hits: nat, min_hits: nat) -> Seq<char> {
    "Недостаточно подтверждений жеста: "@ + decimal_text(hits) + "/"@ + decimal_text(min_hits)
        + "."@
}

/// Percent for display: thousandths rounded to the nearest percent (see `hundredths`).
pub open spec fn percent_of_pm(pm: nat) -> nat {
    hundredths(pm)
}

/// The reason given when the dominant gesture is not stable enough.
pub open spec fn reason_unstable(stability_pm: nat, required_pm: nat) -> Seq<char> {
    "Стабильность "@ + decimal_text(percent_of_pm(stability_pm)) + "% ниже порога "@
        + decimal_text(percent_of_pm(required_pm)) + "%."@
}

/// The reason given when the same gesture was confirmed too recently.
pub open spec fn reason_too_recent() -> Seq<char> {
    "Жест подтверждён слишком недавно."@
}

/// The reason given for a confirmation.
pub open spec fn reason_confirmed() -> Seq<char> {
    "Жест стабилен и подтверждён."@
}

/// Output of the temporal filter for one sample.
#[derive(Clone, Debug)]
pub struct TemporalFilterOutput {
    pub status: TemporalDecisionStatus,
    /// Stability of the dominant gesture, in thousandths.
    pub stability_pm: u32,
    pub gesture: GestureId,
    pub confidence_pm: u32,
    pub gesture_type: GestureType,
    pub reason: String,
}

/// The decision the filter takes on the window `w` (already including `sample`)
/// when the last confirmation was `last`: status, stability, gesture, confidence,
/// type and reason.
pub open spec fn decide(
    c: TemporalFilterConfig,
    w: Seq<GestureResult>,
    last: Option<(GestureId, u64)>,
    sample: GestureResult,
    now: u64,
) -> (TemporalDecisionStatus, nat, GestureId, nat, GestureType, Seq<char>) {
    if w.len() < 3 {
        (TemporalDecisionStatus::Pending, 0, GestureId::NoGesture, 0, GestureType::NoType, reason_collecting())
    } else if !has_gesture(w) {
        (
            TemporalDecisionStatus::Rejected,
            0,
            GestureId::NoGesture,
            sample.confidence_pm as nat,
            GestureType::NoType,
            reason_no_gesture(),
        )
    } else {
        let g = dominant_of(w);
        let t = dominant_type(w);
        let pm = stability_pm_of(w);
        let conf = dominant_confidence(w);
        if hits_of(w, g) < min_hits_for(c, t) {
            (
                TemporalDecisionStatus::Pending,
                pm,
                g,
                conf,
                t,
                reason_few_hits(hits_of(w, g), min_hits_for(c, t)),
            )
        } else if pm < required_pm_for(c, t) {
            (TemporalDecisionStatus::Pending, pm, g, conf, t, reason_unstable(pm, required_pm_for(c, t)))
        } else if last matches Some(l) && l.0 == g && elapsed_ms(now, l.1) < repeat_ms_for(c, t) {
            (TemporalDecisionStatus::Pending, pm, g, conf, t, reason_too_recent())
        } else {
            (
                TemporalDecisionStatus::Confirmed,
                pm,
                g,
                if conf >= sample.confidence_pm {
                    conf
                } else {
                    sample.confidence_pm as nat
                },
                t,
                reason_confirmed(),
            )
        }
    }
}

/// Smooths recognition over frames and limits how often a gesture is confirmed.
pub struct TemporalGestureFilter {
    config: TemporalFilterConfig,
    window: VecDeque<GestureResult>,
    last_confirmed: Option<(GestureId, u64)>,
}

/// There is at most one dominant gesture.
pub proof fn lemma_dominant_unique(w: Seq<GestureResult>, g: GestureId, h: GestureId)
    requires
        is_dominant(w, g),
        is_dominant(w, h),
    ensures
        g == h,
{
    if g != h {
        assert(!beats(w, h, g));
        assert(!beats(w, g, h));
        lemma_prefix_stats(w, g);
        lemma_prefix_stats(w, h);
    }
}

impl TemporalGestureFilter {
    /// The thresholds in use.
    pub closed spec fn config(&self) -> TemporalFilterConfig {
        self.config
    }

    /// The samples in the window, oldest first.
    pub closed spec fn window(&self) -> Seq<GestureResult> {
        self.window@
    }

    /// The last confirmed gesture and when it was confirmed.
    pub closed spec fn last_confirmed(&self) -> Option<(GestureId, u64)> {
        self.last_confirmed
    }

    /// An empty filter.
    pub fn new(config: TemporalFilterConfig) -> (r: TemporalGestureFilter)
        ensures
            r.config() == config,
            r.window() == Seq::<GestureResult>::empty(),
            r.last_confirmed().is_none(),
    {
        TemporalGestureFilter { config, window: VecDeque::new(), last_confirmed: None }
    }

    /// Forgets the window and the last confirmation.
    pub fn clear(&mut self)
        ensures
            final(self).config() == old(self).config(),
            final(self).window() == Seq::<GestureResult>::empty(),
            final(self).last_confirmed().is_none(),
    {
        self.window.clear();
        self.last_confirmed = None;
    }

    /// Adds a sample taken at `now_ms` and decides whether the dominant gesture of the
    /// window is confirmed.
    pub fn push(&mut self, sample: GestureResult, now_ms: u64) -> (r: TemporalFilterOutput)
        ensures
            final(self).config() == old(self).config(),
            final(self).window() == slide(old(self).window(), sample, old(self).config().window_size as nat),
            final(self).window().len() <= old(self).config().window_size,
            ({
                let d = decide(
                    old(self).config(),
                    final(self).window(),
                    old(self).last_confirmed(),
                    sample,
                    now_ms,
                );
                &&& r.status == d.0
                &&& r.stability_pm == d.1
                &&& r.gesture == d.2
                &&& r.confidence_pm == d.3
                &&& r.gesture_type == d.4
                &&& r.reason@ == d.5
            }),
            final(self).last_confirmed() == if r.status == TemporalDecisionStatus::Confirmed {
                Some((r.gesture, now_ms))
            } else {
                old(self).last_confirmed()
            },
            r.stability_pm <= 1000,
            r.status == TemporalDecisionStatus::Confirmed && final(self).window().len() < usize::MAX
                ==> ({
                &&& r.gesture != GestureId::NoGesture
                &&& r.gesture_type != GestureType::NoType
                &&& hits_of(final(self).window(), r.gesture) >= min_hits_for(old(self).config(), r.gesture_type)
                &&& r.stability_pm >= required_pm_for(old(self).config(), r.gesture_type)
                &&& r.confidence_pm >= sample.confidence_pm
            }),
            final(self).window().len() < usize::MAX ==> match old(self).last_confirmed() {
                Some((g, t)) => elapsed_ms(now_ms, t) < old(self).config().static_min_repeat_interval_ms
                    && elapsed_ms(now_ms, t) < old(self).config().dynamic_min_repeat_interval_ms
                    ==> !(r.status == TemporalDecisionStatus::Confirmed && r.gesture == g),
                None => true,
            },
    {
        let ghost full = self.window@.push(sample);
        let ws = self.config.window_size;
        self.window.push_back(sample);
        while self.window.len() > ws
            invariant
                ws == self.config.window_size,
                self.config == old(self).config,
                self.last_confirmed == old(self).last_confirmed,
                full == old(self).window@.push(sample),
                self.window@.len() <= full.len(),
                self.window@ == full.subrange(full.len() - self.window@.len(), full.len() as int),
                self.window@.len() < full.len() ==> self.window@.len() >= ws,
            decreases self.window.len(),
        {
            self.window.pop_front();
        }
        proof {
            if full.len() > ws {
                assert(self.window@ == full.subrange(full.len() - ws, full.len() as int));
            } else {
                assert(self.window@ =~= full);
            }
        }
        let ghost w = self.window@;
        proof {
            lemma_decision_bounds(self.config, w, self.last_confirmed, sample, now_ms);
            if let Some((g, t)) = self.last_confirmed {
                if elapsed_ms(now_ms, t) < self.config.static_min_repeat_interval_ms && elapsed_ms(now_ms, t)
                    < self.config.dynamic_min_repeat_interval_ms && w.len() < usize::MAX {
                    lemma_no_repeat_within_shorter_interval(self.config, w, g, t, sample, now_ms);
                }
            }
        }
        if self.window.len() < 3 {
            return TemporalFilterOutput {
                status: TemporalDecisionStatus::Pending,
                stability_pm: 0,
                gesture: GestureId::NoGesture,
                confidence_pm: 0,
                gesture_type: GestureType::NoType,
                reason: String::from_str("Собираю окно кадров для стабилизации."),
            };
        }
        let dominant = match weighted_majority_gesture(&self.window) {
            Some(d) => d,
            None => {
                return TemporalFilterOutput {
                    status: TemporalDecisionStatus::Rejected,
                    stability_pm: 0,
                    gesture: GestureId::NoGesture,
                    confidence_pm: sample.confidence_pm,
                    gesture_type: GestureType::NoType,
                    reason: String::from_str("Жест не найден в полном окне кадров."),
                };
            },
        };
        proof {
            lemma_dominant_unique(w, dominant.gesture, dominant_of(w));
            lemma_total_weight_fits(w.len());
            lemma_total_weight_bound(w.len());
            lemma_prefix_stats(w, dominant.gesture);
        }
        let stability = permille(dominant.weight, dominant.total);
        let min_hits: usize = match dominant.gesture_type {
            GestureType::Dynamic => self.config.dynamic_min_hits,
            GestureType::Static => self.config.static_min_hits,
            GestureType::NoType => usize::MAX,
        };
        if dominant.hits < min_hits {
            let mut reason = String::from_str("Недостаточно подтверждений жеста: ");
            push_decimal(&mut reason, dominant.hits as u64);
            reason.append("/");
            push_decimal(&mut reason, min_hits as u64);
            reason.append(".");
            return TemporalFilterOutput {
                status: TemporalDecisionStatus::Pending,
                stability_pm: stability,
                gesture: dominant.gesture,
                confidence_pm: dominant.confidence_pm,
                gesture_type: dominant.gesture_type,
                reason,
            };
        }
        let required: u32 = match dominant.gesture_type {
            GestureType::Dynamic => self.config.dynamic_stability_threshold_pm,
            GestureType::Static => self.config.static_stability_threshold_pm,
            GestureType::NoType => 1000,
        };
        if stability < required {
            let mut reason = String::from_str("Стабильность ");
            push_decimal(&mut reason, to_hundredths(stability as u64));
            reason.append("% ниже порога ");
            push_decimal(&mut reason, to_hundredths(required as u64));
            reason.append("%.");
            return TemporalFilterOutput {
                status: TemporalDecisionStatus::Pending,
                stability_pm: stability,
                gesture: dominant.gesture,
                confidence_pm: dominant.confidence_pm,
                gesture_type: dominant.gesture_type,
                reason,
            };
        }
        let repeat_interval: u64 = match dominant.gesture_type {
            GestureType::Dynamic => self.config.dynamic_min_repeat_interval_ms,
            GestureType::Static => self.config.static_min_repeat_interval_ms,
            GestureType::NoType => 3_600_000,
        };
        if let Some((last_id, last_time)) = self.last_confirmed {
            let elapsed: u64 = if now_ms >= last_time {
                now_ms - last_time
            } else {
                0
            };
            if last_id == dominant.gesture && elapsed < repeat_interval {
                return TemporalFilterOutput {
                    status: TemporalDecisionStatus::Pending,
                    stability_pm: stability,
                    gesture: dominant.gesture,
                    confidence_pm: dominant.confidence_pm,
                    gesture_type: dominant.gesture_type,
                    reason: String::from_str("Жест подтверждён слишком недавно."),
                };
            }
        }
        self.last_confirmed = Some((dominant.gesture, now_ms));
        let confidence = if dominant.confidence_pm >= sample.confidence_pm {
            dominant.confidence_pm
        } else {
            sample.confidence_pm
        };
        TemporalFilterOutput {
            status: TemporalDecisionStatus::Confirmed,
            stability_pm: stability,
            gesture: dominant.gesture,
            confidence_pm: confidence,
            gesture_type: dominant.gesture_type,
            reason: String::from_str("Жест стабилен и подтверждён."),
        }
    }
}

/// A window of fewer than three samples is never confirmed.
pub proof fn lemma_short_window_pending(
    c: TemporalFilterConfig,
    w: Seq<GestureResult>,
    last: Option<(GestureId, u64)>,
    sample: GestureResult,
    now: u64,
)
    requires
        w.len() < 3,
    ensures
        decide(c, w, last, sample, now).0 == TemporalDecisionStatus::Pending,
{
}

/// A confirmed gesture is the dominant gesture of the window, has at least the
/// required number of samples and at least the required stability.
pub proof fn lemma_confirmed_meets_thresholds(
    c: TemporalFilterConfig,
    w: Seq<GestureResult>,
    last: Option<(GestureId, u64)>,
    sample: GestureResult,
    now: u64,
)
    requires
        decide(c, w, last, sample, now).0 == TemporalDecisionStatus::Confirmed,
    ensures
        ({
            let d = decide(c, w, last, sample, now);
            &&& is_dominant(w, d.2)
            &&& hits_of(w, d.2) >= min_hits_for(c, d.4)
            &&& d.1 >= required_pm_for(c, d.4)
            &&& d.1 * total_weight(w.len()) <= 1000 * weight_of(w, d.2)
        }),
{
    let g = dominant_of(w);
    assert(has_gesture(w));
    let h = choose|h: GestureId| #[trigger] occurs(w, h);
    assert(exists|x: GestureId| is_dominant(w, x)) by {
        lemma_dominant_exists(w, h);
    }
    lemma_prefix_stats(w, g);
    lemma_total_weight_bound(w.len());
    assert(total_weight(w.len()) > 0) by (nonlinear_arith)
        requires
            total_weight(w.len()) * 2 == w.len() * (w.len() + 1),
            w.len() >= 3,
    ;
    let a: int = 1000 * (weight_of(w, g) as int);
    let t: int = total_weight(w.len()) as int;
    vstd::arithmetic::div_mod::lemma_fundamental_div_mod(a, t);
    let q = a / t;
    assert(q * t <= a) by (nonlinear_arith)
        requires
            a == t * q + a % t,
            a % t >= 0,
    ;
}

/// Once a gesture is confirmed, the same gesture is not confirmed again before its
/// repeat interval has passed since that confirmation.
pub proof fn lemma_confirmations_rate_limited(
    c: TemporalFilterConfig,
    w: Seq<GestureResult>,
    g: GestureId,
    confirmed_at: u64,
    sample: GestureResult,
    now: u64,
)
    requires
        decide(c, w, Some((g, confirmed_at)), sample, now).0 == TemporalDecisionStatus::Confirmed,
        decide(c, w, Some((g, confirmed_at)), sample, now).2 == g,
    ensures
        elapsed_ms(now, confirmed_at) >= repeat_ms_for(
            c,
            decide(c, w, Some((g, confirmed_at)), sample, now).4,
        ),
{
}

/// The stability reported for any window is at most 1000 thousandths. A confirmed
/// result, in a window shorter than the largest `usize`, names a gesture of a
/// known type (static or dynamic) that has at least the hits and the stability
/// that type requires, with a confidence at least that of the latest sample.
pub proof fn lemma_decision_bounds(
    c: TemporalFilterConfig,
    w: Seq<GestureResult>,
    last: Option<(GestureId, u64)>,
    sample: GestureResult,
    now: u64,
)
    ensures
        decide(c, w, last, sample, now).1 <= 1000,
        decide(c, w, last, sample, now).0 == TemporalDecisionStatus::Confirmed && w.len() < usize::MAX
            ==> ({
            let d = decide(c, w, last, sample, now);
            &&& d.2 != GestureId::NoGesture
            &&& d.4 != GestureType::NoType
            &&& hits_of(w, d.2) >= min_hits_for(c, d.4)
            &&& d.1 >= required_pm_for(c, d.4)
            &&& d.3 >= sample.confidence_pm
        }),
{
    if w.len() >= 3 && has_gesture(w) {
        let g = dominant_of(w);
        let h = choose|h: GestureId| #[trigger] occurs(w, h);
        lemma_dominant_exists(w, h);
        lemma_prefix_stats(w, g);
        lemma_total_weight_bound(w.len());
        let t = total_weight(w.len()) as int;
        let wt = weight_of(w, g) as int;
        assert(t > 0) by (nonlinear_arith)
            requires
                t * 2 == w.len() * (w.len() + 1),
                w.len() >= 3,
        ;
        assert((1000 * wt) / t <= 1000) by (nonlinear_arith)
            requires
                0 <= wt <= t,
                t > 0,
        ;
        if decide(c, w, last, sample, now).0 == TemporalDecisionStatus::Confirmed && w.len() < usize::MAX {
            lemma_confirmed_meets_thresholds(c, w, last, sample, now);
        }
    }
}

/// Once a gesture is confirmed, the same gesture is not confirmed again, in a window
/// shorter than the largest `usize`, before the shorter of the two repeat intervals
/// has passed since that confirmation.
pub proof fn lemma_no_repeat_within_shorter_interval(
    c: TemporalFilterConfig,
    w: Seq<GestureResult>,
    g: GestureId,
    confirmed_at: u64,
    sample: GestureResult,
    now: u64,
)
    requires
        w.len() < usize::MAX,
        elapsed_ms(now, confirmed_at) < c.static_min_repeat_interval_ms,
        elapsed_ms(now, confirmed_at) < c.dynamic_min_repeat_interval_ms,
    ensures
        !(decide(c, w, Some((g, confirmed_at)), sample, now).0 == TemporalDecisionStatus::Confirmed
            && decide(c, w, Some((g, confirmed_at)), sample, now).2 == g),
{
    let d = decide(c, w, Some((g, confirmed_at)), sample, now);
    if d.0 == TemporalDecisionStatus::Confirmed && d.2 == g {
        lemma_decision_bounds(c, w, Some((g, confirmed_at)), sample, now);
        lemma_confirmations_rate_limited(c, w, g, confirmed_at, sample, now);
    }
}

/// A window of at least three samples whose dominant gesture `g` has the hits and the
/// stability that the type of its first sample needs is confirmed, naming `g` with
/// that stability and type, unless `g` itself is the last confirmed gesture and its
/// repeat interval has not passed since: the interval holds back only a repeat of the
/// same gesture, never another one.
pub proof fn lemma_stable_gesture_confirmed(
    c: TemporalFilterConfig,
    w: Seq<GestureResult>,
    last: Option<(GestureId, u64)>,
    sample: GestureResult,
    now: u64,
    g: GestureId,
)
    requires
        w.len() >= 3,
        is_dominant(w, g),
        hits_of(w, g) >= min_hits_for(c, w[first_pos(w, g)].gesture_type),
        (1000 * weight_of(w, g)) / total_weight(w.len()) >= required_pm_for(c, w[first_pos(w, g)].gesture_type),
        match last {
            Some((h, t)) => h != g || elapsed_ms(now, t) >= repeat_ms_for(c, w[first_pos(w, g)].gesture_type),
            None => true,
        },
    ensures
        decide(c, w, last, sample, now).0 == TemporalDecisionStatus::Confirmed,
        decide(c, w, last, sample, now).2 == g,
        decide(c, w, last, sample, now).1 == (1000 * weight_of(w, g)) / total_weight(w.len()),
        decide(c, w, last, sample, now).4 == w[first_pos(w, g)].gesture_type,
{
    assert(occurs(w, g));
    assert(has_gesture(w));
    assert(is_dominant(w, dominant_of(w)));
    lemma_dominant_unique(w, g, dominant_of(w));
}

/// Every window in which a gesture occurs has a dominant gesture.
pub proof fn lemma_dominant_exists(w: Seq<GestureResult>, h: GestureId)
    requires
        occurs(w, h),
    ensures
        exists|g: GestureId| is_dominant(w, g),
{
    let all = seq![
        GestureId::NoGesture,
        GestureId::SwipeLeft,
        GestureId::SwipeRight,
        GestureId::OpenPalm,
        GestureId::ClosedFist,
        GestureId::ThumbUp,
        GestureId::ThumbDown,
        GestureId::Pointing,
        GestureId::Victory,
    ];
    assert forall|x: GestureId| all.contains(x) by {
        let i: int = match x {
            GestureId::NoGesture => 0,
            GestureId::SwipeLeft => 1,
            GestureId::SwipeRight => 2,
            GestureId::OpenPalm => 3,
            GestureId::ClosedFist => 4,
            GestureId::ThumbUp => 5,
            GestureId::ThumbDown => 6,
            GestureId::Pointing => 7,
            GestureId::Victory => 8,
        };
        assert(all[i] == x);
    }
    lemma_best_among(w, all, h);
    let g = choose|g: GestureId|
        all.contains(g) && occurs(w, g) && forall|x: GestureId|
            all.contains(x) && #[trigger] occurs(w, x) && x != g ==> !beats(w, x, g);
    assert(is_dominant(w, g));
}

proof fn lemma_best_among(w: Seq<GestureResult>, gs: Seq<GestureId>, h: GestureId)
    requires
        gs.contains(h),
        occurs(w, h),
    ensures
        exists|g: GestureId|
            gs.contains(g) && occurs(w, g) && forall|x: GestureId|
                gs.contains(x) && #[trigger] occurs(w, x) && x != g ==> !beats(w, x, g),
    decreases gs.len(),
{
    let init = gs.drop_last();
    let last = gs.last();
    if init.contains(h) {
        lemma_best_among(w, init, h);
        let b = choose|g: GestureId|
            init.contains(g) && occurs(w, g) && forall|x: GestureId|
                init.contains(x) && #[trigger] occurs(w, x) && x != g ==> !beats(w, x, g);
        assert(gs.contains(b)) by {
            let i = choose|i: int| 0 <= i < init.len() && init[i] == b;
            assert(gs[i] == b);
        }
        if occurs(w, last) && last != b && beats(w, last, b) {
            lemma_prefix_stats(w, last);
            lemma_prefix_stats(w, b);
            assert forall|x: GestureId|
                gs.contains(x) && #[trigger] occurs(w, x) && x != last implies !beats(w, x, last) by {
                if x != b {
                    assert(init.contains(x)) by {
                        let i = choose|i: int| 0 <= i < gs.len() && gs[i] == x;
                        if i == gs.len() - 1 {
                            assert(false);
                        }
                        assert(init[i] == x);
                    }
                    lemma_prefix_stats(w, x);
                    assert(!beats(w, x, b));
                }
            }
            assert(gs.contains(last)) by {
                assert(gs[gs.len() - 1] == last);
            }
        } else {
            assert forall|x: GestureId|
                gs.contains(x) && #[trigger] occurs(w, x) && x != b implies !beats(w, x, b) by {
                if x != last {
                    let i = choose|i: int| 0 <= i < gs.len() && gs[i] == x;
                    assert(init[i] == x);
                }
            }
        }
    } else {
        assert(h == last) by {
            let i = choose|i: int| 0 <= i < gs.len() && gs[i] == h;
            if i < gs.len() - 1 {
                assert(init[i] == h);
            }
        }
        if exists|y: GestureId| init.contains(y) && occurs(w, y) {
            let y = choose|y: GestureId| init.contains(y) && occurs(w, y);
            lemma_best_among(w, init, y);
            let b = choose|g: GestureId|
                init.contains(g) && occurs(w, g) && forall|x: GestureId|
                    init.contains(x) && #[trigger] occurs(w, x) && x != g ==> !beats(w, x, g);
            assert(gs.contains(b)) by {
                let i = choose|i: int| 0 <= i < init.len() && init[i] == b;
                assert(gs[i] == b);
            }
            lemma_prefix_stats(w, last);
            lemma_prefix_stats(w, b);
            if last != b && beats(w, last, b) {
                assert forall|x: GestureId|
                    gs.contains(x) && #[trigger] occurs(w, x) && x != last implies !beats(w, x, last) by {
                    if x != b {
                        assert(init.contains(x)) by {
                            let i = choose|i: int| 0 <= i < gs.len() && gs[i] == x;
                            if i == gs.len() - 1 {
                                assert(false);
                            }
                            assert(init[i] == x);
                        }
                        lemma_prefix_stats(w, x);
                        assert(!beats(w, x, b));
                    }
                }
                assert(gs[gs.len() - 1] == last);
            } else {
                assert forall|x: GestureId|
                    gs.contains(x) && #[trigger] occurs(w, x) && x != b implies !beats(w, x, b) by {
                    if x != last {
                        let i = choose|i: int| 0 <= i < gs.len() && gs[i] == x;
                        assert(init[i] == x);
                    }
                }
            }
        } else {
            assert forall|x: GestureId|
                gs.contains(x) && #[trigger] occurs(w, x) && x != last implies !beats(w, x, last) by {
                let i = choose|i: int| 0 <= i < gs.len() && gs[i] == x;
                if i < gs.len() - 1 {
                    assert(init[i] == x);
                    assert(init.contains(x));
                }
            }
            assert(gs[gs.len() - 1] == last);
        }
    }
}

/// Mean confidence of the samples of `gesture` in the window, rounded down; zero
/// when the gesture does not occur.
fn window_mean_confidence_for(window: &VecDeque<GestureResult>, gesture: GestureId) -> (r: u32)
    ensures
        r == if hits_of(window@, gesture) == 0 {
            0
        } else {
            confidence_sum_of(window@, gesture) / hits_of(window@, gesture)
        },
{
    let mut acc: u128 = 0;
    let mut n: usize = 0;
    let mut i: usize = 0;
    while i < window.len()
        invariant
            i <= window@.len(),
            acc == confidence_sum_of(window@.take(i as int), gesture),
            n == hits_of(window@.take(i as int), gesture),
            acc <= n * 0xFFFF_FFFF,
            n <= i,
        decreases window.len() - i,
    {
        proof {
            assert(window@.take(i + 1).drop_last() =~= window@.take(i as int));
        }
        if window[i].gesture == gesture {
            acc = acc + window[i].confidence_pm as u128;
            n = n + 1;
        }
        i += 1;
    }
    assert(window@.take(window@.len() as int) =~= window@);
    if n == 0 {
        0
    } else {
        proof {
            vstd::arithmetic::div_mod::lemma_div_is_ordered(acc as int, n * 0xFFFF_FFFF, n as int);
            vstd::arithmetic::div_mod::lemma_div_multiples_vanish(0xFFFF_FFFF, n as int);
        }
        (acc / (n as u128)) as u32
    }
}

} // verus!
