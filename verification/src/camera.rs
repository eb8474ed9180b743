//! Camera selection: the adapter settings, the resolutions tried when opening a
//! camera, device names as the user sees them, and matching a chosen name to a
//! device.
use vstd::prelude::*;
use crate::text::{
    alphanumeric, char_is_alphanumeric, chars_equal_str, chars_of, contains_chars, contains_seq, is_white_space,
    is_whitespace_char, lowercase, lowercase_chars, string_from_chars, trim_chars, trimmed,
};

verus! {

/// The device label that stands for the system's first camera.
pub const DEFAULT_DEVICE_LABEL: &'static str = "Камера по умолчанию";

/// Settings of the webcam adapter.
#[derive(Clone, Debug)]
pub struct WebcamAdapterConfig {
    /// Device name chosen in the interface, or the default label.
    pub camera_id: String,
    pub width: u32,
    pub height: u32,
    pub fps: u32,
    pub mirror_horizontal: bool,
}

impl Default for WebcamAdapterConfig {
    /// The default camera at 640×480, 30 frames per second, not mirrored.
    fn default() -> (r: Self)
        ensures
            r.camera_id@ == DEFAULT_DEVICE_LABEL@,
            r.width == 640,
            r.height == 480,
            r.fps == 30,
            !r.mirror_horizontal,
    {
        WebcamAdapterConfig {
            camera_id: String::from_str(DEFAULT_DEVICE_LABEL),
            width: 640,
            height: 480,
            fps: 30,
            mirror_horizontal: false,
        }
    }
}

/// The first `n` items of `s` that are not zero in either side, each kept only at
/// its first occurrence.
pub open spec fn kept_resolutions(s: Seq<(u32, u32)>, n: int) -> Seq<(u32, u32)>
    decreases n,
{
    if n <= 0 {
        Seq::empty()
    } else {
        let prev = kept_resolutions(s, n - 1);
        let p = s[n - 1];
        if p.0 > 0 && p.1 > 0 && !prev.contains(p) {
            prev.push(p)
        } else {
            prev
        }
    }
}

/// The resolutions tried in turn when a camera is opened: the requested one, then
/// the common ones.
pub open spec fn resolution_order(width: u32, height: u32) -> Seq<(u32, u32)> {
    seq![(width, height), (640u32, 480u32), (320u32, 240u32), (848u32, 480u32), (1280u32, 720u32), (1920u32, 1080u32)]
}

/// The resolutions to try when opening a camera, requested one first, without zero
/// sides and without repeats.
pub fn resolution_candidates(width: u32, height: u32) -> (r: Vec<(u32, u32)>)
    ensures
        r@ == kept_resolutions(resolution_order(width, height), 6),
{
    let order: [(u32, u32); 6] = [
        (width, height),
        (640, 480),
        (320, 240),
        (848, 480),
        (1280, 720),
        (1920, 1080),
    ];
    let ghost s = resolution_order(width, height);
    assert(order@ == s);
    let mut out: Vec<(u32, u32)> = Vec::new();
    let mut i: usize = 0;
    while i < 6
        invariant
            i <= 6,
            order@ == s,
            out@ == kept_resolutions(s, i as int),
        decreases 6 - i,
    {
        let p = order[i];
        let mut seen = false;
        let mut j: usize = 0;
        while j < out.len()
            invariant
                j <= out@.len(),
                seen == (exists|k: int| 0 <= k < j && out@[k] == p),
            decreases out@.len() - j,
        {
            if out[j].0 == p.0 && out[j].1 == p.1 {
                seen = true;
            }
            j += 1;
        }
        proof {
            if seen {
                let k = choose|k: int| 0 <= k < out@.len() && out@[k] == p;
                assert(out@.contains(p));
            }
            if out@.contains(p) {
                let k = choose|k: int| 0 <= k < out@.len() && out@[k] == p;
                assert(seen);
            }
        }
        if p.0 > 0 && p.1 > 0 && !seen {
            out.push(p);
        }
        i += 1;
    }
    out
}

/// The first `n` items of `s`, each kept only at its first occurrence.
pub open spec fn first_occurrences(s: Seq<Seq<char>>, n: int) -> Seq<Seq<char>>
    decreases n,
{
    if n <= 0 {
        Seq::empty()
    } else {
        let prev = first_occurrences(s, n - 1);
        if prev.contains(s[n - 1]) {
            prev
        } else {
            prev.push(s[n - 1])
        }
    }
}

/// The texts of a list of strings.
pub open spec fn texts(v: Seq<String>) -> Seq<Seq<char>> {
    v.map_values(|x: String| x@)
}

/// The list without repeats, each item kept where it first occurs.
pub fn dedupe(items: Vec<String>) -> (r: Vec<String>)
    ensures
        texts(r@) == first_occurrences(texts(items@), items@.len() as int),
{
    let mut result: Vec<String> = Vec::new();
    let mut i: usize = 0;
    while i < items.len()
        invariant
            i <= items@.len(),
            texts(result@) == first_occurrences(texts(items@), i as int),
        decreases items@.len() - i,
    {
        let item = items[i].clone();
        let mut seen = false;
        let mut j: usize = 0;
        while j < result.len()
            invariant
                j <= result@.len(),
                item@ == items@[i as int]@,
                seen == (exists|k: int| 0 <= k < j && result@[k]@ == item@),
            decreases result@.len() - j,
        {
            if result[j] == item {
                seen = true;
            }
            j += 1;
        }
        let ghost before = result@;
        proof {
            let t = texts(before);
            if seen {
                let k = choose|k: int| 0 <= k < before.len() && before[k]@ == item@;
                assert(t[k] == item@);
                assert(t.contains(item@));
            }
            if t.contains(item@) {
                let k = choose|k: int| 0 <= k < t.len() && t[k] == item@;
                assert(before[k]@ == item@);
            }
            assert(texts(items@)[i as int] == item@);
        }
        if !seen {
            result.push(item);
            assert(texts(result@) =~= texts(before).push(item@));
        }
        i += 1;
    }
    result
}

/// The list without repeats holds no item twice and holds exactly the items of the
/// list.
pub proof fn lemma_dedupe_distinct_complete(s: Seq<Seq<char>>, n: int)
    requires
        0 <= n <= s.len(),
    ensures
        first_occurrences(s, n).no_duplicates(),
        forall|x: Seq<char>| #[trigger] first_occurrences(s, n).contains(x) <==> s.subrange(0, n).contains(x),
    decreases n,
{
    if n > 0 {
        lemma_dedupe_distinct_complete(s, n - 1);
        let prev = first_occurrences(s, n - 1);
        let sub = s.subrange(0, n);
        let sub0 = s.subrange(0, n - 1);
        assert(sub =~= sub0.push(s[n - 1]));
        assert(first_occurrences(s, n) == if prev.contains(s[n - 1]) {
            prev
        } else {
            prev.push(s[n - 1])
        });
        assert forall|x: Seq<char>| #[trigger] first_occurrences(s, n).contains(x) <==> sub.contains(x) by {
            if sub.contains(x) {
                let j = choose|j: int| 0 <= j < sub.len() && sub[j] == x;
                if j < n - 1 {
                    assert(sub0[j] == x);
                    assert(sub0.contains(x));
                    assert(prev.contains(x));
                    if !prev.contains(s[n - 1]) {
                        let k = choose|k: int| 0 <= k < prev.len() && prev[k] == x;
                        assert(prev.push(s[n - 1])[k] == x);
                    }
                } else {
                    assert(x == s[n - 1]);
                    if !prev.contains(x) {
                        assert(prev.push(x)[prev.len() as int] == x);
                        assert(prev.push(x).contains(x));
                    }
                }
            }
            if first_occurrences(s, n).contains(x) {
                if prev.contains(x) {
                    assert(sub0.contains(x));
                    let j = choose|j: int| 0 <= j < sub0.len() && sub0[j] == x;
                    assert(sub[j] == x);
                    assert(sub.contains(x));
                } else {
                    let r = prev.push(s[n - 1]);
                    let j = choose|j: int| 0 <= j < r.len() && r[j] == x;
                    if j < prev.len() {
                        assert(prev[j] == x);
                        assert(prev.contains(x));
                    } else {
                        assert(sub[n - 1] == x);
                        assert(sub.contains(x));
                    }
                }
            }
        }
        if !prev.contains(s[n - 1]) {
            let r = prev.push(s[n - 1]);
            assert forall|i: int, j: int| 0 <= i < r.len() && 0 <= j < r.len() && i != j implies r[i] != r[j] by {
                if i < prev.len() && j < prev.len() {
                } else if i < prev.len() {
                    assert(prev.contains(prev[i]));
                } else {
                    assert(prev.contains(prev[j]));
                }
            }
        }
    }
}

/// The resolutions to try have no zero side and no repeats.
pub proof fn lemma_resolutions_distinct_positive(s: Seq<(u32, u32)>, n: int)
    requires
        0 <= n <= s.len(),
    ensures
        kept_resolutions(s, n).no_duplicates(),
        forall|k: int|
            0 <= k < kept_resolutions(s, n).len() ==> #[trigger] kept_resolutions(s, n)[k].0 > 0
                && kept_resolutions(s, n)[k].1 > 0,
    decreases n,
{
    if n > 0 {
        lemma_resolutions_distinct_positive(s, n - 1);
        let prev = kept_resolutions(s, n - 1);
        let p = s[n - 1];
        if p.0 > 0 && p.1 > 0 && !prev.contains(p) {
            let r = prev.push(p);
            assert forall|i: int, j: int| 0 <= i < r.len() && 0 <= j < r.len() && i != j implies r[i] != r[j] by {
                if i < prev.len() && j < prev.len() {
                } else if i < prev.len() {
                    assert(prev.contains(prev[i]));
                } else {
                    assert(prev.contains(prev[j]));
                }
            }
            assert forall|k: int| 0 <= k < r.len() implies #[trigger] r[k].0 > 0 && r[k].1 > 0 by {
                if k < prev.len() {
                    assert(r[k] == prev[k]);
                }
            }
        }
    }
}

/// The pieces of `s` between line feeds (one piece more than there are line feeds).
pub open spec fn line_pieces(s: Seq<char>) -> Seq<Seq<char>>
    decreases s.len(),
{
    if s.len() == 0 {
        seq![Seq::<char>::empty()]
    } else {
        let p = line_pieces(s.drop_last());
        if s.last() == '\n' {
            p.push(Seq::empty())
        } else {
            p.update(p.len() - 1, p.last().push(s.last()))
        }
    }
}

/// The trimmed pieces that are not blank, in order.
pub open spec fn nonblank_trimmed(ps: Seq<Seq<char>>) -> Seq<Seq<char>>
    decreases ps.len(),
{
    if ps.len() == 0 {
        Seq::empty()
    } else {
        let k = nonblank_trimmed(ps.drop_last());
        let t = trimmed(ps.last());
        if t.len() > 0 {
            k.push(t)
        } else {
            k
        }
    }
}

proof fn lemma_line_pieces_nonempty(s: Seq<char>)
    ensures
        line_pieces(s).len() >= 1,
    decreases s.len(),
{
    if s.len() > 0 {
        lemma_line_pieces_nonempty(s.drop_last());
    }
}

/// The lines of a program's output, trimmed, without the blank ones.
pub fn output_lines(text: &str) -> (r: Vec<String>)
    ensures
        texts(r@) == nonblank_trimmed(line_pieces(text@)),
{
    let cs = chars_of(text);
    let ghost s = cs@;
    let mut out: Vec<String> = Vec::new();
    let mut cur: Vec<char> = Vec::new();
    let mut i: usize = 0;
    proof {
        assert(s.subrange(0, 0) =~= Seq::<char>::empty());
        assert(line_pieces(Seq::<char>::empty()).drop_last() =~= Seq::<Seq<char>>::empty());
    }
    while i < cs.len()
        invariant
            s == cs@,
            i <= s.len(),
            line_pieces(s.subrange(0, i as int)).len() >= 1,
            texts(out@) == nonblank_trimmed(line_pieces(s.subrange(0, i as int)).drop_last()),
            cur@ == line_pieces(s.subrange(0, i as int)).last(),
        decreases s.len() - i,
    {
        let c = cs[i];
        let ghost pre = s.subrange(0, i as int);
        let ghost next = s.subrange(0, i + 1);
        let ghost p = line_pieces(pre);
        proof {
            assert(next.drop_last() =~= pre);
            assert(next.last() == c);
            lemma_line_pieces_nonempty(next);
        }
        if c == '\n' {
            let t = trim_chars(&cur);
            proof {
                assert(line_pieces(next) == p.push(Seq::<char>::empty()));
                assert(line_pieces(next).drop_last() =~= p);
                assert(p =~= p.drop_last().push(p.last()));
            }
            if t.len() > 0 {
                let ghost before = out@;
                out.push(string_from_chars(&t));
                assert(texts(out@) =~= texts(before).push(t@));
            }
            cur = Vec::new();
            proof {
                assert(cur@ =~= line_pieces(next).last());
            }
        } else {
            cur.push(c);
            proof {
                assert(line_pieces(next) == p.update(p.len() - 1, p.last().push(c)));
                assert(line_pieces(next).drop_last() =~= p.drop_last());
            }
        }
        i += 1;
    }
    let t = trim_chars(&cur);
    let ghost p = line_pieces(s);
    proof {
        assert(s.subrange(0, s.len() as int) =~= s);
        assert(p =~= p.drop_last().push(p.last()));
    }
    if t.len() > 0 {
        let ghost before = out@;
        out.push(string_from_chars(&t));
        assert(texts(out@) =~= texts(before).push(t@));
    }
    out
}

/// A device name's characters, each `ё` spelled `е` and every character that is
/// neither alphanumeric nor whitespace replaced by a space.
pub open spec fn sanitized(t: Seq<char>) -> Seq<char> {
    Seq::new(
        t.len(),
        |k: int|
            {
                let c = if t[k] == 'ё' {
                    'е'
                } else {
                    t[k]
                };
                if alphanumeric(c) || is_white_space(c) {
                    c
                } else {
                    ' '
                }
            },
    )
}

/// The words of `s` (runs of non-whitespace) joined by single spaces.
pub open spec fn joined_words(s: Seq<char>) -> Seq<char>
    decreases s.len(),
{
    if s.len() == 0 {
        Seq::empty()
    } else {
        let p = joined_words(s.drop_last());
        let c = s.last();
        if is_white_space(c) {
            p
        } else if s.len() >= 2 && !is_white_space(s[s.len() - 2]) {
            p.push(c)
        } else if p.len() == 0 {
            seq![c]
        } else {
            p.push(' ').push(c)
        }
    }
}

/// A device name in the form used to compare names: lowercase, `ё` as `е`,
/// punctuation as spaces, words joined by single spaces.
pub open spec fn normalized_name(v: Seq<char>) -> Seq<char> {
    joined_words(sanitized(lowercase(v)))
}

/// Every whitespace character of `t` is a single space between two characters that
/// are not whitespace.
pub open spec fn single_spaced(t: Seq<char>) -> bool {
    forall|k: int|
        0 <= k < t.len() && #[trigger] is_white_space(t[k]) ==> t[k] == ' ' && 0 < k < t.len() - 1
            && !is_white_space(t[k - 1]) && !is_white_space(t[k + 1])
}

/// Words joined by spaces neither start nor end with whitespace and hold single
/// spaces only between words; so does every normalised device name.
pub proof fn lemma_normalized_single_spaced(s: Seq<char>)
    ensures
        single_spaced(joined_words(s)),
    decreases s.len(),
{
    if s.len() > 0 {
        lemma_normalized_single_spaced(s.drop_last());
        let p = joined_words(s.drop_last());
        let c = s.last();
        let t = joined_words(s);
        assert(is_white_space(' '));
        if is_white_space(c) {
        } else if s.len() >= 2 && !is_white_space(s[s.len() - 2]) {
            assert forall|k: int| 0 <= k < t.len() && #[trigger] is_white_space(t[k]) implies t[k] == ' '
                && 0 < k < t.len() - 1 && !is_white_space(t[k - 1]) && !is_white_space(t[k + 1]) by {
                assert(t == p.push(c));
                if k < p.len() {
                    assert(t[k] == p[k]);
                    assert(is_white_space(p[k]));
                    assert(t[k - 1] == p[k - 1]);
                    assert(t[k + 1] == p[k + 1]);
                }
            }
        } else if p.len() == 0 {
            assert(t =~= seq![c]);
        } else {
            assert(t == p.push(' ').push(c));
            assert(!is_white_space(p.last())) by {
                if is_white_space(p.last()) {
                    assert(is_white_space(p[p.len() - 1]));
                }
            }
            assert forall|k: int| 0 <= k < t.len() && #[trigger] is_white_space(t[k]) implies t[k] == ' '
                && 0 < k < t.len() - 1 && !is_white_space(t[k - 1]) && !is_white_space(t[k + 1]) by {
                if k < p.len() {
                    assert(t[k] == p[k]);
                    assert(is_white_space(p[k]));
                    assert(t[k - 1] == p[k - 1]);
                    assert(t[k + 1] == p[k + 1]);
                } else if k == p.len() {
                    assert(t[k - 1] == p.last());
                    assert(t[k + 1] == c);
                }
            }
        }
    }
}

proof fn lemma_joined_words_empty(s: Seq<char>)
    requires
        forall|k: int| 0 <= k < s.len() ==> is_white_space(s[k]),
    ensures
        joined_words(s).len() == 0,
    decreases s.len(),
{
    if s.len() > 0 {
        lemma_joined_words_empty(s.drop_last());
    }
}

/// A device name in comparable form: lowercase, `ё` as `е`, every character that
/// is neither alphanumeric nor whitespace as a space, words joined by single spaces.
pub fn normalize_device_name(value: &str) -> (r: String)
    ensures
        r@ == normalized_name(value@),
{
    let low = lowercase_chars(&chars_of(value));
    let n = low.len();
    let mut clean: Vec<char> = Vec::new();
    let mut i: usize = 0;
    while i < n
        invariant
            n == low@.len(),
            i <= n,
            clean@ == sanitized(low@).subrange(0, i as int),
        decreases n - i,
    {
        let mut c = low[i];
        if c == 'ё' {
            c = 'е';
        }
        let keep = char_is_alphanumeric(c) || is_whitespace_char(c);
        clean.push(if keep {
            c
        } else {
            ' '
        });
        i += 1;
        assert(clean@ =~= sanitized(low@).subrange(0, i as int));
    }
    assert(clean@ =~= sanitized(low@));
    let ghost s = clean@;
    let mut out: Vec<char> = Vec::new();
    let mut j: usize = 0;
    while j < n
        invariant
            n == s.len(),
            s == clean@,
            j <= n,
            out@ == joined_words(s.subrange(0, j as int)),
        decreases n - j,
    {
        let c = clean[j];
        let ghost pre = s.subrange(0, j as int);
        let ghost cur = s.subrange(0, j + 1);
        assert(cur.drop_last() =~= pre);
        assert(cur.last() == c);
        if is_whitespace_char(c) {
        } else if j >= 1 && !is_whitespace_char(clean[j - 1]) {
            assert(cur[cur.len() - 2] == s[j - 1]);
            out.push(c);
        } else if out.len() == 0 {
            out.push(c);
            assert(out@ =~= seq![c]);
        } else {
            out.push(' ');
            out.push(c);
        }
        j += 1;
    }
    assert(s.subrange(0, n as int) =~= s);
    string_from_chars(&out)
}

/// The chosen name has no exact normalised match among `names`.
pub open spec fn no_exact_match(names: Seq<Seq<char>>, wanted: Seq<char>) -> bool {
    forall|k: int| 0 <= k < names.len() ==> normalized_name(#[trigger] names[k]) != wanted
}

/// No normalised name among `names` contains the chosen one.
pub open spec fn no_partial_match(names: Seq<Seq<char>>, wanted: Seq<char>) -> bool {
    forall|k: int| 0 <= k < names.len() ==> !contains_seq(normalized_name(#[trigger] names[k]), wanted)
}

/// Whether `r` is how the chosen name `camera_id` resolves among the camera names
/// `ns`: the default label gives the first camera; any other name gives the first
/// camera whose normalised name equals its normalised form, or else the first whose
/// normalised name contains it, or else an error naming the choice.
pub open spec fn is_camera_resolution(camera_id: Seq<char>, ns: Seq<Seq<char>>, r: Result<usize, String>) -> bool {
    if camera_id == DEFAULT_DEVICE_LABEL@ {
        r == Ok::<usize, String>(0)
    } else {
        let wanted = normalized_name(camera_id);
        match r {
            Ok(i) => i < ns.len() && ((normalized_name(ns[i as int]) == wanted && no_exact_match(
                ns.subrange(0, i as int),
                wanted,
            )) || (no_exact_match(ns, wanted) && contains_seq(normalized_name(ns[i as int]), wanted)
                && no_partial_match(ns.subrange(0, i as int), wanted))),
            Err(e) => no_exact_match(ns, wanted) && no_partial_match(ns, wanted) && e@ == "Камера `"@
                + camera_id + "` не найдена."@,
        }
    }
}

/// Finds, by position among the names of the cameras present, the camera that a
/// chosen device name stands for. The default label stands for the first camera;
/// otherwise the first camera whose normalised name equals the chosen one's, or
/// else the first whose normalised name contains it; failing both, an error
/// that names the choice.
pub fn resolve_camera_index(camera_id: &str, names: &[String]) -> (r: Result<usize, String>)
    requires
        camera_id@ == DEFAULT_DEVICE_LABEL@ ==> names@.len() > 0,
    ensures
        is_camera_resolution(camera_id@, texts(names@), r),
{
    if chars_equal_str(&chars_of(camera_id), DEFAULT_DEVICE_LABEL) {
        return Ok(0);
    }
    let ghost ns = texts(names@);
    let wanted = normalize_device_name(camera_id);
    let wanted_chars = chars_of(wanted.as_str());
    let mut i: usize = 0;
    while i < names.len()
        invariant
            i <= names@.len(),
            ns == texts(names@),
            wanted@ == normalized_name(camera_id@),
            wanted_chars@ == wanted@,
            camera_id@ != DEFAULT_DEVICE_LABEL@,
            no_exact_match(ns.subrange(0, i as int), wanted@),
        decreases names@.len() - i,
    {
        let name = normalize_device_name(names[i].as_str());
        assert(ns[i as int] == names@[i as int]@);
        if name == wanted {
            return Ok(i);
        }
        proof {
            assert forall|k: int| 0 <= k < i + 1 implies normalized_name(#[trigger] ns.subrange(0, i + 1)[k]) != wanted@ by {
                if k < i {
                    assert(ns.subrange(0, i + 1)[k] == ns.subrange(0, i as int)[k]);
                }
            }
        }
        i += 1;
    }
    assert(ns.subrange(0, names@.len() as int) =~= ns);
    let mut j: usize = 0;
    while j < names.len()
        invariant
            j <= names@.len(),
            ns == texts(names@),
            wanted@ == normalized_name(camera_id@),
            wanted_chars@ == wanted@,
            camera_id@ != DEFAULT_DEVICE_LABEL@,
            no_exact_match(ns, wanted@),
            no_partial_match(ns.subrange(0, j as int), wanted@),
        decreases names@.len() - j,
    {
        let name = normalize_device_name(names[j].as_str());
        assert(ns[j as int] == names@[j as int]@);
        let name_chars = chars_of(name.as_str());
        if contains_chars(&name_chars, &wanted_chars) {
            return Ok(j);
        }
        proof {
            assert forall|k: int| 0 <= k < j + 1 implies !contains_seq(normalized_name(#[trigger] ns.subrange(0, j + 1)[k]), wanted@) by {
                if k < j {
                    assert(ns.subrange(0, j + 1)[k] == ns.subrange(0, j as int)[k]);
                }
            }
        }
        j += 1;
    }
    assert(ns.subrange(0, names@.len() as int) =~= ns);
    let mut e = String::from_str("Камера `");
    e.append(camera_id);
    e.append("` не найдена.");
    Err(e)
}


/// Picks the camera to open, by position among the names of the cameras present:
/// none present is an error; otherwise the chosen name is resolved.
pub fn camera_position(camera_id: &str, names: &[String]) -> (r: Result<usize, String>)
    ensures
        names@.len() == 0 ==> (r matches Err(e) && e@ == "В системе не найдено доступных камер."@),
        names@.len() > 0 ==> is_camera_resolution(camera_id@, texts(names@), r),
{
    if names.len() == 0 {
        return Err(String::from_str("В системе не найдено доступных камер."));
    }
    resolve_camera_index(camera_id, names)
}

/// How many failed reads in a row make the adapter reconnect the camera.
pub const RECONNECT_AFTER_FAILURES: u32 = 4;

/// The count of failed reads in a row after one more failure (saturating), and
/// whether the camera is to be reconnected: from the fourth failure in a row on.
pub fn count_read_failure(consecutive_failures: u32) -> (r: (u32, bool))
    ensures
        r.0 == if consecutive_failures == u32::MAX {
            u32::MAX
        } else {
            (consecutive_failures + 1) as u32
        },
        r.1 == (r.0 >= 4),
{
    let next = consecutive_failures.saturating_add(1);
    (next, next >= RECONNECT_AFTER_FAILURES)
}

} // verus!
