//! Texts that describe the landmark backend, and the Python interpreters tried for
//! the hand-landmark helper.
use vstd::prelude::*;
use crate::text::{chars_of, trim_chars, trimmed};

verus! {

/// The parts joined by `sep`.
pub open spec fn joined(parts: Seq<Seq<char>>, sep: Seq<char>) -> Seq<char>
    decreases parts.len(),
{
    if parts.len() == 0 {
        Seq::empty()
    } else if parts.len() == 1 {
        parts[0]
    } else {
        joined(parts.drop_last(), sep) + sep + parts.last()
    }
}

/// Whether a text holds anything but whitespace.
pub open spec fn not_blank(s: Seq<char>) -> bool {
    trimmed(s).len() > 0
}

/// The parts of the backend label: the helper's own label when the helper is
/// ready (or a generic name), otherwise the fallback and the reason the helper is
/// unavailable; then the model path when one is set.
pub open spec fn backend_label_parts(
    helper_ready: bool,
    helper_label: Option<Seq<char>>,
    availability_error: Option<Seq<char>>,
    model_path: Seq<char>,
) -> Seq<Seq<char>> {
    let head = if helper_ready {
        seq![
            match helper_label {
                Some(l) => l,
                None => "MediaPipe Hands"@,
            },
        ]
    } else {
        seq!["fallback: Classic CV"@] + match availability_error {
            Some(e) => seq![e],
            None => Seq::empty(),
        }
    };
    if not_blank(model_path) {
        head.push("path: "@ + model_path)
    } else {
        head
    }
}

/// The text of an optional string.
pub open spec fn opt_text(o: Option<String>) -> Option<Seq<char>> {
    match o {
        Some(s) => Some(s@),
        None => None,
    }
}

fn is_blank(s: &str) -> (r: bool)
    ensures
        r == !not_blank(s@),
{
    let t = trim_chars(&chars_of(s));
    t.len() == 0
}

fn join_strings(parts: &Vec<String>, sep: &str) -> (r: String)
    ensures
        r@ == joined(parts@.map_values(|p: String| p@), sep@),
{
    let ghost ps = parts@.map_values(|p: String| p@);
    let mut out = String::new();
    let mut i: usize = 0;
    while i < parts.len()
        invariant
            i <= parts@.len(),
            ps == parts@.map_values(|p: String| p@),
            out@ == joined(ps.subrange(0, i as int), sep@),
        decreases parts@.len() - i,
    {
        let ghost before = out@;
        if i > 0 {
            out.append(sep);
        }
        out.append(parts[i].as_str());
        proof {
            let sub = ps.subrange(0, i + 1);
            assert(sub.drop_last() =~= ps.subrange(0, i as int));
            assert(sub.last() == parts@[i as int]@);
            if i == 0 {
                assert(ps.subrange(0, 0) =~= Seq::<Seq<char>>::empty());
                assert(out@ =~= parts@[0]@);
            } else {
                assert(out@ =~= before + sep@ + parts@[i as int]@);
            }
        }
        i += 1;
    }
    assert(ps.subrange(0, parts@.len() as int) =~= ps);
    out
}

/// The label describing the landmark backend in use: its parts (see
/// `backend_label_parts`) joined by " · ".
pub fn compose_backend_label(
    helper_ready: bool,
    helper_label: &Option<String>,
    availability_error: &Option<String>,
    model_path: &str,
) -> (r: String)
    ensures
        r@ == joined(
            backend_label_parts(
                helper_ready,
                opt_text(*helper_label),
                opt_text(*availability_error),
                model_path@,
            ),
            " · "@,
        ),
{
    let mut parts: Vec<String> = Vec::new();
    if helper_ready {
        match helper_label {
            Some(l) => parts.push(l.clone()),
            None => parts.push(String::from_str("MediaPipe Hands")),
        }
    } else {
        parts.push(String::from_str("fallback: Classic CV"));
        if let Some(e) = availability_error {
            parts.push(e.clone());
        }
    }
    if !is_blank(model_path) {
        let mut p = String::from_str("path: ");
        p.append(model_path);
        parts.push(p);
    }
    let ghost expected = backend_label_parts(
        helper_ready,
        opt_text(*helper_label),
        opt_text(*availability_error),
        model_path@,
    );
    assert(parts@.map_values(|p: String| p@) =~= expected);
    join_strings(&parts, " · ")
}

/// The label of a backend that reports a model hint: " · model hint: " and the
/// model path are appended when a path is set.
pub fn with_model_hint(label: Option<String>, model_path: &str) -> (r: Option<String>)
    ensures
        not_blank(model_path@) ==> (r matches Some(t) && t@ == match label {
            Some(l) => l@,
            None => Seq::<char>::empty(),
        } + " · model hint: "@ + model_path@),
        !not_blank(model_path@) ==> r == label,
{
    if is_blank(model_path) {
        return label;
    }
    let mut t = match label {
        Some(l) => l,
        None => String::new(),
    };
    t.append(" · model hint: ");
    t.append(model_path);
    Some(t)
}

/// The label the hand-landmark helper gives itself from its greeting: backend and
/// version, or the backend alone, or a generic name.
pub fn helper_label(backend: Option<String>, version: Option<String>) -> (r: String)
    ensures
        r@ == match (backend, version) {
            (Some(b), Some(v)) => b@ + " "@ + v@,
            (Some(b), None) => b@,
            _ => "MediaPipe Hands (python)"@,
        },
{
    match (backend, version) {
        (Some(b), Some(v)) => {
            let mut t = b;
            t.append(" ");
            t.append(v.as_str());
            t
        },
        (Some(b), None) => b,
        _ => String::from_str("MediaPipe Hands (python)"),
    }
}

/// The interpreters tried in turn for the hand-landmark helper, each as program
/// and leading arguments.
pub open spec fn python_candidates(windows: bool) -> Seq<(Seq<char>, Seq<Seq<char>>)> {
    if windows {
        seq![
            ("py"@, seq!["-3"@]),
            ("py"@, seq!["-3.12"@]),
            ("py"@, seq!["-3.11"@]),
            ("py"@, seq!["-3.10"@]),
            ("python"@, Seq::empty()),
            ("python3"@, Seq::empty()),
        ]
    } else {
        seq![("python3"@, Seq::empty()), ("python"@, Seq::empty())]
    }
}

/// The view of a candidate list.
pub open spec fn candidate_texts(v: Seq<(&'static str, Vec<&'static str>)>) -> Seq<(Seq<char>, Seq<Seq<char>>)> {
    v.map_values(|c: (&'static str, Vec<&'static str>)| (c.0@, c.1@.map_values(|a: &'static str| a@)))
}

fn candidate(program: &'static str, arg: Option<&'static str>) -> (r: (&'static str, Vec<&'static str>))
    ensures
        r.0 == program,
        r.1@.map_values(|a: &'static str| a@) == match arg {
            Some(a) => seq![a@],
            None => Seq::<Seq<char>>::empty(),
        },
{
    let mut args: Vec<&'static str> = Vec::new();
    if let Some(a) = arg {
        args.push(a);
    }
    assert(args@.map_values(|a: &'static str| a@) =~= match arg {
        Some(a) => seq![a@],
        None => Seq::<Seq<char>>::empty(),
    });
    (program, args)
}

/// The Python interpreters to try for the hand-landmark helper, on Windows or
/// elsewhere.
pub fn python_command_candidates(windows: bool) -> (r: Vec<(&'static str, Vec<&'static str>)>)
    ensures
        candidate_texts(r@) == python_candidates(windows),
{
    let mut v: Vec<(&'static str, Vec<&'static str>)> = Vec::new();
    if windows {
        v.push(candidate("py", Some("-3")));
        v.push(candidate("py", Some("-3.12")));
        v.push(candidate("py", Some("-3.11")));
        v.push(candidate("py", Some("-3.10")));
        v.push(candidate("python", None));
        v.push(candidate("python3", None));
    } else {
        v.push(candidate("python3", None));
        v.push(candidate("python", None));
    }
    assert(candidate_texts(v@) =~= python_candidates(windows));
    v
}

} // verus!
