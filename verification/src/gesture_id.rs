//! Identifier of a recognised gesture, with its display names and its key in the
//! bindings file.
use vstd::prelude::*;

use crate::text::{chars_equal_str, chars_of, lowercase, lowercase_chars, trim_chars, trimmed};

verus! {

/// Identifier of a recognised gesture. `NoGesture` means that nothing was recognised.
#[derive(Clone, Copy, Debug, PartialEq, Eq, Hash, Structural)]
pub enum GestureId {
    NoGesture,
    SwipeLeft,
    SwipeRight,
    OpenPalm,
    ClosedFist,
    ThumbUp,
    ThumbDown,
    Pointing,
    Victory,
}

impl Default for GestureId {
    fn default() -> (r: Self)
        ensures
            r == GestureId::NoGesture,
    {
        GestureId::NoGesture
    }
}

/// The user-facing (Russian) name of the gesture that triggers an action.
pub open spec fn trigger_text(g: GestureId) -> Option<Seq<char>> {
    match g {
        GestureId::NoGesture => None,
        GestureId::SwipeLeft => Some("взмах влево"@),
        GestureId::SwipeRight => Some("взмах вправо"@),
        GestureId::OpenPalm => Some("открытая ладонь"@),
        GestureId::ClosedFist => Some("кулак"@),
        GestureId::ThumbUp => Some("большой палец вверх"@),
        GestureId::ThumbDown => Some("большой палец вниз"@),
        GestureId::Pointing => Some("указание"@),
        GestureId::Victory => Some("victory / peace"@),
    }
}

/// The key of a gesture in the bindings file.
pub open spec fn gesture_wire_text(g: GestureId) -> Option<Seq<char>> {
    match g {
        GestureId::NoGesture => None,
        GestureId::SwipeLeft => Some("SwipeLeft"@),
        GestureId::SwipeRight => Some("SwipeRight"@),
        GestureId::OpenPalm => Some("OpenPalm"@),
        GestureId::ClosedFist => Some("ClosedFist"@),
        GestureId::ThumbUp => Some("ThumbUp"@),
        GestureId::ThumbDown => Some("ThumbDown"@),
        GestureId::Pointing => Some("Pointing"@),
        GestureId::Victory => Some("Victory"@),
    }
}

/// The gesture whose bindings-file key is exactly `t`.
pub open spec fn gesture_for_wire_text(t: Seq<char>) -> Option<GestureId> {
    if t == "SwipeLeft"@ {
        Some(GestureId::SwipeLeft)
    } else if t == "SwipeRight"@ {
        Some(GestureId::SwipeRight)
    } else if t == "OpenPalm"@ {
        Some(GestureId::OpenPalm)
    } else if t == "ClosedFist"@ {
        Some(GestureId::ClosedFist)
    } else if t == "ThumbUp"@ {
        Some(GestureId::ThumbUp)
    } else if t == "ThumbDown"@ {
        Some(GestureId::ThumbDown)
    } else if t == "Pointing"@ {
        Some(GestureId::Pointing)
    } else if t == "Victory"@ {
        Some(GestureId::Victory)
    } else {
        None
    }
}

/// The gesture named by a normalised (trimmed, lowercased) MediaPipe label.
pub open spec fn gesture_for_mediapipe_text(t: Seq<char>) -> Option<GestureId> {
    if t == "open_palm"@ || t == "open palm"@ || t == "palm"@ {
        Some(GestureId::OpenPalm)
    } else if t == "closed_fist"@ || t == "closed fist"@ || t == "fist"@ {
        Some(GestureId::ClosedFist)
    } else if t == "thumb_up"@ || t == "thumb up"@ {
        Some(GestureId::ThumbUp)
    } else if t == "thumb_down"@ || t == "thumb down"@ {
        Some(GestureId::ThumbDown)
    } else if t == "pointing_up"@ || t == "pointing up"@ || t == "pointing"@ {
        Some(GestureId::Pointing)
    } else if t == "victory"@ || t == "peace"@ {
        Some(GestureId::Victory)
    } else {
        None
    }
}

/// Whether a gesture can be bound to a command (every gesture but `NoGesture`).
pub open spec fn is_bindable(g: GestureId) -> bool {
    g != GestureId::NoGesture
}

/// The bindable gestures, in the order the bindings editor lists them.
pub open spec fn bindable_seq() -> Seq<GestureId> {
    seq![
        GestureId::SwipeLeft,
        GestureId::SwipeRight,
        GestureId::OpenPalm,
        GestureId::ClosedFist,
        GestureId::ThumbUp,
        GestureId::ThumbDown,
        GestureId::Pointing,
        GestureId::Victory,
    ]
}

impl GestureId {
    /// Russian name of the gesture as shown to the user; `None` for `NoGesture`.
    pub fn user_trigger_ru(self) -> (r: Option<&'static str>)
        ensures
            r.is_some() == trigger_text(self).is_some(),
            r matches Some(s) ==> s@ == trigger_text(self).unwrap(),
    {
        match self {
            GestureId::NoGesture => None,
            GestureId::SwipeLeft => Some("взмах влево"),
            GestureId::SwipeRight => Some("взмах вправо"),
            GestureId::OpenPalm => Some("открытая ладонь"),
            GestureId::ClosedFist => Some("кулак"),
            GestureId::ThumbUp => Some("большой палец вверх"),
            GestureId::ThumbDown => Some("большой палец вниз"),
            GestureId::Pointing => Some("указание"),
            GestureId::Victory => Some("victory / peace"),
        }
    }

    /// Key of the gesture in the bindings file; `None` for `NoGesture`.
    pub fn wire_key(self) -> (r: Option<&'static str>)
        ensures
            r.is_some() == gesture_wire_text(self).is_some(),
            r matches Some(s) ==> s@ == gesture_wire_text(self).unwrap(),
    {
        match self {
            GestureId::NoGesture => None,
            GestureId::SwipeLeft => Some("SwipeLeft"),
            GestureId::SwipeRight => Some("SwipeRight"),
            GestureId::OpenPalm => Some("OpenPalm"),
            GestureId::ClosedFist => Some("ClosedFist"),
            GestureId::ThumbUp => Some("ThumbUp"),
            GestureId::ThumbDown => Some("ThumbDown"),
            GestureId::Pointing => Some("Pointing"),
            GestureId::Victory => Some("Victory"),
        }
    }

    /// Parses a bindings-file key; surrounding whitespace is ignored.
    pub fn parse_wire_key(s: &str) -> (r: Option<GestureId>)
        ensures
            r == gesture_for_wire_text(trimmed(s@)),
    {
        let t = trim_chars(&chars_of(s));
        if chars_equal_str(&t, "SwipeLeft") {
            Some(GestureId::SwipeLeft)
        } else if chars_equal_str(&t, "SwipeRight") {
            Some(GestureId::SwipeRight)
        } else if chars_equal_str(&t, "OpenPalm") {
            Some(GestureId::OpenPalm)
        } else if chars_equal_str(&t, "ClosedFist") {
            Some(GestureId::ClosedFist)
        } else if chars_equal_str(&t, "ThumbUp") {
            Some(GestureId::ThumbUp)
        } else if chars_equal_str(&t, "ThumbDown") {
            Some(GestureId::ThumbDown)
        } else if chars_equal_str(&t, "Pointing") {
            Some(GestureId::Pointing)
        } else if chars_equal_str(&t, "Victory") {
            Some(GestureId::Victory)
        } else {
            None
        }
    }

    /// Maps a gesture label reported by MediaPipe; the label is trimmed and
    /// lowercased before it is matched.
    pub fn from_mediapipe_label(label: &str) -> (r: Option<GestureId>)
        ensures
            r == gesture_for_mediapipe_text(lowercase(trimmed(label@))),
    {
        let t = lowercase_chars(&trim_chars(&chars_of(label)));
        Self::from_normalized_label(&t)
    }

    /// Maps an already normalised (trimmed, lowercased) MediaPipe label.
    pub fn from_normalized_label(t: &Vec<char>) -> (r: Option<GestureId>)
        ensures
            r == gesture_for_mediapipe_text(t@),
    {
        if chars_equal_str(t, "open_palm") || chars_equal_str(t, "open palm") || chars_equal_str(
            t,
            "palm",
        ) {
            Some(GestureId::OpenPalm)
        } else if chars_equal_str(t, "closed_fist") || chars_equal_str(t, "closed fist")
            || chars_equal_str(t, "fist") {
            Some(GestureId::ClosedFist)
        } else if chars_equal_str(t, "thumb_up") || chars_equal_str(t, "thumb up") {
            Some(GestureId::ThumbUp)
        } else if chars_equal_str(t, "thumb_down") || chars_equal_str(t, "thumb down") {
            Some(GestureId::ThumbDown)
        } else if chars_equal_str(t, "pointing_up") || chars_equal_str(t, "pointing up")
            || chars_equal_str(t, "pointing") {
            Some(GestureId::Pointing)
        } else if chars_equal_str(t, "victory") || chars_equal_str(t, "peace") {
            Some(GestureId::Victory)
        } else {
            None
        }
    }

    /// The gestures that can be bound to commands, in editor order.
    pub fn bindable() -> (r: Vec<GestureId>)
        ensures
            r@ == bindable_seq(),
    {
        let mut v: Vec<GestureId> = Vec::new();
        v.push(GestureId::SwipeLeft);
        v.push(GestureId::SwipeRight);
        v.push(GestureId::OpenPalm);
        v.push(GestureId::ClosedFist);
        v.push(GestureId::ThumbUp);
        v.push(GestureId::ThumbDown);
        v.push(GestureId::Pointing);
        v.push(GestureId::Victory);
        v
    }
}

/// The bindings-file key of every bindable gesture parses back to that gesture, also
/// when it is surrounded by whitespace; `NoGesture` has no key.
pub proof fn lemma_gesture_wire_key_round_trip(g: GestureId)
    ensures
        gesture_wire_text(g).is_none() <==> g == GestureId::NoGesture,
        g != GestureId::NoGesture ==> gesture_for_wire_text(trimmed(gesture_wire_text(g).unwrap()))
            == Some(g),
{
    reveal_strlit("SwipeLeft");
    reveal_strlit("SwipeRight");
    reveal_strlit("OpenPalm");
    reveal_strlit("ClosedFist");
    reveal_strlit("ThumbUp");
    reveal_strlit("ThumbDown");
    reveal_strlit("Pointing");
    reveal_strlit("Victory");
    if g != GestureId::NoGesture {
        let t = gesture_wire_text(g).unwrap();
        crate::text::lemma_trimmed_no_space(t);
    }
}

/// Every bindable gesture has a user-facing name, and `NoGesture` has none.
pub proof fn lemma_trigger_text_defined(g: GestureId)
    ensures
        trigger_text(g).is_some() <==> is_bindable(g),
        bindable_seq().contains(g) <==> is_bindable(g),
{
    if is_bindable(g) {
        let i: int = match g {
            GestureId::SwipeLeft => 0,
            GestureId::SwipeRight => 1,
            GestureId::OpenPalm => 2,
            GestureId::ClosedFist => 3,
            GestureId::ThumbUp => 4,
            GestureId::ThumbDown => 5,
            GestureId::Pointing => 6,
            _ => 7,
        };
        assert(bindable_seq()[i] == g);
    }
}

/// Length and first character of a gesture's user-facing name.
spec fn trigger_signature(g: GestureId) -> (nat, char) {
    match g {
        GestureId::SwipeLeft => (11, 'в'),
        GestureId::SwipeRight => (12, 'в'),
        GestureId::OpenPalm => (15, 'о'),
        GestureId::ClosedFist => (5, 'к'),
        GestureId::ThumbUp => (19, 'б'),
        GestureId::ThumbDown => (18, 'б'),
        GestureId::Pointing => (8, 'у'),
        GestureId::Victory => (15, 'v'),
        GestureId::NoGesture => (0, ' '),
    }
}

proof fn lemma_trigger_signature(g: GestureId)
    requires
        g != GestureId::NoGesture,
    ensures
        trigger_text(g).unwrap().len() == trigger_signature(g).0,
        trigger_text(g).unwrap()[0] == trigger_signature(g).1,
{
    reveal_strlit("взмах влево");
    reveal_strlit("взмах вправо");
    reveal_strlit("открытая ладонь");
    reveal_strlit("кулак");
    reveal_strlit("большой палец вверх");
    reveal_strlit("большой палец вниз");
    reveal_strlit("указание");
    reveal_strlit("victory / peace");
}

/// Only `NoGesture` has no user-facing name; the names of the other gestures are
/// non-empty and pairwise different.
pub proof fn lemma_trigger_names_distinct(a: GestureId, b: GestureId)
    ensures
        trigger_text(a).is_none() <==> a == GestureId::NoGesture,
        a != GestureId::NoGesture ==> trigger_text(a).unwrap().len() > 0,
        a != b ==> trigger_text(a) != trigger_text(b),
{
    if a != GestureId::NoGesture {
        lemma_trigger_signature(a);
    }
    if b != GestureId::NoGesture {
        lemma_trigger_signature(b);
    }
}

} // verus!
