//! Choice of the hand-landmark backend.
use vstd::prelude::*;

verus! {

/// Which backend finds hand landmarks in a frame.
#[derive(Clone, Copy, Debug, PartialEq, Eq, Structural)]
pub enum GestureBackendKind {
    Classic,
    MediaPipe,
}

impl Default for GestureBackendKind {
    fn default() -> (r: Self)
        ensures
            r == GestureBackendKind::MediaPipe,
    {
        GestureBackendKind::MediaPipe
    }
}

/// The user-facing label of a backend.
pub open spec fn backend_label(k: GestureBackendKind) -> Seq<char> {
    match k {
        GestureBackendKind::Classic => "Классический CV"@,
        GestureBackendKind::MediaPipe => "MediaPipe"@,
    }
}

/// The user-facing description of a backend.
pub open spec fn backend_description(k: GestureBackendKind) -> Seq<char> {
    match k {
        GestureBackendKind::Classic => "Лёгкий встроенный детектор ладони и геометрический классификатор."@,
        GestureBackendKind::MediaPipe => "MediaPipe Hands через Python helper (нужны Python 3 и пакет mediapipe). Иначе — Classic fallback."@,
    }
}

impl GestureBackendKind {
    /// The user-facing label of the backend.
    pub fn label_ru(self) -> (r: &'static str)
        ensures
            r@ == backend_label(self),
    {
        match self {
            GestureBackendKind::Classic => "Классический CV",
            GestureBackendKind::MediaPipe => "MediaPipe",
        }
    }

    /// The user-facing description of the backend.
    pub fn description_ru(self) -> (r: &'static str)
        ensures
            r@ == backend_description(self),
    {
        match self {
            GestureBackendKind::Classic => "Лёгкий встроенный детектор ладони и геометрический классификатор.",
            GestureBackendKind::MediaPipe => {
                "MediaPipe Hands через Python helper (нужны Python 3 и пакет mediapipe). Иначе — Classic fallback."
            },
        }
    }
}

/// Configuration of the landmark backend.
#[derive(Clone, Debug)]
pub struct GestureBackendConfig {
    pub kind: GestureBackendKind,
    pub mediapipe_model_path: String,
}

impl Default for GestureBackendConfig {
    /// The MediaPipe backend without a model path.
    fn default() -> (r: GestureBackendConfig)
        ensures
            r.kind == GestureBackendKind::MediaPipe,
            r.mediapipe_model_path@ == Seq::<char>::empty(),
    {
        GestureBackendConfig { kind: GestureBackendKind::MediaPipe, mediapipe_model_path: String::new() }
    }
}

} // verus!
