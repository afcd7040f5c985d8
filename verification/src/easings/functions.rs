//! Names of the easing curves.
use crate::float_unit::{ease, eased, is_unit, model_of, Quad, Work};
use crate::modifiers::operation::same_text;
use vstd::prelude::*;

verus! {

/// One of the easing curves: linear, step, and in, out and in-out forms of
/// ten shapes. The curves themselves are evaluated by the float unit.
#[derive(Clone, Copy, PartialEq, Eq, Structural, Debug)]
pub enum Functions {
    EaseLinear,
    EaseStep,
    EaseInQuad,
    EaseOutQuad,
    EaseInOutQuad,
    EaseInCubic,
    EaseOutCubic,
    EaseInOutCubic,
    EaseInQuart,
    EaseOutQuart,
    EaseInOutQuart,
    EaseInQuint,
    EaseOutQuint,
    EaseInOutQuint,
    EaseInSine,
    EaseOutSine,
    EaseInOutSine,
    EaseInCirc,
    EaseOutCirc,
    EaseInOutCirc,
    EaseInExpo,
    EaseOutExpo,
    EaseInOutExpo,
    EaseInElastic,
    EaseOutElastic,
    EaseInOutElastic,
    EaseInBack,
    EaseOutBack,
    EaseInOutBack,
    EaseInBounce,
    EaseOutBounce,
    EaseInOutBounce,
}

/// The curve that a flag names: the variant's name with a lower-case first
/// letter. `None` for any other text.
pub open spec fn easing_named(s: Seq<char>) -> Option<Functions> {
    if s == "easeLinear"@ {
        Some(Functions::EaseLinear)
    } else if s == "easeStep"@ {
        Some(Functions::EaseStep)
    } else if s == "easeInQuad"@ {
        Some(Functions::EaseInQuad)
    } else if s == "easeOutQuad"@ {
        Some(Functions::EaseOutQuad)
    } else if s == "easeInOutQuad"@ {
        Some(Functions::EaseInOutQuad)
    } else if s == "easeInCubic"@ {
        Some(Functions::EaseInCubic)
    } else if s == "easeOutCubic"@ {
        Some(Functions::EaseOutCubic)
    } else if s == "easeInOutCubic"@ {
        Some(Functions::EaseInOutCubic)
    } else if s == "easeInQuart"@ {
        Some(Functions::EaseInQuart)
    } else if s == "easeOutQuart"@ {
        Some(Functions::EaseOutQuart)
    } else if s == "easeInOutQuart"@ {
        Some(Functions::EaseInOutQuart)
    } else if s == "easeInQuint"@ {
        Some(Functions::EaseInQuint)
    } else if s == "easeOutQuint"@ {
        Some(Functions::EaseOutQuint)
    } else if s == "easeInOutQuint"@ {
        Some(Functions::EaseInOutQuint)
    } else if s == "easeInSine"@ {
        Some(Functions::EaseInSine)
    } else if s == "easeOutSine"@ {
        Some(Functions::EaseOutSine)
    } else if s == "easeInOutSine"@ {
        Some(Functions::EaseInOutSine)
    } else if s == "easeInCirc"@ {
        Some(Functions::EaseInCirc)
    } else if s == "easeOutCirc"@ {
        Some(Functions::EaseOutCirc)
    } else if s == "easeInOutCirc"@ {
        Some(Functions::EaseInOutCirc)
    } else if s == "easeInExpo"@ {
        Some(Functions::EaseInExpo)
    } else if s == "easeOutExpo"@ {
        Some(Functions::EaseOutExpo)
    } else if s == "easeInOutExpo"@ {
        Some(Functions::EaseInOutExpo)
    } else if s == "easeInElastic"@ {
        Some(Functions::EaseInElastic)
    } else if s == "easeOutElastic"@ {
        Some(Functions::EaseOutElastic)
    } else if s == "easeInOutElastic"@ {
        Some(Functions::EaseInOutElastic)
    } else if s == "easeInBack"@ {
        Some(Functions::EaseInBack)
    } else if s == "easeOutBack"@ {
        Some(Functions::EaseOutBack)
    } else if s == "easeInOutBack"@ {
        Some(Functions::EaseInOutBack)
    } else if s == "easeInBounce"@ {
        Some(Functions::EaseInBounce)
    } else if s == "easeOutBounce"@ {
        Some(Functions::EaseOutBounce)
    } else if s == "easeInOutBounce"@ {
        Some(Functions::EaseInOutBounce)
    } else {
        None
    }
}

impl Functions {
    /// Reads an easing name such as `easeInOutQuad`. `None` when the text names
    /// no curve.
    pub fn from_str(s: &str) -> (r: Option<Self>)
        ensures
            r == easing_named(s@),
    {
        if same_text(s, "easeLinear") {
            Some(Functions::EaseLinear)
        } else if same_text(s, "easeStep") {
            Some(Functions::EaseStep)
        } else if same_text(s, "easeInQuad") {
            Some(Functions::EaseInQuad)
        } else if same_text(s, "easeOutQuad") {
            Some(Functions::EaseOutQuad)
        } else if same_text(s, "easeInOutQuad") {
            Some(Functions::EaseInOutQuad)
        } else if same_text(s, "easeInCubic") {
            Some(Functions::EaseInCubic)
        } else if same_text(s, "easeOutCubic") {
            Some(Functions::EaseOutCubic)
        } else if same_text(s, "easeInOutCubic") {
            Some(Functions::EaseInOutCubic)
        } else if same_text(s, "easeInQuart") {
            Some(Functions::EaseInQuart)
        } else if same_text(s, "easeOutQuart") {
            Some(Functions::EaseOutQuart)
        } else if same_text(s, "easeInOutQuart") {
            Some(Functions::EaseInOutQuart)
        } else if same_text(s, "easeInQuint") {
            Some(Functions::EaseInQuint)
        } else if same_text(s, "easeOutQuint") {
            Some(Functions::EaseOutQuint)
        } else if same_text(s, "easeInOutQuint") {
            Some(Functions::EaseInOutQuint)
        } else if same_text(s, "easeInSine") {
            Some(Functions::EaseInSine)
        } else if same_text(s, "easeOutSine") {
            Some(Functions::EaseOutSine)
        } else if same_text(s, "easeInOutSine") {
            Some(Functions::EaseInOutSine)
        } else if same_text(s, "easeInCirc") {
            Some(Functions::EaseInCirc)
        } else if same_text(s, "easeOutCirc") {
            Some(Functions::EaseOutCirc)
        } else if same_text(s, "easeInOutCirc") {
            Some(Functions::EaseInOutCirc)
        } else if same_text(s, "easeInExpo") {
            Some(Functions::EaseInExpo)
        } else if same_text(s, "easeOutExpo") {
            Some(Functions::EaseOutExpo)
        } else if same_text(s, "easeInOutExpo") {
            Some(Functions::EaseInOutExpo)
        } else if same_text(s, "easeInElastic") {
            Some(Functions::EaseInElastic)
        } else if same_text(s, "easeOutElastic") {
            Some(Functions::EaseOutElastic)
        } else if same_text(s, "easeInOutElastic") {
            Some(Functions::EaseInOutElastic)
        } else if same_text(s, "easeInBack") {
            Some(Functions::EaseInBack)
        } else if same_text(s, "easeOutBack") {
            Some(Functions::EaseOutBack)
        } else if same_text(s, "easeInOutBack") {
            Some(Functions::EaseInOutBack)
        } else if same_text(s, "easeInBounce") {
            Some(Functions::EaseInBounce)
        } else if same_text(s, "easeOutBounce") {
            Some(Functions::EaseOutBounce)
        } else if same_text(s, "easeInOutBounce") {
            Some(Functions::EaseInOutBounce)
        } else {
            None
        }
    }

    /// The curve at progress `t`, evaluated by the float unit. The progress need
    /// not lie between 0 and 1.
    pub fn interpolate<F: Fn(Work) -> Quad>(&self, t: u32, unit: &F) -> (r: u32)
        requires
            is_unit(unit),
        ensures
            r == eased(model_of(unit), *self, t),
    {
        ease(unit, *self, t)
    }

    /// The curve for an easing flag: the named curve, or `EaseLinear` when the
    /// text names none.
    pub fn from_flag(s: &str) -> (r: Self)
        ensures
            r == match easing_named(s@) {
                Some(f) => f,
                None => Functions::EaseLinear,
            },
    {
        match Functions::from_str(s) {
            Some(f) => f,
            None => Functions::EaseLinear,
        }
    }
}

} // verus!
