//! The closed set of easing curves.
pub mod functions;

use crate::easings::functions::Functions;
use crate::float_unit::{ease, eased, is_unit, model_of, Quad, Work};
use vstd::prelude::*;

verus! {

/// The curve `easing` at progress `t`, evaluated by the float unit. The
/// progress need not lie between 0 and 1: some curves overshoot.
pub fn interpolate<F: Fn(Work) -> Quad>(t: u32, easing: Functions, unit: &F) -> (r: u32)
    requires
        is_unit(unit),
    ensures
        r == eased(model_of(unit), easing, t),
{
    ease(unit, easing, t)
}

} // verus!
