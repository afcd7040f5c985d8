//! The float unit: the one place where numbers are rounded.
//!
//! The engine never adds or multiplies numbers itself. It hands each piece of
//! arithmetic, as a [`Work`] item, to a function that the host supplies, and
//! takes a [`Quad`] back. Contracts speak of the unit through its model: the
//! mathematical function from work to reply that a total, single-valued unit
//! computes.
use crate::easings::functions::Functions;
use crate::values::value::{BaseValue, Quat, Vec3, Vec4};
use vstd::prelude::*;

verus! {

/// A reply of the float unit: up to four numbers. A reply of fewer numbers
/// fills `x` first and leaves the rest unread.
#[derive(Clone, Copy, PartialEq, Eq, Structural, Debug)]
pub struct Quad {
    pub x: u32,
    pub y: u32,
    pub z: u32,
    pub w: u32,
}

/// One piece of arithmetic for the float unit.
#[derive(Clone, Copy, PartialEq, Eq, Structural, Debug)]
pub enum Work {
    /// `a + b`; the reply is `x`.
    Add(u32, u32),
    /// `a - b`; the reply is `x`.
    Sub(u32, u32),
    /// `a * b`; the reply is `x`.
    Mul(u32, u32),
    /// `a / b`; the reply is `x`.
    Div(u32, u32),
    /// The easing curve at a progress; the reply is `x`.
    Ease(Functions, u32),
    /// The blend of two values of one case at a weight: linear by component,
    /// spherical for rotations. The reply holds the blended numbers.
    Lerp(BaseValue, BaseValue, u32),
    /// The blend of two colours through hue, saturation and value, with alpha
    /// blended linearly. The reply is the colour.
    LerpHsv(Vec4, Vec4, u32),
    /// The rotation for Euler angles in degrees, applied in the order x, y, z.
    /// The reply is the quaternion.
    FromEuler(Vec3),
    /// The Euler angles in degrees of a rotation. The reply holds them in
    /// `x, y, z`.
    ToEuler(Quat),
}

/// The unit answers every work item.
pub open spec fn total<F: Fn(Work) -> Quad>(unit: &F) -> bool {
    forall|w: Work| #[trigger] unit.requires((w,))
}

/// The unit has one answer for each work item.
pub open spec fn single_valued<F: Fn(Work) -> Quad>(unit: &F) -> bool {
    forall|w: Work, a: Quad, b: Quad|
        #[trigger] unit.ensures((w,), a) && #[trigger] unit.ensures((w,), b) ==> a == b
}

/// The unit is total and single-valued: it computes a function.
pub open spec fn is_unit<F: Fn(Work) -> Quad>(unit: &F) -> bool {
    total(unit) && single_valued(unit)
}

/// The function that the unit computes.
pub open spec fn model_of<F: Fn(Work) -> Quad>(unit: &F) -> spec_fn(Work) -> Quad {
    |w: Work| choose|r: Quad| unit.ensures((w,), r)
}

/// Hands one work item to the unit. The reply is what the unit promises for the
/// item, and it is the value of the unit's model there.
pub fn ask<F: Fn(Work) -> Quad>(unit: &F, work: Work) -> (r: Quad)
    requires
        is_unit(unit),
    ensures
        r == model_of(unit)(work),
        unit.ensures((work,), r),
{
    let r = unit(work);
    proof {
        let c = choose|c: Quad| unit.ensures((work,), c);
        assert(unit.ensures((work,), c));
    }
    r
}

/// `a + b` under a model.
pub open spec fn sum(g: spec_fn(Work) -> Quad, a: u32, b: u32) -> u32 {
    g(Work::Add(a, b)).x
}

/// `a - b` under a model.
pub open spec fn difference(g: spec_fn(Work) -> Quad, a: u32, b: u32) -> u32 {
    g(Work::Sub(a, b)).x
}

/// `a * b` under a model.
pub open spec fn product(g: spec_fn(Work) -> Quad, a: u32, b: u32) -> u32 {
    g(Work::Mul(a, b)).x
}

/// `a / b` under a model.
pub open spec fn quotient(g: spec_fn(Work) -> Quad, a: u32, b: u32) -> u32 {
    g(Work::Div(a, b)).x
}

/// The easing curve at `u` under a model.
pub open spec fn eased(g: spec_fn(Work) -> Quad, easing: Functions, u: u32) -> u32 {
    g(Work::Ease(easing, u)).x
}

/// `a + b`, rounded by the unit.
pub fn plus<F: Fn(Work) -> Quad>(unit: &F, a: u32, b: u32) -> (r: u32)
    requires
        is_unit(unit),
    ensures
        r == sum(model_of(unit), a, b),
{
    ask(unit, Work::Add(a, b)).x
}

/// `a - b`, rounded by the unit.
pub fn minus<F: Fn(Work) -> Quad>(unit: &F, a: u32, b: u32) -> (r: u32)
    requires
        is_unit(unit),
    ensures
        r == difference(model_of(unit), a, b),
{
    ask(unit, Work::Sub(a, b)).x
}

/// `a * b`, rounded by the unit.
pub fn times<F: Fn(Work) -> Quad>(unit: &F, a: u32, b: u32) -> (r: u32)
    requires
        is_unit(unit),
    ensures
        r == product(model_of(unit), a, b),
{
    ask(unit, Work::Mul(a, b)).x
}

/// `a / b`, rounded by the unit.
pub fn over<F: Fn(Work) -> Quad>(unit: &F, a: u32, b: u32) -> (r: u32)
    requires
        is_unit(unit),
    ensures
        r == quotient(model_of(unit), a, b),
{
    ask(unit, Work::Div(a, b)).x
}

/// The easing curve at `u`, evaluated by the unit.
pub fn ease<F: Fn(Work) -> Quad>(unit: &F, easing: Functions, u: u32) -> (r: u32)
    requires
        is_unit(unit),
    ensures
        r == eased(model_of(unit), easing, u),
{
    ask(unit, Work::Ease(easing, u)).x
}

} // verus!
