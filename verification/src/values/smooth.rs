//! A provider that follows a target value through a low-pass filter.
use crate::float_unit::{ask, is_unit, model_of, product, times, Quad, Work};
use crate::number::{at_most, clamp_unit, clamped_unit, is_nan, ONE, ZERO};
use crate::values::value::{scaled, BaseValue, Quat, Vec3, Vec4};
use vstd::prelude::*;

verus! {

/// The blend of two numbers at a weight under a model.
pub open spec fn mixed(g: spec_fn(Work) -> Quad, a: u32, b: u32, t: u32) -> u32 {
    g(Work::Lerp(BaseValue::Float(a), BaseValue::Float(b), t)).x
}

/// The weight of one step: elapsed time times rate, held between 0 and 1.
pub open spec fn step_weight(g: spec_fn(Work) -> Quad, delta: u32, mult: u32) -> u32 {
    clamped_unit(product(g, delta, mult))
}

/// The cache moved toward the target by component at weight `t`. Where the two
/// are not of one case the cache stays as it is.
pub open spec fn approached(g: spec_fn(Work) -> Quad, cache: BaseValue, target: BaseValue, t: u32) -> BaseValue {
    match (cache, target) {
        (BaseValue::Float(a), BaseValue::Float(b)) => BaseValue::Float(mixed(g, a, b, t)),
        (BaseValue::Vector3(a), BaseValue::Vector3(b)) => BaseValue::Vector3(
            Vec3 { x: mixed(g, a.x, b.x, t), y: mixed(g, a.y, b.y, t), z: mixed(g, a.z, b.z, t) },
        ),
        (BaseValue::Vector4(a), BaseValue::Vector4(b)) => BaseValue::Vector4(
            Vec4 {
                x: mixed(g, a.x, b.x, t),
                y: mixed(g, a.y, b.y, t),
                z: mixed(g, a.z, b.z, t),
                w: mixed(g, a.w, b.w, t),
            },
        ),
        (BaseValue::Quaternion(a), BaseValue::Quaternion(b)) => BaseValue::Quaternion(
            Quat {
                x: mixed(g, a.x, b.x, t),
                y: mixed(g, a.y, b.y, t),
                z: mixed(g, a.z, b.z, t),
                w: mixed(g, a.w, b.w, t),
            },
        ),
        _ => cache,
    }
}

/// The blend of two numbers at a weight, rounded by the unit.
pub fn mix<F: Fn(Work) -> Quad>(unit: &F, a: u32, b: u32, t: u32) -> (r: u32)
    requires
        is_unit(unit),
    ensures
        r == mixed(model_of(unit), a, b, t),
{
    ask(unit, Work::Lerp(BaseValue::Float(a), BaseValue::Float(b), t)).x
}

/// A cache that approaches a target value: on each update it moves toward the
/// target by the fraction `delta * mult`, held between 0 and 1.
#[derive(Clone, Copy, PartialEq, Eq, Structural, Debug)]
pub struct SmoothProvidersValues {
    pub source: BaseValue,
    pub mult: u32,
    pub values: BaseValue,
}

impl SmoothProvidersValues {
    /// The provider after one update by `delta` under a model.
    pub open spec fn advanced(self, g: spec_fn(Work) -> Quad, delta: u32) -> SmoothProvidersValues {
        SmoothProvidersValues {
            source: self.source,
            mult: self.mult,
            values: approached(g, self.values, self.source, step_weight(g, delta, self.mult)),
        }
    }

    /// A provider that approaches `source` at rate `mult`. The cache starts as
    /// the source times zero.
    pub fn new<F: Fn(Work) -> Quad>(source: BaseValue, mult: u32, unit: &F) -> (r: Self)
        requires
            is_unit(unit),
        ensures
            r.source == source,
            r.mult == mult,
            r.values == scaled(model_of(unit), source, ZERO),
            r.values.case() == source.case(),
    {
        SmoothProvidersValues { source, mult, values: source.mul(ZERO, unit) }
    }

    /// The cache as it was last updated.
    pub fn values(&self) -> (r: Vec<u32>)
        ensures
            r@ == self.values.components(),
    {
        self.values.as_slice()
    }

    /// Moves the cache toward the source by the fraction `delta * mult`, held
    /// between 0 and 1: the weight never lies outside that range unless the
    /// product is a NaN.
    pub fn update<F: Fn(Work) -> Quad>(&mut self, delta: u32, unit: &F)
        requires
            is_unit(unit),
        ensures
            *final(self) == old(self).advanced(model_of(unit), delta),
            final(self).values.case() == old(self).values.case(),
            !is_nan(product(model_of(unit), delta, old(self).mult)) ==> {
                &&& at_most(ZERO, step_weight(model_of(unit), delta, old(self).mult))
                &&& at_most(step_weight(model_of(unit), delta, old(self).mult), ONE)
            },
    {
        let t: u32 = clamp_unit(times(unit, delta, self.mult));
        let next = match (self.values, self.source) {
            (BaseValue::Float(a), BaseValue::Float(b)) => BaseValue::Float(mix(unit, a, b, t)),
            (BaseValue::Vector3(a), BaseValue::Vector3(b)) => BaseValue::Vector3(
                Vec3 { x: mix(unit, a.x, b.x, t), y: mix(unit, a.y, b.y, t), z: mix(unit, a.z, b.z, t) },
            ),
            (BaseValue::Vector4(a), BaseValue::Vector4(b)) => BaseValue::Vector4(
                Vec4 {
                    x: mix(unit, a.x, b.x, t),
                    y: mix(unit, a.y, b.y, t),
                    z: mix(unit, a.z, b.z, t),
                    w: mix(unit, a.w, b.w, t),
                },
            ),
            (BaseValue::Quaternion(a), BaseValue::Quaternion(b)) => BaseValue::Quaternion(
                Quat {
                    x: mix(unit, a.x, b.x, t),
                    y: mix(unit, a.y, b.y, t),
                    z: mix(unit, a.z, b.z, t),
                    w: mix(unit, a.w, b.w, t),
                },
            ),
            _ => self.values,
        };
        self.values = next;
    }
}

} // verus!
