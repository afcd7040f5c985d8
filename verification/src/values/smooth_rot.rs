//! A provider that follows a target rotation along the sphere.
use crate::float_unit::{ask, is_unit, model_of, times, Quad, Work};
use crate::number::{clamp_unit, ONE};
use crate::values::smooth::step_weight;
use crate::values::value::{BaseValue, Quat, Vec3};
use vstd::prelude::*;

verus! {

/// The rotation between `a` and `b` at weight `t` under a model.
pub open spec fn slerped(g: spec_fn(Work) -> Quad, a: Quat, b: Quat, t: u32) -> Quat {
    let q = g(Work::Lerp(BaseValue::Quaternion(a), BaseValue::Quaternion(b), t));
    Quat { x: q.x, y: q.y, z: q.z, w: q.w }
}

/// The Euler angles of a rotation, in degrees, under a model.
pub open spec fn euler_of(g: spec_fn(Work) -> Quad, q: Quat) -> Vec3 {
    let e = g(Work::ToEuler(q));
    Vec3 { x: e.x, y: e.y, z: e.z }
}

/// The rotation for Euler angles in degrees under a model.
pub open spec fn rotation_of(g: spec_fn(Work) -> Quad, v: Vec3) -> Quat {
    let q = g(Work::FromEuler(v));
    Quat { x: q.x, y: q.y, z: q.z, w: q.w }
}

/// The rotation between `a` and `b` at weight `t`, computed by the unit.
pub fn slerp<F: Fn(Work) -> Quad>(unit: &F, a: Quat, b: Quat, t: u32) -> (r: Quat)
    requires
        is_unit(unit),
    ensures
        r == slerped(model_of(unit), a, b, t),
{
    let q = ask(unit, Work::Lerp(BaseValue::Quaternion(a), BaseValue::Quaternion(b), t));
    Quat { x: q.x, y: q.y, z: q.z, w: q.w }
}

/// The Euler angles of a rotation in degrees, computed by the unit.
pub fn to_euler<F: Fn(Work) -> Quad>(unit: &F, q: Quat) -> (r: Vec3)
    requires
        is_unit(unit),
    ensures
        r == euler_of(model_of(unit), q),
{
    let e = ask(unit, Work::ToEuler(q));
    Vec3 { x: e.x, y: e.y, z: e.z }
}

/// The rotation for Euler angles in degrees, computed by the unit.
pub fn from_euler<F: Fn(Work) -> Quad>(unit: &F, v: Vec3) -> (r: Quat)
    requires
        is_unit(unit),
    ensures
        r == rotation_of(model_of(unit), v),
{
    let q = ask(unit, Work::FromEuler(v));
    Quat { x: q.x, y: q.y, z: q.z, w: q.w }
}

/// A cached orientation that approaches a target rotation, read as Euler
/// angles in degrees.
#[derive(Clone, Copy, PartialEq, Eq, Structural, Debug)]
pub struct SmoothRotationProvidersValues {
    pub rotation_values: Quat,
    pub mult: u32,
    pub last_quaternion: Quat,
    pub values: Vec3,
}

impl SmoothRotationProvidersValues {
    /// The provider after one update by `delta` under a model.
    pub open spec fn advanced(self, g: spec_fn(Work) -> Quad, delta: u32) -> SmoothRotationProvidersValues {
        let last = slerped(g, self.last_quaternion, self.rotation_values, step_weight(g, delta, self.mult));
        SmoothRotationProvidersValues {
            rotation_values: self.rotation_values,
            mult: self.mult,
            last_quaternion: last,
            values: euler_of(g, last),
        }
    }

    /// A provider that approaches `rotation_values` at rate `mult`. The cached
    /// orientation starts as the identity, the angles as zero.
    pub fn new(rotation_values: Quat, mult: u32) -> (r: Self)
        ensures
            r == (SmoothRotationProvidersValues {
                rotation_values,
                mult,
                last_quaternion: Quat { x: 0, y: 0, z: 0, w: ONE },
                values: Vec3 { x: 0, y: 0, z: 0 },
            }),
    {
        SmoothRotationProvidersValues {
            rotation_values,
            mult,
            last_quaternion: Quat { x: 0, y: 0, z: 0, w: ONE },
            values: Vec3 { x: 0, y: 0, z: 0 },
        }
    }

    /// The angles as they were last updated.
    pub fn values(&self) -> (r: Vec<u32>)
        ensures
            r@ == seq![self.values.x, self.values.y, self.values.z],
    {
        let r = vec![self.values.x, self.values.y, self.values.z];
        assert(r@ =~= seq![self.values.x, self.values.y, self.values.z]);
        r
    }

    /// Turns the cached orientation toward the target by the fraction
    /// `delta * mult`, held between 0 and 1, and caches its Euler angles.
    pub fn update<F: Fn(Work) -> Quad>(&mut self, delta: u32, unit: &F)
        requires
            is_unit(unit),
        ensures
            *final(self) == old(self).advanced(model_of(unit), delta),
    {
        let t: u32 = clamp_unit(times(unit, delta, self.mult));
        let last = slerp(unit, self.last_quaternion, self.rotation_values, t);
        self.last_quaternion = last;
        self.values = to_euler(unit, last);
    }
}

} // verus!
