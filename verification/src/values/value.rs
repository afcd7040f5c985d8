//! The four cases of value: scalar, 3-vector, 4-vector and rotation.
use crate::float_unit::{ask, is_unit, model_of, over, product, quotient, times, Quad, Work};
use vstd::prelude::*;

verus! {

/// A 3-vector of numbers.
#[derive(Clone, Copy, PartialEq, Eq, Structural, Debug)]
pub struct Vec3 {
    pub x: u32,
    pub y: u32,
    pub z: u32,
}

/// A 4-vector of numbers, commonly a colour with alpha.
#[derive(Clone, Copy, PartialEq, Eq, Structural, Debug)]
pub struct Vec4 {
    pub x: u32,
    pub y: u32,
    pub z: u32,
    pub w: u32,
}

/// A rotation as a quaternion.
#[derive(Clone, Copy, PartialEq, Eq, Structural, Debug)]
pub struct Quat {
    pub x: u32,
    pub y: u32,
    pub z: u32,
    pub w: u32,
}

/// The case of a value.
#[derive(Clone, Copy, PartialEq, Eq, Structural, Debug)]
pub enum WrapBaseValueType {
    Vec3,
    Quat,
    Vec4,
    Float,
}

/// A value of one of the four cases.
#[derive(Clone, Copy, PartialEq, Eq, Structural, Debug)]
pub enum BaseValue {
    Float(u32),
    Vector3(Vec3),
    Vector4(Vec4),
    Quaternion(Quat),
}

/// How many numbers a value of the case holds.
pub open spec fn arity(ty: WrapBaseValueType) -> nat {
    match ty {
        WrapBaseValueType::Float => 1,
        WrapBaseValueType::Vec3 => 3,
        WrapBaseValueType::Vec4 => 4,
        WrapBaseValueType::Quat => 4,
    }
}

/// The value of case `ty` whose numbers are the first `arity(ty)` of `x, y, z, w`.
pub open spec fn assembled(ty: WrapBaseValueType, x: u32, y: u32, z: u32, w: u32) -> BaseValue {
    match ty {
        WrapBaseValueType::Float => BaseValue::Float(x),
        WrapBaseValueType::Vec3 => BaseValue::Vector3(Vec3 { x, y, z }),
        WrapBaseValueType::Vec4 => BaseValue::Vector4(Vec4 { x, y, z, w }),
        WrapBaseValueType::Quat => BaseValue::Quaternion(Quat { x, y, z, w }),
    }
}

/// The value that a sequence of 1, 3 or 4 numbers stands for. Four numbers are a
/// 4-vector, never a rotation.
pub open spec fn value_of(s: Seq<u32>) -> BaseValue {
    if s.len() == 1 {
        BaseValue::Float(s[0])
    } else if s.len() == 3 {
        BaseValue::Vector3(Vec3 { x: s[0], y: s[1], z: s[2] })
    } else {
        BaseValue::Vector4(Vec4 { x: s[0], y: s[1], z: s[2], w: s[3] })
    }
}

impl WrapBaseValueType {
    /// How many numbers a value of this case holds.
    pub fn count(self) -> (n: usize)
        ensures
            n == arity(self),
    {
        match self {
            WrapBaseValueType::Float => 1,
            WrapBaseValueType::Vec3 => 3,
            WrapBaseValueType::Vec4 => 4,
            WrapBaseValueType::Quat => 4,
        }
    }
}

impl BaseValue {
    /// The numbers of the value in order: `x, y, z, w` as far as the case has them.
    pub open spec fn components(self) -> Seq<u32> {
        match self {
            BaseValue::Float(v) => seq![v],
            BaseValue::Vector3(v) => seq![v.x, v.y, v.z],
            BaseValue::Vector4(v) => seq![v.x, v.y, v.z, v.w],
            BaseValue::Quaternion(v) => seq![v.x, v.y, v.z, v.w],
        }
    }

    /// The case of the value.
    pub open spec fn case(self) -> WrapBaseValueType {
        match self {
            BaseValue::Float(_) => WrapBaseValueType::Float,
            BaseValue::Vector3(_) => WrapBaseValueType::Vec3,
            BaseValue::Vector4(_) => WrapBaseValueType::Vec4,
            BaseValue::Quaternion(_) => WrapBaseValueType::Quat,
        }
    }

    /// What indexing yields: a scalar answers every index with its number.
    pub open spec fn at(self, index: int) -> u32 {
        match self {
            BaseValue::Float(v) => v,
            _ => self.components()[index],
        }
    }

    /// The case of the value.
    pub fn ty(&self) -> (t: WrapBaseValueType)
        ensures
            t == self.case(),
    {
        match self {
            BaseValue::Float(_) => WrapBaseValueType::Float,
            BaseValue::Vector3(_) => WrapBaseValueType::Vec3,
            BaseValue::Vector4(_) => WrapBaseValueType::Vec4,
            BaseValue::Quaternion(_) => WrapBaseValueType::Quat,
        }
    }

    /// The value of case `ty` from four numbers, of which the case's arity are used.
    pub fn assemble(ty: WrapBaseValueType, x: u32, y: u32, z: u32, w: u32) -> (r: BaseValue)
        ensures
            r == assembled(ty, x, y, z, w),
            r.case() == ty,
    {
        match ty {
            WrapBaseValueType::Float => BaseValue::Float(x),
            WrapBaseValueType::Vec3 => BaseValue::Vector3(Vec3 { x, y, z }),
            WrapBaseValueType::Vec4 => BaseValue::Vector4(Vec4 { x, y, z, w }),
            WrapBaseValueType::Quat => BaseValue::Quaternion(Quat { x, y, z, w }),
        }
    }

    /// Builds a value from 1, 3 or 4 numbers.
    pub fn from_vec(value: Vec<u32>) -> (r: BaseValue)
        requires
            value@.len() == 1 || value@.len() == 3 || value@.len() == 4,
        ensures
            r == value_of(value@),
            r.components() == value@,
    {
        BaseValue::from_slice(value.as_slice())
    }

    /// Builds a value from 1, 3 or 4 numbers: a scalar, a 3-vector or a 4-vector.
    pub fn from_slice(value: &[u32]) -> (r: BaseValue)
        requires
            value@.len() == 1 || value@.len() == 3 || value@.len() == 4,
        ensures
            r == value_of(value@),
            r.components() == value@,
    {
        let r = if value.len() == 1 {
            BaseValue::Float(value[0])
        } else if value.len() == 3 {
            BaseValue::Vector3(Vec3 { x: value[0], y: value[1], z: value[2] })
        } else {
            BaseValue::Vector4(Vec4 { x: value[0], y: value[1], z: value[2], w: value[3] })
        };
        assert(r.components() =~= value@);
        r
    }

    /// The scalar, if the value is one.
    pub fn as_float(&self) -> (r: Option<u32>)
        ensures
            r == match *self {
                BaseValue::Float(v) => Some(v),
                _ => None,
            },
    {
        match self {
            BaseValue::Float(v) => Some(*v),
            _ => None,
        }
    }

    /// The 3-vector, if the value is one.
    pub fn as_vec3(&self) -> (r: Option<Vec3>)
        ensures
            r == match *self {
                BaseValue::Vector3(v) => Some(v),
                _ => None,
            },
    {
        match self {
            BaseValue::Vector3(v) => Some(*v),
            _ => None,
        }
    }

    /// The 4-vector, if the value is one.
    pub fn as_vec4(&self) -> (r: Option<Vec4>)
        ensures
            r == match *self {
                BaseValue::Vector4(v) => Some(v),
                _ => None,
            },
    {
        match self {
            BaseValue::Vector4(v) => Some(*v),
            _ => None,
        }
    }

    /// The rotation, if the value is one.
    pub fn as_quat(&self) -> (r: Option<Quat>)
        ensures
            r == match *self {
                BaseValue::Quaternion(v) => Some(v),
                _ => None,
            },
    {
        match self {
            BaseValue::Quaternion(v) => Some(*v),
            _ => None,
        }
    }

    /// How many numbers the value holds.
    pub fn len(&self) -> (n: usize)
        ensures
            n == self.components().len(),
            n == arity(self.case()),
    {
        match self {
            BaseValue::Float(_) => 1,
            BaseValue::Vector3(_) => 3,
            BaseValue::Vector4(_) => 4,
            BaseValue::Quaternion(_) => 4,
        }
    }

    /// The numbers of the value in order.
    pub fn as_slice(&self) -> (r: Vec<u32>)
        ensures
            r@ == self.components(),
    {
        let r = match self {
            BaseValue::Float(v) => vec![*v],
            BaseValue::Vector3(v) => vec![v.x, v.y, v.z],
            BaseValue::Vector4(v) => vec![v.x, v.y, v.z, v.w],
            BaseValue::Quaternion(v) => vec![v.x, v.y, v.z, v.w],
        };
        assert(r@ =~= self.components());
        r
    }

    /// The number at `index`, counted from 0 in the order `x, y, z, w`. A scalar
    /// answers every index with its number.
    pub fn index(&self, index: usize) -> (r: u32)
        requires
            !(*self is Float) ==> index < self.components().len(),
        ensures
            r == self.at(index as int),
    {
        match self {
            BaseValue::Float(v) => *v,
            BaseValue::Vector3(v) => if index == 0 {
                v.x
            } else if index == 1 {
                v.y
            } else {
                v.z
            },
            BaseValue::Vector4(v) => if index == 0 {
                v.x
            } else if index == 1 {
                v.y
            } else if index == 2 {
                v.z
            } else {
                v.w
            },
            BaseValue::Quaternion(v) => if index == 0 {
                v.x
            } else if index == 1 {
                v.y
            } else if index == 2 {
                v.z
            } else {
                v.w
            },
        }
    }

    /// The value with the number at `index` replaced. On a scalar every index
    /// names its one number.
    pub fn with(&self, index: usize, number: u32) -> (r: BaseValue)
        requires
            !(*self is Float) ==> index < self.components().len(),
        ensures
            r.case() == self.case(),
            r.at(index as int) == number,
            *self is Float ==> r == BaseValue::Float(number),
            !(*self is Float) ==> r.components() == self.components().update(index as int, number),
    {
        let r = match self {
            BaseValue::Float(_) => BaseValue::Float(number),
            BaseValue::Vector3(v) => if index == 0 {
                BaseValue::Vector3(Vec3 { x: number, y: v.y, z: v.z })
            } else if index == 1 {
                BaseValue::Vector3(Vec3 { x: v.x, y: number, z: v.z })
            } else {
                BaseValue::Vector3(Vec3 { x: v.x, y: v.y, z: number })
            },
            BaseValue::Vector4(v) => if index == 0 {
                BaseValue::Vector4(Vec4 { x: number, y: v.y, z: v.z, w: v.w })
            } else if index == 1 {
                BaseValue::Vector4(Vec4 { x: v.x, y: number, z: v.z, w: v.w })
            } else if index == 2 {
                BaseValue::Vector4(Vec4 { x: v.x, y: v.y, z: number, w: v.w })
            } else {
                BaseValue::Vector4(Vec4 { x: v.x, y: v.y, z: v.z, w: number })
            },
            BaseValue::Quaternion(v) => if index == 0 {
                BaseValue::Quaternion(Quat { x: number, y: v.y, z: v.z, w: v.w })
            } else if index == 1 {
                BaseValue::Quaternion(Quat { x: v.x, y: number, z: v.z, w: v.w })
            } else if index == 2 {
                BaseValue::Quaternion(Quat { x: v.x, y: v.y, z: number, w: v.w })
            } else {
                BaseValue::Quaternion(Quat { x: v.x, y: v.y, z: v.z, w: number })
            },
        };
        assert(!(*self is Float) ==> r.components() =~= self.components().update(
            index as int,
            number,
        ));
        r
    }
}

/// A value with every number multiplied by `rhs` under a model.
pub open spec fn scaled(g: spec_fn(Work) -> Quad, v: BaseValue, rhs: u32) -> BaseValue {
    match v {
        BaseValue::Float(a) => BaseValue::Float(product(g, a, rhs)),
        BaseValue::Vector3(a) => BaseValue::Vector3(
            Vec3 { x: product(g, a.x, rhs), y: product(g, a.y, rhs), z: product(g, a.z, rhs) },
        ),
        BaseValue::Vector4(a) => BaseValue::Vector4(
            Vec4 {
                x: product(g, a.x, rhs),
                y: product(g, a.y, rhs),
                z: product(g, a.z, rhs),
                w: product(g, a.w, rhs),
            },
        ),
        BaseValue::Quaternion(a) => BaseValue::Quaternion(
            Quat {
                x: product(g, a.x, rhs),
                y: product(g, a.y, rhs),
                z: product(g, a.z, rhs),
                w: product(g, a.w, rhs),
            },
        ),
    }
}

/// A value with every number divided by `rhs` under a model.
pub open spec fn shrunk(g: spec_fn(Work) -> Quad, v: BaseValue, rhs: u32) -> BaseValue {
    match v {
        BaseValue::Float(a) => BaseValue::Float(quotient(g, a, rhs)),
        BaseValue::Vector3(a) => BaseValue::Vector3(
            Vec3 { x: quotient(g, a.x, rhs), y: quotient(g, a.y, rhs), z: quotient(g, a.z, rhs) },
        ),
        BaseValue::Vector4(a) => BaseValue::Vector4(
            Vec4 {
                x: quotient(g, a.x, rhs),
                y: quotient(g, a.y, rhs),
                z: quotient(g, a.z, rhs),
                w: quotient(g, a.w, rhs),
            },
        ),
        BaseValue::Quaternion(a) => BaseValue::Quaternion(
            Quat {
                x: quotient(g, a.x, rhs),
                y: quotient(g, a.y, rhs),
                z: quotient(g, a.z, rhs),
                w: quotient(g, a.w, rhs),
            },
        ),
    }
}

/// The blend of `a` and `b` at weight `t` under a model: the unit's reply, read
/// as a value of the case of `a`.
pub open spec fn blended(g: spec_fn(Work) -> Quad, a: BaseValue, b: BaseValue, t: u32) -> BaseValue {
    let q = g(Work::Lerp(a, b, t));
    assembled(a.case(), q.x, q.y, q.z, q.w)
}

impl BaseValue {
    /// Every number of the value times `rhs`.
    pub fn mul<F: Fn(Work) -> Quad>(self, rhs: u32, unit: &F) -> (r: BaseValue)
        requires
            is_unit(unit),
        ensures
            r == scaled(model_of(unit), self, rhs),
            r.case() == self.case(),
    {
        match self {
            BaseValue::Float(a) => BaseValue::Float(times(unit, a, rhs)),
            BaseValue::Vector3(a) => BaseValue::Vector3(
                Vec3 { x: times(unit, a.x, rhs), y: times(unit, a.y, rhs), z: times(unit, a.z, rhs) },
            ),
            BaseValue::Vector4(a) => BaseValue::Vector4(
                Vec4 {
                    x: times(unit, a.x, rhs),
                    y: times(unit, a.y, rhs),
                    z: times(unit, a.z, rhs),
                    w: times(unit, a.w, rhs),
                },
            ),
            BaseValue::Quaternion(a) => BaseValue::Quaternion(
                Quat {
                    x: times(unit, a.x, rhs),
                    y: times(unit, a.y, rhs),
                    z: times(unit, a.z, rhs),
                    w: times(unit, a.w, rhs),
                },
            ),
        }
    }

    /// Every number of the value divided by `rhs`.
    pub fn div<F: Fn(Work) -> Quad>(self, rhs: u32, unit: &F) -> (r: BaseValue)
        requires
            is_unit(unit),
        ensures
            r == shrunk(model_of(unit), self, rhs),
            r.case() == self.case(),
    {
        match self {
            BaseValue::Float(a) => BaseValue::Float(over(unit, a, rhs)),
            BaseValue::Vector3(a) => BaseValue::Vector3(
                Vec3 { x: over(unit, a.x, rhs), y: over(unit, a.y, rhs), z: over(unit, a.z, rhs) },
            ),
            BaseValue::Vector4(a) => BaseValue::Vector4(
                Vec4 {
                    x: over(unit, a.x, rhs),
                    y: over(unit, a.y, rhs),
                    z: over(unit, a.z, rhs),
                    w: over(unit, a.w, rhs),
                },
            ),
            BaseValue::Quaternion(a) => BaseValue::Quaternion(
                Quat {
                    x: over(unit, a.x, rhs),
                    y: over(unit, a.y, rhs),
                    z: over(unit, a.z, rhs),
                    w: over(unit, a.w, rhs),
                },
            ),
        }
    }

    /// The blend of `a` and `b` at weight `t`: linear by component, spherical for
    /// rotations. Both values are of one case.
    pub fn lerp<F: Fn(Work) -> Quad>(a: BaseValue, b: BaseValue, t: u32, unit: &F) -> (r: BaseValue)
        requires
            is_unit(unit),
            a.case() == b.case(),
        ensures
            r == blended(model_of(unit), a, b, t),
            r.case() == a.case(),
    {
        let q = ask(unit, Work::Lerp(a, b, t));
        BaseValue::assemble(a.ty(), q.x, q.y, q.z, q.w)
    }
}

} // verus!
