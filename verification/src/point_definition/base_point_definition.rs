//! The curve shared by the four cases: search, easing and blend.
use crate::error::TracksError;
use crate::float_unit::{
    ask, difference, ease, eased, is_unit, minus, model_of, over, plus, product, quotient, sum, times,
    Quad, Work,
};
use crate::json::JsonValue;
use crate::number::{
    at_most, ge, is_zero, le, less, lt, neg, negated, zero, FIVE, FOUR, HALF, ONE, THREE, TWO, ZERO,
};
use crate::modifiers::reports;
use crate::point_data::{point_views, PointData, PointDataView};
use crate::point_definition::compile::{parse, parsed};
use crate::values::base_provider_context::BaseProviderContext;
use crate::values::value::{blended, BaseValue, Quat, Vec3, Vec4, WrapBaseValueType};
use vstd::prelude::*;

verus! {

/// The value of an empty curve: zero, and the identity for rotations.
pub open spec fn zero_value(kind: WrapBaseValueType) -> BaseValue {
    match kind {
        WrapBaseValueType::Float => BaseValue::Float(0),
        WrapBaseValueType::Vec3 => BaseValue::Vector3(Vec3 { x: 0, y: 0, z: 0 }),
        WrapBaseValueType::Vec4 => BaseValue::Vector4(Vec4 { x: 0, y: 0, z: 0, w: 0 }),
        WrapBaseValueType::Quat => BaseValue::Quaternion(Quat { x: 0, y: 0, z: 0, w: ONE }),
    }
}

/// Where the search stands after narrowing `[l, r]`: the midpoint replaces `l`
/// while its time is below the query and `r` otherwise, until the two are
/// neighbours.
pub open spec fn searched(times: Seq<u32>, time: u32, l: int, r: int) -> (int, int)
    decreases r - l,
{
    if l + 1 >= r || l < 0 || r > times.len() {
        (l, r)
    } else {
        let m = (l + r) / 2;
        if less(times[m], time) {
            searched(times, time, m, r)
        } else {
            searched(times, time, l, m)
        }
    }
}

/// Progress through a segment: `(time - left) / (right - left)`, and zero
/// where the segment has no length.
pub open spec fn normal_time(g: spec_fn(Work) -> Quad, left: u32, right: u32, time: u32) -> u32 {
    let length = difference(g, right, left);
    if is_zero(length) {
        ZERO
    } else {
        quotient(g, difference(g, time, left), length)
    }
}

/// The four weights of the spline at `t`.
pub open spec fn spline_weights(g: spec_fn(Work) -> Quad, t: u32) -> (u32, u32, u32, u32) {
    let tt = product(g, t, t);
    let ttt = product(g, tt, t);
    (
        difference(g, sum(g, negated(ttt), product(g, TWO, tt)), t),
        sum(g, difference(g, product(g, THREE, ttt), product(g, FIVE, tt)), TWO),
        sum(g, sum(g, product(g, negated(THREE), ttt), product(g, FOUR, tt)), t),
        difference(g, ttt, tt),
    )
}

/// One axis of the spline: half the weighted sum of the four control numbers.
pub open spec fn spline_axis(
    g: spec_fn(Work) -> Quad,
    q: (u32, u32, u32, u32),
    prev: u32,
    a: u32,
    b: u32,
    next: u32,
) -> u32 {
    product(
        g,
        HALF,
        sum(g, sum(g, sum(g, product(g, prev, q.0), product(g, a, q.1)), product(g, b, q.2)), product(g, next, q.3)),
    )
}

/// The Catmull-Rom spline from `a` to `b` at `t`, with `prev` before `a` and
/// `next` after `b` as control points.
pub open spec fn spline(g: spec_fn(Work) -> Quad, prev: Vec3, a: Vec3, b: Vec3, next: Vec3, t: u32) -> Vec3 {
    let q = spline_weights(g, t);
    Vec3 {
        x: spline_axis(g, q, prev.x, a.x, b.x, next.x),
        y: spline_axis(g, q, prev.y, a.y, b.y, next.y),
        z: spline_axis(g, q, prev.z, a.z, b.z, next.z),
    }
}

/// The blend of two colours through hue, saturation and value under a model.
pub open spec fn hsv_blended(g: spec_fn(Work) -> Quad, a: Vec4, b: Vec4, t: u32) -> Vec4 {
    let q = g(Work::LerpHsv(a, b, t));
    Vec4 { x: q.x, y: q.y, z: q.z, w: q.w }
}

/// A curve as mathematics: its case and its keyframes in the order given.
pub struct DefinitionView {
    pub kind: WrapBaseValueType,
    pub points: Seq<PointDataView>,
}

impl DefinitionView {
    /// Every keyframe is of the curve's case and well formed.
    pub open spec fn wf(self) -> bool {
        forall|i: int|
            0 <= i < self.points.len() ==> (#[trigger] self.points[i]).modifier.kind == self.kind
                && self.points[i].modifier.wf()
    }

    /// The times of the keyframes.
    pub open spec fn times(self) -> Seq<u32> {
        Seq::new(self.points.len(), |i: int| self.points[i].time)
    }

    /// The value of keyframe `i` in a context.
    pub open spec fn point(self, i: int, g: spec_fn(Work) -> Quad, context: &BaseProviderContext) -> Result<
        BaseValue,
        TracksError,
    > {
        self.points[i].modifier.point(g, context)
    }

    /// The keyframe before `l` as control point of the spline, `l` itself at
    /// the start of the curve.
    pub open spec fn before(self, l: int) -> int {
        if l > 0 {
            l - 1
        } else {
            l
        }
    }

    /// The keyframe after `r` as control point of the spline, `r` itself at
    /// the end of the curve.
    pub open spec fn after(self, r: int) -> int {
        if r + 1 < self.points.len() {
            r + 1
        } else {
            r
        }
    }

    /// The blend of keyframes `l` and `r` at progress `t`, by the flags of
    /// `r`: a spline through 3-vectors, a blend of colours through hue, or else
    /// the linear blend of the case, which is spherical for rotations.
    pub open spec fn segment(
        self,
        l: int,
        r: int,
        t: u32,
        g: spec_fn(Work) -> Quad,
        context: &BaseProviderContext,
    ) -> Result<BaseValue, TracksError> {
        match self.point(l, g, context) {
            Err(e) => Err(e),
            Ok(pl) => match self.point(r, g, context) {
                Err(e) => Err(e),
                Ok(pr) => match (pl, pr) {
                    (BaseValue::Vector3(a), BaseValue::Vector3(b)) => if self.points[r].smooth {
                        match self.point(self.before(l), g, context) {
                            Err(e) => Err(e),
                            Ok(prev) => match self.point(self.after(r), g, context) {
                                Err(e) => Err(e),
                                Ok(next) => match (prev, next) {
                                    (BaseValue::Vector3(c), BaseValue::Vector3(d)) => Ok(
                                        BaseValue::Vector3(spline(g, c, a, b, d, t)),
                                    ),
                                    _ => Ok(blended(g, pl, pr, t)),
                                },
                            },
                        }
                    } else {
                        Ok(blended(g, pl, pr, t))
                    },
                    (BaseValue::Vector4(a), BaseValue::Vector4(b)) => if self.points[r].hsv_lerp {
                        Ok(BaseValue::Vector4(hsv_blended(g, a, b, t)))
                    } else {
                        Ok(blended(g, pl, pr, t))
                    },
                    _ => Ok(blended(g, pl, pr, t)),
                },
            },
        }
    }

    /// The value of keyframe `i` with a flag, as the result of a query.
    pub open spec fn at_keyframe(
        self,
        i: int,
        is_final: bool,
        g: spec_fn(Work) -> Quad,
        context: &BaseProviderContext,
    ) -> Result<(BaseValue, bool), TracksError> {
        match self.point(i, g, context) {
            Err(e) => Err(e),
            Ok(v) => Ok((v, is_final)),
        }
    }

    /// The value of the curve at `time`, and whether the last keyframe has
    /// been reached. An empty curve yields zero. At or after the last time the
    /// curve yields its last keyframe, and that is final. At or before the
    /// first time, and on a curve of one keyframe, it yields its first.
    /// Between, it blends the two keyframes around `time` at the eased
    /// progress through their segment, with the easing of the right one.
    pub open spec fn interpolated(self, time: u32, g: spec_fn(Work) -> Quad, context: &BaseProviderContext) -> Result<
        (BaseValue, bool),
        TracksError,
    > {
        let n = self.points.len() as int;
        if n == 0 {
            Ok((zero_value(self.kind), false))
        } else if at_most(self.points[n - 1].time, time) {
            self.at_keyframe(n - 1, true, g, context)
        } else if at_most(time, self.points[0].time) || n == 1 {
            self.at_keyframe(0, false, g, context)
        } else {
            let (l, r) = searched(self.times(), time, 0, n);
            let u = normal_time(g, self.points[l].time, self.points[r].time, time);
            match self.segment(l, r, eased(g, self.points[r].easing, u), g, context) {
                Err(e) => Err(e),
                Ok(v) => Ok((v, false)),
            }
        }
    }
}

/// The search ends on two neighbours inside the range it began with.
pub proof fn searched_in_range(times: Seq<u32>, time: u32, l: int, r: int)
    requires
        0 <= l < r <= times.len(),
    ensures
        l <= searched(times, time, l, r).0,
        searched(times, time, l, r).1 <= r,
        searched(times, time, l, r).1 == searched(times, time, l, r).0 + 1,
    decreases r - l,
{
    if l + 1 < r {
        let m = (l + r) / 2;
        if less(times[m], time) {
            searched_in_range(times, time, m, r);
        } else {
            searched_in_range(times, time, l, m);
        }
    }
}

/// Where the last time is not below the query and the search begins left of
/// the last keyframe, it ends on a keyframe: the right neighbour exists.
pub proof fn searched_right_exists(times: Seq<u32>, time: u32, l: int, r: int)
    requires
        0 <= l < r <= times.len(),
        l < times.len() - 1,
        !less(times[times.len() - 1], time),
    ensures
        searched(times, time, l, r).1 < times.len(),
    decreases r - l,
{
    if l + 1 < r {
        let m = (l + r) / 2;
        if less(times[m], time) {
            searched_right_exists(times, time, m, r);
        } else {
            searched_right_exists(times, time, l, m);
        }
    }
}

/// A curve of one case: keyframes in the order of its text.
#[derive(Debug)]
pub struct BasePointDefinition {
    pub kind: WrapBaseValueType,
    pub points: Vec<PointData>,
}

impl View for BasePointDefinition {
    type V = DefinitionView;

    open spec fn view(&self) -> DefinitionView {
        DefinitionView { kind: self.kind, points: point_views(self.points@) }
    }
}

/// The Catmull-Rom spline from `a` to `b` at `t`.
pub fn smooth_vector_lerp<F: Fn(Work) -> Quad>(unit: &F, prev: Vec3, a: Vec3, b: Vec3, next: Vec3, t: u32) -> (r: Vec3)
    requires
        is_unit(unit),
    ensures
        r == spline(model_of(unit), prev, a, b, next, t),
{
    let tt: u32 = times(unit, t, t);
    let ttt: u32 = times(unit, tt, t);
    let q0: u32 = minus(unit, plus(unit, neg(ttt), times(unit, TWO, tt)), t);
    let q1: u32 = plus(unit, minus(unit, times(unit, THREE, ttt), times(unit, FIVE, tt)), TWO);
    let q2: u32 = plus(unit, plus(unit, times(unit, neg(THREE), ttt), times(unit, FOUR, tt)), t);
    let q3: u32 = minus(unit, ttt, tt);
    let x: u32 = times(
        unit,
        HALF,
        plus(
            unit,
            plus(unit, plus(unit, times(unit, prev.x, q0), times(unit, a.x, q1)), times(unit, b.x, q2)),
            times(unit, next.x, q3),
        ),
    );
    let y: u32 = times(
        unit,
        HALF,
        plus(
            unit,
            plus(unit, plus(unit, times(unit, prev.y, q0), times(unit, a.y, q1)), times(unit, b.y, q2)),
            times(unit, next.y, q3),
        ),
    );
    let z: u32 = times(
        unit,
        HALF,
        plus(
            unit,
            plus(unit, plus(unit, times(unit, prev.z, q0), times(unit, a.z, q1)), times(unit, b.z, q2)),
            times(unit, next.z, q3),
        ),
    );
    Vec3 { x, y, z }
}

/// The blend of two colours through hue, saturation and value, with alpha
/// blended linearly, computed by the unit.
pub fn lerp_hsv_vec4<F: Fn(Work) -> Quad>(unit: &F, color1: Vec4, color2: Vec4, time: u32) -> (r: Vec4)
    requires
        is_unit(unit),
    ensures
        r == hsv_blended(model_of(unit), color1, color2, time),
{
    let q = ask(unit, Work::LerpHsv(color1, color2, time));
    Vec4 { x: q.x, y: q.y, z: q.z, w: q.w }
}

impl BasePointDefinition {
    /// Compiles a definition of case `kind` from its text.
    pub fn new(kind: WrapBaseValueType, value: &JsonValue, context: &BaseProviderContext) -> (r: Result<
        Self,
        TracksError,
    >)
        requires
            context.wf(),
        ensures
            match parsed(kind, value@, context) {
                Err(e) => r is Err && r->Err_0 == e,
                Ok(points) => r is Ok && r->Ok_0@ == (DefinitionView { kind, points }) && r->Ok_0@.wf(),
            },
    {
        match parse(kind, value, context) {
            Err(e) => Err(e),
            Ok(points) => Ok(BasePointDefinition { kind, points }),
        }
    }

    /// How many keyframes the curve has.
    pub fn get_count(&self) -> (n: usize)
        ensures
            n == self@.points.len(),
    {
        self.points.len()
    }

    /// The keyframes of the curve.
    pub fn get_points(&self) -> (r: &Vec<PointData>)
        ensures
            r == &self.points,
    {
        &self.points
    }

    /// Finds the two neighbouring keyframes around `time` by bisection: the
    /// midpoint moves the left end while its time is below `time`, and the
    /// right end otherwise.
    pub fn search_index(&self, time: u32) -> (r: (usize, usize))
        requires
            self.points@.len() >= 1,
        ensures
            (r.0 as int, r.1 as int) == searched(self@.times(), time, 0, self@.points.len() as int),
            r.1 == r.0 + 1,
            r.1 <= self.points@.len(),
            self.points@.len() >= 2 && !less(self.points@[self.points@.len() - 1].time, time) ==> r.1
                < self.points@.len(),
    {
        let ghost times = self@.times();
        let mut l: usize = 0;
        let mut r: usize = self.points.len();
        proof {
            searched_in_range(times, time, 0, r as int);
            assert(times[times.len() - 1] == self.points@[self.points@.len() - 1].time);
            if self.points@.len() >= 2 && !less(self.points@[self.points@.len() - 1].time, time) {
                searched_right_exists(times, time, 0, r as int);
            }
        }
        while l + 1 < r
            invariant
                0 <= l < r <= self.points@.len(),
                times == self@.times(),
                times.len() == self.points@.len(),
                searched(times, time, 0, self.points@.len() as int) == searched(times, time, l as int, r as int),
            decreases r - l,
        {
            let m: usize = l + (r - l) / 2;
            assert(m as int == (l + r) / 2);
            assert(times[m as int] == self.points@[m as int].time);
            if lt(self.points[m].time, time) {
                l = m;
            } else {
                r = m;
            }
        }
        proof {
            searched_in_range(times, time, l as int, r as int);
        }
        (l, r)
    }

    /// The value of keyframe `i` in a context.
    pub fn get_point<F: Fn(Work) -> Quad>(&self, i: usize, context: &BaseProviderContext, unit: &F) -> (r: Result<
        BaseValue,
        TracksError,
    >)
        requires
            self@.wf(),
            i < self.points@.len(),
            context.wf(),
            is_unit(unit),
        ensures
            r == self@.point(i as int, model_of(unit), context),
            r is Ok ==> r->Ok_0.case() == self.kind,
    {
        assert(self@.points[i as int] == self.points@[i as int]@);
        self.points[i].get_point(context, unit)
    }

    /// The blend of keyframes `l` and `r` at progress `time`, by the flags of
    /// `r`.
    pub fn interpolate_points<F: Fn(Work) -> Quad>(
        &self,
        l: usize,
        r: usize,
        time: u32,
        context: &BaseProviderContext,
        unit: &F,
    ) -> (out: Result<BaseValue, TracksError>)
        requires
            self@.wf(),
            l < self.points@.len(),
            r < self.points@.len(),
            context.wf(),
            is_unit(unit),
        ensures
            out == self@.segment(l as int, r as int, time, model_of(unit), context),
            out is Ok ==> out->Ok_0.case() == self.kind,
    {
        assert(self@.points[r as int] == self.points@[r as int]@);
        let pl = match self.get_point(l, context, unit) {
            Err(e) => {
                return Err(e);
            },
            Ok(v) => v,
        };
        let pr = match self.get_point(r, context, unit) {
            Err(e) => {
                return Err(e);
            },
            Ok(v) => v,
        };
        match (pl, pr) {
            (BaseValue::Vector3(a), BaseValue::Vector3(b)) => {
                if self.points[r].smooth {
                    let before: usize = if l > 0 {
                        l - 1
                    } else {
                        l
                    };
                    let n: usize = self.points.len();
                    let after: usize = if r < n - 1 {
                        r + 1
                    } else {
                        r
                    };
                    let prev = match self.get_point(before, context, unit) {
                        Err(e) => {
                            return Err(e);
                        },
                        Ok(v) => v,
                    };
                    let next = match self.get_point(after, context, unit) {
                        Err(e) => {
                            return Err(e);
                        },
                        Ok(v) => v,
                    };
                    match (prev, next) {
                        (BaseValue::Vector3(c), BaseValue::Vector3(d)) => Ok(
                            BaseValue::Vector3(smooth_vector_lerp(unit, c, a, b, d, time)),
                        ),
                        _ => Ok(BaseValue::lerp(pl, pr, time, unit)),
                    }
                } else {
                    Ok(BaseValue::lerp(pl, pr, time, unit))
                }
            },
            (BaseValue::Vector4(a), BaseValue::Vector4(b)) => {
                if self.points[r].hsv_lerp {
                    Ok(BaseValue::Vector4(lerp_hsv_vec4(unit, a, b, time)))
                } else {
                    Ok(BaseValue::lerp(pl, pr, time, unit))
                }
            },
            _ => Ok(BaseValue::lerp(pl, pr, time, unit)),
        }
    }

    /// The value of the curve at `time`, and whether the last keyframe has
    /// been reached.
    pub fn interpolate<F: Fn(Work) -> Quad>(&self, time: u32, context: &BaseProviderContext, unit: &F) -> (r: Result<
        (BaseValue, bool),
        TracksError,
    >)
        requires
            self@.wf(),
            context.wf(),
            is_unit(unit),
        ensures
            r == self@.interpolated(time, model_of(unit), context),
            r is Ok ==> r->Ok_0.0.case() == self.kind,
    {
        let n: usize = self.points.len();
        if n == 0 {
            let zero = match self.kind {
                WrapBaseValueType::Float => BaseValue::Float(0),
                WrapBaseValueType::Vec3 => BaseValue::Vector3(Vec3 { x: 0, y: 0, z: 0 }),
                WrapBaseValueType::Vec4 => BaseValue::Vector4(Vec4 { x: 0, y: 0, z: 0, w: 0 }),
                WrapBaseValueType::Quat => BaseValue::Quaternion(Quat { x: 0, y: 0, z: 0, w: ONE }),
            };
            return Ok((zero, false));
        }
        assert(self@.points[n - 1] == self.points@[n - 1]@);
        assert(self@.points[0] == self.points@[0]@);
        if le(self.points[n - 1].time, time) {
            return match self.get_point(n - 1, context, unit) {
                Err(e) => Err(e),
                Ok(v) => Ok((v, true)),
            };
        }
        if ge(self.points[0].time, time) || n == 1 {
            return match self.get_point(0, context, unit) {
                Err(e) => Err(e),
                Ok(v) => Ok((v, false)),
            };
        }
        let (l, r) = self.search_index(time);
        assert(self@.points[l as int] == self.points@[l as int]@);
        assert(self@.points[r as int] == self.points@[r as int]@);
        let left: u32 = self.points[l].time;
        let right: u32 = self.points[r].time;
        let length: u32 = minus(unit, right, left);
        let normal: u32 = if zero(length) {
            ZERO
        } else {
            over(unit, minus(unit, time, left), length)
        };
        let eased_time: u32 = ease(unit, self.points[r].easing, normal);
        match self.interpolate_points(l, r, eased_time, context, unit) {
            Err(e) => Err(e),
            Ok(v) => Ok((v, false)),
        }
    }
}

impl DefinitionView {
    /// Whether a keyframe of the curve reads the context.
    pub open spec fn has_base(self) -> bool {
        exists|i: int| 0 <= i < self.points.len() && (#[trigger] self.points[i]).modifier.has_base()
    }

    /// The curve after one update by `delta`: every keyframe advanced once.
    pub open spec fn advanced(self, g: spec_fn(Work) -> Quad, delta: u32, context: &BaseProviderContext) -> DefinitionView {
        DefinitionView {
            kind: self.kind,
            points: Seq::new(self.points.len(), |i: int| self.points[i].advanced(g, delta, context)),
        }
    }

    /// Why the update of the first `n` keyframes fails, if it does: the failure
    /// of the first that fails.
    pub open spec fn failure(self, n: nat, g: spec_fn(Work) -> Quad, delta: u32, context: &BaseProviderContext) -> Option<
        TracksError,
    >
        decreases n,
    {
        if n == 0 || n > self.points.len() {
            None
        } else {
            match self.failure((n - 1) as nat, g, delta, context) {
                Some(e) => Some(e),
                None => self.points[n - 1].modifier.failure(g, delta, context),
            }
        }
    }
}

impl BasePointDefinition {
    /// Whether a keyframe of the curve reads the context.
    pub fn has_base_provider(&self) -> (r: bool)
        ensures
            r == self@.has_base(),
    {
        let mut i: usize = 0;
        while i < self.points.len()
            invariant
                i <= self.points@.len(),
                forall|k: int| 0 <= k < i ==> !(#[trigger] self@.points[k]).modifier.has_base(),
            decreases self.points@.len() - i,
        {
            assert(self@.points[i as int] == self.points@[i as int]@);
            if self.points[i].has_base_provider() {
                assert(0 <= i < self@.points.len() && self@.points[i as int].modifier.has_base());
                return true;
            }
            i += 1;
        }
        false
    }

    /// Advances every stateful provider of the curve by `delta`, each exactly
    /// once, keyframe by keyframe in their order. Reports the first failure;
    /// the others are advanced all the same.
    pub fn advance<F: Fn(Work) -> Quad>(&mut self, delta: u32, context: &BaseProviderContext, unit: &F) -> (r: Result<
        (),
        TracksError,
    >)
        requires
            old(self)@.wf(),
            context.wf(),
            is_unit(unit),
        ensures
            final(self)@ == old(self)@.advanced(model_of(unit), delta, context),
            final(self)@.wf(),
            reports(r, old(self)@.failure(old(self)@.points.len(), model_of(unit), delta, context)),
    {
        let ghost before = self@;
        proof {
            assert forall|k: int| 0 <= k < self.points@.len() implies (#[trigger] self.points@[k]).modifier.kind
                == self.kind && self.points@[k]@.modifier.wf() by {
                assert(before.points[k] == self.points@[k]@);
            }
        }
        let mut first: Result<(), TracksError> = Ok(());
        let mut i: usize = 0;
        while i < self.points.len()
            invariant
                context.wf(),
                is_unit(unit),
                before == old(self)@,
                i <= self.points@.len(),
                self.points@.len() == old(self).points@.len(),
                self.kind == old(self).kind,
                forall|k: int|
                    0 <= k < i ==> (#[trigger] self.points@[k])@ == before.points[k].advanced(
                        model_of(unit),
                        delta,
                        context,
                    ),
                forall|k: int| i <= k < self.points@.len() ==> (#[trigger] self.points@[k]) == old(
                    self,
                ).points@[k],
                forall|k: int|
                    0 <= k < self.points@.len() ==> (#[trigger] self.points@[k]).modifier.kind == self.kind
                        && self.points@[k]@.modifier.wf(),
                reports(first, before.failure(i as nat, model_of(unit), delta, context)),
            decreases self.points@.len() - i,
        {
            assert(before.points[i as int] == old(self).points@[i as int]@);
            let r = self.points[i].update(delta, context, unit);
            match first {
                Ok(()) => {
                    first = r;
                },
                Err(_) => {},
            }
            i += 1;
        }
        assert(self@.points =~= before.advanced(model_of(unit), delta, context).points);
        assert forall|k: int| 0 <= k < self@.points.len() implies (#[trigger] self@.points[k]).modifier.kind
            == self@.kind && self@.points[k].modifier.wf() by {
            assert(self@.points[k] == self.points@[k]@);
        }
        first
    }
}

} // verus!
