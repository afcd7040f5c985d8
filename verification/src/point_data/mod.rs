//! Keyframes: a time, a value expression, an easing and its blend flags.
use crate::easings::functions::Functions;
use crate::error::TracksError;
use crate::float_unit::{is_unit, model_of, Quad, Work};
use crate::modifiers::{reports, Modifier, ModifierView};
use crate::values::base_provider_context::BaseProviderContext;
use crate::values::value::BaseValue;
use vstd::prelude::*;

verus! {

/// One keyframe of a curve. `smooth` asks for a spline through 3-vectors,
/// `hsv_lerp` for a blend of colours through hue, saturation and value; each
/// is read from the keyframe at the right end of a segment.
#[derive(Debug)]
pub struct PointData {
    pub time: u32,
    pub modifier: Modifier,
    pub easing: Functions,
    pub smooth: bool,
    pub hsv_lerp: bool,
}

/// A keyframe as mathematics.
pub struct PointDataView {
    pub time: u32,
    pub modifier: ModifierView,
    pub easing: Functions,
    pub smooth: bool,
    pub hsv_lerp: bool,
}

impl View for PointData {
    type V = PointDataView;

    open spec fn view(&self) -> PointDataView {
        PointDataView {
            time: self.time,
            modifier: self.modifier@,
            easing: self.easing,
            smooth: self.smooth,
            hsv_lerp: self.hsv_lerp,
        }
    }
}

impl PointData {
    /// A keyframe at `time`.
    pub fn new(time: u32, modifier: Modifier, easing: Functions, smooth: bool, hsv_lerp: bool) -> (r: Self)
        ensures
            r.time == time,
            r.modifier == modifier,
            r.easing == easing,
            r.smooth == smooth,
            r.hsv_lerp == hsv_lerp,
    {
        PointData { time, modifier, easing, smooth, hsv_lerp }
    }

    /// The time of the keyframe.
    pub fn get_time(&self) -> (r: u32)
        ensures
            r == self.time,
    {
        self.time
    }

    /// The easing of the segment that ends at the keyframe.
    pub fn get_easing(&self) -> (r: Functions)
        ensures
            r == self.easing,
    {
        self.easing
    }

    /// The value of the keyframe in a context.
    pub fn get_point<F: Fn(Work) -> Quad>(&self, context: &BaseProviderContext, unit: &F) -> (r: Result<
        BaseValue,
        TracksError,
    >)
        requires
            self@.modifier.wf(),
            context.wf(),
            is_unit(unit),
        ensures
            r == self@.modifier.point(model_of(unit), context),
            r is Ok ==> r->Ok_0.case() == self.modifier.kind,
    {
        self.modifier.get_point(context, unit)
    }
}

impl PointDataView {
    /// The keyframe after one update by `delta`: its time, easing and flags stay,
    /// and every provider in its modifier is advanced once.
    pub open spec fn advanced(self, g: spec_fn(Work) -> Quad, delta: u32, context: &BaseProviderContext) -> PointDataView {
        PointDataView {
            time: self.time,
            modifier: self.modifier.advanced(g, delta, context),
            easing: self.easing,
            smooth: self.smooth,
            hsv_lerp: self.hsv_lerp,
        }
    }
}

impl PointData {
    /// Whether the keyframe reads the context.
    pub fn has_base_provider(&self) -> (r: bool)
        ensures
            r == self@.modifier.has_base(),
    {
        self.modifier.has_base_provider()
    }

    /// Advances every provider of the keyframe by `delta`, each exactly once,
    /// and reports the first failure.
    pub fn update<F: Fn(Work) -> Quad>(&mut self, delta: u32, context: &BaseProviderContext, unit: &F) -> (r: Result<
        (),
        TracksError,
    >)
        requires
            old(self)@.modifier.wf(),
            context.wf(),
            is_unit(unit),
        ensures
            final(self)@ == old(self)@.advanced(model_of(unit), delta, context),
            final(self)@.modifier.wf(),
            reports(r, old(self)@.modifier.failure(model_of(unit), delta, context)),
    {
        self.modifier.update(delta, context, unit)
    }
}

/// The views of a list of keyframes.
pub open spec fn point_views(points: Seq<PointData>) -> Seq<PointDataView> {
    Seq::new(points.len(), |i: int| points[i]@)
}

} // verus!
