//! Curves of scalars.
use crate::error::TracksError;
use crate::float_unit::{is_unit, model_of, Quad, Work};
use crate::json::JsonValue;
use crate::modifiers::reports;
use crate::point_definition::base_point_definition::{BasePointDefinition, DefinitionView};
use crate::point_definition::compile::parsed;
use crate::values::base_provider_context::BaseProviderContext;
use crate::values::value::{BaseValue, WrapBaseValueType};
use vstd::prelude::*;

verus! {

/// A curve whose value is a scalar.
#[derive(Debug)]
pub struct FloatPointDefinition {
    pub definition: BasePointDefinition,
}

impl View for FloatPointDefinition {
    type V = DefinitionView;

    open spec fn view(&self) -> DefinitionView {
        self.definition@
    }
}

impl FloatPointDefinition {
    /// The curve is of this case and every keyframe is well formed.
    pub open spec fn wf(&self) -> bool {
        self@.kind == WrapBaseValueType::Float && self@.wf()
    }

    /// Compiles the curve from its text.
    pub fn new(value: &JsonValue, context: &BaseProviderContext) -> (r: Result<Self, TracksError>)
        requires
            context.wf(),
        ensures
            match parsed(WrapBaseValueType::Float, value@, context) {
                Err(e) => r is Err && r->Err_0 == e,
                Ok(points) => r is Ok && r->Ok_0@ == (DefinitionView { kind: WrapBaseValueType::Float, points })
                    && r->Ok_0.wf(),
            },
    {
        match BasePointDefinition::new(WrapBaseValueType::Float, value, context) {
            Err(e) => Err(e),
            Ok(definition) => Ok(FloatPointDefinition { definition }),
        }
    }

    /// How many keyframes the curve has.
    pub fn get_count(&self) -> (n: usize)
        ensures
            n == self@.points.len(),
    {
        self.definition.get_count()
    }

    /// Whether a keyframe of the curve reads the context.
    pub fn has_base_provider(&self) -> (r: bool)
        ensures
            r == self@.has_base(),
    {
        self.definition.has_base_provider()
    }

    /// Advances every stateful provider of the curve by `delta`, each exactly
    /// once, and reports the first failure.
    pub fn advance<F: Fn(Work) -> Quad>(&mut self, delta: u32, context: &BaseProviderContext, unit: &F) -> (r: Result<
        (),
        TracksError,
    >)
        requires
            old(self).wf(),
            context.wf(),
            is_unit(unit),
        ensures
            final(self)@ == old(self)@.advanced(model_of(unit), delta, context),
            final(self).wf(),
            reports(r, old(self)@.failure(old(self)@.points.len(), model_of(unit), delta, context)),
    {
        self.definition.advance(delta, context, unit)
    }

    /// The value of the curve at `time`, and whether the last keyframe has
    /// been reached.
    pub fn interpolate<F: Fn(Work) -> Quad>(&self, time: u32, context: &BaseProviderContext, unit: &F) -> (r: Result<
        (u32, bool),
        TracksError,
    >)
        requires
            self.wf(),
            context.wf(),
            is_unit(unit),
        ensures
            match self@.interpolated(time, model_of(unit), context) {
                Err(e) => r is Err && r->Err_0 == e,
                Ok(found) => found.0 is Float && r == Ok::<(u32, bool), TracksError>(
                    (found.0->Float_0, found.1),
                ),
            },
    {
        match self.definition.interpolate(time, context, unit) {
            Err(e) => Err(e),
            Ok((value, is_last)) => match value {
                BaseValue::Float(v) => Ok((v, is_last)),
                _ => Err(TracksError::WrongCase),
            },
        }
    }
}

} // verus!
