//! Values and the providers that resolve to them.
pub mod base;
pub mod base_provider_context;
pub mod deserialize;
pub mod quat;
pub mod smooth;
pub mod smooth_rot;
pub mod static_values;
pub mod updatable;
pub mod value;

use crate::error::TracksError;
use crate::float_unit::{is_unit, model_of, Quad, Work};
use crate::values::base::{flattened, head_of, holds, BaseProviderValues};
use crate::values::base_provider_context::BaseProviderContext;
use crate::values::quat::QuaternionProviderValues;
use crate::values::smooth::SmoothProvidersValues;
use crate::values::smooth_rot::{euler_of, to_euler, SmoothRotationProvidersValues};
use crate::values::static_values::StaticValues;
use crate::values::updatable::{extracted, is_part, PartialProviderValues};
use crate::values::value::{BaseValue, Quat, Vec3};
use vstd::prelude::*;

verus! {

/// A node that resolves to numbers in a context.
#[derive(Debug)]
pub enum ValueProvider {
    Static(StaticValues),
    BaseProvider(BaseProviderValues),
    QuaternionProvider(QuaternionProviderValues),
    PartialProvider(PartialProviderValues),
    SmoothProviders(SmoothProvidersValues),
    SmoothRotationProviders(SmoothRotationProvidersValues),
}

/// What a provider is, as mathematics: its kind, its settings and its cache.
pub enum ProviderView {
    Static(Seq<u32>),
    BaseProvider(Seq<char>),
    QuaternionProvider(Box<ProviderView>, Vec3),
    PartialProvider(BaseValue, Seq<usize>, Seq<u32>),
    SmoothProviders(SmoothProvidersValues),
    SmoothRotationProviders(SmoothRotationProvidersValues),
}

impl ValueProvider {
    /// The node as mathematics.
    pub open spec fn model(&self) -> ProviderView
        decreases self,
    {
        match self {
            ValueProvider::Static(s) => ProviderView::Static(s.values@),
            ValueProvider::BaseProvider(b) => ProviderView::BaseProvider(b.base@),
            ValueProvider::QuaternionProvider(q) => ProviderView::QuaternionProvider(
                Box::new(q.source.model()),
                q.values,
            ),
            ValueProvider::PartialProvider(p) => ProviderView::PartialProvider(p.source, p.parts@, p.values@),
            ValueProvider::SmoothProviders(s) => ProviderView::SmoothProviders(*s),
            ValueProvider::SmoothRotationProviders(s) => ProviderView::SmoothRotationProviders(*s),
        }
    }
}

impl View for ValueProvider {
    type V = ProviderView;

    open spec fn view(&self) -> ProviderView {
        self.model()
    }
}

impl ProviderView {
    /// Every partial provider in the node has a cache place for each part, and
    /// parts that name components of its source.
    pub open spec fn wf(self) -> bool
        decreases self,
    {
        match self {
            ProviderView::QuaternionProvider(source, _) => source.wf(),
            ProviderView::PartialProvider(source, parts, values) => {
                &&& values.len() == parts.len()
                &&& forall|i: int| 0 <= i < parts.len() ==> is_part(source, #[trigger] parts[i])
            },
            _ => true,
        }
    }

    /// What a read yields in a context. Only a lookup can fail; the stateful
    /// kinds yield their caches.
    pub open spec fn read(self, context: &BaseProviderContext) -> Result<Seq<u32>, TracksError> {
        match self {
            ProviderView::Static(s) => Ok(s),
            ProviderView::BaseProvider(name) => flattened(context.lookup(head_of(name))),
            ProviderView::QuaternionProvider(_, cache) => Ok(seq![cache.x, cache.y, cache.z]),
            ProviderView::PartialProvider(_, _, values) => Ok(values),
            ProviderView::SmoothProviders(s) => Ok(s.values.components()),
            ProviderView::SmoothRotationProviders(s) => Ok(seq![s.values.x, s.values.y, s.values.z]),
        }
    }

    /// Whether the node reads the context.
    pub open spec fn has_base(self) -> bool
        decreases self,
    {
        match self {
            ProviderView::BaseProvider(_) => true,
            ProviderView::QuaternionProvider(source, _) => source.has_base(),
            _ => false,
        }
    }

    /// Why an update of the node by `delta` fails, if it does: the failure of
    /// its source, else a failed read of the updated source, else a source of
    /// fewer than four numbers.
    pub open spec fn failure(
        self,
        g: spec_fn(Work) -> Quad,
        delta: u32,
        context: &BaseProviderContext,
    ) -> Option<TracksError>
        decreases self, 0nat,
    {
        match self {
            ProviderView::QuaternionProvider(source, _) => match source.failure(g, delta, context) {
                Some(e) => Some(e),
                None => match source.advanced(g, delta, context).read(context) {
                    Err(e) => Some(e),
                    Ok(v) => if v.len() < 4 {
                        Some(TracksError::ArityMismatch)
                    } else {
                        None
                    },
                },
            },
            _ => None,
        }
    }

    /// The node after one update by `delta`. Stateless kinds stay as they are.
    /// A rotation reader updates its source, then caches the angles of what the
    /// source yields; where that fails its cache stays.
    pub open spec fn advanced(
        self,
        g: spec_fn(Work) -> Quad,
        delta: u32,
        context: &BaseProviderContext,
    ) -> ProviderView
        decreases self, 1nat,
    {
        match self {
            ProviderView::QuaternionProvider(source, cache) => {
                let next = source.advanced(g, delta, context);
                let angles = if source.failure(g, delta, context) is Some {
                    cache
                } else {
                    match next.read(context) {
                        Ok(v) => if v.len() < 4 {
                            cache
                        } else {
                            euler_of(g, Quat { x: v[0], y: v[1], z: v[2], w: v[3] })
                        },
                        Err(_) => cache,
                    }
                };
                ProviderView::QuaternionProvider(Box::new(next), angles)
            },
            ProviderView::PartialProvider(source, parts, _) => ProviderView::PartialProvider(
                source,
                parts,
                extracted(source, parts),
            ),
            ProviderView::SmoothProviders(s) => ProviderView::SmoothProviders(s.advanced(g, delta)),
            ProviderView::SmoothRotationProviders(s) => ProviderView::SmoothRotationProviders(
                s.advanced(g, delta),
            ),
            _ => self,
        }
    }
}

impl ValueProvider {
    /// Reads the node: a constant, a slot of the context, or a cache as it was
    /// last updated.
    pub fn values(&self, context: &BaseProviderContext) -> (r: Result<Vec<u32>, TracksError>)
        requires
            context.wf(),
        ensures
            holds(r, self@.read(context)),
    {
        match self {
            ValueProvider::Static(v) => Ok(v.values()),
            ValueProvider::BaseProvider(v) => v.values(context),
            ValueProvider::QuaternionProvider(v) => Ok(v.values()),
            ValueProvider::PartialProvider(v) => Ok(v.values()),
            ValueProvider::SmoothProviders(v) => Ok(v.values()),
            ValueProvider::SmoothRotationProviders(v) => Ok(v.values()),
        }
    }

    /// Whether the node reads the context.
    pub fn has_base_provider(&self) -> (r: bool)
        ensures
            r == self@.has_base(),
        decreases self,
    {
        match self {
            ValueProvider::BaseProvider(_) => true,
            ValueProvider::QuaternionProvider(q) => q.source.has_base_provider(),
            _ => false,
        }
    }

    /// Advances the node by `delta`: once for the node and once for each node
    /// below it, sources first.
    pub fn update<F: Fn(Work) -> Quad>(
        &mut self,
        delta: u32,
        context: &BaseProviderContext,
        unit: &F,
    ) -> (r: Result<(), TracksError>)
        requires
            old(self)@.wf(),
            context.wf(),
            is_unit(unit),
        ensures
            final(self)@ == old(self)@.advanced(model_of(unit), delta, context),
            final(self)@.wf(),
            match old(self)@.failure(model_of(unit), delta, context) {
                Some(e) => r == Err::<(), TracksError>(e),
                None => r is Ok,
            },
        decreases *old(self),
    {
        match self {
            ValueProvider::QuaternionProvider(q) => {
                let below = q.source.update(delta, context, unit);
                match below {
                    Err(e) => Err(e),
                    Ok(()) => match q.source.values(context) {
                        Err(e) => Err(e),
                        Ok(v) => {
                            if v.len() < 4 {
                                Err(TracksError::ArityMismatch)
                            } else {
                                q.values = to_euler(unit, Quat { x: v[0], y: v[1], z: v[2], w: v[3] });
                                Ok(())
                            }
                        },
                    },
                }
            },
            ValueProvider::PartialProvider(p) => {
                p.update();
                Ok(())
            },
            ValueProvider::SmoothProviders(s) => {
                s.update(delta, unit);
                Ok(())
            },
            ValueProvider::SmoothRotationProviders(s) => {
                s.update(delta, unit);
                Ok(())
            },
            _ => Ok(()),
        }
    }
}

/// A stateful provider that a scheduler advances.
#[derive(Clone, Copy, PartialEq, Eq, Structural, Debug)]
pub enum UpdatableValueProvider {
    SmoothProviders(SmoothProvidersValues),
    SmoothRotationProviders(SmoothRotationProvidersValues),
}

impl UpdatableValueProvider {
    /// The provider after one update by `delta` under a model.
    pub open spec fn advanced(self, g: spec_fn(Work) -> Quad, delta: u32) -> UpdatableValueProvider {
        match self {
            UpdatableValueProvider::SmoothProviders(s) => UpdatableValueProvider::SmoothProviders(
                s.advanced(g, delta),
            ),
            UpdatableValueProvider::SmoothRotationProviders(s) => UpdatableValueProvider::SmoothRotationProviders(
                s.advanced(g, delta),
            ),
        }
    }

    /// The numbers that a read yields: the cache.
    pub open spec fn cache(self) -> Seq<u32> {
        match self {
            UpdatableValueProvider::SmoothProviders(s) => s.values.components(),
            UpdatableValueProvider::SmoothRotationProviders(s) => seq![s.values.x, s.values.y, s.values.z],
        }
    }

    /// The cache as it was last updated.
    pub fn values(&self) -> (r: Vec<u32>)
        ensures
            r@ == self.cache(),
    {
        match self {
            UpdatableValueProvider::SmoothProviders(s) => s.values(),
            UpdatableValueProvider::SmoothRotationProviders(s) => s.values(),
        }
    }

    /// Advances the provider by `delta`.
    pub fn update<F: Fn(Work) -> Quad>(&mut self, delta: u32, unit: &F)
        requires
            is_unit(unit),
        ensures
            *final(self) == old(self).advanced(model_of(unit), delta),
    {
        match self {
            UpdatableValueProvider::SmoothProviders(s) => s.update(delta, unit),
            UpdatableValueProvider::SmoothRotationProviders(s) => s.update(delta, unit),
        }
    }
}

/// The scheduler: the stateful providers in the order of their registration.
#[derive(Clone, Debug)]
pub struct UpdatableProviderContext {
    pub providers: Vec<UpdatableValueProvider>,
}

impl UpdatableProviderContext {
    /// A scheduler with no provider.
    pub fn new() -> (r: Self)
        ensures
            r.providers@.len() == 0,
    {
        UpdatableProviderContext { providers: Vec::new() }
    }

    /// Registers a provider after those already there and returns its place.
    pub fn register(&mut self, provider: UpdatableValueProvider) -> (index: usize)
        ensures
            final(self).providers@ == old(self).providers@.push(provider),
            index == old(self).providers@.len(),
    {
        let index: usize = self.providers.len();
        self.providers.push(provider);
        index
    }

    /// Reads the provider at `index`, as it was last advanced.
    pub fn values(&self, index: usize) -> (r: Option<Vec<u32>>)
        ensures
            index < self.providers@.len() ==> r is Some && r->Some_0@ == self.providers@[index as int].cache(),
            index >= self.providers@.len() ==> r is None,
    {
        if index < self.providers.len() {
            Some(self.providers[index].values())
        } else {
            None
        }
    }

    /// Advances every registered provider by `delta`, each exactly once, in the
    /// order of registration.
    pub fn advance<F: Fn(Work) -> Quad>(&mut self, delta: u32, unit: &F)
        requires
            is_unit(unit),
        ensures
            final(self).providers@.len() == old(self).providers@.len(),
            forall|i: int|
                0 <= i < old(self).providers@.len() ==> #[trigger] final(self).providers@[i] == old(
                    self,
                ).providers@[i].advanced(model_of(unit), delta),
    {
        let mut i: usize = 0;
        while i < self.providers.len()
            invariant
                is_unit(unit),
                i <= self.providers@.len(),
                self.providers@.len() == old(self).providers@.len(),
                forall|k: int|
                    0 <= k < i ==> #[trigger] self.providers@[k] == old(self).providers@[k].advanced(
                        model_of(unit),
                        delta,
                    ),
                forall|k: int|
                    i <= k < self.providers@.len() ==> #[trigger] self.providers@[k] == old(
                        self,
                    ).providers@[k],
            decreases self.providers@.len() - i,
        {
            let mut provider = self.providers[i];
            provider.update(delta, unit);
            self.providers.set(i, provider);
            i += 1;
        }
    }
}

/// The numbers of a keyframe as read from its text: constants, or one lookup.
#[derive(Clone, Debug)]
pub enum JsonPointValues {
    Static(Vec<u32>),
    BaseProvider(BaseProviderValues),
}

impl JsonPointValues {
    /// The provider that stands for these numbers.
    pub fn to_provider(self) -> (r: ValueProvider)
        ensures
            r@ == match self {
                JsonPointValues::Static(v) => ProviderView::Static(v@),
                JsonPointValues::BaseProvider(b) => ProviderView::BaseProvider(b.base@),
            },
    {
        match self {
            JsonPointValues::Static(v) => ValueProvider::Static(StaticValues::new(v)),
            JsonPointValues::BaseProvider(v) => ValueProvider::BaseProvider(v),
        }
    }

    /// The numbers in a context: the constants, or the slot that the lookup names.
    pub fn to_raw_values(&self, context: &BaseProviderContext) -> (r: Result<Vec<u32>, TracksError>)
        requires
            context.wf(),
        ensures
            holds(
                r,
                match *self {
                    JsonPointValues::Static(v) => Ok(v@),
                    JsonPointValues::BaseProvider(b) => b.read(context),
                },
            ),
    {
        match self {
            JsonPointValues::Static(v) => Ok(v.clone()),
            JsonPointValues::BaseProvider(v) => v.values(context),
        }
    }
}

} // verus!
