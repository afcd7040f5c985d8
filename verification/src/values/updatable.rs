//! A provider that keeps chosen components of a source value.
use crate::error::TracksError;
use crate::values::value::BaseValue;
use vstd::prelude::*;

verus! {

/// Whether `part` names a component of `source`. A scalar answers every index.
pub open spec fn is_part(source: BaseValue, part: usize) -> bool {
    source is Float || part < source.components().len()
}

/// The chosen components of `source`, in the order of `parts`.
pub open spec fn extracted(source: BaseValue, parts: Seq<usize>) -> Seq<u32> {
    Seq::new(parts.len(), |i: int| source.at(parts[i] as int))
}

/// A fixed choice of components of a source value, copied to a compact cache
/// on each update.
#[derive(Clone, Debug)]
pub struct PartialProviderValues {
    pub source: BaseValue,
    pub parts: Vec<usize>,
    pub values: Vec<u32>,
}

impl PartialProviderValues {
    /// The cache has one place for each part, and each part names a component of
    /// the source.
    pub open spec fn wf(&self) -> bool {
        &&& self.values@.len() == self.parts@.len()
        &&& forall|i: int| 0 <= i < self.parts@.len() ==> is_part(self.source, #[trigger] self.parts@[i])
    }

    /// A provider of the components `parts` of `source`, with a cache of zeros.
    /// A part that names no component of the source is an arity error.
    pub fn new(source: BaseValue, parts: Vec<usize>) -> (r: Result<Self, TracksError>)
        ensures
            r is Ok <==> forall|i: int| 0 <= i < parts@.len() ==> is_part(source, #[trigger] parts@[i]),
            r is Err ==> r->Err_0 == TracksError::ArityMismatch,
            r is Ok ==> {
                &&& r->Ok_0.wf()
                &&& r->Ok_0.source == source
                &&& r->Ok_0.parts@ == parts@
                &&& r->Ok_0.values@ == Seq::new(parts@.len(), |i: int| 0u32)
            },
    {
        let n: usize = source.len();
        let scalar = source.as_float().is_some();
        let mut values: Vec<u32> = Vec::new();
        let mut i: usize = 0;
        while i < parts.len()
            invariant
                i <= parts@.len(),
                n == source.components().len(),
                scalar == (source is Float),
                values@ =~= Seq::new(i as nat, |k: int| 0u32),
                forall|k: int| 0 <= k < i ==> is_part(source, #[trigger] parts@[k]),
            decreases parts@.len() - i,
        {
            if !scalar && parts[i] >= n {
                return Err(TracksError::ArityMismatch);
            }
            values.push(0);
            i += 1;
        }
        Ok(PartialProviderValues { source, parts, values })
    }

    /// The cache as it was last updated.
    pub fn values(&self) -> (r: Vec<u32>)
        ensures
            r@ == self.values@,
    {
        self.values.clone()
    }

    /// Copies the chosen components of the source into the cache.
    pub fn update(&mut self)
        requires
            old(self).wf(),
        ensures
            final(self).wf(),
            final(self).source == old(self).source,
            final(self).parts@ == old(self).parts@,
            final(self).values@ == extracted(old(self).source, old(self).parts@),
    {
        let mut i: usize = 0;
        while i < self.parts.len()
            invariant
                i <= self.parts@.len(),
                self.wf(),
                self.source == old(self).source,
                self.parts@ == old(self).parts@,
                forall|k: int| 0 <= k < i ==> self.values@[k] == self.source.at(self.parts@[k] as int),
            decreases self.parts@.len() - i,
        {
            let part: usize = self.parts[i];
            let number: u32 = self.source.index(part);
            self.values.set(i, number);
            i += 1;
        }
        assert(self.values@ =~= extracted(old(self).source, old(self).parts@));
    }
}

} // verus!
