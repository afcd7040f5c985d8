//! A provider that reads a rotation as Euler angles.
use crate::values::value::Vec3;
use crate::values::ValueProvider;
use vstd::prelude::*;

verus! {

/// The Euler angles, in degrees, of the rotation that a source provider
/// yields: recomputed on each update and cached as a 3-vector.
#[derive(Debug)]
pub struct QuaternionProviderValues {
    pub source: Box<ValueProvider>,
    pub values: Vec3,
}

impl QuaternionProviderValues {
    /// A provider of the angles of `source`, with a cache of zeros.
    pub fn new(source: ValueProvider) -> (r: Self)
        ensures
            *r.source == source,
            r.values == (Vec3 { x: 0, y: 0, z: 0 }),
    {
        QuaternionProviderValues { source: Box::new(source), values: Vec3 { x: 0, y: 0, z: 0 } }
    }

    /// The angles as they were last updated.
    pub fn values(&self) -> (r: Vec<u32>)
        ensures
            r@ == seq![self.values.x, self.values.y, self.values.z],
    {
        let r = vec![self.values.x, self.values.y, self.values.z];
        assert(r@ =~= seq![self.values.x, self.values.y, self.values.z]);
        r
    }
}

} // verus!
