//! A provider of fixed numbers.
use vstd::prelude::*;

verus! {

/// Numbers captured when the definition was built.
#[derive(Clone, Debug)]
pub struct StaticValues {
    pub values: Vec<u32>,
}

impl StaticValues {
    /// A provider of `values`.
    pub fn new(values: Vec<u32>) -> (r: Self)
        ensures
            r.values@ == values@,
    {
        StaticValues { values }
    }

    /// The captured numbers.
    pub fn values(&self) -> (r: Vec<u32>)
        ensures
            r@ == self.values@,
    {
        self.values.clone()
    }
}

} // verus!
