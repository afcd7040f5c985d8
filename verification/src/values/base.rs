//! A provider that reads a named slot of the context.
use crate::error::TracksError;
use crate::values::base_provider_context::BaseProviderContext;
use vstd::prelude::*;
use vstd::string::StrSliceExecFns;

verus! {

/// Where the head of a dotted name ends: at the first `.` at or after `from`,
/// or at the end of the name.
pub open spec fn head_end(s: Seq<char>, from: int) -> int
    decreases s.len() - from,
{
    if from >= s.len() {
        s.len() as int
    } else if s[from] == '.' {
        from
    } else {
        head_end(s, from + 1)
    }
}

/// The part of a dotted name before its first `.`: the slot that it reads.
pub open spec fn head_of(s: Seq<char>) -> Seq<char> {
    s.subrange(0, head_end(s, 0))
}

/// The numbers that a read of the context yields, or its error.
pub open spec fn flattened(
    m: Result<crate::values::value::BaseValue, TracksError>,
) -> Result<Seq<u32>, TracksError> {
    match m {
        Ok(v) => Ok(v.components()),
        Err(e) => Err(e),
    }
}

/// Whether an executable result holds what a mathematical one says.
pub open spec fn holds(r: Result<Vec<u32>, TracksError>, m: Result<Seq<u32>, TracksError>) -> bool {
    match m {
        Ok(s) => r is Ok && r->Ok_0@ == s,
        Err(e) => r == Err::<Vec<u32>, TracksError>(e),
    }
}

/// The part of `name` before its first `.`.
pub fn head(name: &str) -> (r: &str)
    ensures
        r@ == head_of(name@),
{
    let n: usize = name.unicode_len();
    let mut i: usize = 0;
    let mut found = false;
    while i < n && !found
        invariant
            i <= n,
            n == name@.len(),
            head_end(name@, 0) == head_end(name@, i as int),
            found ==> i < n && name@[i as int] == '.',
        decreases n - i + (if found { 0int } else { 1int }),
    {
        if name.get_char(i) == '.' {
            found = true;
        } else {
            i += 1;
        }
    }
    name.substring_char(0, i)
}

/// A lookup of one named slot. The name may carry a dotted suffix; the slot is
/// the part before the first `.`.
#[derive(Clone, Debug)]
pub struct BaseProviderValues {
    pub base: String,
}

impl BaseProviderValues {
    /// A lookup of `base`. The name is not looked at until the first read.
    pub fn new(base: String) -> (r: Self)
        ensures
            r.base@ == base@,
    {
        BaseProviderValues { base }
    }

    /// What a read yields in a context: the numbers of the slot, or the error of
    /// an unknown name.
    pub open spec fn read(&self, context: &BaseProviderContext) -> Result<Seq<u32>, TracksError> {
        flattened(context.lookup(head_of(self.base@)))
    }

    /// Reads the slot from the context.
    pub fn values(&self, context: &BaseProviderContext) -> (r: Result<Vec<u32>, TracksError>)
        requires
            context.wf(),
        ensures
            holds(r, self.read(context)),
    {
        match context.get_values(head(self.base.as_str())) {
            Ok(v) => Ok(v.as_slice()),
            Err(e) => Err(e),
        }
    }
}

} // verus!
