//! How a child modifier combines with the value before it.
use vstd::prelude::*;
use vstd::string::StringSliceAdditionalSpecFns;
use vstd::utf8::encode_utf8_decode_utf8;

verus! {

/// The arithmetic a child applies to the accumulated value. `Override` replaces
/// the accumulated value by the child's.
#[derive(Clone, Copy, PartialEq, Eq, Structural, Debug)]
pub enum Operation {
    Override,
    Add,
    Sub,
    Mul,
    Div,
}

/// The operation that a flag names; any other text names `Override`.
pub open spec fn operation_named(s: Seq<char>) -> Operation {
    if s == "opAdd"@ {
        Operation::Add
    } else if s == "opSub"@ {
        Operation::Sub
    } else if s == "opMul"@ {
        Operation::Mul
    } else if s == "opDiv"@ {
        Operation::Div
    } else {
        Operation::Override
    }
}

/// Whether two texts hold the same characters. The texts are compared byte by
/// byte: their encodings agree exactly when their characters do.
pub fn same_text(a: &str, b: &str) -> (r: bool)
    ensures
        r == (a@ == b@),
{
    let x = a.as_bytes();
    let y = b.as_bytes();
    if x.len() != y.len() {
        return false;
    }
    let mut i: usize = 0;
    while i < x.len()
        invariant
            i <= x@.len(),
            x@.len() == y@.len(),
            x@ == a.spec_bytes(),
            y@ == b.spec_bytes(),
            forall|k: int| 0 <= k < i ==> x@[k] == y@[k],
        decreases x@.len() - i,
    {
        if x[i] != y[i] {
            return false;
        }
        i += 1;
    }
    assert(x@ =~= y@);
    proof {
        encode_utf8_decode_utf8(a@);
        encode_utf8_decode_utf8(b@);
    }
    true
}

impl Operation {
    /// Reads an operation flag: `opAdd`, `opSub`, `opMul`, `opDiv`; anything
    /// else is `Override`.
    pub fn from_str(s: &str) -> (r: Self)
        ensures
            r == operation_named(s@),
    {
        if same_text(s, "opAdd") {
            Operation::Add
        } else if same_text(s, "opSub") {
            Operation::Sub
        } else if same_text(s, "opMul") {
            Operation::Mul
        } else if same_text(s, "opDiv") {
            Operation::Div
        } else {
            Operation::Override
        }
    }
}

} // verus!
