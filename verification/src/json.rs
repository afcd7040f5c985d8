//! The text of a definition as a tree of numbers, strings and arrays.
use vstd::prelude::*;
use vstd::string::StrSliceExecFns;

verus! {

/// The kind of a node of the tree.
#[derive(Clone, Copy, PartialEq, Eq, Structural, Debug)]
pub enum JsonValueType {
    Number,
    Null,
    String,
    Array,
}

/// A node of the tree. `Null` stands for everything that is neither a number,
/// a string nor an array.
#[derive(Debug)]
pub enum JsonValue {
    Null,
    Number(u32),
    String(String),
    Array(Vec<JsonValue>),
}

/// A node as mathematics.
pub enum JsonView {
    Null,
    Number(u32),
    String(Seq<char>),
    Array(Seq<JsonView>),
}

/// Whether `s` begins with `prefix`.
pub open spec fn has_prefix(s: Seq<char>, prefix: Seq<char>) -> bool {
    s.len() >= prefix.len() && s.subrange(0, prefix.len() as int) == prefix
}

/// Whether `s` begins with `prefix`.
pub fn starts_with(s: &str, prefix: &str) -> (r: bool)
    ensures
        r == has_prefix(s@, prefix@),
{
    let n: usize = s.unicode_len();
    let m: usize = prefix.unicode_len();
    if n < m {
        return false;
    }
    let mut i: usize = 0;
    while i < m
        invariant
            i <= m <= n,
            n == s@.len(),
            m == prefix@.len(),
            forall|k: int| 0 <= k < i ==> s@[k] == prefix@[k],
        decreases m - i,
    {
        if s.get_char(i) != prefix.get_char(i) {
            assert(s@.subrange(0, m as int)[i as int] != prefix@[i as int]);
            return false;
        }
        i += 1;
    }
    assert(s@.subrange(0, m as int) =~= prefix@);
    true
}

impl JsonValue {
    /// The node as mathematics.
    pub open spec fn model(&self) -> JsonView
        decreases self,
    {
        match self {
            JsonValue::Null => JsonView::Null,
            JsonValue::Number(x) => JsonView::Number(*x),
            JsonValue::String(s) => JsonView::String(s@),
            JsonValue::Array(items) => JsonView::Array(
                Seq::new(
                    items@.len(),
                    |i: int|
                        if 0 <= i < items@.len() {
                            items@[i].model()
                        } else {
                            arbitrary()
                        },
                ),
            ),
        }
    }

    /// The kind of the node.
    pub fn value_type(&self) -> (r: JsonValueType)
        ensures
            r == match *self {
                JsonValue::Null => JsonValueType::Null,
                JsonValue::Number(_) => JsonValueType::Number,
                JsonValue::String(_) => JsonValueType::String,
                JsonValue::Array(_) => JsonValueType::Array,
            },
    {
        match self {
            JsonValue::Null => JsonValueType::Null,
            JsonValue::Number(_) => JsonValueType::Number,
            JsonValue::String(_) => JsonValueType::String,
            JsonValue::Array(_) => JsonValueType::Array,
        }
    }
}

impl View for JsonValue {
    type V = JsonView;

    open spec fn view(&self) -> JsonView {
        self.model()
    }
}

} // verus!
