//! Point definitions: curves of keyframes, their compiler and their blend.
pub mod base_point_definition;
pub mod compile;
pub mod float_point_definition;
pub mod quaternion_point_definition;
pub mod vector3_point_definition;
pub mod vector4_point_definition;

use crate::json::{has_prefix, starts_with, JsonValue, JsonView};
use vstd::prelude::*;

verus! {

/// The part of a keyframe that an element belongs to.
#[derive(Clone, Copy, PartialEq, Eq, Structural, Debug, Hash)]
pub enum GroupType {
    Value,
    Flag,
    Modifier,
}

/// The group of an element: arrays are modifiers; strings are flags unless
/// they begin with `base`, which makes them lookups; everything else, numbers
/// and lookups, is a value.
pub open spec fn group_of(v: JsonView) -> GroupType {
    match v {
        JsonView::Array(_) => GroupType::Modifier,
        JsonView::String(s) => if has_prefix(s, "base"@) {
            GroupType::Value
        } else {
            GroupType::Flag
        },
        _ => GroupType::Value,
    }
}

/// Those of the first `n` elements that belong to `group`, in their order.
pub open spec fn selected(items: Seq<JsonView>, n: nat, group: GroupType) -> Seq<JsonView>
    decreases n,
{
    if n == 0 || n > items.len() {
        Seq::empty()
    } else {
        let front = selected(items, (n - 1) as nat, group);
        if group_of(items[n - 1]) == group {
            front.push(items[n - 1])
        } else {
            front
        }
    }
}

/// The elements of an array; a node that is no array has none.
pub open spec fn elements(v: JsonView) -> Seq<JsonView> {
    match v {
        JsonView::Array(items) => items,
        _ => Seq::empty(),
    }
}

/// The members of one group of a keyframe, in their order.
pub open spec fn members(v: JsonView, group: GroupType) -> Seq<JsonView> {
    selected(elements(v), elements(v).len(), group)
}

/// A keyframe's groups: the non-empty ones among values, flags and modifiers,
/// in that order.
pub open spec fn grouped(v: JsonView) -> Seq<(GroupType, Seq<JsonView>)> {
    let values = members(v, GroupType::Value);
    let flags = members(v, GroupType::Flag);
    let modifiers = members(v, GroupType::Modifier);
    let a = if values.len() > 0 {
        seq![(GroupType::Value, values)]
    } else {
        Seq::empty()
    };
    let b = if flags.len() > 0 {
        a.push((GroupType::Flag, flags))
    } else {
        a
    };
    if modifiers.len() > 0 {
        b.push((GroupType::Modifier, modifiers))
    } else {
        b
    }
}

/// The views of a list of borrowed nodes.
pub open spec fn borrowed_views(items: Seq<&JsonValue>) -> Seq<JsonView> {
    Seq::new(items.len(), |i: int| items[i]@)
}

/// The group of an element.
pub fn classify(value: &JsonValue) -> (r: GroupType)
    ensures
        r == group_of(value@),
{
    match value {
        JsonValue::Array(_) => GroupType::Modifier,
        JsonValue::String(s) => if starts_with(s.as_str(), "base") {
            GroupType::Value
        } else {
            GroupType::Flag
        },
        _ => GroupType::Value,
    }
}

/// The members of one group of a keyframe, in their order. A node that is no
/// array has none.
pub fn group_members<'a>(value: &'a JsonValue, group: GroupType) -> (r: Vec<&'a JsonValue>)
    ensures
        borrowed_views(r@) == members(value@, group),
{
    let mut out: Vec<&'a JsonValue> = Vec::new();
    match value {
        JsonValue::Array(items) => {
            let mut i: usize = 0;
            while i < items.len()
                invariant
                    i <= items@.len(),
                    elements(value@).len() == items@.len(),
                    forall|k: int| 0 <= k < items@.len() ==> elements(value@)[k] == (#[trigger] items@[k])@,
                    borrowed_views(out@) == selected(elements(value@), i as nat, group),
                decreases items@.len() - i,
            {
                let item = &items[i];
                if classify(item) == group {
                    let ghost before = out@;
                    out.push(item);
                    assert(borrowed_views(out@) =~= borrowed_views(before).push(item@));
                }
                i += 1;
            }
        },
        _ => {
            assert(borrowed_views(out@) =~= Seq::<JsonView>::empty());
        },
    }
    out
}

/// Splits a keyframe into its groups, preserving order within each: values,
/// then flags, then modifiers, leaving out a group that has no member.
pub fn group_values<'a>(value: &'a JsonValue) -> (r: Vec<(GroupType, Vec<&'a JsonValue>)>)
    ensures
        r@.len() == grouped(value@).len(),
        forall|i: int|
            0 <= i < r@.len() ==> (#[trigger] r@[i]).0 == grouped(value@)[i].0 && borrowed_views(r@[i].1@)
                == grouped(value@)[i].1,
{
    let mut result: Vec<(GroupType, Vec<&'a JsonValue>)> = Vec::new();
    let values = group_members(value, GroupType::Value);
    let flags = group_members(value, GroupType::Flag);
    let modifiers = group_members(value, GroupType::Modifier);
    if values.len() > 0 {
        result.push((GroupType::Value, values));
    }
    if flags.len() > 0 {
        result.push((GroupType::Flag, flags));
    }
    if modifiers.len() > 0 {
        result.push((GroupType::Modifier, modifiers));
    }
    result
}

} // verus!
