//! What holds of every curve, modifier and context.
use crate::error::TracksError;
use crate::float_unit::{difference, eased, product, quotient, Quad, Work};
use crate::modifiers::operation::Operation;
use crate::modifiers::{combined, ModifierView};
use crate::number::{at_most, is_nan, is_zero, less, ONE, ZERO};
use crate::json::JsonView;
use crate::point_definition::base_point_definition::{
    normal_time, searched, spline, DefinitionView,
};
use crate::point_definition::{group_of, selected, GroupType};
use crate::values::deserialize::{providers_of, scanned};
use crate::values::base::head_of;
use crate::values::base_provider_context::{slot_named, BaseProviderContext};
use crate::values::smooth::{approached, step_weight, SmoothProvidersValues};
use crate::values::value::{blended, BaseValue};
use crate::values::ProviderView;
use vstd::prelude::*;

verus! {

/// No time is a NaN and each time is below the next.
pub open spec fn increasing(times: Seq<u32>) -> bool {
    &&& forall|i: int| 0 <= i < times.len() ==> !is_nan(#[trigger] times[i])
    &&& forall|i: int, j: int| 0 <= i < j < times.len() ==> less(#[trigger] times[i], #[trigger] times[j])
}

/// At or before the first time, a query that has not reached the last time
/// yields the first keyframe, and not as final.
pub proof fn law_before_first(d: DefinitionView, time: u32, g: spec_fn(Work) -> Quad, context: &BaseProviderContext)
    requires
        d.points.len() > 0,
        at_most(time, d.points[0].time),
        !at_most(d.points[d.points.len() - 1].time, time),
    ensures
        d.interpolated(time, g, context) == d.at_keyframe(0, false, g, context),
{
}

/// At or after the last time, a query yields the last keyframe, as final.
pub proof fn law_after_last(d: DefinitionView, time: u32, g: spec_fn(Work) -> Quad, context: &BaseProviderContext)
    requires
        d.points.len() > 0,
        at_most(d.points[d.points.len() - 1].time, time),
    ensures
        d.interpolated(time, g, context) == d.at_keyframe(d.points.len() - 1, true, g, context),
{
}

/// Two queries at one time, of one curve in one context with one float unit,
/// yield the same: a query changes nothing, and its result is a function of
/// the curve, the time, the context and the unit.
pub proof fn law_repeatable(
    d: DefinitionView,
    time: u32,
    g: spec_fn(Work) -> Quad,
    context: &BaseProviderContext,
    first: Result<(BaseValue, bool), TracksError>,
    second: Result<(BaseValue, bool), TracksError>,
)
    requires
        first == d.interpolated(time, g, context),
        second == d.interpolated(time, g, context),
    ensures
        first == second,
{
}

/// The search keeps the query between its ends: the time at the left end is
/// below the query, and the time at the right end is not.
pub proof fn law_search_brackets(times: Seq<u32>, time: u32, l: int, r: int)
    requires
        0 <= l < r <= times.len(),
        less(times[l], time),
        r < times.len() ==> !less(times[r], time),
    ensures
        less(times[searched(times, time, l, r).0], time),
        searched(times, time, l, r).1 < times.len() ==> !less(times[searched(times, time, l, r).1], time),
        searched(times, time, l, r).1 == searched(times, time, l, r).0 + 1,
        l <= searched(times, time, l, r).0,
        searched(times, time, l, r).1 <= r,
    decreases r - l,
{
    if l + 1 < r {
        let m = (l + r) / 2;
        if less(times[m], time) {
            law_search_brackets(times, time, m, r);
        } else {
            law_search_brackets(times, time, l, m);
        }
    }
}

/// On increasing times, for a query above the first time and not above the
/// last, the search ends on the smallest index whose time is not below the
/// query, and on the index before it.
pub proof fn law_search_finds_smallest(times: Seq<u32>, time: u32)
    requires
        times.len() >= 2,
        increasing(times),
        less(times[0], time),
        !less(times[times.len() - 1], time),
    ensures
        ({
            let (l, r) = searched(times, time, 0, times.len() as int);
            &&& 0 <= l
            &&& r == l + 1
            &&& r < times.len()
            &&& !less(times[r], time)
            &&& forall|k: int| 0 <= k < r ==> less(#[trigger] times[k], time)
        }),
{
    let n = times.len() as int;
    let (l, r) = searched(times, time, 0, n);
    law_search_brackets(times, time, 0, n);
    if r == n {
        assert(l == n - 1);
        assert(less(times[n - 1], time));
    }
    assert forall|k: int| 0 <= k < r implies less(#[trigger] times[k], time) by {
        if k < l {
            assert(less(times[k], times[l]));
        }
    }
}

/// On increasing times, a query at the time of the first keyframe yields that
/// keyframe, and one at the time of the last yields the last, as final.
pub proof fn law_endpoints_exact(d: DefinitionView, g: spec_fn(Work) -> Quad, context: &BaseProviderContext)
    requires
        d.points.len() > 0,
        increasing(d.times()),
    ensures
        d.interpolated(d.points[d.points.len() - 1].time, g, context) == d.at_keyframe(
            d.points.len() - 1,
            true,
            g,
            context,
        ),
        d.points.len() >= 2 ==> d.interpolated(d.points[0].time, g, context) == d.at_keyframe(
            0,
            false,
            g,
            context,
        ),
{
    let n = d.points.len() as int;
    assert(d.times()[n - 1] == d.points[n - 1].time);
    assert(d.times()[0] == d.points[0].time);
    if n >= 2 {
        assert(less(d.times()[0], d.times()[n - 1]));
    }
}

/// On increasing times, a query at the time of an inner keyframe `i` blends
/// keyframes `i - 1` and `i` at the eased end of their segment.
pub proof fn law_inner_keyframe_segment(
    d: DefinitionView,
    i: int,
    g: spec_fn(Work) -> Quad,
    context: &BaseProviderContext,
)
    requires
        increasing(d.times()),
        0 < i < d.points.len() - 1,
    ensures
        d.interpolated(d.points[i].time, g, context) == match d.segment(
            i - 1,
            i,
            eased(g, d.points[i].easing, normal_time(g, d.points[i - 1].time, d.points[i].time, d.points[i].time)),
            g,
            context,
        ) {
            Err(e) => Err::<(BaseValue, bool), TracksError>(e),
            Ok(v) => Ok((v, false)),
        },
{
    let n = d.points.len() as int;
    let times = d.times();
    let time = d.points[i].time;
    assert(times[i] == time);
    assert(times[0] == d.points[0].time);
    assert(times[n - 1] == d.points[n - 1].time);
    assert(times[i - 1] == d.points[i - 1].time);
    assert(less(times[0], times[i]));
    assert(less(times[i], times[n - 1]));
    law_search_finds_smallest(times, time);
    let (l, r) = searched(times, time, 0, n);
    if r < i {
        assert(less(times[r], times[i]));
    }
    if r > i {
        assert(less(times[i], time));
    }
    assert(r == i);
}

/// Endpoint exactness for an inner keyframe: on increasing times, with a float
/// unit that divides a number by itself to one, eases one to one and blends
/// at weight one to the right value, a query at the time of keyframe `i`
/// yields that keyframe's value where the segment blends linearly.
pub proof fn law_inner_keyframe_exact(
    d: DefinitionView,
    i: int,
    g: spec_fn(Work) -> Quad,
    context: &BaseProviderContext,
)
    requires
        increasing(d.times()),
        0 < i < d.points.len() - 1,
        !d.points[i].smooth,
        !d.points[i].hsv_lerp,
        d.point(i - 1, g, context) is Ok,
        d.point(i, g, context) is Ok,
        ({
            let length = difference(g, d.points[i].time, d.points[i - 1].time);
            !is_zero(length) && quotient(g, length, length) == ONE
        }),
        eased(g, d.points[i].easing, ONE) == ONE,
        blended(g, d.point(i - 1, g, context)->Ok_0, d.point(i, g, context)->Ok_0, ONE) == d.point(
            i,
            g,
            context,
        )->Ok_0,
    ensures
        d.interpolated(d.points[i].time, g, context) == d.at_keyframe(i, false, g, context),
{
    law_inner_keyframe_segment(d, i, g, context);
}

/// On a curve of two keyframes the spline has no keyframe before or after the
/// segment: its outer control points are the two keyframes themselves.
pub proof fn law_two_keyframe_spline(d: DefinitionView, t: u32, g: spec_fn(Work) -> Quad, context: &BaseProviderContext)
    requires
        d.points.len() == 2,
        d.points[1].smooth,
        d.point(0, g, context) is Ok,
        d.point(1, g, context) is Ok,
        d.point(0, g, context)->Ok_0 is Vector3,
        d.point(1, g, context)->Ok_0 is Vector3,
    ensures
        d.segment(0, 1, t, g, context) == Ok::<BaseValue, TracksError>(
            BaseValue::Vector3(
                spline(
                    g,
                    d.point(0, g, context)->Ok_0->Vector3_0,
                    d.point(0, g, context)->Ok_0->Vector3_0,
                    d.point(1, g, context)->Ok_0->Vector3_0,
                    d.point(1, g, context)->Ok_0->Vector3_0,
                    t,
                ),
            ),
        ),
{
}

/// A modifier with one child yields its base combined with the child's value
/// by the child's operation.
pub proof fn law_single_child(m: ModifierView, g: spec_fn(Work) -> Quad, context: &BaseProviderContext)
    requires
        m.modifiers.len() == 1,
        m.values.base(m.kind, g, context) is Ok,
        m.modifiers[0].value(g, context) is Ok,
    ensures
        m.value(g, context) == Ok::<BaseValue, TracksError>(
            combined(
                g,
                m.modifiers[0].operation,
                m.values.base(m.kind, g, context)->Ok_0,
                m.modifiers[0].value(g, context)->Ok_0,
            ),
        ),
{
    let b = m.values.base(m.kind, g, context)->Ok_0;
    assert(m.folded(0, b, g, context) == Ok::<BaseValue, TracksError>(b));
    assert(m.folded(1, b, g, context) == Ok::<BaseValue, TracksError>(
        combined(g, m.modifiers[0].operation, b, m.modifiers[0].value(g, context)->Ok_0),
    ));
}

/// An overriding child discards what came before it: the combination is
/// exactly the child's value.
pub proof fn law_override_discards(g: spec_fn(Work) -> Quad, before: BaseValue, child: BaseValue)
    requires
        before.case() == child.case(),
    ensures
        combined(g, Operation::Override, before, child) == child,
{
}

/// A read of a name that is none of the context's slots fails, whatever the
/// context holds: it never yields a default.
pub proof fn law_unknown_slot_fails(context: &BaseProviderContext, name: Seq<char>)
    requires
        slot_named(name) is None,
    ensures
        context.lookup(name) == Err::<BaseValue, TracksError>(TracksError::UnknownSlot),
{
}

/// A lookup provider whose name stands for no slot fails with that error on
/// every read.
pub proof fn law_unknown_lookup_fails(context: &BaseProviderContext, name: Seq<char>)
    requires
        slot_named(head_of(name)) is None,
    ensures
        ProviderView::BaseProvider(name).read(context) == Err::<Seq<u32>, TracksError>(
            TracksError::UnknownSlot,
        ),
{
}

/// The weight of a smoothing step lies between 0 and 1 unless the product of
/// elapsed time and rate is a NaN; a product above 1 gives weight 1, so the
/// step cannot pass the target by weight.
pub proof fn law_step_weight_bounded(g: spec_fn(Work) -> Quad, delta: u32, mult: u32)
    ensures
        !is_nan(product(g, delta, mult)) ==> at_most(ZERO, step_weight(g, delta, mult)) && at_most(
            step_weight(g, delta, mult),
            ONE,
        ),
        less(ONE, product(g, delta, mult)) ==> step_weight(g, delta, mult) == ONE,
        less(product(g, delta, mult), ZERO) ==> step_weight(g, delta, mult) == ZERO,
{
}

/// With a large step the cache moves by weight 1 on every update: under a
/// float unit that blends at weight 1 to the target, the cache is the target
/// after one update and stays there.
pub proof fn law_large_step_reaches_target(
    s: SmoothProvidersValues,
    g: spec_fn(Work) -> Quad,
    delta: u32,
)
    requires
        less(ONE, product(g, delta, s.mult)),
        approached(g, s.values, s.source, ONE) == s.source,
        approached(g, s.source, s.source, ONE) == s.source,
    ensures
        s.advanced(g, delta).values == s.source,
        s.advanced(g, delta).advanced(g, delta).values == s.source,
{
}

/// Grouping is a partition: each of the first `n` elements of a keyframe is in
/// exactly one of the three groups.
pub proof fn law_groups_partition(items: Seq<JsonView>, n: nat)
    requires
        n <= items.len(),
    ensures
        selected(items, n, GroupType::Value).len() + selected(items, n, GroupType::Flag).len() + selected(
            items,
            n,
            GroupType::Modifier,
        ).len() == n,
    decreases n,
{
    if n > 0 {
        law_groups_partition(items, (n - 1) as nat);
    }
}

/// Every member of a group is of that group: a value group holds no array and
/// no flag, a flag group only strings, a modifier group only arrays.
pub proof fn law_groups_sort(items: Seq<JsonView>, n: nat, group: GroupType, k: int)
    requires
        n <= items.len(),
        0 <= k < selected(items, n, group).len(),
    ensures
        group_of(selected(items, n, group)[k]) == group,
    decreases n,
{
    if n > 0 {
        let front = selected(items, (n - 1) as nat, group);
        if k < front.len() {
            law_groups_sort(items, (n - 1) as nat, group, k);
        }
    }
}

/// A value group without a lookup compiles to one constant provider, and an
/// empty one to none.
pub proof fn law_numbers_make_one_provider(items: Seq<JsonView>)
    requires
        forall|i: int| 0 <= i < items.len() ==> !((#[trigger] items[i]) is String),
    ensures
        items.len() == 0 ==> providers_of(items).len() == 0,
        items.len() > 0 ==> providers_of(items).len() == 1 && providers_of(items)[0] is Static,
{
    numbers_stay_open(items, items.len());
}

/// While no lookup has come, no provider is closed, and a run is open as soon
/// as one element has been read.
proof fn numbers_stay_open(items: Seq<JsonView>, n: nat)
    requires
        n <= items.len(),
        forall|i: int| 0 <= i < items.len() ==> !((#[trigger] items[i]) is String),
    ensures
        scanned(items, n).closed.len() == 0,
        scanned(items, n).open == (n > 0),
    decreases n,
{
    if n > 0 {
        numbers_stay_open(items, (n - 1) as nat);
    }
}

} // verus!
