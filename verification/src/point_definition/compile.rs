//! The compiler: from the text of a definition to its keyframes.
use crate::easings::functions::{easing_named, Functions};
use crate::error::TracksError;
use crate::json::{has_prefix, starts_with, JsonValue, JsonView};
use crate::modifiers::operation::{operation_named, same_text, Operation};
use crate::modifiers::{
    gather, gathered, modifier_views, provider_views, working_case, Modifier, ModifierValues,
    ModifierView, ValuesView,
};
use crate::point_data::{point_views, PointData, PointDataView};
use crate::values::base_provider_context::BaseProviderContext;
use crate::values::value::{arity, value_of, BaseValue, Quat, WrapBaseValueType};
use crate::point_definition::{borrowed_views, elements, group_members, members, GroupType};
use crate::values::deserialize::{deserialize_values, providers_of};
use crate::values::{ProviderView, ValueProvider};
use vstd::prelude::*;

verus! {

/// The numbers of a provider list that is one constant provider.
pub open spec fn lone_static(ps: Seq<ProviderView>) -> Option<Seq<u32>> {
    if ps.len() == 1 {
        match ps[0] {
            ProviderView::Static(v) => Some(v),
            _ => None,
        }
    } else {
        None
    }
}

/// A dynamic base, accepted only if the providers yield exactly as many
/// numbers in the context as the case needs.
pub open spec fn counted(kind: WrapBaseValueType, ps: Seq<ProviderView>, context: &BaseProviderContext) -> Result<
    ValuesView,
    TracksError,
> {
    match gathered(ps, ps.len(), context) {
        Err(e) => Err(e),
        Ok(all) => if all.len() == arity(working_case(kind)) {
            Ok(ValuesView::Dynamic(ps))
        } else {
            Err(TracksError::ArityMismatch)
        },
    }
}

/// The base of a child modifier. One constant provider of exactly the needed
/// numbers is a constant; for a rotation the needed numbers are three Euler
/// angles, and four numbers are a raw rotation. Anything else is dynamic and
/// must yield exactly the needed numbers.
pub open spec fn modifier_base(kind: WrapBaseValueType, ps: Seq<ProviderView>, context: &BaseProviderContext) -> Result<
    ValuesView,
    TracksError,
> {
    match lone_static(ps) {
        Some(v) => if v.len() == arity(working_case(kind)) {
            Ok(ValuesView::Static(value_of(v)))
        } else if kind == WrapBaseValueType::Quat && v.len() == 4 {
            Ok(ValuesView::Static(BaseValue::Quaternion(Quat { x: v[0], y: v[1], z: v[2], w: v[3] })))
        } else {
            counted(kind, ps, context)
        },
        None => counted(kind, ps, context),
    }
}

/// The last number of a sequence, or zero.
pub open spec fn last_or_zero(s: Seq<u32>) -> u32 {
    if s.len() > 0 {
        s.last()
    } else {
        0
    }
}

/// The time that a dynamic keyframe takes from the context when it is built:
/// the last number of its last provider, or zero.
pub open spec fn trailing_time(ps: Seq<ProviderView>, context: &BaseProviderContext) -> u32 {
    if ps.len() == 0 {
        0
    } else {
        match ps.last().read(context) {
            Ok(v) => last_or_zero(v),
            Err(_) => 0,
        }
    }
}

/// The base and the time of a keyframe. The last number is the time and the
/// numbers before it the value. A scalar keyframe of one constant provider
/// takes its first number as value and zero where it has none. Keyframes of
/// the other cases take a constant only from exactly the needed numbers and
/// the time; with another count the keyframe is dynamic at time zero. A
/// keyframe of several providers is dynamic and reads its time from the
/// context as it is built.
pub open spec fn keyframe_base(kind: WrapBaseValueType, ps: Seq<ProviderView>, context: &BaseProviderContext) -> Result<
    (ValuesView, u32),
    TracksError,
> {
    let n = arity(working_case(kind)) as int;
    match lone_static(ps) {
        Some(v) => if kind == WrapBaseValueType::Float {
            Ok(
                (
                    ValuesView::Static(
                        BaseValue::Float(
                            if v.len() >= 2 {
                                v[0]
                            } else {
                                0
                            },
                        ),
                    ),
                    last_or_zero(v),
                ),
            )
        } else if v.len() == n + 1 {
            Ok((ValuesView::Static(value_of(v.subrange(0, n))), v[n]))
        } else if kind == WrapBaseValueType::Quat && v.len() == 5 {
            Ok((ValuesView::Static(BaseValue::Quaternion(Quat { x: v[0], y: v[1], z: v[2], w: v[3] })), v[4]))
        } else {
            Ok((ValuesView::Dynamic(ps), 0))
        },
        None => if ps.len() == 1 && kind != WrapBaseValueType::Float {
            Ok((ValuesView::Dynamic(ps), 0))
        } else {
            match gathered(ps, ps.len(), context) {
                Err(e) => Err(e),
                Ok(_) => Ok((ValuesView::Dynamic(ps), trailing_time(ps, context))),
            }
        },
    }
}

/// Whether one of the flags is `name`.
pub open spec fn has_flag(flags: Seq<JsonView>, name: Seq<char>) -> bool {
    exists|i: int| 0 <= i < flags.len() && flags[i] == JsonView::String(name)
}

/// The easing that the flags from `i` on select: that of the first flag that
/// begins with `ease`, linear where that flag names no curve or no flag begins
/// so.
pub open spec fn easing_from(flags: Seq<JsonView>, i: nat) -> Functions
    decreases flags.len() - i,
{
    if i >= flags.len() {
        Functions::EaseLinear
    } else {
        match flags[i as int] {
            JsonView::String(s) => if has_prefix(s, "ease"@) {
                match easing_named(s) {
                    Some(f) => f,
                    None => Functions::EaseLinear,
                }
            } else {
                easing_from(flags, i + 1)
            },
            _ => easing_from(flags, i + 1),
        }
    }
}

/// The operation that the flags of a modifier select: that of the first flag;
/// override where there is none.
pub open spec fn operation_of(flags: Seq<JsonView>) -> Operation {
    if flags.len() > 0 {
        match flags[0] {
            JsonView::String(s) => operation_named(s),
            _ => Operation::Override,
        }
    } else {
        Operation::Override
    }
}

/// Whether one of the flags is `name`.
pub fn flagged(flags: &Vec<&JsonValue>, name: &str) -> (r: bool)
    ensures
        r == has_flag(borrowed_views(flags@), name@),
{
    let ghost views = borrowed_views(flags@);
    let mut i: usize = 0;
    while i < flags.len()
        invariant
            i <= flags@.len(),
            views == borrowed_views(flags@),
            forall|k: int| 0 <= k < i ==> views[k] != JsonView::String(name@),
        decreases flags@.len() - i,
    {
        let flag: &JsonValue = flags[i];
        assert(views[i as int] == flag@);
        match flag {
            JsonValue::String(s) => {
                if same_text(s.as_str(), name) {
                    return true;
                }
            },
            _ => {},
        }
        i += 1;
    }
    false
}

/// The easing that the flags select.
pub fn select_easing(flags: &Vec<&JsonValue>) -> (r: Functions)
    ensures
        r == easing_from(borrowed_views(flags@), 0),
{
    let ghost views = borrowed_views(flags@);
    let mut i: usize = 0;
    while i < flags.len()
        invariant
            i <= flags@.len(),
            views == borrowed_views(flags@),
            easing_from(views, 0) == easing_from(views, i as nat),
        decreases flags@.len() - i,
    {
        let flag: &JsonValue = flags[i];
        assert(views[i as int] == flag@);
        match flag {
            JsonValue::String(s) => {
                if starts_with(s.as_str(), "ease") {
                    return Functions::from_flag(s.as_str());
                }
            },
            _ => {},
        }
        i += 1;
    }
    Functions::EaseLinear
}

/// The operation that the flags of a modifier select.
pub fn select_operation(flags: &Vec<&JsonValue>) -> (r: Operation)
    ensures
        r == operation_of(borrowed_views(flags@)),
{
    if flags.len() > 0 {
        let flag: &JsonValue = flags[0];
        assert(borrowed_views(flags@)[0] == flag@);
        match flag {
            JsonValue::String(s) => Operation::from_str(s.as_str()),
            _ => Operation::Override,
        }
    } else {
        Operation::Override
    }
}

/// The numbers of a provider list that is one constant provider.
fn lone_numbers(values: &Vec<ValueProvider>) -> (r: Option<Vec<u32>>)
    ensures
        match lone_static(provider_views(values@)) {
            Some(v) => r is Some && r->Some_0@ == v,
            None => r is None,
        },
{
    if values.len() == 1 {
        match &values[0] {
            ValueProvider::Static(s) => Some(s.values()),
            _ => None,
        }
    } else {
        None
    }
}

/// A dynamic base of `values`, accepted only if the providers yield exactly
/// as many numbers in the context as the case needs.
fn count_checked(kind: WrapBaseValueType, values: Vec<ValueProvider>, context: &BaseProviderContext) -> (r: Result<
    ModifierValues,
    TracksError,
>)
    requires
        context.wf(),
    ensures
        match counted(kind, provider_views(values@), context) {
            Err(e) => r is Err && r->Err_0 == e,
            Ok(b) => r is Ok && r->Ok_0.model() == b,
        },
{
    let needed: usize = match kind {
        WrapBaseValueType::Quat => 3,
        k => k.count(),
    };
    match gather(&values, context) {
        Err(e) => Err(e),
        Ok(all) => if all.len() == needed {
            Ok(ModifierValues::Dynamic(values))
        } else {
            Err(TracksError::ArityMismatch)
        },
    }
}

/// Builds a child modifier of case `kind`. One constant provider of exactly
/// the needed numbers makes a constant base. Otherwise the providers must
/// yield exactly the needed numbers in the context, or the modifier is refused
/// with an arity error; a lookup of an unknown name is refused as such.
pub fn create_modifier(
    kind: WrapBaseValueType,
    values: Vec<ValueProvider>,
    modifiers: Vec<Modifier>,
    operation: Operation,
    context: &BaseProviderContext,
) -> (r: Result<Modifier, TracksError>)
    requires
        context.wf(),
        forall|i: int| 0 <= i < values@.len() ==> (#[trigger] values@[i]@).wf(),
        forall|i: int| 0 <= i < modifiers@.len() ==> (#[trigger] modifiers@[i]).kind == kind && modifiers@[i]@.wf(),
    ensures
        match modifier_base(kind, provider_views(values@), context) {
            Err(e) => r is Err && r->Err_0 == e,
            Ok(b) => r is Ok && r->Ok_0@ == (ModifierView {
                kind,
                values: b,
                modifiers: modifier_views(modifiers@),
                operation,
            }) && r->Ok_0@.wf(),
        },
{
    let needed: usize = match kind {
        WrapBaseValueType::Quat => 3,
        k => k.count(),
    };
    let base = match lone_numbers(&values) {
        Some(v) => if v.len() == needed {
            ModifierValues::Static(BaseValue::from_vec(v))
        } else if v.len() == 4 && kind == WrapBaseValueType::Quat {
            ModifierValues::Static(BaseValue::Quaternion(Quat { x: v[0], y: v[1], z: v[2], w: v[3] }))
        } else {
            match count_checked(kind, values, context) {
                Err(e) => {
                    return Err(e);
                },
                Ok(b) => b,
            }
        },
        None => match count_checked(kind, values, context) {
            Err(e) => {
                return Err(e);
            },
            Ok(b) => b,
        },
    };
    let ghost children = modifier_views(modifiers@);
    let r = Modifier { kind, values: base, modifiers, operation };
    assert(r@.modifiers =~= children);
    Ok(r)
}

/// The last number of a list, or zero.
fn last_number(v: &Vec<u32>) -> (r: u32)
    ensures
        r == last_or_zero(v@),
{
    if v.len() > 0 {
        v[v.len() - 1]
    } else {
        0
    }
}

/// The time that a dynamic keyframe takes from the context: the last number
/// of its last provider, or zero.
fn read_trailing_time(values: &Vec<ValueProvider>, context: &BaseProviderContext) -> (r: u32)
    requires
        context.wf(),
    ensures
        r == trailing_time(provider_views(values@), context),
{
    if values.len() == 0 {
        0
    } else {
        match values[values.len() - 1].values(context) {
            Ok(v) => last_number(&v),
            Err(_) => 0,
        }
    }
}

/// Builds a keyframe of case `kind` from the providers of its value group,
/// its flags, its child modifiers and its easing. The last number is the
/// time. A count of numbers that does not fit is not refused: the keyframe is
/// then dynamic and evaluation decides. Only a lookup of an unknown name,
/// where the context is read, is refused.
pub fn create_point_data(
    kind: WrapBaseValueType,
    values: Vec<ValueProvider>,
    flags: &Vec<&JsonValue>,
    modifiers: Vec<Modifier>,
    easing: Functions,
    context: &BaseProviderContext,
) -> (r: Result<PointData, TracksError>)
    requires
        context.wf(),
        forall|i: int| 0 <= i < values@.len() ==> (#[trigger] values@[i]@).wf(),
        forall|i: int| 0 <= i < modifiers@.len() ==> (#[trigger] modifiers@[i]).kind == kind && modifiers@[i]@.wf(),
    ensures
        match keyframe_base(kind, provider_views(values@), context) {
            Err(e) => r is Err && r->Err_0 == e,
            Ok(b) => r is Ok && r->Ok_0@ == (PointDataView {
                time: b.1,
                modifier: ModifierView {
                    kind,
                    values: b.0,
                    modifiers: modifier_views(modifiers@),
                    operation: Operation::Override,
                },
                easing,
                smooth: kind == WrapBaseValueType::Vec3 && has_flag(
                    borrowed_views(flags@),
                    "splineCatmullRom"@,
                ),
                hsv_lerp: kind == WrapBaseValueType::Vec4 && has_flag(
                    borrowed_views(flags@),
                    "lerpHSV"@,
                ),
            }) && r->Ok_0@.modifier.wf(),
        },
{
    let needed: usize = match kind {
        WrapBaseValueType::Quat => 3,
        k => k.count(),
    };
    let smooth = kind == WrapBaseValueType::Vec3 && flagged(flags, "splineCatmullRom");
    let hsv_lerp = kind == WrapBaseValueType::Vec4 && flagged(flags, "lerpHSV");
    let ghost ps = provider_views(values@);
    let (base, time) = match lone_numbers(&values) {
        Some(v) => if kind == WrapBaseValueType::Float {
            let value: u32 = if v.len() >= 2 {
                v[0]
            } else {
                0
            };
            (ModifierValues::Static(BaseValue::Float(value)), last_number(&v))
        } else if v.len() == needed + 1 {
            let time: u32 = v[needed];
            let mut front = v;
            front.truncate(needed);
            assert(front@ =~= v@.subrange(0, needed as int));
            (ModifierValues::Static(BaseValue::from_vec(front)), time)
        } else if v.len() == 5 && kind == WrapBaseValueType::Quat {
            (ModifierValues::Static(BaseValue::Quaternion(Quat { x: v[0], y: v[1], z: v[2], w: v[3] })), v[4])
        } else {
            (ModifierValues::Dynamic(values), 0)
        },
        None => if values.len() == 1 && kind != WrapBaseValueType::Float {
            (ModifierValues::Dynamic(values), 0)
        } else {
            match gather(&values, context) {
                Err(e) => {
                    return Err(e);
                },
                Ok(_) => {
                    let time: u32 = read_trailing_time(&values, context);
                    (ModifierValues::Dynamic(values), time)
                },
            }
        },
    };
    let ghost children = modifier_views(modifiers@);
    let modifier = Modifier { kind, values: base, modifiers, operation: Operation::Override };
    assert(modifier@.modifiers =~= children);
    Ok(PointData { time, modifier, easing, smooth, hsv_lerp })
}

/// The child modifiers that the first `n` elements of a node hold: each array
/// among them compiled in its order. The first that fails ends the list.
pub open spec fn children_upto(kind: WrapBaseValueType, v: JsonView, n: nat, context: &BaseProviderContext) -> Result<
    Seq<ModifierView>,
    TracksError,
>
    decreases v, n,
{
    match v {
        JsonView::Array(items) => if n == 0 || n > items.len() {
            Ok(Seq::empty())
        } else {
            match children_upto(kind, v, (n - 1) as nat, context) {
                Err(e) => Err(e),
                Ok(front) => match items[n - 1] {
                    JsonView::Array(_) => match modifier_of(kind, items[n - 1], context) {
                        Err(e) => Err(e),
                        Ok(m) => Ok(front.push(m)),
                    },
                    _ => Ok(front),
                },
            }
        },
        _ => Ok(Seq::empty()),
    }
}

/// The modifier that a node compiles to. Its children come first; then it
/// needs a value group, without which the text is malformed; its base is that
/// of its providers and its operation that of its first flag.
pub open spec fn modifier_of(kind: WrapBaseValueType, v: JsonView, context: &BaseProviderContext) -> Result<
    ModifierView,
    TracksError,
>
    decreases v, elements(v).len() + 1,
{
    match children_upto(kind, v, elements(v).len(), context) {
        Err(e) => Err(e),
        Ok(children) => if members(v, GroupType::Value).len() == 0 {
            Err(TracksError::Configuration)
        } else {
            match modifier_base(kind, providers_of(members(v, GroupType::Value)), context) {
                Err(e) => Err(e),
                Ok(b) => Ok(
                    ModifierView {
                        kind,
                        values: b,
                        modifiers: children,
                        operation: operation_of(members(v, GroupType::Flag)),
                    },
                ),
            }
        },
    }
}

/// The keyframe that a node compiles to, if any. Its children come first; a
/// node without a value group, such as a null, yields no keyframe.
pub open spec fn keyframe_of(kind: WrapBaseValueType, v: JsonView, context: &BaseProviderContext) -> Result<
    Option<PointDataView>,
    TracksError,
> {
    match children_upto(kind, v, elements(v).len(), context) {
        Err(e) => Err(e),
        Ok(children) => if members(v, GroupType::Value).len() == 0 {
            Ok(None)
        } else {
            match keyframe_base(kind, providers_of(members(v, GroupType::Value)), context) {
                Err(e) => Err(e),
                Ok(b) => Ok(
                    Some(
                        PointDataView {
                            time: b.1,
                            modifier: ModifierView {
                                kind,
                                values: b.0,
                                modifiers: children,
                                operation: Operation::Override,
                            },
                            easing: easing_from(members(v, GroupType::Flag), 0),
                            smooth: kind == WrapBaseValueType::Vec3 && has_flag(
                                members(v, GroupType::Flag),
                                "splineCatmullRom"@,
                            ),
                            hsv_lerp: kind == WrapBaseValueType::Vec4 && has_flag(
                                members(v, GroupType::Flag),
                                "lerpHSV"@,
                            ),
                        },
                    ),
                ),
            }
        },
    }
}

/// The keyframes of the first `n` nodes of a list, in their order. The first
/// node that fails ends the list.
pub open spec fn keyframes_upto(
    kind: WrapBaseValueType,
    items: Seq<JsonView>,
    n: nat,
    context: &BaseProviderContext,
) -> Result<Seq<PointDataView>, TracksError>
    decreases n,
{
    if n == 0 || n > items.len() {
        Ok(Seq::empty())
    } else {
        match keyframes_upto(kind, items, (n - 1) as nat, context) {
            Err(e) => Err(e),
            Ok(front) => match keyframe_of(kind, items[n - 1], context) {
                Err(e) => Err(e),
                Ok(None) => Ok(front),
                Ok(Some(p)) => Ok(front.push(p)),
            },
        }
    }
}

/// The keyframes of a definition. The text is an array; it is a list of
/// keyframes where its first element is an array, and one keyframe where it
/// is not. Any other text, the empty array too, is malformed.
pub open spec fn parsed(kind: WrapBaseValueType, v: JsonView, context: &BaseProviderContext) -> Result<
    Seq<PointDataView>,
    TracksError,
> {
    match v {
        JsonView::Array(items) => if items.len() == 0 {
            Err(TracksError::Configuration)
        } else if items[0] is Array {
            keyframes_upto(kind, items, items.len(), context)
        } else {
            match keyframe_of(kind, v, context) {
                Err(e) => Err(e),
                Ok(None) => Ok(Seq::empty()),
                Ok(Some(p)) => Ok(seq![p]),
            }
        },
        _ => Err(TracksError::Configuration),
    }
}

/// Once the children of the first `n` elements fail, so do those of every
/// later count, with the same error.
pub proof fn children_failure_stays(
    kind: WrapBaseValueType,
    v: JsonView,
    n: nat,
    later: nat,
    context: &BaseProviderContext,
)
    requires
        n <= later <= elements(v).len(),
        children_upto(kind, v, n, context) is Err,
    ensures
        children_upto(kind, v, later, context) == children_upto(kind, v, n, context),
    decreases later,
{
    if n < later {
        children_failure_stays(kind, v, n, (later - 1) as nat, context);
    }
}

/// Once the keyframes of the first `n` nodes fail, so do those of every later
/// count, with the same error.
pub proof fn keyframes_failure_stays(
    kind: WrapBaseValueType,
    items: Seq<JsonView>,
    n: nat,
    later: nat,
    context: &BaseProviderContext,
)
    requires
        n <= later <= items.len(),
        keyframes_upto(kind, items, n, context) is Err,
    ensures
        keyframes_upto(kind, items, later, context) == keyframes_upto(kind, items, n, context),
    decreases later,
{
    if n < later {
        keyframes_failure_stays(kind, items, n, (later - 1) as nat, context);
    }
}

/// Compiles the child modifiers of a node: each array among its elements, in
/// their order.
pub fn deserialize_children(kind: WrapBaseValueType, value: &JsonValue, context: &BaseProviderContext) -> (r: Result<
    Vec<Modifier>,
    TracksError,
>)
    requires
        context.wf(),
    ensures
        match children_upto(kind, value@, elements(value@).len(), context) {
            Err(e) => r is Err && r->Err_0 == e,
            Ok(children) => r is Ok && modifier_views(r->Ok_0@) == children && forall|i: int|
                0 <= i < r->Ok_0@.len() ==> (#[trigger] r->Ok_0@[i]).kind == kind && r->Ok_0@[i]@.wf(),
        },
    decreases value, 0nat,
{
    let mut out: Vec<Modifier> = Vec::new();
    match value {
        JsonValue::Array(items) => {
            let mut i: usize = 0;
            assert(modifier_views(out@) =~= Seq::<ModifierView>::empty());
            while i < items.len()
                invariant
                    context.wf(),
                    *value == JsonValue::Array(*items),
                    i <= items@.len(),
                    elements(value@).len() == items@.len(),
                    forall|k: int| 0 <= k < items@.len() ==> elements(value@)[k] == (#[trigger] items@[k])@,
                    children_upto(kind, value@, i as nat, context) == Ok::<Seq<ModifierView>, TracksError>(
                        modifier_views(out@),
                    ),
                    forall|k: int| 0 <= k < out@.len() ==> (#[trigger] out@[k]).kind == kind && out@[k]@.wf(),
                decreases items@.len() - i,
            {
                let item = &items[i];
                match item {
                    JsonValue::Array(_) => {
                        match deserialize_modifier(kind, item, context) {
                            Err(e) => {
                                proof {
                                    children_failure_stays(
                                        kind,
                                        value@,
                                        (i + 1) as nat,
                                        items@.len(),
                                        context,
                                    );
                                }
                                return Err(e);
                            },
                            Ok(m) => {
                                let ghost before = out@;
                                let ghost added = m@;
                                assert(added.wf() && m.kind == kind);
                                out.push(m);
                                assert(modifier_views(out@) =~= modifier_views(before).push(added));
                                assert forall|k: int| 0 <= k < out@.len() implies (#[trigger] out@[k]).kind
                                    == kind && out@[k]@.wf() by {
                                    if k < before.len() {
                                        assert(out@[k] == before[k]);
                                    }
                                }
                            },
                        }
                    },
                    _ => {},
                }
                i += 1;
            }
        },
        _ => {
            assert(modifier_views(out@) =~= Seq::<ModifierView>::empty());
        },
    }
    Ok(out)
}

/// Compiles one child modifier: its children, its value group, its operation
/// flag. A modifier without a value group is malformed; one whose numbers are
/// not as many as the case needs is refused with an arity error.
pub fn deserialize_modifier(kind: WrapBaseValueType, list: &JsonValue, context: &BaseProviderContext) -> (r: Result<
    Modifier,
    TracksError,
>)
    requires
        context.wf(),
    ensures
        match modifier_of(kind, list@, context) {
            Err(e) => r is Err && r->Err_0 == e,
            Ok(m) => r is Ok && r->Ok_0@ == m && m.wf() && r->Ok_0.kind == kind,
        },
    decreases list, 1nat,
{
    let children = match deserialize_children(kind, list, context) {
        Err(e) => {
            return Err(e);
        },
        Ok(c) => c,
    };
    let value_group = group_members(list, GroupType::Value);
    if value_group.len() == 0 {
        return Err(TracksError::Configuration);
    }
    let values = deserialize_values(&value_group);
    let flags = group_members(list, GroupType::Flag);
    let operation = select_operation(&flags);
    create_modifier(kind, values, children, operation, context)
}

/// Compiles one keyframe. A node without a value group yields none.
pub fn deserialize_point(kind: WrapBaseValueType, raw_point: &JsonValue, context: &BaseProviderContext) -> (r: Result<
    Option<PointData>,
    TracksError,
>)
    requires
        context.wf(),
    ensures
        match keyframe_of(kind, raw_point@, context) {
            Err(e) => r is Err && r->Err_0 == e,
            Ok(None) => r is Ok && r->Ok_0 is None,
            Ok(Some(p)) => r is Ok && r->Ok_0 is Some && r->Ok_0->Some_0@ == p && p.modifier.wf()
                && p.modifier.kind == kind,
        },
{
    let children = match deserialize_children(kind, raw_point, context) {
        Err(e) => {
            return Err(e);
        },
        Ok(c) => c,
    };
    let value_group = group_members(raw_point, GroupType::Value);
    if value_group.len() == 0 {
        return Ok(None);
    }
    let values = deserialize_values(&value_group);
    let flags = group_members(raw_point, GroupType::Flag);
    let easing = select_easing(&flags);
    match create_point_data(kind, values, &flags, children, easing, context) {
        Err(e) => Err(e),
        Ok(p) => Ok(Some(p)),
    }
}

/// Compiles a definition of case `kind` into its keyframes, in the order of
/// the text.
pub fn parse(kind: WrapBaseValueType, value: &JsonValue, context: &BaseProviderContext) -> (r: Result<
    Vec<PointData>,
    TracksError,
>)
    requires
        context.wf(),
    ensures
        match parsed(kind, value@, context) {
            Err(e) => r is Err && r->Err_0 == e,
            Ok(points) => r is Ok && point_views(r->Ok_0@) == points && forall|i: int|
                0 <= i < points.len() ==> (#[trigger] points[i]).modifier.wf() && points[i].modifier.kind == kind,
        },
{
    let mut out: Vec<PointData> = Vec::new();
    match value {
        JsonValue::Array(items) => {
            if items.len() == 0 {
                return Err(TracksError::Configuration);
            }
            let nested = match &items[0] {
                JsonValue::Array(_) => true,
                _ => false,
            };
            assert(elements(value@)[0] == items@[0]@);
            if nested {
                let mut i: usize = 0;
                assert(point_views(out@) =~= Seq::<PointDataView>::empty());
                assert(parsed(kind, value@, context) == keyframes_upto(
                    kind,
                    elements(value@),
                    elements(value@).len(),
                    context,
                ));
                while i < items.len()
                    invariant
                        context.wf(),
                        parsed(kind, value@, context) == keyframes_upto(
                            kind,
                            elements(value@),
                            elements(value@).len(),
                            context,
                        ),
                        i <= items@.len(),
                        elements(value@).len() == items@.len(),
                        forall|k: int| 0 <= k < items@.len() ==> elements(value@)[k] == (#[trigger] items@[k])@,
                        keyframes_upto(kind, elements(value@), i as nat, context) == Ok::<
                            Seq<PointDataView>,
                            TracksError,
                        >(point_views(out@)),
                        forall|k: int|
                            0 <= k < out@.len() ==> (#[trigger] out@[k]).modifier.kind == kind
                                && out@[k]@.modifier.wf(),
                    decreases items@.len() - i,
                {
                    match deserialize_point(kind, &items[i], context) {
                        Err(e) => {
                            proof {
                                keyframes_failure_stays(
                                    kind,
                                    elements(value@),
                                    (i + 1) as nat,
                                    items@.len(),
                                    context,
                                );
                            }
                            return Err(e);
                        },
                        Ok(None) => {},
                        Ok(Some(p)) => {
                            let ghost before = out@;
                            let ghost added = p@;
                            out.push(p);
                            assert(point_views(out@) =~= point_views(
                                before,
                            ).push(added));
                            assert forall|k: int| 0 <= k < out@.len() implies (#[trigger] out@[k]).modifier.kind
                                == kind && out@[k]@.modifier.wf() by {
                                if k < before.len() {
                                    assert(out@[k] == before[k]);
                                }
                            }
                        },
                    }
                    i += 1;
                }
                Ok(out)
            } else {
                match deserialize_point(kind, value, context) {
                    Err(e) => Err(e),
                    Ok(None) => {
                        assert(point_views(out@) =~= Seq::<PointDataView>::empty());
                        Ok(out)
                    },
                    Ok(Some(p)) => {
                        out.push(p);
                        assert(point_views(out@) =~= seq![p@]);
                        Ok(out)
                    },
                }
            }
        },
        _ => Err(TracksError::Configuration),
    }
}

} // verus!
