//! Modifiers: a base value and a chain of children folded into it.
pub mod operation;

use crate::error::TracksError;
use crate::float_unit::{
    difference, is_unit, minus, model_of, over, plus, product, quotient, sum, times, Quad, Work,
};
use crate::modifiers::operation::Operation;
use crate::values::base_provider_context::BaseProviderContext;
use crate::values::smooth_rot::{euler_of, rotation_of, from_euler, to_euler};
use crate::values::value::{arity, value_of, BaseValue, Quat, Vec3, Vec4, WrapBaseValueType};
use crate::values::{ProviderView, ValueProvider};
use vstd::prelude::*;

verus! {

/// The case in which a modifier of case `kind` computes: rotations are
/// composed as Euler angles in degrees, a 3-vector.
pub open spec fn working_case(kind: WrapBaseValueType) -> WrapBaseValueType {
    match kind {
        WrapBaseValueType::Quat => WrapBaseValueType::Vec3,
        k => k,
    }
}

/// One number combined with another under a model; `Override` yields the second.
pub open spec fn applied(g: spec_fn(Work) -> Quad, op: Operation, a: u32, b: u32) -> u32 {
    match op {
        Operation::Override => b,
        Operation::Add => sum(g, a, b),
        Operation::Sub => difference(g, a, b),
        Operation::Mul => product(g, a, b),
        Operation::Div => quotient(g, a, b),
    }
}

/// Two values of one case combined number by number under a model. Values of
/// different cases leave the first as it is.
pub open spec fn combined(g: spec_fn(Work) -> Quad, op: Operation, a: BaseValue, b: BaseValue) -> BaseValue {
    match (a, b) {
        (BaseValue::Float(x), BaseValue::Float(y)) => BaseValue::Float(applied(g, op, x, y)),
        (BaseValue::Vector3(x), BaseValue::Vector3(y)) => BaseValue::Vector3(
            Vec3 { x: applied(g, op, x.x, y.x), y: applied(g, op, x.y, y.y), z: applied(g, op, x.z, y.z) },
        ),
        (BaseValue::Vector4(x), BaseValue::Vector4(y)) => BaseValue::Vector4(
            Vec4 {
                x: applied(g, op, x.x, y.x),
                y: applied(g, op, x.y, y.y),
                z: applied(g, op, x.z, y.z),
                w: applied(g, op, x.w, y.w),
            },
        ),
        (BaseValue::Quaternion(x), BaseValue::Quaternion(y)) => BaseValue::Quaternion(
            Quat {
                x: applied(g, op, x.x, y.x),
                y: applied(g, op, x.y, y.y),
                z: applied(g, op, x.z, y.z),
                w: applied(g, op, x.w, y.w),
            },
        ),
        _ => a,
    }
}

/// The reads of the first `n` providers, one after the other; the error of the
/// first that fails.
pub open spec fn gathered(ps: Seq<ProviderView>, n: nat, context: &BaseProviderContext) -> Result<
    Seq<u32>,
    TracksError,
>
    decreases n,
{
    if n == 0 {
        Ok(Seq::<u32>::empty())
    } else {
        match gathered(ps, (n - 1) as nat, context) {
            Err(e) => Err(e),
            Ok(front) => match ps[n - 1].read(context) {
                Err(e) => Err(e),
                Ok(v) => Ok(front + v),
            },
        }
    }
}

/// The value of case `case` that the first numbers of `s` make; an arity error
/// where `s` holds too few.
pub open spec fn leading(s: Seq<u32>, case: WrapBaseValueType) -> Result<BaseValue, TracksError> {
    if s.len() < arity(case) {
        Err(TracksError::ArityMismatch)
    } else {
        Ok(value_of(s.subrange(0, arity(case) as int)))
    }
}

/// One number combined with another; `Override` yields the second.
pub fn apply<F: Fn(Work) -> Quad>(unit: &F, op: Operation, a: u32, b: u32) -> (r: u32)
    requires
        is_unit(unit),
    ensures
        r == applied(model_of(unit), op, a, b),
{
    match op {
        Operation::Override => b,
        Operation::Add => plus(unit, a, b),
        Operation::Sub => minus(unit, a, b),
        Operation::Mul => times(unit, a, b),
        Operation::Div => over(unit, a, b),
    }
}

/// Two values of one case combined number by number. Values of different cases
/// leave the first as it is.
pub fn combine<F: Fn(Work) -> Quad>(unit: &F, op: Operation, a: BaseValue, b: BaseValue) -> (r: BaseValue)
    requires
        is_unit(unit),
    ensures
        r == combined(model_of(unit), op, a, b),
        r.case() == a.case(),
{
    match (a, b) {
        (BaseValue::Float(x), BaseValue::Float(y)) => BaseValue::Float(apply(unit, op, x, y)),
        (BaseValue::Vector3(x), BaseValue::Vector3(y)) => BaseValue::Vector3(
            Vec3 { x: apply(unit, op, x.x, y.x), y: apply(unit, op, x.y, y.y), z: apply(unit, op, x.z, y.z) },
        ),
        (BaseValue::Vector4(x), BaseValue::Vector4(y)) => BaseValue::Vector4(
            Vec4 {
                x: apply(unit, op, x.x, y.x),
                y: apply(unit, op, x.y, y.y),
                z: apply(unit, op, x.z, y.z),
                w: apply(unit, op, x.w, y.w),
            },
        ),
        (BaseValue::Quaternion(x), BaseValue::Quaternion(y)) => BaseValue::Quaternion(
            Quat {
                x: apply(unit, op, x.x, y.x),
                y: apply(unit, op, x.y, y.y),
                z: apply(unit, op, x.z, y.z),
                w: apply(unit, op, x.w, y.w),
            },
        ),
        _ => a,
    }
}

/// Reads every provider in order and joins what they yield.
pub fn gather(providers: &Vec<ValueProvider>, context: &BaseProviderContext) -> (r: Result<
    Vec<u32>,
    TracksError,
>)
    requires
        context.wf(),
    ensures
        crate::values::base::holds(r, gathered(provider_views(providers@), providers@.len(), context)),
{
    let mut out: Vec<u32> = Vec::new();
    let mut i: usize = 0;
    while i < providers.len()
        invariant
            context.wf(),
            i <= providers@.len(),
            gathered(provider_views(providers@), i as nat, context) == Ok::<Seq<u32>, TracksError>(out@),
        decreases providers@.len() - i,
    {
        match providers[i].values(context) {
            Err(e) => {
                proof {
                    failure_stays(provider_views(providers@), (i + 1) as nat, providers@.len(), context);
                }
                return Err(e);
            },
            Ok(v) => {
                let mut v = v;
                out.append(&mut v);
            },
        }
        i += 1;
    }
    Ok(out)
}

/// The views of a list of providers.
pub open spec fn provider_views(ps: Seq<ValueProvider>) -> Seq<ProviderView> {
    Seq::new(ps.len(), |i: int| ps[i]@)
}

/// The views of a list of modifiers.
pub open spec fn modifier_views(ms: Seq<Modifier>) -> Seq<ModifierView> {
    Seq::new(ms.len(), |i: int| ms[i]@)
}

/// Once the first `n` reads fail, so do the first `m` for every later `m`, with
/// the same error.
pub proof fn failure_stays(ps: Seq<ProviderView>, n: nat, m: nat, context: &BaseProviderContext)
    requires
        n <= m,
        gathered(ps, n, context) is Err,
    ensures
        gathered(ps, m, context) == gathered(ps, n, context),
    decreases m,
{
    if n < m {
        failure_stays(ps, n, (m - 1) as nat, context);
    }
}

/// Builds the value of case `case` from the first numbers of `numbers`.
pub fn lead(numbers: &Vec<u32>, case: WrapBaseValueType) -> (r: Result<BaseValue, TracksError>)
    ensures
        r == leading(numbers@, case),
        r is Ok && case != WrapBaseValueType::Quat ==> r->Ok_0.case() == case,
{
    let n: usize = case.count();
    if numbers.len() < n {
        return Err(TracksError::ArityMismatch);
    }
    let ghost s = numbers@.subrange(0, n as int);
    let r = if n == 1 {
        BaseValue::Float(numbers[0])
    } else if n == 3 {
        BaseValue::Vector3(Vec3 { x: numbers[0], y: numbers[1], z: numbers[2] })
    } else {
        BaseValue::Vector4(Vec4 { x: numbers[0], y: numbers[1], z: numbers[2], w: numbers[3] })
    };
    assert(r == value_of(s));
    Ok(r)
}

/// The base of a modifier: a constant, or providers read afresh on each
/// evaluation.
#[derive(Debug)]
pub enum ModifierValues {
    Static(BaseValue),
    Dynamic(Vec<ValueProvider>),
}

/// A base value of case `kind` and the children that are folded into it.
#[derive(Debug)]
pub struct Modifier {
    pub kind: WrapBaseValueType,
    pub values: ModifierValues,
    pub modifiers: Vec<Modifier>,
    pub operation: Operation,
}

/// The base of a modifier as mathematics.
pub enum ValuesView {
    Static(BaseValue),
    Dynamic(Seq<ProviderView>),
}

/// A modifier as mathematics.
pub struct ModifierView {
    pub kind: WrapBaseValueType,
    pub values: ValuesView,
    pub modifiers: Seq<ModifierView>,
    pub operation: Operation,
}

impl ModifierValues {
    /// The base as mathematics.
    pub open spec fn model(&self) -> ValuesView {
        match self {
            ModifierValues::Static(v) => ValuesView::Static(*v),
            ModifierValues::Dynamic(ps) => ValuesView::Dynamic(provider_views(ps@)),
        }
    }
}

impl Modifier {
    /// The modifier as mathematics.
    pub open spec fn model(&self) -> ModifierView
        decreases self,
    {
        ModifierView {
            kind: self.kind,
            values: self.values.model(),
            modifiers: Seq::new(
                self.modifiers@.len(),
                |i: int|
                    if 0 <= i < self.modifiers@.len() {
                        self.modifiers@[i].model()
                    } else {
                        arbitrary()
                    },
            ),
            operation: self.operation,
        }
    }
}

impl View for Modifier {
    type V = ModifierView;

    open spec fn view(&self) -> ModifierView {
        self.model()
    }
}

impl ValuesView {
    /// A constant base is of the working case, or a raw rotation under a
    /// rotation modifier; every provider of a dynamic base is well formed.
    pub open spec fn wf(self, kind: WrapBaseValueType) -> bool {
        match self {
            ValuesView::Static(v) => v.case() == working_case(kind) || (kind == WrapBaseValueType::Quat
                && v is Quaternion),
            ValuesView::Dynamic(ps) => forall|i: int| 0 <= i < ps.len() ==> (#[trigger] ps[i]).wf(),
        }
    }

    /// The base value in a context under a model, in the working case: the
    /// constant, a raw rotation as its Euler angles, or the leading numbers of
    /// what the providers yield.
    pub open spec fn base(
        self,
        kind: WrapBaseValueType,
        g: spec_fn(Work) -> Quad,
        context: &BaseProviderContext,
    ) -> Result<BaseValue, TracksError> {
        match self {
            ValuesView::Static(v) => match v {
                BaseValue::Quaternion(q) => if kind == WrapBaseValueType::Quat {
                    Ok(BaseValue::Vector3(euler_of(g, q)))
                } else {
                    Ok(v)
                },
                _ => Ok(v),
            },
            ValuesView::Dynamic(ps) => match gathered(ps, ps.len(), context) {
                Err(e) => Err(e),
                Ok(numbers) => leading(numbers, working_case(kind)),
            },
        }
    }
}

impl ModifierView {
    /// The base is well formed, and every child is a well-formed modifier of
    /// the same case.
    pub open spec fn wf(self) -> bool
        decreases self,
    {
        &&& self.values.wf(self.kind)
        &&& forall|i: int|
            0 <= i < self.modifiers.len() ==> {
                &&& (#[trigger] self.modifiers[i]).kind == self.kind
                &&& self.modifiers[i].wf()
            }
    }

    /// The base with the first `n` children folded in, left to right: each
    /// child's value is combined with the accumulated value by the child's
    /// operation, and `Override` replaces it. The first error ends the fold.
    pub open spec fn folded(
        self,
        n: nat,
        base: BaseValue,
        g: spec_fn(Work) -> Quad,
        context: &BaseProviderContext,
    ) -> Result<BaseValue, TracksError>
        decreases self, n,
    {
        if n == 0 || n > self.modifiers.len() {
            Ok(base)
        } else {
            match self.folded((n - 1) as nat, base, g, context) {
                Err(e) => Err(e),
                Ok(acc) => match self.modifiers[n - 1].value(g, context) {
                    Err(e) => Err(e),
                    Ok(v) => Ok(combined(g, self.modifiers[n - 1].operation, acc, v)),
                },
            }
        }
    }

    /// The value of the modifier in a context under a model, in the working
    /// case: the base with every child folded in.
    pub open spec fn value(self, g: spec_fn(Work) -> Quad, context: &BaseProviderContext) -> Result<
        BaseValue,
        TracksError,
    >
        decreases self, self.modifiers.len() + 1,
    {
        match self.values.base(self.kind, g, context) {
            Err(e) => Err(e),
            Ok(b) => self.folded(self.modifiers.len(), b, g, context),
        }
    }

    /// The value of the modifier in its own case: a rotation modifier turns its
    /// Euler angles into a rotation at the end.
    pub open spec fn point(self, g: spec_fn(Work) -> Quad, context: &BaseProviderContext) -> Result<
        BaseValue,
        TracksError,
    > {
        match self.value(g, context) {
            Err(e) => Err(e),
            Ok(v) => match v {
                BaseValue::Vector3(angles) => if self.kind == WrapBaseValueType::Quat {
                    Ok(BaseValue::Quaternion(rotation_of(g, angles)))
                } else {
                    Ok(v)
                },
                _ => Ok(v),
            },
        }
    }
}

/// Once the fold of the first `n` children fails, so does that of every later
/// count, with the same error.
pub proof fn fold_failure_stays(
    m: ModifierView,
    n: nat,
    later: nat,
    base: BaseValue,
    g: spec_fn(Work) -> Quad,
    context: &BaseProviderContext,
)
    requires
        n <= later <= m.modifiers.len(),
        m.folded(n, base, g, context) is Err,
    ensures
        m.folded(later, base, g, context) == m.folded(n, base, g, context),
    decreases later,
{
    if n < later {
        fold_failure_stays(m, n, (later - 1) as nat, base, g, context);
    }
}

impl Modifier {
    /// A modifier of case `kind`.
    pub fn new(kind: WrapBaseValueType, values: ModifierValues, modifiers: Vec<Modifier>, operation: Operation) -> (r:
        Self)
        ensures
            r.kind == kind,
            r.values == values,
            r.modifiers == modifiers,
            r.operation == operation,
    {
        Modifier { kind, values, modifiers, operation }
    }

    /// How the modifier combines with the value before it.
    pub fn get_operation(&self) -> (r: Operation)
        ensures
            r == self.operation,
    {
        self.operation
    }

    /// The base value in the working case: the constant, or the leading numbers
    /// of what the providers yield now.
    pub fn get_base<F: Fn(Work) -> Quad>(&self, context: &BaseProviderContext, unit: &F) -> (r: Result<
        BaseValue,
        TracksError,
    >)
        requires
            self@.wf(),
            context.wf(),
            is_unit(unit),
        ensures
            r == self@.values.base(self.kind, model_of(unit), context),
            r is Ok ==> r->Ok_0.case() == working_case(self.kind),
    {
        match &self.values {
            ModifierValues::Static(v) => match v {
                BaseValue::Quaternion(q) => match self.kind {
                    WrapBaseValueType::Quat => Ok(BaseValue::Vector3(to_euler(unit, *q))),
                    _ => Ok(*v),
                },
                _ => Ok(*v),
            },
            ModifierValues::Dynamic(ps) => match gather(ps, context) {
                Err(e) => Err(e),
                Ok(numbers) => {
                    let case = match self.kind {
                        WrapBaseValueType::Quat => WrapBaseValueType::Vec3,
                        k => k,
                    };
                    lead(&numbers, case)
                },
            },
        }
    }

    /// The value in the working case: the base with every child folded in, left
    /// to right. A rotation modifier yields Euler angles in degrees.
    pub fn get_value<F: Fn(Work) -> Quad>(&self, context: &BaseProviderContext, unit: &F) -> (r: Result<
        BaseValue,
        TracksError,
    >)
        requires
            self@.wf(),
            context.wf(),
            is_unit(unit),
        ensures
            r == self@.value(model_of(unit), context),
            r is Ok ==> r->Ok_0.case() == working_case(self.kind),
        decreases self,
    {
        let base = match self.get_base(context, unit) {
            Err(e) => {
                return Err(e);
            },
            Ok(b) => b,
        };
        let mut acc = base;
        let mut i: usize = 0;
        while i < self.modifiers.len()
            invariant
                self@.wf(),
                context.wf(),
                is_unit(unit),
                i <= self.modifiers@.len(),
                self@.modifiers.len() == self.modifiers@.len(),
                self@.values.base(self.kind, model_of(unit), context) == Ok::<BaseValue, TracksError>(base),
                self@.folded(i as nat, base, model_of(unit), context) == Ok::<BaseValue, TracksError>(acc),
                acc.case() == working_case(self.kind),
            decreases self.modifiers@.len() - i,
        {
            let child = &self.modifiers[i];
            assert(self@.modifiers[i as int] == child@);
            match child.get_value(context, unit) {
                Err(e) => {
                    proof {
                        fold_failure_stays(
                            self@,
                            (i + 1) as nat,
                            self.modifiers@.len(),
                            base,
                            model_of(unit),
                            context,
                        );
                    }
                    return Err(e);
                },
                Ok(v) => {
                    acc = combine(unit, child.operation, acc, v);
                },
            }
            i += 1;
        }
        Ok(acc)
    }

    /// The value in the modifier's own case. A rotation modifier composes in
    /// Euler angles and turns them into a rotation only here.
    pub fn get_point<F: Fn(Work) -> Quad>(&self, context: &BaseProviderContext, unit: &F) -> (r: Result<
        BaseValue,
        TracksError,
    >)
        requires
            self@.wf(),
            context.wf(),
            is_unit(unit),
        ensures
            r == self@.point(model_of(unit), context),
            r is Ok ==> r->Ok_0.case() == self.kind,
    {
        match self.get_value(context, unit) {
            Err(e) => Err(e),
            Ok(v) => match v {
                BaseValue::Vector3(angles) => match self.kind {
                    WrapBaseValueType::Quat => Ok(BaseValue::Quaternion(from_euler(unit, angles))),
                    _ => Ok(v),
                },
                _ => Ok(v),
            },
        }
    }
}

impl ValuesView {
    /// Whether one of the providers of the base reads the context.
    pub open spec fn has_base(self) -> bool {
        match self {
            ValuesView::Dynamic(ps) => exists|i: int| 0 <= i < ps.len() && (#[trigger] ps[i]).has_base(),
            _ => false,
        }
    }
}

impl ModifierView {
    /// Whether the modifier or one below it reads the context.
    pub open spec fn has_base(self) -> bool
        decreases self,
    {
        ||| self.values.has_base()
        ||| exists|i: int| 0 <= i < self.modifiers.len() && (#[trigger] self.modifiers[i]).has_base()
    }
}

impl Modifier {
    /// Whether the modifier or one below it reads the context.
    pub fn has_base_provider(&self) -> (r: bool)
        ensures
            r == self@.has_base(),
        decreases self,
    {
        match &self.values {
            ModifierValues::Dynamic(ps) => {
                let mut i: usize = 0;
                while i < ps.len()
                    invariant
                        i <= ps@.len(),
                        self.values == ModifierValues::Dynamic(*ps),
                        forall|k: int| 0 <= k < i ==> !(#[trigger] provider_views(ps@)[k]).has_base(),
                    decreases ps@.len() - i,
                {
                    assert(provider_views(ps@)[i as int] == ps@[i as int]@);
                    if ps[i].has_base_provider() {
                        assert(self@.values->Dynamic_0[i as int].has_base());
                        return true;
                    }
                    i += 1;
                }
                assert(self@.values == ValuesView::Dynamic(provider_views(ps@)));
            },
            _ => {},
        }
        assert(!self@.values.has_base());
        let mut i: usize = 0;
        while i < self.modifiers.len()
            invariant
                i <= self.modifiers@.len(),
                self@.modifiers.len() == self.modifiers@.len(),
                forall|k: int| 0 <= k < i ==> !(#[trigger] self@.modifiers[k]).has_base(),
                !self@.values.has_base(),
            decreases self.modifiers@.len() - i,
        {
            assert(self@.modifiers[i as int] == self.modifiers@[i as int]@);
            if self.modifiers[i].has_base_provider() {
                assert(0 <= i < self@.modifiers.len() && self@.modifiers[i as int].has_base());
                return true;
            }
            i += 1;
        }
        false
    }

    /// The scalar that a scalar modifier yields. A modifier of another case is
    /// refused.
    pub fn get_float<F: Fn(Work) -> Quad>(&self, context: &BaseProviderContext, unit: &F) -> (r: Result<
        u32,
        TracksError,
    >)
        requires
            self@.wf(),
            context.wf(),
            is_unit(unit),
        ensures
            self.kind != WrapBaseValueType::Float ==> r == Err::<u32, TracksError>(TracksError::WrongCase),
            self.kind == WrapBaseValueType::Float ==> match self@.point(model_of(unit), context) {
                Err(e) => r == Err::<u32, TracksError>(e),
                Ok(v) => v is Float && r == Ok::<u32, TracksError>(v->Float_0),
            },
    {
        match self.kind {
            WrapBaseValueType::Float => match self.get_point(context, unit) {
                Err(e) => Err(e),
                Ok(v) => match v {
                    BaseValue::Float(x) => Ok(x),
                    _ => Err(TracksError::WrongCase),
                },
            },
            _ => Err(TracksError::WrongCase),
        }
    }

    /// The 3-vector that a 3-vector modifier yields. A modifier of another case
    /// is refused.
    pub fn get_vector3<F: Fn(Work) -> Quad>(&self, context: &BaseProviderContext, unit: &F) -> (r: Result<
        Vec3,
        TracksError,
    >)
        requires
            self@.wf(),
            context.wf(),
            is_unit(unit),
        ensures
            self.kind != WrapBaseValueType::Vec3 ==> r == Err::<Vec3, TracksError>(TracksError::WrongCase),
            self.kind == WrapBaseValueType::Vec3 ==> match self@.point(model_of(unit), context) {
                Err(e) => r == Err::<Vec3, TracksError>(e),
                Ok(v) => v is Vector3 && r == Ok::<Vec3, TracksError>(v->Vector3_0),
            },
    {
        match self.kind {
            WrapBaseValueType::Vec3 => match self.get_point(context, unit) {
                Err(e) => Err(e),
                Ok(v) => match v {
                    BaseValue::Vector3(x) => Ok(x),
                    _ => Err(TracksError::WrongCase),
                },
            },
            _ => Err(TracksError::WrongCase),
        }
    }

    /// The 4-vector that a 4-vector modifier yields. A modifier of another case
    /// is refused.
    pub fn get_vector4<F: Fn(Work) -> Quad>(&self, context: &BaseProviderContext, unit: &F) -> (r: Result<
        Vec4,
        TracksError,
    >)
        requires
            self@.wf(),
            context.wf(),
            is_unit(unit),
        ensures
            self.kind != WrapBaseValueType::Vec4 ==> r == Err::<Vec4, TracksError>(TracksError::WrongCase),
            self.kind == WrapBaseValueType::Vec4 ==> match self@.point(model_of(unit), context) {
                Err(e) => r == Err::<Vec4, TracksError>(e),
                Ok(v) => v is Vector4 && r == Ok::<Vec4, TracksError>(v->Vector4_0),
            },
    {
        match self.kind {
            WrapBaseValueType::Vec4 => match self.get_point(context, unit) {
                Err(e) => Err(e),
                Ok(v) => match v {
                    BaseValue::Vector4(x) => Ok(x),
                    _ => Err(TracksError::WrongCase),
                },
            },
            _ => Err(TracksError::WrongCase),
        }
    }

    /// The rotation that a rotation modifier yields. A modifier of another case
    /// is refused.
    pub fn get_quaternion<F: Fn(Work) -> Quad>(&self, context: &BaseProviderContext, unit: &F) -> (r: Result<
        Quat,
        TracksError,
    >)
        requires
            self@.wf(),
            context.wf(),
            is_unit(unit),
        ensures
            self.kind != WrapBaseValueType::Quat ==> r == Err::<Quat, TracksError>(TracksError::WrongCase),
            self.kind == WrapBaseValueType::Quat ==> match self@.point(model_of(unit), context) {
                Err(e) => r == Err::<Quat, TracksError>(e),
                Ok(v) => v is Quaternion && r == Ok::<Quat, TracksError>(v->Quaternion_0),
            },
    {
        match self.kind {
            WrapBaseValueType::Quat => match self.get_point(context, unit) {
                Err(e) => Err(e),
                Ok(v) => match v {
                    BaseValue::Quaternion(x) => Ok(x),
                    _ => Err(TracksError::WrongCase),
                },
            },
            _ => Err(TracksError::WrongCase),
        }
    }

    /// The Euler angles, in degrees, in which a rotation modifier composes: its
    /// value before it is turned into a rotation. A modifier of another case is
    /// refused.
    pub fn get_vector_point<F: Fn(Work) -> Quad>(&self, context: &BaseProviderContext, unit: &F) -> (r: Result<
        Vec3,
        TracksError,
    >)
        requires
            self@.wf(),
            context.wf(),
            is_unit(unit),
        ensures
            self.kind != WrapBaseValueType::Quat ==> r == Err::<Vec3, TracksError>(TracksError::WrongCase),
            self.kind == WrapBaseValueType::Quat ==> match self@.value(model_of(unit), context) {
                Err(e) => r == Err::<Vec3, TracksError>(e),
                Ok(v) => v is Vector3 && r == Ok::<Vec3, TracksError>(v->Vector3_0),
            },
    {
        match self.kind {
            WrapBaseValueType::Quat => match self.get_value(context, unit) {
                Err(e) => Err(e),
                Ok(v) => match v {
                    BaseValue::Vector3(x) => Ok(x),
                    _ => Err(TracksError::WrongCase),
                },
            },
            _ => Err(TracksError::WrongCase),
        }
    }
}

/// The providers of a list, each advanced by `delta`.
pub open spec fn providers_advanced(
    ps: Seq<ProviderView>,
    g: spec_fn(Work) -> Quad,
    delta: u32,
    context: &BaseProviderContext,
) -> Seq<ProviderView> {
    Seq::new(ps.len(), |i: int| ps[i].advanced(g, delta, context))
}

/// Why the update of the first `n` providers of a list fails, if it does: the
/// failure of the first that fails.
pub open spec fn providers_failure(
    ps: Seq<ProviderView>,
    n: nat,
    g: spec_fn(Work) -> Quad,
    delta: u32,
    context: &BaseProviderContext,
) -> Option<TracksError>
    decreases n,
{
    if n == 0 || n > ps.len() {
        None
    } else {
        match providers_failure(ps, (n - 1) as nat, g, delta, context) {
            Some(e) => Some(e),
            None => ps[n - 1].failure(g, delta, context),
        }
    }
}

impl ModifierView {
    /// The modifier after one update by `delta`: every provider in it and
    /// below it advanced once.
    pub open spec fn advanced(self, g: spec_fn(Work) -> Quad, delta: u32, context: &BaseProviderContext) -> ModifierView
        decreases self,
    {
        ModifierView {
            kind: self.kind,
            values: match self.values {
                ValuesView::Static(v) => ValuesView::Static(v),
                ValuesView::Dynamic(ps) => ValuesView::Dynamic(providers_advanced(ps, g, delta, context)),
            },
            modifiers: Seq::new(
                self.modifiers.len(),
                |i: int|
                    if 0 <= i < self.modifiers.len() {
                        self.modifiers[i].advanced(g, delta, context)
                    } else {
                        arbitrary()
                    },
            ),
            operation: self.operation,
        }
    }

    /// Why the update of the first `n` children fails, if it does.
    pub open spec fn children_failure(
        self,
        n: nat,
        g: spec_fn(Work) -> Quad,
        delta: u32,
        context: &BaseProviderContext,
    ) -> Option<TracksError>
        decreases self, n,
    {
        if n == 0 || n > self.modifiers.len() {
            None
        } else {
            match self.children_failure((n - 1) as nat, g, delta, context) {
                Some(e) => Some(e),
                None => self.modifiers[n - 1].failure(g, delta, context),
            }
        }
    }

    /// Why an update of the modifier fails, if it does: the first failure among
    /// its own providers, else among its children, in their order.
    pub open spec fn failure(self, g: spec_fn(Work) -> Quad, delta: u32, context: &BaseProviderContext) -> Option<
        TracksError,
    >
        decreases self, self.modifiers.len() + 1,
    {
        let own = match self.values {
            ValuesView::Static(_) => None,
            ValuesView::Dynamic(ps) => providers_failure(ps, ps.len(), g, delta, context),
        };
        match own {
            Some(e) => Some(e),
            None => self.children_failure(self.modifiers.len(), g, delta, context),
        }
    }
}

/// Whether a result reports exactly the given failure: that error, or success
/// where there is none.
pub open spec fn reports(r: Result<(), TracksError>, failure: Option<TracksError>) -> bool {
    match failure {
        Some(e) => r == Err::<(), TracksError>(e),
        None => r is Ok,
    }
}

/// Advances every provider of a list by `delta`, each once, in order, and
/// reports the first failure.
pub fn update_all<F: Fn(Work) -> Quad>(
    providers: &mut Vec<ValueProvider>,
    delta: u32,
    context: &BaseProviderContext,
    unit: &F,
) -> (r: Result<(), TracksError>)
    requires
        forall|i: int| 0 <= i < old(providers)@.len() ==> (#[trigger] old(providers)@[i])@.wf(),
        context.wf(),
        is_unit(unit),
    ensures
        provider_views(final(providers)@) == providers_advanced(
            provider_views(old(providers)@),
            model_of(unit),
            delta,
            context,
        ),
        forall|i: int| 0 <= i < final(providers)@.len() ==> (#[trigger] final(providers)@[i])@.wf(),
        reports(
            r,
            providers_failure(
                provider_views(old(providers)@),
                old(providers)@.len(),
                model_of(unit),
                delta,
                context,
            ),
        ),
{
    let ghost before = provider_views(providers@);
    let mut first: Result<(), TracksError> = Ok(());
    let mut i: usize = 0;
    while i < providers.len()
        invariant
            context.wf(),
            is_unit(unit),
            i <= providers@.len(),
            providers@.len() == old(providers)@.len(),
            before == provider_views(old(providers)@),
            forall|k: int|
                0 <= k < i ==> (#[trigger] providers@[k])@ == old(providers)@[k]@.advanced(
                    model_of(unit),
                    delta,
                    context,
                ),
            forall|k: int| i <= k < providers@.len() ==> (#[trigger] providers@[k]) == old(providers)@[k],
            forall|k: int| 0 <= k < providers@.len() ==> (#[trigger] providers@[k])@.wf(),
            reports(first, providers_failure(before, i as nat, model_of(unit), delta, context)),
        decreases providers@.len() - i,
    {
        assert(before[i as int] == providers@[i as int]@);
        let r = providers[i].update(delta, context, unit);
        match first {
            Ok(()) => {
                first = r;
            },
            Err(_) => {},
        }
        i += 1;
    }
    assert(provider_views(providers@) =~= providers_advanced(before, model_of(unit), delta, context));
    first
}

impl Modifier {
    /// Advances every provider of the modifier and of the modifiers below it by
    /// `delta`, each exactly once: its own providers in order, then its
    /// children in order. Reports the first failure; the others are advanced
    /// all the same.
    pub fn update<F: Fn(Work) -> Quad>(&mut self, delta: u32, context: &BaseProviderContext, unit: &F) -> (r: Result<
        (),
        TracksError,
    >)
        requires
            old(self)@.wf(),
            context.wf(),
            is_unit(unit),
        ensures
            final(self)@ == old(self)@.advanced(model_of(unit), delta, context),
            final(self)@.wf(),
            reports(r, old(self)@.failure(model_of(unit), delta, context)),
        decreases *old(self),
    {
        let ghost before = self@;
        proof {
            assert forall|k: int| 0 <= k < self.modifiers@.len() implies (#[trigger] self.modifiers@[k]).kind
                == self.kind && self.modifiers@[k]@.wf() by {
                assert(before.modifiers[k] == self.modifiers@[k]@);
            }
            match &self.values {
                ModifierValues::Dynamic(ps) => {
                    assert forall|k: int| 0 <= k < ps@.len() implies (#[trigger] ps@[k])@.wf() by {
                        assert(provider_views(ps@)[k] == ps@[k]@);
                    }
                },
                _ => {},
            }
        }
        let mut first: Result<(), TracksError> = match &mut self.values {
            ModifierValues::Dynamic(ps) => update_all(ps, delta, context, unit),
            _ => Ok(()),
        };
        assert(self@.values == before.advanced(model_of(unit), delta, context).values);
        let ghost own = first;
        let mut i: usize = 0;
        while i < self.modifiers.len()
            invariant
                context.wf(),
                is_unit(unit),
                before == old(self)@,
                before.wf(),
                i <= self.modifiers@.len(),
                self.modifiers@.len() == old(self).modifiers@.len(),
                self.kind == old(self).kind,
                self.operation == old(self).operation,
                self@.values == before.advanced(model_of(unit), delta, context).values,
                self@.values.wf(self.kind),
                forall|k: int|
                    0 <= k < i ==> (#[trigger] self.modifiers@[k])@ == before.modifiers[k].advanced(
                        model_of(unit),
                        delta,
                        context,
                    ),
                forall|k: int| i <= k < self.modifiers@.len() ==> (#[trigger] self.modifiers@[k]) == old(
                    self,
                ).modifiers@[k],
                forall|k: int|
                    0 <= k < self.modifiers@.len() ==> (#[trigger] self.modifiers@[k]).kind == self.kind
                        && self.modifiers@[k]@.wf(),
                match before.values {
                    ValuesView::Static(_) => own is Ok,
                    ValuesView::Dynamic(ps) => reports(
                        own,
                        providers_failure(ps, ps.len(), model_of(unit), delta, context),
                    ),
                },
                match own {
                    Err(e) => first == own,
                    Ok(_) => reports(first, before.children_failure(i as nat, model_of(unit), delta, context)),
                },
            decreases self.modifiers@.len() - i,
        {
            assert(before.modifiers[i as int] == old(self).modifiers@[i as int]@);
            let r = self.modifiers[i].update(delta, context, unit);
            match first {
                Ok(()) => {
                    first = r;
                },
                Err(_) => {},
            }
            i += 1;
        }
        assert(self@.modifiers =~= before.advanced(model_of(unit), delta, context).modifiers);
        first
    }
}

} // verus!
