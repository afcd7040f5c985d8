//! The external context: a fixed table of named host values.
use crate::error::TracksError;
use crate::modifiers::operation::same_text;
use crate::number::ONE;
use crate::values::value::{BaseValue, Quat, Vec3, Vec4, WrapBaseValueType};
use vstd::prelude::*;

verus! {

/// How many slots the context has.
pub const SLOT_COUNT: usize = 36;

/// The slot that a name stands for: ten scores, eleven colours, fifteen
/// transforms. `None` for any other text.
pub open spec fn slot_named(s: Seq<char>) -> Option<int> {
    if s == "baseCombo"@ {
        Some(0int)
    } else if s == "baseMultipliedScore"@ {
        Some(1int)
    } else if s == "baseImmediateMaxPossibleMultipliedScore"@ {
        Some(2int)
    } else if s == "baseModifiedScore"@ {
        Some(3int)
    } else if s == "baseImmediateMaxPossibleModifiedScore"@ {
        Some(4int)
    } else if s == "baseRelativeScore"@ {
        Some(5int)
    } else if s == "baseMultiplier"@ {
        Some(6int)
    } else if s == "baseEnergy"@ {
        Some(7int)
    } else if s == "baseSongTime"@ {
        Some(8int)
    } else if s == "baseSongLength"@ {
        Some(9int)
    } else if s == "baseEnvironmentColor0"@ {
        Some(10int)
    } else if s == "baseEnvironmentColor0Boost"@ {
        Some(11int)
    } else if s == "baseEnvironmentColor1"@ {
        Some(12int)
    } else if s == "baseEnvironmentColor1Boost"@ {
        Some(13int)
    } else if s == "baseEnvironmentColorW"@ {
        Some(14int)
    } else if s == "baseEnvironmentColorWBoost"@ {
        Some(15int)
    } else if s == "baseNote0Color"@ {
        Some(16int)
    } else if s == "baseNote1Color"@ {
        Some(17int)
    } else if s == "baseObstaclesColor"@ {
        Some(18int)
    } else if s == "baseSaberAColor"@ {
        Some(19int)
    } else if s == "baseSaberBColor"@ {
        Some(20int)
    } else if s == "baseHeadLocalPosition"@ {
        Some(21int)
    } else if s == "baseHeadLocalRotation"@ {
        Some(22int)
    } else if s == "baseHeadLocalScale"@ {
        Some(23int)
    } else if s == "baseHeadPosition"@ {
        Some(24int)
    } else if s == "baseHeadRotation"@ {
        Some(25int)
    } else if s == "baseLeftHandLocalPosition"@ {
        Some(26int)
    } else if s == "baseLeftHandLocalRotation"@ {
        Some(27int)
    } else if s == "baseLeftHandLocalScale"@ {
        Some(28int)
    } else if s == "baseLeftHandPosition"@ {
        Some(29int)
    } else if s == "baseLeftHandRotation"@ {
        Some(30int)
    } else if s == "baseRightHandLocalPosition"@ {
        Some(31int)
    } else if s == "baseRightHandLocalRotation"@ {
        Some(32int)
    } else if s == "baseRightHandLocalScale"@ {
        Some(33int)
    } else if s == "baseRightHandPosition"@ {
        Some(34int)
    } else if s == "baseRightHandRotation"@ {
        Some(35int)
    } else {
        None
    }
}

/// Whether the slot holds a rotation.
pub open spec fn is_rotation_slot(i: int) -> bool {
    i == 22 || i == 25 || i == 27 || i == 30 || i == 32 || i == 35
}

/// Whether the slot holds a scale.
pub open spec fn is_scale_slot(i: int) -> bool {
    i == 23 || i == 28 || i == 33
}

/// The case of each slot: scores are scalars, colours 4-vectors, positions and
/// scales 3-vectors, rotations quaternions.
pub open spec fn slot_case(i: int) -> WrapBaseValueType {
    if i < 10 {
        WrapBaseValueType::Float
    } else if i < 21 {
        WrapBaseValueType::Vec4
    } else if is_rotation_slot(i) {
        WrapBaseValueType::Quat
    } else {
        WrapBaseValueType::Vec3
    }
}

/// What each slot holds in a new context: zero, but the identity for a rotation
/// and one in each axis for a scale.
pub open spec fn initial_value(i: int) -> BaseValue {
    if i < 10 {
        BaseValue::Float(0)
    } else if i < 21 {
        BaseValue::Vector4(Vec4 { x: 0, y: 0, z: 0, w: 0 })
    } else if is_rotation_slot(i) {
        BaseValue::Quaternion(Quat { x: 0, y: 0, z: 0, w: ONE })
    } else if is_scale_slot(i) {
        BaseValue::Vector3(Vec3 { x: ONE, y: ONE, z: ONE })
    } else {
        BaseValue::Vector3(Vec3 { x: 0, y: 0, z: 0 })
    }
}

/// The slot that `name` stands for.
pub fn slot_index(name: &str) -> (r: Option<usize>)
    ensures
        match slot_named(name@) {
            Some(i) => r == Some(i as usize) && 0 <= i < SLOT_COUNT,
            None => r is None,
        },
{
    if same_text(name, "baseCombo") {
        Some(0)
    } else if same_text(name, "baseMultipliedScore") {
        Some(1)
    } else if same_text(name, "baseImmediateMaxPossibleMultipliedScore") {
        Some(2)
    } else if same_text(name, "baseModifiedScore") {
        Some(3)
    } else if same_text(name, "baseImmediateMaxPossibleModifiedScore") {
        Some(4)
    } else if same_text(name, "baseRelativeScore") {
        Some(5)
    } else if same_text(name, "baseMultiplier") {
        Some(6)
    } else if same_text(name, "baseEnergy") {
        Some(7)
    } else if same_text(name, "baseSongTime") {
        Some(8)
    } else if same_text(name, "baseSongLength") {
        Some(9)
    } else if same_text(name, "baseEnvironmentColor0") {
        Some(10)
    } else if same_text(name, "baseEnvironmentColor0Boost") {
        Some(11)
    } else if same_text(name, "baseEnvironmentColor1") {
        Some(12)
    } else if same_text(name, "baseEnvironmentColor1Boost") {
        Some(13)
    } else if same_text(name, "baseEnvironmentColorW") {
        Some(14)
    } else if same_text(name, "baseEnvironmentColorWBoost") {
        Some(15)
    } else if same_text(name, "baseNote0Color") {
        Some(16)
    } else if same_text(name, "baseNote1Color") {
        Some(17)
    } else if same_text(name, "baseObstaclesColor") {
        Some(18)
    } else if same_text(name, "baseSaberAColor") {
        Some(19)
    } else if same_text(name, "baseSaberBColor") {
        Some(20)
    } else if same_text(name, "baseHeadLocalPosition") {
        Some(21)
    } else if same_text(name, "baseHeadLocalRotation") {
        Some(22)
    } else if same_text(name, "baseHeadLocalScale") {
        Some(23)
    } else if same_text(name, "baseHeadPosition") {
        Some(24)
    } else if same_text(name, "baseHeadRotation") {
        Some(25)
    } else if same_text(name, "baseLeftHandLocalPosition") {
        Some(26)
    } else if same_text(name, "baseLeftHandLocalRotation") {
        Some(27)
    } else if same_text(name, "baseLeftHandLocalScale") {
        Some(28)
    } else if same_text(name, "baseLeftHandPosition") {
        Some(29)
    } else if same_text(name, "baseLeftHandRotation") {
        Some(30)
    } else if same_text(name, "baseRightHandLocalPosition") {
        Some(31)
    } else if same_text(name, "baseRightHandLocalRotation") {
        Some(32)
    } else if same_text(name, "baseRightHandLocalScale") {
        Some(33)
    } else if same_text(name, "baseRightHandPosition") {
        Some(34)
    } else if same_text(name, "baseRightHandRotation") {
        Some(35)
    } else {
        None
    }
}

fn initial(i: usize) -> (r: BaseValue)
    requires
        i < SLOT_COUNT,
    ensures
        r == initial_value(i as int),
        r.case() == slot_case(i as int),
{
    if i < 10 {
        BaseValue::Float(0)
    } else if i < 21 {
        BaseValue::Vector4(Vec4 { x: 0, y: 0, z: 0, w: 0 })
    } else if i == 22 || i == 25 || i == 27 || i == 30 || i == 32 || i == 35 {
        BaseValue::Quaternion(Quat { x: 0, y: 0, z: 0, w: ONE })
    } else if i == 23 || i == 28 || i == 33 {
        BaseValue::Vector3(Vec3 { x: ONE, y: ONE, z: ONE })
    } else {
        BaseValue::Vector3(Vec3 { x: 0, y: 0, z: 0 })
    }
}

/// The external context. Each slot holds one value of the slot's case.
#[derive(Clone, Debug)]
pub struct BaseProviderContext {
    values: Vec<BaseValue>,
}

impl View for BaseProviderContext {
    type V = Seq<BaseValue>;

    closed spec fn view(&self) -> Seq<BaseValue> {
        self.values@
    }
}

impl BaseProviderContext {
    /// Every slot is there and holds a value of its case.
    pub open spec fn wf(&self) -> bool {
        &&& self@.len() == SLOT_COUNT
        &&& forall|i: int| 0 <= i < SLOT_COUNT ==> (#[trigger] self@[i]).case() == slot_case(i)
    }

    /// What a read of `name` yields.
    pub open spec fn lookup(&self, name: Seq<char>) -> Result<BaseValue, TracksError> {
        match slot_named(name) {
            Some(i) => Ok(self@[i]),
            None => Err(TracksError::UnknownSlot),
        }
    }

    /// A context with every slot at its initial value.
    pub fn new() -> (r: Self)
        ensures
            r.wf(),
            forall|i: int| 0 <= i < SLOT_COUNT ==> r@[i] == initial_value(i),
    {
        let mut values: Vec<BaseValue> = Vec::new();
        let mut i: usize = 0;
        while i < SLOT_COUNT
            invariant
                i <= SLOT_COUNT,
                values@.len() == i,
                forall|k: int| 0 <= k < i ==> values@[k] == initial_value(k),
                forall|k: int| 0 <= k < i ==> (#[trigger] values@[k]).case() == slot_case(k),
            decreases SLOT_COUNT - i,
        {
            values.push(initial(i));
            i += 1;
        }
        BaseProviderContext { values }
    }

    /// Reads the slot `base`. An unrecognised name is an error, never a default.
    pub fn get_values(&self, base: &str) -> (r: Result<BaseValue, TracksError>)
        requires
            self.wf(),
        ensures
            r == self.lookup(base@),
            r is Err <==> slot_named(base@) is None,
            r is Ok ==> r->Ok_0.case() == slot_case(slot_named(base@)->Some_0),
    {
        match slot_index(base) {
            Some(i) => Ok(self.values[i]),
            None => Err(TracksError::UnknownSlot),
        }
    }

    /// Writes `values` to the slot `base`. An unrecognised name, or a value that
    /// is not of the slot's case, is an error and leaves the context as it was.
    pub fn set_values(&mut self, base: &str, values: BaseValue) -> (r: Result<(), TracksError>)
        requires
            old(self).wf(),
        ensures
            final(self).wf(),
            match slot_named(base@) {
                None => r == Err::<(), TracksError>(TracksError::UnknownSlot) && final(self)@ == old(self)@,
                Some(i) => if values.case() == slot_case(i) {
                    r == Ok::<(), TracksError>(()) && final(self)@ == old(self)@.update(i, values)
                } else {
                    r == Err::<(), TracksError>(TracksError::WrongCase) && final(self)@ == old(self)@
                },
            },
    {
        match slot_index(base) {
            None => Err(TracksError::UnknownSlot),
            Some(i) => {
                if values.ty() == self.values[i].ty() {
                    self.values.set(i, values);
                    Ok(())
                } else {
                    Err(TracksError::WrongCase)
                }
            },
        }
    }
}

} // verus!
