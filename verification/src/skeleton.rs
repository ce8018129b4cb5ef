//! The humanoid bones of a VRM avatar, found by name in its bone table.

use vstd::prelude::*;

verus! {

/// One entry of a VRM humanoid's bone list: a bone name and the index of
/// the glTF node that carries it.
pub struct HumanBone {
    pub bone: String,
    pub node: usize,
}

pub struct HumanBoneView {
    pub bone: Seq<char>,
    pub node: usize,
}

impl View for HumanBone {
    type V = HumanBoneView;

    open spec fn view(&self) -> HumanBoneView {
        HumanBoneView { bone: self.bone@, node: self.node }
    }
}

/// The bone list of a VRM humanoid, in document order.
pub struct BoneTable {
    pub bones: Vec<HumanBone>,
}

impl View for BoneTable {
    type V = Seq<HumanBoneView>;

    open spec fn view(&self) -> Seq<HumanBoneView> {
        self.bones@.map_values(|b: HumanBone| b@)
    }
}

/// Why an avatar could not be rigged.
pub enum VrmError {
    /// The model has no VRM extension.
    MissingVrmExtension,
    /// A bone the rig needs is missing, or its node cannot be a model node.
    MissingBone(String),
}

/// The node of the first entry named `name`, if there is one.
pub open spec fn first_bone_node(t: Seq<HumanBoneView>, name: Seq<char>) -> Option<usize>
    decreases t.len(),
{
    if t.len() == 0 {
        None
    } else if t[0].bone == name {
        Some(t[0].node)
    } else {
        first_bone_node(t.drop_first(), name)
    }
}

/// A glTF node index as a model node id: the index truncated to 32 bits,
/// accepted when that is not negative.
pub open spec fn node_id_of(node: usize) -> Option<i32> {
    if (node as i32) >= 0 {
        Some(node as i32)
    } else {
        None
    }
}

/// The model node of the bone named `name`: that of the first entry with
/// the name, where its index makes a node id.
pub open spec fn bone_node(t: Seq<HumanBoneView>, name: Seq<char>) -> Option<i32> {
    match first_bone_node(t, name) {
        Some(node) => node_id_of(node),
        None => None,
    }
}

/// The first bone the rig needs that the table does not give, in the order
/// the rig is built: head, torso, right then left fingers, right then left
/// arm, left then right leg.
pub open spec fn first_missing_bone(t: Seq<HumanBoneView>) -> Option<Seq<char>> {
    if bone_node(t, "head"@) is None {
        Some("head"@)
    } else if bone_node(t, "hips"@) is None {
        Some("hips"@)
    } else if bone_node(t, "spine"@) is None {
        Some("spine"@)
    } else if bone_node(t, "chest"@) is None {
        Some("chest"@)
    } else if bone_node(t, "upperChest"@) is None {
        Some("upperChest"@)
    } else if bone_node(t, "neck"@) is None {
        Some("neck"@)
    } else if bone_node(t, "rightThumbIntermediate"@) is None {
        Some("rightThumbIntermediate"@)
    } else if bone_node(t, "rightThumbProximal"@) is None {
        Some("rightThumbProximal"@)
    } else if bone_node(t, "rightThumbDistal"@) is None {
        Some("rightThumbDistal"@)
    } else if bone_node(t, "rightIndexIntermediate"@) is None {
        Some("rightIndexIntermediate"@)
    } else if bone_node(t, "rightIndexProximal"@) is None {
        Some("rightIndexProximal"@)
    } else if bone_node(t, "rightIndexDistal"@) is None {
        Some("rightIndexDistal"@)
    } else if bone_node(t, "rightRingIntermediate"@) is None {
        Some("rightRingIntermediate"@)
    } else if bone_node(t, "rightRingProximal"@) is None {
        Some("rightRingProximal"@)
    } else if bone_node(t, "rightRingDistal"@) is None {
        Some("rightRingDistal"@)
    } else if bone_node(t, "rightMiddleIntermediate"@) is None {
        Some("rightMiddleIntermediate"@)
    } else if bone_node(t, "rightMiddleProximal"@) is None {
        Some("rightMiddleProximal"@)
    } else if bone_node(t, "rightMiddleDistal"@) is None {
        Some("rightMiddleDistal"@)
    } else if bone_node(t, "rightLittleIntermediate"@) is None {
        Some("rightLittleIntermediate"@)
    } else if bone_node(t, "rightLittleProximal"@) is None {
        Some("rightLittleProximal"@)
    } else if bone_node(t, "rightLittleDistal"@) is None {
        Some("rightLittleDistal"@)
    } else if bone_node(t, "leftThumbIntermediate"@) is None {
        Some("leftThumbIntermediate"@)
    } else if bone_node(t, "leftThumbProximal"@) is None {
        Some("leftThumbProximal"@)
    } else if bone_node(t, "leftThumbDistal"@) is None {
        Some("leftThumbDistal"@)
    } else if bone_node(t, "leftIndexIntermediate"@) is None {
        Some("leftIndexIntermediate"@)
    } else if bone_node(t, "leftIndexProximal"@) is None {
        Some("leftIndexProximal"@)
    } else if bone_node(t, "leftIndexDistal"@) is None {
        Some("leftIndexDistal"@)
    } else if bone_node(t, "leftRingIntermediate"@) is None {
        Some("leftRingIntermediate"@)
    } else if bone_node(t, "leftRingProximal"@) is None {
        Some("leftRingProximal"@)
    } else if bone_node(t, "leftRingDistal"@) is None {
        Some("leftRingDistal"@)
    } else if bone_node(t, "leftMiddleIntermediate"@) is None {
        Some("leftMiddleIntermediate"@)
    } else if bone_node(t, "leftMiddleProximal"@) is None {
        Some("leftMiddleProximal"@)
    } else if bone_node(t, "leftMiddleDistal"@) is None {
        Some("leftMiddleDistal"@)
    } else if bone_node(t, "leftLittleIntermediate"@) is None {
        Some("leftLittleIntermediate"@)
    } else if bone_node(t, "leftLittleProximal"@) is None {
        Some("leftLittleProximal"@)
    } else if bone_node(t, "leftLittleDistal"@) is None {
        Some("leftLittleDistal"@)
    } else if bone_node(t, "rightHand"@) is None {
        Some("rightHand"@)
    } else if bone_node(t, "rightUpperArm"@) is None {
        Some("rightUpperArm"@)
    } else if bone_node(t, "rightLowerArm"@) is None {
        Some("rightLowerArm"@)
    } else if bone_node(t, "leftHand"@) is None {
        Some("leftHand"@)
    } else if bone_node(t, "leftUpperArm"@) is None {
        Some("leftUpperArm"@)
    } else if bone_node(t, "leftLowerArm"@) is None {
        Some("leftLowerArm"@)
    } else if bone_node(t, "leftUpperLeg"@) is None {
        Some("leftUpperLeg"@)
    } else if bone_node(t, "leftLowerLeg"@) is None {
        Some("leftLowerLeg"@)
    } else if bone_node(t, "leftFoot"@) is None {
        Some("leftFoot"@)
    } else if bone_node(t, "rightUpperLeg"@) is None {
        Some("rightUpperLeg"@)
    } else if bone_node(t, "rightLowerLeg"@) is None {
        Some("rightLowerLeg"@)
    } else if bone_node(t, "rightFoot"@) is None {
        Some("rightFoot"@)
    } else {
        None
    }
}

/// The rig that a table giving every needed bone yields.
pub open spec fn skeleton_of(t: Seq<HumanBoneView>) -> Skeleton {
    Skeleton {
        head: Head { head: bone_node(t, "head"@).unwrap(), left_eye: bone_node(t, "leftEye"@), right_eye: bone_node(t, "rightEye"@), jaw: bone_node(t, "jaw"@) },
        torso: Torso { hips: bone_node(t, "hips"@).unwrap(), spine: bone_node(t, "spine"@).unwrap(), chest: bone_node(t, "chest"@).unwrap(), upper_chest: bone_node(t, "upperChest"@).unwrap(), neck: bone_node(t, "neck"@).unwrap() },
        right_finger: Finger { thumb: FingerBone { intermediate: bone_node(t, "rightThumbIntermediate"@).unwrap(), proximal: bone_node(t, "rightThumbProximal"@).unwrap(), distal: bone_node(t, "rightThumbDistal"@).unwrap() }, index: FingerBone { intermediate: bone_node(t, "rightIndexIntermediate"@).unwrap(), proximal: bone_node(t, "rightIndexProximal"@).unwrap(), distal: bone_node(t, "rightIndexDistal"@).unwrap() }, ring: FingerBone { intermediate: bone_node(t, "rightRingIntermediate"@).unwrap(), proximal: bone_node(t, "rightRingProximal"@).unwrap(), distal: bone_node(t, "rightRingDistal"@).unwrap() }, middle: FingerBone { intermediate: bone_node(t, "rightMiddleIntermediate"@).unwrap(), proximal: bone_node(t, "rightMiddleProximal"@).unwrap(), distal: bone_node(t, "rightMiddleDistal"@).unwrap() }, little: FingerBone { intermediate: bone_node(t, "rightLittleIntermediate"@).unwrap(), proximal: bone_node(t, "rightLittleProximal"@).unwrap(), distal: bone_node(t, "rightLittleDistal"@).unwrap() } },
        left_finger: Finger { thumb: FingerBone { intermediate: bone_node(t, "leftThumbIntermediate"@).unwrap(), proximal: bone_node(t, "leftThumbProximal"@).unwrap(), distal: bone_node(t, "leftThumbDistal"@).unwrap() }, index: FingerBone { intermediate: bone_node(t, "leftIndexIntermediate"@).unwrap(), proximal: bone_node(t, "leftIndexProximal"@).unwrap(), distal: bone_node(t, "leftIndexDistal"@).unwrap() }, ring: FingerBone { intermediate: bone_node(t, "leftRingIntermediate"@).unwrap(), proximal: bone_node(t, "leftRingProximal"@).unwrap(), distal: bone_node(t, "leftRingDistal"@).unwrap() }, middle: FingerBone { intermediate: bone_node(t, "leftMiddleIntermediate"@).unwrap(), proximal: bone_node(t, "leftMiddleProximal"@).unwrap(), distal: bone_node(t, "leftMiddleDistal"@).unwrap() }, little: FingerBone { intermediate: bone_node(t, "leftLittleIntermediate"@).unwrap(), proximal: bone_node(t, "leftLittleProximal"@).unwrap(), distal: bone_node(t, "leftLittleDistal"@).unwrap() } },
        right_arm: Arm { hand: bone_node(t, "rightHand"@).unwrap(), shoulder: bone_node(t, "rightShoulder"@), upper_arm: bone_node(t, "rightUpperArm"@).unwrap(), lower_arm: bone_node(t, "rightLowerArm"@).unwrap() },
        left_arm: Arm { hand: bone_node(t, "leftHand"@).unwrap(), shoulder: bone_node(t, "leftShoulder"@), upper_arm: bone_node(t, "leftUpperArm"@).unwrap(), lower_arm: bone_node(t, "leftLowerArm"@).unwrap() },
        left_leg: Leg { upper_leg: bone_node(t, "leftUpperLeg"@).unwrap(), lower_leg: bone_node(t, "leftLowerLeg"@).unwrap(), foot: bone_node(t, "leftFoot"@).unwrap(), toes: bone_node(t, "leftToes"@) },
        right_leg: Leg { upper_leg: bone_node(t, "rightUpperLeg"@).unwrap(), lower_leg: bone_node(t, "rightLowerLeg"@).unwrap(), foot: bone_node(t, "rightFoot"@).unwrap(), toes: bone_node(t, "rightToes"@) },
    }
}

#[derive(Copy, Clone, Debug, PartialEq, Eq, Structural)]
pub struct Torso {
    pub hips: i32,
    pub spine: i32,
    pub chest: i32,
    pub upper_chest: i32,
    pub neck: i32,
}

#[derive(Copy, Clone, Debug, PartialEq, Eq, Structural)]
pub struct Head {
    pub head: i32,
    pub left_eye: Option<i32>,
    pub right_eye: Option<i32>,
    pub jaw: Option<i32>,
}

#[derive(Copy, Clone, Debug, PartialEq, Eq, Structural)]
pub struct Leg {
    pub upper_leg: i32,
    pub lower_leg: i32,
    pub foot: i32,
    pub toes: Option<i32>,
}

#[derive(Copy, Clone, Debug, PartialEq, Eq, Structural)]
pub struct FingerBone {
    pub intermediate: i32,
    pub proximal: i32,
    pub distal: i32,
}

#[derive(Copy, Clone, Debug, PartialEq, Eq, Structural)]
pub struct Finger {
    pub thumb: FingerBone,
    pub index: FingerBone,
    pub ring: FingerBone,
    pub middle: FingerBone,
    pub little: FingerBone,
}

#[derive(Copy, Clone, Debug, PartialEq, Eq, Structural)]
pub struct Arm {
    pub hand: i32,
    pub shoulder: Option<i32>,
    pub upper_arm: i32,
    pub lower_arm: i32,
}

/// The model nodes of an avatar's humanoid bones.
#[derive(Copy, Clone, Debug, PartialEq, Eq, Structural)]
pub struct Skeleton {
    pub head: Head,
    pub torso: Torso,
    pub right_finger: Finger,
    pub left_finger: Finger,
    pub right_arm: Arm,
    pub left_arm: Arm,
    pub left_leg: Leg,
    pub right_leg: Leg,
}

/// A table that gives every needed bone rigs each bone of the skeleton to the
/// model node of the table's bone of the same name; an optional bone is
/// rigged exactly where the table gives it.
pub proof fn law_rig_bones_by_name(t: Seq<HumanBoneView>, s: Skeleton)
    requires
        first_missing_bone(t) is None,
        s == skeleton_of(t),
    ensures
        Some(s.head.head) == bone_node(t, "head"@),
        s.head.left_eye == bone_node(t, "leftEye"@),
        s.head.right_eye == bone_node(t, "rightEye"@),
        s.head.jaw == bone_node(t, "jaw"@),
        Some(s.torso.hips) == bone_node(t, "hips"@),
        Some(s.torso.spine) == bone_node(t, "spine"@),
        Some(s.torso.chest) == bone_node(t, "chest"@),
        Some(s.torso.upper_chest) == bone_node(t, "upperChest"@),
        Some(s.torso.neck) == bone_node(t, "neck"@),
        Some(s.right_finger.thumb.intermediate) == bone_node(t, "rightThumbIntermediate"@),
        Some(s.right_finger.thumb.proximal) == bone_node(t, "rightThumbProximal"@),
        Some(s.right_finger.thumb.distal) == bone_node(t, "rightThumbDistal"@),
        Some(s.right_finger.index.intermediate) == bone_node(t, "rightIndexIntermediate"@),
        Some(s.right_finger.index.proximal) == bone_node(t, "rightIndexProximal"@),
        Some(s.right_finger.index.distal) == bone_node(t, "rightIndexDistal"@),
        Some(s.right_finger.ring.intermediate) == bone_node(t, "rightRingIntermediate"@),
        Some(s.right_finger.ring.proximal) == bone_node(t, "rightRingProximal"@),
        Some(s.right_finger.ring.distal) == bone_node(t, "rightRingDistal"@),
        Some(s.right_finger.middle.intermediate) == bone_node(t, "rightMiddleIntermediate"@),
        Some(s.right_finger.middle.proximal) == bone_node(t, "rightMiddleProximal"@),
        Some(s.right_finger.middle.distal) == bone_node(t, "rightMiddleDistal"@),
        Some(s.right_finger.little.intermediate) == bone_node(t, "rightLittleIntermediate"@),
        Some(s.right_finger.little.proximal) == bone_node(t, "rightLittleProximal"@),
        Some(s.right_finger.little.distal) == bone_node(t, "rightLittleDistal"@),
        Some(s.left_finger.thumb.intermediate) == bone_node(t, "leftThumbIntermediate"@),
        Some(s.left_finger.thumb.proximal) == bone_node(t, "leftThumbProximal"@),
        Some(s.left_finger.thumb.distal) == bone_node(t, "leftThumbDistal"@),
        Some(s.left_finger.index.intermediate) == bone_node(t, "leftIndexIntermediate"@),
        Some(s.left_finger.index.proximal) == bone_node(t, "leftIndexProximal"@),
        Some(s.left_finger.index.distal) == bone_node(t, "leftIndexDistal"@),
        Some(s.left_finger.ring.intermediate) == bone_node(t, "leftRingIntermediate"@),
        Some(s.left_finger.ring.proximal) == bone_node(t, "leftRingProximal"@),
        Some(s.left_finger.ring.distal) == bone_node(t, "leftRingDistal"@),
        Some(s.left_finger.middle.intermediate) == bone_node(t, "leftMiddleIntermediate"@),
        Some(s.left_finger.middle.proximal) == bone_node(t, "leftMiddleProximal"@),
        Some(s.left_finger.middle.distal) == bone_node(t, "leftMiddleDistal"@),
        Some(s.left_finger.little.intermediate) == bone_node(t, "leftLittleIntermediate"@),
        Some(s.left_finger.little.proximal) == bone_node(t, "leftLittleProximal"@),
        Some(s.left_finger.little.distal) == bone_node(t, "leftLittleDistal"@),
        Some(s.right_arm.hand) == bone_node(t, "rightHand"@),
        s.right_arm.shoulder == bone_node(t, "rightShoulder"@),
        Some(s.right_arm.upper_arm) == bone_node(t, "rightUpperArm"@),
        Some(s.right_arm.lower_arm) == bone_node(t, "rightLowerArm"@),
        Some(s.left_arm.hand) == bone_node(t, "leftHand"@),
        s.left_arm.shoulder == bone_node(t, "leftShoulder"@),
        Some(s.left_arm.upper_arm) == bone_node(t, "leftUpperArm"@),
        Some(s.left_arm.lower_arm) == bone_node(t, "leftLowerArm"@),
        Some(s.left_leg.upper_leg) == bone_node(t, "leftUpperLeg"@),
        Some(s.left_leg.lower_leg) == bone_node(t, "leftLowerLeg"@),
        Some(s.left_leg.foot) == bone_node(t, "leftFoot"@),
        s.left_leg.toes == bone_node(t, "leftToes"@),
        Some(s.right_leg.upper_leg) == bone_node(t, "rightUpperLeg"@),
        Some(s.right_leg.lower_leg) == bone_node(t, "rightLowerLeg"@),
        Some(s.right_leg.foot) == bone_node(t, "rightFoot"@),
        s.right_leg.toes == bone_node(t, "rightToes"@),
{
}

/// The bone found for a name is that of the table's first entry with that
/// name; there is none only where no entry has the name.
pub proof fn law_first_entry_wins(t: Seq<HumanBoneView>, name: Seq<char>)
    ensures
        first_bone_node(t, name) is None <==> forall|i: int| 0 <= i < t.len() ==> #[trigger] t[i].bone != name,
        first_bone_node(t, name) matches Some(n) ==> exists|i: int|
            0 <= i < t.len() && #[trigger] t[i].bone == name && t[i].node == n
                && forall|j: int| 0 <= j < i ==> #[trigger] t[j].bone != name,
    decreases t.len(),
{
    if t.len() > 0 {
        let rest = t.drop_first();
        law_first_entry_wins(rest, name);
        assert forall|i: int| 0 < i < t.len() implies #[trigger] t[i] == rest[i - 1] by {}
        if t[0].bone != name {
            if first_bone_node(t, name) is None {
                assert forall|i: int| 0 <= i < t.len() implies #[trigger] t[i].bone != name by {
                    if i > 0 {
                        assert(t[i] == rest[i - 1]);
                    }
                }
            } else {
                let n = first_bone_node(t, name)->Some_0;
                let k = choose|k: int|
                    0 <= k < rest.len() && #[trigger] rest[k].bone == name && rest[k].node == n
                        && forall|j: int| 0 <= j < k ==> #[trigger] rest[j].bone != name;
                assert(t[k + 1] == rest[k]);
                assert forall|j: int| 0 <= j < k + 1 implies #[trigger] t[j].bone != name by {
                    if j > 0 {
                        assert(t[j] == rest[j - 1]);
                    }
                }
                assert(t[k + 1].bone == name);
            }
            if forall|i: int| 0 <= i < t.len() ==> #[trigger] t[i].bone != name {
                assert forall|i: int| 0 <= i < rest.len() implies #[trigger] rest[i].bone != name by {
                    assert(t[i + 1] == rest[i]);
                }
            }
        } else {
            assert(t[0].bone == name);
        }
    }
}

impl BoneTable {
    /// The model node of the bone named `name`: that of the first entry with
    /// the name; `MissingBone(name)` where no entry has it or its node index
    /// makes no node id.
    pub fn get_node(&self, name: &str) -> (r: Result<i32, VrmError>)
        ensures
            match bone_node(self@, name@) {
                Some(node) => r matches Ok(n) && n == node,
                None => r matches Err(VrmError::MissingBone(b)) && b@ == name@,
            },
    {
        let target = name.to_owned();
        let mut i: usize = 0;
        assert(self@.subrange(0, self@.len() as int) =~= self@);
        while i < self.bones.len()
            invariant
                i <= self.bones.len(),
                target@ == name@,
                first_bone_node(self@, name@) == first_bone_node(self@.subrange(i as int, self@.len() as int), name@),
            decreases self.bones.len() - i,
        {
            let ghost rest = self@.subrange(i as int, self@.len() as int);
            assert(rest[0] == self.bones@[i as int]@);
            assert(rest.drop_first() =~= self@.subrange(i + 1, self@.len() as int));
            if self.bones[i].bone == target {
                let node = self.bones[i].node;
                let id = #[verifier::truncate] (node as i32);
                if id >= 0 {
                    return Ok(id);
                } else {
                    return Err(VrmError::MissingBone(target));
                }
            }
            i = i + 1;
        }
        Err(VrmError::MissingBone(target))
    }
}

impl Skeleton {
    /// Finds every bone of the rig in `table`: the needed ones fail the
    /// whole rig with the first one missing; eyes, jaw, shoulders and toes
    /// are optional.
    pub fn new(table: &BoneTable) -> (r: Result<Skeleton, VrmError>)
        ensures
            match first_missing_bone(table@) {
                None => r == Ok::<Skeleton, VrmError>(skeleton_of(table@)),
                Some(name) => r matches Err(VrmError::MissingBone(b)) && b@ == name,
            },
            r matches Ok(s) ==> ({
                &&& Some(s.head.head) == bone_node(table@, "head"@)
                &&& s.head.left_eye == bone_node(table@, "leftEye"@)
                &&& s.head.right_eye == bone_node(table@, "rightEye"@)
                &&& s.head.jaw == bone_node(table@, "jaw"@)
                &&& Some(s.torso.hips) == bone_node(table@, "hips"@)
                &&& Some(s.torso.spine) == bone_node(table@, "spine"@)
                &&& Some(s.torso.chest) == bone_node(table@, "chest"@)
                &&& Some(s.torso.upper_chest) == bone_node(table@, "upperChest"@)
                &&& Some(s.torso.neck) == bone_node(table@, "neck"@)
                &&& Some(s.right_finger.thumb.intermediate) == bone_node(table@, "rightThumbIntermediate"@)
                &&& Some(s.right_finger.thumb.proximal) == bone_node(table@, "rightThumbProximal"@)
                &&& Some(s.right_finger.thumb.distal) == bone_node(table@, "rightThumbDistal"@)
                &&& Some(s.right_finger.index.intermediate) == bone_node(table@, "rightIndexIntermediate"@)
                &&& Some(s.right_finger.index.proximal) == bone_node(table@, "rightIndexProximal"@)
                &&& Some(s.right_finger.index.distal) == bone_node(table@, "rightIndexDistal"@)
                &&& Some(s.right_finger.ring.intermediate) == bone_node(table@, "rightRingIntermediate"@)
                &&& Some(s.right_finger.ring.proximal) == bone_node(table@, "rightRingProximal"@)
                &&& Some(s.right_finger.ring.distal) == bone_node(table@, "rightRingDistal"@)
                &&& Some(s.right_finger.middle.intermediate) == bone_node(table@, "rightMiddleIntermediate"@)
                &&& Some(s.right_finger.middle.proximal) == bone_node(table@, "rightMiddleProximal"@)
                &&& Some(s.right_finger.middle.distal) == bone_node(table@, "rightMiddleDistal"@)
                &&& Some(s.right_finger.little.intermediate) == bone_node(table@, "rightLittleIntermediate"@)
                &&& Some(s.right_finger.little.proximal) == bone_node(table@, "rightLittleProximal"@)
                &&& Some(s.right_finger.little.distal) == bone_node(table@, "rightLittleDistal"@)
                &&& Some(s.left_finger.thumb.intermediate) == bone_node(table@, "leftThumbIntermediate"@)
                &&& Some(s.left_finger.thumb.proximal) == bone_node(table@, "leftThumbProximal"@)
                &&& Some(s.left_finger.thumb.distal) == bone_node(table@, "leftThumbDistal"@)
                &&& Some(s.left_finger.index.intermediate) == bone_node(table@, "leftIndexIntermediate"@)
                &&& Some(s.left_finger.index.proximal) == bone_node(table@, "leftIndexProximal"@)
                &&& Some(s.left_finger.index.distal) == bone_node(table@, "leftIndexDistal"@)
                &&& Some(s.left_finger.ring.intermediate) == bone_node(table@, "leftRingIntermediate"@)
                &&& Some(s.left_finger.ring.proximal) == bone_node(table@, "leftRingProximal"@)
                &&& Some(s.left_finger.ring.distal) == bone_node(table@, "leftRingDistal"@)
                &&& Some(s.left_finger.middle.intermediate) == bone_node(table@, "leftMiddleIntermediate"@)
                &&& Some(s.left_finger.middle.proximal) == bone_node(table@, "leftMiddleProximal"@)
                &&& Some(s.left_finger.middle.distal) == bone_node(table@, "leftMiddleDistal"@)
                &&& Some(s.left_finger.little.intermediate) == bone_node(table@, "leftLittleIntermediate"@)
                &&& Some(s.left_finger.little.proximal) == bone_node(table@, "leftLittleProximal"@)
                &&& Some(s.left_finger.little.distal) == bone_node(table@, "leftLittleDistal"@)
                &&& Some(s.right_arm.hand) == bone_node(table@, "rightHand"@)
                &&& s.right_arm.shoulder == bone_node(table@, "rightShoulder"@)
                &&& Some(s.right_arm.upper_arm) == bone_node(table@, "rightUpperArm"@)
                &&& Some(s.right_arm.lower_arm) == bone_node(table@, "rightLowerArm"@)
                &&& Some(s.left_arm.hand) == bone_node(table@, "leftHand"@)
                &&& s.left_arm.shoulder == bone_node(table@, "leftShoulder"@)
                &&& Some(s.left_arm.upper_arm) == bone_node(table@, "leftUpperArm"@)
                &&& Some(s.left_arm.lower_arm) == bone_node(table@, "leftLowerArm"@)
                &&& Some(s.left_leg.upper_leg) == bone_node(table@, "leftUpperLeg"@)
                &&& Some(s.left_leg.lower_leg) == bone_node(table@, "leftLowerLeg"@)
                &&& Some(s.left_leg.foot) == bone_node(table@, "leftFoot"@)
                &&& s.left_leg.toes == bone_node(table@, "leftToes"@)
                &&& Some(s.right_leg.upper_leg) == bone_node(table@, "rightUpperLeg"@)
                &&& Some(s.right_leg.lower_leg) == bone_node(table@, "rightLowerLeg"@)
                &&& Some(s.right_leg.foot) == bone_node(table@, "rightFoot"@)
                &&& s.right_leg.toes == bone_node(table@, "rightToes"@)
            }),
    {
        table.new_skeleton()
    }

    /// Rigs a model: `MissingVrmExtension` where it has no VRM humanoid,
    /// otherwise as `new`.
    pub fn from_vrm(humanoid: &Option<BoneTable>) -> (r: Result<Skeleton, VrmError>)
        ensures
            match humanoid {
                None => r matches Err(VrmError::MissingVrmExtension),
                Some(table) => match first_missing_bone(table@) {
                    None => r == Ok::<Skeleton, VrmError>(skeleton_of(table@)),
                    Some(name) => r matches Err(VrmError::MissingBone(b)) && b@ == name,
                },
            },
    {
        match humanoid {
            None => Err(VrmError::MissingVrmExtension),
            Some(table) => Skeleton::new(table),
        }
    }
}

impl BoneTable {
    fn new_skeleton(&self) -> (r: Result<Skeleton, VrmError>)
        ensures
            match first_missing_bone(self@) {
                None => r == Ok::<Skeleton, VrmError>(skeleton_of(self@)),
                Some(name) => r matches Err(VrmError::MissingBone(b)) && b@ == name,
            },
    {
        let head_head = match self.get_node("head") {
            Ok(node) => node,
            Err(e) => return Err(e),
        };
        let torso_hips = match self.get_node("hips") {
            Ok(node) => node,
            Err(e) => return Err(e),
        };
        let torso_spine = match self.get_node("spine") {
            Ok(node) => node,
            Err(e) => return Err(e),
        };
        let torso_chest = match self.get_node("chest") {
            Ok(node) => node,
            Err(e) => return Err(e),
        };
        let torso_upper_chest = match self.get_node("upperChest") {
            Ok(node) => node,
            Err(e) => return Err(e),
        };
        let torso_neck = match self.get_node("neck") {
            Ok(node) => node,
            Err(e) => return Err(e),
        };
        let right_finger_thumb_intermediate = match self.get_node("rightThumbIntermediate") {
            Ok(node) => node,
            Err(e) => return Err(e),
        };
        let right_finger_thumb_proximal = match self.get_node("rightThumbProximal") {
            Ok(node) => node,
            Err(e) => return Err(e),
        };
        let right_finger_thumb_distal = match self.get_node("rightThumbDistal") {
            Ok(node) => node,
            Err(e) => return Err(e),
        };
        let right_finger_index_intermediate = match self.get_node("rightIndexIntermediate") {
            Ok(node) => node,
            Err(e) => return Err(e),
        };
        let right_finger_index_proximal = match self.get_node("rightIndexProximal") {
            Ok(node) => node,
            Err(e) => return Err(e),
        };
        let right_finger_index_distal = match self.get_node("rightIndexDistal") {
            Ok(node) => node,
            Err(e) => return Err(e),
        };
        let right_finger_ring_intermediate = match self.get_node("rightRingIntermediate") {
            Ok(node) => node,
            Err(e) => return Err(e),
        };
        let right_finger_ring_proximal = match self.get_node("rightRingProximal") {
            Ok(node) => node,
            Err(e) => return Err(e),
        };
        let right_finger_ring_distal = match self.get_node("rightRingDistal") {
            Ok(node) => node,
            Err(e) => return Err(e),
        };
        let right_finger_middle_intermediate = match self.get_node("rightMiddleIntermediate") {
            Ok(node) => node,
            Err(e) => return Err(e),
        };
        let right_finger_middle_proximal = match self.get_node("rightMiddleProximal") {
            Ok(node) => node,
            Err(e) => return Err(e),
        };
        let right_finger_middle_distal = match self.get_node("rightMiddleDistal") {
            Ok(node) => node,
            Err(e) => return Err(e),
        };
        let right_finger_little_intermediate = match self.get_node("rightLittleIntermediate") {
            Ok(node) => node,
            Err(e) => return Err(e),
        };
        let right_finger_little_proximal = match self.get_node("rightLittleProximal") {
            Ok(node) => node,
            Err(e) => return Err(e),
        };
        let right_finger_little_distal = match self.get_node("rightLittleDistal") {
            Ok(node) => node,
            Err(e) => return Err(e),
        };
        let left_finger_thumb_intermediate = match self.get_node("leftThumbIntermediate") {
            Ok(node) => node,
            Err(e) => return Err(e),
        };
        let left_finger_thumb_proximal = match self.get_node("leftThumbProximal") {
            Ok(node) => node,
            Err(e) => return Err(e),
        };
        let left_finger_thumb_distal = match self.get_node("leftThumbDistal") {
            Ok(node) => node,
            Err(e) => return Err(e),
        };
        let left_finger_index_intermediate = match self.get_node("leftIndexIntermediate") {
            Ok(node) => node,
            Err(e) => return Err(e),
        };
        let left_finger_index_proximal = match self.get_node("leftIndexProximal") {
            Ok(node) => node,
            Err(e) => return Err(e),
        };
        let left_finger_index_distal = match self.get_node("leftIndexDistal") {
            Ok(node) => node,
            Err(e) => return Err(e),
        };
        let left_finger_ring_intermediate = match self.get_node("leftRingIntermediate") {
            Ok(node) => node,
            Err(e) => return Err(e),
        };
        let left_finger_ring_proximal = match self.get_node("leftRingProximal") {
            Ok(node) => node,
            Err(e) => return Err(e),
        };
        let left_finger_ring_distal = match self.get_node("leftRingDistal") {
            Ok(node) => node,
            Err(e) => return Err(e),
        };
        let left_finger_middle_intermediate = match self.get_node("leftMiddleIntermediate") {
            Ok(node) => node,
            Err(e) => return Err(e),
        };
        let left_finger_middle_proximal = match self.get_node("leftMiddleProximal") {
            Ok(node) => node,
            Err(e) => return Err(e),
        };
        let left_finger_middle_distal = match self.get_node("leftMiddleDistal") {
            Ok(node) => node,
            Err(e) => return Err(e),
        };
        let left_finger_little_intermediate = match self.get_node("leftLittleIntermediate") {
            Ok(node) => node,
            Err(e) => return Err(e),
        };
        let left_finger_little_proximal = match self.get_node("leftLittleProximal") {
            Ok(node) => node,
            Err(e) => return Err(e),
        };
        let left_finger_little_distal = match self.get_node("leftLittleDistal") {
            Ok(node) => node,
            Err(e) => return Err(e),
        };
        let right_arm_hand = match self.get_node("rightHand") {
            Ok(node) => node,
            Err(e) => return Err(e),
        };
        let right_arm_upper_arm = match self.get_node("rightUpperArm") {
            Ok(node) => node,
            Err(e) => return Err(e),
        };
        let right_arm_lower_arm = match self.get_node("rightLowerArm") {
            Ok(node) => node,
            Err(e) => return Err(e),
        };
        let left_arm_hand = match self.get_node("leftHand") {
            Ok(node) => node,
            Err(e) => return Err(e),
        };
        let left_arm_upper_arm = match self.get_node("leftUpperArm") {
            Ok(node) => node,
            Err(e) => return Err(e),
        };
        let left_arm_lower_arm = match self.get_node("leftLowerArm") {
            Ok(node) => node,
            Err(e) => return Err(e),
        };
        let left_leg_upper_leg = match self.get_node("leftUpperLeg") {
            Ok(node) => node,
            Err(e) => return Err(e),
        };
        let left_leg_lower_leg = match self.get_node("leftLowerLeg") {
            Ok(node) => node,
            Err(e) => return Err(e),
        };
        let left_leg_foot = match self.get_node("leftFoot") {
            Ok(node) => node,
            Err(e) => return Err(e),
        };
        let right_leg_upper_leg = match self.get_node("rightUpperLeg") {
            Ok(node) => node,
            Err(e) => return Err(e),
        };
        let right_leg_lower_leg = match self.get_node("rightLowerLeg") {
            Ok(node) => node,
            Err(e) => return Err(e),
        };
        let right_leg_foot = match self.get_node("rightFoot") {
            Ok(node) => node,
            Err(e) => return Err(e),
        };
        Ok(Skeleton {
            head: Head { head: head_head, left_eye: self.get_node("leftEye").ok(), right_eye: self.get_node("rightEye").ok(), jaw: self.get_node("jaw").ok() },
            torso: Torso { hips: torso_hips, spine: torso_spine, chest: torso_chest, upper_chest: torso_upper_chest, neck: torso_neck },
            right_finger: Finger { thumb: FingerBone { intermediate: right_finger_thumb_intermediate, proximal: right_finger_thumb_proximal, distal: right_finger_thumb_distal }, index: FingerBone { intermediate: right_finger_index_intermediate, proximal: right_finger_index_proximal, distal: right_finger_index_distal }, ring: FingerBone { intermediate: right_finger_ring_intermediate, proximal: right_finger_ring_proximal, distal: right_finger_ring_distal }, middle: FingerBone { intermediate: right_finger_middle_intermediate, proximal: right_finger_middle_proximal, distal: right_finger_middle_distal }, little: FingerBone { intermediate: right_finger_little_intermediate, proximal: right_finger_little_proximal, distal: right_finger_little_distal } },
            left_finger: Finger { thumb: FingerBone { intermediate: left_finger_thumb_intermediate, proximal: left_finger_thumb_proximal, distal: left_finger_thumb_distal }, index: FingerBone { intermediate: left_finger_index_intermediate, proximal: left_finger_index_proximal, distal: left_finger_index_distal }, ring: FingerBone { intermediate: left_finger_ring_intermediate, proximal: left_finger_ring_proximal, distal: left_finger_ring_distal }, middle: FingerBone { intermediate: left_finger_middle_intermediate, proximal: left_finger_middle_proximal, distal: left_finger_middle_distal }, little: FingerBone { intermediate: left_finger_little_intermediate, proximal: left_finger_little_proximal, distal: left_finger_little_distal } },
            right_arm: Arm { hand: right_arm_hand, shoulder: self.get_node("rightShoulder").ok(), upper_arm: right_arm_upper_arm, lower_arm: right_arm_lower_arm },
            left_arm: Arm { hand: left_arm_hand, shoulder: self.get_node("leftShoulder").ok(), upper_arm: left_arm_upper_arm, lower_arm: left_arm_lower_arm },
            left_leg: Leg { upper_leg: left_leg_upper_leg, lower_leg: left_leg_lower_leg, foot: left_leg_foot, toes: self.get_node("leftToes").ok() },
            right_leg: Leg { upper_leg: right_leg_upper_leg, lower_leg: right_leg_lower_leg, foot: right_leg_foot, toes: self.get_node("rightToes").ok() },
        })
    }
}

} // verus!
