use cloudcafe::skeleton::{BoneTable, HumanBone, Skeleton, VrmError};

const REQUIRED: [&str; 48] = [
    "head", "hips", "spine", "chest", "upperChest", "neck",
    "rightThumbIntermediate", "rightThumbProximal", "rightThumbDistal",
    "rightIndexIntermediate", "rightIndexProximal", "rightIndexDistal",
    "rightRingIntermediate", "rightRingProximal", "rightRingDistal",
    "rightMiddleIntermediate", "rightMiddleProximal", "rightMiddleDistal",
    "rightLittleIntermediate", "rightLittleProximal", "rightLittleDistal",
    "leftThumbIntermediate", "leftThumbProximal", "leftThumbDistal",
    "leftIndexIntermediate", "leftIndexProximal", "leftIndexDistal",
    "leftRingIntermediate", "leftRingProximal", "leftRingDistal",
    "leftMiddleIntermediate", "leftMiddleProximal", "leftMiddleDistal",
    "leftLittleIntermediate", "leftLittleProximal", "leftLittleDistal",
    "rightHand", "rightUpperArm", "rightLowerArm",
    "leftHand", "leftUpperArm", "leftLowerArm",
    "leftUpperLeg", "leftLowerLeg", "leftFoot",
    "rightUpperLeg", "rightLowerLeg", "rightFoot",
];

fn table(names: &[&str]) -> BoneTable {
    BoneTable { bones: names.iter().enumerate().map(|(i, n)| HumanBone { bone: n.to_string(), node: i + 10 }).collect() }
}

fn missing(r: Result<Skeleton, VrmError>) -> String {
    match r {
        Err(VrmError::MissingBone(b)) => b,
        _ => panic!("expected a missing bone"),
    }
}

#[test]
fn full_table_rigs() {
    let t = table(&REQUIRED);
    let s = Skeleton::new(&t).ok().unwrap();
    assert_eq!(s.head.head, 10);
    assert_eq!(s.torso.hips, 11);
    assert_eq!(s.torso.upper_chest, 14);
    assert_eq!(s.right_finger.thumb.intermediate, 16);
    assert_eq!(s.left_finger.little.distal, 45);
    assert_eq!(s.right_arm.hand, 46);
    assert_eq!(s.left_leg.foot, 54);
    assert_eq!(s.right_leg.foot, 57);
    assert_eq!(s.head.left_eye, None);
    assert_eq!(s.right_arm.shoulder, None);
    assert_eq!(s.left_leg.toes, None);
}

#[test]
fn optional_bones_are_found() {
    let mut names: Vec<&str> = REQUIRED.to_vec();
    names.extend(["leftEye", "jaw", "rightShoulder", "rightToes"]);
    let s = Skeleton::new(&table(&names)).ok().unwrap();
    assert_eq!(s.head.left_eye, Some(58));
    assert_eq!(s.head.right_eye, None);
    assert_eq!(s.head.jaw, Some(59));
    assert_eq!(s.right_arm.shoulder, Some(60));
    assert_eq!(s.right_leg.toes, Some(61));
}

#[test]
fn first_missing_bone_is_reported() {
    let names: Vec<&str> = REQUIRED.iter().copied().filter(|n| *n != "neck" && *n != "leftFoot").collect();
    assert_eq!(missing(Skeleton::new(&table(&names))), "neck");
    let names: Vec<&str> = REQUIRED.iter().copied().filter(|n| *n != "leftFoot").collect();
    assert_eq!(missing(Skeleton::new(&table(&names))), "leftFoot");
    assert_eq!(missing(Skeleton::new(&table(&[]))), "head");
}

#[test]
fn first_entry_of_a_name_wins() {
    let t = BoneTable {
        bones: vec![
            HumanBone { bone: "head".to_string(), node: 3 },
            HumanBone { bone: "head".to_string(), node: 4 },
        ],
    };
    assert!(matches!(t.get_node("head"), Ok(3)));
    assert!(matches!(t.get_node("jaw"), Err(VrmError::MissingBone(ref b)) if b == "jaw"));
}

#[test]
fn node_index_beyond_node_ids_is_missing() {
    let t = BoneTable { bones: vec![HumanBone { bone: "head".to_string(), node: 0x8000_0000 }] };
    assert!(matches!(t.get_node("head"), Err(VrmError::MissingBone(ref b)) if b == "head"));
}

#[test]
fn model_without_vrm_extension() {
    assert!(matches!(Skeleton::from_vrm(&None), Err(VrmError::MissingVrmExtension)));
    assert!(Skeleton::from_vrm(&Some(table(&REQUIRED))).is_ok());
}
