use siege::fortress::{piece_of, FortressPiece};
use siege::geom::Vec3i;
use siege::rig::{explore, role_of_tag, setup, sling_layout, tag_contains, JointKind, JointPlan, Parts, Role, SceneNode};

fn node(handle: u64, tag: Option<&str>) -> SceneNode {
    SceneNode { handle, tag: tag.map(|t| t.to_string()) }
}

#[test]
fn tags_match_by_containment() {
    assert!(tag_contains("{\"role\":\"Arm\"}", "Arm"));
    assert!(!tag_contains("Ar", "Arm"));
    assert!(tag_contains("x", ""));
    assert_eq!(role_of_tag("m_Pivot.001"), Some(Role::Pivot));
    assert_eq!(role_of_tag("CounterWeight"), Some(Role::CounterWeight));
    assert_eq!(role_of_tag("Lock"), Some(Role::Lock));
    assert_eq!(role_of_tag("BarHill"), Some(Role::Bar));
    assert_eq!(role_of_tag("Hill"), Some(Role::Hill));
    assert_eq!(role_of_tag("ArmBar"), Some(Role::Arm));
    assert_eq!(role_of_tag("Antenna"), None);
    assert_eq!(role_of_tag(""), None);
}

#[test]
fn explore_binds_all_roles() {
    let nodes = vec![
        node(1, None),
        node(2, Some("Arm")),
        node(3, Some("Pivot")),
        node(4, Some("Stand")),
        node(5, Some("CounterWeight")),
        node(6, Some("Lock")),
        node(7, Some("Bar")),
        node(8, Some("Hill")),
    ];
    let e = explore(&nodes);
    assert_eq!(e.parts, Parts { pivot: Some(3), se: None, arm: Some(2), bar: Some(7), cw: Some(5) });
    assert!(e.parts.is_explored());
    assert!(!e.parts.is_built());
    assert_eq!(
        e.markers,
        vec![(2, Role::Arm), (3, Role::Pivot), (5, Role::CounterWeight), (6, Role::Lock), (7, Role::Bar), (8, Role::Hill)]
    );
}

#[test]
fn partially_tagged_launcher_stays_unexplored() {
    let nodes = vec![node(2, Some("Arm")), node(3, Some("Pivot")), node(5, Some("CounterWeight"))];
    let e = explore(&nodes);
    assert!(!e.parts.is_explored());
    assert_eq!(setup(&e.parts, &vec![10, 11], 20), None);
    assert!(!explore(&vec![]).parts.is_explored());
}

#[test]
fn later_node_of_a_role_wins() {
    let nodes = vec![node(2, Some("Arm")), node(9, Some("Arm"))];
    assert_eq!(explore(&nodes).parts.arm, Some(9));
}

#[test]
fn setup_plans_pivot_counterweight_and_sling_chain() {
    let parts = Parts { pivot: Some(1), se: None, arm: Some(2), bar: Some(3), cw: Some(4) };
    let segs: Vec<u64> = (10..18).collect();
    let joints = setup(&parts, &segs, 30).unwrap();
    assert_eq!(joints.len(), 2 + 9);
    assert_eq!(
        joints[0],
        JointPlan { kind: JointKind::Revolute, body1: 1, body2: 2, anchor1: Vec3i::new(0, 0, 0), anchor2: Vec3i::new(0, 0, -4500), angular_damping_milli: 100 }
    );
    assert_eq!(
        joints[1],
        JointPlan { kind: JointKind::Revolute, body1: 2, body2: 4, anchor1: Vec3i::new(0, 0, -7500), anchor2: Vec3i::new(0, 1000, 0), angular_damping_milli: 0 }
    );
    assert_eq!(
        joints[2],
        JointPlan { kind: JointKind::Spherical, body1: 2, body2: 10, anchor1: Vec3i::new(0, 0, 7500), anchor2: Vec3i::new(0, 0, -703), angular_damping_milli: 0 }
    );
    assert_eq!((joints[5].body1, joints[5].body2), (12, 13));
    assert_eq!(
        joints[10],
        JointPlan { kind: JointKind::Spherical, body1: 17, body2: 30, anchor1: Vec3i::new(0, 0, 703), anchor2: Vec3i::new(0, 0, 0), angular_damping_milli: 0 }
    );
}

#[test]
fn sling_segments_laid_from_arm_tip() {
    let l = sling_layout(Vec3i::new(100, 5000, 40000));
    assert_eq!(l.len(), 8);
    assert_eq!(l[0], Vec3i::new(100, 5000, 40000 + 7500 + 703));
    assert_eq!(l[7], Vec3i::new(100, 5000, 40000 + 7500 + 703 + 7 * 1406));
}

#[test]
fn launchers_alternate_outward_from_middle() {
    let p = siege::trebuchet::launcher_positions();
    let xs: Vec<i32> = p.iter().map(|v| v.x).collect();
    assert_eq!(xs, vec![0, -10000, 10000, -20000, 20000, -30000, 30000, -40000, 40000, -50000, 50000]);
    assert!(p.iter().all(|v| v.y == 100 && v.z == 40000));
}

#[test]
fn fortress_pieces_by_name_prefix() {
    assert_eq!(piece_of("brick.012"), Some(FortressPiece::Brick));
    assert_eq!(piece_of("pillar"), Some(FortressPiece::Pillar));
    assert_eq!(piece_of("roof_top"), Some(FortressPiece::Roof));
    assert_eq!(piece_of("disk1"), Some(FortressPiece::Disk));
    assert_eq!(piece_of("a_brick"), None);
    assert_eq!(piece_of("bri"), None);
    assert_eq!(piece_of(""), None);
}
