use dungeon_scene::geometry::{union_aabb, Aabb, Vec3i};
use dungeon_scene::scene::{
    classify, fix_node, fix_scene_physics, is_barrel, BodyKind, ChildMesh, ColliderShape,
    NodeClass, NodeFix, SceneNode, SceneWarning,
};

const M: i64 = 1_000_000;

fn boxed(min: (i64, i64, i64), max: (i64, i64, i64)) -> Aabb {
    Aabb::from_min_max(Vec3i::new(min.0, min.1, min.2), Vec3i::new(max.0, max.1, max.2)).unwrap()
}

fn node(name: &str, children: Vec<ChildMesh>) -> SceneNode {
    SceneNode { name: String::from(name), children }
}

#[test]
fn union_is_associative_and_commutative() {
    let a = boxed((-M, -M, -M), (M, M, M));
    let b = boxed((-M / 2, -2 * M, -M / 2), (M / 2, 2 * M, M / 2));
    let c = boxed((3 * M, 0, -4 * M), (5 * M, M, -3 * M));
    let left = union_aabb(&union_aabb(&a, &b), &c);
    let right = union_aabb(&a, &union_aabb(&b, &c));
    assert_eq!(left, right);
    assert_eq!(union_aabb(&a, &b), union_aabb(&b, &a));
    assert_eq!(union_aabb(&b, &c), union_aabb(&c, &b));
    assert_eq!(left, boxed((-M, -2 * M, -4 * M), (5 * M, 2 * M, M)));
}

#[test]
fn inverted_corners_give_no_box() {
    assert!(Aabb::from_min_max(Vec3i::new(1, 0, 0), Vec3i::new(0, 0, 0)).is_none());
    assert!(Aabb::from_min_max(Vec3i::new(0, 0, 0), Vec3i::new(0, 0, 0)).is_some());
}

#[test]
fn half_extents_round_down() {
    let b = boxed((-3, 0, 10), (4, 9, 10));
    assert_eq!(b.half_extents(), Vec3i::new(3, 4, 0));
    let wide = boxed((i64::MIN, 0, 0), (i64::MAX, 0, 0));
    assert_eq!(wide.half_extents().x, i64::MAX);
}

#[test]
fn crate_rigid_gets_cuboid_from_union() {
    let n = node(
        "Crate01-rigid",
        vec![
            ChildMesh::Loaded(Some(boxed((-M, -M, -M), (M, M, M)))),
            ChildMesh::Loaded(Some(boxed((-M / 2, -2 * M, -M / 2), (M / 2, 2 * M, M / 2)))),
        ],
    );
    let fix = fix_node(&n);
    assert_eq!(fix.body(), Some(BodyKind::Dynamic));
    assert_eq!(
        fix.collider(),
        Some(ColliderShape::Cuboid { half_extents: Vec3i::new(M, 2 * M, M) })
    );
    assert!(!fix.hides());
    match fix {
        NodeFix::Rigid(_, warnings) => assert!(warnings.is_empty()),
        _ => panic!("expected a rigid fix"),
    }
}

#[test]
fn barrel_rigid_gets_cylinder() {
    let n = node(
        "Barrel01-rigid",
        vec![ChildMesh::Loaded(Some(boxed((-M / 2, -M, -M / 2), (M / 2, M, M / 2))))],
    );
    let fix = fix_node(&n);
    assert_eq!(fix.body(), Some(BodyKind::Dynamic));
    assert_eq!(fix.collider(), Some(ColliderShape::Cylinder { radius: M / 2, half_height: M }));
}

#[test]
fn rigid_children_in_any_order_give_same_collider() {
    let a = ChildMesh::Loaded(Some(boxed((-M, -M, -M), (M, M, M))));
    let b = ChildMesh::Loaded(Some(boxed((-M / 2, -2 * M, -M / 2), (M / 2, 2 * M, M / 2))));
    let first = fix_node(&node("Crate02-rigid", vec![a, b]));
    let second = fix_node(&node("Crate02-rigid", vec![b, a, b]));
    assert_eq!(first.collider(), second.collider());
}

#[test]
fn rigid_skips_children_without_geometry() {
    let n = node(
        "Crate03-rigid",
        vec![
            ChildMesh::Missing,
            ChildMesh::Loaded(Some(boxed((-M, 0, -M), (M, 2 * M, M)))),
            ChildMesh::NotLoaded,
            ChildMesh::Loaded(None),
        ],
    );
    match fix_node(&n) {
        NodeFix::Rigid(shape, warnings) => {
            assert_eq!(shape, ColliderShape::Cuboid { half_extents: Vec3i::new(M, M, M) });
            assert_eq!(
                warnings,
                vec![
                    SceneWarning::ChildWithoutMesh(0),
                    SceneWarning::MeshNotLoaded(2),
                    SceneWarning::MeshWithoutBounds(3),
                ]
            );
        }
        _ => panic!("expected a rigid fix"),
    }
}

#[test]
fn rigid_without_geometry_gets_zero_cuboid() {
    match fix_node(&node("Crate04-rigid", vec![])) {
        NodeFix::Rigid(shape, warnings) => {
            assert_eq!(shape, ColliderShape::Cuboid { half_extents: Vec3i::new(0, 0, 0) });
            assert!(warnings.is_empty());
        }
        _ => panic!("expected a rigid fix"),
    }
}

#[test]
fn colonly_with_one_mesh_child_gets_fixed_trimesh() {
    let fix = fix_node(&node("Wall-colonly", vec![ChildMesh::Loaded(None)]));
    assert!(fix.hides());
    assert_eq!(fix.body(), Some(BodyKind::Fixed));
    assert_eq!(fix.collider(), Some(ColliderShape::TriMesh { child: 0 }));
}

#[test]
fn colonly_without_children_warns_and_hides() {
    let fix = fix_node(&node("Wall-colonly", vec![]));
    assert!(fix.hides());
    assert_eq!(fix.body(), None);
    assert_eq!(fix.collider(), None);
    match fix {
        NodeFix::CollisionOnly(Err(w)) => assert_eq!(w, SceneWarning::NoChildren),
        _ => panic!("expected a warning"),
    }
}

#[test]
fn colonly_with_two_children_warns_and_hides() {
    let fix = fix_node(&node(
        "Wall-colonly",
        vec![ChildMesh::Loaded(None), ChildMesh::Loaded(None)],
    ));
    assert!(fix.hides());
    assert_eq!(fix.collider(), None);
    match fix {
        NodeFix::CollisionOnly(Err(w)) => assert_eq!(w, SceneWarning::TooManyChildren(2)),
        _ => panic!("expected a warning"),
    }
}

#[test]
fn colonly_child_mesh_problems_warn() {
    match fix_node(&node("Floor-colonly", vec![ChildMesh::Missing])) {
        NodeFix::CollisionOnly(Err(w)) => assert_eq!(w, SceneWarning::ChildWithoutMesh(0)),
        _ => panic!("expected a warning"),
    }
    match fix_node(&node("Floor-colonly", vec![ChildMesh::NotLoaded])) {
        NodeFix::CollisionOnly(Err(w)) => assert_eq!(w, SceneWarning::MeshNotLoaded(0)),
        _ => panic!("expected a warning"),
    }
}

#[test]
fn classification_by_tag() {
    assert_eq!(classify("Wall-colonly"), NodeClass::CollisionOnly);
    assert_eq!(classify("Wall-colonly.001"), NodeClass::CollisionOnly);
    assert_eq!(classify("Crate01-rigid"), NodeClass::Rigid);
    assert_eq!(classify("Odd-rigid-colonly"), NodeClass::CollisionOnly);
    assert_eq!(classify("Torch"), NodeClass::Other);
    assert_eq!(classify(""), NodeClass::Other);
    assert_eq!(classify("-colonl"), NodeClass::Other);
    assert!(is_barrel("Barrel01-rigid"));
    assert!(!is_barrel("barrel01-rigid"));
}

#[test]
fn other_nodes_are_untouched() {
    let fix = fix_node(&node("Pillar", vec![ChildMesh::Loaded(None)]));
    assert!(!fix.hides());
    assert_eq!(fix.body(), None);
    assert_eq!(fix.collider(), None);
}

#[test]
fn scene_pass_counts_each_class() {
    let nodes = vec![
        node("Wall-colonly", vec![ChildMesh::Loaded(None)]),
        node("Pillar", vec![]),
        node("Crate01-rigid", vec![ChildMesh::Loaded(Some(boxed((-M, -M, -M), (M, M, M))))]),
        node("Floor-colonly", vec![]),
        node("Barrel01-rigid", vec![]),
    ];
    let report = fix_scene_physics(&nodes);
    assert_eq!(report.collision_only, 2);
    assert_eq!(report.rigid, 2);
    assert_eq!(report.fixes.len(), 5);
    assert_eq!(report.fixes[0].body(), Some(BodyKind::Fixed));
    assert_eq!(report.fixes[1].body(), None);
    assert_eq!(
        report.fixes[2].collider(),
        Some(ColliderShape::Cuboid { half_extents: Vec3i::new(M, M, M) })
    );
    assert!(report.fixes[3].hides());
    assert_eq!(report.fixes[3].collider(), None);
    assert_eq!(
        report.fixes[4].collider(),
        Some(ColliderShape::Cylinder { radius: 0, half_height: 0 })
    );
}
