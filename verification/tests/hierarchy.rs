use hall_signals::command::{BodyKind, Command};
use hall_signals::entity_set::EntitySet;
use hall_signals::hierarchy::{
    add_rigidbodies_to_colliders, assign_colliders_to_meshes,
    check_for_weighted_cube_in_hierarchy, has_marked_ancestor_or_self, siblings_where,
    ColliderPlan, ColliderShape,
};
use std::collections::HashMap;

fn tree() -> HashMap<u64, u64> {
    // 1 is the root; 2 and 3 hang below 1; 4 below 2; 5 below 4.
    let mut parents = HashMap::new();
    parents.insert(2, 1);
    parents.insert(3, 1);
    parents.insert(4, 2);
    parents.insert(5, 4);
    parents
}

#[test]
fn siblings_are_selected_by_membership() {
    let group = EntitySet::from_vec(&vec![2, 4, 1]);
    assert_eq!(siblings_where(1, &vec![1, 2, 3, 4], &group, true), vec![2, 4]);
    assert_eq!(siblings_where(1, &vec![1, 2, 3, 4], &group, false), vec![3]);
    assert_eq!(siblings_where(1, &vec![], &group, true), Vec::<u64>::new());
}

#[test]
fn marked_ancestor_is_found_up_the_tree() {
    let parents = tree();
    let marked = EntitySet::from_vec(&vec![2]);
    assert!(has_marked_ancestor_or_self(2, &marked, &parents));
    assert!(has_marked_ancestor_or_self(4, &marked, &parents));
    assert!(has_marked_ancestor_or_self(5, &marked, &parents));
    assert!(!has_marked_ancestor_or_self(3, &marked, &parents));
    assert!(!has_marked_ancestor_or_self(1, &marked, &parents));
    assert!(!has_marked_ancestor_or_self(99, &marked, &parents));
    let root = EntitySet::from_vec(&vec![1]);
    assert!(has_marked_ancestor_or_self(5, &root, &parents));
    assert!(!has_marked_ancestor_or_self(5, &EntitySet::new(), &parents));
}

#[test]
fn walk_stops_on_a_circle() {
    let mut parents = HashMap::new();
    parents.insert(1, 2);
    parents.insert(2, 3);
    parents.insert(3, 1);
    let marked = EntitySet::from_vec(&vec![9]);
    assert!(!has_marked_ancestor_or_self(1, &marked, &parents));
    let marked = EntitySet::from_vec(&vec![3]);
    assert!(has_marked_ancestor_or_self(1, &marked, &parents));
}

#[test]
fn cube_in_hierarchy_is_detected() {
    let parents = tree();
    let cubes = EntitySet::from_vec(&vec![4]);
    assert!(check_for_weighted_cube_in_hierarchy(5, &cubes, &parents));
    assert!(check_for_weighted_cube_in_hierarchy(4, &cubes, &parents));
    assert!(!check_for_weighted_cube_in_hierarchy(2, &cubes, &parents));
}

#[test]
fn doors_and_fancy_meshes_get_exact_colliders() {
    let parents = tree();
    let exact = EntitySet::from_vec(&vec![2]);
    let cubes = EntitySet::from_vec(&vec![3]);
    assert_eq!(
        assign_colliders_to_meshes(2, &exact, &cubes, &parents),
        ColliderPlan { shape: ColliderShape::Trimesh, needs_body: true }
    );
    assert_eq!(
        assign_colliders_to_meshes(4, &exact, &cubes, &parents),
        ColliderPlan { shape: ColliderShape::Trimesh, needs_body: true }
    );
    assert_eq!(
        assign_colliders_to_meshes(5, &exact, &cubes, &parents),
        ColliderPlan { shape: ColliderShape::ConvexHull, needs_body: true }
    );
    assert_eq!(
        assign_colliders_to_meshes(3, &exact, &cubes, &parents),
        ColliderPlan { shape: ColliderShape::ConvexHull, needs_body: false }
    );
}

#[test]
fn colliders_below_devices_get_no_body_of_their_own() {
    let parents = tree();
    let devices = EntitySet::from_vec(&vec![2]);
    assert_eq!(
        add_rigidbodies_to_colliders(5, BodyKind::Static, 4, &devices, &parents),
        vec![Command::RemoveNeedsBody(5)]
    );
    assert_eq!(
        add_rigidbodies_to_colliders(4, BodyKind::Static, 2, &devices, &parents),
        vec![Command::RemoveNeedsBody(4)]
    );
    assert_eq!(
        add_rigidbodies_to_colliders(3, BodyKind::Static, 1, &devices, &parents),
        vec![
            Command::InsertBody { entity: 3, kind: BodyKind::Static },
            Command::RemoveNeedsBody(3)
        ]
    );
    assert_eq!(
        add_rigidbodies_to_colliders(2, BodyKind::Kinematic, 1, &devices, &parents),
        vec![
            Command::InsertBody { entity: 2, kind: BodyKind::Kinematic },
            Command::RemoveNeedsBody(2)
        ]
    );
}
