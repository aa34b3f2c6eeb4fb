//! Questions about the scene tree: siblings and ancestors.

use crate::command::{BodyKind, Command};
use crate::entity_set::{EntityId, EntitySet};
use std::collections::HashMap;
use vstd::prelude::*;

verus! {

/// The test "is not `me`, and is in `group` exactly if `member` says so".
pub open spec fn sibling_test(
    me: EntityId,
    group: Seq<EntityId>,
    member: bool,
) -> spec_fn(EntityId) -> bool {
    |e: EntityId| e != me && group.contains(e) == member
}

/// The siblings of `me` that are in `group` (with `member` set) or outside
/// it (with `member` unset), in the order of `siblings`. `siblings` may
/// hold `me`, which is never returned.
pub fn siblings_where(
    me: EntityId,
    siblings: &Vec<EntityId>,
    group: &EntitySet,
    member: bool,
) -> (found: Vec<EntityId>)
    ensures
        found@ == siblings@.filter(sibling_test(me, group@, member)),
{
    let ghost test = sibling_test(me, group@, member);
    let mut found: Vec<EntityId> = Vec::new();
    let mut i: usize = 0;
    proof {
        siblings@.take(0).lemma_filter_len(test);
        assert(siblings@.take(0).filter(test) =~= found@);
    }
    while i < siblings.len()
        invariant
            i <= siblings@.len(),
            test == sibling_test(me, group@, member),
            found@ == siblings@.take(i as int).filter(test),
        decreases siblings.len() - i,
    {
        let sibling = siblings[i];
        proof {
            let upto = siblings@.take(i as int);
            assert(siblings@.take(i + 1) =~= upto.push(sibling));
            upto.lemma_filter_push(sibling, test);
        }
        if sibling != me && group.contains(sibling) == member {
            found.push(sibling);
        }
        i += 1;
    }
    proof {
        assert(siblings@.take(i as int) =~= siblings@);
    }
    found
}

/// Whether `entity` or one of its ancestors, up to `steps` levels above
/// it, is in `marked`. `parents` maps each child to its parent.
pub open spec fn marked_within(
    entity: EntityId,
    marked: Seq<EntityId>,
    parents: Map<EntityId, EntityId>,
    steps: nat,
) -> bool
    decreases steps,
{
    marked.contains(entity) || (steps > 0 && parents.contains_key(entity) && marked_within(
        parents[entity],
        marked,
        parents,
        (steps - 1) as nat,
    ))
}

/// What is found within some number of levels is found within more.
pub proof fn lemma_marked_within_more(
    entity: EntityId,
    marked: Seq<EntityId>,
    parents: Map<EntityId, EntityId>,
    fewer: nat,
    more: nat,
)
    requires
        fewer <= more,
        marked_within(entity, marked, parents, fewer),
    ensures
        marked_within(entity, marked, parents, more),
    decreases fewer,
{
    if !marked.contains(entity) {
        lemma_marked_within_more(
            parents[entity],
            marked,
            parents,
            (fewer - 1) as nat,
            (more - 1) as nat,
        );
    }
}

/// Whether `entity` or one of its ancestors is in `marked`.
///
/// The walk goes up at most as many levels as `parents` has entries: a
/// chain of distinct children cannot be longer, so in a tree it reaches
/// the root, and where the relation runs in a circle it still stops.
pub fn has_marked_ancestor_or_self(
    entity: EntityId,
    marked: &EntitySet,
    parents: &HashMap<EntityId, EntityId>,
) -> (found: bool)
    ensures
        found == marked_within(entity, marked@, parents@, parents@.len()),
{
    let limit: usize = parents.len();
    let mut current: EntityId = entity;
    let mut steps: usize = 0;
    loop
        invariant
            steps <= limit,
            limit == parents@.len(),
            marked_within(entity, marked@, parents@, parents@.len()) == marked_within(
                current,
                marked@,
                parents@,
                (limit - steps) as nat,
            ),
        decreases limit - steps,
    {
        if marked.contains(current) {
            return true;
        }
        if steps == limit {
            return false;
        }
        match parents.get(&current) {
            Some(parent) => {
                current = *parent;
                steps += 1;
            },
            None => {
                return false;
            },
        }
    }
}

/// Whether the mesh entity `entity` lies inside a weighted cube: whether
/// it or one of its ancestors is one of `weighted_cubes`.
pub fn check_for_weighted_cube_in_hierarchy(
    entity: EntityId,
    weighted_cubes: &EntitySet,
    parents: &HashMap<EntityId, EntityId>,
) -> (found: bool)
    ensures
        found == marked_within(entity, weighted_cubes@, parents@, parents@.len()),
{
    has_marked_ancestor_or_self(entity, weighted_cubes, parents)
}

/// The shape of the collider that a mesh gets.
#[derive(Clone, Copy, Debug, PartialEq, Eq, Structural)]
pub enum ColliderShape {
    /// The mesh itself, triangle by triangle.
    Trimesh,
    /// The convex hull of the mesh.
    ConvexHull,
}

/// What a new mesh entity gets.
#[derive(Clone, Copy, Debug, PartialEq, Eq, Structural)]
pub struct ColliderPlan {
    /// The shape of its collider.
    pub shape: ColliderShape,
    /// Whether it is marked as waiting for a static body.
    pub needs_body: bool,
}

/// Plans the collider of the new mesh entity `entity`.
///
/// The collider follows the mesh exactly where the entity or its parent
/// is in `exact` (doors and fancy meshes), and is a convex hull
/// otherwise. The entity waits for a body unless it lies inside a
/// weighted cube.
pub fn assign_colliders_to_meshes(
    entity: EntityId,
    exact: &EntitySet,
    weighted_cubes: &EntitySet,
    parents: &HashMap<EntityId, EntityId>,
) -> (plan: ColliderPlan)
    ensures
        plan.shape == if exact@.contains(entity) || (parents@.contains_key(entity)
            && exact@.contains(parents@[entity])) {
            ColliderShape::Trimesh
        } else {
            ColliderShape::ConvexHull
        },
        plan.needs_body == !marked_within(entity, weighted_cubes@, parents@, parents@.len()),
{
    let entity_needs_trimesh = exact.contains(entity);
    let parent_needs_trimesh = match parents.get(&entity) {
        Some(parent) => exact.contains(*parent),
        None => false,
    };
    let has_weighted_cube_parent = check_for_weighted_cube_in_hierarchy(
        entity,
        weighted_cubes,
        parents,
    );
    let shape = if entity_needs_trimesh || parent_needs_trimesh {
        ColliderShape::Trimesh
    } else {
        ColliderShape::ConvexHull
    };
    ColliderPlan { shape, needs_body: !has_weighted_cube_parent }
}

/// The commands that settle the pending body of a collider.
pub open spec fn settle_body_spec(entity: EntityId, kind: BodyKind, excluded: bool) -> Seq<Command> {
    if excluded {
        seq![Command::RemoveNeedsBody(entity)]
    } else {
        seq![Command::InsertBody { entity, kind }, Command::RemoveNeedsBody(entity)]
    }
}

/// Settles the pending body of the collider `entity`, whose parent is
/// `parent`.
///
/// The collider gets a body of kind `kind` unless one of its ancestors is
/// in `exclusions`: those are devices that give themselves a body when
/// they are registered. Either way the collider stops waiting.
pub fn add_rigidbodies_to_colliders(
    entity: EntityId,
    kind: BodyKind,
    parent: EntityId,
    exclusions: &EntitySet,
    parents: &HashMap<EntityId, EntityId>,
) -> (commands: Vec<Command>)
    ensures
        commands@ == settle_body_spec(
            entity,
            kind,
            marked_within(parent, exclusions@, parents@, parents@.len()),
        ),
{
    let has_excluded_parent = has_marked_ancestor_or_self(parent, exclusions, parents);
    let mut commands: Vec<Command> = Vec::new();
    if !has_excluded_parent {
        commands.push(Command::InsertBody { entity, kind });
    }
    commands.push(Command::RemoveNeedsBody(entity));
    commands
}

} // verus!
