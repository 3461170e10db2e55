//! Nearest-target selection.
//!
//! A scan over candidate targets picks the one closest to a point among
//! those not excluded; of several at the same distance the first wins.

use vstd::prelude::*;
use crate::geometry::{dist_sq, dist_sq_spec, in_world, Vec2};

verus! {

/// An opaque entity handle: a slot and the generation of its occupant.
#[derive(Clone, Copy, Debug, PartialEq, Eq, Structural)]
pub struct EntityId {
    pub index: u64,
    pub generation: u64,
}

/// A targetable entity and where it stands.
#[derive(Clone, Copy, Debug, PartialEq, Eq, Structural)]
pub struct Target {
    pub id: EntityId,
    pub pos: Vec2,
}

/// All candidate positions lie in the world.
pub open spec fn targets_in_world(targets: Seq<Target>) -> bool {
    forall|i: int| 0 <= i < targets.len() ==> in_world(#[trigger] targets[i].pos)
}

/// Candidate `i` may be chosen: it exists and its entity is not excluded.
pub open spec fn eligible(targets: Seq<Target>, excluded: Seq<EntityId>, i: int) -> bool {
    0 <= i < targets.len() && !excluded.contains(targets[i].id)
}

/// Candidate `i` is the nearest eligible one to `from`, and the first of
/// those at that distance.
pub open spec fn is_nearest(targets: Seq<Target>, excluded: Seq<EntityId>, from: Vec2, i: int) -> bool {
    &&& eligible(targets, excluded, i)
    &&& forall|j: int|
        eligible(targets, excluded, j) ==> dist_sq_spec(targets[i].pos, from) <= dist_sq_spec(
            #[trigger] targets[j].pos,
            from,
        )
    &&& forall|j: int|
        0 <= j < i && eligible(targets, excluded, j) ==> dist_sq_spec(targets[i].pos, from)
            < dist_sq_spec(#[trigger] targets[j].pos, from)
}

/// Some target is eligible when the entities of `excluded` are left out.
pub open spec fn has_nearest(targets: Seq<Target>, excluded: Seq<EntityId>, from: Vec2) -> bool {
    exists|i: int| is_nearest(targets, excluded, from, i)
}

/// The nearest eligible target, where one exists.
pub open spec fn nearest_spec(targets: Seq<Target>, excluded: Seq<EntityId>, from: Vec2) -> int {
    choose|i: int| is_nearest(targets, excluded, from, i)
}

/// At most one candidate is the nearest.
pub proof fn lemma_nearest_unique(
    targets: Seq<Target>,
    excluded: Seq<EntityId>,
    from: Vec2,
    i: int,
    j: int,
)
    requires
        is_nearest(targets, excluded, from, i),
        is_nearest(targets, excluded, from, j),
    ensures
        i == j,
{
    if i < j {
        assert(dist_sq_spec(targets[j].pos, from) < dist_sq_spec(targets[i].pos, from));
    } else if j < i {
        assert(dist_sq_spec(targets[i].pos, from) < dist_sq_spec(targets[j].pos, from));
    }
}

fn is_excluded(excluded: &Vec<EntityId>, id: EntityId) -> (r: bool)
    ensures
        r == excluded@.contains(id),
{
    let mut i: usize = 0;
    while i < excluded.len()
        invariant
            i <= excluded.len(),
            forall|j: int| 0 <= j < i ==> excluded@[j] != id,
        decreases excluded.len() - i,
    {
        if excluded[i] == id {
            return true;
        }
        i = i + 1;
    }
    false
}

/// The nearest eligible target to `from`, or `None` when every candidate is
/// excluded or there are none.
pub fn nearest(targets: &Vec<Target>, excluded: &Vec<EntityId>, from: Vec2) -> (r: Option<usize>)
    requires
        in_world(from),
        targets_in_world(targets@),
    ensures
        match r {
            Some(i) => is_nearest(targets@, excluded@, from, i as int),
            None => forall|j: int| !eligible(targets@, excluded@, j),
        },
{
    let mut best: Option<usize> = None;
    let mut best_d: u128 = 0;
    let mut i: usize = 0;
    while i < targets.len()
        invariant
            i <= targets.len(),
            in_world(from),
            targets_in_world(targets@),
            match best {
                Some(b) => b < i && best_d == dist_sq_spec(targets@[b as int].pos, from)
                    && eligible(targets@, excluded@, b as int) && (forall|j: int|
                    0 <= j < i && eligible(targets@, excluded@, j) ==> best_d <= dist_sq_spec(
                        #[trigger] targets@[j].pos,
                        from,
                    )) && (forall|j: int|
                    0 <= j < b && eligible(targets@, excluded@, j) ==> best_d < dist_sq_spec(
                        #[trigger] targets@[j].pos,
                        from,
                    )),
                None => forall|j: int| 0 <= j < i ==> !eligible(targets@, excluded@, j),
            },
        decreases targets.len() - i,
    {
        let t = targets[i];
        if !is_excluded(excluded, t.id) {
            assert(in_world(targets@[i as int].pos));
            let d = dist_sq(t.pos, from);
            match best {
                Some(_) => {
                    if d < best_d {
                        best = Some(i);
                        best_d = d;
                    }
                },
                None => {
                    best = Some(i);
                    best_d = d;
                },
            }
        }
        i = i + 1;
    }
    best
}

} // verus!
