use vstd::prelude::*;
use crate::world::{closer_than, is_closer_than, EntityId, Vec3};

verus! {

/// How close, in millimetres, a bot must stand to a door to open it.
pub const DOOR_REACH: u32 = 1250;

/// A door as a bot sees it: where it stood when closed, and the colliders
/// of its moving bodies.
pub struct DoorView {
    pub handle: EntityId,
    pub initial_position: Vec3,
    pub colliders: Vec<EntityId>,
}

/// Whether one of `hits` is one of `colliders`.
pub open spec fn blocks(colliders: Seq<EntityId>, hits: Seq<EntityId>) -> bool {
    exists|i: int, j: int| 0 <= i < hits.len() && 0 <= j < colliders.len() && hits[i] == colliders[j]
}

/// The doors among the first `n` of `doors` that stand within reach of
/// `position` and that the sight line hits, in order.
pub open spec fn doors_to_open(doors: Seq<DoorView>, position: Vec3, hits: Seq<EntityId>, n: int) -> Seq<EntityId>
    decreases n,
{
    if n <= 0 {
        Seq::empty()
    } else {
        let rest = doors_to_open(doors, position, hits, n - 1);
        let d = doors[n - 1];
        if closer_than(position, d.initial_position, DOOR_REACH) && blocks(d.colliders@, hits) {
            rest.push(d.handle)
        } else {
            rest
        }
    }
}

fn any_hit(colliders: &Vec<EntityId>, hits: &Vec<EntityId>) -> (r: bool)
    ensures
        r == blocks(colliders@, hits@),
{
    let mut i: usize = 0;
    while i < hits.len()
        invariant
            i <= hits@.len(),
            forall|a: int, b: int| 0 <= a < i && 0 <= b < colliders@.len() ==> hits@[a] != colliders@[b],
        decreases hits@.len() - i,
    {
        let mut j: usize = 0;
        while j < colliders.len()
            invariant
                i < hits@.len(),
                j <= colliders@.len(),
                forall|a: int, b: int| 0 <= a < i && 0 <= b < colliders@.len() ==> hits@[a] != colliders@[b],
                forall|b: int| 0 <= b < j ==> hits@[i as int] != colliders@[b],
            decreases colliders@.len() - j,
        {
            if hits[i] == colliders[j] {
                return true;
            }
            j = j + 1;
        }
        i = i + 1;
    }
    false
}

/// The doors that a bot at `position` should try to open: those within
/// reach whose bodies block the sight line to its target, given as the
/// colliders that the line hits.
pub fn doors_in_the_way(position: Vec3, hits: &Vec<EntityId>, doors: &Vec<DoorView>) -> (r: Vec<EntityId>)
    ensures
        r@ == doors_to_open(doors@, position, hits@, doors@.len() as int),
{
    let mut out: Vec<EntityId> = Vec::new();
    let mut k: usize = 0;
    while k < doors.len()
        invariant
            k <= doors@.len(),
            out@ == doors_to_open(doors@, position, hits@, k as int),
        decreases doors@.len() - k,
    {
        let d = &doors[k];
        if is_closer_than(position, d.initial_position, DOOR_REACH) && any_hit(&d.colliders, hits) {
            out.push(d.handle);
        }
        k = k + 1;
    }
    out
}

} // verus!
