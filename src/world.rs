use vstd::prelude::*;

verus! {

/// A reference to an entity of the scene, as the host hands it out.
#[derive(PartialEq, Eq, Structural, Clone, Copy, Debug)]
pub struct EntityId {
    pub index: u32,
    pub generation: u32,
}

/// A point or a direction in the world, in millimetres.
#[derive(PartialEq, Eq, Structural, Clone, Copy, Debug)]
pub struct Vec3 {
    pub x: i64,
    pub y: i64,
    pub z: i64,
}

/// What an entity of the scene is, as far as damage resolution cares.
#[derive(PartialEq, Eq, Structural, Clone, Copy, Debug)]
pub enum Role {
    /// A bot or a player: something that fights and can be targeted.
    Combatant,
    /// A weapon or a projectile, held or fired by `owner`.
    Weapon { owner: EntityId },
    /// Anything else.
    Other,
}

#[derive(PartialEq, Eq, Structural, Clone, Copy, Debug)]
pub struct Entity {
    pub id: EntityId,
    pub role: Role,
    pub position: Vec3,
}

/// A snapshot of the scene that the host hands to a bot each tick: the
/// entities that exist, with their roles and positions.
pub struct World {
    pub entities: Vec<Entity>,
}

/// The first entity of `es` that carries `id`, if any.
pub open spec fn find_entity(es: Seq<Entity>, id: EntityId) -> Option<Entity>
    decreases es.len(),
{
    if es.len() == 0 {
        None
    } else if es[0].id == id {
        Some(es[0])
    } else {
        find_entity(es.drop_first(), id)
    }
}

/// The combatant that a damage source stands for: the source itself when it
/// is a combatant, the owner of a weapon when that owner is a combatant,
/// nobody otherwise. Gives the combatant's id and current position.
pub open spec fn resolve_source(es: Seq<Entity>, who: EntityId) -> Option<(EntityId, Vec3)> {
    match find_entity(es, who) {
        Some(e) => match e.role {
            Role::Combatant => Some((who, e.position)),
            Role::Weapon { owner } => match find_entity(es, owner) {
                Some(o) => if o.role == Role::Combatant {
                    Some((owner, o.position))
                } else {
                    None
                },
                None => None,
            },
            Role::Other => None,
        },
        None => None,
    }
}

impl World {
    pub fn find(&self, id: EntityId) -> (r: Option<Entity>)
        ensures
            r == find_entity(self.entities@, id),
    {
        let mut i: usize = 0;
        proof {
            assert(self.entities@.skip(0) =~= self.entities@);
        }
        while i < self.entities.len()
            invariant
                i <= self.entities@.len(),
                find_entity(self.entities@, id) == find_entity(self.entities@.skip(i as int), id),
            decreases self.entities@.len() - i,
        {
            let e = self.entities[i];
            proof {
                let rest = self.entities@.skip(i as int);
                assert(rest[0] == e);
                assert(rest.drop_first() =~= self.entities@.skip(i + 1));
            }
            if e.id == id {
                return Some(e);
            }
            i = i + 1;
        }
        proof {
            assert(self.entities@.skip(i as int).len() == 0);
        }
        None
    }

    /// Resolves a damage source to the combatant behind it.
    pub fn resolve_source(&self, who: EntityId) -> (r: Option<(EntityId, Vec3)>)
        ensures
            r == resolve_source(self.entities@, who),
    {
        match self.find(who) {
            Some(e) => match e.role {
                Role::Combatant => Some((who, e.position)),
                Role::Weapon { owner } => match self.find(owner) {
                    Some(o) => match o.role {
                        Role::Combatant => Some((owner, o.position)),
                        _ => None,
                    },
                    None => None,
                },
                Role::Other => None,
            },
            None => None,
        }
    }

    pub fn contains(&self, id: EntityId) -> (r: bool)
        ensures
            r == find_entity(self.entities@, id).is_some(),
    {
        self.find(id).is_some()
    }
}

/// The squared distance between `p` and `q`, in square millimetres.
pub open spec fn squared_distance(p: Vec3, q: Vec3) -> int {
    let dx = p.x - q.x;
    let dy = p.y - q.y;
    let dz = p.z - q.z;
    dx * dx + dy * dy + dz * dz
}

/// Whether `p` lies within `radius` millimetres of `center`.
pub open spec fn within(p: Vec3, center: Vec3, radius: u32) -> bool {
    squared_distance(p, center) <= (radius as int) * (radius as int)
}

/// Whether `p` lies closer than `radius` millimetres to `center`.
pub open spec fn closer_than(p: Vec3, center: Vec3, radius: u32) -> bool {
    squared_distance(p, center) < (radius as int) * (radius as int)
}

/// The squared distance between `p` and `center` where no axis alone puts
/// them further apart than `radius`; `None` where one does, and the points
/// are then further apart than `radius`. Testing the axes first keeps the
/// squares small.
fn squared_distance_near(p: Vec3, center: Vec3, radius: u32) -> (r: Option<i128>)
    ensures
        r matches Some(d) ==> d == squared_distance(p, center),
        r is None ==> squared_distance(p, center) > (radius as int) * (radius as int),
{
    let dx: i128 = p.x as i128 - center.x as i128;
    let dy: i128 = p.y as i128 - center.y as i128;
    let dz: i128 = p.z as i128 - center.z as i128;
    let r: i128 = radius as i128;
    if dx > r || -dx > r || dy > r || -dy > r || dz > r || -dz > r {
        proof {
            let (a, b, c) = (dx as int, dy as int, dz as int);
            let rr = r as int;
            assert(rr >= 0);
            assert((a > rr || -a > rr) ==> a * a > rr * rr) by (nonlinear_arith)
                requires rr >= 0;
            assert((b > rr || -b > rr) ==> b * b > rr * rr) by (nonlinear_arith)
                requires rr >= 0;
            assert((c > rr || -c > rr) ==> c * c > rr * rr) by (nonlinear_arith)
                requires rr >= 0;
            assert(a * a >= 0 && b * b >= 0 && c * c >= 0) by (nonlinear_arith);
        }
        return None;
    }
    proof {
        let rr = r as int;
        assert(0 <= dx * dx <= rr * rr && 0 <= dy * dy <= rr * rr && 0 <= dz * dz <= rr * rr) by (nonlinear_arith)
            requires
                -rr <= dx <= rr,
                -rr <= dy <= rr,
                -rr <= dz <= rr,
        ;
        assert(rr * rr <= 0xFFFF_FFFFint * 0xFFFF_FFFFint) by (nonlinear_arith)
            requires
                0 <= rr <= 0xFFFF_FFFFint,
        ;
    }
    Some(dx * dx + dy * dy + dz * dz)
}

pub fn is_within(p: Vec3, center: Vec3, radius: u32) -> (r: bool)
    ensures
        r == within(p, center, radius),
{
    let r = radius as i128;
    proof {
        assert(r * r <= 0xFFFF_FFFFint * 0xFFFF_FFFFint) by (nonlinear_arith)
            requires 0 <= r <= 0xFFFF_FFFFint;
        assert(r * r >= 0) by (nonlinear_arith) requires r >= 0;
    }
    match squared_distance_near(p, center, radius) {
        Some(d) => d <= r * r,
        None => false,
    }
}

pub fn is_closer_than(p: Vec3, center: Vec3, radius: u32) -> (r: bool)
    ensures
        r == closer_than(p, center, radius),
{
    let r = radius as i128;
    proof {
        assert(r * r <= 0xFFFF_FFFFint * 0xFFFF_FFFFint) by (nonlinear_arith)
            requires 0 <= r <= 0xFFFF_FFFFint;
        assert(r * r >= 0) by (nonlinear_arith) requires r >= 0;
    }
    match squared_distance_near(p, center, radius) {
        Some(d) => d < r * r,
        None => false,
    }
}

} // verus!
