use vstd::prelude::*;
use crate::command::{count_down, saturating_minus};
use crate::random::RandomSource;
use crate::world::EntityId;

verus! {

/// Opacity, out of 255, of a fading effect with `remaining` of `total` left.
pub open spec fn fade_alpha(remaining: int, total: int) -> int {
    if total <= 0 { 0 } else { 255 * remaining / total }
}

/// A bullet hole or blood splat: it stays opaque for its lifetime, then
/// fades out over the fade interval and is removed. With no fade interval
/// it vanishes at once.
#[derive(PartialEq, Eq, Structural, Clone, Copy, Debug)]
pub struct Decal {
    /// Milliseconds left before fading starts; negative while fading.
    pub lifetime: i64,
    /// Length of the fade in milliseconds.
    pub fade_interval: i64,
}

/// What a decal shows after a tick.
#[derive(PartialEq, Eq, Structural, Clone, Copy, Debug)]
pub struct DecalFrame {
    pub alpha: u8,
    pub remove: bool,
}

/// The opacity of a decal at `lifetime` with a fade of `fade`.
pub open spec fn decal_alpha(lifetime: i64, fade: i64) -> int {
    if lifetime > 0 {
        255
    } else {
        let gone = if -lifetime < fade { -lifetime } else { fade as int };
        fade_alpha(fade - gone, fade as int)
    }
}

impl Decal {
    pub fn new() -> (r: Decal)
        ensures
            r.lifetime == 10000,
            r.fade_interval == 1000,
    {
        Decal { lifetime: 10000, fade_interval: 1000 }
    }

    /// Ages the decal by `dt` milliseconds.
    pub fn on_update(&mut self, dt: u32) -> (r: DecalFrame)
        ensures
            final(self).fade_interval == old(self).fade_interval,
            final(self).lifetime == saturating_minus(old(self).lifetime, dt as int),
            r.alpha == decal_alpha(final(self).lifetime, final(self).fade_interval),
            r.remove == (final(self).lifetime < 0 && -final(self).lifetime > final(self).fade_interval),
    {
        self.lifetime = count_down(self.lifetime, dt);
        let fade = self.fade_interval;
        let alpha: u8 = if self.lifetime > 0 {
            255
        } else if fade <= 0 {
            0
        } else {
            let past: i128 = -(self.lifetime as i128);
            let gone: i128 = if past < fade as i128 { past } else { fade as i128 };
            proof {
                assert(0 <= 255 * (fade - gone) <= 255 * fade) by (nonlinear_arith)
                    requires 0 <= gone <= fade;
                assert(255 * (fade - gone) / (fade as int) <= 255) by (nonlinear_arith)
                    requires 0 <= gone <= fade, fade > 0;
            }
            (255 * (fade as i128 - gone) / fade as i128) as u8
        };
        let remove = self.lifetime < 0 && -(self.lifetime as i128) > fade as i128;
        DecalFrame { alpha, remove }
    }
}

/// The trail that a shot leaves: it fades out over its lifetime.
#[derive(PartialEq, Eq, Structural, Clone, Copy, Debug)]
pub struct ShotTrail {
    pub node: EntityId,
    /// Milliseconds since the shot, never past `max_lifetime`.
    pub lifetime: u32,
    pub max_lifetime: u32,
}

impl ShotTrail {
    pub fn new(node: EntityId, max_lifetime: u32) -> (r: ShotTrail)
        ensures
            r.node == node,
            r.lifetime == 0,
            r.max_lifetime == max_lifetime,
    {
        ShotTrail { node, lifetime: 0, max_lifetime }
    }
}

/// A trail aged by `dt` milliseconds.
pub open spec fn aged(t: ShotTrail, dt: u32) -> ShotTrail {
    ShotTrail {
        lifetime: if t.lifetime + dt >= t.max_lifetime { t.max_lifetime } else { (t.lifetime + dt) as u32 },
        ..t
    }
}

/// The trails of `ts` that are still alive after `dt`, aged, in order.
pub open spec fn surviving(ts: Seq<ShotTrail>, dt: u32) -> Seq<ShotTrail>
    decreases ts.len(),
{
    if ts.len() == 0 {
        Seq::empty()
    } else {
        let rest = surviving(ts.drop_last(), dt);
        let t = aged(ts.last(), dt);
        if t.lifetime < t.max_lifetime { rest.push(t) } else { rest }
    }
}

/// The nodes of the trails of `ts` that expire within `dt`, in order.
pub open spec fn expiring(ts: Seq<ShotTrail>, dt: u32) -> Seq<EntityId>
    decreases ts.len(),
{
    if ts.len() == 0 {
        Seq::empty()
    } else {
        let rest = expiring(ts.drop_last(), dt);
        let t = aged(ts.last(), dt);
        if t.lifetime < t.max_lifetime { rest } else { rest.push(t.node) }
    }
}

/// What the trails show after a tick: the opacity of each trail, and the
/// nodes of the trails that expired.
pub struct TrailFrame {
    pub alphas: Vec<(EntityId, u8)>,
    pub removed: Vec<EntityId>,
}

pub struct ShotTrailContainer {
    pub container: Vec<ShotTrail>,
}

impl ShotTrailContainer {
    pub fn new() -> (r: ShotTrailContainer)
        ensures
            r.container@.len() == 0,
    {
        ShotTrailContainer { container: Vec::new() }
    }

    pub fn add(&mut self, trail: ShotTrail)
        ensures
            final(self).container@ == old(self).container@.push(trail),
    {
        self.container.push(trail);
    }

    /// Ages every trail by `dt`, fades it, and drops the ones that expired.
    pub fn update(&mut self, dt: u32) -> (r: TrailFrame)
        ensures
            final(self).container@ == surviving(old(self).container@, dt),
            r.removed@ == expiring(old(self).container@, dt),
            r.alphas@.len() == old(self).container@.len(),
            forall|i: int| 0 <= i < r.alphas@.len() ==> {
                let t = aged(old(self).container@[i], dt);
                (#[trigger] r.alphas@[i]).0 == t.node
                    && r.alphas@[i].1 == fade_alpha(t.max_lifetime - t.lifetime, t.max_lifetime as int)
            },
    {
        let ghost old_trails = self.container@;
        let mut kept: Vec<ShotTrail> = Vec::new();
        let mut removed: Vec<EntityId> = Vec::new();
        let mut alphas: Vec<(EntityId, u8)> = Vec::new();
        let mut i: usize = 0;
        while i < self.container.len()
            invariant
                self.container@ == old_trails,
                i <= old_trails.len(),
                kept@ == surviving(old_trails.take(i as int), dt),
                removed@ == expiring(old_trails.take(i as int), dt),
                alphas@.len() == i,
                forall|k: int| 0 <= k < i ==> {
                    let t = aged(old_trails[k], dt);
                    (#[trigger] alphas@[k]).0 == t.node
                        && alphas@[k].1 == fade_alpha(t.max_lifetime - t.lifetime, t.max_lifetime as int)
                },
            decreases old_trails.len() - i,
        {
            let t = self.container[i];
            let sum: u64 = t.lifetime as u64 + dt as u64;
            let lifetime: u32 = if sum >= t.max_lifetime as u64 { t.max_lifetime } else { sum as u32 };
            let trail = ShotTrail { node: t.node, lifetime, max_lifetime: t.max_lifetime };
            let alpha: u8 = if t.max_lifetime == 0 {
                0
            } else {
                let left: u64 = (t.max_lifetime - lifetime) as u64;
                proof {
                    assert(255 * left <= 255 * (t.max_lifetime as int)) by (nonlinear_arith)
                        requires left <= t.max_lifetime;
                    assert(255 * (left as int) / (t.max_lifetime as int) <= 255) by (nonlinear_arith)
                        requires left <= t.max_lifetime, t.max_lifetime > 0;
                }
                (255 * left / t.max_lifetime as u64) as u8
            };
            alphas.push((t.node, alpha));
            proof {
                let s = old_trails.take(i + 1);
                assert(s.drop_last() =~= old_trails.take(i as int));
                assert(s.last() == t);
                assert(trail == aged(t, dt));
            }
            if lifetime < t.max_lifetime {
                kept.push(trail);
            } else {
                removed.push(t.node);
            }
            i = i + 1;
        }
        proof {
            assert(old_trails.take(i as int) =~= old_trails);
        }
        self.container = kept;
        TrailFrame { alphas, removed }
    }
}

/// A light that flickers: it toggles whenever its timer runs out, then
/// waits between 100 and 500 milliseconds.
#[derive(PartialEq, Eq, Structural, Clone, Copy, Debug)]
pub struct AnimatedLight {
    pub timer: i64,
}

impl AnimatedLight {
    pub fn new() -> (r: AnimatedLight)
        ensures
            r.timer == 0,
    {
        AnimatedLight { timer: 0 }
    }

    /// Counts the timer down by `dt`; says whether the light toggles now.
    pub fn on_update(&mut self, dt: u32, rng: &mut RandomSource) -> (toggle: bool)
        ensures
            toggle == (saturating_minus(old(self).timer, dt as int) < 0),
            toggle ==> 100 <= final(self).timer < 500,
            !toggle ==> final(self).timer == saturating_minus(old(self).timer, dt as int),
    {
        self.timer = count_down(self.timer, dt);
        if self.timer < 0 {
            self.timer = 100 + rng.next_below(400) as i64;
            true
        } else {
            false
        }
    }
}

} // verus!
