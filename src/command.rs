use vstd::prelude::*;
use crate::world::{EntityId, Vec3};

verus! {

/// The hostile that a bot tracks: who it is and where it was last seen.
#[derive(PartialEq, Eq, Structural, Clone, Copy, Debug)]
pub struct Target {
    pub position: Vec3,
    pub handle: EntityId,
}

/// The part of a body that a hit landed on.
#[derive(PartialEq, Eq, Structural, Clone, Copy, Debug)]
pub struct HitBox {
    pub is_head: bool,
}

/// A deferred effect in a bot's command queue.
#[derive(PartialEq, Eq, Structural, Clone, Copy, Debug)]
pub enum BotCommand {
    /// Damage dealt by `who` (a combatant, a weapon, or nobody known).
    /// `critical_shot_probability` is in thousandths; values outside
    /// `0..=1000` count as the nearest bound.
    Damage {
        who: EntityId,
        amount: u32,
        hitbox: Option<HitBox>,
        critical_shot_probability: i64,
    },
    /// A physical push on the body part `handle`.
    HandleImpact {
        handle: EntityId,
        impact_point: Vec3,
        direction: Vec3,
    },
}

/// Which of the species' sound lists a sound comes from.
#[derive(PartialEq, Eq, Structural, Clone, Copy, Debug)]
pub enum SoundKind {
    Pain,
    Attack,
}

/// A one-shot sound to play at `position`: entry `index` of the list
/// `kind`, with its gain, rolloff factor and radius in thousandths.
#[derive(PartialEq, Eq, Structural, Clone, Copy, Debug)]
pub struct SoundRequest {
    pub kind: SoundKind,
    pub index: usize,
    pub position: Vec3,
    pub gain: u32,
    pub rolloff_factor: u32,
    pub radius: u32,
}

/// The play parameters of a kind of sound, in thousandths: gain, rolloff
/// factor and radius. Pain is quieter and carries less far than a swing.
pub open spec fn sound_parameters(kind: SoundKind) -> (u32, u32, u32) {
    match kind {
        SoundKind::Pain => (800, 1000, 600),
        SoundKind::Attack => (1000, 1000, 1000),
    }
}

/// The request for entry `index` of the list `kind` at `position`.
pub open spec fn sound_request(kind: SoundKind, index: usize, position: Vec3) -> SoundRequest {
    let (gain, rolloff_factor, radius) = sound_parameters(kind);
    SoundRequest { kind, index, position, gain, rolloff_factor, radius }
}

impl SoundRequest {
    pub fn new(kind: SoundKind, index: usize, position: Vec3) -> (r: SoundRequest)
        ensures
            r == sound_request(kind, index, position),
    {
        let (gain, rolloff_factor, radius): (u32, u32, u32) = match kind {
            SoundKind::Pain => (800, 1000, 600),
            SoundKind::Attack => (1000, 1000, 1000),
        };
        SoundRequest { kind, index, position, gain, rolloff_factor, radius }
    }
}

/// `a - b`, held at `i64::MIN` where it would go below.
pub open spec fn saturating_minus(a: i64, b: int) -> i64 {
    if a - b < i64::MIN { i64::MIN } else { (a - b) as i64 }
}

/// Counts a timer down by `dt` milliseconds, holding it at `i64::MIN`.
pub fn count_down(timer: i64, dt: u32) -> (r: i64)
    ensures
        r == saturating_minus(timer, dt as int),
{
    if timer < i64::MIN + (dt as i64) {
        i64::MIN
    } else {
        timer - dt as i64
    }
}

} // verus!
