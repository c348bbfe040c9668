use vstd::prelude::*;
use crate::command::{count_down, saturating_minus};

verus! {

#[derive(PartialEq, Eq, Structural, Clone, Copy, Debug)]
pub struct Color {
    pub r: u8,
    pub g: u8,
    pub b: u8,
    pub a: u8,
}

/// The resting colour of the laser.
pub open spec fn normal_color() -> Color {
    Color { r: 0, g: 162, b: 232, a: 200 }
}

/// How long, in milliseconds, the sight shows that a shot hit.
pub const HIT_DETECTED_TIME: i64 = 400;

/// How long, in milliseconds, the sight shows that an enemy died.
pub const ENEMY_KILLED_TIME: i64 = 550;

/// What the sight reacts to.
#[derive(PartialEq, Eq, Structural, Clone, Copy, Debug)]
pub enum SightReaction {
    HitDetected,
    EnemyKilled,
}

/// A running reaction: a colour that fades from `begin_color` back to
/// `end_color`, and for a kill a beam that shrinks back from
/// `dilation_factor` (thousandths) to its normal width.
#[derive(PartialEq, Eq, Structural, Clone, Copy, Debug)]
pub enum ReactionState {
    HitDetected { time_remaining: i64, begin_color: Color, end_color: Color },
    EnemyKilled { time_remaining: i64, dilation_factor: u32, begin_color: Color, end_color: Color },
}

/// What the sight shows after a tick of a running reaction.
#[derive(PartialEq, Eq, Structural, Clone, Copy, Debug)]
pub struct SightFrame {
    pub color: Color,
    /// Beam width in thousandths of the normal one.
    pub dilation: u32,
}

/// `from` moved towards `to` by `t` thousandths of the way (past it when
/// `t` exceeds 1000), held to `0..=limit`.
pub open spec fn lerp(from: int, to: int, t: int, limit: int) -> int {
    let v = if to >= from { from + (to - from) * t / 1000 } else { from - (from - to) * t / 1000 };
    if v < 0 { 0 } else if v > limit { limit } else { v }
}

pub open spec fn lerp_color(from: Color, to: Color, t: int) -> Color {
    Color {
        r: lerp(from.r as int, to.r as int, t, 255) as u8,
        g: lerp(from.g as int, to.g as int, t, 255) as u8,
        b: lerp(from.b as int, to.b as int, t, 255) as u8,
        a: lerp(from.a as int, to.a as int, t, 255) as u8,
    }
}

fn lerp_exec(from: u32, to: u32, t: u128, limit: u32) -> (r: u32)
    requires
        t <= 0x3F_FFFF_FFFF_FFFF_FFFF,
    ensures
        r == lerp(from as int, to as int, t as int, limit as int),
{
    let v: i128 = if to >= from {
        proof {
            assert((to - from) * (t as int) <= 0xFFFF_FFFFint * 0x3F_FFFF_FFFF_FFFF_FFFFint) by (nonlinear_arith)
                requires 0 <= to - from <= 0xFFFF_FFFFint, 0 <= t <= 0x3F_FFFF_FFFF_FFFF_FFFFint;
            assert((to - from) * (t as int) >= 0) by (nonlinear_arith)
                requires 0 <= to - from, 0 <= t;
        }
        from as i128 + ((to - from) as i128 * t as i128) / 1000
    } else {
        proof {
            assert((from - to) * (t as int) <= 0xFFFF_FFFFint * 0x3F_FFFF_FFFF_FFFF_FFFFint) by (nonlinear_arith)
                requires 0 <= from - to <= 0xFFFF_FFFFint, 0 <= t <= 0x3F_FFFF_FFFF_FFFF_FFFFint;
            assert((from - to) * (t as int) >= 0) by (nonlinear_arith)
                requires 0 <= from - to, 0 <= t;
        }
        from as i128 - ((from - to) as i128 * t as i128) / 1000
    };
    if v < 0 {
        0
    } else if v > limit as i128 {
        limit
    } else {
        v as u32
    }
}

fn lerp_color_exec(from: Color, to: Color, t: u128) -> (r: Color)
    requires
        t <= 0x3F_FFFF_FFFF_FFFF_FFFF,
    ensures
        r == lerp_color(from, to, t as int),
{
    Color {
        r: lerp_exec(from.r as u32, to.r as u32, t, 255) as u8,
        g: lerp_exec(from.g as u32, to.g as u32, t, 255) as u8,
        b: lerp_exec(from.b as u32, to.b as u32, t, 255) as u8,
        a: lerp_exec(from.a as u32, to.a as u32, t, 255) as u8,
    }
}

/// How far back towards rest a reaction with `remaining` milliseconds
/// left stands, in thousandths of the hit reaction's length.
pub open spec fn reaction_progress(remaining: i64) -> int {
    remaining * 1000 / (HIT_DETECTED_TIME as int)
}

/// A laser sight and the reaction it is showing, if any.
pub struct LaserSight {
    pub enabled: bool,
    pub reaction_state: Option<ReactionState>,
}

impl LaserSight {
    pub fn new() -> (r: LaserSight)
        ensures
            r.enabled,
            r.reaction_state is None,
    {
        LaserSight { enabled: true, reaction_state: None }
    }

    /// Starts a reaction, in place of any running one.
    pub fn set_reaction(&mut self, reaction: SightReaction)
        ensures
            final(self).enabled == old(self).enabled,
            reaction == SightReaction::HitDetected ==> final(self).reaction_state == Some(
                ReactionState::HitDetected {
                    time_remaining: HIT_DETECTED_TIME,
                    begin_color: Color { r: 200, g: 0, b: 0, a: 200 },
                    end_color: normal_color(),
                },
            ),
            reaction == SightReaction::EnemyKilled ==> final(self).reaction_state == Some(
                ReactionState::EnemyKilled {
                    time_remaining: ENEMY_KILLED_TIME,
                    dilation_factor: 1100,
                    begin_color: Color { r: 255, g: 0, b: 0, a: 200 },
                    end_color: normal_color(),
                },
            ),
    {
        let normal = Color { r: 0, g: 162, b: 232, a: 200 };
        self.reaction_state = Some(match reaction {
            SightReaction::HitDetected => ReactionState::HitDetected {
                time_remaining: HIT_DETECTED_TIME,
                begin_color: Color { r: 200, g: 0, b: 0, a: 200 },
                end_color: normal,
            },
            SightReaction::EnemyKilled => ReactionState::EnemyKilled {
                time_remaining: ENEMY_KILLED_TIME,
                dilation_factor: 1100,
                begin_color: Color { r: 255, g: 0, b: 0, a: 200 },
                end_color: normal,
            },
        });
    }

    /// Runs the reaction for `dt` milliseconds. A reaction whose time runs
    /// out ends and shows nothing; a running one shows its colour, faded
    /// from the end colour towards the begin colour by the time left, and
    /// for a kill its beam width likewise.
    pub fn update(&mut self, dt: u32) -> (r: Option<SightFrame>)
        ensures
            final(self).enabled == old(self).enabled,
            match old(self).reaction_state {
                None => r is None && final(self).reaction_state is None,
                Some(ReactionState::HitDetected { time_remaining, begin_color, end_color }) => {
                    let left = saturating_minus(time_remaining, dt as int);
                    if left <= 0 {
                        r is None && final(self).reaction_state is None
                    } else {
                        let t = reaction_progress(left);
                        &&& final(self).reaction_state == Some(
                            ReactionState::HitDetected { time_remaining: left, begin_color, end_color },
                        )
                        &&& r == Some(SightFrame { color: lerp_color(end_color, begin_color, t), dilation: 1000 })
                    }
                },
                Some(ReactionState::EnemyKilled { time_remaining, dilation_factor, begin_color, end_color }) => {
                    let left = saturating_minus(time_remaining, dt as int);
                    if left <= 0 {
                        r is None && final(self).reaction_state is None
                    } else {
                        let t = reaction_progress(left);
                        &&& final(self).reaction_state == Some(
                            ReactionState::EnemyKilled { time_remaining: left, dilation_factor, begin_color, end_color },
                        )
                        &&& r == Some(SightFrame {
                            color: lerp_color(end_color, begin_color, t),
                            dilation: lerp(1000, dilation_factor as int, t, u32::MAX as int) as u32,
                        })
                    }
                },
            },
    {
        match self.reaction_state {
            None => None,
            Some(ReactionState::HitDetected { time_remaining, begin_color, end_color }) => {
                let left = count_down(time_remaining, dt);
                if left <= 0 {
                    self.reaction_state = None;
                    None
                } else {
                    proof {
                        assert((left as int) * 1000 / 400 <= 0x3F_FFFF_FFFF_FFFF_FFFFint) by (nonlinear_arith)
                            requires 0 < left <= 0x7FFF_FFFF_FFFF_FFFFint;
                    }
                    let t = (left as u128) * 1000 / (HIT_DETECTED_TIME as u128);
                    self.reaction_state = Some(
                        ReactionState::HitDetected { time_remaining: left, begin_color, end_color },
                    );
                    Some(SightFrame { color: lerp_color_exec(end_color, begin_color, t), dilation: 1000 })
                }
            },
            Some(ReactionState::EnemyKilled { time_remaining, dilation_factor, begin_color, end_color }) => {
                let left = count_down(time_remaining, dt);
                if left <= 0 {
                    self.reaction_state = None;
                    None
                } else {
                    proof {
                        assert((left as int) * 1000 / 400 <= 0x3F_FFFF_FFFF_FFFF_FFFFint) by (nonlinear_arith)
                            requires 0 < left <= 0x7FFF_FFFF_FFFF_FFFFint;
                    }
                    let t = (left as u128) * 1000 / (HIT_DETECTED_TIME as u128);
                    self.reaction_state = Some(
                        ReactionState::EnemyKilled { time_remaining: left, dilation_factor, begin_color, end_color },
                    );
                    Some(SightFrame {
                        color: lerp_color_exec(end_color, begin_color, t),
                        dilation: lerp_exec(1000, dilation_factor, t, u32::MAX),
                    })
                }
            },
        }
    }
}

} // verus!
