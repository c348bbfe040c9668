use vstd::prelude::*;
use crate::animation::{AnimationClip, UpperBodyMachine, UpperBodyState, HIT_SIGNAL};
use crate::behavior::{BehaviorContext, Status};
use crate::command::{count_down, saturating_minus, sound_request, BotCommand, SoundKind, SoundRequest, Target};
use crate::definition::BotDefinition;
use crate::random::RandomSource;
use crate::world::EntityId;

verus! {

/// Pause, in milliseconds, between the end of one swing and the earliest
/// start of the next.
pub const ATTACK_COOLDOWN: i64 = 300;

/// Playback speed, in thousandths, of a freshly started swing.
pub const ATTACK_SPEED: u32 = 1300;

/// How many of `events` are hit signals.
pub open spec fn hit_count(events: Seq<u32>) -> nat
    decreases events.len(),
{
    if events.len() == 0 {
        0
    } else {
        (if events[0] == HIT_SIGNAL { 1nat } else { 0nat }) + hit_count(events.drop_first())
    }
}

proof fn lemma_hit_count_bound(events: Seq<u32>)
    ensures
        hit_count(events) <= events.len(),
    decreases events.len(),
{
    if events.len() > 0 {
        lemma_hit_count_bound(events.drop_first());
    }
}

/// The damage command that one melee hit sends: no known source, no hit
/// box, and never critical.
pub open spec fn melee_damage(amount: u32) -> BotCommand {
    BotCommand::Damage {
        who: EntityId { index: 0, generation: 0 },
        amount,
        hitbox: None,
        critical_shot_probability: 0,
    }
}

/// `n` melee hits of `amount` on `target`, as they are sent.
pub open spec fn melee_hits(n: nat, target: EntityId, amount: u32) -> Seq<(EntityId, BotCommand)> {
    Seq::new(n, |i: int| (target, melee_damage(amount)))
}

/// Whether the bot could fire a weapon instead of swinging.
pub open spec fn can_shoot_spec(machine: &UpperBodyMachine, definition: &BotDefinition) -> bool {
    machine.state == UpperBodyState::Aim && definition.can_use_weapons
}

/// Whether hit signals count this tick: the combat machine is in its attack
/// state and the bot could not be shooting instead.
pub open spec fn hits_register(machine: &UpperBodyMachine, definition: &BotDefinition) -> bool {
    machine.state == UpperBodyState::Attack && !can_shoot_spec(machine, definition)
}

/// Whether a new swing starts: the cooldown has run out and the current
/// attack clip has finished or does not play. Whether a target is there is
/// the guard leaf's question, not this one's.
pub open spec fn attack_starts(attack_timeout: i64, clip: AnimationClip) -> bool {
    attack_timeout <= 0 && (clip.ended() || !clip.enabled)
}

/// The cooldown after a tick of `dt`: reset to the pause once it has gone
/// past zero with the clip finished, then counted down.
pub open spec fn next_attack_timeout(attack_timeout: i64, clip_ended: bool, dt: u32) -> i64 {
    saturating_minus(
        if attack_timeout < 0 && clip_ended { ATTACK_COOLDOWN } else { attack_timeout },
        dt as int,
    )
}

/// While its cooldown is positive, the action leaf starts no swing,
/// whatever the state of the current clip.
pub proof fn law_no_swing_while_cooling(attack_timeout: i64, clip: AnimationClip)
    requires
        attack_timeout > 0,
    ensures
        !attack_starts(attack_timeout, clip),
{
}

fn can_shoot(machine: &UpperBodyMachine, definition: &BotDefinition) -> (r: bool)
    ensures
        r == can_shoot_spec(machine, definition),
{
    machine.active_state() == UpperBodyState::Aim && definition.can_use_weapons
}

/// The guard leaf: succeeds when a target is tracked and the stagger window
/// has run out.
#[derive(PartialEq, Eq, Structural, Clone, Copy, Debug)]
pub struct CanMeleeAttack;

impl CanMeleeAttack {
    pub fn tick(&self, context: &BehaviorContext) -> (r: Status)
        ensures
            r == Status::Success <==> context.target is Some && context.restoration_time <= 0,
            r == Status::Failure <==> !(context.target is Some && context.restoration_time <= 0),
    {
        match context.target {
            None => Status::Failure,
            Some(_) => {
                if context.restoration_time <= 0 {
                    Status::Success
                } else {
                    Status::Failure
                }
            },
        }
    }
}

/// The action leaf: keeps a swing going, starts the next one when the time
/// comes, and turns the clip's hit signals into damage on the target.
pub struct DoMeleeAttack {
    /// Milliseconds until a new swing may start.
    pub attack_timeout: i64,
    /// Which attack of the species is the current one.
    pub attack_animation_index: usize,
}

impl DoMeleeAttack {
    pub fn new() -> (r: DoMeleeAttack)
        ensures
            r.attack_timeout == 0,
            r.attack_animation_index == 0,
    {
        DoMeleeAttack { attack_timeout: 0, attack_animation_index: 0 }
    }

    /// One tick of the melee protocol.
    ///
    /// While the cooldown is positive no swing starts. Once it has run out
    /// and the current clip is over (or does not play), the current clip is
    /// parked (kept on, at speed zero, rewound), an attack is picked at random, its clip restarts at the
    /// attack speed, and the tick reports that the bot attacks. Every hit
    /// signal of the current clip, drained while the combat machine attacks,
    /// sends one damage command of the current attack to the target and
    /// plays one of the species' attack sounds. Succeeds exactly when a
    /// target is tracked.
    pub fn tick(
        &mut self,
        context: &mut BehaviorContext,
        definition: &BotDefinition,
        machine: &mut UpperBodyMachine,
        rng: &mut RandomSource,
    ) -> (r: Status)
        requires
            old(machine).wf(),
            old(machine).attack_animations@.len() == definition.attack_animations@.len(),
            (old(self).attack_animation_index as int) < definition.attack_animations@.len(),
        ensures
            ({
                let clip = old(machine).attack_animations@[old(self).attack_animation_index as int];
                let current = old(self).attack_animation_index as int;
                let started = attack_starts(old(self).attack_timeout, clip);
                let index = final(self).attack_animation_index as int;
                let clips = old(machine).attack_animations@;
                &&& forall|k: int| 0 <= k < clips.len() && k != current && (!started || k != index)
                    ==> #[trigger] final(machine).attack_animations@[k] == clips[k]
                &&& !started ==> {
                    let c = final(machine).attack_animations@[current];
                    &&& c.enabled == clip.enabled
                    &&& c.speed == clip.speed
                    &&& c.time == clip.time
                    &&& c.length == clip.length
                    &&& c.signals@ == clip.signals@
                }
                &&& old(context).target is None && !started ==> final(machine).attack_animations@[current] == clip
                &&& old(context).target is Some ==> final(machine).attack_animations@[current].events@.len() == 0
                &&& index < definition.attack_animations@.len()
                &&& final(self).attack_timeout == next_attack_timeout(
                    old(self).attack_timeout,
                    clip.ended(),
                    old(context).dt,
                )
                &&& started ==> final(context).is_attacking
                    && final(machine).attack_animations@[index].enabled
                    && final(machine).attack_animations@[index].speed == ATTACK_SPEED
                    && final(machine).attack_animations@[index].time == 0
                &&& started && index != old(self).attack_animation_index ==> {
                    let parked = final(machine).attack_animations@[old(self).attack_animation_index as int];
                    parked.enabled && parked.speed == 0 && parked.time == 0
                }
                &&& old(self).attack_timeout > 0 ==> !started
                &&& !started ==> final(self).attack_animation_index == old(self).attack_animation_index
                    && final(context).is_attacking == old(context).is_attacking
                &&& final(context).attack_animation_index == index
                &&& r == (if old(context).target is Some { Status::Success } else { Status::Failure })
                &&& match old(context).target {
                    Some(t) => if hits_register(old(machine), definition) {
                        let n = hit_count(clip.events@);
                        &&& final(context).outgoing@ == old(context).outgoing@ + melee_hits(
                            n,
                            t.handle,
                            definition.attack_animations@[index].damage,
                        )
                        &&& final(context).sounds@.len() == old(context).sounds@.len() + (
                            if definition.attack_sounds@.len() > 0 { n } else { 0 })
                        &&& forall|k: int| old(context).sounds@.len() <= k < final(context).sounds@.len()
                            ==> (#[trigger] final(context).sounds@[k]).index < definition.attack_sounds@.len()
                            && final(context).sounds@[k] == sound_request(
                                SoundKind::Attack,
                                final(context).sounds@[k].index,
                                old(context).position,
                            )
                        &&& final(context).sounds@.subrange(0, old(context).sounds@.len() as int)
                            == old(context).sounds@
                    } else {
                        final(context).outgoing@ == old(context).outgoing@
                            && final(context).sounds@ == old(context).sounds@
                    },
                    None => final(context).outgoing@ == old(context).outgoing@
                        && final(context).sounds@ == old(context).sounds@,
                }
            }),
            final(machine).wf(),
            final(machine).state == old(machine).state,
            final(machine).active_attack == old(machine).active_attack,
            final(machine).attack_animations@.len() == old(machine).attack_animations@.len(),
            final(machine).dying_animation == old(machine).dying_animation,
            final(context).dt == old(context).dt,
            final(context).bot_handle == old(context).bot_handle,
            final(context).position == old(context).position,
            final(context).target == old(context).target,
            final(context).restoration_time == old(context).restoration_time,
            final(context).movement_speed_factor == old(context).movement_speed_factor,
            final(context).is_moving == old(context).is_moving,
            final(context).is_aiming_weapon == old(context).is_aiming_weapon,
            final(context).is_screaming == old(context).is_screaming,
    {
        let current = self.attack_animation_index;
        let ghost clip0 = machine.attack_animations@[current as int];
        let attack_animation_ended = machine.attack_animations[current].has_ended();
        let attack_animation_enabled = machine.attack_animations[current].is_enabled();
        if self.attack_timeout <= 0 && (attack_animation_ended || !attack_animation_enabled) {
            // Park the finished clip: disabling it would upset blending.
            machine.attack_animations[current].set_enabled(true);
            machine.attack_animations[current].set_speed(0);
            machine.attack_animations[current].rewind();

            let count = machine.attack_animations.len();
            let picked = rng.next_below(count as u64) as usize;
            self.attack_animation_index = picked;

            machine.attack_animations[picked].set_enabled(true);
            machine.attack_animations[picked].set_speed(ATTACK_SPEED);
            machine.attack_animations[picked].rewind();

            context.is_attacking = true;
        }
        if self.attack_timeout < 0 && attack_animation_ended {
            self.attack_timeout = ATTACK_COOLDOWN;
        }
        self.attack_timeout = count_down(self.attack_timeout, context.dt);

        let index = self.attack_animation_index;
        context.attack_animation_index = index;
        proof {
            let started = attack_starts(old(self).attack_timeout, clip0);
            assert forall|k: int| 0 <= k < machine.attack_animations@.len() && k != current
                && (!started || k != index) implies #[trigger] machine.attack_animations@[k]
                == old(machine).attack_animations@[k] by {}
            assert(machine.attack_animations@[current as int].events@ == clip0.events@);
            assert(context.is_attacking == (old(context).is_attacking || attack_starts(
                old(self).attack_timeout,
                clip0,
            )));
        }

        match context.target {
            Some(target) => {
                let register = machine.active_state() == UpperBodyState::Attack
                    && !can_shoot(machine, definition);
                let amount = definition.attack_animations[index].damage;
                let ghost events0 = clip0.events@;
                let ghost out0 = context.outgoing@;
                let ghost sounds0 = context.sounds@;
                let ghost machine0 = *machine;
                let ghost attacking0 = context.is_attacking;
                let mut hits: usize = 0;
                let pending = machine.attack_animations[current].events.len();
                proof {
                    lemma_hit_count_bound(events0);
                }
                loop
                    invariant_except_break
                        hit_count(events0) == hits + hit_count(
                            machine.attack_animations@[current as int].events@,
                        ),
                    invariant
                        machine.wf(),
                        current < machine.attack_animations@.len(),
                        machine.attack_animations@.len() == machine0.attack_animations@.len(),
                        forall|k: int| 0 <= k < machine.attack_animations@.len() && k != current
                            ==> machine.attack_animations@[k] == machine0.attack_animations@[k],
                        machine.attack_animations@[current as int].enabled
                            == machine0.attack_animations@[current as int].enabled,
                        machine.attack_animations@[current as int].speed
                            == machine0.attack_animations@[current as int].speed,
                        machine.attack_animations@[current as int].time
                            == machine0.attack_animations@[current as int].time,
                        machine.attack_animations@[current as int].length
                            == machine0.attack_animations@[current as int].length,
                        machine.attack_animations@[current as int].signals@
                            == machine0.attack_animations@[current as int].signals@,
                        machine.state == machine0.state,
                        machine.active_attack == machine0.active_attack,
                        machine.dying_animation == machine0.dying_animation,
                        hits <= hit_count(events0),
                        events0.len() == pending,
                        hit_count(events0) <= events0.len(),
                        context.outgoing@ == out0 + (if register {
                            melee_hits(hits as nat, target.handle, amount)
                        } else {
                            Seq::empty()
                        }),
                        context.sounds@.len() == sounds0.len() + (
                            if register && definition.attack_sounds@.len() > 0 { hits as int } else { 0 }),
                        context.sounds@.subrange(0, sounds0.len() as int) == sounds0,
                        forall|k: int| sounds0.len() <= k < context.sounds@.len()
                            ==> (#[trigger] context.sounds@[k]).index < definition.attack_sounds@.len()
                            && context.sounds@[k] == sound_request(
                                SoundKind::Attack,
                                context.sounds@[k].index,
                                context.position,
                            ),
                        context.dt == old(context).dt,
                        context.bot_handle == old(context).bot_handle,
                        context.position == old(context).position,
                        context.target == old(context).target,
                        context.restoration_time == old(context).restoration_time,
                        context.movement_speed_factor == old(context).movement_speed_factor,
                        context.is_moving == old(context).is_moving,
                        context.is_aiming_weapon == old(context).is_aiming_weapon,
                        context.is_screaming == old(context).is_screaming,
                        context.is_attacking == attacking0,
                        context.attack_animation_index == index,
                    ensures
                        hit_count(events0) == hits,
                        machine.attack_animations@[current as int].events@.len() == 0,
                    decreases machine.attack_animations@[current as int].events@.len(),
                {
                    let ghost before = machine.attack_animations@[current as int].events@;
                    let event = machine.attack_animations[current].pop_event();
                    match event {
                        None => {
                            break;
                        },
                        Some(signal) => {
                            if signal == HIT_SIGNAL {
                                if register {
                                    let command = BotCommand::Damage {
                                        who: EntityId { index: 0, generation: 0 },
                                        amount,
                                        hitbox: None,
                                        critical_shot_probability: 0,
                                    };
                                    context.outgoing.push((target.handle, command));
                                    proof {
                                        assert(out0 + melee_hits((hits + 1) as nat, target.handle, amount)
                                            =~= (out0 + melee_hits(hits as nat, target.handle, amount)).push(
                                            (target.handle, command),
                                        ));
                                    }
                                    if definition.attack_sounds.len() > 0 {
                                        let pick = rng.next_below(definition.attack_sounds.len() as u64) as usize;
                                        let ghost s_before = context.sounds@;
                                        context.sounds.push(SoundRequest::new(SoundKind::Attack, pick, context.position));
                                        proof {
                                            assert(context.sounds@.subrange(0, sounds0.len() as int)
                                                =~= s_before.subrange(0, sounds0.len() as int));
                                        }
                                    }
                                }
                                hits = hits + 1;
                            }
                            proof {
                                assert(before[0] == signal);
                            }
                        },
                    }
                }
                proof {
                    let started = attack_starts(old(self).attack_timeout, clip0);
                    assert forall|k: int| 0 <= k < machine.attack_animations@.len() && k != current
                        && (!started || k != index) implies #[trigger] machine.attack_animations@[k]
                        == old(machine).attack_animations@[k] by {
                        assert(machine.attack_animations@[k] == machine0.attack_animations@[k]);
                    }
                }
                Status::Success
            },
            None => Status::Failure,
        }
    }
}

} // verus!
