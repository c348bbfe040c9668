use vstd::prelude::*;
use crate::animation::{
    lower_body_next, played, upper_body_next, AnimationClip, LowerBodyMachine, LowerBodyMachineInput,
    LowerBodyState, UpperBodyMachine,
    UpperBodyMachineInput, UpperBodyState,
};
use crate::behavior::{BehaviorContext, Status};
use crate::command::{count_down, saturating_minus, BotCommand, SoundRequest, Target};
use crate::damage::{
    after_commands, impacts_of_commands, rolls_valid, sounds_of_commands, CombatState, DamageRoll,
    ImpactRequest,
};
use crate::definition::{BotDefinition, BotDefinitionsContainer, BotKind};
use crate::random::RandomSource;
use crate::doors::{doors_in_the_way, doors_to_open, DoorView};
use crate::movement::target_near;
use crate::tree::{actions_fit, hunting_shapes, lemma_hunting_needs_target, shapes, BehaviorTree};
use crate::world::{find_entity, Entity, EntityId, Vec3, World};

verus! {

/// `t` where its entity is still in the world, `None` otherwise.
pub open spec fn present_target(t: Option<Target>, es: Seq<Entity>) -> Option<Target> {
    match t {
        Some(x) => if find_entity(es, x.handle) is Some { Some(x) } else { None },
        None => None,
    }
}

/// What the command queue produced when it was drained.
pub struct Drained {
    pub sounds: Vec<SoundRequest>,
    pub impacts: Vec<ImpactRequest>,
}

/// The intents that the tree left for the animation machines.
#[derive(PartialEq, Eq, Structural, Clone, Copy, Debug)]
pub struct Intents {
    pub is_moving: bool,
    pub is_attacking: bool,
    pub is_aiming_weapon: bool,
    pub is_screaming: bool,
    pub attack_animation_index: usize,
    pub movement_speed_factor: u32,
}

/// The locomotion input for `intents`.
pub open spec fn lower_input(intents: Intents, dead: bool) -> LowerBodyMachineInput {
    LowerBodyMachineInput {
        walk: intents.is_moving,
        scream: intents.is_screaming,
        dead,
        movement_speed_factor: intents.movement_speed_factor,
    }
}

/// The combat input for `intents`.
pub open spec fn upper_input(intents: Intents, dead: bool) -> UpperBodyMachineInput {
    UpperBodyMachineInput {
        attack: intents.is_attacking,
        walk: intents.is_moving,
        scream: intents.is_screaming,
        dead,
        aim: intents.is_aiming_weapon,
        attack_animation_index: intents.attack_animation_index,
    }
}

/// What one tick of a bot asks of the host.
pub struct TickOutput {
    pub status: Status,
    /// What the tree asked of the animation machines.
    pub intents: Intents,
    /// Sounds to play, pain sounds first.
    pub sounds: Vec<SoundRequest>,
    /// Pushes for the physics collaborator.
    pub impacts: Vec<ImpactRequest>,
    /// Commands to deliver into other entities' queues.
    pub outgoing: Vec<(EntityId, BotCommand)>,
}

/// One bot: its species, its place in the world, its combat state, its
/// queue of deferred commands, its two animation machines and its tree.
pub struct Bot {
    pub kind: BotKind,
    pub handle: EntityId,
    pub position: Vec3,
    pub combat: CombatState,
    pub commands_queue: Vec<BotCommand>,
    pub lower_body_machine: LowerBodyMachine,
    pub upper_body_machine: UpperBodyMachine,
    pub behavior: BehaviorTree,
    /// Walking speed in millimetres per second, eased towards the target one.
    pub move_speed: u32,
    pub target_move_speed: u32,
    pub threaten_timeout: i64,
}

impl Bot {
    /// The bot fits `definition`: one attack clip per attack of the species,
    /// a sound tree, and every action leaf on one of those attacks.
    pub open spec fn wf(&self, definition: &BotDefinition) -> bool {
        &&& self.upper_body_machine.wf()
        &&& self.upper_body_machine.attack_animations@.len() == definition.attack_animations@.len()
        &&& self.behavior.wf()
        &&& shapes(self.behavior.nodes@) == hunting_shapes()
        &&& actions_fit(self.behavior.nodes@, definition.attack_animations@.len() as int)
    }

    /// Spawns a bot of `definition` with the hunting tree, at full health and
    /// with nothing queued.
    pub fn new(
        kind: BotKind,
        handle: EntityId,
        position: Vec3,
        definition: &BotDefinition,
        attack_animations: Vec<AnimationClip>,
        dying_animation: AnimationClip,
    ) -> (r: Bot)
        requires
            attack_animations@.len() == definition.attack_animations@.len(),
            attack_animations@.len() > 0,
            forall|i: int| 0 <= i < attack_animations@.len() ==> attack_animations@[i].wf(),
            dying_animation.wf(),
        ensures
            r.wf(definition),
            r.kind == kind,
            r.handle == handle,
            r.position == position,
            r.combat == CombatState::new_spec(definition.health),
            r.commands_queue@.len() == 0,
            r.move_speed == 0,
            r.target_move_speed == 0,
            r.threaten_timeout == 0,
            r.lower_body_machine.state == LowerBodyState::Idle,
            r.lower_body_machine.movement_speed_factor == 1000,
            r.upper_body_machine.state == UpperBodyState::Idle,
            r.upper_body_machine.attack_animations@ == attack_animations@,
            r.upper_body_machine.dying_animation == dying_animation,
            r.upper_body_machine.active_attack == 0,
            forall|t: bool, x: bool, n: bool| r.behavior.status(t, x, n) == (
                if !t { Status::Failure }
                else if !n { Status::Running }
                else if x { Status::Success }
                else { Status::Failure }),
    {
        let behavior = BehaviorTree::chase_and_melee();
        Bot {
            kind,
            handle,
            position,
            combat: CombatState::new(definition.health),
            commands_queue: Vec::new(),
            lower_body_machine: LowerBodyMachine::new(),
            upper_body_machine: UpperBodyMachine::new(attack_animations, dying_animation),
            behavior,
            move_speed: 0,
            target_move_speed: 0,
            threaten_timeout: 0,
        }
    }

    /// The definition of `kind` in `definitions`.
    pub fn get_definition(definitions: &BotDefinitionsContainer, kind: BotKind) -> (r: &BotDefinition)
        requires
            definitions.wf(),
        ensures
            definitions.entry(kind) == Some(*r),
    {
        definitions.definition(kind)
    }

    /// The definition of this bot's own species in `definitions`.
    pub fn resolve<'a>(&self, definitions: &'a BotDefinitionsContainer) -> (r: &'a BotDefinition)
        requires
            definitions.wf(),
        ensures
            definitions.entry(self.kind) == Some(*r),
    {
        definitions.definition(self.kind)
    }

    /// The doors to try to open this tick: while a target is tracked, those
    /// within reach whose bodies block the sight line to it (`hits`, the
    /// colliders that the line from the bot to the target crosses).
    pub fn check_doors(&self, hits: &Vec<EntityId>, doors: &Vec<DoorView>) -> (r: Vec<EntityId>)
        ensures
            self.combat.target is None ==> r@.len() == 0,
            self.combat.target is Some ==> r@ == doors_to_open(doors@, self.position, hits@, doors@.len() as int),
    {
        match self.combat.target {
            Some(_) => doors_in_the_way(self.position, hits, doors),
            None => Vec::new(),
        }
    }

    pub fn target(&self) -> (r: Option<Target>)
        ensures
            r == self.combat.target,
    {
        self.combat.target
    }

    /// Tracks `handle`, seen at `position`, in place of any earlier target.
    pub fn set_target(&mut self, handle: EntityId, position: Vec3)
        ensures
            *final(self) == (Bot {
                combat: CombatState { target: Some(Target { position, handle }), ..old(self).combat },
                ..*old(self)
            }),
    {
        self.combat.target = Some(Target { position, handle });
    }

    /// Marks the head as destroyed, for the renderer to hide.
    pub fn blow_up_head(&mut self)
        ensures
            *final(self) == (Bot { combat: CombatState { head_exploded: true, ..old(self).combat }, ..*old(self) }),
    {
        self.combat.head_exploded = true;
    }

    pub fn is_dead(&self) -> (r: bool)
        ensures
            r == (self.combat.health <= 0),
    {
        self.combat.health <= 0
    }

    /// Whether the dying animation has played out.
    pub fn can_be_removed(&self) -> (r: bool)
        ensures
            r == self.upper_body_machine.dying_animation.ended(),
    {
        self.upper_body_machine.dying_animation.has_ended()
    }

    /// Forgets the target if it is the entity that left the world.
    pub fn on_actor_removed(&mut self, handle: EntityId)
        ensures
            *final(self) == (Bot {
                combat: CombatState {
                    target: match old(self).combat.target {
                        Some(t) => if t.handle == handle { None } else { Some(t) },
                        None => None,
                    },
                    ..old(self).combat
                },
                ..*old(self)
            }),
    {
        match self.combat.target {
            Some(t) => {
                if t.handle == handle {
                    self.combat.target = None;
                }
            },
            None => {},
        }
    }

    /// Appends a command to the queue; the bot handles it on its next tick.
    pub fn push_command(&mut self, command: BotCommand)
        ensures
            final(self).commands_queue@ == old(self).commands_queue@.push(command),
            *final(self) == (Bot { commands_queue: final(self).commands_queue, ..*old(self) }),
    {
        self.commands_queue.push(command);
    }

    /// Drains the command queue in order, the `i`-th command with
    /// `rolls[i]`: damage goes through damage resolution, impacts are handed
    /// on for the physics collaborator. The queue is empty afterwards.
    pub fn poll_commands_with(
        &mut self,
        world: &World,
        definition: &BotDefinition,
        rolls: &Vec<DamageRoll>,
    ) -> (r: Drained)
        requires
            rolls@.len() >= old(self).commands_queue@.len(),
            rolls_valid(rolls@),
        ensures
            final(self).combat == after_commands(
                old(self).combat,
                world.entities@,
                old(self).commands_queue@,
                rolls@,
                old(self).commands_queue@.len() as int,
            ),
            r.sounds@ == sounds_of_commands(
                old(self).combat,
                world.entities@,
                old(self).commands_queue@,
                rolls@,
                definition.pain_sounds@.len(),
                old(self).position,
                old(self).commands_queue@.len() as int,
            ),
            r.impacts@ == impacts_of_commands(
                old(self).commands_queue@,
                old(self).commands_queue@.len() as int,
            ),
            final(self).commands_queue@.len() == 0,
            final(self).kind == old(self).kind,
            final(self).handle == old(self).handle,
            final(self).position == old(self).position,
            final(self).lower_body_machine == old(self).lower_body_machine,
            final(self).upper_body_machine == old(self).upper_body_machine,
            final(self).behavior == old(self).behavior,
            final(self).move_speed == old(self).move_speed,
            final(self).target_move_speed == old(self).target_move_speed,
            final(self).threaten_timeout == old(self).threaten_timeout,
    {
        let ghost start = *self;
        let ghost queue = self.commands_queue@;
        let mut sounds: Vec<SoundRequest> = Vec::new();
        let mut impacts: Vec<ImpactRequest> = Vec::new();
        let n = self.commands_queue.len();
        let mut i: usize = 0;
        while i < n
            invariant
                n == queue.len(),
                i <= n,
                rolls@.len() >= n,
                rolls_valid(rolls@),
                self.commands_queue@ == queue,
                self.combat == after_commands(start.combat, world.entities@, queue, rolls@, i as int),
                sounds@ == sounds_of_commands(
                    start.combat,
                    world.entities@,
                    queue,
                    rolls@,
                    definition.pain_sounds@.len(),
                    start.position,
                    i as int,
                ),
                impacts@ == impacts_of_commands(queue, i as int),
                self.kind == start.kind,
                self.handle == start.handle,
                self.position == start.position,
                self.lower_body_machine == start.lower_body_machine,
                self.upper_body_machine == start.upper_body_machine,
                self.behavior == start.behavior,
                self.move_speed == start.move_speed,
                self.target_move_speed == start.target_move_speed,
                self.threaten_timeout == start.threaten_timeout,
            decreases n - i,
        {
            let command = self.commands_queue[i];
            let roll = rolls[i];
            proof {
                assert(rolls@[i as int].critical < 1000);
            }
            match command {
                BotCommand::Damage { who, amount, hitbox, critical_shot_probability } => {
                    let position = self.position;
                    self.combat.take_damage(
                        world,
                        who,
                        amount,
                        hitbox,
                        critical_shot_probability,
                        roll,
                        definition.pain_sounds.len(),
                        position,
                        &mut sounds,
                    );
                    proof {
                        assert(impacts_of_commands(queue, i + 1) =~= impacts_of_commands(queue, i as int));
                    }
                },
                BotCommand::HandleImpact { handle, impact_point, direction } => {
                    impacts.push(ImpactRequest { handle, impact_point, direction });
                    proof {
                        assert(sounds_of_commands(
                            start.combat,
                            world.entities@,
                            queue,
                            rolls@,
                            definition.pain_sounds@.len(),
                            start.position,
                            i + 1,
                        ) =~= sounds@);
                    }
                },
            }
            i = i + 1;
        }
        self.commands_queue.clear();
        Drained { sounds, impacts }
    }

    /// Drains the command queue, drawing each command's rolls from `rng`:
    /// the outcome is the one that `poll_commands_with` gives for some valid
    /// rolls, one per command.
    pub fn poll_commands(
        &mut self,
        world: &World,
        definition: &BotDefinition,
        rng: &mut RandomSource,
    ) -> (r: Drained)
        ensures
            exists|rolls: Seq<DamageRoll>| {
                &&& rolls.len() == old(self).commands_queue@.len()
                &&& rolls_valid(rolls)
                &&& final(self).combat == after_commands(
                    old(self).combat,
                    world.entities@,
                    old(self).commands_queue@,
                    rolls,
                    rolls.len() as int,
                )
                &&& r.sounds@ == sounds_of_commands(
                    old(self).combat,
                    world.entities@,
                    old(self).commands_queue@,
                    rolls,
                    definition.pain_sounds@.len(),
                    old(self).position,
                    rolls.len() as int,
                )
            },
            r.impacts@ == impacts_of_commands(
                old(self).commands_queue@,
                old(self).commands_queue@.len() as int,
            ),
            final(self).commands_queue@.len() == 0,
            final(self).kind == old(self).kind,
            final(self).handle == old(self).handle,
            final(self).position == old(self).position,
            final(self).lower_body_machine == old(self).lower_body_machine,
            final(self).upper_body_machine == old(self).upper_body_machine,
            final(self).behavior == old(self).behavior,
            final(self).move_speed == old(self).move_speed,
            final(self).target_move_speed == old(self).target_move_speed,
            final(self).threaten_timeout == old(self).threaten_timeout,
    {
        let n = self.commands_queue.len();
        let mut rolls: Vec<DamageRoll> = Vec::new();
        let mut i: usize = 0;
        while i < n
            invariant
                i <= n,
                rolls@.len() == i,
                rolls_valid(rolls@),
            decreases n - i,
        {
            let critical = rng.next_below(1000) as u32;
            let sound = rng.next_u64();
            rolls.push(DamageRoll { critical, sound });
            i = i + 1;
        }
        self.poll_commands_with(world, definition, &rolls)
    }

    /// One tick of the bot, the entry point of the host's loop: drains the
    /// queue, forgets a target that has left the world, runs the tree,
    /// counts the stagger and threat timers down, eases the walking speed,
    /// and advances both animation machines on the tree's intents.
    pub fn update(
        &mut self,
        world: &World,
        definition: &BotDefinition,
        dt: u32,
        rng: &mut RandomSource,
    ) -> (r: TickOutput)
        requires
            old(self).wf(definition),
        ensures
            final(self).wf(definition),
            final(self).commands_queue@.len() == 0,
            exists|rolls: Seq<DamageRoll>| #![trigger rolls_valid(rolls)] {
                let polled = after_commands(
                    old(self).combat,
                    world.entities@,
                    old(self).commands_queue@,
                    rolls,
                    rolls.len() as int,
                );
                let kept = present_target(polled.target, world.entities@);
                &&& rolls.len() == old(self).commands_queue@.len()
                &&& rolls_valid(rolls)
                &&& final(self).combat == CombatState {
                    target: kept,
                    restoration_time: saturating_minus(polled.restoration_time, dt as int),
                    ..polled
                }
                &&& r.status == old(self).behavior.status(
                    kept is Some,
                    polled.restoration_time <= 0,
                    target_near(kept, old(self).position, definition.close_combat_distance),
                )
                &&& {
                    let pains = sounds_of_commands(
                        old(self).combat,
                        world.entities@,
                        old(self).commands_queue@,
                        rolls,
                        definition.pain_sounds@.len(),
                        old(self).position,
                        rolls.len() as int,
                    );
                    &&& r.sounds@.len() >= pains.len()
                    &&& r.sounds@.subrange(0, pains.len() as int) == pains
                    &&& kept is None ==> r.sounds@ == pains
                }
            },
            final(self).lower_body_machine.state == lower_body_next(
                old(self).lower_body_machine.state,
                lower_input(r.intents, final(self).combat.health <= 0),
            ),
            final(self).lower_body_machine.movement_speed_factor == r.intents.movement_speed_factor,
            final(self).upper_body_machine.state == upper_body_next(
                old(self).upper_body_machine.state,
                upper_input(r.intents, final(self).combat.health <= 0),
                true,
            ) || final(self).upper_body_machine.state == upper_body_next(
                old(self).upper_body_machine.state,
                upper_input(r.intents, final(self).combat.health <= 0),
                false,
            ),
            final(self).upper_body_machine.active_attack == r.intents.attack_animation_index,
            final(self).combat.target is None ==> !r.intents.is_attacking && r.outgoing@.len() == 0
                && forall|k: int| 0 <= k < old(self).upper_body_machine.attack_animations@.len() ==> played(
                    old(self).upper_body_machine.attack_animations@[k],
                    #[trigger] final(self).upper_body_machine.attack_animations@[k],
                    dt,
                ),
            final(self).combat.target is None && old(self).upper_body_machine.state != UpperBodyState::Attack
                ==> final(self).upper_body_machine.state != UpperBodyState::Attack,
            r.impacts@ == impacts_of_commands(
                old(self).commands_queue@,
                old(self).commands_queue@.len() as int,
            ),
            final(self).lower_body_machine.state == LowerBodyState::Dead <==> (
                old(self).lower_body_machine.state == LowerBodyState::Dead || final(self).combat.health <= 0),
            final(self).upper_body_machine.state == UpperBodyState::Dying <==> (
                old(self).upper_body_machine.state == UpperBodyState::Dying || final(self).combat.health <= 0),
            final(self).move_speed == (old(self).move_speed * 9 + old(self).target_move_speed) / 10,
            final(self).threaten_timeout == saturating_minus(old(self).threaten_timeout, dt as int),
            final(self).kind == old(self).kind,
            final(self).handle == old(self).handle,
            final(self).position == old(self).position,
    {
        let drained = self.poll_commands(world, definition, rng);
        let ghost polled = self.combat;
        match self.combat.target {
            Some(t) => {
                if !world.contains(t.handle) {
                    self.combat.target = None;
                }
            },
            None => {},
        }
        let mut context = BehaviorContext::new(
            dt,
            self.handle,
            self.position,
            self.combat.target,
            self.combat.restoration_time,
        );
        proof {
            lemma_hunting_needs_target(
                context.restoration_time <= 0,
                target_near(context.target, context.position, definition.close_combat_distance),
            );
        }
        let status = self.behavior.tick(&mut context, definition, &mut self.upper_body_machine, rng);

        self.combat.restoration_time = count_down(self.combat.restoration_time, dt);
        self.move_speed = ((self.move_speed as u64 * 9 + self.target_move_speed as u64) / 10) as u32;
        self.threaten_timeout = count_down(self.threaten_timeout, dt);

        let dead = self.combat.health <= 0;
        self.lower_body_machine.apply(LowerBodyMachineInput {
            walk: context.is_moving,
            scream: context.is_screaming,
            dead,
            movement_speed_factor: context.movement_speed_factor,
        });
        let index = if context.attack_animation_index < self.upper_body_machine.attack_animations.len() {
            context.attack_animation_index
        } else {
            0
        };
        let intents = Intents {
            is_moving: context.is_moving,
            is_attacking: context.is_attacking,
            is_aiming_weapon: context.is_aiming_weapon,
            is_screaming: context.is_screaming,
            attack_animation_index: index,
            movement_speed_factor: context.movement_speed_factor,
        };
        self.upper_body_machine.apply(dt, UpperBodyMachineInput {
            attack: context.is_attacking,
            walk: context.is_moving,
            scream: context.is_screaming,
            dead,
            aim: context.is_aiming_weapon,
            attack_animation_index: index,
        });
        let mut sounds = drained.sounds;
        let ghost pains = sounds@;
        sounds.append(&mut context.sounds);
        proof {
            assert(sounds@.subrange(0, pains.len() as int) =~= pains);
        }
        proof {
            assert(self.combat == CombatState {
                target: present_target(polled.target, world.entities@),
                restoration_time: saturating_minus(polled.restoration_time, dt as int),
                ..polled
            });
        }
        TickOutput { status, intents, sounds, impacts: drained.impacts, outgoing: context.outgoing }
    }
}

} // verus!
