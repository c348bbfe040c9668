//! Decision-and-combat core for non-player combatants: a per-tick behavior
//! tree with a melee protocol, a per-bot command queue for deferred damage and
//! impacts, target tracking, and the two animation state machines that the
//! tree's intents drive.
//!
//! Time is counted in integer milliseconds, positions in integer millimetres,
//! probabilities and playback speeds in thousandths.

mod animation;
mod behavior;
mod bot;
mod command;
mod damage;
mod definition;
mod doors;
mod effects;
mod level;
mod melee;
mod movement;
mod random;
mod sight;
mod tree;
mod world;

pub use animation::{
    advanced_time, crossed, lower_body_next, played, played_time, playing, upper_body_next, AnimationClip, LowerBodyMachine,
    LowerBodyMachineInput, LowerBodyState, SignalMarker, UpperBodyMachine, UpperBodyMachineInput,
    UpperBodyState, HIT_SIGNAL,
};
pub use behavior::{BehaviorContext, Status};
pub use bot::{lower_input, present_target, upper_input, Bot, Drained, Intents, TickOutput};
pub use command::{
    count_down, saturating_minus, sound_parameters, sound_request, BotCommand, HitBox, SoundKind, SoundRequest, Target,
};
pub use damage::{
    after_command, after_commands, after_damage, clamp_probability, critical, dealt,
    impacts_of_commands, law_certain_head_shot, law_critical_boundary, law_impossible_head_shot, law_damage_round_trip, law_drain_empty_is_noop,
    law_no_pain_sound_inside_window,
    pain_sounds_of, rolls_valid, sounds_of_commands, staggers, CombatState, DamageRoll,
    ImpactRequest, CRITICAL_MULTIPLIER, STAGGER_THRESHOLD, STAGGER_TIME,
};
pub use definition::{
    covers_all_kinds, kinds_of, kinds_unique, lookup, AttackAnimationDefinition, BotDefinition,
    BotDefinitionsContainer, BotHostility, BotKind, DefinitionError,
};
pub use doors::{blocks, doors_in_the_way, doors_to_open, DoorView, DOOR_REACH};
pub use effects::{
    aged, decal_alpha, expiring, fade_alpha, surviving, AnimatedLight, Decal, DecalFrame,
    ShotTrail, ShotTrailContainer, TrailFrame,
};
pub use level::{splash_hits, Level, Message};
pub use melee::{
    attack_starts, can_shoot_spec, hit_count, hits_register, law_no_swing_while_cooling,
    melee_damage, melee_hits, next_attack_timeout, CanMeleeAttack, DoMeleeAttack,
    ATTACK_COOLDOWN, ATTACK_SPEED,
};
pub use movement::{target_near, MoveToTarget};
pub use random::RandomSource;
pub use sight::{
    lerp, lerp_color, normal_color, reaction_progress, Color, LaserSight, ReactionState,
    SightFrame, SightReaction, ENEMY_KILLED_TIME, HIT_DETECTED_TIME,
};
pub use tree::{
    actions_fit, evaluate, hunting_shapes, lemma_hunting_needs_target, reaches_action, shape_of, shapes, well_formed, BehaviorTree, BtNode, ACTION, CHASE,
    GUARD, SELECTOR, SEQUENCE,
};
pub use world::{
    closer_than, find_entity, is_closer_than, is_within, resolve_source, squared_distance, within,
    Entity, EntityId, Role, Vec3, World,
};
