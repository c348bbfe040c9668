use vstd::prelude::*;
use crate::behavior::{BehaviorContext, Status};
use crate::command::Target;
use crate::definition::BotDefinition;
use crate::world::{is_within, within, Vec3};

verus! {

/// Whether a tracked target stands within `reach` of `position`.
pub open spec fn target_near(target: Option<Target>, position: Vec3, reach: u32) -> bool {
    match target {
        Some(t) => within(t.position, position, reach),
        None => false,
    }
}

/// The chase leaf: walks towards the target until it is within close combat
/// distance. Fails without a target, runs while walking, succeeds on
/// arrival.
#[derive(PartialEq, Eq, Structural, Clone, Copy, Debug)]
pub struct MoveToTarget;

impl MoveToTarget {
    pub fn tick(&self, context: &mut BehaviorContext, definition: &BotDefinition) -> (r: Status)
        ensures
            r == (match old(context).target {
                None => Status::Failure,
                Some(_) => if target_near(old(context).target, old(context).position, definition.close_combat_distance) {
                    Status::Success
                } else {
                    Status::Running
                },
            }),
            r == Status::Running ==> final(context).is_moving && final(context).movement_speed_factor == 1000,
            r == Status::Success ==> !final(context).is_moving
                && final(context).movement_speed_factor == old(context).movement_speed_factor,
            r == Status::Failure ==> final(context).is_moving == old(context).is_moving
                && final(context).movement_speed_factor == old(context).movement_speed_factor,
            final(context).dt == old(context).dt,
            final(context).bot_handle == old(context).bot_handle,
            final(context).position == old(context).position,
            final(context).target == old(context).target,
            final(context).restoration_time == old(context).restoration_time,
            final(context).attack_animation_index == old(context).attack_animation_index,
            final(context).is_attacking == old(context).is_attacking,
            final(context).is_aiming_weapon == old(context).is_aiming_weapon,
            final(context).is_screaming == old(context).is_screaming,
            final(context).sounds@ == old(context).sounds@,
            final(context).outgoing@ == old(context).outgoing@,
    {
        match context.target {
            None => Status::Failure,
            Some(t) => {
                if is_within(t.position, context.position, definition.close_combat_distance) {
                    context.is_moving = false;
                    Status::Success
                } else {
                    context.is_moving = true;
                    context.movement_speed_factor = 1000;
                    Status::Running
                }
            },
        }
    }
}

} // verus!
