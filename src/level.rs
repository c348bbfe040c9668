use vstd::prelude::*;
use crate::command::BotCommand;
use crate::world::{find_entity, is_within, within, Entity, EntityId, Vec3, World};

verus! {

/// The damage commands that a blast sends to the first `n` of `actors`:
/// one to each actor of the world that stands within the radius.
pub open spec fn splash_hits(
    actors: Seq<EntityId>,
    es: Seq<Entity>,
    amount: u32,
    radius: u32,
    center: Vec3,
    who: EntityId,
    probability: i64,
    n: int,
) -> Seq<(EntityId, BotCommand)>
    decreases n,
{
    if n <= 0 {
        Seq::empty()
    } else {
        let rest = splash_hits(actors, es, amount, radius, center, who, probability, n - 1);
        match find_entity(es, actors[n - 1]) {
            Some(e) => if within(e.position, center, radius) {
                rest.push((actors[n - 1], BotCommand::Damage {
                    who,
                    amount,
                    hitbox: None,
                    critical_shot_probability: probability,
                }))
            } else {
                rest
            },
            None => rest,
        }
    }
}

/// Messages that the level handles between ticks.
#[derive(PartialEq, Eq, Structural, Clone, Copy, Debug)]
pub enum Message {
    /// A blast of `amount` within `radius` millimetres of `center`.
    ApplySplashDamage {
        amount: u32,
        radius: u32,
        center: Vec3,
        who: EntityId,
        critical_shot_probability: i64,
    },
}

/// The level as damage delivery sees it: the combatants that live in it.
pub struct Level {
    pub actors: Vec<EntityId>,
    pub player: EntityId,
}

impl Level {
    pub fn new(player: EntityId) -> (r: Level)
        ensures
            r.player == player,
            r.actors@.len() == 0,
    {
        Level { actors: Vec::new(), player }
    }

    pub fn get_player(&self) -> (r: EntityId)
        ensures
            r == self.player,
    {
        self.player
    }

    /// Sends a damage command to every actor within the blast. No occlusion
    /// test is made: walls do not shield.
    pub fn apply_splash_damage(
        &self,
        world: &World,
        amount: u32,
        radius: u32,
        center: Vec3,
        who: EntityId,
        critical_shot_probability: i64,
    ) -> (r: Vec<(EntityId, BotCommand)>)
        ensures
            r@ == splash_hits(
                self.actors@,
                world.entities@,
                amount,
                radius,
                center,
                who,
                critical_shot_probability,
                self.actors@.len() as int,
            ),
    {
        let mut out: Vec<(EntityId, BotCommand)> = Vec::new();
        let mut i: usize = 0;
        while i < self.actors.len()
            invariant
                i <= self.actors@.len(),
                out@ == splash_hits(
                    self.actors@,
                    world.entities@,
                    amount,
                    radius,
                    center,
                    who,
                    critical_shot_probability,
                    i as int,
                ),
            decreases self.actors@.len() - i,
        {
            let actor = self.actors[i];
            match world.find(actor) {
                Some(e) => {
                    if is_within(e.position, center, radius) {
                        out.push((actor, BotCommand::Damage {
                            who,
                            amount,
                            hitbox: None,
                            critical_shot_probability,
                        }));
                    }
                },
                None => {},
            }
            i = i + 1;
        }
        out
    }

    /// Handles one message; gives the commands to deliver into the actors'
    /// queues.
    pub fn handle_message(&self, world: &World, message: &Message) -> (r: Vec<(EntityId, BotCommand)>)
        ensures
            match *message {
                Message::ApplySplashDamage { amount, radius, center, who, critical_shot_probability } =>
                    r@ == splash_hits(
                        self.actors@,
                        world.entities@,
                        amount,
                        radius,
                        center,
                        who,
                        critical_shot_probability,
                        self.actors@.len() as int,
                    ),
            },
    {
        match *message {
            Message::ApplySplashDamage { amount, radius, center, who, critical_shot_probability } =>
                self.apply_splash_damage(world, amount, radius, center, who, critical_shot_probability),
        }
    }
}

} // verus!
