use vstd::prelude::*;
use crate::command::{saturating_minus, sound_request, BotCommand, HitBox, SoundKind, SoundRequest, Target};
use crate::world::{resolve_source, Entity, EntityId, Vec3, World};

verus! {

/// Factor by which a critical head shot multiplies damage.
pub const CRITICAL_MULTIPLIER: u32 = 1000;

/// A health drop larger than this since the last stagger staggers the bot.
pub const STAGGER_THRESHOLD: i64 = 20;

/// Length of a stagger, in milliseconds.
pub const STAGGER_TIME: i64 = 800;

/// What damage resolution reads and changes on a bot.
#[derive(PartialEq, Eq, Structural, Clone, Copy, Debug)]
pub struct CombatState {
    pub health: i64,
    /// Health when the bot last staggered.
    pub last_health: i64,
    /// Milliseconds of stagger left; attacks wait while positive.
    pub restoration_time: i64,
    pub head_exploded: bool,
    pub target: Option<Target>,
}

/// The random draws that resolving one command may use: a critical roll in
/// `0..1000` and a number to pick a pain sound with.
#[derive(PartialEq, Eq, Structural, Clone, Copy, Debug)]
pub struct DamageRoll {
    pub critical: u32,
    pub sound: u64,
}

/// A physical push to hand to the physics collaborator.
#[derive(PartialEq, Eq, Structural, Clone, Copy, Debug)]
pub struct ImpactRequest {
    pub handle: EntityId,
    pub impact_point: Vec3,
    pub direction: Vec3,
}

/// A critical probability, in thousandths, held to `0..=1000`.
pub open spec fn clamp_probability(p: i64) -> int {
    if p < 0 { 0 } else if p > 1000 { 1000 } else { p as int }
}

/// Whether a hit is a critical head shot: it landed on the head and the
/// roll fell under the probability.
pub open spec fn critical(hitbox: Option<HitBox>, probability: i64, roll: u32) -> bool {
    match hitbox {
        Some(h) => h.is_head && (roll as int) < clamp_probability(probability),
        None => false,
    }
}

/// The health that a hit of `amount` takes away.
pub open spec fn dealt(amount: u32, crit: bool) -> int {
    if crit { amount * CRITICAL_MULTIPLIER } else { amount as int }
}

/// Whether the hit leaves the bot staggered: it is still alive and has lost
/// more than the threshold since it last staggered.
pub open spec fn staggers(s: CombatState, health: i64) -> bool {
    s.last_health - health > STAGGER_THRESHOLD && health > 0
}

/// The state after one damage command: the target becomes the combatant
/// behind the source where there is one, a critical head shot multiplies
/// the damage and blows up the head, health drops, and a large enough drop
/// starts a stagger.
pub open spec fn after_damage(
    s: CombatState,
    es: Seq<Entity>,
    who: EntityId,
    amount: u32,
    hitbox: Option<HitBox>,
    probability: i64,
    roll: DamageRoll,
) -> CombatState {
    let crit = critical(hitbox, probability, roll.critical);
    let health = saturating_minus(s.health, dealt(amount, crit));
    let st = staggers(s, health);
    CombatState {
        health,
        last_health: if st { health } else { s.last_health },
        restoration_time: if st { STAGGER_TIME } else { s.restoration_time },
        head_exploded: s.head_exploded || crit,
        target: match resolve_source(es, who) {
            Some(r) => Some(Target { position: r.1, handle: r.0 }),
            None => s.target,
        },
    }
}

/// The state after one command of any kind; impacts leave it as it is.
pub open spec fn after_command(s: CombatState, es: Seq<Entity>, c: BotCommand, roll: DamageRoll) -> CombatState {
    match c {
        BotCommand::Damage { who, amount, hitbox, critical_shot_probability } =>
            after_damage(s, es, who, amount, hitbox, critical_shot_probability, roll),
        BotCommand::HandleImpact { .. } => s,
    }
}

/// The state after the first `n` commands of `cs`, in order, the `i`-th
/// with roll `rolls[i]`.
pub open spec fn after_commands(
    s: CombatState,
    es: Seq<Entity>,
    cs: Seq<BotCommand>,
    rolls: Seq<DamageRoll>,
    n: int,
) -> CombatState
    decreases n,
{
    if n <= 0 {
        s
    } else {
        after_command(after_commands(s, es, cs, rolls, n - 1), es, cs[n - 1], rolls[n - 1])
    }
}

/// The pain sounds that a damage command makes: one where it staggers the
/// bot outside any stagger window already running, and the species has any.
pub open spec fn pain_sounds_of(
    s: CombatState,
    es: Seq<Entity>,
    c: BotCommand,
    roll: DamageRoll,
    n_pain: nat,
    position: Vec3,
) -> Seq<SoundRequest> {
    match c {
        BotCommand::Damage { who, amount, hitbox, critical_shot_probability } => {
            let next = after_damage(s, es, who, amount, hitbox, critical_shot_probability, roll);
            if staggers(s, next.health) && s.restoration_time <= 0 && n_pain > 0 {
                seq![sound_request(SoundKind::Pain, (roll.sound % (n_pain as u64)) as usize, position)]
            } else {
                Seq::empty()
            }
        },
        BotCommand::HandleImpact { .. } => Seq::empty(),
    }
}

/// The sounds that the first `n` commands of `cs` make, in order.
pub open spec fn sounds_of_commands(
    s: CombatState,
    es: Seq<Entity>,
    cs: Seq<BotCommand>,
    rolls: Seq<DamageRoll>,
    n_pain: nat,
    position: Vec3,
    n: int,
) -> Seq<SoundRequest>
    decreases n,
{
    if n <= 0 {
        Seq::empty()
    } else {
        sounds_of_commands(s, es, cs, rolls, n_pain, position, n - 1) + pain_sounds_of(
            after_commands(s, es, cs, rolls, n - 1),
            es,
            cs[n - 1],
            rolls[n - 1],
            n_pain,
            position,
        )
    }
}

/// The impacts among the first `n` commands of `cs`, in order.
pub open spec fn impacts_of_commands(cs: Seq<BotCommand>, n: int) -> Seq<ImpactRequest>
    decreases n,
{
    if n <= 0 {
        Seq::empty()
    } else {
        impacts_of_commands(cs, n - 1) + match cs[n - 1] {
            BotCommand::HandleImpact { handle, impact_point, direction } =>
                seq![ImpactRequest { handle, impact_point, direction }],
            BotCommand::Damage { .. } => Seq::empty(),
        }
    }
}

/// Whether every critical roll lies in `0..1000`.
pub open spec fn rolls_valid(rolls: Seq<DamageRoll>) -> bool {
    forall|i: int| 0 <= i < rolls.len() ==> (#[trigger] rolls[i]).critical < 1000
}

/// Draining an empty queue changes nothing and asks for nothing.
pub proof fn law_drain_empty_is_noop(
    s: CombatState,
    es: Seq<Entity>,
    rolls: Seq<DamageRoll>,
    n_pain: nat,
    position: Vec3,
)
    ensures
        after_commands(s, es, Seq::empty(), rolls, 0) == s,
        sounds_of_commands(s, es, Seq::empty(), rolls, n_pain, position, 0).len() == 0,
        impacts_of_commands(Seq::empty(), 0).len() == 0,
{
}

/// A queued damage of `amount` that is no critical head shot takes exactly
/// `amount` off health, and starts a stagger exactly when the drop since the
/// last stagger exceeds the threshold while the bot stays alive.
pub proof fn law_damage_round_trip(
    s: CombatState,
    es: Seq<Entity>,
    who: EntityId,
    amount: u32,
    hitbox: Option<HitBox>,
    probability: i64,
    roll: DamageRoll,
)
    requires
        !critical(hitbox, probability, roll.critical),
        s.health - amount >= i64::MIN,
    ensures
        ({
            let c = BotCommand::Damage { who, amount, hitbox, critical_shot_probability: probability };
            let after = after_commands(s, es, seq![c], seq![roll], 1);
            &&& after.health == s.health - amount
            &&& (after.restoration_time == STAGGER_TIME && after.last_health == after.health) <== (
                s.last_health - after.health > STAGGER_THRESHOLD && after.health > 0)
            &&& !(s.last_health - after.health > STAGGER_THRESHOLD && after.health > 0) ==> (
                after.restoration_time == s.restoration_time && after.last_health == s.last_health)
            &&& after.head_exploded == s.head_exploded
        }),
{
    let c = BotCommand::Damage { who, amount, hitbox, critical_shot_probability: probability };
    assert(after_commands(s, es, seq![c], seq![roll], 0) == s);
}

/// Inside a running stagger window no damage asks for a pain sound, so a
/// window holds at most the one that opened it.
pub proof fn law_no_pain_sound_inside_window(
    s: CombatState,
    es: Seq<Entity>,
    c: BotCommand,
    roll: DamageRoll,
    n_pain: nat,
    position: Vec3,
)
    requires
        s.restoration_time > 0,
    ensures
        pain_sounds_of(s, es, c, roll, n_pain, position).len() == 0,
{
}

/// A head hit with critical probability 1 always multiplies the damage;
/// with probability 0 it never does.
pub proof fn law_critical_boundary(roll: u32)
    requires
        roll < 1000,
    ensures
        critical(Some(HitBox { is_head: true }), 1000, roll),
        dealt(1, critical(Some(HitBox { is_head: true }), 1000, roll)) == CRITICAL_MULTIPLIER,
        !critical(Some(HitBox { is_head: true }), 0, roll),
        forall|amount: u32| dealt(amount, critical(Some(HitBox { is_head: true }), 0, roll)) == amount,
{
}

/// A queued head hit whose critical probability is 1 or more always takes
/// the amplified amount and blows up the head.
pub proof fn law_certain_head_shot(
    s: CombatState,
    es: Seq<Entity>,
    who: EntityId,
    amount: u32,
    probability: i64,
    roll: DamageRoll,
)
    requires
        probability >= 1000,
        roll.critical < 1000,
        s.health - amount * CRITICAL_MULTIPLIER >= i64::MIN,
    ensures
        ({
            let c = BotCommand::Damage {
                who,
                amount,
                hitbox: Some(HitBox { is_head: true }),
                critical_shot_probability: probability,
            };
            let after = after_commands(s, es, seq![c], seq![roll], 1);
            after.health == s.health - amount * CRITICAL_MULTIPLIER && after.head_exploded
        }),
{
    let c = BotCommand::Damage {
        who,
        amount,
        hitbox: Some(HitBox { is_head: true }),
        critical_shot_probability: probability,
    };
    assert(after_commands(s, es, seq![c], seq![roll], 0) == s);
}

/// A queued head hit whose critical probability is 0 or less never
/// amplifies: it takes exactly its amount and leaves the head as it was.
pub proof fn law_impossible_head_shot(
    s: CombatState,
    es: Seq<Entity>,
    who: EntityId,
    amount: u32,
    probability: i64,
    roll: DamageRoll,
)
    requires
        probability <= 0,
        s.health - amount >= i64::MIN,
    ensures
        ({
            let c = BotCommand::Damage {
                who,
                amount,
                hitbox: Some(HitBox { is_head: true }),
                critical_shot_probability: probability,
            };
            let after = after_commands(s, es, seq![c], seq![roll], 1);
            after.health == s.health - amount && after.head_exploded == s.head_exploded
        }),
{
    let c = BotCommand::Damage {
        who,
        amount,
        hitbox: Some(HitBox { is_head: true }),
        critical_shot_probability: probability,
    };
    assert(after_commands(s, es, seq![c], seq![roll], 0) == s);
}

/// `health - amount`, held at `i64::MIN`.
fn lose_health(health: i64, amount: i64) -> (r: i64)
    requires
        amount >= 0,
    ensures
        r == saturating_minus(health, amount as int),
{
    if health < i64::MIN + amount {
        i64::MIN
    } else {
        health - amount
    }
}

impl CombatState {
    pub open spec fn new_spec(health: i64) -> CombatState {
        CombatState { health, last_health: health, restoration_time: 0, head_exploded: false, target: None }
    }

    /// A fresh bot's state: full health, no stagger, no target.
    pub fn new(health: i64) -> (r: CombatState)
        ensures
            r == CombatState::new_spec(health),
    {
        CombatState { health, last_health: health, restoration_time: 0, head_exploded: false, target: None }
    }

    /// Resolves one damage command: acquires the combatant behind `who` as
    /// the target, applies a critical head shot when `roll` falls under the
    /// probability, takes the health, and staggers on a large drop. A stagger
    /// that does not fall into a running stagger window asks for one of the
    /// `pain_sound_count` pain sounds at `position`.
    pub fn take_damage(
        &mut self,
        world: &World,
        who: EntityId,
        amount: u32,
        hitbox: Option<HitBox>,
        critical_shot_probability: i64,
        roll: DamageRoll,
        pain_sound_count: usize,
        position: Vec3,
        sounds: &mut Vec<SoundRequest>,
    )
        requires
            roll.critical < 1000,
        ensures
            *final(self) == after_damage(
                *old(self),
                world.entities@,
                who,
                amount,
                hitbox,
                critical_shot_probability,
                roll,
            ),
            final(sounds)@ == old(sounds)@ + pain_sounds_of(
                *old(self),
                world.entities@,
                BotCommand::Damage { who, amount, hitbox, critical_shot_probability },
                roll,
                pain_sound_count as nat,
                position,
            ),
    {
        match world.resolve_source(who) {
            Some((handle, at)) => {
                self.target = Some(Target { position: at, handle });
            },
            None => {},
        }
        let probability: i64 = if critical_shot_probability < 0 {
            0
        } else if critical_shot_probability > 1000 {
            1000
        } else {
            critical_shot_probability
        };
        let crit = match hitbox {
            Some(h) => h.is_head && (roll.critical as i64) < probability,
            None => false,
        };
        let taken: i64 = if crit {
            amount as i64 * CRITICAL_MULTIPLIER as i64
        } else {
            amount as i64
        };
        if crit {
            self.head_exploded = true;
        }
        self.health = lose_health(self.health, taken);
        if (self.last_health as i128) - (self.health as i128) > STAGGER_THRESHOLD as i128 && self.health > 0 {
            let quiet = self.restoration_time <= 0;
            self.last_health = self.health;
            self.restoration_time = STAGGER_TIME;
            if quiet && pain_sound_count > 0 {
                let index = (roll.sound % (pain_sound_count as u64)) as usize;
                sounds.push(SoundRequest::new(SoundKind::Pain, index, position));
            }
        }
    }
}

} // verus!
