use vstd::prelude::*;
use crate::command::{BotCommand, SoundRequest, Target};
use crate::world::{EntityId, Vec3};

verus! {

/// What a node of the behavior tree reports for a tick.
#[derive(PartialEq, Eq, Structural, Clone, Copy, Debug)]
pub enum Status {
    Success,
    Failure,
    Running,
}

/// The per-tick view that the tree's nodes read and write. A fresh one is
/// built for every tick and dropped at its end.
pub struct BehaviorContext {
    // Inputs.
    /// Length of the tick in milliseconds.
    pub dt: u32,
    pub bot_handle: EntityId,
    pub position: Vec3,
    pub target: Option<Target>,
    /// The bot's stagger window in milliseconds; attacks wait while positive.
    pub restoration_time: i64,
    // Outputs; a later node overwrites what an earlier one wrote.
    /// In thousandths of the species' walking speed.
    pub movement_speed_factor: u32,
    pub attack_animation_index: usize,
    pub is_moving: bool,
    pub is_attacking: bool,
    pub is_aiming_weapon: bool,
    pub is_screaming: bool,
    /// Sounds to play this tick.
    pub sounds: Vec<SoundRequest>,
    /// Commands to deliver into other entities' queues.
    pub outgoing: Vec<(EntityId, BotCommand)>,
}

impl BehaviorContext {
    /// The context of a tick before any node ran: the inputs as given, the
    /// outputs at rest.
    pub fn new(
        dt: u32,
        bot_handle: EntityId,
        position: Vec3,
        target: Option<Target>,
        restoration_time: i64,
    ) -> (r: BehaviorContext)
        ensures
            r.dt == dt,
            r.bot_handle == bot_handle,
            r.position == position,
            r.target == target,
            r.restoration_time == restoration_time,
            r.movement_speed_factor == 1000,
            r.attack_animation_index == 0,
            !r.is_moving,
            !r.is_attacking,
            !r.is_aiming_weapon,
            !r.is_screaming,
            r.sounds@.len() == 0,
            r.outgoing@.len() == 0,
    {
        BehaviorContext {
            dt,
            bot_handle,
            position,
            target,
            restoration_time,
            movement_speed_factor: 1000,
            attack_animation_index: 0,
            is_moving: false,
            is_attacking: false,
            is_aiming_weapon: false,
            is_screaming: false,
            sounds: Vec::new(),
            outgoing: Vec::new(),
        }
    }
}

} // verus!
