use vstd::prelude::*;

verus! {

/// A timeline signal authored into a clip: when playback passes `time`
/// (milliseconds into the clip), the clip emits `id`.
#[derive(PartialEq, Eq, Structural, Clone, Copy, Debug)]
pub struct SignalMarker {
    pub time: u64,
    pub id: u32,
}

/// One playing instance of an animation clip, as the animation host keeps
/// it: whether it plays, how fast, where it stands, and the signals it has
/// emitted that nobody has drained yet.
pub struct AnimationClip {
    pub enabled: bool,
    /// Playback speed in thousandths.
    pub speed: u32,
    /// Position of playback in milliseconds; never past `length`.
    pub time: u64,
    pub length: u64,
    pub signals: Vec<SignalMarker>,
    pub events: Vec<u32>,
}

/// The ids of the markers of `ms` that lie in the window `(from, to]`, in
/// the order of `ms`.
pub open spec fn crossed(ms: Seq<SignalMarker>, from: u64, to: u64) -> Seq<u32>
    decreases ms.len(),
{
    if ms.len() == 0 {
        Seq::empty()
    } else {
        let m = ms.last();
        let rest = crossed(ms.drop_last(), from, to);
        if from < m.time && m.time <= to {
            rest.push(m.id)
        } else {
            rest
        }
    }
}

/// Where playback stands after `dt` milliseconds at `speed` thousandths,
/// starting from `time` in a clip of `length`.
pub open spec fn advanced_time(time: u64, length: u64, speed: u32, dt: u32) -> u64 {
    let t = time + (dt as int) * (speed as int) / 1000;
    if t >= length as int { length } else { t as u64 }
}

impl AnimationClip {
    pub open spec fn wf(&self) -> bool {
        self.time <= self.length
    }

    pub open spec fn ended(&self) -> bool {
        self.time >= self.length
    }

    /// A stopped clip of `length` milliseconds with its authored signals.
    pub fn new(length: u64, signals: Vec<SignalMarker>) -> (r: AnimationClip)
        ensures
            r.wf(),
            !r.enabled,
            r.speed == 1000,
            r.time == 0,
            r.length == length,
            r.signals@ == signals@,
            r.events@.len() == 0,
    {
        AnimationClip { enabled: false, speed: 1000, time: 0, length, signals, events: Vec::new() }
    }

    pub fn has_ended(&self) -> (r: bool)
        ensures
            r == self.ended(),
    {
        self.time >= self.length
    }

    pub fn is_enabled(&self) -> (r: bool)
        ensures
            r == self.enabled,
    {
        self.enabled
    }

    pub fn set_enabled(&mut self, enabled: bool)
        ensures
            final(self).enabled == enabled,
            final(self).speed == old(self).speed,
            final(self).time == old(self).time,
            final(self).length == old(self).length,
            final(self).signals@ == old(self).signals@,
            final(self).events@ == old(self).events@,
    {
        self.enabled = enabled;
    }

    pub fn set_speed(&mut self, speed: u32)
        ensures
            final(self).speed == speed,
            final(self).enabled == old(self).enabled,
            final(self).time == old(self).time,
            final(self).length == old(self).length,
            final(self).signals@ == old(self).signals@,
            final(self).events@ == old(self).events@,
    {
        self.speed = speed;
    }

    /// Moves playback back to the start of the clip.
    pub fn rewind(&mut self)
        ensures
            final(self).time == 0,
            final(self).wf(),
            final(self).enabled == old(self).enabled,
            final(self).speed == old(self).speed,
            final(self).length == old(self).length,
            final(self).signals@ == old(self).signals@,
            final(self).events@ == old(self).events@,
    {
        self.time = 0;
    }

    /// Takes the oldest emitted signal that has not been drained yet.
    pub fn pop_event(&mut self) -> (r: Option<u32>)
        ensures
            old(self).events@.len() == 0 ==> r is None && final(self).events@ == old(self).events@,
            old(self).events@.len() > 0 ==> r == Some(old(self).events@[0])
                && final(self).events@ == old(self).events@.drop_first(),
            final(self).enabled == old(self).enabled,
            final(self).speed == old(self).speed,
            final(self).time == old(self).time,
            final(self).length == old(self).length,
            final(self).signals@ == old(self).signals@,
    {
        if self.events.len() == 0 {
            None
        } else {
            Some(self.events.remove(0))
        }
    }

    /// Plays the clip for `dt` milliseconds: a disabled clip stands still;
    /// an enabled one moves by `dt` times its speed, stops at its end, and
    /// emits, in authored order, each signal that it passes.
    pub fn advance(&mut self, dt: u32)
        requires
            old(self).wf(),
        ensures
            final(self).wf(),
            final(self).enabled == old(self).enabled,
            final(self).speed == old(self).speed,
            final(self).length == old(self).length,
            final(self).signals@ == old(self).signals@,
            !old(self).enabled ==> final(self).time == old(self).time
                && final(self).events@ == old(self).events@,
            old(self).enabled ==> final(self).time == advanced_time(
                old(self).time,
                old(self).length,
                old(self).speed,
                dt,
            ) && final(self).events@ == old(self).events@ + crossed(
                old(self).signals@,
                old(self).time,
                final(self).time,
            ),
    {
        if !self.enabled {
            return;
        }
        proof {
            assert((dt as u64) * (self.speed as u64) <= 0xFFFF_FFFFu64 * 0xFFFF_FFFFu64)
                by (nonlinear_arith);
        }
        let step: u64 = (dt as u64) * (self.speed as u64) / 1000;
        let from = self.time;
        let to: u64 = if step >= self.length - from { self.length } else { from + step };
        let ghost old_events = self.events@;
        let ghost start = *self;
        let mut i: usize = 0;
        while i < self.signals.len()
            invariant
                i <= self.signals@.len(),
                self.time == start.time,
                self.length == start.length,
                self.enabled == start.enabled,
                self.speed == start.speed,
                self.signals@ == start.signals@,
                from == start.time,
                to <= start.length,
                self.events@ == old_events + crossed(self.signals@.take(i as int), from, to),
            decreases self.signals@.len() - i,
        {
            let m = self.signals[i];
            proof {
                let t = self.signals@.take(i + 1);
                assert(t.drop_last() =~= self.signals@.take(i as int));
                assert(t.last() == m);
            }
            if from < m.time && m.time <= to {
                self.events.push(m.id);
            }
            i = i + 1;
        }
        proof {
            assert(self.signals@.take(i as int) =~= self.signals@);
        }
        self.time = to;
    }
}

/// The states of the locomotion machine.
#[derive(PartialEq, Eq, Structural, Clone, Copy, Debug)]
pub enum LowerBodyState {
    Idle,
    Walk,
    Scream,
    Dead,
}

#[derive(PartialEq, Eq, Structural, Clone, Copy, Debug)]
pub struct LowerBodyMachineInput {
    pub walk: bool,
    pub scream: bool,
    pub dead: bool,
    /// Walking speed relative to the species' own, in thousandths.
    pub movement_speed_factor: u32,
}

/// The state the locomotion machine goes to from `s` on `input`: death is
/// final; otherwise screaming wins over walking, and walking over idling.
pub open spec fn lower_body_next(s: LowerBodyState, input: LowerBodyMachineInput) -> LowerBodyState {
    if s == LowerBodyState::Dead || input.dead {
        LowerBodyState::Dead
    } else if input.scream {
        LowerBodyState::Scream
    } else if input.walk {
        LowerBodyState::Walk
    } else {
        LowerBodyState::Idle
    }
}

/// The locomotion machine: idle, walk, scream and dead.
pub struct LowerBodyMachine {
    pub state: LowerBodyState,
    pub movement_speed_factor: u32,
}

impl LowerBodyMachine {
    pub fn new() -> (r: LowerBodyMachine)
        ensures
            r.state == LowerBodyState::Idle,
            r.movement_speed_factor == 1000,
    {
        LowerBodyMachine { state: LowerBodyState::Idle, movement_speed_factor: 1000 }
    }

    /// Advances the machine by one tick on the tree's intents.
    pub fn apply(&mut self, input: LowerBodyMachineInput)
        ensures
            final(self).state == lower_body_next(old(self).state, input),
            final(self).movement_speed_factor == input.movement_speed_factor,
    {
        self.state = if self.state == LowerBodyState::Dead || input.dead {
            LowerBodyState::Dead
        } else if input.scream {
            LowerBodyState::Scream
        } else if input.walk {
            LowerBodyState::Walk
        } else {
            LowerBodyState::Idle
        };
        self.movement_speed_factor = input.movement_speed_factor;
    }
}

/// The states of the combat machine.
#[derive(PartialEq, Eq, Structural, Clone, Copy, Debug)]
pub enum UpperBodyState {
    Idle,
    Walk,
    Scream,
    Aim,
    Attack,
    Dying,
}

#[derive(PartialEq, Eq, Structural, Clone, Copy, Debug)]
pub struct UpperBodyMachineInput {
    pub attack: bool,
    pub walk: bool,
    pub scream: bool,
    pub dead: bool,
    pub aim: bool,
    pub attack_animation_index: usize,
}

/// Whether a clip is under way: on, moving, and not at its end.
pub open spec fn playing(c: AnimationClip) -> bool {
    c.enabled && c.speed > 0 && !c.ended()
}

/// The state the combat machine goes to from `s` on `input`, where
/// `attack_playing` tells whether the requested attack clip is under way:
/// dying is final; a swing that is under way holds the attack state until
/// its clip ends; otherwise attacking wins over aiming, aiming over
/// screaming, screaming over walking, and walking over idling.
pub open spec fn upper_body_next(
    s: UpperBodyState,
    input: UpperBodyMachineInput,
    attack_playing: bool,
) -> UpperBodyState {
    if s == UpperBodyState::Dying || input.dead {
        UpperBodyState::Dying
    } else if input.attack || (s == UpperBodyState::Attack && attack_playing) {
        UpperBodyState::Attack
    } else if input.aim {
        UpperBodyState::Aim
    } else if input.scream {
        UpperBodyState::Scream
    } else if input.walk {
        UpperBodyState::Walk
    } else {
        UpperBodyState::Idle
    }
}

/// Where a clip's playback stands after `dt`: enabled clips move, others
/// stand still.
pub open spec fn played_time(c: AnimationClip, dt: u32) -> u64 {
    if c.enabled { advanced_time(c.time, c.length, c.speed, dt) } else { c.time }
}

/// `after` is `before` played for `dt` milliseconds.
pub open spec fn played(before: AnimationClip, after: AnimationClip, dt: u32) -> bool {
    &&& after.enabled == before.enabled
    &&& after.speed == before.speed
    &&& after.length == before.length
    &&& after.signals@ == before.signals@
    &&& after.time == played_time(before, dt)
    &&& after.events@ == (if before.enabled {
        before.events@ + crossed(before.signals@, before.time, after.time)
    } else {
        before.events@
    })
}

/// The signal that an attack clip emits at the moment of contact.
pub const HIT_SIGNAL: u32 = 1;

/// The combat machine: its state, one clip instance per attack of the
/// species (kept for the bot's lifetime), the dying clip, and which attack
/// clip is the current one.
pub struct UpperBodyMachine {
    pub state: UpperBodyState,
    pub attack_animations: Vec<AnimationClip>,
    pub dying_animation: AnimationClip,
    pub active_attack: usize,
}

impl UpperBodyMachine {
    pub open spec fn wf(&self) -> bool {
        &&& self.attack_animations@.len() > 0
        &&& self.active_attack < self.attack_animations@.len()
        &&& forall|i: int| 0 <= i < self.attack_animations@.len() ==> self.attack_animations@[i].wf()
        &&& self.dying_animation.wf()
    }

    pub fn new(attack_animations: Vec<AnimationClip>, dying_animation: AnimationClip) -> (r: UpperBodyMachine)
        requires
            attack_animations@.len() > 0,
            forall|i: int| 0 <= i < attack_animations@.len() ==> attack_animations@[i].wf(),
            dying_animation.wf(),
        ensures
            r.wf(),
            r.state == UpperBodyState::Idle,
            r.attack_animations@ == attack_animations@,
            r.dying_animation == dying_animation,
            r.active_attack == 0,
    {
        UpperBodyMachine { state: UpperBodyState::Idle, attack_animations, dying_animation, active_attack: 0 }
    }

    pub fn active_state(&self) -> (r: UpperBodyState)
        ensures
            r == self.state,
    {
        self.state
    }

    /// Advances the machine by one tick on the tree's intents: moves to the
    /// next state, makes the requested attack clip the current one, plays
    /// every attack clip that is on for `dt` milliseconds, and while dying
    /// plays the dying clip (switched on).
    pub fn apply(&mut self, dt: u32, input: UpperBodyMachineInput)
        requires
            old(self).wf(),
            input.attack_animation_index < old(self).attack_animations@.len(),
        ensures
            final(self).wf(),
            final(self).state == upper_body_next(
                old(self).state,
                input,
                playing(old(self).attack_animations@[input.attack_animation_index as int]),
            ),
            final(self).active_attack == input.attack_animation_index,
            final(self).attack_animations@.len() == old(self).attack_animations@.len(),
            forall|k: int| 0 <= k < old(self).attack_animations@.len() ==> played(
                old(self).attack_animations@[k],
                #[trigger] final(self).attack_animations@[k],
                dt,
            ),
            final(self).state != UpperBodyState::Dying ==> final(self).dying_animation
                == old(self).dying_animation,
            final(self).state == UpperBodyState::Dying ==> final(self).dying_animation.enabled
                && final(self).dying_animation.time == advanced_time(
                old(self).dying_animation.time,
                old(self).dying_animation.length,
                old(self).dying_animation.speed,
                dt,
            ),
    {
        let i = input.attack_animation_index;
        let attack_playing = self.attack_animations[i].enabled && self.attack_animations[i].speed > 0
            && !self.attack_animations[i].has_ended();
        self.state = if self.state == UpperBodyState::Dying || input.dead {
            UpperBodyState::Dying
        } else if input.attack || (self.state == UpperBodyState::Attack && attack_playing) {
            UpperBodyState::Attack
        } else if input.aim {
            UpperBodyState::Aim
        } else if input.scream {
            UpperBodyState::Scream
        } else if input.walk {
            UpperBodyState::Walk
        } else {
            UpperBodyState::Idle
        };
        self.active_attack = i;
        let ghost before = self.attack_animations@;
        let ghost mid = *self;
        let n = self.attack_animations.len();
        let mut k: usize = 0;
        while k < n
            invariant
                n == before.len(),
                self.attack_animations@.len() == n,
                self.state == mid.state,
                self.active_attack == mid.active_attack,
                self.dying_animation == mid.dying_animation,
                mid.dying_animation.wf(),
                k <= n,
                forall|j: int| 0 <= j < n ==> before[j].wf(),
                forall|j: int| 0 <= j < k ==> played(before[j], #[trigger] self.attack_animations@[j], dt),
                forall|j: int| 0 <= j < k ==> (#[trigger] self.attack_animations@[j]).wf(),
                forall|j: int| k <= j < n ==> #[trigger] self.attack_animations@[j] == before[j],
            decreases n - k,
        {
            self.attack_animations[k].advance(dt);
            k = k + 1;
        }
        if self.state == UpperBodyState::Dying {
            self.dying_animation.set_enabled(true);
            self.dying_animation.advance(dt);
        }
    }
}

} // verus!
