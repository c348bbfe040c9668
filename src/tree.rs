use vstd::prelude::*;
use crate::animation::UpperBodyMachine;
use crate::behavior::{BehaviorContext, Status};
use crate::definition::BotDefinition;
use crate::melee::{CanMeleeAttack, DoMeleeAttack};
use crate::movement::{target_near, MoveToTarget};
use crate::random::RandomSource;

verus! {

/// A node of a behavior tree. Composites name their children by index into
/// the tree's node list; a child always stands after its parent.
pub enum BtNode {
    /// Runs its children in order while they succeed.
    Sequence(Vec<usize>),
    /// Runs its children in order until one does not fail.
    Selector(Vec<usize>),
    CanMeleeAttack(CanMeleeAttack),
    DoMeleeAttack(DoMeleeAttack),
    MoveToTarget(MoveToTarget),
}

/// The tag of a sequence in a node's shape.
pub open spec fn SEQUENCE() -> int { 0 }

/// The tag of a selector in a node's shape.
pub open spec fn SELECTOR() -> int { 1 }

/// The tag of the melee guard in a node's shape.
pub open spec fn GUARD() -> int { 2 }

/// The tag of the melee action in a node's shape.
pub open spec fn ACTION() -> int { 3 }

/// The tag of the chase leaf in a node's shape.
pub open spec fn CHASE() -> int { 4 }

/// What a node is, leaving out the state that a leaf carries between ticks:
/// its kind and, for a composite, its children.
pub open spec fn shape_of(n: BtNode) -> (int, Seq<usize>) {
    match n {
        BtNode::Sequence(ch) => (SEQUENCE(), ch@),
        BtNode::Selector(ch) => (SELECTOR(), ch@),
        BtNode::CanMeleeAttack(_) => (GUARD(), Seq::empty()),
        BtNode::DoMeleeAttack(_) => (ACTION(), Seq::empty()),
        BtNode::MoveToTarget(_) => (CHASE(), Seq::empty()),
    }
}

pub open spec fn shapes(ns: Seq<BtNode>) -> Seq<(int, Seq<usize>)> {
    ns.map_values(|n: BtNode| shape_of(n))
}

/// Every child stands after its parent and inside the tree.
pub open spec fn well_formed(sh: Seq<(int, Seq<usize>)>) -> bool {
    forall|i: int, k: int|
        0 <= i < sh.len() && 0 <= k < sh[i].1.len() ==> i < #[trigger] sh[i].1[k] < sh.len()
}

/// Every action leaf of `ns` points at one of `n` attacks.
pub open spec fn actions_fit(ns: Seq<BtNode>, n: int) -> bool {
    forall|i: int| 0 <= i < ns.len() ==> match #[trigger] ns[i] {
        BtNode::DoMeleeAttack(a) => a.attack_animation_index < n,
        _ => true,
    }
}

/// The status of node `i` of a tree of shape `sh`, where `k` is the first
/// child still to run (0 for a whole node), given whether a target is
/// tracked, whether the stagger window has run out, and whether the target
/// is within close combat distance. Leaves decide on those facts alone;
/// composites short-circuit.
pub open spec fn evaluate(
    sh: Seq<(int, Seq<usize>)>,
    i: int,
    k: int,
    has_target: bool,
    rested: bool,
    near: bool,
) -> Status
    decreases sh.len() - i, sh[i].1.len() - k,
{
    if !(0 <= i < sh.len()) || k < 0 {
        Status::Failure
    } else if sh[i].0 == GUARD() {
        if has_target && rested { Status::Success } else { Status::Failure }
    } else if sh[i].0 == ACTION() {
        if has_target { Status::Success } else { Status::Failure }
    } else if sh[i].0 == CHASE() {
        if !has_target { Status::Failure } else if near { Status::Success } else { Status::Running }
    } else if k >= sh[i].1.len() {
        if sh[i].0 == SEQUENCE() { Status::Success } else { Status::Failure }
    } else {
        let c = sh[i].1[k] as int;
        if c <= i || c >= sh.len() {
            Status::Failure
        } else {
            let s = evaluate(sh, c, 0, has_target, rested, near);
            if sh[i].0 == SEQUENCE() {
                if s != Status::Success { s } else { evaluate(sh, i, k + 1, has_target, rested, near) }
            } else {
                if s != Status::Failure { s } else { evaluate(sh, i, k + 1, has_target, rested, near) }
            }
        }
    }
}

/// Whether evaluating node `i` of a tree of shape `sh` from its `k`-th
/// child on, as `evaluate` does, runs an action leaf.
pub open spec fn reaches_action(
    sh: Seq<(int, Seq<usize>)>,
    i: int,
    k: int,
    has_target: bool,
    rested: bool,
    near: bool,
) -> bool
    decreases sh.len() - i, sh[i].1.len() - k,
{
    if !(0 <= i < sh.len()) || k < 0 {
        false
    } else if sh[i].0 == ACTION() {
        true
    } else if sh[i].0 == GUARD() || sh[i].0 == CHASE() {
        false
    } else if k >= sh[i].1.len() {
        false
    } else {
        let c = sh[i].1[k] as int;
        if c <= i || c >= sh.len() {
            false
        } else {
            let s = evaluate(sh, c, 0, has_target, rested, near);
            let go_on = if sh[i].0 == SEQUENCE() { s == Status::Success } else { s == Status::Failure };
            reaches_action(sh, c, 0, has_target, rested, near) || (go_on && reaches_action(
                sh,
                i,
                k + 1,
                has_target,
                rested,
                near,
            ))
        }
    }
}

/// The shape of the hunting template: a sequence of the chase leaf, the
/// guard and the action.
pub open spec fn hunting_shapes() -> Seq<(int, Seq<usize>)> {
    seq![
        (SEQUENCE(), seq![1usize, 2usize, 3usize]),
        (CHASE(), Seq::empty()),
        (GUARD(), Seq::empty()),
        (ACTION(), Seq::empty()),
    ]
}

/// Without a target the hunting template stops at its chase leaf and never
/// runs the action.
pub proof fn lemma_hunting_needs_target(rested: bool, near: bool)
    ensures
        !reaches_action(hunting_shapes(), 0, 0, false, rested, near),
{
    let sh = hunting_shapes();
    assert(sh[0].1[0] == 1usize);
    assert(evaluate(sh, 1, 0, false, rested, near) == Status::Failure);
    assert(!reaches_action(sh, 1, 0, false, rested, near));
}

/// A behavior tree whose root is its first node. Its topology never changes;
/// only the leaves' own state moves from tick to tick.
pub struct BehaviorTree {
    pub nodes: Vec<BtNode>,
}

impl BehaviorTree {
    pub open spec fn wf(&self) -> bool {
        self.nodes@.len() > 0 && well_formed(shapes(self.nodes@))
    }

    /// Whether a tick of this tree runs an action leaf.
    pub open spec fn reaches_action(&self, has_target: bool, rested: bool, near: bool) -> bool {
        reaches_action(shapes(self.nodes@), 0, 0, has_target, rested, near)
    }

    /// The status that a tick of this tree reports.
    pub open spec fn status(&self, has_target: bool, rested: bool, near: bool) -> Status {
        evaluate(shapes(self.nodes@), 0, 0, has_target, rested, near)
    }

    /// Builds a tree from its nodes; `None` where the list is empty or a
    /// composite names a child that does not stand after it in the list.
    pub fn from_nodes(nodes: Vec<BtNode>) -> (r: Option<BehaviorTree>)
        ensures
            r is Some <==> nodes@.len() > 0 && well_formed(shapes(nodes@)),
            r matches Some(t) ==> t.nodes@ == nodes@,
    {
        let n = nodes.len();
        if n == 0 {
            return None;
        }
        let mut i: usize = 0;
        while i < n
            invariant
                n == nodes@.len(),
                i <= n,
                forall|a: int, k: int|
                    0 <= a < i && 0 <= k < shapes(nodes@)[a].1.len() ==> a < #[trigger] shapes(nodes@)[a].1[k] < n,
            decreases n - i,
        {
            let children: &Vec<usize> = match &nodes[i] {
                BtNode::Sequence(ch) => ch,
                BtNode::Selector(ch) => ch,
                _ => {
                    i = i + 1;
                    continue;
                },
            };
            assert(children@ == shapes(nodes@)[i as int].1);
            let mut k: usize = 0;
            while k < children.len()
                invariant
                    n == nodes@.len(),
                    i < n,
                    k <= children@.len(),
                    children@ == shapes(nodes@)[i as int].1,
                    forall|a: int, j: int|
                        0 <= a < i && 0 <= j < shapes(nodes@)[a].1.len() ==> a < #[trigger] shapes(nodes@)[a].1[j] < n,
                    forall|j: int| 0 <= j < k ==> i < #[trigger] children@[j] < n,
                decreases children@.len() - k,
            {
                let c = children[k];
                if c <= i || c >= n {
                    proof {
                        assert(shapes(nodes@)[i as int].1[k as int] == c);
                    }
                    return None;
                }
                k = k + 1;
            }
            i = i + 1;
        }
        Some(BehaviorTree { nodes })
    }

    /// The melee template: a sequence of the guard and the action.
    pub fn melee() -> (r: BehaviorTree)
        ensures
            r.wf(),
            actions_fit(r.nodes@, 1),
            forall|t: bool, x: bool, n: bool| r.status(t, x, n) == (if t && x { Status::Success } else { Status::Failure }),
    {
        let mut children: Vec<usize> = Vec::new();
        children.push(1);
        children.push(2);
        let mut nodes: Vec<BtNode> = Vec::new();
        nodes.push(BtNode::Sequence(children));
        nodes.push(BtNode::CanMeleeAttack(CanMeleeAttack));
        nodes.push(BtNode::DoMeleeAttack(DoMeleeAttack::new()));
        let r = BehaviorTree { nodes };
        proof {
            let sh = shapes(r.nodes@);
            assert(sh[0].1 =~= seq![1usize, 2usize]);
            assert forall|t: bool, x: bool, n: bool| r.status(t, x, n) == (if t && x { Status::Success } else { Status::Failure }) by {
                assert(evaluate(sh, 2, 0, t, x, n) == (if t { Status::Success } else { Status::Failure }));
                assert(evaluate(sh, 1, 0, t, x, n) == (if t && x { Status::Success } else { Status::Failure }));
                assert(evaluate(sh, 0, 2, t, x, n) == Status::Success);
                assert(evaluate(sh, 0, 1, t, x, n) == evaluate(sh, 2, 0, t, x, n));
                assert(evaluate(sh, 0, 0, t, x, n) == (if t && x { Status::Success } else { Status::Failure }));
            }
        }
        r
    }

    /// The hunting template: a sequence that walks up to the target, then
    /// runs the guard and the action. It runs while the target is out of
    /// reach, and succeeds once the bot stands by it with its stagger over.
    pub fn chase_and_melee() -> (r: BehaviorTree)
        ensures
            r.wf(),
            shapes(r.nodes@) == hunting_shapes(),
            actions_fit(r.nodes@, 1),
            forall|t: bool, x: bool, n: bool| r.status(t, x, n) == (
                if !t { Status::Failure }
                else if !n { Status::Running }
                else if x { Status::Success }
                else { Status::Failure }),
    {
        let mut children: Vec<usize> = Vec::new();
        children.push(1);
        children.push(2);
        children.push(3);
        let mut nodes: Vec<BtNode> = Vec::new();
        nodes.push(BtNode::Sequence(children));
        nodes.push(BtNode::MoveToTarget(MoveToTarget));
        nodes.push(BtNode::CanMeleeAttack(CanMeleeAttack));
        nodes.push(BtNode::DoMeleeAttack(DoMeleeAttack::new()));
        let r = BehaviorTree { nodes };
        proof {
            let sh = shapes(r.nodes@);
            assert(sh[0].1 =~= seq![1usize, 2usize, 3usize]);
            assert(sh =~= hunting_shapes());
            assert forall|t: bool, x: bool, n: bool| r.status(t, x, n) == (
                if !t { Status::Failure }
                else if !n { Status::Running }
                else if x { Status::Success }
                else { Status::Failure }) by {
                assert(evaluate(sh, 3, 0, t, x, n) == (if t { Status::Success } else { Status::Failure }));
                assert(evaluate(sh, 2, 0, t, x, n) == (if t && x { Status::Success } else { Status::Failure }));
                assert(evaluate(sh, 1, 0, t, x, n) == (
                    if !t { Status::Failure } else if n { Status::Success } else { Status::Running }));
                assert(evaluate(sh, 0, 3, t, x, n) == Status::Success);
                assert(evaluate(sh, 0, 2, t, x, n) == evaluate(sh, 3, 0, t, x, n));
                assert(evaluate(sh, 0, 1, t, x, n) == (if t && x { Status::Success } else { Status::Failure }));
            }
        }
        r
    }

    /// Runs node `i` for one tick.
    fn tick_node(
        &mut self,
        i: usize,
        context: &mut BehaviorContext,
        definition: &BotDefinition,
        machine: &mut UpperBodyMachine,
        rng: &mut RandomSource,
    ) -> (r: Status)
        requires
            well_formed(shapes(old(self).nodes@)),
            i < old(self).nodes@.len(),
            actions_fit(old(self).nodes@, definition.attack_animations@.len() as int),
            old(machine).wf(),
            old(machine).attack_animations@.len() == definition.attack_animations@.len(),
        ensures
            r == evaluate(
                shapes(old(self).nodes@),
                i as int,
                0,
                old(context).target is Some,
                old(context).restoration_time <= 0,
                target_near(old(context).target, old(context).position, definition.close_combat_distance),
            ),
            shapes(final(self).nodes@) == shapes(old(self).nodes@),
            actions_fit(final(self).nodes@, definition.attack_animations@.len() as int),
            final(machine).wf(),
            final(machine).attack_animations@.len() == old(machine).attack_animations@.len(),
            final(machine).state == old(machine).state,
            final(context).target == old(context).target,
            final(context).restoration_time == old(context).restoration_time,
            final(context).dt == old(context).dt,
            final(context).position == old(context).position,
            final(context).bot_handle == old(context).bot_handle,
            !reaches_action(
                shapes(old(self).nodes@),
                i as int,
                0,
                old(context).target is Some,
                old(context).restoration_time <= 0,
                target_near(old(context).target, old(context).position, definition.close_combat_distance),
            ) ==> final(context).is_attacking == old(context).is_attacking
                && final(context).outgoing@ == old(context).outgoing@
                && final(context).sounds@ == old(context).sounds@
                && final(machine).attack_animations@ == old(machine).attack_animations@,
        decreases old(self).nodes@.len() - i, 1int,
    {
        let ghost sh = shapes(self.nodes@);
        let ghost has_target = context.target is Some;
        let ghost rested = context.restoration_time <= 0;
        let ghost near = target_near(context.target, context.position, definition.close_combat_distance);
        let (is_sequence, count): (bool, usize) = match &self.nodes[i] {
            BtNode::CanMeleeAttack(guard) => {
                return guard.tick(context);
            },
            BtNode::MoveToTarget(chase) => {
                return chase.tick(context, definition);
            },
            BtNode::DoMeleeAttack(action) => {
                let mut leaf = DoMeleeAttack {
                    attack_timeout: action.attack_timeout,
                    attack_animation_index: action.attack_animation_index,
                };
                proof {
                    assert(actions_fit(self.nodes@, definition.attack_animations@.len() as int));
                    assert(match self.nodes@[i as int] {
                        BtNode::DoMeleeAttack(a) => a.attack_animation_index < definition.attack_animations@.len(),
                        _ => true,
                    });
                }
                let r = leaf.tick(context, definition, machine, rng);

                let ghost before = self.nodes@;
                self.nodes.set(i, BtNode::DoMeleeAttack(leaf));
                proof {
                    assert(shapes(self.nodes@) =~= shapes(before));
                    assert forall|j: int| 0 <= j < self.nodes@.len() implies match #[trigger] self.nodes@[j] {
                        BtNode::DoMeleeAttack(a) => a.attack_animation_index < definition.attack_animations@.len(),
                        _ => true,
                    } by {
                        if j != i {
                            assert(self.nodes@[j] == before[j]);
                        }
                    }
                }
                return r;
            },
            BtNode::Sequence(ch) => (true, ch.len()),
            BtNode::Selector(ch) => (false, ch.len()),
        };
        let mut k: usize = 0;
        while k < count
            invariant
                shapes(self.nodes@) == sh,
                well_formed(sh),
                i < self.nodes@.len(),
                count == sh[i as int].1.len(),
                k <= count,
                old(machine).attack_animations@.len() == definition.attack_animations@.len(),
                is_sequence <==> sh[i as int].0 == SEQUENCE(),
                sh[i as int].0 == SEQUENCE() || sh[i as int].0 == SELECTOR(),
                evaluate(sh, i as int, 0, has_target, rested, near) == evaluate(sh, i as int, k as int, has_target, rested, near),
                near == target_near(old(context).target, old(context).position, definition.close_combat_distance),
                !reaches_action(sh, i as int, 0, has_target, rested, near) ==> !reaches_action(
                    sh,
                    i as int,
                    k as int,
                    has_target,
                    rested,
                    near,
                ) && context.is_attacking == old(context).is_attacking
                    && context.outgoing@ == old(context).outgoing@
                    && context.sounds@ == old(context).sounds@
                    && machine.attack_animations@ == old(machine).attack_animations@,
                actions_fit(self.nodes@, definition.attack_animations@.len() as int),
                machine.wf(),
                machine.attack_animations@.len() == definition.attack_animations@.len(),
                machine.state == old(machine).state,
                context.target == old(context).target,
                context.restoration_time == old(context).restoration_time,
                context.dt == old(context).dt,
                context.position == old(context).position,
                context.bot_handle == old(context).bot_handle,
                has_target == (old(context).target is Some),
                rested == (old(context).restoration_time <= 0),
                sh == shapes(old(self).nodes@),
            decreases count - k,
        {
            proof {
                assert(sh[i as int] == shape_of(self.nodes@[i as int]));
            }
            let c = match &self.nodes[i] {
                BtNode::Sequence(ch) => ch[k],
                BtNode::Selector(ch) => ch[k],
                _ => {
                    proof {
                        assert(false);
                    }
                    0
                },
            };
            proof {
                assert(c == sh[i as int].1[k as int]);
                assert(i < c < sh.len());
            }
            let s = self.tick_node(c, context, definition, machine, rng);
            if is_sequence {
                if s != Status::Success {
                    return s;
                }
            } else {
                if s != Status::Failure {
                    return s;
                }
            }
            k = k + 1;
        }
        if is_sequence {
            Status::Success
        } else {
            Status::Failure
        }
    }

    /// Runs the tree for one tick from its root. The status is the one that
    /// the tree's shape gives on whether a target is tracked and whether the
    /// stagger window has run out; the shape itself never changes.
    pub fn tick(
        &mut self,
        context: &mut BehaviorContext,
        definition: &BotDefinition,
        machine: &mut UpperBodyMachine,
        rng: &mut RandomSource,
    ) -> (r: Status)
        requires
            old(self).wf(),
            actions_fit(old(self).nodes@, definition.attack_animations@.len() as int),
            old(machine).wf(),
            old(machine).attack_animations@.len() == definition.attack_animations@.len(),
        ensures
            r == old(self).status(
                old(context).target is Some,
                old(context).restoration_time <= 0,
                target_near(old(context).target, old(context).position, definition.close_combat_distance),
            ),
            final(self).wf(),
            shapes(final(self).nodes@) == shapes(old(self).nodes@),
            actions_fit(final(self).nodes@, definition.attack_animations@.len() as int),
            final(machine).wf(),
            final(machine).attack_animations@.len() == old(machine).attack_animations@.len(),
            final(machine).state == old(machine).state,
            final(context).target == old(context).target,
            final(context).restoration_time == old(context).restoration_time,
            final(context).dt == old(context).dt,
            final(context).position == old(context).position,
            final(context).bot_handle == old(context).bot_handle,
            !old(self).reaches_action(
                old(context).target is Some,
                old(context).restoration_time <= 0,
                target_near(old(context).target, old(context).position, definition.close_combat_distance),
            ) ==> final(context).is_attacking == old(context).is_attacking
                && final(context).outgoing@ == old(context).outgoing@
                && final(context).sounds@ == old(context).sounds@
                && final(machine).attack_animations@ == old(machine).attack_animations@,
    {
        let r = self.tick_node(0, context, definition, machine, rng);
        proof {
            assert(shapes(self.nodes@).len() == self.nodes@.len());
        }
        r
    }
}

} // verus!
