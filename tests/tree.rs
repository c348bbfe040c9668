use bot_ai::{
    AnimationClip, AttackAnimationDefinition, BehaviorContext, BehaviorTree, BotDefinition,
    BotHostility, BtNode, CanMeleeAttack, DoMeleeAttack, EntityId, MoveToTarget, RandomSource, Status, Target,
    UpperBodyMachine, Vec3,
};

fn definition() -> BotDefinition {
    BotDefinition {
        scale: 1000,
        health: 100,
        walk_speed: 1200,
        model: String::from("parasite.fbx"),
        head_name: String::from("Head"),
        can_use_weapons: true,
        close_combat_distance: 1500,
        pain_sounds: vec![],
        scream_sounds: vec![],
        idle_sounds: vec![],
        attack_sounds: vec![],
        hostility: BotHostility::OtherSpecies,
        idle_animation: String::from("idle"),
        scream_animation: String::from("scream"),
        attack_animations: vec![AttackAnimationDefinition {
            path: String::from("bite.fbx"),
            stick_timestamp: 100,
            timestamp: 200,
            damage: 5,
            speed: 1000,
        }],
        walk_animation: String::from("walk"),
        aim_animation: String::from("aim"),
        dying_animation: String::from("dying"),
    }
}

fn target() -> Option<Target> {
    Some(Target { position: Vec3 { x: 1, y: 2, z: 3 }, handle: EntityId { index: 4, generation: 0 } })
}

fn run(tree: &mut BehaviorTree, target: Option<Target>, restoration: i64) -> Status {
    let def = definition();
    let mut machine = UpperBodyMachine::new(vec![AnimationClip::new(100, vec![])], AnimationClip::new(100, vec![]));
    let mut rng = RandomSource::new(0);
    let mut ctx = BehaviorContext::new(16, EntityId { index: 1, generation: 0 }, Vec3 { x: 0, y: 0, z: 0 }, target, restoration);
    tree.tick(&mut ctx, &def, &mut machine, &mut rng)
}

#[test]
fn tree_rejects_backward_children() {
    assert!(BehaviorTree::from_nodes(vec![]).is_none());
    let nodes = vec![BtNode::Sequence(vec![1]), BtNode::Selector(vec![1])];
    assert!(BehaviorTree::from_nodes(nodes).is_none());
    let nodes = vec![BtNode::Sequence(vec![3])];
    assert!(BehaviorTree::from_nodes(nodes).is_none());
}

#[test]
fn selector_falls_back_to_the_action() {
    let nodes = vec![
        BtNode::Selector(vec![1, 2]),
        BtNode::CanMeleeAttack(CanMeleeAttack),
        BtNode::DoMeleeAttack(DoMeleeAttack::new()),
    ];
    let mut tree = BehaviorTree::from_nodes(nodes).unwrap();
    assert_eq!(run(&mut tree, target(), 500), Status::Success);
    assert_eq!(run(&mut tree, None, 0), Status::Failure);
}

#[test]
fn melee_sequence_needs_both_conditions() {
    let mut tree = BehaviorTree::melee();
    assert_eq!(run(&mut tree, target(), 0), Status::Success);
    assert_eq!(run(&mut tree, target(), 1), Status::Failure);
    assert_eq!(run(&mut tree, None, 0), Status::Failure);
}

#[test]
fn empty_sequence_succeeds_and_empty_selector_fails() {
    let mut seq = BehaviorTree::from_nodes(vec![BtNode::Sequence(vec![])]).unwrap();
    assert_eq!(run(&mut seq, None, 0), Status::Success);
    let mut sel = BehaviorTree::from_nodes(vec![BtNode::Selector(vec![])]).unwrap();
    assert_eq!(run(&mut sel, None, 0), Status::Failure);
}

#[test]
fn chase_runs_until_the_target_is_near() {
    let def = definition();
    let mut machine = UpperBodyMachine::new(vec![AnimationClip::new(100, vec![])], AnimationClip::new(100, vec![]));
    let mut rng = RandomSource::new(0);
    let mut tree = BehaviorTree::chase_and_melee();
    let far = Some(Target { position: Vec3 { x: 5000, y: 0, z: 0 }, handle: EntityId { index: 4, generation: 0 } });
    let mut ctx = BehaviorContext::new(16, EntityId { index: 1, generation: 0 }, Vec3 { x: 0, y: 0, z: 0 }, far, 0);
    assert_eq!(tree.tick(&mut ctx, &def, &mut machine, &mut rng), Status::Running);
    assert!(ctx.is_moving);
    assert!(!ctx.is_attacking);
    let near = Some(Target { position: Vec3 { x: 900, y: 1200, z: 0 }, handle: EntityId { index: 4, generation: 0 } });
    let mut ctx = BehaviorContext::new(16, EntityId { index: 1, generation: 0 }, Vec3 { x: 0, y: 0, z: 0 }, near, 0);
    assert_eq!(tree.tick(&mut ctx, &def, &mut machine, &mut rng), Status::Success);
    assert!(!ctx.is_moving);
    assert!(ctx.is_attacking);
    let mut ctx = BehaviorContext::new(16, EntityId { index: 1, generation: 0 }, Vec3 { x: 0, y: 0, z: 0 }, None, 0);
    assert_eq!(tree.tick(&mut ctx, &def, &mut machine, &mut rng), Status::Failure);
}

#[test]
fn chase_leaf_alone() {
    let def = definition();
    let t = Some(Target { position: Vec3 { x: 0, y: 0, z: 1501 }, handle: EntityId { index: 4, generation: 0 } });
    let mut ctx = BehaviorContext::new(16, EntityId { index: 1, generation: 0 }, Vec3 { x: 0, y: 0, z: 0 }, t, 0);
    assert_eq!(MoveToTarget.tick(&mut ctx, &def), Status::Running);
    assert_eq!(ctx.movement_speed_factor, 1000);
    let t = Some(Target { position: Vec3 { x: 0, y: 0, z: 1500 }, handle: EntityId { index: 4, generation: 0 } });
    let mut ctx = BehaviorContext::new(16, EntityId { index: 1, generation: 0 }, Vec3 { x: 0, y: 0, z: 0 }, t, 0);
    assert_eq!(MoveToTarget.tick(&mut ctx, &def), Status::Success);
}
