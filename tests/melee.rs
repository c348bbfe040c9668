use bot_ai::{
    AnimationClip, AttackAnimationDefinition, BehaviorContext, BehaviorTree, BotCommand,
    BotDefinition, BotHostility, CanMeleeAttack, DoMeleeAttack, EntityId, RandomSource,
    SignalMarker, SoundKind, Status, Target, UpperBodyMachine, UpperBodyState, Vec3, HIT_SIGNAL,
};

fn attack(damage: u32) -> AttackAnimationDefinition {
    AttackAnimationDefinition {
        path: String::from("attack.fbx"),
        stick_timestamp: 200,
        timestamp: 400,
        damage,
        speed: 1000,
    }
}

fn definition(attacks: Vec<AttackAnimationDefinition>) -> BotDefinition {
    BotDefinition {
        scale: 1000,
        health: 100,
        walk_speed: 1200,
        model: String::from("mutant.fbx"),
        head_name: String::from("Head"),
        can_use_weapons: false,
        close_combat_distance: 1500,
        pain_sounds: vec![String::from("pain1.ogg"), String::from("pain2.ogg")],
        scream_sounds: vec![],
        idle_sounds: vec![],
        attack_sounds: vec![String::from("swing.ogg")],
        hostility: BotHostility::Player,
        idle_animation: String::from("idle"),
        scream_animation: String::from("scream"),
        attack_animations: attacks,
        walk_animation: String::from("walk"),
        aim_animation: String::from("aim"),
        dying_animation: String::from("dying"),
    }
}

fn clips(n: usize) -> Vec<AnimationClip> {
    (0..n)
        .map(|_| AnimationClip::new(1000, vec![SignalMarker { time: 400, id: HIT_SIGNAL }]))
        .collect()
}

fn origin() -> Vec3 {
    Vec3 { x: 0, y: 0, z: 0 }
}

fn enemy() -> Target {
    Target { position: Vec3 { x: 1000, y: 0, z: 0 }, handle: EntityId { index: 7, generation: 1 } }
}

fn me() -> EntityId {
    EntityId { index: 3, generation: 1 }
}

#[test]
fn guard_fails_without_target() {
    let def = definition(vec![attack(10), attack(20), attack(30)]);
    let mut machine = UpperBodyMachine::new(clips(3), AnimationClip::new(2000, vec![]));
    let mut tree = BehaviorTree::melee();
    let mut rng = RandomSource::new(1);
    for _ in 0..5 {
        let mut ctx = BehaviorContext::new(16, me(), origin(), None, 0);
        assert_eq!(CanMeleeAttack.tick(&ctx), Status::Failure);
        let status = tree.tick(&mut ctx, &def, &mut machine, &mut rng);
        assert_eq!(status, Status::Failure);
        assert!(!ctx.is_attacking);
        assert!(ctx.outgoing.is_empty());
    }
    assert!(machine.attack_animations.iter().all(|c| !c.enabled));
}

#[test]
fn action_leaf_fails_without_target() {
    let def = definition(vec![attack(10)]);
    let mut machine = UpperBodyMachine::new(clips(1), AnimationClip::new(2000, vec![]));
    let mut leaf = DoMeleeAttack::new();
    let mut rng = RandomSource::new(2);
    let mut ctx = BehaviorContext::new(16, me(), origin(), None, 0);
    assert_eq!(leaf.tick(&mut ctx, &def, &mut machine, &mut rng), Status::Failure);
}

#[test]
fn guard_waits_for_restoration() {
    let ctx = BehaviorContext::new(16, me(), origin(), Some(enemy()), 1);
    assert_eq!(CanMeleeAttack.tick(&ctx), Status::Failure);
    let ctx = BehaviorContext::new(16, me(), origin(), Some(enemy()), 0);
    assert_eq!(CanMeleeAttack.tick(&ctx), Status::Success);
    let ctx = BehaviorContext::new(16, me(), origin(), Some(enemy()), -5);
    assert_eq!(CanMeleeAttack.tick(&ctx), Status::Success);
}

#[test]
fn first_tick_starts_an_attack() {
    let def = definition(vec![attack(10), attack(20), attack(30)]);
    let mut machine = UpperBodyMachine::new(clips(3), AnimationClip::new(2000, vec![]));
    let mut tree = BehaviorTree::melee();
    let mut rng = RandomSource::new(42);
    let mut ctx = BehaviorContext::new(16, me(), origin(), Some(enemy()), 0);
    let status = tree.tick(&mut ctx, &def, &mut machine, &mut rng);
    assert_eq!(status, Status::Success);
    assert!(ctx.is_attacking);
    let index = ctx.attack_animation_index;
    assert!(index < 3);
    let clip = &machine.attack_animations[index];
    assert!(clip.enabled);
    assert_eq!(clip.speed, 1300);
    assert_eq!(clip.time, 0);
}

#[test]
fn picks_spread_over_the_attack_list() {
    let def = definition(vec![attack(10), attack(20), attack(30)]);
    let mut seen = [false; 3];
    let mut rng = RandomSource::new(7);
    for _ in 0..60 {
        let mut machine = UpperBodyMachine::new(clips(3), AnimationClip::new(2000, vec![]));
        let mut leaf = DoMeleeAttack::new();
        let mut ctx = BehaviorContext::new(16, me(), origin(), Some(enemy()), 0);
        leaf.tick(&mut ctx, &def, &mut machine, &mut rng);
        seen[leaf.attack_animation_index] = true;
    }
    assert!(seen.iter().all(|s| *s));
}

#[test]
fn no_swing_while_cooling() {
    let def = definition(vec![attack(10), attack(20)]);
    let mut machine = UpperBodyMachine::new(clips(2), AnimationClip::new(2000, vec![]));
    machine.attack_animations[0].time = 1000;
    let mut leaf = DoMeleeAttack { attack_timeout: 200, attack_animation_index: 0 };
    let mut rng = RandomSource::new(3);
    let mut ctx = BehaviorContext::new(50, me(), origin(), Some(enemy()), 0);
    leaf.tick(&mut ctx, &def, &mut machine, &mut rng);
    assert!(!ctx.is_attacking);
    assert_eq!(leaf.attack_animation_index, 0);
    assert_eq!(leaf.attack_timeout, 150);
    let mut ticks = 0;
    while !ctx.is_attacking {
        ctx = BehaviorContext::new(50, me(), origin(), Some(enemy()), 0);
        let before = leaf.attack_timeout;
        leaf.tick(&mut ctx, &def, &mut machine, &mut rng);
        if before > 0 {
            assert!(!ctx.is_attacking);
        }
        ticks += 1;
        assert!(ticks < 20);
    }
}

#[test]
fn cooldown_resets_after_the_swing_ends() {
    let def = definition(vec![attack(10)]);
    let mut machine = UpperBodyMachine::new(clips(1), AnimationClip::new(2000, vec![]));
    machine.attack_animations[0].enabled = true;
    machine.attack_animations[0].time = 1000;
    let mut leaf = DoMeleeAttack { attack_timeout: -10, attack_animation_index: 0 };
    let mut rng = RandomSource::new(3);
    let mut ctx = BehaviorContext::new(20, me(), origin(), Some(enemy()), 0);
    leaf.tick(&mut ctx, &def, &mut machine, &mut rng);
    assert!(ctx.is_attacking);
    assert_eq!(leaf.attack_timeout, 280);
}

#[test]
fn hit_signal_sends_one_damage() {
    let def = definition(vec![attack(10), attack(25), attack(30)]);
    let mut machine = UpperBodyMachine::new(clips(3), AnimationClip::new(2000, vec![]));
    machine.state = UpperBodyState::Attack;
    machine.attack_animations[1].enabled = true;
    machine.attack_animations[1].events.push(HIT_SIGNAL);
    machine.attack_animations[1].events.push(9);
    let mut leaf = DoMeleeAttack { attack_timeout: 100, attack_animation_index: 1 };
    let mut rng = RandomSource::new(5);
    let mut ctx = BehaviorContext::new(16, me(), origin(), Some(enemy()), 0);
    let status = leaf.tick(&mut ctx, &def, &mut machine, &mut rng);
    assert_eq!(status, Status::Success);
    assert_eq!(ctx.outgoing.len(), 1);
    let (to, command) = ctx.outgoing[0];
    assert_eq!(to, enemy().handle);
    match command {
        BotCommand::Damage { amount, hitbox, critical_shot_probability, .. } => {
            assert_eq!(amount, 25);
            assert_eq!(hitbox, None);
            assert_eq!(critical_shot_probability, 0);
        }
        _ => panic!("expected damage"),
    }
    assert!(ctx.sounds.len() <= 1);
    assert_eq!(ctx.sounds[0].kind, SoundKind::Attack);
    assert_eq!((ctx.sounds[0].gain, ctx.sounds[0].rolloff_factor, ctx.sounds[0].radius), (1000, 1000, 1000));
    assert!(machine.attack_animations[1].events.is_empty());
}

#[test]
fn hit_signal_ignored_outside_attack_state() {
    let def = definition(vec![attack(10)]);
    let mut machine = UpperBodyMachine::new(clips(1), AnimationClip::new(2000, vec![]));
    machine.state = UpperBodyState::Aim;
    machine.attack_animations[0].enabled = true;
    machine.attack_animations[0].events.push(HIT_SIGNAL);
    let mut leaf = DoMeleeAttack { attack_timeout: 100, attack_animation_index: 0 };
    let mut rng = RandomSource::new(5);
    let mut ctx = BehaviorContext::new(16, me(), origin(), Some(enemy()), 0);
    leaf.tick(&mut ctx, &def, &mut machine, &mut rng);
    assert!(ctx.outgoing.is_empty());
    assert!(ctx.sounds.is_empty());
    assert!(machine.attack_animations[0].events.is_empty());
}

#[test]
fn action_leaf_starts_swings_on_its_own_rule() {
    let def = definition(vec![attack(10)]);
    let mut machine = UpperBodyMachine::new(clips(1), AnimationClip::new(2000, vec![]));
    let mut leaf = DoMeleeAttack::new();
    let mut rng = RandomSource::new(2);
    let mut ctx = BehaviorContext::new(16, me(), origin(), None, 0);
    assert_eq!(leaf.tick(&mut ctx, &def, &mut machine, &mut rng), Status::Failure);
    assert!(ctx.is_attacking);
    assert_eq!(machine.attack_animations[0].speed, 1300);
    assert!(ctx.outgoing.is_empty());
}
