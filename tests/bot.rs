use bot_ai::{
    doors_in_the_way, DoorView,
    AnimationClip, AttackAnimationDefinition, Bot, BotCommand, BotDefinition,
    BotDefinitionsContainer, BotHostility, BotKind, CombatState, DamageRoll, DefinitionError,
    Entity, EntityId, HitBox, LowerBodyMachine, LowerBodyMachineInput, LowerBodyState,
    RandomSource, Role, SignalMarker, SoundKind, Status, UpperBodyMachine, UpperBodyMachineInput,
    UpperBodyState, Vec3, World, HIT_SIGNAL,
};

fn definition(health: i64) -> BotDefinition {
    BotDefinition {
        scale: 1000,
        health,
        walk_speed: 1200,
        model: String::from("zombie.fbx"),
        head_name: String::from("Head"),
        can_use_weapons: false,
        close_combat_distance: 1500,
        pain_sounds: vec![String::from("pain1.ogg"), String::from("pain2.ogg")],
        scream_sounds: vec![],
        idle_sounds: vec![],
        attack_sounds: vec![String::from("swing.ogg")],
        hostility: BotHostility::Everyone,
        idle_animation: String::from("idle"),
        scream_animation: String::from("scream"),
        attack_animations: vec![AttackAnimationDefinition {
            path: String::from("attack.fbx"),
            stick_timestamp: 200,
            timestamp: 400,
            damage: 15,
            speed: 1000,
        }],
        walk_animation: String::from("walk"),
        aim_animation: String::from("aim"),
        dying_animation: String::from("dying"),
    }
}

fn id(index: u32) -> EntityId {
    EntityId { index, generation: 1 }
}

fn at(x: i64) -> Vec3 {
    Vec3 { x, y: 0, z: 0 }
}

fn spawn(def: &BotDefinition) -> Bot {
    let clips = vec![AnimationClip::new(1000, vec![SignalMarker { time: 400, id: HIT_SIGNAL }])];
    Bot::new(BotKind::Zombie, id(1), at(0), def, clips, AnimationClip::new(500, vec![]))
}

fn damage(who: EntityId, amount: u32) -> BotCommand {
    BotCommand::Damage { who, amount, hitbox: None, critical_shot_probability: 0 }
}

fn empty_world() -> World {
    World { entities: vec![] }
}

#[test]
fn draining_an_empty_queue_changes_nothing() {
    let def = definition(100);
    let mut bot = spawn(&def);
    let before = bot.combat;
    let mut rng = RandomSource::new(9);
    let drained = bot.poll_commands(&empty_world(), &def, &mut rng);
    assert_eq!(bot.combat, before);
    assert!(drained.sounds.is_empty());
    assert!(drained.impacts.is_empty());
}

#[test]
fn damage_takes_exactly_its_amount() {
    let def = definition(100);
    let mut bot = spawn(&def);
    bot.push_command(damage(id(99), 10));
    let mut rng = RandomSource::new(9);
    let drained = bot.poll_commands(&empty_world(), &def, &mut rng);
    assert_eq!(bot.combat.health, 90);
    assert_eq!(bot.combat.restoration_time, 0);
    assert_eq!(bot.combat.last_health, 100);
    assert!(drained.sounds.is_empty());
    assert!(bot.commands_queue.is_empty());
}

#[test]
fn small_drops_add_up_to_a_stagger() {
    let def = definition(100);
    let mut bot = spawn(&def);
    bot.push_command(damage(id(99), 10));
    bot.push_command(damage(id(99), 11));
    let rolls = vec![DamageRoll { critical: 0, sound: 3 }, DamageRoll { critical: 0, sound: 3 }];
    let drained = bot.poll_commands_with(&empty_world(), &def, &rolls);
    assert_eq!(bot.combat.health, 79);
    assert_eq!(bot.combat.restoration_time, 800);
    assert_eq!(bot.combat.last_health, 79);
    assert_eq!(drained.sounds.len(), 1);
    assert_eq!(drained.sounds[0].kind, SoundKind::Pain);
    assert_eq!(drained.sounds[0].index, 1);
    let s = drained.sounds[0];
    assert_eq!((s.gain, s.rolloff_factor, s.radius), (800, 1000, 600));
}

#[test]
fn stagger_plays_one_pain_sound_per_window() {
    let def = definition(100);
    let world = empty_world();
    let mut bot = spawn(&def);
    let mut rng = RandomSource::new(11);
    bot.push_command(damage(id(99), 25));
    let out = bot.update(&world, &def, 16, &mut rng);
    assert_eq!(bot.combat.health, 75);
    assert_eq!(bot.combat.restoration_time, 800 - 16);
    assert_eq!(out.sounds.iter().filter(|s| s.kind == SoundKind::Pain).count(), 1);

    bot.push_command(damage(id(99), 25));
    let out = bot.update(&world, &def, 16, &mut rng);
    assert_eq!(bot.combat.health, 50);
    assert_eq!(out.sounds.iter().filter(|s| s.kind == SoundKind::Pain).count(), 0);
}

#[test]
fn stagger_sets_restoration_time() {
    let mut state = CombatState::new(100);
    let mut sounds = Vec::new();
    state.take_damage(
        &empty_world(),
        id(99),
        25,
        None,
        0,
        DamageRoll { critical: 0, sound: 0 },
        2,
        at(0),
        &mut sounds,
    );
    assert_eq!(state.health, 75);
    assert_eq!(state.restoration_time, 800);
    assert_eq!(sounds.len(), 1);
}

#[test]
fn dead_bot_does_not_stagger() {
    let mut state = CombatState::new(20);
    let mut sounds = Vec::new();
    state.take_damage(&empty_world(), id(99), 25, None, 0, DamageRoll { critical: 0, sound: 0 }, 2, at(0), &mut sounds);
    assert_eq!(state.health, -5);
    assert_eq!(state.restoration_time, 0);
    assert!(sounds.is_empty());
}

#[test]
fn certain_critical_always_amplifies() {
    for roll in [0u32, 500, 999] {
        let mut state = CombatState::new(1_000_000);
        let mut sounds = Vec::new();
        let head = Some(HitBox { is_head: true });
        state.take_damage(&empty_world(), id(99), 7, head, 1000, DamageRoll { critical: roll, sound: 0 }, 0, at(0), &mut sounds);
        assert_eq!(state.health, 1_000_000 - 7000);
        assert!(state.head_exploded);
    }
}

#[test]
fn impossible_critical_never_amplifies() {
    for roll in [0u32, 500, 999] {
        let mut state = CombatState::new(1000);
        let mut sounds = Vec::new();
        let head = Some(HitBox { is_head: true });
        state.take_damage(&empty_world(), id(99), 7, head, 0, DamageRoll { critical: roll, sound: 0 }, 0, at(0), &mut sounds);
        assert_eq!(state.health, 993);
        assert!(!state.head_exploded);
    }
}

#[test]
fn probability_is_clamped() {
    let mut state = CombatState::new(1_000_000);
    let mut sounds = Vec::new();
    let head = Some(HitBox { is_head: true });
    state.take_damage(&empty_world(), id(99), 1, head, 5000, DamageRoll { critical: 999, sound: 0 }, 0, at(0), &mut sounds);
    assert_eq!(state.health, 1_000_000 - 1000);
    let mut state = CombatState::new(1000);
    state.take_damage(&empty_world(), id(99), 1, head, -5, DamageRoll { critical: 0, sound: 0 }, 0, at(0), &mut sounds);
    assert_eq!(state.health, 999);
}

#[test]
fn body_hit_is_never_critical() {
    let mut state = CombatState::new(1000);
    let mut sounds = Vec::new();
    let body = Some(HitBox { is_head: false });
    state.take_damage(&empty_world(), id(99), 5, body, 1000, DamageRoll { critical: 0, sound: 0 }, 0, at(0), &mut sounds);
    assert_eq!(state.health, 995);
}

#[test]
fn damage_from_a_combatant_acquires_it() {
    let world = World {
        entities: vec![Entity { id: id(5), role: Role::Combatant, position: at(300) }],
    };
    let mut state = CombatState::new(100);
    let mut sounds = Vec::new();
    state.take_damage(&world, id(5), 1, None, 0, DamageRoll { critical: 0, sound: 0 }, 0, at(0), &mut sounds);
    let target = state.target.unwrap();
    assert_eq!(target.handle, id(5));
    assert_eq!(target.position, at(300));
}

#[test]
fn damage_from_a_weapon_acquires_its_owner() {
    let world = World {
        entities: vec![
            Entity { id: id(6), role: Role::Weapon { owner: id(5) }, position: at(10) },
            Entity { id: id(5), role: Role::Combatant, position: at(400) },
        ],
    };
    let mut bot = spawn(&definition(100));
    bot.set_target(id(8), at(1));
    bot.push_command(damage(id(6), 1));
    let rolls = vec![DamageRoll { critical: 0, sound: 0 }];
    bot.poll_commands_with(&world, &definition(100), &rolls);
    let target = bot.target().unwrap();
    assert_eq!(target.handle, id(5));
    assert_eq!(target.position, at(400));
}

#[test]
fn unknown_source_still_deals_damage() {
    let world = World {
        entities: vec![Entity { id: id(6), role: Role::Other, position: at(10) }],
    };
    let mut state = CombatState::new(100);
    let mut sounds = Vec::new();
    state.take_damage(&world, id(6), 4, None, 0, DamageRoll { critical: 0, sound: 0 }, 0, at(0), &mut sounds);
    assert_eq!(state.health, 96);
    assert!(state.target.is_none());
}

#[test]
fn impacts_are_handed_on_in_order() {
    let def = definition(100);
    let mut bot = spawn(&def);
    bot.push_command(BotCommand::HandleImpact { handle: id(2), impact_point: at(1), direction: at(2) });
    bot.push_command(damage(id(99), 3));
    bot.push_command(BotCommand::HandleImpact { handle: id(3), impact_point: at(4), direction: at(5) });
    let mut rng = RandomSource::new(1);
    let drained = bot.poll_commands(&empty_world(), &def, &mut rng);
    assert_eq!(drained.impacts.len(), 2);
    assert_eq!(drained.impacts[0].handle, id(2));
    assert_eq!(drained.impacts[1].handle, id(3));
    assert_eq!(bot.combat.health, 97);
}

#[test]
fn removed_target_is_forgotten() {
    let def = definition(100);
    let mut bot = spawn(&def);
    let mut rng = RandomSource::new(4);
    let world = World {
        entities: vec![Entity { id: id(5), role: Role::Combatant, position: at(300) }],
    };
    bot.set_target(id(5), at(300));
    let out = bot.update(&world, &def, 16, &mut rng);
    assert_eq!(out.status, Status::Success);
    assert!(bot.target().is_some());
    let out = bot.update(&empty_world(), &def, 16, &mut rng);
    assert!(bot.target().is_none());
    assert_eq!(out.status, Status::Failure);
}

#[test]
fn on_actor_removed_clears_only_that_target() {
    let mut bot = spawn(&definition(100));
    bot.set_target(id(5), at(300));
    bot.on_actor_removed(id(6));
    assert!(bot.target().is_some());
    bot.on_actor_removed(id(5));
    assert!(bot.target().is_none());
}

#[test]
fn new_target_replaces_old_one() {
    let mut bot = spawn(&definition(100));
    bot.set_target(id(5), at(300));
    bot.set_target(id(6), at(600));
    assert_eq!(bot.target().unwrap().handle, id(6));
}

#[test]
fn update_counts_timers_down_and_eases_speed() {
    let def = definition(100);
    let mut bot = spawn(&def);
    bot.combat.restoration_time = 100;
    bot.threaten_timeout = 50;
    bot.target_move_speed = 1000;
    let mut rng = RandomSource::new(4);
    bot.update(&empty_world(), &def, 30, &mut rng);
    assert_eq!(bot.combat.restoration_time, 70);
    assert_eq!(bot.threaten_timeout, 20);
    assert_eq!(bot.move_speed, 100);
}

#[test]
fn dead_bot_dies_in_both_machines() {
    let def = definition(10);
    let mut bot = spawn(&def);
    bot.push_command(damage(id(99), 50));
    let mut rng = RandomSource::new(4);
    bot.update(&empty_world(), &def, 16, &mut rng);
    assert!(bot.is_dead());
    assert_eq!(bot.lower_body_machine.state, LowerBodyState::Dead);
    assert_eq!(bot.upper_body_machine.state, UpperBodyState::Dying);
    assert!(!bot.can_be_removed());
    for _ in 0..40 {
        bot.update(&empty_world(), &def, 16, &mut rng);
    }
    assert!(bot.can_be_removed());
}

#[test]
fn blow_up_head_marks_it() {
    let mut bot = spawn(&definition(100));
    assert!(!bot.combat.head_exploded);
    bot.blow_up_head();
    assert!(bot.combat.head_exploded);
}

#[test]
fn definitions_reject_duplicates() {
    let r = BotDefinitionsContainer::new(vec![
        (BotKind::Mutant, definition(100)),
        (BotKind::Zombie, definition(50)),
        (BotKind::Mutant, definition(70)),
    ]);
    assert!(matches!(r, Err(DefinitionError::DuplicateKind(BotKind::Mutant))));
}

#[test]
fn definitions_reject_a_missing_species() {
    let r = BotDefinitionsContainer::new(vec![
        (BotKind::Mutant, definition(100)),
        (BotKind::Zombie, definition(50)),
    ]);
    assert!(matches!(r, Err(DefinitionError::MissingKind(BotKind::Parasite))));
    let r = BotDefinitionsContainer::new(vec![]);
    assert!(matches!(r, Err(DefinitionError::MissingKind(BotKind::Mutant))));
}

fn registry() -> BotDefinitionsContainer {
    BotDefinitionsContainer::new(vec![
        (BotKind::Mutant, definition(100)),
        (BotKind::Zombie, definition(50)),
        (BotKind::Parasite, definition(30)),
    ])
    .unwrap()
}

#[test]
fn definitions_are_looked_up_by_kind() {
    let c = registry();
    assert_eq!(Bot::get_definition(&c, BotKind::Zombie).health, 50);
    assert_eq!(c.get(BotKind::Mutant).unwrap().health, 100);
    assert_eq!(c.definition(BotKind::Parasite).health, 30);
}

#[test]
fn kind_descriptions() {
    assert_eq!(BotKind::Mutant.description(), "Mutant");
    assert_eq!(BotKind::Parasite.description(), "Parasite");
    assert_eq!(BotKind::Zombie.description(), "Zombie");
}

#[test]
fn clip_emits_signals_it_passes() {
    let mut clip = AnimationClip::new(
        1000,
        vec![SignalMarker { time: 100, id: 4 }, SignalMarker { time: 400, id: HIT_SIGNAL }],
    );
    clip.advance(500);
    assert_eq!(clip.time, 0);
    clip.set_enabled(true);
    clip.set_speed(2000);
    clip.advance(100);
    assert_eq!(clip.time, 200);
    assert_eq!(clip.pop_event(), Some(4));
    assert_eq!(clip.pop_event(), None);
    clip.advance(400);
    assert_eq!(clip.time, 1000);
    assert!(clip.has_ended());
    assert_eq!(clip.pop_event(), Some(HIT_SIGNAL));
    clip.rewind();
    assert_eq!(clip.time, 0);
    assert!(!clip.has_ended());
}

#[test]
fn lower_body_machine_transitions() {
    let mut m = LowerBodyMachine::new();
    let input = |walk, scream, dead| LowerBodyMachineInput { walk, scream, dead, movement_speed_factor: 500 };
    m.apply(input(true, false, false));
    assert_eq!(m.state, LowerBodyState::Walk);
    assert_eq!(m.movement_speed_factor, 500);
    m.apply(input(true, true, false));
    assert_eq!(m.state, LowerBodyState::Scream);
    m.apply(input(false, false, false));
    assert_eq!(m.state, LowerBodyState::Idle);
    m.apply(input(false, false, true));
    assert_eq!(m.state, LowerBodyState::Dead);
    m.apply(input(true, false, false));
    assert_eq!(m.state, LowerBodyState::Dead);
}

#[test]
fn upper_body_machine_transitions() {
    let clips = vec![AnimationClip::new(1000, vec![]), AnimationClip::new(1000, vec![])];
    let mut m = UpperBodyMachine::new(clips, AnimationClip::new(500, vec![]));
    let input = |attack, aim, dead, index| UpperBodyMachineInput {
        attack,
        walk: false,
        scream: false,
        dead,
        aim,
        attack_animation_index: index,
    };
    m.apply(16, input(false, true, false, 0));
    assert_eq!(m.active_state(), UpperBodyState::Aim);
    m.attack_animations[1].set_enabled(true);
    m.apply(100, input(true, true, false, 1));
    assert_eq!(m.active_state(), UpperBodyState::Attack);
    assert_eq!(m.active_attack, 1);
    assert_eq!(m.attack_animations[1].time, 100);
    m.apply(16, input(false, false, true, 1));
    assert_eq!(m.active_state(), UpperBodyState::Dying);
    m.apply(16, input(true, false, false, 0));
    assert_eq!(m.active_state(), UpperBodyState::Dying);
}

#[test]
fn random_source_stays_in_bounds_and_repeats() {
    let mut a = RandomSource::new(123);
    let mut b = RandomSource::new(123);
    for bound in 1..50u64 {
        let x = a.next_below(bound);
        assert!(x < bound);
        assert_eq!(x, b.next_below(bound));
    }
}

#[test]
fn bot_resolves_its_own_species() {
    let c = registry();
    let bot = spawn(&definition(50));
    assert_eq!(bot.resolve(&c).health, 50);
}

#[test]
fn bot_walks_towards_a_far_target() {
    let def = definition(100);
    let mut bot = spawn(&def);
    let world = World {
        entities: vec![Entity { id: id(5), role: Role::Combatant, position: at(9000) }],
    };
    bot.set_target(id(5), at(9000));
    let mut rng = RandomSource::new(4);
    let out = bot.update(&world, &def, 16, &mut rng);
    assert_eq!(out.status, Status::Running);
    assert_eq!(bot.lower_body_machine.state, LowerBodyState::Walk);
    assert_eq!(bot.upper_body_machine.state, UpperBodyState::Walk);
}

#[test]
fn doors_in_the_sight_line_open() {
    let doors = vec![
        DoorView { handle: id(20), initial_position: at(1000), colliders: vec![id(21), id(22)] },
        DoorView { handle: id(30), initial_position: at(1250), colliders: vec![id(31)] },
        DoorView { handle: id(40), initial_position: at(-500), colliders: vec![id(41)] },
    ];
    let hits = vec![id(22), id(31), id(50)];
    assert_eq!(doors_in_the_way(at(0), &hits, &doors), vec![id(20)]);
    let mut bot = spawn(&definition(100));
    assert!(bot.check_doors(&hits, &doors).is_empty());
    bot.set_target(id(5), at(3000));
    assert_eq!(bot.check_doors(&hits, &doors), vec![id(20)]);
    assert!(bot.check_doors(&vec![id(41)], &doors) == vec![id(40)]);
}

#[test]
fn bot_swings_again_and_again() {
    let def = definition(100);
    let mut bot = spawn(&def);
    let world = World {
        entities: vec![Entity { id: id(5), role: Role::Combatant, position: at(300) }],
    };
    bot.set_target(id(5), at(300));
    let mut rng = RandomSource::new(4);
    let mut hits = 0;
    let mut starts = 0;
    for _ in 0..30 {
        let out = bot.update(&world, &def, 100, &mut rng);
        if out.intents.is_attacking {
            starts += 1;
        }
        for (to, command) in &out.outgoing {
            assert_eq!(*to, id(5));
            assert!(matches!(command, BotCommand::Damage { amount: 15, .. }));
            hits += 1;
        }
    }
    assert!(starts >= 2);
    assert!(hits >= 2);
}

#[test]
fn set_target_touches_nothing_else() {
    let def = definition(100);
    let mut bot = spawn(&def);
    bot.push_command(damage(id(99), 3));
    bot.blow_up_head();
    bot.set_target(id(5), at(1));
    assert_eq!(bot.commands_queue.len(), 1);
    assert!(bot.combat.head_exploded);
    assert_eq!(bot.combat.last_health, 100);
}

#[test]
fn new_bot_starts_at_rest() {
    let bot = spawn(&definition(100));
    assert_eq!(bot.move_speed, 0);
    assert_eq!(bot.target_move_speed, 0);
    assert_eq!(bot.threaten_timeout, 0);
    assert_eq!(bot.lower_body_machine.state, LowerBodyState::Idle);
    assert_eq!(bot.upper_body_machine.state, UpperBodyState::Idle);
    assert!(bot.target().is_none());
}

#[test]
fn no_target_restarts_no_clip() {
    let def = definition(100);
    let mut bot = spawn(&def);
    let mut rng = RandomSource::new(4);
    for _ in 0..5 {
        let out = bot.update(&empty_world(), &def, 16, &mut rng);
        assert_eq!(out.status, Status::Failure);
        assert!(!out.intents.is_attacking);
        assert!(out.outgoing.is_empty());
    }
    assert!(!bot.upper_body_machine.attack_animations[0].enabled);
    assert_eq!(bot.upper_body_machine.attack_animations[0].time, 0);
}
