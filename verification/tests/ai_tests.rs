use voxelnaut::ai::{ai_step, drops_for, AIState, AiSenses, AiStep, MobBehavior, MobState, MobType, SpawnType, TargetChange};
use voxelnaut::behavior::{
    create_behavior, Behavior, HostileBehavior, MobBehavior as BehaviorTrait, MobContext, NeutralBehavior,
    PassiveBehavior,
};
use voxelnaut::entity::MobType as Temper;
use voxelnaut::math::BlockPos;
use voxelnaut::mobs::{MobDefinition, MobRegistry, MobSpawner};

fn quiet() -> AiSenses {
    AiSenses {
        player_seen: false,
        player_close: false,
        player_in_follow_range: false,
        player_far: false,
        idle_over: false,
        wander_roll: false,
        has_target: false,
        target_reached: false,
        target_in_attack_range: false,
        target_lost: false,
        attack_due: false,
        target_out_of_reach: false,
    }
}

#[test]
fn mob_kinds_behave_and_spawn() {
    assert_eq!(MobType::Zombie.behavior(), MobBehavior::Hostile);
    assert_eq!(MobType::Sheep.behavior(), MobBehavior::Passive);
    assert_eq!(MobType::Wolf.behavior(), MobBehavior::Neutral);
    assert_eq!(MobType::Bee.behavior(), MobBehavior::Neutral);
    assert_eq!(MobType::Skeleton.behavior(), MobBehavior::Hostile);
    assert_eq!(MobType::Spider.behavior(), MobBehavior::Hostile);
    assert_eq!(MobType::Enderman.spawn_type(), SpawnType::End);
    assert_eq!(MobType::Ghast.spawn_type(), SpawnType::Nether);
    assert_eq!(MobType::Cow.spawn_type(), SpawnType::Overworld);
}

#[test]
fn mob_drops() {
    assert_eq!(drops_for(MobType::Sheep, false), vec![(61, 1)]);
    assert_eq!(drops_for(MobType::Pig, true), vec![(62, 1)]);
    assert_eq!(drops_for(MobType::Zombie, false), vec![(65, 1)]);
    assert_eq!(drops_for(MobType::Skeleton, true), vec![(65, 1), (267, 1)]);
    assert_eq!(drops_for(MobType::Enderman, false), vec![(71, 1)]);
    assert!(drops_for(MobType::Bat, true).is_empty());
}

#[test]
fn ai_idle_reactions() {
    let mut s = quiet();
    s.player_seen = true;
    s.player_close = true;
    s.player_in_follow_range = true;
    assert_eq!(
        ai_step(AIState::Idle, MobBehavior::Passive, s),
        AiStep { state: AIState::Flee, target: TargetChange::Player, restart_timer: false }
    );
    assert_eq!(ai_step(AIState::Idle, MobBehavior::Hostile, s).state, AIState::FollowTarget);
    let mut w = quiet();
    w.idle_over = true;
    assert_eq!(ai_step(AIState::Idle, MobBehavior::Passive, w).state, AIState::Idle);
    w.wander_roll = true;
    assert_eq!(
        ai_step(AIState::Idle, MobBehavior::Passive, w),
        AiStep { state: AIState::Wander, target: TargetChange::Wander, restart_timer: true }
    );
}

#[test]
fn ai_chase_and_attack() {
    let mut s = quiet();
    s.has_target = true;
    s.target_in_attack_range = true;
    assert_eq!(ai_step(AIState::FollowTarget, MobBehavior::Hostile, s).state, AIState::Attack);
    let mut a = quiet();
    a.has_target = true;
    a.attack_due = true;
    a.target_out_of_reach = true;
    assert_eq!(
        ai_step(AIState::Attack, MobBehavior::Hostile, a),
        AiStep { state: AIState::FollowTarget, target: TargetChange::Keep, restart_timer: true }
    );
    let mut lost = quiet();
    lost.has_target = true;
    lost.target_lost = true;
    assert_eq!(
        ai_step(AIState::FollowTarget, MobBehavior::Neutral, lost),
        AiStep { state: AIState::Idle, target: TargetChange::Clear, restart_timer: false }
    );
    let mut all = quiet();
    all.player_seen = true;
    all.player_close = true;
    all.has_target = true;
    all.attack_due = true;
    assert_eq!(ai_step(AIState::Dead, MobBehavior::Hostile, all).state, AIState::Dead);
}

#[test]
fn mob_registry_lookup() {
    let mut registry: MobRegistry<u32> = MobRegistry::empty();
    registry.register(MobDefinition::new("Pig", Temper::Passive, 10));
    registry.register(MobDefinition::new("Wolf", Temper::Neutral, 20));
    registry.register(MobDefinition::new("Zombie", Temper::Hostile, 20));
    registry.register(MobDefinition::new("Pig", Temper::Hostile, 99));
    assert_eq!(registry.get("Pig").map(|d| d.stats), Some(10));
    assert!(registry.get("Dragon").is_none());
    let hostile: Vec<&str> = registry.get_by_type(Temper::Hostile).iter().map(|d| d.name.as_str()).collect();
    assert_eq!(hostile, vec!["Zombie", "Pig"]);
    let wolf = registry.get("Wolf").unwrap();
    assert_eq!((wolf.spawn_light_min, wolf.spawn_light_max, wolf.can_swim), (0, 15, false));
    assert!(wolf.spawn_biomes.is_empty());
}

#[test]
fn spawner_ids_skip_unknown_names() {
    let mut registry: MobRegistry<u32> = MobRegistry::empty();
    registry.register(MobDefinition::new("Pig", Temper::Passive, 10));
    registry.register(MobDefinition::new("Zombie", Temper::Hostile, 20));
    let mut spawner = MobSpawner::with_registry(registry);
    spawner.queue_spawn(BlockPos::new(1, 2, 3), "Zombie");
    spawner.queue_spawn(BlockPos::new(0, 0, 0), "Dragon");
    spawner.queue_spawn(BlockPos::new(4, 5, 6), "Pig");
    assert_eq!(spawner.queued_count(), 3);
    let spawned = spawner.process_spawns(|id, def, pos| (id, def.name.clone(), pos));
    assert_eq!(
        spawned,
        vec![
            (1, (1, "Zombie".to_string(), BlockPos::new(1, 2, 3))),
            (2, (2, "Pig".to_string(), BlockPos::new(4, 5, 6))),
        ]
    );
    assert_eq!(spawner.queued_count(), 0);
    assert!(spawner.process_spawns(|id, _, _| id).is_empty());
}

#[test]
fn passive_behavior_cycle() {
    let mut b = PassiveBehavior::new();
    let mut ctx: MobContext<(i32, i32)> = MobContext::new((0, 0), BlockPos::new(0, 64, 0));
    b.update(&mut ctx, 2000, true);
    assert_eq!((ctx.state, ctx.state_time_ms), (MobState::Idle, 2000));
    b.update(&mut ctx, 1500, true);
    assert_eq!((ctx.state, ctx.state_time_ms), (MobState::Wandering, 0));
    b.update(&mut ctx, 5001, true);
    assert_eq!(ctx.state, MobState::Idle);
    b.on_damage(&mut ctx, 7);
    assert_eq!((ctx.state, ctx.anger_level), (MobState::Fleeing, 100));
    b.on_target_died(&mut ctx);
    assert_eq!(ctx.state, MobState::Idle);
}

#[test]
fn neutral_behavior_anger() {
    let mut b = NeutralBehavior::default();
    let mut ctx: MobContext<()> = MobContext::new((), BlockPos::new(0, 0, 0));
    b.on_damage(&mut ctx, 42);
    assert_eq!((ctx.state, ctx.target, ctx.anger_level), (MobState::Chasing, Some(42), 1000));
    b.update(&mut ctx, 16, false);
    assert_eq!(ctx.anger_level, 999);
    b.update(&mut ctx, 2500, false);
    assert_eq!(ctx.anger_level, 996);
    ctx.anger_level = 10;
    b.update(&mut ctx, 1000, false);
    assert_eq!((ctx.state, ctx.target, ctx.anger_level), (MobState::Idle, None, 9));
    b.update(&mut ctx, 5001, false);
    assert_eq!(ctx.state, MobState::Wandering);
}

#[test]
fn hostile_behavior_attacks() {
    let mut b = HostileBehavior::new();
    let mut ctx: MobContext<()> = MobContext::new((), BlockPos::new(0, 0, 0));
    ctx.target = Some(3);
    let a = b.update(&mut ctx, 10, true);
    assert_eq!(ctx.state, MobState::Chasing);
    assert!(!a.attack && !a.tick_mob);
    let a = b.update(&mut ctx, 1000, true);
    assert!(a.tick_mob && !a.attack);
    let a = b.update(&mut ctx, 600, true);
    assert!(a.attack);
    assert_eq!(ctx.state, MobState::Attacking);
    b.update(&mut ctx, 600, true);
    assert_eq!((ctx.state, ctx.state_time_ms), (MobState::Chasing, 0));
    b.on_damage(&mut ctx, 9);
    assert_eq!(ctx.target, Some(3));
    assert_eq!(create_behavior(Temper::Hostile), Behavior::Hostile(HostileBehavior::new()));
    assert_eq!(create_behavior(Temper::Passive), Behavior::Passive(PassiveBehavior { detection_range: 8, flee_range: 6 }));
}
