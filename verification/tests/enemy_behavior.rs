use take_cover::common::{AnimationIndices, CollisionGroups, DespawnTimer};
use take_cover::constants::{
    BASE_ENEMIES, ENEMY_CHARGING_RANGE, ENEMY_CHARGING_TIME, ENEMY_DELIVER_TIME, ENEMY_READY_TIME,
};
use take_cover::enemy::{
    check_for_collisions, despawn_died_enemies, enemy_machine, follow, orient_towards_player,
    spawn_enemy, spawn_enemy_as, tick_despawn_timer, Behavior, Charging, CollisionEvent,
    Delivering, DeliveringEvent, Enemy, EnemyActor, EnemyVariant, Follow, Quarry, Ready,
    SpawnRoll, Steering, Strike, WarningShape, TAG_CHARGING, TAG_DELIVERING, TAG_FOLLOW,
    TAG_IDLE, TAG_READY,
};
use take_cover::game::GameOverTrigger;
use take_cover::geometry::Point;
use take_cover::machine::Tagged;
use take_cover::snapshot::Snapshot;
use take_cover::timer::Timer;

const PLAYER: u64 = 1;
const ENEMY: u64 = 2;

fn course() -> Follow {
    Follow { target: PLAYER, speed: 30, orbit: Point::new(40, 0) }
}

fn scene(enemy: Point, player: Point) -> Snapshot {
    let mut s = Snapshot::new();
    s.place(PLAYER, player);
    s.place(ENEMY, enemy);
    s
}

fn actor() -> EnemyActor {
    let quarry = Quarry { entity: PLAYER, position: Point::new(0, 0) };
    let roll = SpawnRoll { offset: Point::new(150, 0), orbit: Point::new(40, 0) };
    spawn_enemy_as(Enemy::with_variant(EnemyVariant::Aqua), 30, ENEMY, quarry, roll).actor
}

fn finished(duration: u64) -> Timer {
    let mut t = Timer::new(duration);
    t.tick(duration);
    t
}

#[test]
fn every_state_carries_one_of_five_tags() {
    let states = [
        (Behavior::Idle, TAG_IDLE),
        (Behavior::Follow(course()), TAG_FOLLOW),
        (Behavior::Charging(Charging::default()), TAG_CHARGING),
        (Behavior::Ready(Ready::default()), TAG_READY),
        (Behavior::Delivering(Delivering::default()), TAG_DELIVERING),
    ];
    for (state, tag) in states {
        assert_eq!(state.tag_of(), tag);
    }
    assert_eq!(
        [TAG_IDLE, TAG_FOLLOW, TAG_CHARGING, TAG_READY, TAG_DELIVERING],
        [0, 1, 2, 3, 4]
    );
}

#[test]
fn fresh_states_start_their_timers() {
    assert_eq!(
        Charging::default(),
        Charging { attack_entity: None, timer: Timer::new(2_000_000_000), range: 66 }
    );
    assert_eq!(Ready::default(), Ready { timer: Timer::new(500_000_000), radius: 66 });
    assert_eq!(Delivering::default(), Delivering { timer: Timer::new(1_000_000_000) });
}

#[test]
fn variant_follows_the_roll() {
    assert_eq!(EnemyVariant::from_roll(0), EnemyVariant::Aqua);
    assert_eq!(EnemyVariant::from_roll(1), EnemyVariant::Red);
    assert_eq!(EnemyVariant::from_roll(2), EnemyVariant::Green);
    assert_eq!(EnemyVariant::from_roll(3), EnemyVariant::Red);
    assert_eq!(EnemyVariant::from_roll(u32::MAX), EnemyVariant::Red);
}

#[test]
fn default_enemy_is_aqua_or_red_and_both_occur() {
    let mut aqua = 0;
    let mut red = 0;
    for _ in 0..400 {
        let e = Enemy::default();
        assert_eq!(e.attack_range, ENEMY_CHARGING_RANGE);
        match e.variant {
            EnemyVariant::Aqua => aqua += 1,
            EnemyVariant::Red => red += 1,
            EnemyVariant::Green => panic!("the roll is taken below two"),
        }
    }
    assert!(aqua > 0);
    assert!(red > 0);
}

#[test]
fn graph_is_registered_in_order() {
    let m = enemy_machine(PLAYER, course(), 66);
    assert_eq!(m.rules.len(), 7);
    assert_eq!(m.rules[0].to, Behavior::Follow(course()));
    assert_eq!(m.rules[1].to, Behavior::Idle);
    assert_eq!(m.rules[2].to, Behavior::Charging(Charging::default()));
    assert_eq!(m.rules[3].to, Behavior::Charging(Charging::default()));
    assert_eq!(m.rules[4].to, Behavior::Ready(Ready::default()));
    assert_eq!(m.rules[5].to, Behavior::Delivering(Delivering::default()));
    assert_eq!(m.rules[6].to, Behavior::Idle);
    assert_eq!(m.hooks.len(), 5);
}

#[test]
fn idle_enemy_follows_a_player_in_sight() {
    let m = enemy_machine(PLAYER, course(), 66);
    let s = scene(Point::new(2000, 0), Point::new(0, 0));
    let t = m.tick(ENEMY, &Behavior::Idle, &s).unwrap();
    assert_eq!(t.rule, 0);
    assert_eq!(t.state, Behavior::Follow(course()));
    assert_eq!(t.effects, vec![AnimationIndices { first: 0, last: 3 }]);
}

#[test]
fn idle_enemy_ignores_a_player_out_of_sight() {
    let m = enemy_machine(PLAYER, course(), 66);
    let s = scene(Point::new(2001, 0), Point::new(0, 0));
    assert!(m.tick(ENEMY, &Behavior::Idle, &s).is_none());
}

#[test]
fn idle_enemy_in_attack_range_follows_first() {
    let m = enemy_machine(PLAYER, course(), 66);
    let s = scene(Point::new(10, 0), Point::new(0, 0));
    let t = m.tick(ENEMY, &Behavior::Idle, &s).unwrap();
    assert_eq!(t.rule, 0);
    assert_eq!(t.state, Behavior::Follow(course()));
}

#[test]
fn follower_goes_idle_when_the_player_is_gone() {
    let m = enemy_machine(PLAYER, course(), 66);
    let s = scene(Point::new(0, 2001), Point::new(0, 0));
    let t = m.tick(ENEMY, &Behavior::Follow(course()), &s).unwrap();
    assert_eq!(t.rule, 1);
    assert_eq!(t.state, Behavior::Idle);
}

#[test]
fn follower_charges_in_attack_range() {
    let m = enemy_machine(PLAYER, course(), 66);
    let s = scene(Point::new(66, 0), Point::new(0, 0));
    let t = m.tick(ENEMY, &Behavior::Follow(course()), &s).unwrap();
    assert_eq!(t.rule, 3);
    assert_eq!(t.state, Behavior::Charging(Charging::default()));
    assert_eq!(t.effects, vec![AnimationIndices { first: 7, last: 9 }]);
    let s = scene(Point::new(67, 0), Point::new(0, 0));
    assert!(m.tick(ENEMY, &Behavior::Follow(course()), &s).is_none());
}

#[test]
fn charging_enemy_is_not_interrupted_by_distance() {
    let m = enemy_machine(PLAYER, course(), 66);
    let far = scene(Point::new(100_000, 0), Point::new(0, 0));
    let charging = Behavior::Charging(Charging::default());
    assert!(m.tick(ENEMY, &charging, &far).is_none());
    let ready = Behavior::Ready(Ready::default());
    assert!(m.tick(ENEMY, &ready, &far).is_none());
    let delivering = Behavior::Delivering(Delivering::default());
    assert!(m.tick(ENEMY, &delivering, &far).is_none());
}

#[test]
fn charge_ready_and_delivery_follow_their_timers() {
    let m = enemy_machine(PLAYER, course(), 66);
    let far = scene(Point::new(100_000, 0), Point::new(0, 0));
    let charged = Behavior::Charging(Charging {
        attack_entity: Some(7),
        timer: finished(ENEMY_CHARGING_TIME),
        range: 66,
    });
    let t = m.tick(ENEMY, &charged, &far).unwrap();
    assert_eq!(t.state, Behavior::Ready(Ready::default()));
    assert_eq!(t.effects, vec![AnimationIndices { first: 8, last: 9 }]);
    let ready = Behavior::Ready(Ready { timer: finished(ENEMY_READY_TIME), radius: 66 });
    let t = m.tick(ENEMY, &ready, &far).unwrap();
    assert_eq!(t.state, Behavior::Delivering(Delivering::default()));
    assert_eq!(t.effects, vec![AnimationIndices { first: 23, last: 27 }]);
    let delivered = Behavior::Delivering(Delivering { timer: finished(ENEMY_DELIVER_TIME) });
    let t = m.tick(ENEMY, &delivered, &far).unwrap();
    assert_eq!(t.state, Behavior::Idle);
    assert_eq!(t.effects, vec![AnimationIndices { first: 0, last: 3 }]);
}

#[test]
fn enemy_missing_from_the_snapshot_sees_nobody() {
    let m = enemy_machine(PLAYER, course(), 66);
    let mut s = Snapshot::new();
    s.place(PLAYER, Point::new(0, 0));
    assert!(m.tick(ENEMY, &Behavior::Idle, &s).is_none());
    let t = m.tick(ENEMY, &Behavior::Follow(course()), &s).unwrap();
    assert_eq!(t.state, Behavior::Idle);
}

#[test]
fn same_rules_and_snapshot_give_the_same_state() {
    let a = enemy_machine(PLAYER, course(), 66);
    let b = enemy_machine(PLAYER, course(), 66);
    let places = [Point::new(10, 0), Point::new(66, 0), Point::new(500, 500), Point::new(3000, 0)];
    let states = [
        Behavior::Idle,
        Behavior::Follow(course()),
        Behavior::Charging(Charging::default()),
        Behavior::Ready(Ready { timer: finished(ENEMY_READY_TIME), radius: 66 }),
    ];
    for place in places {
        let s = scene(place, Point::new(0, 0));
        for state in states {
            let x = a.tick(ENEMY, &state, &s).map(|t| (t.rule, t.state, t.effects));
            let y = b.tick(ENEMY, &state, &s).map(|t| (t.rule, t.state, t.effects));
            let z = a.tick(ENEMY, &state, &s).map(|t| (t.rule, t.state, t.effects));
            assert_eq!(x, y);
            assert_eq!(x, z);
        }
    }
}

#[test]
fn follower_heads_for_its_orbit_point() {
    let s = follow(&course(), Point::new(0, 0), Point::new(100, 50));
    assert_eq!(s, Steering::Toward { dx: 140, dy: 50, speed: 30 });
}

#[test]
fn follower_holds_inside_the_dead_zone() {
    let target = Point::new(100, 50);
    assert_eq!(follow(&course(), Point::new(140, 50), target), Steering::Hold);
    assert_eq!(follow(&course(), Point::new(133, 50), target), Steering::Hold);
    assert_eq!(follow(&course(), Point::new(135, 56), target), Steering::Hold);
}

#[test]
fn follower_moves_at_the_rim_of_the_dead_zone() {
    let target = Point::new(100, 50);
    assert_eq!(
        follow(&course(), Point::new(132, 50), target),
        Steering::Toward { dx: 8, dy: 0, speed: 30 }
    );
    assert_eq!(
        follow(&course(), Point::new(140, 58), target),
        Steering::Toward { dx: 0, dy: -8, speed: 30 }
    );
}

#[test]
fn idle_enemy_is_told_to_hold() {
    let a = actor();
    let s = scene(Point::new(5000, 0), Point::new(0, 0));
    assert_eq!(a.steer(&s), Some(Steering::Hold));
}

#[test]
fn following_enemy_is_steered() {
    let mut a = actor();
    a.state = Behavior::Follow(course());
    let s = scene(Point::new(0, 0), Point::new(100, 50));
    assert_eq!(a.steer(&s), Some(Steering::Toward { dx: 140, dy: 50, speed: 30 }));
    assert_eq!(a.steer(&Snapshot::new()), None);
    a.state = Behavior::Ready(Ready::default());
    assert_eq!(a.steer(&s), None);
}

#[test]
fn charge_orders_one_warning_shape() {
    let mut a = actor();
    a.state = Behavior::Charging(Charging::default());
    assert_eq!(a.charge(70), Some(WarningShape { owner: ENEMY, entity: 70, range: 66 }));
    assert_eq!(a.cone, Some(70));
    assert_eq!(
        a.state,
        Behavior::Charging(Charging {
            attack_entity: Some(70),
            timer: Timer::new(ENEMY_CHARGING_TIME),
            range: 66
        })
    );
    assert_eq!(a.charge(71), None);
    assert_eq!(a.cone, Some(70));
}

#[test]
fn charge_leaves_other_states_alone() {
    let mut a = actor();
    assert_eq!(a.charge(70), None);
    assert_eq!(a.state, Behavior::Idle);
    assert_eq!(a.cone, None);
}

#[test]
fn warning_shape_points_at_the_player() {
    assert_eq!(orient_towards_player(Point::new(10, 10), Point::new(13, 6)), (3, -4));
}

#[test]
fn ready_timer_raises_one_notice() {
    let mut a = actor();
    a.state = Behavior::Ready(Ready { timer: Timer::new(ENEMY_READY_TIME), radius: 42 });
    assert_eq!(a.tick_ready_timer(ENEMY_READY_TIME - 1), None);
    assert_eq!(a.tick_ready_timer(1), Some(DeliveringEvent(ENEMY, 42)));
    assert_eq!(a.tick_ready_timer(1), None);
    assert_eq!(a.tick_ready_timer(ENEMY_READY_TIME), None);
}

#[test]
fn timers_tick_only_in_their_own_state() {
    let mut a = actor();
    a.state = Behavior::Charging(Charging::default());
    a.tick_ready_timer(5);
    a.tick_delivery_timer(5);
    assert_eq!(a.state, Behavior::Charging(Charging::default()));
    a.tick_charge_timer(5);
    match a.state {
        Behavior::Charging(c) => assert_eq!(c.timer.elapsed, 5),
        _ => panic!("the enemy must still charge"),
    }
    a.state = Behavior::Delivering(Delivering::default());
    a.tick_charge_timer(5);
    a.tick_delivery_timer(7);
    match a.state {
        Behavior::Delivering(d) => assert_eq!(d.timer.elapsed, 7),
        _ => panic!("the enemy must still deliver"),
    }
}

#[test]
fn notice_swaps_the_warning_shape_for_a_strike() {
    let mut a = actor();
    a.cone = Some(70);
    let order = a.handle_delivering_event(DeliveringEvent(ENEMY, 42), 71).unwrap();
    assert_eq!(order.cone, 70);
    assert_eq!(
        order.strike,
        Strike {
            entity: 71,
            owner: ENEMY,
            radius: 42,
            groups: CollisionGroups { memberships: 1, filters: 4 },
            timer: DespawnTimer(Timer::new(ENEMY_DELIVER_TIME)),
        }
    );
    assert_eq!(a.cone, None);
    assert!(a.handle_delivering_event(DeliveringEvent(ENEMY, 42), 72).is_none());
}

#[test]
fn notice_for_another_enemy_is_ignored() {
    let mut a = actor();
    a.cone = Some(70);
    assert!(a.handle_delivering_event(DeliveringEvent(99, 42), 71).is_none());
    assert_eq!(a.cone, Some(70));
}

#[test]
fn one_attack_makes_one_strike_of_the_ready_radius() {
    let mut a = actor();
    let near = scene(Point::new(50, 0), Point::new(0, 0));
    let far = scene(Point::new(90_000, 0), Point::new(0, 0));
    let step: u64 = 250_000_000;
    let mut strikes: Vec<Strike> = Vec::new();
    let mut warnings = 0;
    let mut notices = 0;
    let mut trace = vec![a.state.tag_of()];
    let mut next_id: u64 = 100;
    for n in 0..40 {
        let s = if n < 2 { &near } else { &far };
        let report = a.tick(s, step, next_id, next_id + 1);
        next_id += 2;
        if report.warning.is_some() {
            warnings += 1;
        }
        if report.event.is_some() {
            notices += 1;
        }
        if let Some(d) = report.delivery {
            assert_eq!(d.strike.radius, ENEMY_CHARGING_RANGE);
            assert_eq!(d.strike.owner, ENEMY);
            assert_eq!(d.strike.timer, DespawnTimer(Timer::new(ENEMY_DELIVER_TIME)));
            strikes.push(d.strike);
        }
        if *trace.last().unwrap() != a.state.tag_of() {
            trace.push(a.state.tag_of());
        }
    }
    assert_eq!(
        trace,
        vec![TAG_IDLE, TAG_FOLLOW, TAG_CHARGING, TAG_READY, TAG_DELIVERING, TAG_IDLE]
    );
    assert_eq!(warnings, 1);
    assert_eq!(notices, 1);
    assert_eq!(strikes.len(), 1);
    assert_eq!(a.cone, None);
}

#[test]
fn strike_is_removed_after_the_delivery_time() {
    let strike = |entity: u64| Strike {
        entity,
        owner: ENEMY,
        radius: 66,
        groups: CollisionGroups { memberships: 1, filters: 4 },
        timer: DespawnTimer(Timer::new(ENEMY_DELIVER_TIME)),
    };
    let mut strikes = vec![strike(5)];
    assert!(tick_despawn_timer(&mut strikes, ENEMY_DELIVER_TIME - 1).is_empty());
    assert_eq!(strikes.len(), 1);
    assert_eq!(strikes[0].timer.0.elapsed, ENEMY_DELIVER_TIME - 1);
    strikes.push(strike(6));
    assert_eq!(tick_despawn_timer(&mut strikes, 1), vec![5]);
    assert_eq!(strikes.len(), 1);
    assert_eq!(strikes[0].entity, 6);
    assert_eq!(strikes[0].timer.0.elapsed, 1);
    assert_eq!(tick_despawn_timer(&mut strikes, ENEMY_DELIVER_TIME), vec![6]);
    assert!(strikes.is_empty());
    assert!(tick_despawn_timer(&mut strikes, 1).is_empty());
}

#[test]
fn dying_enemies_are_removed_with_a_parting_effect() {
    let mut a = actor();
    a.id = 10;
    let mut b = actor();
    b.id = 11;
    b.dying = true;
    b.enemy = Enemy::with_variant(EnemyVariant::Green);
    let mut c = actor();
    c.id = 12;
    let mut d = actor();
    d.id = 13;
    d.dying = true;
    let mut s = Snapshot::new();
    s.place(11, Point::new(4, 5));
    let mut enemies = vec![a, b, c, d];
    let deaths = despawn_died_enemies(&mut enemies, &s);
    assert_eq!(enemies.iter().map(|e| e.id).collect::<Vec<u64>>(), vec![10, 12]);
    assert_eq!(deaths.len(), 2);
    assert_eq!(deaths[0].entity, 11);
    assert_eq!(deaths[0].variant, EnemyVariant::Green);
    assert_eq!(deaths[0].at, Some(Point::new(4, 5)));
    assert_eq!(deaths[0].linger, DespawnTimer(Timer::new(1_000_000_000)));
    assert_eq!(deaths[1].entity, 13);
    assert_eq!(deaths[1].at, None);
    assert!(despawn_died_enemies(&mut enemies, &s).is_empty());
    assert_eq!(enemies.len(), 2);
}

#[test]
fn enemies_spawn_up_to_the_cap() {
    let quarry = Some(Quarry { entity: PLAYER, position: Point::new(320, 320) });
    let roll = SpawnRoll { offset: Point::new(-100, 20), orbit: Point::new(40, 3) };
    assert!(spawn_enemy(BASE_ENEMIES, quarry, 9, roll).is_none());
    assert!(spawn_enemy(BASE_ENEMIES + 1, quarry, 9, roll).is_none());
    assert!(spawn_enemy(0, None, 9, roll).is_none());
    let spawn = spawn_enemy(BASE_ENEMIES - 1, quarry, 9, roll).unwrap();
    assert_eq!(spawn.position, Point::new(220, 340));
    assert_eq!(spawn.groups, CollisionGroups { memberships: 2, filters: 8 });
    assert_eq!(spawn.actor.id, 9);
    assert_eq!(spawn.actor.state, Behavior::Idle);
    assert!(!spawn.actor.dying);
    assert_eq!(spawn.actor.cone, None);
    assert_eq!(spawn.actor.enemy.attack_range, 66);
    assert_eq!(spawn.actor.course.target, PLAYER);
    assert_eq!(spawn.actor.course.orbit, Point::new(40, 3));
    assert_eq!(spawn.actor.machine.rules.len(), 7);
    assert_eq!(spawn.actor.machine.rules[0].to, Behavior::Follow(spawn.actor.course));
}

#[test]
fn spawned_enemies_follow_at_twenty_to_forty() {
    let quarry = Some(Quarry { entity: PLAYER, position: Point::new(0, 0) });
    let roll = SpawnRoll { offset: Point::new(100, 0), orbit: Point::new(40, 0) };
    let mut slowest = u32::MAX;
    let mut fastest = 0;
    for _ in 0..400 {
        let speed = spawn_enemy(0, quarry, 9, roll).unwrap().actor.course.speed;
        assert!((20..40).contains(&speed));
        slowest = slowest.min(speed);
        fastest = fastest.max(speed);
    }
    assert!(slowest < fastest);
}

#[test]
fn sensor_touching_the_player_ends_the_game_once() {
    let mut arbiter = GameOverTrigger::new();
    let events = vec![
        CollisionEvent::Started { first: 8, second: 9, sensor: true },
        CollisionEvent::Started { first: PLAYER, second: 9, sensor: false },
        CollisionEvent::Stopped { first: PLAYER, second: 9, sensor: true },
    ];
    assert!(!check_for_collisions(&events, Some(PLAYER), &mut arbiter));
    assert!(!arbiter.fired);
    let lethal = vec![
        CollisionEvent::Started { first: 9, second: PLAYER, sensor: true },
        CollisionEvent::Started { first: PLAYER, second: 10, sensor: true },
    ];
    assert!(!check_for_collisions(&lethal, None, &mut arbiter));
    assert!(!arbiter.fired);
    assert!(check_for_collisions(&lethal, Some(PLAYER), &mut arbiter));
    assert!(arbiter.fired);
    assert!(!check_for_collisions(&lethal, Some(PLAYER), &mut arbiter));
    assert!(arbiter.fired);
}

#[test]
fn spawned_enemy_is_in_shape_and_stays_so() {
    let mut a = actor();
    assert!(a.check());
    let near = scene(Point::new(30, 0), Point::new(0, 0));
    for n in 0..30 {
        a.tick(&near, 200_000_000, 2 * n + 50, 2 * n + 51);
        assert!(a.check());
    }
}

#[test]
fn enemy_out_of_shape_is_found_out() {
    let mut a = actor();
    a.state = Behavior::Charging(Charging::default());
    assert!(!a.check());
    a.charge(70);
    assert!(a.check());
    a.course.speed += 1;
    assert!(!a.check());
    a.course.speed -= 1;
    a.state = Behavior::Ready(Ready {
        timer: Timer { duration: 5, elapsed: 9, finished: false, just_finished: false },
        radius: 66,
    });
    assert!(!a.check());
}
