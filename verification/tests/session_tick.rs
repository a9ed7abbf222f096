use take_cover::app_state::AppState;
use take_cover::attack::{AttackState, Pointer};
use take_cover::constants::{CYCLE_DURATION, METEOR_SPAWN_DELAY};
use take_cover::cycle::{CycleState, MeteorState, Shower};
use take_cover::enemy::{
    Behavior, CollisionEvent, Enemy, EnemyVariant, Quarry, SpawnRoll, Steering,
};
use take_cover::game::Score;
use take_cover::geometry::Point;
use take_cover::session::{Frame, Rolls, Session, Verdict};
use take_cover::snapshot::Snapshot;

const PLAYER: u64 = 1;

fn rolls() -> Rolls {
    Rolls { enemy: Enemy::with_variant(EnemyVariant::Red), speed: 25, fall_speed: 5_000 }
}

fn quiet() -> Pointer {
    Pointer { just_pressed: false, just_released: false, cursor: None }
}

fn frame(session: &Session, delta: u64, player: Point, enemies_at: Point) -> Frame {
    let mut scene = Snapshot::new();
    scene.place(PLAYER, player);
    for e in &session.enemies {
        scene.place(e.id, enemies_at);
    }
    Frame {
        delta,
        scene,
        player: Some(Quarry { entity: PLAYER, position: player }),
        pointer: quiet(),
        contacts: Vec::new(),
        spawn_roll: SpawnRoll { offset: Point::new(150, 0), orbit: Point::new(40, 0) },
        meteor_offset: Point::new(500, 0),
    }
}

const HOME: Point = Point { x: 0, y: 0 };
const FAR: Point = Point { x: 50_000, y: 0 };

#[test]
fn session_starts_in_play() {
    let s = Session::new_with(100, METEOR_SPAWN_DELAY);
    assert_eq!(s.phase, AppState::InGame);
    assert_eq!(s.score, Score(0));
    assert!(!s.arbiter.fired);
    assert_eq!(s.next_entity, 100);
    assert!(s.enemies.is_empty());
    assert_eq!(s.cycle_state, CycleState::Standard);
    assert_eq!(s.drawer.state, AttackState::Idle);
    let t = Session::new(7);
    assert_eq!(t.next_entity, 7);
    assert!((250_000_000..350_000_000).contains(&t.spawn_delay.0.duration));
}

#[test]
fn core_does_not_run_outside_a_session() {
    for phase in [AppState::AssetsLoading, AppState::MainMenu, AppState::GameOver] {
        let mut s = Session::new_with(100, METEOR_SPAWN_DELAY);
        s.phase = phase;
        let f = frame(&s, 1_000_000_000, HOME, FAR);
        let out = s.tick_with(&f, rolls());
        assert!(!out.ran);
        assert!(out.spawn.is_none());
        assert!(out.orders.is_empty());
        assert!(!out.game_over);
        assert_eq!(s.phase, phase);
        assert!(s.enemies.is_empty());
        assert_eq!(s.next_entity, 100);
        assert_eq!(s.cycle.start.elapsed, 0);
    }
}

#[test]
fn enemies_join_one_per_tick_up_to_the_cap() {
    let mut s = Session::new_with(100, METEOR_SPAWN_DELAY);
    let f = frame(&s, 1_000, HOME, FAR);
    let out = s.tick_with(&f, rolls());
    assert!(out.ran);
    assert_eq!(out.spawn, Some((100, Point::new(150, 0))));
    assert_eq!(s.enemies.len(), 1);
    assert_eq!(s.enemies[0].id, 100);
    assert_eq!(s.enemies[0].enemy.variant, EnemyVariant::Red);
    assert_eq!(s.enemies[0].course.speed, 25);
    assert_eq!(s.next_entity, 103);
    assert_eq!(out.orders.len(), 1);
    for _ in 0..20 {
        let f = frame(&s, 1_000, HOME, FAR);
        s.tick_with(&f, rolls());
    }
    assert_eq!(s.enemies.len(), 10);
    let f = frame(&s, 1_000, HOME, FAR);
    let out = s.tick_with(&f, rolls());
    assert!(out.spawn.is_none());
    assert_eq!(out.orders.len(), 10);
    for e in &s.enemies {
        assert_eq!(e.state, Behavior::Idle);
    }
    for order in &out.orders {
        assert_eq!(order.steering, Some(Steering::Hold));
    }
}

#[test]
fn no_enemy_joins_without_a_player() {
    let mut s = Session::new_with(100, METEOR_SPAWN_DELAY);
    let mut f = frame(&s, 1_000, HOME, FAR);
    f.player = None;
    let out = s.tick_with(&f, rolls());
    assert!(out.ran);
    assert!(out.spawn.is_none());
    assert!(s.enemies.is_empty());
    assert_eq!(s.next_entity, 100);
}

#[test]
fn drawn_loop_kills_two_enemies_for_eight_points() {
    let mut s = Session::new_with(100, METEOR_SPAWN_DELAY);
    for _ in 0..3 {
        let f = frame(&s, 1_000, HOME, FAR);
        s.tick_with(&f, rolls());
    }
    assert_eq!(s.enemies.len(), 3);
    let ids: Vec<u64> = s.enemies.iter().map(|e| e.id).collect();
    let path = [
        Point::new(0, 0),
        Point::new(200, 0),
        Point::new(200, 200),
        Point::new(0, 200),
        Point::new(0, 10),
    ];
    for (n, p) in path.iter().enumerate() {
        let mut f = frame(&s, 1_000, HOME, FAR);
        f.pointer = Pointer { just_pressed: n == 0, just_released: false, cursor: Some(*p) };
        let out = s.tick_with(&f, rolls());
        assert_eq!(out.attack.mark, Some(*p));
        assert_eq!(out.attack.verdict, Verdict::Pending);
    }
    assert_eq!(s.drawer.state, AttackState::Attack);
    assert_eq!(s.positions.0.len(), 5);
    let mut f = frame(&s, 1_000, HOME, FAR);
    f.pointer = Pointer { just_pressed: false, just_released: true, cursor: Some(path[4]) };
    let expected = s.next_entity + 1 + 2 * (s.enemies.len() as u64 + 1);
    let out = s.tick_with(&f, rolls());
    assert_eq!(out.attack.mark, None);
    assert_eq!(out.attack.verdict, Verdict::Landed(expected));
    assert!(s.positions.0.is_empty());
    assert_eq!(s.trails.len(), 1);
    assert_eq!(s.trails[0].outline.len(), 10);
    assert_eq!(s.score, Score(0));

    s.trails[0].colliding = vec![ids[0], ids[2]];
    let f = frame(&s, 1_000, HOME, FAR);
    let out = s.tick_with(&f, rolls());
    assert_eq!(s.score, Score(8));
    assert_eq!(out.spent, vec![expected]);
    assert!(s.trails.is_empty());
    assert!(out.deaths.is_empty());
    assert_eq!(s.enemies.len(), 10);
    for e in &s.enemies {
        assert_eq!(e.dying, e.id == ids[0] || e.id == ids[2]);
    }

    let f = frame(&s, 1_000, HOME, FAR);
    let out = s.tick_with(&f, rolls());
    assert_eq!(out.deaths.iter().map(|d| d.entity).collect::<Vec<u64>>(), vec![ids[0], ids[2]]);
    assert_eq!(out.deaths[0].at, Some(FAR));
    assert_eq!(s.score, Score(8));
    assert_eq!(s.enemies.len(), 8);
    assert!(s.enemies.iter().all(|e| !e.dying));
    assert!(s.enemies.iter().all(|e| e.id != ids[0] && e.id != ids[2]));
    assert_eq!(s.enemies[0].id, ids[1]);
}

#[test]
fn open_drawing_is_discarded() {
    let mut s = Session::new_with(100, METEOR_SPAWN_DELAY);
    let path = [Point::new(0, 0), Point::new(300, 0), Point::new(300, 300)];
    for (n, p) in path.iter().enumerate() {
        let mut f = frame(&s, 1_000, HOME, FAR);
        f.player = None;
        f.pointer = Pointer { just_pressed: n == 0, just_released: false, cursor: Some(*p) };
        s.tick_with(&f, rolls());
    }
    let mut f = frame(&s, 1_000, HOME, FAR);
    f.player = None;
    f.pointer = Pointer { just_pressed: false, just_released: true, cursor: None };
    let out = s.tick_with(&f, rolls());
    assert_eq!(out.attack.verdict, Verdict::Discarded);
    assert!(s.positions.0.is_empty());
    assert!(s.trails.is_empty());
}

#[test]
fn first_shower_drops_three_meteors_and_pays_eight() {
    let mut s = Session::new_with(100, METEOR_SPAWN_DELAY);
    s.enemies.clear();
    let mut f = frame(&s, CYCLE_DURATION, HOME, FAR);
    f.player = None;
    let out = s.tick_with(&f, rolls());
    assert!(out.cycle.shower.is_none());
    assert_eq!(s.cycle_state, CycleState::Meteors);
    assert_eq!(s.cycle.meteors, 3);

    let mut spawned = 0;
    let mut landed = 0;
    let mut ticks = 0;
    while s.cycle_state == CycleState::Meteors {
        let mut f = frame(&s, METEOR_SPAWN_DELAY, HOME, FAR);
        f.spawn_roll = SpawnRoll { offset: Point::new(9_000, 0), orbit: Point::new(40, 0) };
        let out = s.tick_with(&f, rolls());
        if let Some(Shower::Spawned(m)) = out.cycle.shower {
            assert_eq!(m.position, Point::new(500, 0));
            assert_eq!(m.fall_speed, 5_000);
            assert_eq!(m.state, MeteorState::Falling);
            spawned += 1;
        }
        landed += out.cycle.removed.len();
        assert!(!out.game_over);
        ticks += 1;
        assert!(ticks < 100);
    }
    assert_eq!(spawned, 3);
    assert_eq!(landed, 3);
    assert_eq!(s.cycle.index, 2);
    assert_eq!(s.cycle.meteors, 6);
    assert_eq!(s.cycle.start.elapsed, 0);
    assert_eq!(s.score, Score(3 * 3 + 8));
    assert_eq!(s.phase, AppState::InGame);
}

#[test]
fn meteor_on_the_player_ends_the_session() {
    let mut s = Session::new_with(100, METEOR_SPAWN_DELAY);
    let mut f = frame(&s, CYCLE_DURATION, HOME, FAR);
    f.player = None;
    s.tick_with(&f, rolls());
    let mut over = 0;
    let mut ticks = 0;
    while s.phase == AppState::InGame {
        let mut f = frame(&s, METEOR_SPAWN_DELAY, HOME, FAR);
        f.meteor_offset = Point::new(3, 4);
        let out = s.tick_with(&f, rolls());
        if out.game_over {
            over += 1;
            assert!(out.cycle.game_over);
        }
        ticks += 1;
        assert!(ticks < 100);
    }
    assert_eq!(over, 1);
    assert_eq!(s.phase, AppState::GameOver);
    assert!(s.arbiter.fired);
    assert_eq!(s.score, Score(0));
    let f = frame(&s, METEOR_SPAWN_DELAY, HOME, FAR);
    let out = s.tick_with(&f, rolls());
    assert!(!out.ran);
    assert!(!out.game_over);
}

#[test]
fn strike_on_the_player_ends_the_session_once() {
    let mut s = Session::new_with(100, METEOR_SPAWN_DELAY);
    let mut f = frame(&s, 1_000, HOME, FAR);
    f.contacts = vec![
        CollisionEvent::Started { first: 40, second: PLAYER, sensor: true },
        CollisionEvent::Started { first: PLAYER, second: 41, sensor: true },
    ];
    let out = s.tick_with(&f, rolls());
    assert!(out.ran);
    assert!(out.game_over);
    assert_eq!(s.phase, AppState::GameOver);
    let mut f = frame(&s, 1_000, HOME, FAR);
    f.contacts = vec![CollisionEvent::Started { first: 40, second: PLAYER, sensor: true }];
    let out = s.tick_with(&f, rolls());
    assert!(!out.ran);
    assert!(!out.game_over);
    assert_eq!(s.phase, AppState::GameOver);
}

#[test]
fn enemy_near_the_player_attacks_through_the_session() {
    let mut s = Session::new_with(100, METEOR_SPAWN_DELAY);
    let step: u64 = 250_000_000;
    let mut warnings = 0;
    let mut deliveries = Vec::new();
    let mut expired = Vec::new();
    for n in 0..24 {
        let at = if n < 3 { Point::new(60, 0) } else { FAR };
        let mut f = frame(&s, step, HOME, at);
        f.spawn_roll = SpawnRoll { offset: Point::new(60, 0), orbit: Point::new(40, 0) };
        let out = s.tick_with(&f, rolls());
        if let Some(order) = out.orders.first() {
            if order.warning.is_some() {
                warnings += 1;
            }
            if let Some(d) = order.delivery {
                deliveries.push(d);
            }
        }
        expired.extend(out.expired);
        s.cycle.start.reset();
        s.enemies.truncate(1);
    }
    assert_eq!(warnings, 1);
    assert_eq!(deliveries.len(), 1);
    assert_eq!(deliveries[0].strike.radius, 66);
    assert_eq!(deliveries[0].strike.owner, 100);
    assert_eq!(expired, vec![deliveries[0].strike.entity]);
    assert!(s.strikes.is_empty());
    assert_eq!(s.enemies[0].state, Behavior::Idle);
    assert_eq!(s.enemies[0].cone, None);
}

#[test]
fn random_tick_stays_within_its_ranges() {
    let mut s = Session::new(100);
    let f = frame(&s, CYCLE_DURATION, HOME, FAR);
    let out = s.tick(&f);
    assert!(out.ran);
    assert_eq!(s.enemies.len(), 1);
    assert!((20..40).contains(&s.enemies[0].course.speed));
    assert_eq!(s.enemies[0].enemy.attack_range, 66);
    assert!(s.enemies[0].enemy.variant != EnemyVariant::Green);
    assert_eq!(s.cycle_state, CycleState::Meteors);
    let mut fall = None;
    for _ in 0..5 {
        let f = frame(&s, 400_000_000, HOME, FAR);
        if let Some(Shower::Spawned(m)) = s.tick(&f).cycle.shower {
            fall = Some(m.fall_speed);
            break;
        }
    }
    assert!((300..500).contains(&fall.unwrap()));
}

#[test]
fn session_stays_in_shape_through_its_ticks() {
    let mut s = Session::new_with(100, METEOR_SPAWN_DELAY);
    assert!(s.check());
    for n in 0..30 {
        let at = if n % 7 < 3 { Point::new(40, 0) } else { FAR };
        let f = frame(&s, 300_000_000, HOME, at);
        s.tick_with(&f, rolls());
        assert!(s.check());
        if s.phase != AppState::InGame {
            break;
        }
    }
}

#[test]
fn broken_session_is_found_out() {
    let mut s = Session::new_with(100, METEOR_SPAWN_DELAY);
    let f = frame(&s, 1_000, HOME, FAR);
    s.tick_with(&f, rolls());
    assert!(s.check());

    s.cycle.index = 0;
    assert!(!s.check());
    s.cycle.index = 1;
    assert!(s.check());

    s.spawn_delay.0.elapsed = s.spawn_delay.0.duration + 1;
    assert!(!s.check());
    s.spawn_delay.0.elapsed = 0;

    s.enemies[0].cone = Some(5);
    assert!(!s.check());
    s.enemies[0].cone = None;
    assert!(s.check());

    s.enemies[0].machine.rules.swap(0, 1);
    assert!(!s.check());
    s.enemies[0].machine.rules.swap(0, 1);
    assert!(s.check());

    s.enemies[0].machine.hooks.pop();
    assert!(!s.check());
}

#[test]
fn overlap_lists_do_not_break_the_shape() {
    let mut s = Session::new_with(100, METEOR_SPAWN_DELAY);
    let path = [
        Point::new(0, 0),
        Point::new(200, 0),
        Point::new(200, 200),
        Point::new(0, 200),
        Point::new(0, 10),
    ];
    for (n, p) in path.iter().enumerate() {
        let mut f = frame(&s, 1_000, HOME, FAR);
        f.pointer = Pointer { just_pressed: n == 0, just_released: false, cursor: Some(*p) };
        s.tick_with(&f, rolls());
    }
    let mut f = frame(&s, 1_000, HOME, FAR);
    f.pointer = Pointer { just_pressed: false, just_released: true, cursor: None };
    s.tick_with(&f, rolls());
    assert_eq!(s.trails.len(), 1);
    s.trails[0].colliding = vec![1, 2, 3, 999];
    assert!(s.check());
    s.drawer.machine.rules.clear();
    assert!(!s.check());
}
