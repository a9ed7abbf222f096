use take_cover::common::AnimationIndices;
use take_cover::constants::{DODGING_COOLDOWN, DODGING_TIMER};
use take_cover::player::{
    dodge, init_player, move_player, play_footsteps, tick_decelerate_timer,
    tick_dodge_cooldown_timer, Burst, Controls, Cue, Dodge, FootstepsIndices, Heading, Player,
    PlayerState,
};
use take_cover::timer::Timer;

fn controls(heading: Heading, dodge_pressed: bool) -> Controls {
    let mut player = Player::default();
    player.last_direction = heading;
    Controls { player, dodge_pressed }
}

const STILL: Heading = Heading { x: 0, y: 0 };
const EAST: Heading = Heading { x: 1, y: 0 };

#[test]
fn player_starts_idle() {
    let (player, machine, state) = init_player();
    assert_eq!(
        player,
        Player {
            dodge_cooldown: Timer::new(DODGING_COOLDOWN),
            has_ever_dodged: false,
            last_direction: STILL,
            speed: 66,
        }
    );
    assert_eq!(state, PlayerState::Idle);
    assert_eq!(machine.rules.len(), 4);
    assert_eq!(machine.hooks.len(), 3);
    assert_eq!(Dodge::default(), Dodge { is_dodging: false, timer: Timer::new(DODGING_TIMER) });
}

#[test]
fn moving_and_stopping_switch_the_state() {
    let (_, machine, _) = init_player();
    let t = machine.tick(1, &PlayerState::Idle, &controls(EAST, false)).unwrap();
    assert_eq!(t.state, PlayerState::Move);
    assert_eq!(
        t.effects,
        vec![Cue {
            footsteps: FootstepsIndices(Some(0)),
            animation: AnimationIndices { first: 24, last: 35 },
        }]
    );
    assert!(machine.tick(1, &PlayerState::Move, &controls(EAST, false)).is_none());
    let t = machine.tick(1, &PlayerState::Move, &controls(STILL, false)).unwrap();
    assert_eq!(t.state, PlayerState::Idle);
    assert!(machine.tick(1, &PlayerState::Idle, &controls(STILL, false)).is_none());
}

#[test]
fn dodge_starts_from_any_state() {
    let (_, machine, _) = init_player();
    let t = machine.tick(1, &PlayerState::Idle, &controls(STILL, true)).unwrap();
    assert_eq!(t.rule, 3);
    assert_eq!(t.state, PlayerState::Dodge(Dodge::default()));
    assert_eq!(
        t.effects,
        vec![Cue {
            footsteps: FootstepsIndices(None),
            animation: AnimationIndices { first: 72, last: 75 },
        }]
    );
    let t = machine.tick(1, &PlayerState::Move, &controls(EAST, true)).unwrap();
    assert_eq!(t.rule, 3);
    assert_eq!(t.state, PlayerState::Dodge(Dodge::default()));
}

#[test]
fn rule_of_the_present_state_beats_the_wildcard() {
    let (_, machine, _) = init_player();
    let t = machine.tick(1, &PlayerState::Idle, &controls(EAST, true)).unwrap();
    assert_eq!(t.rule, 0);
    assert_eq!(t.state, PlayerState::Move);
    let t = machine.tick(1, &PlayerState::Move, &controls(STILL, true)).unwrap();
    assert_eq!(t.rule, 1);
    assert_eq!(t.state, PlayerState::Idle);
}

#[test]
fn dodge_cannot_restart_while_it_runs() {
    let (_, machine, _) = init_player();
    let dodging = PlayerState::Dodge(Dodge::default());
    assert!(machine.tick(1, &dodging, &controls(EAST, true)).is_none());
    let mut timer = Timer::new(DODGING_TIMER);
    timer.tick(DODGING_TIMER);
    let done = PlayerState::Dodge(Dodge { is_dodging: true, timer });
    let t = machine.tick(1, &done, &controls(EAST, true)).unwrap();
    assert_eq!(t.rule, 2);
    assert_eq!(t.state, PlayerState::Idle);
}

#[test]
fn dodge_waits_for_its_cooldown() {
    let (_, machine, _) = init_player();
    let mut used = controls(STILL, true);
    used.player.has_ever_dodged = true;
    assert!(machine.tick(1, &PlayerState::Idle, &used).is_none());
    used.player.dodge_cooldown.tick(DODGING_COOLDOWN);
    let t = machine.tick(1, &PlayerState::Idle, &used).unwrap();
    assert_eq!(t.state, PlayerState::Dodge(Dodge::default()));
}

#[test]
fn keys_give_the_heading() {
    let mut player = Player::default();
    let idle = PlayerState::Idle;
    assert_eq!(
        move_player(&mut player, &idle, true, false, false, true),
        Some(Heading { x: 1, y: 1 })
    );
    assert_eq!(player.last_direction, Heading { x: 1, y: 1 });
    assert_eq!(
        move_player(&mut player, &idle, false, true, true, false),
        Some(Heading { x: -1, y: -1 })
    );
    assert_eq!(move_player(&mut player, &idle, true, true, true, true), Some(STILL));
    assert_eq!(move_player(&mut player, &idle, false, false, false, false), Some(STILL));
    assert_eq!(player.last_direction, STILL);
}

#[test]
fn dodging_player_ignores_the_keys() {
    let mut player = Player::default();
    player.last_direction = EAST;
    let dodging = PlayerState::Dodge(Dodge::default());
    assert_eq!(move_player(&mut player, &dodging, true, false, false, false), None);
    assert_eq!(player.last_direction, EAST);
}

#[test]
fn dodge_pushes_once_along_the_last_heading() {
    let mut player = Player::default();
    player.last_direction = EAST;
    player.dodge_cooldown.tick(400);
    let mut roll = Dodge::default();
    assert_eq!(dodge(&mut roll, &mut player), Some(Burst { heading: EAST, factor: 8 }));
    assert!(roll.is_dodging);
    assert!(player.has_ever_dodged);
    assert_eq!(player.dodge_cooldown, Timer::new(DODGING_COOLDOWN));
    player.dodge_cooldown.tick(400);
    assert_eq!(dodge(&mut roll, &mut player), None);
    assert_eq!(player.dodge_cooldown.elapsed, 400);
}

#[test]
fn dodge_timers_advance() {
    let mut state = PlayerState::Dodge(Dodge::default());
    tick_decelerate_timer(&mut state, 50);
    match state {
        PlayerState::Dodge(d) => assert_eq!(d.timer.elapsed, 50),
        _ => panic!("the player must still dodge"),
    }
    let mut idle = PlayerState::Idle;
    tick_decelerate_timer(&mut idle, 50);
    assert_eq!(idle, PlayerState::Idle);
    let mut player = Player::default();
    tick_dodge_cooldown_timer(&mut player, 70);
    assert_eq!(player.dodge_cooldown.elapsed, 70);
}

#[test]
fn footsteps_go_round() {
    let mut steps = FootstepsIndices(Some(0));
    assert_eq!(play_footsteps(&mut steps, 3), Some(0));
    assert_eq!(play_footsteps(&mut steps, 3), Some(1));
    assert_eq!(play_footsteps(&mut steps, 3), Some(2));
    assert_eq!(steps, FootstepsIndices(Some(0)));
    assert_eq!(play_footsteps(&mut steps, 3), Some(0));
}

#[test]
fn silent_player_makes_no_footsteps() {
    let mut steps = FootstepsIndices(None);
    assert_eq!(play_footsteps(&mut steps, 3), None);
    assert_eq!(steps, FootstepsIndices(None));
    let mut steps = FootstepsIndices(Some(1));
    assert_eq!(play_footsteps(&mut steps, 0), None);
    assert_eq!(steps, FootstepsIndices(Some(1)));
}
