use take_cover::app_state::{AppState, InGameSubState, MainMenuSubState, StateDespawnMarker};
use take_cover::game::{cubed, end_session, GameOverTrigger, Score};
use take_cover::screens::{
    action_on_press, check_audio_playback, AudioButton, AudioStatus, Interaction, StateOnPress,
};
use take_cover::utils::{despawn_all_recursive, Node};

fn node(id: u64, parent: Option<u64>, marked: bool) -> Node<StateDespawnMarker> {
    Node { id, parent, component: if marked { Some(StateDespawnMarker) } else { None } }
}

#[test]
fn application_starts_by_loading() {
    assert_eq!(AppState::default(), AppState::AssetsLoading);
    assert_eq!(MainMenuSubState::default(), MainMenuSubState::Menu);
    assert_eq!(InGameSubState::default(), InGameSubState::Running);
}

#[test]
fn cube_is_exact() {
    assert_eq!(cubed(0), 0);
    assert_eq!(cubed(1), 1);
    assert_eq!(cubed(2), 8);
    assert_eq!(cubed(3), 27);
    assert_eq!(cubed(10), 1000);
}

#[test]
fn cube_stops_at_the_largest_count() {
    assert_eq!(cubed(usize::MAX), usize::MAX);
    assert_eq!(cubed(1 << 40), usize::MAX);
}

#[test]
fn score_grows_and_never_wraps() {
    let mut score = Score::new();
    assert_eq!(score, Score(0));
    score.award(8);
    score.award(0);
    score.award(27);
    assert_eq!(score, Score(35));
    score.award(usize::MAX);
    assert_eq!(score, Score(usize::MAX));
    score.award(1);
    assert_eq!(score, Score(usize::MAX));
}

#[test]
fn arbiter_fires_for_the_first_lethal_event_only() {
    let mut arbiter = GameOverTrigger::new();
    assert!(!arbiter.report(false));
    assert!(!arbiter.fired);
    assert!(arbiter.report(true));
    assert!(arbiter.fired);
    let mut fires = 0;
    for lethal in [true, false, true, true] {
        if arbiter.report(lethal) {
            fires += 1;
        }
    }
    assert_eq!(fires, 0);
    assert!(arbiter.fired);
}

#[test]
fn only_a_running_session_can_end() {
    assert_eq!(end_session(AppState::InGame, true), AppState::GameOver);
    assert_eq!(end_session(AppState::InGame, false), AppState::InGame);
    assert_eq!(end_session(AppState::GameOver, true), AppState::GameOver);
    assert_eq!(end_session(AppState::MainMenu, true), AppState::MainMenu);
    assert_eq!(end_session(AppState::AssetsLoading, true), AppState::AssetsLoading);
}

#[test]
fn marked_entities_go_with_all_their_descendants() {
    let mut nodes = vec![
        node(1, None, false),
        node(2, None, true),
        node(3, Some(2), false),
        node(4, Some(1), false),
        node(5, Some(3), false),
        node(6, Some(4), true),
        node(7, Some(6), false),
        node(8, Some(4), false),
    ];
    let gone = despawn_all_recursive(&mut nodes);
    assert_eq!(gone, vec![2, 3, 5, 6, 7]);
    assert_eq!(nodes.iter().map(|n| n.id).collect::<Vec<u64>>(), vec![1, 4, 8]);
    assert!(despawn_all_recursive(&mut nodes).is_empty());
    assert_eq!(nodes.len(), 3);
}

#[test]
fn unmarked_scene_is_left_alone() {
    let mut nodes = vec![node(1, None, false), node(2, Some(1), false)];
    assert!(despawn_all_recursive(&mut nodes).is_empty());
    assert_eq!(nodes.len(), 2);
    let mut empty: Vec<Node<StateDespawnMarker>> = Vec::new();
    assert!(despawn_all_recursive(&mut empty).is_empty());
}

#[test]
fn order_of_the_list_does_not_matter() {
    let mut nodes = vec![node(3, Some(2), false), node(2, None, true)];
    assert_eq!(despawn_all_recursive(&mut nodes), vec![3, 2]);
    assert!(nodes.is_empty());

    let mut nodes = vec![
        node(7, Some(6), false),
        node(5, Some(3), false),
        node(8, Some(4), false),
        node(6, Some(4), true),
        node(3, Some(2), false),
        node(4, Some(1), false),
        node(2, None, true),
        node(1, None, false),
    ];
    assert_eq!(despawn_all_recursive(&mut nodes), vec![7, 5, 6, 3, 2]);
    assert_eq!(nodes.iter().map(|n| n.id).collect::<Vec<u64>>(), vec![8, 4, 1]);
    assert_eq!(nodes[0].parent, Some(4));
    assert!(despawn_all_recursive(&mut nodes).is_empty());
    assert_eq!(nodes.len(), 3);
}

#[test]
fn long_chain_listed_backwards_goes_whole() {
    let mut nodes: Vec<Node<StateDespawnMarker>> = (1..=40u64)
        .rev()
        .map(|id| node(id, if id == 1 { None } else { Some(id - 1) }, id == 1))
        .collect();
    nodes.push(node(99, None, false));
    nodes.push(node(98, Some(99), false));
    let gone = despawn_all_recursive(&mut nodes);
    assert_eq!(gone, (1..=40u64).rev().collect::<Vec<u64>>());
    assert_eq!(nodes.iter().map(|n| n.id).collect::<Vec<u64>>(), vec![99, 98]);
}

#[test]
fn orphan_of_an_unknown_parent_stays() {
    let mut nodes = vec![node(3, Some(77), false), node(2, None, true)];
    assert_eq!(despawn_all_recursive(&mut nodes), vec![2]);
    assert_eq!(nodes.len(), 1);
    assert_eq!(nodes[0].id, 3);
}

#[test]
fn last_pressed_button_decides_the_phase() {
    let buttons = vec![
        (Interaction::Pressed, StateOnPress { action: AppState::InGame }),
        (Interaction::Hovered, StateOnPress { action: AppState::GameOver }),
        (Interaction::Pressed, StateOnPress { action: AppState::MainMenu }),
        (Interaction::Away, StateOnPress { action: AppState::AssetsLoading }),
    ];
    assert_eq!(action_on_press(&buttons), Some(AppState::MainMenu));
}

#[test]
fn no_press_asks_for_no_phase() {
    let buttons = vec![
        (Interaction::Hovered, StateOnPress { action: AppState::InGame }),
        (Interaction::Away, StateOnPress { action: AppState::InGame }),
    ];
    assert_eq!(action_on_press(&buttons), None);
    let none: Vec<(Interaction, StateOnPress<AppState>)> = Vec::new();
    assert_eq!(action_on_press(&none), None);
}

#[test]
fn audio_button_flips_on_press() {
    let mut button = AudioButton::default();
    assert_eq!(button.0, AudioStatus::Stopped);
    button.interact(Interaction::Hovered);
    assert_eq!(button.0, AudioStatus::Stopped);
    button.interact(Interaction::Pressed);
    assert_eq!(button.0, AudioStatus::Playing);
    button.interact(Interaction::Away);
    assert_eq!(button.0, AudioStatus::Playing);
    button.interact(Interaction::Pressed);
    assert_eq!(button.0, AudioStatus::Stopped);
}

#[test]
fn changed_audio_button_toggles_the_playback() {
    assert!(!check_audio_playback(true, Some(AudioButton(AudioStatus::Stopped))));
    assert!(check_audio_playback(false, Some(AudioButton(AudioStatus::Stopped))));
    assert!(!check_audio_playback(true, Some(AudioButton(AudioStatus::Playing))));
    assert!(check_audio_playback(true, None));
    assert!(!check_audio_playback(false, None));
}
