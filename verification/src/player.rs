//! The player's automaton: idle, moving and dodging, with the dodge
//! reachable from every state.

use vstd::prelude::*;
use crate::common::AnimationIndices;
use crate::constants::{DODGING_COOLDOWN, DODGING_SPEED, DODGING_TIMER, PLAYER_SPEED};
use crate::machine::{Edge, Hook, Rule, Source, StateMachine, Tagged, Trigger};
use crate::timer::Timer;

verus! {

/// Tag of the idle state.
pub const TAG_IDLE: u8 = 0;

/// Tag of the moving state.
pub const TAG_MOVE: u8 = 1;

/// Tag of the dodging state.
pub const TAG_DODGE: u8 = 2;

/// Which footstep sound comes next, if the player makes any.
#[derive(Clone, Copy, Debug, PartialEq, Eq)]
pub struct FootstepsIndices(pub Option<usize>);

/// A direction on the keyboard: each axis is -1, 0 or 1.
#[derive(Clone, Copy, Debug, PartialEq, Eq, Structural)]
pub struct Heading {
    pub x: i8,
    pub y: i8,
}

/// What the core remembers of the player.
#[derive(Clone, Copy, Debug, PartialEq, Eq)]
pub struct Player {
    pub dodge_cooldown: Timer,
    pub has_ever_dodged: bool,
    pub last_direction: Heading,
    pub speed: u32,
}

/// A dodge in progress.
#[derive(Clone, Copy, Debug, PartialEq, Eq)]
pub struct Dodge {
    pub is_dodging: bool,
    pub timer: Timer,
}

/// The state of the player's automaton.
#[derive(Clone, Copy, Debug, PartialEq, Eq)]
pub enum PlayerState {
    Idle,
    Move,
    Dodge(Dodge),
}

impl Default for Player {
    fn default() -> (p: Player)
        ensures
            p == (Player {
                dodge_cooldown: Timer::fresh(DODGING_COOLDOWN),
                has_ever_dodged: false,
                last_direction: Heading { x: 0, y: 0 },
                speed: PLAYER_SPEED,
            }),
    {
        Player {
            dodge_cooldown: Timer::new(DODGING_COOLDOWN),
            has_ever_dodged: false,
            last_direction: Heading { x: 0, y: 0 },
            speed: PLAYER_SPEED,
        }
    }
}

impl Default for Dodge {
    fn default() -> (d: Dodge)
        ensures
            d == fresh_dodge(),
    {
        Dodge { is_dodging: false, timer: Timer::new(DODGING_TIMER) }
    }
}

/// The dodge state as it is entered.
pub open spec fn fresh_dodge() -> Dodge {
    Dodge { is_dodging: false, timer: Timer::fresh(DODGING_TIMER) }
}

impl Tagged for PlayerState {
    open spec fn tag(&self) -> u8 {
        match self {
            PlayerState::Idle => TAG_IDLE,
            PlayerState::Move => TAG_MOVE,
            PlayerState::Dodge(_) => TAG_DODGE,
        }
    }

    fn tag_of(&self) -> (t: u8) {
        match self {
            PlayerState::Idle => TAG_IDLE,
            PlayerState::Move => TAG_MOVE,
            PlayerState::Dodge(_) => TAG_DODGE,
        }
    }
}

/// What the player's predicates look at.
#[derive(Clone, Copy, Debug, PartialEq, Eq)]
pub struct Controls {
    pub player: Player,
    /// A dodge key went down on this tick.
    pub dodge_pressed: bool,
}

/// The predicates of the player graph.
#[derive(Clone, Copy, Debug, PartialEq, Eq, Structural)]
pub enum PlayerTrigger {
    /// The player's last heading is not zero.
    HasMoved,
    /// The opposite of `HasMoved`.
    HasStopped,
    /// The dodge in progress has run its time.
    DodgeDone,
    /// A dodge key went down, the player is not dodging already, and the
    /// dodge is off cooldown or was never used.
    HasDodged,
}

/// The heading is not zero.
pub open spec fn moving(heading: Heading) -> bool {
    heading.x != 0 || heading.y != 0
}

impl Trigger<PlayerState> for PlayerTrigger {
    type Scene = Controls;

    open spec fn fires(&self, actor: u64, state: &PlayerState, scene: &Controls) -> bool {
        match self {
            PlayerTrigger::HasMoved => moving(scene.player.last_direction),
            PlayerTrigger::HasStopped => !moving(scene.player.last_direction),
            PlayerTrigger::DodgeDone => match *state {
                PlayerState::Dodge(d) => d.timer.finished,
                _ => false,
            },
            PlayerTrigger::HasDodged => {
                &&& !(*state is Dodge)
                &&& scene.player.dodge_cooldown.finished || !scene.player.has_ever_dodged
                &&& scene.dodge_pressed
            },
        }
    }

    fn check(&self, actor: u64, state: &PlayerState, scene: &Controls) -> (b: bool) {
        match self {
            PlayerTrigger::HasMoved => scene.player.last_direction.x != 0
                || scene.player.last_direction.y != 0,
            PlayerTrigger::HasStopped => !(scene.player.last_direction.x != 0
                || scene.player.last_direction.y != 0),
            PlayerTrigger::DodgeDone => match *state {
                PlayerState::Dodge(d) => d.timer.finished(),
                _ => false,
            },
            PlayerTrigger::HasDodged => match *state {
                PlayerState::Dodge(_) => false,
                _ => (scene.player.dodge_cooldown.finished() || !scene.player.has_ever_dodged)
                    && scene.dodge_pressed,
            },
        }
    }
}

/// What entering a state tells the sound and sprite layers.
#[derive(Clone, Copy, Debug, PartialEq, Eq)]
pub struct Cue {
    pub footsteps: FootstepsIndices,
    pub animation: AnimationIndices,
}

/// The automaton of the player.
pub type PlayerMachine = StateMachine<PlayerTrigger, PlayerState, Cue>;

/// The player graph in registration order; the wildcard rule comes last.
pub open spec fn player_rules() -> Seq<Rule<PlayerTrigger, PlayerState>> {
    seq![
        Rule { from: Source::State(TAG_IDLE), trigger: PlayerTrigger::HasMoved, to: PlayerState::Move },
        Rule {
            from: Source::State(TAG_MOVE),
            trigger: PlayerTrigger::HasStopped,
            to: PlayerState::Idle,
        },
        Rule {
            from: Source::State(TAG_DODGE),
            trigger: PlayerTrigger::DodgeDone,
            to: PlayerState::Idle,
        },
        Rule {
            from: Source::Any,
            trigger: PlayerTrigger::HasDodged,
            to: PlayerState::Dodge(fresh_dodge()),
        },
    ]
}

/// What each state tells the sound and sprite layers when it is entered.
pub open spec fn player_hooks() -> Seq<Hook<Cue>> {
    seq![
        Hook {
            tag: TAG_IDLE,
            edge: Edge::Enter,
            effect: Cue {
                footsteps: FootstepsIndices(None),
                animation: AnimationIndices { first: 0, last: 10 },
            },
        },
        Hook {
            tag: TAG_MOVE,
            edge: Edge::Enter,
            effect: Cue {
                footsteps: FootstepsIndices(Some(0)),
                animation: AnimationIndices { first: 24, last: 35 },
            },
        },
        Hook {
            tag: TAG_DODGE,
            edge: Edge::Enter,
            effect: Cue {
                footsteps: FootstepsIndices(None),
                animation: AnimationIndices { first: 72, last: 75 },
            },
        },
    ]
}

/// Builds the player's automaton.
pub fn init_player() -> (r: (Player, PlayerMachine, PlayerState))
    ensures
        r.0 == (Player {
            dodge_cooldown: Timer::fresh(DODGING_COOLDOWN),
            has_ever_dodged: false,
            last_direction: Heading { x: 0, y: 0 },
            speed: PLAYER_SPEED,
        }),
        r.1.rules@ == player_rules(),
        r.1.hooks@ == player_hooks(),
        r.2 == PlayerState::Idle,
{
    let mut m: PlayerMachine = StateMachine::new();
    m.register(Source::State(TAG_IDLE), PlayerTrigger::HasMoved, PlayerState::Move);
    m.register(Source::State(TAG_MOVE), PlayerTrigger::HasStopped, PlayerState::Idle);
    m.register(Source::State(TAG_DODGE), PlayerTrigger::DodgeDone, PlayerState::Idle);
    m.register(Source::Any, PlayerTrigger::HasDodged, PlayerState::Dodge(Dodge::default()));
    m.on_enter(
        TAG_IDLE,
        Cue { footsteps: FootstepsIndices(None), animation: AnimationIndices { first: 0, last: 10 } },
    );
    m.on_enter(
        TAG_MOVE,
        Cue {
            footsteps: FootstepsIndices(Some(0)),
            animation: AnimationIndices { first: 24, last: 35 },
        },
    );
    m.on_enter(
        TAG_DODGE,
        Cue {
            footsteps: FootstepsIndices(None),
            animation: AnimationIndices { first: 72, last: 75 },
        },
    );
    assert(m.rules@ =~= player_rules());
    assert(m.hooks@ =~= player_hooks());
    (Player::default(), m, PlayerState::Idle)
}

/// Where the player graph sends the player in one tick. The rule of the
/// present state is looked at first; the dodge, which starts from any state,
/// only when that rule does not fire.
pub open spec fn player_successor(state: PlayerState, scene: &Controls) -> PlayerState {
    let dodge = PlayerTrigger::HasDodged.fires(0, &state, scene);
    match state {
        PlayerState::Idle => if moving(scene.player.last_direction) {
            PlayerState::Move
        } else if dodge {
            PlayerState::Dodge(fresh_dodge())
        } else {
            state
        },
        PlayerState::Move => if !moving(scene.player.last_direction) {
            PlayerState::Idle
        } else if dodge {
            PlayerState::Dodge(fresh_dodge())
        } else {
            state
        },
        PlayerState::Dodge(d) => if d.timer.finished {
            PlayerState::Idle
        } else {
            state
        },
    }
}

/// A machine that holds the player graph moves the player exactly as
/// `player_successor` says: the wildcard rule yields to the specific ones.
pub proof fn lemma_player_graph(m: &PlayerMachine, actor: u64, state: PlayerState, scene: &Controls)
    requires
        m.rules@ == player_rules(),
    ensures
        m.successor(actor, &state, scene) == player_successor(state, scene),
{
    let rules = player_rules();
    assert(rules.len() == 4);
    let specific: int = match state {
        PlayerState::Idle => if moving(scene.player.last_direction) {
            0
        } else {
            -1
        },
        PlayerState::Move => if !moving(scene.player.last_direction) {
            1
        } else {
            -1
        },
        PlayerState::Dodge(d) => if d.timer.finished {
            2
        } else {
            -1
        },
    };
    if specific >= 0 {
        assert(m.specific_hit(specific, actor, &state, scene));
        assert forall|j: int| 0 <= j < specific implies !m.specific_hit(j, actor, &state, scene) by {}
        assert(m.chosen(specific, actor, &state, scene));
        m.lemma_successor_of_chosen(specific, actor, &state, scene);
    } else {
        assert forall|j: int| !m.specific_hit(j, actor, &state, scene) by {
            if 0 <= j < 4 {
                assert(rules[j] == m.rules@[j]);
            }
        }
        if PlayerTrigger::HasDodged.fires(actor, &state, scene) {
            assert(m.wildcard_hit(3, actor, &state, scene));
            assert forall|j: int| 0 <= j < 3 implies !m.wildcard_hit(j, actor, &state, scene) by {}
            assert(m.chosen(3, actor, &state, scene));
            m.lemma_successor_of_chosen(3, actor, &state, scene);
        } else {
            assert forall|j: int| !m.wildcard_hit(j, actor, &state, scene) by {
                if 0 <= j < 4 {
                    assert(rules[j] == m.rules@[j]);
                }
            }
            assert(m.idle(actor, &state, scene));
            m.lemma_successor_when_idle(actor, &state, scene);
        }
    }
}

/// One axis of the keyboard: the positive key counts one way, the negative
/// key the other, and both together cancel.
pub open spec fn axis(negative: bool, positive: bool) -> i8 {
    if positive && !negative {
        1
    } else if negative && !positive {
        -1i8
    } else {
        0
    }
}

/// Reads the movement keys of a player that is not dodging, and remembers
/// the heading. The caller moves the player along the heading, scaled to
/// unit length, at the player's speed. A dodging player is left alone.
pub fn move_player(
    player: &mut Player,
    state: &PlayerState,
    up: bool,
    down: bool,
    left: bool,
    right: bool,
) -> (heading: Option<Heading>)
    ensures
        *state is Dodge ==> heading is None && *final(player) == *old(player),
        !(*state is Dodge) ==> {
            &&& heading == Some(Heading { x: axis(left, right), y: axis(down, up) })
            &&& *final(player) == (Player { last_direction: heading->0, ..*old(player) })
        },
{
    match state {
        PlayerState::Dodge(_) => None,
        _ => {
            let x: i8 = if right && !left {
                1
            } else if left && !right {
                -1
            } else {
                0
            };
            let y: i8 = if up && !down {
                1
            } else if down && !up {
                -1
            } else {
                0
            };
            let heading = Heading { x, y };
            player.last_direction = heading;
            Some(heading)
        },
    }
}

/// A push along `heading` at `factor` times the usual velocity.
#[derive(Clone, Copy, Debug, PartialEq, Eq)]
pub struct Burst {
    pub heading: Heading,
    pub factor: u32,
}

/// Starts a dodge that has not started yet: the cooldown restarts, the
/// player is marked as having dodged, and it is pushed along its last
/// heading. A dodge under way is left alone.
pub fn dodge(roll: &mut Dodge, player: &mut Player) -> (burst: Option<Burst>)
    ensures
        old(roll).is_dodging ==> {
            &&& burst is None
            &&& *final(roll) == *old(roll)
            &&& *final(player) == *old(player)
        },
        !old(roll).is_dodging ==> {
            &&& burst == Some(Burst { heading: old(player).last_direction, factor: DODGING_SPEED })
            &&& *final(roll) == (Dodge { is_dodging: true, ..*old(roll) })
            &&& *final(player) == (Player {
                dodge_cooldown: Timer::fresh(old(player).dodge_cooldown.duration),
                has_ever_dodged: true,
                ..*old(player)
            })
        },
{
    if roll.is_dodging {
        return None;
    }
    player.dodge_cooldown.reset();
    player.has_ever_dodged = true;
    roll.is_dodging = true;
    Some(Burst { heading: player.last_direction, factor: DODGING_SPEED })
}

/// Advances the timer of a dodge in progress.
pub fn tick_decelerate_timer(state: &mut PlayerState, delta: u64)
    requires
        *old(state) matches PlayerState::Dodge(d) ==> d.timer.wf(),
    ensures
        *final(state) == match *old(state) {
            PlayerState::Dodge(d) => PlayerState::Dodge(
                Dodge { timer: d.timer.ticked(delta), ..d },
            ),
            other => other,
        },
{
    match *state {
        PlayerState::Dodge(d) => {
            let mut timer = d.timer;
            timer.tick(delta);
            *state = PlayerState::Dodge(Dodge { is_dodging: d.is_dodging, timer });
        },
        _ => {},
    }
}

/// Advances the cooldown between dodges.
pub fn tick_dodge_cooldown_timer(player: &mut Player, delta: u64)
    requires
        old(player).dodge_cooldown.wf(),
    ensures
        *final(player) == (Player {
            dodge_cooldown: old(player).dodge_cooldown.ticked(delta),
            ..*old(player)
        }),
{
    player.dodge_cooldown.tick(delta);
}

/// Picks the footstep sound for a moving player and moves on to the next,
/// going round the `sounds` sounds there are. Returns the sound to play.
pub fn play_footsteps(footsteps: &mut FootstepsIndices, sounds: usize) -> (sound: Option<usize>)
    ensures
        old(footsteps).0 is None || sounds == 0 ==> sound is None && *final(footsteps) == *old(
            footsteps,
        ),
        old(footsteps).0 is Some && sounds > 0 ==> {
            let index = old(footsteps).0->0;
            &&& sound == Some((index % sounds) as usize)
            &&& final(footsteps).0 == Some(
                if index % sounds + 1 == sounds {
                    0usize
                } else {
                    (index % sounds + 1) as usize
                },
            )
        },
{
    match footsteps.0 {
        Some(index) => {
            if sounds == 0 {
                return None;
            }
            let current: usize = index % sounds;
            let next: usize = if current + 1 == sounds {
                0
            } else {
                current + 1
            };
            footsteps.0 = Some(next);
            Some(current)
        },
        None => None,
    }
}

} // verus!
