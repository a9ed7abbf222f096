//! Enemy behaviour: the state graph, its predicates and the per-tick systems
//! that move an enemy from idling to delivering its attack.

use vstd::prelude::*;
use crate::chance::roll_between;
use crate::common::{AnimationIndices, CollisionGroups, DespawnTimer};
use crate::constants::{
    ATTACK_GROUP, ATTACK_TRAIL_GROUP, BASE_ENEMIES, DEATH_EFFECT_TIME, ENEMY_CHARGING_RANGE,
    ENEMY_CHARGING_TIME, ENEMY_DELIVER_TIME, ENEMY_GROUP, ENEMY_MAX_SPEED, ENEMY_MIN_SPEED,
    ENEMY_READY_TIME, ENEMY_SIGHT_RANGE, FOLLOW_DEAD_ZONE, PLAYER_GROUP,
};
use crate::game::GameOverTrigger;
use crate::geometry::Point;
use crate::machine::{Edge, Hook, Rule, Source, StateMachine, Tagged, Trigger};
use crate::snapshot::Snapshot;
use crate::timer::Timer;

verus! {

/// Tag of the idle state.
pub const TAG_IDLE: u8 = 0;

/// Tag of the follow state.
pub const TAG_FOLLOW: u8 = 1;

/// Tag of the charging state.
pub const TAG_CHARGING: u8 = 2;

/// Tag of the ready state.
pub const TAG_READY: u8 = 3;

/// Tag of the delivering state.
pub const TAG_DELIVERING: u8 = 4;

/// Which sprite sheet an enemy wears.
#[derive(Clone, Copy, Debug, PartialEq, Eq, Structural)]
pub enum EnemyVariant {
    Aqua,
    Red,
    Green,
}

/// What an enemy is: its reach and its look.
#[derive(Clone, Copy, Debug, PartialEq, Eq, Structural)]
pub struct Enemy {
    pub attack_range: u32,
    pub variant: EnemyVariant,
}

/// Circling the target: the enemy heads for the point at `orbit` from the
/// target. `orbit` is the polar pair (angle, radius) drawn once per enemy,
/// kept in Cartesian form; it never changes afterwards.
#[derive(Clone, Copy, Debug, PartialEq, Eq, Structural)]
pub struct Follow {
    pub target: u64,
    pub speed: u32,
    pub orbit: Point,
}

/// Winding up an attack; `attack_entity` is the warning shape once it exists.
#[derive(Clone, Copy, Debug, PartialEq, Eq, Structural)]
pub struct Charging {
    pub attack_entity: Option<u64>,
    pub timer: Timer,
    pub range: u32,
}

/// About to strike with the radius fixed at entry.
#[derive(Clone, Copy, Debug, PartialEq, Eq, Structural)]
pub struct Ready {
    pub timer: Timer,
    pub radius: u32,
}

/// The strike is out; the enemy recovers until the timer ends.
#[derive(Clone, Copy, Debug, PartialEq, Eq, Structural)]
pub struct Delivering {
    pub timer: Timer,
}

/// Notice that an enemy's strike starts: the enemy and the strike radius.
#[derive(Clone, Copy, Debug, PartialEq, Eq)]
pub struct DeliveringEvent(pub u64, pub u32);

/// The behaviour of one enemy. An enemy holds one value of this type, so it
/// is in exactly one mode at any time.
#[derive(Clone, Copy, Debug, PartialEq, Eq, Structural)]
pub enum Behavior {
    Idle,
    Follow(Follow),
    Charging(Charging),
    Ready(Ready),
    Delivering(Delivering),
}

impl EnemyVariant {
    /// The variant for a drawn number: 0 is aqua, 2 is green, all else red.
    pub open spec fn of_roll(roll: u32) -> EnemyVariant {
        if roll == 0 {
            EnemyVariant::Aqua
        } else if roll == 2 {
            EnemyVariant::Green
        } else {
            EnemyVariant::Red
        }
    }

    /// Turns a drawn number into a variant.
    pub fn from_roll(roll: u32) -> (v: EnemyVariant)
        ensures
            v == EnemyVariant::of_roll(roll),
    {
        match roll {
            0 => EnemyVariant::Aqua,
            1 => EnemyVariant::Red,
            2 => EnemyVariant::Green,
            _ => EnemyVariant::Red,
        }
    }
}

impl Enemy {
    /// An enemy of the given look with the standard reach.
    pub fn with_variant(variant: EnemyVariant) -> (e: Enemy)
        ensures
            e == (Enemy { attack_range: ENEMY_CHARGING_RANGE, variant }),
    {
        Enemy { attack_range: ENEMY_CHARGING_RANGE, variant }
    }
}

impl Default for Enemy {
    /// An enemy with the standard reach and a look drawn at random. The
    /// draw is taken below two, so the look is aqua or red.
    fn default() -> (e: Enemy)
        ensures
            e.attack_range == ENEMY_CHARGING_RANGE,
            e.variant == EnemyVariant::Aqua || e.variant == EnemyVariant::Red,
    {
        let roll: u64 = roll_between(0, 2);
        Enemy::with_variant(EnemyVariant::from_roll(roll as u32))
    }
}

impl Default for Charging {
    fn default() -> (c: Charging)
        ensures
            c == (Charging {
                attack_entity: None,
                timer: Timer::fresh(ENEMY_CHARGING_TIME),
                range: ENEMY_CHARGING_RANGE,
            }),
    {
        Charging {
            attack_entity: None,
            range: ENEMY_CHARGING_RANGE,
            timer: Timer::new(ENEMY_CHARGING_TIME),
        }
    }
}

impl Default for Ready {
    fn default() -> (r: Ready)
        ensures
            r == (Ready { timer: Timer::fresh(ENEMY_READY_TIME), radius: ENEMY_CHARGING_RANGE }),
    {
        Ready { timer: Timer::new(ENEMY_READY_TIME), radius: ENEMY_CHARGING_RANGE }
    }
}

impl Default for Delivering {
    fn default() -> (d: Delivering)
        ensures
            d == (Delivering { timer: Timer::fresh(ENEMY_DELIVER_TIME) }),
    {
        Delivering { timer: Timer::new(ENEMY_DELIVER_TIME) }
    }
}

impl Behavior {
    /// Every timer inside the state is well formed.
    pub open spec fn wf(self) -> bool {
        match self {
            Behavior::Idle => true,
            Behavior::Follow(_) => true,
            Behavior::Charging(c) => c.timer.wf(),
            Behavior::Ready(r) => r.timer.wf(),
            Behavior::Delivering(d) => d.timer.wf(),
        }
    }

    /// The state carries mode `tag`.
    pub open spec fn has_tag(self, tag: u8) -> bool {
        self.tag() == tag
    }

    /// An enemy is in exactly one mode: its state carries one of the five
    /// tags and no other.
    pub proof fn lemma_exactly_one_tag(self)
        ensures
            self.tag() <= TAG_DELIVERING,
            self.has_tag(self.tag()),
            forall|t: u8| self.has_tag(t) ==> t == self.tag(),
            Set::new(|t: u8| self.has_tag(t)) =~= set![self.tag()],
            Set::new(|t: u8| self.has_tag(t)).len() == 1,
    {
        assert(Set::new(|t: u8| self.has_tag(t)) =~= set![self.tag()]);
    }
}

impl Tagged for Behavior {
    open spec fn tag(&self) -> u8 {
        match self {
            Behavior::Idle => TAG_IDLE,
            Behavior::Follow(_) => TAG_FOLLOW,
            Behavior::Charging(_) => TAG_CHARGING,
            Behavior::Ready(_) => TAG_READY,
            Behavior::Delivering(_) => TAG_DELIVERING,
        }
    }

    fn tag_of(&self) -> (t: u8) {
        match self {
            Behavior::Idle => TAG_IDLE,
            Behavior::Follow(_) => TAG_FOLLOW,
            Behavior::Charging(_) => TAG_CHARGING,
            Behavior::Ready(_) => TAG_READY,
            Behavior::Delivering(_) => TAG_DELIVERING,
        }
    }
}

/// The predicates of the enemy graph.
#[derive(Clone, Copy, Debug, PartialEq, Eq, Structural)]
pub enum EnemyTrigger {
    /// The enemy is within sight of `player`.
    NearPlayer { player: u64 },
    /// The opposite of `NearPlayer`.
    AwayFromPlayer { player: u64 },
    /// The enemy is within `range` of `player`.
    InAttackRange { player: u64, range: u32 },
    /// The enemy is charging and its charge timer has run out.
    AttackCharged,
    /// The enemy is ready and its ready timer has run out.
    ReadyElapsed,
    /// The enemy is delivering and its delivery timer has run out.
    Delivered,
}

/// Actors `a` and `b` are both in the snapshot and at most `range` apart.
pub open spec fn spec_in_reach(scene: &Snapshot, a: u64, b: u64, range: u32) -> bool {
    match (scene.position_of(a), scene.position_of(b)) {
        (Some(p), Some(q)) => p.spec_within(q, range),
        _ => false,
    }
}

/// Whether two actors are both known and at most `range` apart.
pub fn in_reach(scene: &Snapshot, a: u64, b: u64, range: u32) -> (r: bool)
    ensures
        r == spec_in_reach(scene, a, b, range),
{
    match (scene.position(a), scene.position(b)) {
        (Some(p), Some(q)) => p.within(&q, range),
        _ => false,
    }
}

impl Trigger<Behavior> for EnemyTrigger {
    type Scene = Snapshot;

    open spec fn fires(&self, actor: u64, state: &Behavior, scene: &Snapshot) -> bool {
        match *self {
            EnemyTrigger::NearPlayer { player } => spec_in_reach(
                scene,
                actor,
                player,
                ENEMY_SIGHT_RANGE,
            ),
            EnemyTrigger::AwayFromPlayer { player } => !spec_in_reach(
                scene,
                actor,
                player,
                ENEMY_SIGHT_RANGE,
            ),
            EnemyTrigger::InAttackRange { player, range } => spec_in_reach(
                scene,
                actor,
                player,
                range,
            ),
            EnemyTrigger::AttackCharged => match *state {
                Behavior::Charging(c) => c.timer.finished,
                _ => false,
            },
            EnemyTrigger::ReadyElapsed => match *state {
                Behavior::Ready(r) => r.timer.finished,
                _ => false,
            },
            EnemyTrigger::Delivered => match *state {
                Behavior::Delivering(d) => d.timer.finished,
                _ => false,
            },
        }
    }

    fn check(&self, actor: u64, state: &Behavior, scene: &Snapshot) -> (b: bool) {
        match *self {
            EnemyTrigger::NearPlayer { player } => in_reach(scene, actor, player, ENEMY_SIGHT_RANGE),
            EnemyTrigger::AwayFromPlayer { player } => !in_reach(
                scene,
                actor,
                player,
                ENEMY_SIGHT_RANGE,
            ),
            EnemyTrigger::InAttackRange { player, range } => in_reach(scene, actor, player, range),
            EnemyTrigger::AttackCharged => match *state {
                Behavior::Charging(c) => c.timer.finished(),
                _ => false,
            },
            EnemyTrigger::ReadyElapsed => match *state {
                Behavior::Ready(r) => r.timer.finished(),
                _ => false,
            },
            EnemyTrigger::Delivered => match *state {
                Behavior::Delivering(d) => d.timer.finished(),
                _ => false,
            },
        }
    }
}

/// The automaton that drives one enemy.
pub type EnemyMachine = StateMachine<EnemyTrigger, Behavior, AnimationIndices>;

/// The charging state as it is entered.
pub open spec fn fresh_charging() -> Charging {
    Charging {
        attack_entity: None,
        timer: Timer::fresh(ENEMY_CHARGING_TIME),
        range: ENEMY_CHARGING_RANGE,
    }
}

/// The ready state as it is entered.
pub open spec fn fresh_ready() -> Ready {
    Ready { timer: Timer::fresh(ENEMY_READY_TIME), radius: ENEMY_CHARGING_RANGE }
}

/// The delivering state as it is entered.
pub open spec fn fresh_delivering() -> Delivering {
    Delivering { timer: Timer::fresh(ENEMY_DELIVER_TIME) }
}

/// The enemy graph, in registration order.
pub open spec fn enemy_rules(player: u64, follow: Follow, attack_range: u32) -> Seq<
    Rule<EnemyTrigger, Behavior>,
> {
    seq![
        Rule {
            from: Source::State(TAG_IDLE),
            trigger: EnemyTrigger::NearPlayer { player },
            to: Behavior::Follow(follow),
        },
        Rule {
            from: Source::State(TAG_FOLLOW),
            trigger: EnemyTrigger::AwayFromPlayer { player },
            to: Behavior::Idle,
        },
        Rule {
            from: Source::State(TAG_IDLE),
            trigger: EnemyTrigger::InAttackRange { player, range: attack_range },
            to: Behavior::Charging(fresh_charging()),
        },
        Rule {
            from: Source::State(TAG_FOLLOW),
            trigger: EnemyTrigger::InAttackRange { player, range: attack_range },
            to: Behavior::Charging(fresh_charging()),
        },
        Rule {
            from: Source::State(TAG_CHARGING),
            trigger: EnemyTrigger::AttackCharged,
            to: Behavior::Ready(fresh_ready()),
        },
        Rule {
            from: Source::State(TAG_READY),
            trigger: EnemyTrigger::ReadyElapsed,
            to: Behavior::Delivering(fresh_delivering()),
        },
        Rule {
            from: Source::State(TAG_DELIVERING),
            trigger: EnemyTrigger::Delivered,
            to: Behavior::Idle,
        },
    ]
}

/// The animation each mode starts when it is entered.
pub open spec fn enemy_hooks() -> Seq<Hook<AnimationIndices>> {
    seq![
        Hook { tag: TAG_IDLE, edge: Edge::Enter, effect: AnimationIndices { first: 0, last: 3 } },
        Hook { tag: TAG_FOLLOW, edge: Edge::Enter, effect: AnimationIndices { first: 0, last: 3 } },
        Hook { tag: TAG_CHARGING, edge: Edge::Enter, effect: AnimationIndices { first: 7, last: 9 } },
        Hook { tag: TAG_READY, edge: Edge::Enter, effect: AnimationIndices { first: 8, last: 9 } },
        Hook {
            tag: TAG_DELIVERING,
            edge: Edge::Enter,
            effect: AnimationIndices { first: 23, last: 27 },
        },
    ]
}

/// Builds the automaton of an enemy that hunts `player`: `follow` is the
/// state it takes up when the player comes in sight, `attack_range` the
/// distance at which it starts to charge.
pub fn enemy_machine(player: u64, follow: Follow, attack_range: u32) -> (m: EnemyMachine)
    ensures
        m.rules@ == enemy_rules(player, follow, attack_range),
        m.hooks@ == enemy_hooks(),
{
    let mut m: EnemyMachine = StateMachine::new();
    m.register(
        Source::State(TAG_IDLE),
        EnemyTrigger::NearPlayer { player },
        Behavior::Follow(follow),
    );
    m.register(Source::State(TAG_FOLLOW), EnemyTrigger::AwayFromPlayer { player }, Behavior::Idle);
    m.register(
        Source::State(TAG_IDLE),
        EnemyTrigger::InAttackRange { player, range: attack_range },
        Behavior::Charging(Charging::default()),
    );
    m.register(
        Source::State(TAG_FOLLOW),
        EnemyTrigger::InAttackRange { player, range: attack_range },
        Behavior::Charging(Charging::default()),
    );
    m.register(
        Source::State(TAG_CHARGING),
        EnemyTrigger::AttackCharged,
        Behavior::Ready(Ready::default()),
    );
    m.register(
        Source::State(TAG_READY),
        EnemyTrigger::ReadyElapsed,
        Behavior::Delivering(Delivering::default()),
    );
    m.register(Source::State(TAG_DELIVERING), EnemyTrigger::Delivered, Behavior::Idle);
    m.on_enter(TAG_IDLE, AnimationIndices { first: 0, last: 3 });
    m.on_enter(TAG_FOLLOW, AnimationIndices { first: 0, last: 3 });
    m.on_enter(TAG_CHARGING, AnimationIndices { first: 7, last: 9 });
    m.on_enter(TAG_READY, AnimationIndices { first: 8, last: 9 });
    m.on_enter(TAG_DELIVERING, AnimationIndices { first: 23, last: 27 });
    assert(m.rules@ =~= enemy_rules(player, follow, attack_range));
    assert(m.hooks@ =~= enemy_hooks());
    m
}

/// Where the enemy graph sends an enemy in one tick.
///
/// Idle and following enemies react to distance; once charging, an enemy
/// goes through ready and delivering on timers alone and comes back to idle
/// only from delivering.
pub open spec fn enemy_successor(
    player: u64,
    follow: Follow,
    attack_range: u32,
    actor: u64,
    state: Behavior,
    scene: &Snapshot,
) -> Behavior {
    match state {
        Behavior::Idle => if spec_in_reach(scene, actor, player, ENEMY_SIGHT_RANGE) {
            Behavior::Follow(follow)
        } else if spec_in_reach(scene, actor, player, attack_range) {
            Behavior::Charging(fresh_charging())
        } else {
            state
        },
        Behavior::Follow(_) => if !spec_in_reach(scene, actor, player, ENEMY_SIGHT_RANGE) {
            Behavior::Idle
        } else if spec_in_reach(scene, actor, player, attack_range) {
            Behavior::Charging(fresh_charging())
        } else {
            state
        },
        Behavior::Charging(c) => if c.timer.finished {
            Behavior::Ready(fresh_ready())
        } else {
            state
        },
        Behavior::Ready(r) => if r.timer.finished {
            Behavior::Delivering(fresh_delivering())
        } else {
            state
        },
        Behavior::Delivering(d) => if d.timer.finished {
            Behavior::Idle
        } else {
            state
        },
    }
}

/// A machine that holds the enemy graph moves an enemy exactly as
/// `enemy_successor` says.
pub proof fn lemma_enemy_graph(
    m: &EnemyMachine,
    player: u64,
    follow: Follow,
    attack_range: u32,
    actor: u64,
    state: Behavior,
    scene: &Snapshot,
)
    requires
        m.rules@ == enemy_rules(player, follow, attack_range),
    ensures
        m.successor(actor, &state, scene) == enemy_successor(
            player,
            follow,
            attack_range,
            actor,
            state,
            scene,
        ),
{
    let rules = enemy_rules(player, follow, attack_range);
    assert(rules.len() == 7);
    let near = spec_in_reach(scene, actor, player, ENEMY_SIGHT_RANGE);
    let reach = spec_in_reach(scene, actor, player, attack_range);
    assert forall|j: int| !m.wildcard_hit(j, actor, &state, scene) by {}
    let pick: int = match state {
        Behavior::Idle => if near {
            0
        } else if reach {
            2
        } else {
            -1
        },
        Behavior::Follow(_) => if !near {
            1
        } else if reach {
            3
        } else {
            -1
        },
        Behavior::Charging(c) => if c.timer.finished {
            4
        } else {
            -1
        },
        Behavior::Ready(r) => if r.timer.finished {
            5
        } else {
            -1
        },
        Behavior::Delivering(d) => if d.timer.finished {
            6
        } else {
            -1
        },
    };
    if pick >= 0 {
        assert(m.specific_hit(pick, actor, &state, scene));
        assert forall|j: int| 0 <= j < pick implies !m.specific_hit(j, actor, &state, scene) by {}
        assert(m.chosen(pick, actor, &state, scene));
        m.lemma_successor_of_chosen(pick, actor, &state, scene);
    } else {
        assert forall|j: int| !m.specific_hit(j, actor, &state, scene) by {
            if 0 <= j < 7 {
                assert(rules[j] == m.rules@[j]);
            }
        }
        assert(m.idle(actor, &state, scene));
        m.lemma_successor_when_idle(actor, &state, scene);
    }
}

/// What the physics layer is told about an enemy's velocity.
#[derive(Clone, Copy, Debug, PartialEq, Eq)]
pub enum Steering {
    /// Stand still: the velocity is exactly zero.
    Hold,
    /// Move along `(dx, dy)`, which is not the zero vector, at `speed`
    /// units per second. The caller scales the direction to unit length.
    Toward { dx: i64, dy: i64, speed: u32 },
}

/// The point a follower heads for: the target moved by the orbit offset.
pub open spec fn orbit_point(follow: Follow, target: Point) -> Point {
    target.spec_offset(follow.orbit.x, follow.orbit.y)
}

/// The steering of a follower at `enemy` whose target stands at `target`.
pub open spec fn spec_follow(follow: Follow, enemy: Point, target: Point) -> Steering {
    let goal = orbit_point(follow, target);
    if enemy.spec_closer_than(goal, FOLLOW_DEAD_ZONE) {
        Steering::Hold
    } else {
        Steering::Toward {
            dx: (goal.x - enemy.x) as i64,
            dy: (goal.y - enemy.y) as i64,
            speed: follow.speed,
        }
    }
}

/// Steers a follower at `enemy` towards its orbit point around `target`.
/// Inside the dead zone around that point it holds still, so that it does
/// not jitter on arrival.
pub fn follow(course: &Follow, enemy: Point, target: Point) -> (s: Steering)
    ensures
        s == spec_follow(*course, enemy, target),
{
    let goal = target.offset(course.orbit.x, course.orbit.y);
    if enemy.closer_than(&goal, FOLLOW_DEAD_ZONE) {
        Steering::Hold
    } else {
        Steering::Toward {
            dx: goal.x as i64 - enemy.x as i64,
            dy: goal.y as i64 - enemy.y as i64,
            speed: course.speed,
        }
    }
}

/// A follower holds exactly when it is closer than the dead zone to its
/// orbit point. Otherwise it is sent along the vector from itself to that
/// point, which then has length at least the dead zone, at its own speed.
pub proof fn lemma_follow_velocity(follow: Follow, enemy: Point, target: Point)
    ensures
        spec_follow(follow, enemy, target) is Hold <==> enemy.dist_sq(orbit_point(follow, target))
            < FOLLOW_DEAD_ZONE * FOLLOW_DEAD_ZONE,
        spec_follow(follow, enemy, target) matches Steering::Toward { dx, dy, speed } ==> {
            &&& speed == follow.speed
            &&& dx == orbit_point(follow, target).x - enemy.x
            &&& dy == orbit_point(follow, target).y - enemy.y
            &&& dx * dx + dy * dy >= FOLLOW_DEAD_ZONE * FOLLOW_DEAD_ZONE
        },
{
    let goal = orbit_point(follow, target);
    assert(enemy.dist_sq(goal) == goal.dist_sq(enemy)) by (nonlinear_arith)
        requires
            enemy.dist_sq(goal) == (enemy.x - goal.x) * (enemy.x - goal.x) + (enemy.y - goal.y) * (
            enemy.y - goal.y),
            goal.dist_sq(enemy) == (goal.x - enemy.x) * (goal.x - enemy.x) + (goal.y - enemy.y) * (
            goal.y - enemy.y),
    ;
}

/// One enemy as the core sees it.
pub struct EnemyActor {
    pub id: u64,
    pub enemy: Enemy,
    /// The follow state this enemy takes up, fixed when it was spawned.
    pub course: Follow,
    pub machine: EnemyMachine,
    pub state: Behavior,
    /// Set once the enemy was hit; it is removed on the next clean-up.
    pub dying: bool,
    /// The warning shape attached to the enemy while it winds up.
    pub cone: Option<u64>,
}

impl EnemyActor {
    /// The timers of the enemy's state are well formed.
    pub open spec fn wf(&self) -> bool {
        self.state.wf()
    }

    /// The velocity order for this tick, if the enemy's mode gives one:
    /// idle enemies hold, followers head for their orbit point. A follower
    /// whose own or whose target's position is unknown gets no order.
    pub open spec fn spec_steer(&self, scene: &Snapshot) -> Option<Steering> {
        match self.state {
            Behavior::Idle => Some(Steering::Hold),
            Behavior::Follow(f) => match (scene.position_of(self.id), scene.position_of(f.target)) {
                (Some(e), Some(t)) => Some(spec_follow(f, e, t)),
                _ => None,
            },
            _ => None,
        }
    }

    /// Gives the velocity order for this tick; see `spec_steer`.
    pub fn steer(&self, scene: &Snapshot) -> (s: Option<Steering>)
        ensures
            s == self.spec_steer(scene),
    {
        match self.state {
            Behavior::Idle => Some(Steering::Hold),
            Behavior::Follow(f) => match (scene.position(self.id), scene.position(f.target)) {
                (Some(e), Some(t)) => Some(follow(&f, e, t)),
                _ => None,
            },
            _ => None,
        }
    }

    /// Runs the enemy's automaton for one tick and hands out the effects of
    /// the hooks that ran. The enemy always ends the tick in exactly one
    /// state: the successor that its rules give.
    pub fn advance(&mut self, scene: &Snapshot) -> (effects: Vec<AnimationIndices>)
        ensures
            *final(self) == (EnemyActor {
                state: old(self).machine.successor(old(self).id, &old(self).state, scene),
                ..*old(self)
            }),
            effects@ == if old(self).machine.idle(old(self).id, &old(self).state, scene) {
                Seq::empty()
            } else {
                old(self).machine.effects_of(old(self).state.tag(), final(self).state.tag())
            },
    {
        match self.machine.tick(self.id, &self.state, scene) {
            Some(t) => {
                proof {
                    if self.machine.idle(self.id, &self.state, scene) {
                        assert(self.machine.specific_hit(
                            t.rule as int,
                            self.id,
                            &self.state,
                            scene,
                        ) || self.machine.wildcard_hit(
                            t.rule as int,
                            self.id,
                            &self.state,
                            scene,
                        ));
                    }
                }
                self.state = t.state;
                t.effects
            },
            None => Vec::new(),
        }
    }
}

/// An order to show the warning shape of a charging enemy.
#[derive(Clone, Copy, Debug, PartialEq, Eq)]
pub struct WarningShape {
    pub owner: u64,
    pub entity: u64,
    pub range: u32,
}

/// The sensor volume of a delivered strike. It hits the player's collision
/// group and lives for a fixed time whether or not it touches anything.
#[derive(Clone, Copy, Debug, PartialEq, Eq)]
pub struct Strike {
    pub entity: u64,
    pub owner: u64,
    pub radius: u32,
    pub groups: CollisionGroups,
    pub timer: DespawnTimer,
}

/// The groups of a strike volume: it is an attack and reacts to the player.
pub open spec fn strike_groups() -> CollisionGroups {
    CollisionGroups { memberships: ATTACK_GROUP, filters: PLAYER_GROUP }
}

/// The groups of an enemy: it reacts to the hit volumes of drawn attacks.
pub open spec fn enemy_groups() -> CollisionGroups {
    CollisionGroups { memberships: ENEMY_GROUP, filters: ATTACK_TRAIL_GROUP }
}

/// An order to swap an enemy's warning shape for the strike itself.
#[derive(Clone, Copy, Debug, PartialEq, Eq)]
pub struct Delivery {
    /// The warning shape to remove.
    pub cone: u64,
    /// The strike volume to create as a child of the enemy.
    pub strike: Strike,
}

impl Behavior {
    /// The state after `delta` more nanoseconds on the charge timer.
    pub open spec fn charge_ticked(self, delta: u64) -> Behavior {
        match self {
            Behavior::Charging(c) => Behavior::Charging(
                Charging { timer: c.timer.ticked(delta), ..c },
            ),
            _ => self,
        }
    }

    /// The state after `delta` more nanoseconds on the ready timer.
    pub open spec fn ready_ticked(self, delta: u64) -> Behavior {
        match self {
            Behavior::Ready(r) => Behavior::Ready(Ready { timer: r.timer.ticked(delta), ..r }),
            _ => self,
        }
    }

    /// The state after `delta` more nanoseconds on the delivery timer.
    pub open spec fn delivery_ticked(self, delta: u64) -> Behavior {
        match self {
            Behavior::Delivering(d) => Behavior::Delivering(
                Delivering { timer: d.timer.ticked(delta) },
            ),
            _ => self,
        }
    }

    /// The strike notice that a tick of `delta` on the ready timer raises:
    /// one, carrying the radius fixed at entry, on the tick the timer runs
    /// out, and none on any other tick.
    pub open spec fn delivering_event(self, actor: u64, delta: u64) -> Option<DeliveringEvent> {
        match self {
            Behavior::Ready(r) => if r.timer.ticked(delta).just_finished {
                Some(DeliveringEvent(actor, r.radius))
            } else {
                None
            },
            _ => None,
        }
    }
}

impl EnemyActor {
    /// What `charge` orders: a warning shape `entity` of the charge range,
    /// once per charge, for an enemy that has none yet.
    pub open spec fn charge_order(&self, entity: u64) -> Option<WarningShape> {
        match self.state {
            Behavior::Charging(c) => if c.attack_entity is None {
                Some(WarningShape { owner: self.id, entity, range: c.range })
            } else {
                None
            },
            _ => None,
        }
    }

    /// The enemy after `charge`: where a warning shape is ordered, the
    /// enemy remembers it, in its state and among its children.
    pub open spec fn charged(self, entity: u64) -> EnemyActor {
        match self.state {
            Behavior::Charging(c) => if c.attack_entity is None {
                EnemyActor {
                    state: Behavior::Charging(Charging { attack_entity: Some(entity), ..c }),
                    cone: Some(entity),
                    ..self
                }
            } else {
                self
            },
            _ => self,
        }
    }

    /// Starts the wind-up of an enemy that has just begun to charge: it is
    /// told to stand still and gets a warning shape, which will carry the id
    /// `entity`. An enemy that already has its shape, or is not charging, is
    /// left alone and `entity` stays unused.
    pub fn charge(&mut self, entity: u64) -> (order: Option<WarningShape>)
        ensures
            order == old(self).charge_order(entity),
            *final(self) == old(self).charged(entity),
    {
        match self.state {
            Behavior::Charging(c) => {
                if c.attack_entity.is_some() {
                    return None;
                }
                self.state = Behavior::Charging(
                    Charging { attack_entity: Some(entity), timer: c.timer, range: c.range },
                );
                self.cone = Some(entity);
                Some(WarningShape { owner: self.id, entity, range: c.range })
            },
            _ => None,
        }
    }

    /// Advances the charge timer of a charging enemy.
    pub fn tick_charge_timer(&mut self, delta: u64)
        requires
            old(self).wf(),
        ensures
            *final(self) == (EnemyActor {
                state: old(self).state.charge_ticked(delta),
                ..*old(self)
            }),
            final(self).wf(),
    {
        match self.state {
            Behavior::Charging(c) => {
                let mut timer = c.timer;
                timer.tick(delta);
                self.state = Behavior::Charging(
                    Charging { attack_entity: c.attack_entity, timer, range: c.range },
                );
            },
            _ => {},
        }
    }

    /// Advances the ready timer and, on the tick it runs out, raises the
    /// notice that the strike starts.
    pub fn tick_ready_timer(&mut self, delta: u64) -> (event: Option<DeliveringEvent>)
        requires
            old(self).wf(),
        ensures
            *final(self) == (EnemyActor {
                state: old(self).state.ready_ticked(delta),
                ..*old(self)
            }),
            event == old(self).state.delivering_event(old(self).id, delta),
            final(self).wf(),
    {
        match self.state {
            Behavior::Ready(r) => {
                let mut timer = r.timer;
                timer.tick(delta);
                self.state = Behavior::Ready(Ready { timer, radius: r.radius });
                if timer.just_finished() {
                    Some(DeliveringEvent(self.id, r.radius))
                } else {
                    None
                }
            },
            _ => None,
        }
    }

    /// Advances the delivery timer of a delivering enemy.
    pub fn tick_delivery_timer(&mut self, delta: u64)
        requires
            old(self).wf(),
        ensures
            *final(self) == (EnemyActor {
                state: old(self).state.delivery_ticked(delta),
                ..*old(self)
            }),
            final(self).wf(),
    {
        match self.state {
            Behavior::Delivering(d) => {
                let mut timer = d.timer;
                timer.tick(delta);
                self.state = Behavior::Delivering(Delivering { timer });
            },
            _ => {},
        }
    }

    /// What a strike notice orders for this enemy: nothing unless the notice
    /// names this enemy and the enemy carries a warning shape; else the
    /// removal of that shape and one strike volume `entity` of the radius in
    /// the notice, with a fresh timer of the delivery time.
    pub open spec fn delivery_for(&self, event: DeliveringEvent, entity: u64) -> Option<Delivery> {
        match self.cone {
            Some(cone) => if event.0 == self.id {
                Some(
                    Delivery {
                        cone,
                        strike: Strike {
                            entity,
                            owner: self.id,
                            radius: event.1,
                            groups: strike_groups(),
                            timer: DespawnTimer(Timer::fresh(ENEMY_DELIVER_TIME)),
                        },
                    },
                )
            } else {
                None
            },
            None => None,
        }
    }

    /// Acts on a strike notice. See `delivery_for`.
    pub fn handle_delivering_event(&mut self, event: DeliveringEvent, entity: u64) -> (order: Option<
        Delivery,
    >)
        ensures
            order == old(self).delivery_for(event, entity),
            *final(self) == (EnemyActor {
                cone: if order is Some {
                    None
                } else {
                    old(self).cone
                },
                ..*old(self)
            }),
    {
        if event.0 != self.id {
            return None;
        }
        match self.cone {
            Some(cone) => {
                self.cone = None;
                Some(
                    Delivery {
                        cone,
                        strike: Strike {
                            entity,
                            owner: self.id,
                            radius: event.1,
                            groups: CollisionGroups {
                                memberships: ATTACK_GROUP,
                                filters: PLAYER_GROUP,
                            },
                            timer: DespawnTimer(Timer::new(ENEMY_DELIVER_TIME)),
                        },
                    },
                )
            },
            None => None,
        }
    }
}

/// The vector from a warning shape at `cone` to `player`; the shape is
/// turned to point along it on every tick while its owner winds up.
pub fn orient_towards_player(cone: Point, player: Point) -> (aim: (i64, i64))
    ensures
        aim.0 == player.x - cone.x,
        aim.1 == player.y - cone.y,
{
    (player.x as i64 - cone.x as i64, player.y as i64 - cone.y as i64)
}

impl Strike {
    /// The strike after `delta` more nanoseconds.
    pub open spec fn ticked(self, delta: u64) -> Strike {
        Strike { timer: DespawnTimer(self.timer.0.ticked(delta)), ..self }
    }

    /// The strike's time runs out on a tick of `delta`.
    pub open spec fn expires(self, delta: u64) -> bool {
        self.timer.0.ticked(delta).just_finished
    }
}

/// Of the first `n` strikes, those still alive after a tick of `delta`,
/// each with its timer advanced, in their old order.
pub open spec fn lasting(strikes: Seq<Strike>, delta: u64, n: int) -> Seq<Strike>
    decreases n,
{
    if n <= 0 {
        Seq::empty()
    } else if strikes[n - 1].expires(delta) {
        lasting(strikes, delta, n - 1)
    } else {
        lasting(strikes, delta, n - 1).push(strikes[n - 1].ticked(delta))
    }
}

/// Of the first `n` strikes, the entities of those whose time runs out on
/// a tick of `delta`, in their old order.
pub open spec fn expired(strikes: Seq<Strike>, delta: u64, n: int) -> Seq<u64>
    decreases n,
{
    if n <= 0 {
        Seq::empty()
    } else if strikes[n - 1].expires(delta) {
        expired(strikes, delta, n - 1).push(strikes[n - 1].entity)
    } else {
        expired(strikes, delta, n - 1)
    }
}

/// The timer of every strike volume is well formed.
pub open spec fn strikes_wf(strikes: Seq<Strike>) -> bool {
    forall|i: int| 0 <= i < strikes.len() ==> (#[trigger] strikes[i]).timer.0.wf()
}

/// Advances the timer of every strike volume and drops the volumes whose
/// time has run out, whether or not they ever touched the player. Returns
/// the entities to remove from the scene.
pub fn tick_despawn_timer(strikes: &mut Vec<Strike>, delta: u64) -> (gone: Vec<u64>)
    requires
        strikes_wf(old(strikes)@),
    ensures
        final(strikes)@ == lasting(old(strikes)@, delta, old(strikes)@.len() as int),
        gone@ == expired(old(strikes)@, delta, old(strikes)@.len() as int),
        strikes_wf(final(strikes)@),
{
    let mut kept: Vec<Strike> = Vec::new();
    let mut gone: Vec<u64> = Vec::new();
    let mut i: usize = 0;
    while i < strikes.len()
        invariant
            i <= strikes@.len(),
            strikes@ == old(strikes)@,
            strikes_wf(strikes@),
            strikes_wf(kept@),
            kept@ == lasting(strikes@, delta, i as int),
            gone@ == expired(strikes@, delta, i as int),
        decreases strikes@.len() - i,
    {
        let strike = strikes[i];
        let mut timer = strike.timer.0;
        timer.tick(delta);
        if timer.just_finished() {
            gone.push(strike.entity);
        } else {
            kept.push(
                Strike {
                    entity: strike.entity,
                    owner: strike.owner,
                    radius: strike.radius,
                    groups: strike.groups,
                    timer: DespawnTimer(timer),
                },
            );
        }
        i += 1;
    }
    *strikes = kept;
    gone
}

/// A dead enemy's parting effect.
#[derive(Clone, Copy, Debug, PartialEq, Eq)]
pub struct Death {
    pub entity: u64,
    pub variant: EnemyVariant,
    /// Where the enemy stood, if the snapshot knows.
    pub at: Option<Point>,
    /// How long the effect stays.
    pub linger: DespawnTimer,
}

/// The parting effect of `enemy`.
pub open spec fn death_of(enemy: &EnemyActor, scene: &Snapshot) -> Death {
    Death {
        entity: enemy.id,
        variant: enemy.enemy.variant,
        at: scene.position_of(enemy.id),
        linger: DespawnTimer(Timer::fresh(DEATH_EFFECT_TIME)),
    }
}

/// Of the first `n` enemies, those not marked as dying, in their old order.
pub open spec fn alive(enemies: Seq<EnemyActor>, n: int) -> Seq<EnemyActor>
    decreases n,
{
    if n <= 0 {
        Seq::empty()
    } else if enemies[n - 1].dying {
        alive(enemies, n - 1)
    } else {
        alive(enemies, n - 1).push(enemies[n - 1])
    }
}

/// Of the first `n` enemies, the parting effects of those marked as dying.
pub open spec fn deaths(enemies: Seq<EnemyActor>, scene: &Snapshot, n: int) -> Seq<Death>
    decreases n,
{
    if n <= 0 {
        Seq::empty()
    } else if enemies[n - 1].dying {
        deaths(enemies, scene, n - 1).push(death_of(&enemies[n - 1], scene))
    } else {
        deaths(enemies, scene, n - 1)
    }
}

/// Every enemy that survives the clean-up was there before it, unchanged.
pub proof fn lemma_alive_keeps(enemies: Seq<EnemyActor>, n: int)
    requires
        0 <= n <= enemies.len(),
        forall|j: int| 0 <= j < enemies.len() ==> (#[trigger] enemies[j]).inv(),
    ensures
        alive(enemies, n).len() <= n,
        forall|i: int| 0 <= i < alive(enemies, n).len() ==> (#[trigger] alive(enemies, n)[i]).inv(),
    decreases n,
{
    if n > 0 {
        lemma_alive_keeps(enemies, n - 1);
    }
}

/// Removes every enemy that was marked as dying on an earlier pass and
/// orders one parting effect for each, at the place it last stood.
pub fn despawn_died_enemies(enemies: &mut Vec<EnemyActor>, scene: &Snapshot) -> (out: Vec<Death>)
    ensures
        final(enemies)@ == alive(old(enemies)@, old(enemies)@.len() as int),
        out@ == deaths(old(enemies)@, scene, old(enemies)@.len() as int),
{
    let mut out: Vec<Death> = Vec::new();
    let mut i: usize = 0;
    let ghost mut seen: int = 0;
    while i < enemies.len()
        invariant
            0 <= seen <= old(enemies)@.len(),
            i <= enemies@.len(),
            i == alive(old(enemies)@, seen).len(),
            enemies@ =~= alive(old(enemies)@, seen) + old(enemies)@.subrange(
                seen,
                old(enemies)@.len() as int,
            ),
            out@ == deaths(old(enemies)@, scene, seen),
        decreases enemies@.len() - i,
    {
        assert(enemies@[i as int] == old(enemies)@[seen]);
        if enemies[i].dying {
            let dead = enemies.remove(i);
            out.push(
                Death {
                    entity: dead.id,
                    variant: dead.enemy.variant,
                    at: scene.position(dead.id),
                    linger: DespawnTimer(Timer::new(DEATH_EFFECT_TIME)),
                },
            );
        } else {
            i += 1;
        }
        proof {
            seen = seen + 1;
        }
    }
    assert(seen == old(enemies)@.len());
    out
}

/// The random part of a new enemy, drawn once at spawn.
#[derive(Clone, Copy, Debug, PartialEq, Eq)]
pub struct SpawnRoll {
    /// Where the enemy appears, relative to the player.
    pub offset: Point,
    /// The orbit offset it keeps from the player while following.
    pub orbit: Point,
}

/// A newly made enemy and the place to put it.
pub struct Spawn {
    pub actor: EnemyActor,
    pub position: Point,
    pub groups: CollisionGroups,
}

/// A player as far as spawning needs to know it.
#[derive(Clone, Copy, Debug, PartialEq, Eq)]
pub struct Quarry {
    pub entity: u64,
    pub position: Point,
}

/// Whether one more enemy is to be made: only while fewer than the cap are
/// alive, and only if there is a player to hunt.
pub open spec fn spawn_due(population: usize, player: Option<Quarry>) -> bool {
    population < BASE_ENEMIES && player is Some
}

/// Makes the enemy `enemy` under the id `entity`, idle, with the graph of a
/// hunter of `player` that follows at `speed`, placed at the rolled offset
/// from the player.
pub fn spawn_enemy_as(
    enemy: Enemy,
    speed: u32,
    entity: u64,
    player: Quarry,
    roll: SpawnRoll,
) -> (s: Spawn)
    ensures
        s.position == player.position.spec_offset(roll.offset.x, roll.offset.y),
        s.groups == enemy_groups(),
        s.actor.id == entity,
        s.actor.enemy == enemy,
        s.actor.course == (Follow { target: player.entity, speed, orbit: roll.orbit }),
        s.actor.inv(),
        s.actor.state == Behavior::Idle,
        !s.actor.dying,
        s.actor.cone is None,
        s.actor.machine.rules@ == enemy_rules(
            player.entity,
            Follow { target: player.entity, speed, orbit: roll.orbit },
            enemy.attack_range,
        ),
        s.actor.machine.hooks@ == enemy_hooks(),
{
    let course = Follow { target: player.entity, speed, orbit: roll.orbit };
    let machine = enemy_machine(player.entity, course, enemy.attack_range);
    Spawn {
        actor: EnemyActor {
            id: entity,
            enemy,
            course,
            machine,
            state: Behavior::Idle,
            dying: false,
            cone: None,
        },
        position: player.position.offset(roll.offset.x, roll.offset.y),
        groups: CollisionGroups { memberships: ENEMY_GROUP, filters: ATTACK_TRAIL_GROUP },
    }
}

/// Tops the enemy population up by one. Nothing is made once `population`
/// has reached the cap or while there is no player. The look of the new
/// enemy and the speed at which it follows are drawn at random; all else
/// is fixed by the arguments.
pub fn spawn_enemy(population: usize, player: Option<Quarry>, entity: u64, roll: SpawnRoll) -> (r:
    Option<Spawn>)
    ensures
        r is Some <==> spawn_due(population, player),
        r matches Some(s) ==> {
            &&& s.position == player->0.position.spec_offset(roll.offset.x, roll.offset.y)
            &&& s.groups == enemy_groups()
            &&& s.actor.id == entity
            &&& s.actor.enemy.attack_range == ENEMY_CHARGING_RANGE
            &&& (s.actor.enemy.variant == EnemyVariant::Aqua || s.actor.enemy.variant
                == EnemyVariant::Red)
            &&& s.actor.state == Behavior::Idle
            &&& !s.actor.dying
            &&& s.actor.cone is None
            &&& s.actor.inv()
            &&& s.actor.course.target == player->0.entity
            &&& s.actor.course.orbit == roll.orbit
            &&& ENEMY_MIN_SPEED <= s.actor.course.speed < ENEMY_MAX_SPEED
            &&& s.actor.machine.rules@ == enemy_rules(
                player->0.entity,
                s.actor.course,
                ENEMY_CHARGING_RANGE,
            )
            &&& s.actor.machine.hooks@ == enemy_hooks()
        },
{
    if population >= BASE_ENEMIES {
        return None;
    }
    match player {
        Some(quarry) => {
            let speed: u32 = roll_between(ENEMY_MIN_SPEED as u64, ENEMY_MAX_SPEED as u64) as u32;
            Some(spawn_enemy_as(Enemy::default(), speed, entity, quarry, roll))
        },
        None => None,
    }
}

/// A ready enemy raises its strike notice on the tick its ready timer runs
/// out, with the radius it took on entering the state, and on no tick after
/// that: once the timer has finished it stays finished and silent.
pub proof fn lemma_notice_on_expiry(r: Ready, actor: u64, delta: u64)
    requires
        r.timer.wf(),
    ensures
        Behavior::Ready(r).delivering_event(actor, delta) is Some <==> !r.timer.finished
            && r.timer.elapsed + delta >= r.timer.duration,
        Behavior::Ready(r).delivering_event(actor, delta) matches Some(e) ==> e == DeliveringEvent(
            actor,
            r.radius,
        ),
        r.timer.finished ==> Behavior::Ready(r).ready_ticked(delta) == Behavior::Ready(
            Ready { timer: Timer { just_finished: false, ..r.timer }, ..r },
        ),
{
}

/// A strike volume is removed after the delivery time and not before. If
/// the ticks it has lived through, `lived`, add up to less than the delivery
/// time, it is still there; the tick of `delta` that brings the sum to the
/// delivery time or beyond removes it. Nothing else is asked: a volume that
/// never touched the player goes just the same.
pub proof fn lemma_strike_removed_on_time(strike: Strike, lived: Seq<u64>, delta: u64)
    requires
        strike.timer.0 == Timer::fresh(ENEMY_DELIVER_TIME).after(lived),
        crate::timer::total(lived) < ENEMY_DELIVER_TIME,
    ensures
        !strike.timer.0.finished,
        strike.expires(delta) <==> crate::timer::total(lived) + delta >= ENEMY_DELIVER_TIME,
        strike.expires(delta) ==> {
            &&& lasting(seq![strike], delta, 1) == Seq::<Strike>::empty()
            &&& expired(seq![strike], delta, 1) == seq![strike.entity]
        },
        !strike.expires(delta) ==> {
            &&& lasting(seq![strike], delta, 1) == seq![strike.ticked(delta)]
            &&& expired(seq![strike], delta, 1) == Seq::<u64>::empty()
        },
{
    Timer::lemma_finished_iff_elapsed(ENEMY_DELIVER_TIME, lived);
    let one = seq![strike];
    assert(lasting(one, delta, 0) == Seq::<Strike>::empty());
    assert(expired(one, delta, 0) == Seq::<u64>::empty());
    assert(one[0] == strike);
    if strike.expires(delta) {
        assert(expired(one, delta, 1) =~= seq![strike.entity]);
    } else {
        assert(lasting(one, delta, 1) =~= seq![strike.ticked(delta)]);
    }
}

/// A contact reported by the physics layer.
#[derive(Clone, Copy, Debug, PartialEq, Eq)]
pub enum CollisionEvent {
    /// Two colliders began to touch; `sensor` tells whether one of them
    /// is a sensor volume.
    Started { first: u64, second: u64, sensor: bool },
    /// Two colliders ceased to touch.
    Stopped { first: u64, second: u64, sensor: bool },
}

impl CollisionEvent {
    /// A sensor volume began to touch the player.
    pub open spec fn lethal(self, player: u64) -> bool {
        match self {
            CollisionEvent::Started { first, second, sensor } => sensor && (first == player
                || second == player),
            CollisionEvent::Stopped { .. } => false,
        }
    }
}

/// Some of the first `n` events is lethal for `player`.
pub open spec fn any_lethal(events: Seq<CollisionEvent>, player: u64, n: int) -> bool
    decreases n,
{
    if n <= 0 {
        false
    } else {
        any_lethal(events, player, n - 1) || events[n - 1].lethal(player)
    }
}

/// Goes through the contacts of this tick and tells the arbiter of every
/// strike volume that touched the player. Returns whether the game is to
/// end now. Without a player nothing happens.
pub fn check_for_collisions(
    events: &Vec<CollisionEvent>,
    player: Option<u64>,
    arbiter: &mut GameOverTrigger,
) -> (game_over: bool)
    ensures
        player is None ==> !game_over && *final(arbiter) == *old(arbiter),
        player matches Some(p) ==> {
            &&& final(arbiter).fired == (old(arbiter).fired || any_lethal(
                events@,
                p,
                events@.len() as int,
            ))
            &&& game_over == (!old(arbiter).fired && any_lethal(events@, p, events@.len() as int))
        },
{
    let p = match player {
        Some(p) => p,
        None => {
            return false;
        },
    };
    let mut game_over: bool = false;
    let mut i: usize = 0;
    while i < events.len()
        invariant
            i <= events@.len(),
            arbiter.fired == (old(arbiter).fired || any_lethal(events@, p, i as int)),
            game_over == (!old(arbiter).fired && any_lethal(events@, p, i as int)),
        decreases events@.len() - i,
    {
        let lethal = match events[i] {
            CollisionEvent::Started { first, second, sensor } => sensor && (first == p || second
                == p),
            CollisionEvent::Stopped { .. } => false,
        };
        if arbiter.report(lethal) {
            game_over = true;
        }
        i += 1;
    }
    game_over
}

/// All that one tick did to one enemy, for the caller to carry out.
pub struct EnemyTick {
    /// The enemy that the orders are for.
    pub entity: u64,
    /// The animation ranges of the modes entered on this tick.
    pub animations: Vec<AnimationIndices>,
    /// The velocity order, if the enemy's mode gives one.
    pub steering: Option<Steering>,
    /// The warning shape to show, if a wind-up began.
    pub warning: Option<WarningShape>,
    /// The strike notice raised on this tick.
    pub event: Option<DeliveringEvent>,
    /// What that notice led to.
    pub delivery: Option<Delivery>,
}

impl EnemyActor {
    /// What holds of an enemy between ticks. Its automaton is the enemy
    /// graph for its own target, course and reach; its timers are well
    /// formed; and it carries a warning shape exactly while it winds up:
    /// all through charging, and in the ready state until the strike.
    pub open spec fn inv(&self) -> bool {
        &&& self.state.wf()
        &&& self.machine.rules@ == enemy_rules(
            self.course.target,
            self.course,
            self.enemy.attack_range,
        )
        &&& self.machine.hooks@ == enemy_hooks()
        &&& match self.state {
            Behavior::Idle => self.cone is None,
            Behavior::Follow(f) => self.cone is None && f == self.course,
            Behavior::Charging(c) => self.cone is Some && c.attack_entity == self.cone,
            Behavior::Ready(r) => (self.cone is Some) == !r.timer.finished,
            Behavior::Delivering(_) => self.cone is None,
        }
    }

    /// The enemy after its automaton ran.
    pub open spec fn advanced(self, scene: &Snapshot) -> EnemyActor {
        EnemyActor {
            state: enemy_successor(
                self.course.target,
                self.course,
                self.enemy.attack_range,
                self.id,
                self.state,
                scene,
            ),
            ..self
        }
    }

    /// The enemy after all its timers were advanced by `delta`.
    pub open spec fn timed(self, delta: u64) -> EnemyActor {
        EnemyActor {
            state: self.state.charge_ticked(delta).ready_ticked(delta).delivery_ticked(delta),
            ..self
        }
    }

    /// The strike notice that this tick raises.
    pub open spec fn tick_event(self, scene: &Snapshot, delta: u64, cone: u64) -> Option<
        DeliveringEvent,
    > {
        self.advanced(scene).charged(cone).state.delivering_event(self.id, delta)
    }

    /// What this tick's strike notice leads to.
    pub open spec fn tick_delivery(self, scene: &Snapshot, delta: u64, cone: u64, strike: u64)
        -> Option<Delivery> {
        match self.tick_event(scene, delta, cone) {
            Some(event) => self.advanced(scene).charged(cone).timed(delta).delivery_for(
                event,
                strike,
            ),
            None => None,
        }
    }

    /// The enemy after one whole tick: the automaton runs, a wind-up that
    /// began gets its warning shape, the timers advance, and a strike notice
    /// raised by the ready timer is acted on at once.
    pub open spec fn after_tick(self, scene: &Snapshot, delta: u64, cone: u64, strike: u64)
        -> EnemyActor {
        let timed = self.advanced(scene).charged(cone).timed(delta);
        EnemyActor {
            cone: if self.tick_delivery(scene, delta, cone, strike) is Some {
                None
            } else {
                timed.cone
            },
            ..timed
        }
    }

    /// The velocity order of this tick: that of the mode the enemy is in
    /// after its automaton ran, and a hold for an enemy that begins to wind
    /// up.
    pub open spec fn tick_steering(self, scene: &Snapshot, cone: u64) -> Option<Steering> {
        match self.advanced(scene).spec_steer(scene) {
            Some(s) => Some(s),
            None => if self.advanced(scene).charge_order(cone) is Some {
                Some(Steering::Hold)
            } else {
                None
            },
        }
    }

    /// Runs one tick for this enemy, in the order that the core fixes:
    /// state transition, steering, wind-up, timers, strike. `cone` and
    /// `strike` are the ids that a warning shape and a strike volume will
    /// carry if this tick makes them.
    pub fn tick(&mut self, scene: &Snapshot, delta: u64, cone: u64, strike: u64) -> (r: EnemyTick)
        requires
            old(self).inv(),
        ensures
            final(self).inv(),
            *final(self) == old(self).after_tick(scene, delta, cone, strike),
            r.entity == old(self).id,
            r.animations@ == if old(self).advanced(scene).state == old(self).state {
                Seq::empty()
            } else {
                old(self).machine.effects_of(
                    old(self).state.tag(),
                    old(self).advanced(scene).state.tag(),
                )
            },
            r.steering == old(self).tick_steering(scene, cone),
            r.warning == old(self).advanced(scene).charge_order(cone),
            r.event == old(self).tick_event(scene, delta, cone),
            r.delivery == old(self).tick_delivery(scene, delta, cone, strike),
    {
        proof {
            lemma_enemy_graph(
                &self.machine,
                self.course.target,
                self.course,
                self.enemy.attack_range,
                self.id,
                self.state,
                scene,
            );
            lemma_idle_keeps_state(
                &self.machine,
                self.course.target,
                self.course,
                self.enemy.attack_range,
                self.id,
                self.state,
                scene,
            );
        }
        let animations = self.advance(scene);
        let steered = self.steer(scene);
        let warning = self.charge(cone);
        let steering = match steered {
            Some(s) => Some(s),
            None => if warning.is_some() {
                Some(Steering::Hold)
            } else {
                None
            },
        };
        self.tick_charge_timer(delta);
        let event = self.tick_ready_timer(delta);
        self.tick_delivery_timer(delta);
        let delivery = match event {
            Some(e) => self.handle_delivering_event(e, strike),
            None => None,
        };
        EnemyTick { entity: self.id, animations, steering, warning, event, delivery }
    }
}

/// In the enemy graph every rule leads to another state than the one it
/// starts from, so the state stays the same exactly when no rule applies.
pub proof fn lemma_idle_keeps_state(
    m: &EnemyMachine,
    player: u64,
    follow: Follow,
    attack_range: u32,
    actor: u64,
    state: Behavior,
    scene: &Snapshot,
)
    requires
        m.rules@ == enemy_rules(player, follow, attack_range),
    ensures
        m.idle(actor, &state, scene) <==> m.successor(actor, &state, scene) == state,
{
    lemma_enemy_graph(m, player, follow, attack_range, actor, state, scene);
    let rules = enemy_rules(player, follow, attack_range);
    assert(rules.len() == 7);
    if m.idle(actor, &state, scene) {
        m.lemma_successor_when_idle(actor, &state, scene);
    } else {
        let j = choose|j: int|
            m.specific_hit(j, actor, &state, scene) || m.wildcard_hit(j, actor, &state, scene);
        assert(0 <= j < 7);
        assert(rules[j] == m.rules@[j]);
        assert(m.specific_hit(j, actor, &state, scene));
        assert(enemy_successor(player, follow, attack_range, actor, state, scene) != state);
    }
}

/// Within a tick a strike volume is made exactly when the enemy, after its
/// automaton ran, is ready and its ready timer runs out on this tick. The
/// volume then has the radius the enemy took on becoming ready and the
/// whole delivery time to live, and it takes the place of the warning
/// shape. Since the ready timer runs out once, one attack makes one volume.
pub proof fn lemma_strike_when_ready_runs_out(
    actor: EnemyActor,
    scene: &Snapshot,
    delta: u64,
    cone: u64,
    strike: u64,
)
    requires
        actor.inv(),
    ensures
        actor.tick_delivery(scene, delta, cone, strike) is Some <==> (actor.advanced(
            scene,
        ).state matches Behavior::Ready(r) && !r.timer.finished && r.timer.elapsed + delta
            >= r.timer.duration),
        actor.tick_delivery(scene, delta, cone, strike) matches Some(d) ==> {
            &&& actor.advanced(scene).state matches Behavior::Ready(r)
            &&& d.strike == (Strike {
                entity: strike,
                owner: actor.id,
                radius: r.radius,
                groups: strike_groups(),
                timer: DespawnTimer(Timer::fresh(ENEMY_DELIVER_TIME)),
            })
            &&& Some(d.cone) == actor.cone
            &&& actor.after_tick(scene, delta, cone, strike).cone is None
        },
        actor.after_tick(scene, delta, cone, strike).inv(),
{
}

/// Whether `m` holds the enemy graph of a hunter of `player` with the
/// given follow state and reach, and the enemy hooks.
pub fn holds_enemy_graph(m: &EnemyMachine, player: u64, course: Follow, attack_range: u32) -> (ok:
    bool)
    ensures
        ok == (m.rules@ == enemy_rules(player, course, attack_range) && m.hooks@ == enemy_hooks()),
{
    let model = enemy_machine(player, course, attack_range);
    if m.rules.len() != model.rules.len() || m.hooks.len() != model.hooks.len() {
        return false;
    }
    let mut i: usize = 0;
    while i < m.rules.len()
        invariant
            i <= m.rules@.len(),
            m.rules@.len() == model.rules@.len(),
            model.rules@ == enemy_rules(player, course, attack_range),
            forall|j: int| 0 <= j < i ==> m.rules@[j] == model.rules@[j],
        decreases m.rules@.len() - i,
    {
        let mine = &m.rules[i];
        let theirs = &model.rules[i];
        if !(mine.from == theirs.from && mine.trigger == theirs.trigger && mine.to == theirs.to) {
            assert(m.rules@[i as int] != model.rules@[i as int]);
            return false;
        }
        i += 1;
    }
    assert(m.rules@ =~= model.rules@);
    let mut k: usize = 0;
    while k < m.hooks.len()
        invariant
            k <= m.hooks@.len(),
            m.hooks@.len() == model.hooks@.len(),
            model.hooks@ == enemy_hooks(),
            m.rules@ == model.rules@,
            forall|j: int| 0 <= j < k ==> m.hooks@[j] == model.hooks@[j],
        decreases m.hooks@.len() - k,
    {
        let mine = &m.hooks[k];
        let theirs = &model.hooks[k];
        if !(mine.tag == theirs.tag && mine.edge == theirs.edge && mine.effect == theirs.effect) {
            assert(m.hooks@[k as int] != model.hooks@[k as int]);
            return false;
        }
        k += 1;
    }
    assert(m.hooks@ =~= model.hooks@);
    true
}

impl Behavior {
    /// Whether every timer inside the state is well formed.
    pub fn check(&self) -> (ok: bool)
        ensures
            ok == self.wf(),
    {
        match self {
            Behavior::Idle => true,
            Behavior::Follow(_) => true,
            Behavior::Charging(c) => c.timer.check(),
            Behavior::Ready(r) => r.timer.check(),
            Behavior::Delivering(d) => d.timer.check(),
        }
    }
}

impl EnemyActor {
    /// Whether the enemy is in the shape that a tick asks for. An enemy
    /// made and changed by this module alone always is.
    pub fn check(&self) -> (ok: bool)
        ensures
            ok == self.inv(),
    {
        if !self.state.check() {
            return false;
        }
        if !holds_enemy_graph(&self.machine, self.course.target, self.course, self.enemy.attack_range) {
            return false;
        }
        match self.state {
            Behavior::Idle => self.cone.is_none(),
            Behavior::Follow(f) => self.cone.is_none() && f == self.course,
            Behavior::Charging(c) => self.cone.is_some() && c.attack_entity == self.cone,
            Behavior::Ready(r) => self.cone.is_some() == !r.timer.finished(),
            Behavior::Delivering(_) => self.cone.is_none(),
        }
    }
}

/// Whether the timer of every strike volume is well formed.
pub fn check_strikes(strikes: &Vec<Strike>) -> (ok: bool)
    ensures
        ok == strikes_wf(strikes@),
{
    let mut i: usize = 0;
    while i < strikes.len()
        invariant
            i <= strikes@.len(),
            forall|j: int| 0 <= j < i ==> (#[trigger] strikes@[j]).timer.0.wf(),
        decreases strikes@.len() - i,
    {
        if !strikes[i].timer.0.check() {
            return false;
        }
        i += 1;
    }
    true
}

/// The inputs of one tick of one enemy.
pub struct Step {
    pub scene: Snapshot,
    pub delta: u64,
    /// The id at hand for a warning shape.
    pub cone: u64,
    /// The id at hand for a strike volume.
    pub strike: u64,
}

impl EnemyActor {
    /// The enemy after the first `n` of `steps`.
    pub open spec fn run(self, steps: Seq<Step>, n: int) -> EnemyActor
        decreases n,
    {
        if n <= 0 {
            self
        } else {
            let step = steps[n - 1];
            self.run(steps, n - 1).after_tick(&step.scene, step.delta, step.cone, step.strike)
        }
    }

    /// How many warning shapes the enemy is given over the first `n` of
    /// `steps`, that is, how many attacks it begins.
    pub open spec fn attacks_begun(self, steps: Seq<Step>, n: int) -> nat
        decreases n,
    {
        if n <= 0 {
            0
        } else {
            let step = steps[n - 1];
            let begun = self.attacks_begun(steps, n - 1);
            if self.run(steps, n - 1).advanced(&step.scene).charge_order(step.cone) is Some {
                begun + 1
            } else {
                begun
            }
        }
    }

    /// How many strike volumes the enemy delivers over the first `n` of
    /// `steps`.
    pub open spec fn strikes_made(self, steps: Seq<Step>, n: int) -> nat
        decreases n,
    {
        if n <= 0 {
            0
        } else {
            let step = steps[n - 1];
            let made = self.strikes_made(steps, n - 1);
            if self.run(steps, n - 1).tick_delivery(
                &step.scene,
                step.delta,
                step.cone,
                step.strike,
            ) is Some {
                made + 1
            } else {
                made
            }
        }
    }
}

/// Warning shapes and strikes take turns. On one tick an enemy is given a
/// warning shape only if it has none, delivers a strike only in exchange
/// for the shape it has, and never does both; on a tick on which neither
/// happens it keeps what it has.
pub proof fn lemma_shape_then_strike(
    actor: EnemyActor,
    scene: &Snapshot,
    delta: u64,
    cone: u64,
    strike: u64,
)
    requires
        actor.inv(),
    ensures
        actor.after_tick(scene, delta, cone, strike).inv(),
        actor.advanced(scene).charge_order(cone) is Some ==> {
            &&& actor.cone is None
            &&& actor.tick_delivery(scene, delta, cone, strike) is None
            &&& actor.after_tick(scene, delta, cone, strike).cone == Some(cone)
        },
        actor.tick_delivery(scene, delta, cone, strike) matches Some(d) ==> {
            &&& actor.cone == Some(d.cone)
            &&& actor.after_tick(scene, delta, cone, strike).cone is None
        },
        actor.advanced(scene).charge_order(cone) is None && actor.tick_delivery(
            scene,
            delta,
            cone,
            strike,
        ) is None ==> actor.after_tick(scene, delta, cone, strike).cone == actor.cone,
{
}

/// One attack makes one strike. Over any run of ticks the strikes that an
/// enemy has delivered, plus the one it still owes if it carries a warning
/// shape, are as many as the attacks it has begun, plus the one it owed at
/// the start.
pub proof fn lemma_one_strike_per_attack(actor: EnemyActor, steps: Seq<Step>, n: int)
    requires
        actor.inv(),
        0 <= n <= steps.len(),
    ensures
        actor.run(steps, n).inv(),
        actor.strikes_made(steps, n) + (if actor.run(steps, n).cone is Some {
            1nat
        } else {
            0nat
        }) == actor.attacks_begun(steps, n) + (if actor.cone is Some {
            1nat
        } else {
            0nat
        }),
    decreases n,
{
    if n > 0 {
        lemma_one_strike_per_attack(actor, steps, n - 1);
        let step = steps[n - 1];
        lemma_shape_then_strike(
            actor.run(steps, n - 1),
            &step.scene,
            step.delta,
            step.cone,
            step.strike,
        );
    }
}

} // verus!
