//! One game session: all the state of the core in one record, and the
//! tick that runs its stages in their fixed order.

use vstd::prelude::*;
use crate::app_state::AppState;
use crate::attack::{
    attack_rules, attack_successor, check_attack, lands_as, sampled, track_mouse_movement,
    valid_attack, volumes_wf, AttackComponent, AttackOutcome, AttackPositions, AttackState,
    AttackTrailCollider, Pointer,
};
use crate::chance::roll_between;
use crate::constants::{
    ENEMY_MAX_SPEED, ENEMY_MIN_SPEED, METEOR_MAX_FALL, METEOR_MIN_FALL, METEOR_SPAWN_DELAY,
    METEOR_SPAWN_JITTER, MIN_ATTACK_AREA, SPRITE_SIZE,
};
use crate::cycle::{
    check_cycle_state, check_impact, falling_meteor, impacted, init_cycle_with, land_meteors,
    meteor_machine, meteor_rules, showered, spawn_meteor_with, Cycle, CycleState, Meteor,
    MeteorMachine, MeteorSpawnDelay, Shower,
};
use crate::enemy::{
    alive, any_lethal, deaths, despawn_died_enemies, lemma_alive_keeps, spawn_enemy_as, strikes_wf,
    tick_despawn_timer, Behavior, CollisionEvent, Death, Enemy, EnemyActor, EnemyTick,
    EnemyVariant, Follow, Quarry, SpawnRoll, Strike,
};
use crate::game::{capped, end_session, phase_after, GameOverTrigger, Score};
use crate::geometry::Point;
use crate::machine::Tagged;
use crate::snapshot::Snapshot;
use crate::timer::Timer;

verus! {

/// The whole state of a running session.
pub struct Session {
    /// The phase of the application, as the core last saw or set it.
    pub phase: AppState,
    pub score: Score,
    pub arbiter: GameOverTrigger,
    /// The id that the next entity made by the core will carry.
    pub next_entity: u64,
    pub enemies: Vec<EnemyActor>,
    pub strikes: Vec<Strike>,
    pub drawer: AttackComponent,
    pub positions: AttackPositions,
    pub trails: Vec<AttackTrailCollider>,
    pub cycle: Cycle,
    pub cycle_state: CycleState,
    pub spawn_delay: MeteorSpawnDelay,
    pub meteor_machine: MeteorMachine,
    pub meteors: Vec<Meteor>,
}

/// The id after `id`; the count starts over past the last one.
pub open spec fn next_id(id: u64) -> u64 {
    if id == u64::MAX {
        0
    } else {
        (id + 1) as u64
    }
}

/// The `k`-th id after `id`.
pub open spec fn id_after(id: u64, k: nat) -> u64
    decreases k,
{
    if k == 0 {
        id
    } else {
        next_id(id_after(id, (k - 1) as nat))
    }
}

/// The enemy `actor` is newly made: idle and unharmed, under the id `id`,
/// of the look and reach of `enemy`, set to follow `player` at `speed`
/// on the rolled orbit.
pub open spec fn is_newcomer(
    actor: EnemyActor,
    id: u64,
    enemy: Enemy,
    speed: u32,
    player: Quarry,
    roll: SpawnRoll,
) -> bool {
    &&& actor.id == id
    &&& actor.enemy == enemy
    &&& actor.course == (Follow { target: player.entity, speed, orbit: roll.orbit })
    &&& actor.state == Behavior::Idle
    &&& !actor.dying
    &&& actor.cone is None
    &&& actor.inv()
}

/// The strike volumes that the first `n` enemies deliver on this tick, in
/// the order of the enemies. Enemy `i` is handed the ids `2 i` and
/// `2 i + 1` after `base` for its warning shape and its strike volume.
pub open spec fn delivered(
    enemies: Seq<EnemyActor>,
    scene: &Snapshot,
    delta: u64,
    base: u64,
    n: int,
) -> Seq<Strike>
    decreases n,
{
    if n <= 0 {
        Seq::empty()
    } else {
        let before = delivered(enemies, scene, delta, base, n - 1);
        match enemies[n - 1].tick_delivery(
            scene,
            delta,
            id_after(base, (2 * (n - 1)) as nat),
            id_after(base, (2 * (n - 1) + 1) as nat),
        ) {
            Some(d) => before.push(d.strike),
            None => before,
        }
    }
}

/// `report` is what one tick does to `actor` with the ids `cone` and
/// `strike` at hand.
pub open spec fn reports(
    actor: EnemyActor,
    report: EnemyTick,
    scene: &Snapshot,
    delta: u64,
    cone: u64,
    strike: u64,
) -> bool {
    &&& report.entity == actor.id
    &&& report.animations@ == if actor.advanced(scene).state == actor.state {
        Seq::empty()
    } else {
        actor.machine.effects_of(actor.state.tag(), actor.advanced(scene).state.tag())
    }
    &&& report.steering == actor.tick_steering(scene, cone)
    &&& report.warning == actor.advanced(scene).charge_order(cone)
    &&& report.event == actor.tick_event(scene, delta, cone)
    &&& report.delivery == actor.tick_delivery(scene, delta, cone, strike)
}

/// How the check of the drawn path ended.
#[derive(Clone, Copy, Debug, PartialEq, Eq)]
pub enum Verdict {
    /// The player is still drawing.
    Pending,
    /// The path was no attack; its trail markers are to be removed.
    Discarded,
    /// The path landed as the hit volume of this id; its trail markers are
    /// to be removed.
    Landed(u64),
}

/// What the attack stage did.
#[derive(Clone, Copy, Debug, PartialEq, Eq)]
pub struct AttackReport {
    /// Where to put a trail marker, if the cursor was sampled.
    pub mark: Option<Point>,
    pub verdict: Verdict,
}

/// What the outside world hands the core for one tick.
pub struct Frame {
    /// Time since the last tick, in nanoseconds.
    pub delta: u64,
    /// Where the actors stand.
    pub scene: Snapshot,
    /// The player, if there is one.
    pub player: Option<Quarry>,
    pub pointer: Pointer,
    /// The contacts that the physics layer reported since the last tick.
    pub contacts: Vec<CollisionEvent>,
    /// Where a new enemy would appear and orbit.
    pub spawn_roll: SpawnRoll,
    /// Where a new meteor would come down, relative to the player.
    pub meteor_offset: Point,
}

/// The random draws of one tick.
#[derive(Clone, Copy, Debug, PartialEq, Eq)]
pub struct Rolls {
    /// The look and reach of a new enemy.
    pub enemy: Enemy,
    /// The speed at which a new enemy follows.
    pub speed: u32,
    /// The height a new meteor loses per step.
    pub fall_speed: u32,
}

/// All that one tick asks the outside world to carry out.
pub struct Outcome {
    /// Whether the core ran at all; it does not outside a running session.
    pub ran: bool,
    /// The id of a new enemy and the place to put it.
    pub spawn: Option<(u64, Point)>,
    /// The strike volumes whose time ran out.
    pub expired: Vec<u64>,
    /// The orders for each enemy, in list order.
    pub orders: Vec<EnemyTick>,
    pub attack: AttackReport,
    /// The parting effects of the enemies removed on this tick.
    pub deaths: Vec<Death>,
    /// The attack volumes that were used up.
    pub spent: Vec<u64>,
    pub cycle: CycleReport,
    /// The session ends with this tick.
    pub game_over: bool,
}

/// What the cycle stage did.
pub struct CycleReport {
    /// What the meteor spawner did, if it ran.
    pub shower: Option<Shower>,
    /// The meteors that hit the ground, to be removed from the scene.
    pub removed: Vec<u64>,
    /// A meteor hit the player and the arbiter ordered the end of the game.
    pub game_over: bool,
}

/// The meteors one step later: each has fallen and, at ground level, hit.
pub open spec fn dropped(meteors: Seq<Meteor>) -> Seq<Meteor> {
    Seq::new(meteors.len(), |i: int| meteors[i].fallen().landed())
}

/// Where the player stands, if there is one.
pub open spec fn quarry_position(player: Option<Quarry>) -> Option<Point> {
    match player {
        Some(q) => Some(q.position),
        None => None,
    }
}

/// The id of the player, if there is one.
pub open spec fn quarry_entity(player: Option<Quarry>) -> Option<u64> {
    match player {
        Some(q) => Some(q.entity),
        None => None,
    }
}

impl Session {
    /// The fourth stage, collisions: the enemies marked on an earlier tick
    /// are removed, each with a parting effect; then the attack volumes are
    /// swept over those that remain, which marks the overlapped enemies,
    /// pays the cubes and uses volumes up.
    pub open spec fn resolved(
        before: Session,
        after: Session,
        scene: &Snapshot,
        delta: u64,
        parting: Seq<Death>,
        spent: Seq<u64>,
    ) -> bool {
        let living = alive(before.enemies@, before.enemies@.len() as int);
        let m = before.trails@.len() as int;
        &&& after == (Session {
            enemies: after.enemies,
            trails: after.trails,
            score: after.score,
            ..before
        })
        &&& parting == deaths(before.enemies@, scene, before.enemies@.len() as int)
        &&& after.enemies@.len() == living.len()
        &&& forall|i: int|
            0 <= i < living.len() ==> #[trigger] after.enemies@[i] == (EnemyActor {
                dying: living[i].dying || crate::attack::struck(before.trails@, living[i].id, m),
                ..living[i]
            })
        &&& after.score.0 == capped(before.score.0 + crate::attack::gain(before.trails@, living, m))
        &&& after.trails@ == crate::attack::unspent(before.trails@, living, delta, m)
        &&& spent == crate::attack::spent(before.trails@, living, delta, m)
    }

    /// The fifth stage, the cycle. Every meteor falls one step and may hit
    /// the ground. In the calm phase the countdown runs and, once over,
    /// starts the shower. In the shower the spawner runs, with the meteors
    /// in the air counted as alive, and then the impacts are resolved;
    /// completing the round brings the calm phase back.
    pub open spec fn cycled(
        before: Session,
        after: Session,
        player: Option<Point>,
        offset: Point,
        fall_speed: u32,
        delta: u64,
        shower: Option<Shower>,
        removed: Seq<u64>,
        game_over: bool,
    ) -> bool {
        let fallen = dropped(before.meteors@);
        match before.cycle_state {
            CycleState::Standard => {
                &&& after == (Session {
                    cycle: Cycle { start: before.cycle.start.ticked(delta), ..before.cycle },
                    cycle_state: if before.cycle.start.ticked(delta).finished {
                        CycleState::Meteors
                    } else {
                        CycleState::Standard
                    },
                    meteors: after.meteors,
                    ..before
                })
                &&& after.meteors@ == fallen
                &&& shower is None
                &&& removed.len() == 0
                &&& !game_over
            },
            CycleState::Meteors => {
                &&& shower is Some
                &&& after == (Session {
                    cycle: after.cycle,
                    cycle_state: if shower == Some(Shower::Completed) {
                        CycleState::Standard
                    } else {
                        CycleState::Meteors
                    },
                    spawn_delay: after.spawn_delay,
                    score: after.score,
                    arbiter: after.arbiter,
                    next_entity: if shower->0 is Spawned {
                        next_id(before.next_entity)
                    } else {
                        before.next_entity
                    },
                    meteors: after.meteors,
                    ..before
                })
                &&& exists|mid: Score|
                    {
                        &&& #[trigger] showered(
                            (before.cycle, before.spawn_delay, before.score),
                            (after.cycle, after.spawn_delay, mid),
                            fallen.len() as usize,
                            player,
                            before.next_entity,
                            offset,
                            fall_speed,
                            delta,
                            shower->0,
                        )
                        &&& impacted(
                            match shower->0 {
                                Shower::Spawned(m) => fallen.push(m),
                                _ => fallen,
                            },
                            after.meteors@,
                            (mid, before.arbiter),
                            (after.score, after.arbiter),
                            player,
                            removed,
                            game_over,
                        )
                    }
            },
        }
    }

    /// The sixth stage, arbitration: the contacts of this tick go to the
    /// arbiter, and if it fires now, or fired for a meteor in the stage
    /// before, the session ends.
    pub open spec fn arbitrated(
        before: Session,
        after: Session,
        contacts: Seq<CollisionEvent>,
        player: Option<u64>,
        impact: bool,
        game_over: bool,
    ) -> bool {
        &&& after == (Session {
            arbiter: after.arbiter,
            phase: phase_after(before.phase, game_over),
            ..before
        })
        &&& player is None ==> after.arbiter == before.arbiter && game_over == impact
        &&& player matches Some(p) ==> {
            &&& after.arbiter.fired == (before.arbiter.fired || any_lethal(
                contacts,
                p,
                contacts.len() as int,
            ))
            &&& game_over == (impact || (!before.arbiter.fired && any_lethal(
                contacts,
                p,
                contacts.len() as int,
            )))
        }
    }

    /// One tick of a running session: the six stages, each working on what
    /// the one before it left, in this order and no other.
    pub open spec fn ran(
        before: Session,
        after: Session,
        frame: &Frame,
        rolls: Rolls,
        out: &Outcome,
    ) -> bool {
        exists|s1: Session, s2: Session, s3: Session, s4: Session, s5: Session|
            {
                &&& #[trigger] Session::admitted(
                    before,
                    s1,
                    frame.player,
                    frame.spawn_roll,
                    rolls.enemy,
                    rolls.speed,
                    out.spawn,
                )
                &&& #[trigger] Session::behaved(
                    s1,
                    s2,
                    &frame.scene,
                    frame.delta,
                    out.expired@,
                    out.orders@,
                )
                &&& #[trigger] Session::drawn(s2, s3, &frame.pointer, out.attack)
                &&& #[trigger] Session::resolved(
                    s3,
                    s4,
                    &frame.scene,
                    frame.delta,
                    out.deaths@,
                    out.spent@,
                )
                &&& #[trigger] Session::cycled(
                    s4,
                    s5,
                    quarry_position(frame.player),
                    frame.meteor_offset,
                    rolls.fall_speed,
                    frame.delta,
                    out.cycle.shower,
                    out.cycle.removed@,
                    out.cycle.game_over,
                )
                &&& Session::arbitrated(
                    s5,
                    after,
                    frame.contacts@,
                    quarry_entity(frame.player),
                    out.cycle.game_over,
                    out.game_over,
                )
            }
    }

    /// The third stage, attack: the drawer reacts to the pointer button;
    /// while it draws, the cursor is sampled; once it has let go, the path
    /// is checked and cleared, and a valid one lands as a new hit volume
    /// at the end of the list.
    pub open spec fn drawn(
        before: Session,
        after: Session,
        pointer: &Pointer,
        report: AttackReport,
    ) -> bool {
        let state = attack_successor(before.drawer.state, pointer);
        let path = before.positions.0@;
        &&& after.drawer == (AttackComponent { state, ..before.drawer })
        &&& after == (Session {
            drawer: after.drawer,
            positions: after.positions,
            trails: after.trails,
            next_entity: after.next_entity,
            ..before
        })
        &&& state == AttackState::Attack ==> {
            &&& report.verdict == Verdict::Pending
            &&& after.trails == before.trails
            &&& after.next_entity == before.next_entity
            &&& sampled(path, state, pointer.cursor) ==> report.mark == pointer.cursor
                && after.positions.0@ == path.push(pointer.cursor->0)
            &&& !sampled(path, state, pointer.cursor) ==> report.mark is None
                && after.positions.0@ == path
        }
        &&& state == AttackState::Idle ==> {
            &&& report.mark is None
            &&& after.positions.0@.len() == 0
            &&& valid_attack(path, SPRITE_SIZE, MIN_ATTACK_AREA) ==> {
                &&& report.verdict == Verdict::Landed(before.next_entity)
                &&& after.next_entity == next_id(before.next_entity)
                &&& after.trails@.len() == before.trails@.len() + 1
                &&& after.trails@.drop_last() == before.trails@
                &&& lands_as(after.trails@.last(), path, before.next_entity)
            }
            &&& !valid_attack(path, SPRITE_SIZE, MIN_ATTACK_AREA) ==> {
                &&& report.verdict == Verdict::Discarded
                &&& after.next_entity == before.next_entity
                &&& after.trails == before.trails
            }
        }
    }

    /// The first stage, enemy spawn: while fewer enemies than the cap are
    /// on the field and there is a player, one newcomer joins at the end
    /// of the list and the place to put it is handed out.
    pub open spec fn admitted(
        before: Session,
        after: Session,
        player: Option<Quarry>,
        roll: SpawnRoll,
        enemy: Enemy,
        speed: u32,
        spawn: Option<(u64, Point)>,
    ) -> bool {
        if before.enemies@.len() < crate::constants::BASE_ENEMIES && player is Some {
            &&& after == (Session {
                next_entity: next_id(before.next_entity),
                enemies: after.enemies,
                ..before
            })
            &&& after.enemies@.len() == before.enemies@.len() + 1
            &&& after.enemies@.drop_last() == before.enemies@
            &&& is_newcomer(
                after.enemies@.last(),
                before.next_entity,
                enemy,
                speed,
                player->0,
                roll,
            )
            &&& spawn == Some(
                (
                    before.next_entity,
                    player->0.position.spec_offset(roll.offset.x, roll.offset.y),
                ),
            )
        } else {
            after == before && spawn is None
        }
    }

    /// The second stage, behaviour: strike volumes age and the spent ones
    /// go; then every enemy runs its tick, in list order, and the strike
    /// volumes delivered on this tick join the list behind the old ones.
    pub open spec fn behaved(
        before: Session,
        after: Session,
        scene: &Snapshot,
        delta: u64,
        expired: Seq<u64>,
        orders: Seq<EnemyTick>,
    ) -> bool {
        let n = before.enemies@.len() as int;
        let base = before.next_entity;
        &&& after == (Session {
            next_entity: id_after(base, (2 * n) as nat),
            enemies: after.enemies,
            strikes: after.strikes,
            ..before
        })
        &&& after.enemies@.len() == n
        &&& orders.len() == n
        &&& forall|i: int|
            0 <= i < n ==> #[trigger] after.enemies@[i] == before.enemies@[i].after_tick(
                scene,
                delta,
                id_after(base, (2 * i) as nat),
                id_after(base, (2 * i + 1) as nat),
            )
        &&& forall|i: int|
            0 <= i < n ==> reports(
                before.enemies@[i],
                #[trigger] orders[i],
                scene,
                delta,
                id_after(base, (2 * i) as nat),
                id_after(base, (2 * i + 1) as nat),
            )
        &&& expired == crate::enemy::expired(
            before.strikes@,
            delta,
            before.strikes@.len() as int,
        )
        &&& after.strikes@ == crate::enemy::lasting(
            before.strikes@,
            delta,
            before.strikes@.len() as int,
        ) + delivered(before.enemies@, scene, delta, base, n)
    }

    /// What holds of a session between ticks.
    pub open spec fn wf(&self) -> bool {
        &&& forall|i: int| 0 <= i < self.enemies@.len() ==> (#[trigger] self.enemies@[i]).inv()
        &&& strikes_wf(self.strikes@)
        &&& volumes_wf(self.trails@)
        &&& self.cycle.wf()
        &&& self.spawn_delay.0.wf()
        &&& self.drawer.machine.rules@ == attack_rules()
        &&& self.meteor_machine.rules@ == meteor_rules()
    }

    /// Whether the session is in the shape that a tick asks for. A session
    /// made by `new` and changed by its own stages alone always is; the
    /// lists of overlapping entities may be written freely.
    pub fn check(&self) -> (ok: bool)
        ensures
            ok == self.wf(),
    {
        let mut i: usize = 0;
        while i < self.enemies.len()
            invariant
                i <= self.enemies@.len(),
                forall|j: int| 0 <= j < i ==> (#[trigger] self.enemies@[j]).inv(),
            decreases self.enemies@.len() - i,
        {
            if !self.enemies[i].check() {
                return false;
            }
            i += 1;
        }
        crate::enemy::check_strikes(&self.strikes) && crate::attack::check_volumes(&self.trails)
            && self.cycle.check() && self.spawn_delay.0.check() && self.drawer.check()
            && crate::cycle::holds_meteor_rules(&self.meteor_machine)
    }

    /// A session at its start: in play, no score, nobody on the field, the
    /// cycle in its first calm phase, and meteors `spawn_delay` apart.
    pub fn new_with(first_entity: u64, spawn_delay: u64) -> (s: Session)
        ensures
            s.wf(),
            s.phase == AppState::InGame,
            s.score.0 == 0,
            !s.arbiter.fired,
            s.next_entity == first_entity,
            s.enemies@.len() == 0,
            s.strikes@.len() == 0,
            s.drawer.state == AttackState::Idle,
            s.positions.0@.len() == 0,
            s.trails@.len() == 0,
            s.cycle == Cycle::initial(),
            s.cycle_state == CycleState::Standard,
            s.spawn_delay == MeteorSpawnDelay(Timer::fresh(spawn_delay)),
            s.meteors@.len() == 0,
    {
        let (positions, drawer) = crate::attack::init_attack();
        let (cycle, delay, cycle_state) = init_cycle_with(spawn_delay);
        Session {
            phase: AppState::InGame,
            score: Score::new(),
            arbiter: GameOverTrigger::new(),
            next_entity: first_entity,
            enemies: Vec::new(),
            strikes: Vec::new(),
            drawer,
            positions,
            trails: Vec::new(),
            cycle,
            cycle_state,
            spawn_delay: delay,
            meteor_machine: meteor_machine(),
            meteors: Vec::new(),
        }
    }

    /// A session at its start, with the delay between meteors drawn at
    /// random from the base delay up to, but not including, the base delay
    /// plus the jitter.
    pub fn new(first_entity: u64) -> (s: Session)
        ensures
            s.wf(),
            s.phase == AppState::InGame,
            s.score.0 == 0,
            !s.arbiter.fired,
            s.next_entity == first_entity,
            s.enemies@.len() == 0,
            s.strikes@.len() == 0,
            s.drawer.state == AttackState::Idle,
            s.positions.0@.len() == 0,
            s.trails@.len() == 0,
            s.cycle == Cycle::initial(),
            s.cycle_state == CycleState::Standard,
            s.spawn_delay.0 == Timer::fresh(s.spawn_delay.0.duration),
            METEOR_SPAWN_DELAY <= s.spawn_delay.0.duration < METEOR_SPAWN_DELAY
                + METEOR_SPAWN_JITTER,
            s.meteors@.len() == 0,
    {
        Session::new_with(
            first_entity,
            roll_between(METEOR_SPAWN_DELAY, METEOR_SPAWN_DELAY + METEOR_SPAWN_JITTER),
        )
    }

    /// Runs the enemy spawn stage for an enemy of the given look and speed.
    pub fn spawn_stage(
        &mut self,
        player: Option<Quarry>,
        roll: SpawnRoll,
        enemy: Enemy,
        speed: u32,
    ) -> (spawn: Option<(u64, Point)>)
        requires
            old(self).wf(),
        ensures
            final(self).wf(),
            Session::admitted(*old(self), *final(self), player, roll, enemy, speed, spawn),
    {
        if self.enemies.len() >= crate::constants::BASE_ENEMIES {
            return None;
        }
        match player {
            Some(quarry) => {
                let id = self.fresh_entity();
                let made = spawn_enemy_as(enemy, speed, id, quarry, roll);
                let position = made.position;
                self.enemies.push(made.actor);
                assert(self.enemies@.drop_last() =~= old(self).enemies@);
                Some((id, position))
            },
            None => None,
        }
    }

    /// Runs the behaviour stage.
    pub fn behavior_stage(&mut self, scene: &Snapshot, delta: u64) -> (r: (Vec<u64>, Vec<EnemyTick>))
        requires
            old(self).wf(),
        ensures
            final(self).wf(),
            Session::behaved(*old(self), *final(self), scene, delta, r.0@, r.1@),
    {
        let expired = tick_despawn_timer(&mut self.strikes, delta);
        let ghost base = self.next_entity;
        let ghost aged = self.strikes@;
        let mut orders: Vec<EnemyTick> = Vec::new();
        let mut i: usize = 0;
        while i < self.enemies.len()
            invariant
                i <= self.enemies@.len(),
                self.enemies@.len() == old(self).enemies@.len(),
                base == old(self).next_entity,
                *self == (Session {
                    next_entity: id_after(base, (2 * i) as nat),
                    enemies: self.enemies,
                    strikes: self.strikes,
                    ..*old(self)
                }),
                old(self).wf(),
                strikes_wf(self.strikes@),
                forall|j: int|
                    0 <= j < i ==> #[trigger] self.enemies@[j] == old(self).enemies@[j].after_tick(
                        scene,
                        delta,
                        id_after(base, (2 * j) as nat),
                        id_after(base, (2 * j + 1) as nat),
                    ),
                forall|j: int| 0 <= j < i ==> (#[trigger] self.enemies@[j]).inv(),
                forall|j: int|
                    i <= j < self.enemies@.len() ==> #[trigger] self.enemies@[j] == old(
                        self,
                    ).enemies@[j],
                orders@.len() == i,
                forall|j: int|
                    0 <= j < i ==> reports(
                        old(self).enemies@[j],
                        #[trigger] orders@[j],
                        scene,
                        delta,
                        id_after(base, (2 * j) as nat),
                        id_after(base, (2 * j + 1) as nat),
                    ),
                aged == crate::enemy::lasting(
                    old(self).strikes@,
                    delta,
                    old(self).strikes@.len() as int,
                ),
                self.strikes@ == aged + delivered(old(self).enemies@, scene, delta, base, i as int),
            decreases self.enemies@.len() - i,
        {
            let cone = self.fresh_entity();
            let strike = self.fresh_entity();
            assert(cone == id_after(base, (2 * i) as nat));
            assert(strike == id_after(base, (2 * i + 1) as nat));
            assert(self.next_entity == id_after(base, (2 * (i + 1)) as nat)) by {
                assert(id_after(base, (2 * i + 2) as nat) == next_id(
                    id_after(base, (2 * i + 1) as nat),
                ));
            }
            assert(self.enemies@[i as int].inv());
            let report = self.enemies[i].tick(scene, delta, cone, strike);
            match report.delivery {
                Some(d) => {
                    self.strikes.push(d.strike);
                },
                None => {},
            }
            orders.push(report);
            i += 1;
        }
        (expired, orders)
    }

    /// Runs the attack stage.
    pub fn attack_stage(&mut self, pointer: &Pointer) -> (report: AttackReport)
        requires
            old(self).wf(),
        ensures
            final(self).wf(),
            Session::drawn(*old(self), *final(self), pointer, report),
    {
        self.drawer.advance(pointer);
        let state = self.drawer.state;
        let mark = track_mouse_movement(&mut self.positions, &state, pointer.cursor);
        let entity = self.next_entity;
        let verdict = match check_attack(&mut self.positions, &state, entity) {
            AttackOutcome::Pending => Verdict::Pending,
            AttackOutcome::Discarded => Verdict::Discarded,
            AttackOutcome::Landed(volume) => {
                let id = self.fresh_entity();
                self.trails.push(volume);
                assert(self.trails@.drop_last() =~= old(self).trails@);
                Verdict::Landed(id)
            },
        };
        AttackReport { mark, verdict }
    }

    /// Runs the collision stage.
    pub fn collision_stage(&mut self, scene: &Snapshot, delta: u64) -> (r: (Vec<Death>, Vec<u64>))
        requires
            old(self).wf(),
        ensures
            final(self).wf(),
            final(self).score.0 >= old(self).score.0,
            Session::resolved(*old(self), *final(self), scene, delta, r.0@, r.1@),
    {
        proof {
            lemma_alive_keeps(old(self).enemies@, old(self).enemies@.len() as int);
        }
        let parting = despawn_died_enemies(&mut self.enemies, scene);
        let spent = crate::attack::check_for_collisions(
            &mut self.trails,
            &mut self.enemies,
            &mut self.score,
            delta,
        );
        (parting, spent)
    }

    /// Runs the cycle stage for a meteor that would fall at `fall_speed`.
    pub fn cycle_stage(
        &mut self,
        player: Option<Point>,
        offset: Point,
        fall_speed: u32,
        delta: u64,
    ) -> (r: CycleReport)
        requires
            old(self).wf(),
        ensures
            final(self).wf(),
            final(self).score.0 >= old(self).score.0,
            Session::cycled(
                *old(self),
                *final(self),
                player,
                offset,
                fall_speed,
                delta,
                r.shower,
                r.removed@,
                r.game_over,
            ),
    {
        falling_meteor(&mut self.meteors);
        land_meteors(&mut self.meteors, &self.meteor_machine);
        assert(self.meteors@ =~= dropped(old(self).meteors@));
        match self.cycle_state {
            CycleState::Standard => {
                match check_cycle_state(&mut self.cycle, delta) {
                    Some(next) => {
                        self.cycle_state = next;
                    },
                    None => {},
                }
                CycleReport { shower: None, removed: Vec::new(), game_over: false }
            },
            CycleState::Meteors => {
                let entity = self.next_entity;
                let shower = spawn_meteor_with(
                    &mut self.cycle,
                    &mut self.spawn_delay,
                    &mut self.score,
                    self.meteors.len(),
                    player,
                    entity,
                    offset,
                    fall_speed,
                    delta,
                );
                let ghost mid = self.score;
                match shower {
                    Shower::Spawned(m) => {
                        let _ = self.fresh_entity();
                        self.meteors.push(m);
                    },
                    Shower::Completed => {
                        self.cycle_state = CycleState::Standard;
                    },
                    _ => {},
                }
                let found = check_impact(
                    &mut self.meteors,
                    player,
                    &mut self.score,
                    &mut self.arbiter,
                );
                proof {
                    let fallen = dropped(old(self).meteors@);
                    assert(showered(
                        (old(self).cycle, old(self).spawn_delay, old(self).score),
                        (self.cycle, self.spawn_delay, mid),
                        fallen.len() as usize,
                        player,
                        old(self).next_entity,
                        offset,
                        fall_speed,
                        delta,
                        shower,
                    ));
                }
                CycleReport { shower: Some(shower), removed: found.removed, game_over: found.game_over }
            },
        }
    }

    /// Runs the arbitration stage; `impact` tells whether the arbiter has
    /// fired for a meteor in the stage before.
    pub fn arbitration_stage(
        &mut self,
        contacts: &Vec<CollisionEvent>,
        player: Option<u64>,
        impact: bool,
    ) -> (game_over: bool)
        requires
            old(self).wf(),
        ensures
            final(self).wf(),
            Session::arbitrated(*old(self), *final(self), contacts@, player, impact, game_over),
    {
        let contact = crate::enemy::check_for_collisions(contacts, player, &mut self.arbiter);
        let game_over = impact || contact;
        self.phase = end_session(self.phase, game_over);
        game_over
    }

    /// Runs one tick with the given random draws.
    ///
    /// Outside a running session nothing happens. In a running session the
    /// stages run in their fixed order: enemy spawn, behaviour, attack,
    /// collisions, cycle, arbitration. The score never falls, and a session
    /// that ends stays ended.
    pub fn tick_with(&mut self, frame: &Frame, rolls: Rolls) -> (out: Outcome)
        requires
            old(self).wf(),
        ensures
            final(self).wf(),
            final(self).score.0 >= old(self).score.0,
            out.ran == (old(self).phase == AppState::InGame),
            !out.ran ==> {
                &&& *final(self) == *old(self)
                &&& out.spawn is None
                &&& out.expired@.len() == 0
                &&& out.orders@.len() == 0
                &&& out.attack == (AttackReport { mark: None, verdict: Verdict::Pending })
                &&& out.deaths@.len() == 0
                &&& out.spent@.len() == 0
                &&& out.cycle.shower is None
                &&& out.cycle.removed@.len() == 0
                &&& !out.cycle.game_over
                &&& !out.game_over
            },
            out.ran ==> Session::ran(*old(self), *final(self), frame, rolls, &out),
            out.game_over ==> final(self).phase == AppState::GameOver && final(self).arbiter.fired,
            out.ran && !out.game_over ==> final(self).phase == AppState::InGame,
            old(self).arbiter.fired ==> !out.game_over,
    {
        match self.phase {
            AppState::InGame => {},
            _ => {
                return Outcome {
                    ran: false,
                    spawn: None,
                    expired: Vec::new(),
                    orders: Vec::new(),
                    attack: AttackReport { mark: None, verdict: Verdict::Pending },
                    deaths: Vec::new(),
                    spent: Vec::new(),
                    cycle: CycleReport { shower: None, removed: Vec::new(), game_over: false },
                    game_over: false,
                };
            },
        }
        let (place, target) = match frame.player {
            Some(q) => (Some(q.position), Some(q.entity)),
            None => (None, None),
        };
        let spawn = self.spawn_stage(frame.player, frame.spawn_roll, rolls.enemy, rolls.speed);
        let ghost s1 = *self;
        let (expired, orders) = self.behavior_stage(&frame.scene, frame.delta);
        let ghost s2 = *self;
        let attack = self.attack_stage(&frame.pointer);
        let ghost s3 = *self;
        let (deaths, spent) = self.collision_stage(&frame.scene, frame.delta);
        let ghost s4 = *self;
        let cycle = self.cycle_stage(place, frame.meteor_offset, rolls.fall_speed, frame.delta);
        let ghost s5 = *self;
        let game_over = self.arbitration_stage(&frame.contacts, target, cycle.game_over);
        let out = Outcome { ran: true, spawn, expired, orders, attack, deaths, spent, cycle, game_over };
        proof {
            assert(Session::admitted(
                *old(self),
                s1,
                frame.player,
                frame.spawn_roll,
                rolls.enemy,
                rolls.speed,
                out.spawn,
            ));
            assert(Session::behaved(s1, s2, &frame.scene, frame.delta, out.expired@, out.orders@));
            assert(Session::drawn(s2, s3, &frame.pointer, out.attack));
            assert(Session::resolved(s3, s4, &frame.scene, frame.delta, out.deaths@, out.spent@));
            assert(Session::cycled(
                s4,
                s5,
                quarry_position(frame.player),
                frame.meteor_offset,
                rolls.fall_speed,
                frame.delta,
                out.cycle.shower,
                out.cycle.removed@,
                out.cycle.game_over,
            ));
        }
        out
    }

    /// Runs one tick, drawing at random what a new enemy looks like, how
    /// fast it follows and how fast a new meteor falls. All else is as in
    /// `tick_with`, for draws within their ranges.
    pub fn tick(&mut self, frame: &Frame) -> (out: Outcome)
        requires
            old(self).wf(),
        ensures
            final(self).wf(),
            final(self).score.0 >= old(self).score.0,
            out.ran == (old(self).phase == AppState::InGame),
            !out.ran ==> *final(self) == *old(self),
            out.game_over ==> final(self).phase == AppState::GameOver && final(self).arbiter.fired,
            out.ran && !out.game_over ==> final(self).phase == AppState::InGame,
            old(self).arbiter.fired ==> !out.game_over,
            out.ran ==> exists|rolls: Rolls|
                {
                    &&& rolls.enemy.attack_range == crate::constants::ENEMY_CHARGING_RANGE
                    &&& (rolls.enemy.variant == EnemyVariant::Aqua || rolls.enemy.variant
                        == EnemyVariant::Red)
                    &&& ENEMY_MIN_SPEED <= rolls.speed < ENEMY_MAX_SPEED
                    &&& METEOR_MIN_FALL <= rolls.fall_speed < METEOR_MAX_FALL
                    &&& #[trigger] Session::ran(*old(self), *final(self), frame, rolls, &out)
                },
    {
        let rolls = Rolls {
            enemy: Enemy::default(),
            speed: roll_between(ENEMY_MIN_SPEED as u64, ENEMY_MAX_SPEED as u64) as u32,
            fall_speed: roll_between(METEOR_MIN_FALL as u64, METEOR_MAX_FALL as u64) as u32,
        };
        self.tick_with(frame, rolls)
    }

    /// Hands out the next entity id.
    fn fresh_entity(&mut self) -> (id: u64)
        ensures
            id == old(self).next_entity,
            *final(self) == (Session { next_entity: next_id(id), ..*old(self) }),
    {
        let id = self.next_entity;
        self.next_entity = if id == u64::MAX {
            0
        } else {
            id + 1
        };
        id
    }
}

} // verus!
