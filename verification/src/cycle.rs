//! The escalation cycle: calm phases alternate with meteor showers that
//! grow heavier each round.

use vstd::prelude::*;
use crate::chance::roll_between;
use crate::constants::{
    CYCLE_DURATION, CYCLE_WEIGHT, METEOR_DODGED_SCORE, METEOR_MAX_FALL, METEOR_MIN_FALL,
    METEOR_SPAWN_DELAY, METEOR_SPAWN_JITTER, METEOR_START_HEIGHT, SPRITE_SIZE,
};
use crate::game::{capped, cube, cubed, GameOverTrigger, Score};
use crate::geometry::Point;
use crate::machine::{Rule, Source, StateMachine, Tagged, Trigger};
use crate::timer::Timer;

verus! {

/// The phase of the cycle.
#[derive(Debug, PartialEq, Eq, Clone, Copy, Hash, Structural)]
pub enum CycleState {
    /// Calm: a countdown runs.
    Standard,
    /// Meteors fall.
    Meteors,
}

impl Default for CycleState {
    fn default() -> (s: CycleState)
        ensures
            s == CycleState::Standard,
    {
        CycleState::Standard
    }
}

/// The session's cycle record.
#[derive(Clone, Copy, Debug, PartialEq, Eq)]
pub struct Cycle {
    /// Countdown of the calm phase.
    pub start: Timer,
    /// Meteors still to be spawned in this round.
    pub meteors: usize,
    /// Number of the round, counted from one.
    pub index: usize,
}

/// The pause between two meteor spawns.
#[derive(Clone, Copy, Debug, PartialEq, Eq)]
pub struct MeteorSpawnDelay(pub Timer);

impl Cycle {
    /// The countdown is well formed and rounds are counted from one.
    pub open spec fn wf(self) -> bool {
        self.start.wf() && self.index >= 1
    }

    /// Whether the cycle is well formed.
    pub fn check(&self) -> (ok: bool)
        ensures
            ok == self.wf(),
    {
        self.start.check() && self.index >= 1
    }

    /// The cycle at session start.
    pub open spec fn initial() -> Cycle {
        Cycle { start: Timer::fresh(CYCLE_DURATION), meteors: CYCLE_WEIGHT, index: 1 }
    }

    /// The cycle after a shower is over: a fresh countdown, the next round
    /// number and that round's weight, the base weight times the number.
    pub open spec fn completed(self) -> Cycle {
        let index = capped(self.index + 1);
        Cycle { start: Timer::fresh(CYCLE_DURATION), meteors: capped(CYCLE_WEIGHT * index), index }
    }
}

/// Sets the cycle up with a given spawn delay.
pub fn init_cycle_with(delay: u64) -> (r: (Cycle, MeteorSpawnDelay, CycleState))
    ensures
        r.0 == Cycle::initial(),
        r.1 == MeteorSpawnDelay(Timer::fresh(delay)),
        r.2 == CycleState::Standard,
{
    (
        Cycle { start: Timer::new(CYCLE_DURATION), meteors: CYCLE_WEIGHT, index: 1 },
        MeteorSpawnDelay(Timer::new(delay)),
        CycleState::Standard,
    )
}

/// Sets the cycle up at session start: round one of the base weight, in
/// the calm phase, with a spawn delay drawn at random from the base delay
/// up to, but not including, the base delay plus the jitter.
pub fn init_cycle() -> (r: (Cycle, MeteorSpawnDelay, CycleState))
    ensures
        r.0 == Cycle::initial(),
        r.2 == CycleState::Standard,
        r.1.0 == Timer::fresh(r.1.0.duration),
        METEOR_SPAWN_DELAY <= r.1.0.duration < METEOR_SPAWN_DELAY + METEOR_SPAWN_JITTER,
{
    init_cycle_with(roll_between(METEOR_SPAWN_DELAY, METEOR_SPAWN_DELAY + METEOR_SPAWN_JITTER))
}

/// Runs the countdown of the calm phase. Returns the phase to go to once
/// the countdown is over; the weight and the round number stay as they are.
pub fn check_cycle_state(cycle: &mut Cycle, delta: u64) -> (next: Option<CycleState>)
    requires
        old(cycle).wf(),
    ensures
        *final(cycle) == (Cycle { start: old(cycle).start.ticked(delta), ..*old(cycle) }),
        final(cycle).wf(),
        next == if final(cycle).start.finished {
            Some(CycleState::Meteors)
        } else {
            None::<CycleState>
        },
{
    cycle.start.tick(delta);
    if cycle.start.finished() {
        Some(CycleState::Meteors)
    } else {
        None
    }
}

/// Tag of a meteor in the air.
pub const TAG_FALLING: u8 = 0;

/// Tag of a meteor that has hit the ground.
pub const TAG_IMPACT: u8 = 1;

/// What a meteor is doing.
#[derive(Debug, PartialEq, Eq, Clone, Copy, Structural)]
pub enum MeteorState {
    Falling,
    Impact,
}

/// The one predicate of the meteor automaton: the height, handed in as the
/// scene, is at ground level or below.
#[derive(Debug, PartialEq, Eq, Clone, Copy, Structural)]
pub enum MeteorTrigger {
    IsOnGround,
}

impl Tagged for MeteorState {
    open spec fn tag(&self) -> u8 {
        match self {
            MeteorState::Falling => TAG_FALLING,
            MeteorState::Impact => TAG_IMPACT,
        }
    }

    fn tag_of(&self) -> (t: u8) {
        match self {
            MeteorState::Falling => TAG_FALLING,
            MeteorState::Impact => TAG_IMPACT,
        }
    }
}

impl Trigger<MeteorState> for MeteorTrigger {
    type Scene = i32;

    open spec fn fires(&self, actor: u64, state: &MeteorState, scene: &i32) -> bool {
        *scene <= 0
    }

    fn check(&self, actor: u64, state: &MeteorState, scene: &i32) -> (b: bool) {
        *scene <= 0
    }
}

/// The automaton of a meteor; it has no hooks.
pub type MeteorMachine = StateMachine<MeteorTrigger, MeteorState, ()>;

/// The meteor graph: a falling meteor hits once it is on the ground.
pub open spec fn meteor_rules() -> Seq<Rule<MeteorTrigger, MeteorState>> {
    seq![
        Rule {
            from: Source::State(TAG_FALLING),
            trigger: MeteorTrigger::IsOnGround,
            to: MeteorState::Impact,
        },
    ]
}

/// Whether `m` holds the meteor rules.
pub fn holds_meteor_rules(m: &MeteorMachine) -> (ok: bool)
    ensures
        ok == (m.rules@ == meteor_rules()),
{
    if m.rules.len() != 1 {
        return false;
    }
    let ok = m.rules[0].from == Source::State(TAG_FALLING) && m.rules[0].trigger
        == MeteorTrigger::IsOnGround && m.rules[0].to == MeteorState::Impact;
    proof {
        let model = meteor_rules();
        assert(model.len() == 1);
        if ok {
            assert(m.rules@ =~= model);
        } else {
            assert(m.rules@[0] != model[0]);
        }
    }
    ok
}

/// Builds the automaton that all meteors share.
pub fn meteor_machine() -> (m: MeteorMachine)
    ensures
        m.rules@ == meteor_rules(),
        m.hooks@.len() == 0,
{
    let mut m: MeteorMachine = StateMachine::new();
    m.register(Source::State(TAG_FALLING), MeteorTrigger::IsOnGround, MeteorState::Impact);
    assert(m.rules@ =~= meteor_rules());
    m
}

/// One falling hazard. Heights and fall speeds are in thousandths of a
/// world unit; the ground is at height zero.
#[derive(Clone, Copy, Debug, PartialEq, Eq)]
pub struct Meteor {
    pub entity: u64,
    pub position: Point,
    pub height: i32,
    /// Height lost on every step.
    pub fall_speed: u32,
    pub state: MeteorState,
}

impl Meteor {
    /// The meteor one step later: a falling meteor loses its fall speed in
    /// height, down to the lowest height that can be held; one that has hit
    /// the ground stays where it is.
    pub open spec fn fallen(self) -> Meteor {
        match self.state {
            MeteorState::Falling => Meteor {
                height: crate::geometry::clamp_i32(self.height - self.fall_speed) as i32,
                ..self
            },
            MeteorState::Impact => self,
        }
    }

    /// The meteor after its automaton ran: a falling meteor at ground level
    /// or below has hit.
    pub open spec fn landed(self) -> Meteor {
        if self.state == MeteorState::Falling && self.height <= 0 {
            Meteor { state: MeteorState::Impact, ..self }
        } else {
            self
        }
    }

    /// Runs the meteor's automaton for one tick.
    pub fn advance(&mut self, machine: &MeteorMachine)
        requires
            machine.rules@ == meteor_rules(),
        ensures
            *final(self) == old(self).landed(),
    {
        proof {
            let rules = meteor_rules();
            assert(rules.len() == 1);
            let old_state = self.state;
            let h = self.height;
            assert forall|j: int| !machine.wildcard_hit(j, self.entity, &old_state, &h) by {}
            if self.state == MeteorState::Falling && self.height <= 0 {
                assert(machine.specific_hit(0, self.entity, &old_state, &h));
                assert(machine.chosen(0, self.entity, &old_state, &h));
                machine.lemma_successor_of_chosen(0, self.entity, &old_state, &h);
            } else {
                assert forall|j: int| !machine.specific_hit(j, self.entity, &old_state, &h) by {}
                assert(machine.idle(self.entity, &old_state, &h));
                machine.lemma_successor_when_idle(self.entity, &old_state, &h);
            }
        }
        match machine.tick(self.entity, &self.state, &self.height) {
            Some(t) => {
                self.state = t.state;
            },
            None => {},
        }
    }
}

/// Runs the automaton of every meteor.
pub fn land_meteors(meteors: &mut Vec<Meteor>, machine: &MeteorMachine)
    requires
        machine.rules@ == meteor_rules(),
    ensures
        final(meteors)@.len() == old(meteors)@.len(),
        forall|i: int|
            0 <= i < old(meteors)@.len() ==> final(meteors)@[i] == old(meteors)@[i].landed(),
{
    let mut i: usize = 0;
    while i < meteors.len()
        invariant
            i <= meteors@.len(),
            meteors@.len() == old(meteors)@.len(),
            machine.rules@ == meteor_rules(),
            forall|j: int| 0 <= j < i ==> meteors@[j] == old(meteors)@[j].landed(),
            forall|j: int| i <= j < meteors@.len() ==> meteors@[j] == old(meteors)@[j],
        decreases meteors@.len() - i,
    {
        let mut m = meteors[i];
        m.advance(machine);
        meteors[i] = m;
        i += 1;
    }
}

/// Lets every falling meteor drop by its fall speed.
pub fn falling_meteor(meteors: &mut Vec<Meteor>)
    ensures
        final(meteors)@.len() == old(meteors)@.len(),
        forall|i: int|
            0 <= i < old(meteors)@.len() ==> final(meteors)@[i] == old(meteors)@[i].fallen(),
{
    let mut i: usize = 0;
    while i < meteors.len()
        invariant
            i <= meteors@.len(),
            meteors@.len() == old(meteors)@.len(),
            forall|j: int| 0 <= j < i ==> meteors@[j] == old(meteors)@[j].fallen(),
            forall|j: int| i <= j < meteors@.len() ==> meteors@[j] == old(meteors)@[j],
        decreases meteors@.len() - i,
    {
        let m = meteors[i];
        match m.state {
            MeteorState::Falling => {
                let wide: i64 = m.height as i64 - m.fall_speed as i64;
                let height: i32 = if wide < i32::MIN as i64 {
                    i32::MIN
                } else {
                    wide as i32
                };
                meteors[i].height = height;
            },
            MeteorState::Impact => {},
        }
        i += 1;
    }
}

/// What one call of the meteor spawner did.
#[derive(Clone, Copy, Debug, PartialEq, Eq)]
pub enum Shower {
    /// There is no player: nothing was touched.
    Skipped,
    /// The spawn delay has not run out yet.
    Waiting,
    /// All meteors of the round are out but some are still in the air.
    Holding,
    /// The round is over: the cycle goes back to the calm phase.
    Completed,
    /// One meteor was spawned.
    Spawned(Meteor),
}

/// The meteor that is spawned for a player at `player`.
pub open spec fn new_meteor(entity: u64, player: Point, offset: Point, fall_speed: u32) -> Meteor {
    Meteor {
        entity,
        position: player.spec_offset(offset.x, offset.y),
        height: METEOR_START_HEIGHT,
        fall_speed,
        state: MeteorState::Falling,
    }
}

/// What one call of the meteor spawner does to the cycle, the spawn delay
/// and the score, taken together as `before` and `after`.
pub open spec fn showered(
    before: (Cycle, MeteorSpawnDelay, Score),
    after: (Cycle, MeteorSpawnDelay, Score),
    alive: usize,
    player: Option<Point>,
    entity: u64,
    offset: Point,
    fall_speed: u32,
    delta: u64,
    r: Shower,
) -> bool {
    let due = before.1.0.ticked(delta).finished;
    &&& player is None ==> r == Shower::Skipped && after == before
    &&& player is Some && !due ==> {
        &&& r == Shower::Waiting
        &&& after == (before.0, MeteorSpawnDelay(before.1.0.ticked(delta)), before.2)
    }
    &&& player is Some && due ==> {
        &&& after.1.0 == Timer::fresh(before.1.0.duration)
        &&& before.0.meteors == 0 && alive != 0 ==> {
            &&& r == Shower::Holding
            &&& after.0 == before.0
            &&& after.2 == before.2
        }
        &&& before.0.meteors == 0 && alive == 0 ==> {
            &&& r == Shower::Completed
            &&& after.0 == before.0.completed()
            &&& after.2.0 == capped(before.2.0 + cube(after.0.index as int))
        }
        &&& before.0.meteors > 0 ==> {
            &&& r == Shower::Spawned(new_meteor(entity, player->0, offset, fall_speed))
            &&& after.0 == (Cycle { meteors: (before.0.meteors - 1) as usize, ..before.0 })
            &&& after.2 == before.2
        }
    }
}

/// One call of the meteor spawner, for a meteor that would fall at
/// `fall_speed`.
///
/// Without a player nothing happens. Otherwise the spawn delay advances by
/// `delta`, and only when it runs out, which restarts it, does the spawner
/// act: while the round has weight left it spawns one meteor at `offset`
/// from the player, under the id `entity`, and takes one off the weight;
/// with no weight left it waits for the `alive` meteors to land; and once
/// none is left it completes the round, which awards the cube of the new
/// round number.
pub fn spawn_meteor_with(
    cycle: &mut Cycle,
    delay: &mut MeteorSpawnDelay,
    score: &mut Score,
    alive: usize,
    player: Option<Point>,
    entity: u64,
    offset: Point,
    fall_speed: u32,
    delta: u64,
) -> (r: Shower)
    requires
        old(cycle).wf(),
        old(delay).0.wf(),
    ensures
        final(cycle).wf(),
        final(delay).0.wf(),
        final(score).0 >= old(score).0,
        showered(
            (*old(cycle), *old(delay), *old(score)),
            (*final(cycle), *final(delay), *final(score)),
            alive,
            player,
            entity,
            offset,
            fall_speed,
            delta,
            r,
        ),
{
    let at = match player {
        Some(p) => p,
        None => {
            return Shower::Skipped;
        },
    };
    delay.0.tick(delta);
    if !delay.0.finished() {
        return Shower::Waiting;
    }
    delay.0.reset();
    if cycle.meteors == 0 {
        if alive != 0 {
            return Shower::Holding;
        }
        let index: usize = match cycle.index.checked_add(1) {
            Some(next) => next,
            None => usize::MAX,
        };
        let meteors: usize = match CYCLE_WEIGHT.checked_mul(index) {
            Some(weight) => weight,
            None => usize::MAX,
        };
        cycle.start = Timer::new(CYCLE_DURATION);
        cycle.index = index;
        cycle.meteors = meteors;
        proof {
            let c = cube(index as int);
            assert(c >= 0) by (nonlinear_arith)
                requires
                    c == index * index * index,
                    index >= 0,
            ;
        }
        score.award(cubed(index));
        return Shower::Completed;
    }
    cycle.meteors = cycle.meteors - 1;
    Shower::Spawned(
        Meteor {
            entity,
            position: at.offset(offset.x, offset.y),
            height: METEOR_START_HEIGHT,
            fall_speed,
            state: MeteorState::Falling,
        },
    )
}

/// One call of the meteor spawner, with the fall speed of a new meteor
/// drawn at random. See `spawn_meteor_with` for what happens; all that is
/// left open here is the fall speed, which lies between the least fall
/// speed and, exclusively, the greatest.
pub fn spawn_meteor(
    cycle: &mut Cycle,
    delay: &mut MeteorSpawnDelay,
    score: &mut Score,
    alive: usize,
    player: Option<Point>,
    entity: u64,
    offset: Point,
    delta: u64,
) -> (r: Shower)
    requires
        old(cycle).wf(),
        old(delay).0.wf(),
    ensures
        final(cycle).wf(),
        final(delay).0.wf(),
        final(score).0 >= old(score).0,
        exists|fall_speed: u32|
            METEOR_MIN_FALL <= fall_speed < METEOR_MAX_FALL && #[trigger] showered(
                (*old(cycle), *old(delay), *old(score)),
                (*final(cycle), *final(delay), *final(score)),
                alive,
                player,
                entity,
                offset,
                fall_speed,
                delta,
                r,
            ),
{
    let fall_speed: u32 = roll_between(METEOR_MIN_FALL as u64, METEOR_MAX_FALL as u64) as u32;
    spawn_meteor_with(cycle, delay, score, alive, player, entity, offset, fall_speed, delta)
}

/// Completing a round raises the round number by one and sets the weight
/// to the base weight times the new number, as long as both can be counted.
pub proof fn lemma_round_completion(cycle: Cycle)
    requires
        CYCLE_WEIGHT * (cycle.index + 1) <= usize::MAX,
    ensures
        cycle.completed().index == cycle.index + 1,
        cycle.completed().meteors == CYCLE_WEIGHT * (cycle.index + 1),
        cycle.completed().index > cycle.index,
        cycle.completed().start == Timer::fresh(CYCLE_DURATION),
{
}

impl Meteor {
    /// The meteor has hit the ground closer to the player than one sprite
    /// size: the hit kills.
    pub open spec fn lethal(self, player: Point) -> bool {
        self.state == MeteorState::Impact && self.position.spec_closer_than(player, SPRITE_SIZE)
    }

    /// The meteor has hit the ground away from the player.
    pub open spec fn dodged(self, player: Point) -> bool {
        self.state == MeteorState::Impact && !self.position.spec_closer_than(player, SPRITE_SIZE)
    }
}

/// Of the first `n` meteors, those still in the air, in their old order.
pub open spec fn airborne(meteors: Seq<Meteor>, n: int) -> Seq<Meteor>
    decreases n,
{
    if n <= 0 {
        Seq::empty()
    } else if meteors[n - 1].state == MeteorState::Impact {
        airborne(meteors, n - 1)
    } else {
        airborne(meteors, n - 1).push(meteors[n - 1])
    }
}

/// Of the first `n` meteors, the entities of those that have hit the ground.
pub open spec fn grounded(meteors: Seq<Meteor>, n: int) -> Seq<u64>
    decreases n,
{
    if n <= 0 {
        Seq::empty()
    } else if meteors[n - 1].state == MeteorState::Impact {
        grounded(meteors, n - 1).push(meteors[n - 1].entity)
    } else {
        grounded(meteors, n - 1)
    }
}

/// How many of the first `n` meteors hit the ground away from the player.
pub open spec fn dodges(meteors: Seq<Meteor>, player: Point, n: int) -> nat
    decreases n,
{
    if n <= 0 {
        0
    } else if meteors[n - 1].dodged(player) {
        dodges(meteors, player, n - 1) + 1
    } else {
        dodges(meteors, player, n - 1)
    }
}

/// Some of the first `n` meteors hit the player.
pub open spec fn any_lethal(meteors: Seq<Meteor>, player: Point, n: int) -> bool
    decreases n,
{
    if n <= 0 {
        false
    } else {
        any_lethal(meteors, player, n - 1) || meteors[n - 1].lethal(player)
    }
}

/// What the impact check does to the meteors, and to the score and the
/// arbiter, taken together as `before` and `after`.
pub open spec fn impacted(
    meteors: Seq<Meteor>,
    left: Seq<Meteor>,
    before: (Score, GameOverTrigger),
    after: (Score, GameOverTrigger),
    player: Option<Point>,
    removed: Seq<u64>,
    game_over: bool,
) -> bool {
    let n = meteors.len() as int;
    &&& player is None ==> {
        &&& left == meteors
        &&& after == before
        &&& removed.len() == 0
        &&& !game_over
    }
    &&& player matches Some(p) ==> {
        &&& left == airborne(meteors, n)
        &&& removed == grounded(meteors, n)
        &&& after.0.0 == capped(before.0.0 + METEOR_DODGED_SCORE * dodges(meteors, p, n))
        &&& after.1.fired == (before.1.fired || any_lethal(meteors, p, n))
        &&& game_over == (!before.1.fired && any_lethal(meteors, p, n))
    }
}

/// What the impact check found.
pub struct Impacts {
    /// The meteors that hit the ground, to be removed from the scene.
    pub removed: Vec<u64>,
    /// The game is to end now.
    pub game_over: bool,
}

/// Resolves the meteors that have hit the ground. Each one is removed. One
/// that lands closer to the player than a sprite size is lethal and goes to
/// the arbiter; every other one earns the flat bonus. Without a player
/// nothing happens.
pub fn check_impact(
    meteors: &mut Vec<Meteor>,
    player: Option<Point>,
    score: &mut Score,
    arbiter: &mut GameOverTrigger,
) -> (r: Impacts)
    ensures
        impacted(
            old(meteors)@,
            final(meteors)@,
            (*old(score), *old(arbiter)),
            (*final(score), *final(arbiter)),
            player,
            r.removed@,
            r.game_over,
        ),
        final(score).0 >= old(score).0,
{
    let mut removed: Vec<u64> = Vec::new();
    let mut game_over: bool = false;
    let p = match player {
        Some(p) => p,
        None => {
            return Impacts { removed, game_over };
        },
    };
    let mut kept: Vec<Meteor> = Vec::new();
    let mut i: usize = 0;
    while i < meteors.len()
        invariant
            i <= meteors@.len(),
            meteors@ == old(meteors)@,
            kept@ == airborne(meteors@, i as int),
            removed@ == grounded(meteors@, i as int),
            score.0 == capped(old(score).0 + METEOR_DODGED_SCORE * dodges(meteors@, p, i as int)),
            score.0 >= old(score).0,
            arbiter.fired == (old(arbiter).fired || any_lethal(meteors@, p, i as int)),
            game_over == (!old(arbiter).fired && any_lethal(meteors@, p, i as int)),
        decreases meteors@.len() - i,
    {
        let m = meteors[i];
        match m.state {
            MeteorState::Impact => {
                if m.position.closer_than(&p, SPRITE_SIZE) {
                    if arbiter.report(true) {
                        game_over = true;
                    }
                } else {
                    score.award(METEOR_DODGED_SCORE);
                }
                removed.push(m.entity);
            },
            MeteorState::Falling => {
                kept.push(m);
            },
        }
        i += 1;
    }
    *meteors = kept;
    Impacts { removed, game_over }
}

} // verus!
