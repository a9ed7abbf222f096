//! The player's attack: a path drawn with the pointer, checked for closure
//! and enclosed area, and turned into a short-lived hit volume.

use vstd::prelude::*;
use crate::common::CollisionGroups;
use crate::constants::{
    ATTACK_COOLDOWN, ATTACK_TRAIL_GROUP, ENEMY_GROUP, MIN_ATTACK_AREA, SPRITE_SIZE,
};
use crate::enemy::EnemyActor;
use crate::game::{capped, cube, cubed, Score};
use crate::geometry::Point;
use crate::machine::{Rule, Source, StateMachine, Tagged, Trigger};
use crate::timer::Timer;

verus! {

/// The points sampled while the pointer button is held, oldest first.
pub struct AttackPositions(pub Vec<Point>);

/// Time a hit volume may wait for its first hit.
#[derive(Clone, Copy, Debug, PartialEq, Eq)]
pub struct Cooldown(pub Timer);

/// The hit volume of a valid attack. It collides with enemies only.
pub struct AttackTrailCollider {
    pub entity: u64,
    /// The drawn path forward and then backward, a closed thin outline.
    pub outline: Vec<Point>,
    pub groups: CollisionGroups,
    pub cooldown: Cooldown,
    /// The entities that overlap the volume on this tick, as the physics
    /// layer reports them.
    pub colliding: Vec<u64>,
}

/// The cross product of two position vectors.
pub open spec fn cross(a: Point, b: Point) -> int {
    a.x * b.y - b.x * a.y
}

/// The shoelace sum over the first `n` edges of the open path.
pub open spec fn shoelace(path: Seq<Point>, n: int) -> int
    decreases n,
{
    if n <= 0 {
        0
    } else {
        shoelace(path, n - 1) + cross(path[n - 1], path[n])
    }
}

/// Twice the area that the path encloses: the absolute value of the
/// shoelace sum over all its edges.
pub open spec fn twice_area(path: Seq<Point>) -> int {
    let sum = shoelace(path, path.len() - 1);
    if sum < 0 {
        -sum
    } else {
        sum
    }
}

/// Squared distance between the first and the last point of the path.
pub open spec fn closure_sq(path: Seq<Point>) -> int {
    path[0].dist_sq(path[path.len() - 1])
}

/// The path ends closer than `2 * unit` to where it began.
pub open spec fn closes(path: Seq<Point>, unit: u32) -> bool {
    path.len() >= 2 && closure_sq(path) < (2 * unit) * (2 * unit)
}

/// The path is a valid attack shape: at least two points, closed, and
/// enclosing an area of `min_area` or more.
pub open spec fn valid_attack(path: Seq<Point>, unit: u32, min_area: u64) -> bool {
    closes(path, unit) && twice_area(path) >= 2 * min_area
}

/// The outline of the hit volume: the path forward, then the same path
/// backward, so that the turning point stands twice and a path of `n`
/// points gives `2 n` vertices.
pub open spec fn outline_of(path: Seq<Point>) -> Seq<Point> {
    path + path.reverse()
}

/// The outline of a path of `n` points has `2 n` vertices: the first `n`
/// are the path in order, the rest retrace it backward, and so every vertex
/// is a point of the path.
pub proof fn lemma_outline_shape(path: Seq<Point>)
    ensures
        outline_of(path).len() == 2 * path.len(),
        forall|i: int| 0 <= i < path.len() ==> outline_of(path)[i] == path[i],
        forall|i: int|
            path.len() <= i < 2 * path.len() ==> #[trigger] outline_of(path)[i] == path[2
                * path.len() - 1 - i],
        forall|i: int|
            0 <= i < outline_of(path).len() ==> path.contains(#[trigger] outline_of(path)[i]),
{
    let n = path.len() as int;
    let out = outline_of(path);
    assert forall|i: int| n <= i < 2 * n implies #[trigger] out[i] == path[2 * n - 1 - i] by {
        assert(out[i] == path.reverse()[i - n]);
    }
    assert forall|i: int| 0 <= i < out.len() implies path.contains(#[trigger] out[i]) by {
        if i < n {
            assert(out[i] == path[i]);
        } else {
            assert(out[i] == path[2 * n - 1 - i]);
        }
    }
}

/// A path that does not close is no attack, however large the area it
/// sweeps.
pub proof fn lemma_open_path_rejected(path: Seq<Point>, unit: u32, min_area: u64)
    requires
        !closes(path, unit),
    ensures
        !valid_attack(path, unit, min_area),
{
}

/// A path of fewer than two points is no attack.
pub proof fn lemma_short_path_rejected(path: Seq<Point>, unit: u32, min_area: u64)
    requires
        path.len() < 2,
    ensures
        !valid_attack(path, unit, min_area),
{
}

/// Products of coordinates, and so the terms of the shoelace sum, stay well
/// inside 128 bits.
proof fn lemma_cross_bound(a: Point, b: Point)
    ensures
        -0x4000_0000_0000_0000 <= a.x * b.y <= 0x4000_0000_0000_0000,
        -0x4000_0000_0000_0000 <= b.x * a.y <= 0x4000_0000_0000_0000,
        -0x8000_0000_0000_0000 <= cross(a, b) <= 0x8000_0000_0000_0000,
{
    let ax = a.x as int;
    let ay = a.y as int;
    let bx = b.x as int;
    let by = b.y as int;
    assert(-0x4000_0000_0000_0000 <= ax * by <= 0x4000_0000_0000_0000) by (nonlinear_arith)
        requires
            -0x8000_0000 <= ax <= 0x8000_0000,
            -0x8000_0000 <= by <= 0x8000_0000,
    ;
    assert(-0x4000_0000_0000_0000 <= bx * ay <= 0x4000_0000_0000_0000) by (nonlinear_arith)
        requires
            -0x8000_0000 <= bx <= 0x8000_0000,
            -0x8000_0000 <= ay <= 0x8000_0000,
    ;
}

/// Twice the enclosed area of `path`.
pub fn doubled_area(path: &Vec<Point>) -> (a: u128)
    ensures
        a == twice_area(path@),
{
    let mut sum: i128 = 0;
    let mut i: usize = 0;
    if path.len() < 2 {
        assert(shoelace(path@, path@.len() - 1) == 0);
        return 0;
    }
    let edges: usize = path.len() - 1;
    while i < edges
        invariant
            i <= edges,
            edges == path@.len() - 1,
            sum == shoelace(path@, i as int),
            -(i as int) * 0x8000_0000_0000_0000 <= sum <= (i as int) * 0x8000_0000_0000_0000,
        decreases edges - i,
    {
        let a = path[i];
        let b = path[i + 1];
        proof {
            lemma_cross_bound(a, b);
        }
        let term: i128 = (a.x as i128) * (b.y as i128) - (b.x as i128) * (a.y as i128);
        sum = sum + term;
        i += 1;
    }
    if sum < 0 {
        (-sum) as u128
    } else {
        sum as u128
    }
}

/// Whether `path` is a valid attack shape for sprites of edge `unit` and
/// a least area of `min_area`.
pub fn validate(path: &Vec<Point>, unit: u32, min_area: u64) -> (ok: bool)
    ensures
        ok == valid_attack(path@, unit, min_area),
{
    if path.len() < 2 {
        return false;
    }
    let first = path[0];
    let last = path[path.len() - 1];
    let reach: u128 = 2 * (unit as u128);
    assert(0 <= reach * reach <= 0x4_0000_0000_0000_0000) by (nonlinear_arith)
        requires
            0 <= reach <= 0x2_0000_0000,
    ;
    if first.distance_squared(&last) >= reach * reach {
        return false;
    }
    doubled_area(path) >= 2 * (min_area as u128)
}

/// `id` is among the entities in `colliding`.
pub fn touches(colliding: &Vec<u64>, id: u64) -> (b: bool)
    ensures
        b == colliding@.contains(id),
{
    let mut i: usize = 0;
    while i < colliding.len()
        invariant
            i <= colliding@.len(),
            forall|j: int| 0 <= j < i ==> colliding@[j] != id,
        decreases colliding@.len() - i,
    {
        if colliding[i] == id {
            return true;
        }
        i += 1;
    }
    false
}

/// The enemy after a volume that overlaps `colliding` has swept: marked as
/// dying if it is among them, and as it was if not. An enemy already
/// marked stays marked.
pub open spec fn marked(enemy: EnemyActor, colliding: Seq<u64>) -> EnemyActor {
    EnemyActor { dying: enemy.dying || colliding.contains(enemy.id), ..enemy }
}

/// How many of the first `n` enemies are among `colliding`.
pub open spec fn kills(enemies: Seq<EnemyActor>, colliding: Seq<u64>, n: int) -> nat
    decreases n,
{
    if n <= 0 {
        0
    } else if colliding.contains(enemies[n - 1].id) {
        kills(enemies, colliding, n - 1) + 1
    } else {
        kills(enemies, colliding, n - 1)
    }
}

/// Marks every enemy that overlaps one hit volume and counts them.
pub fn sweep(enemies: &mut Vec<EnemyActor>, colliding: &Vec<u64>) -> (k: usize)
    ensures
        final(enemies)@.len() == old(enemies)@.len(),
        forall|i: int|
            0 <= i < old(enemies)@.len() ==> final(enemies)@[i] == marked(
                old(enemies)@[i],
                colliding@,
            ),
        k == kills(old(enemies)@, colliding@, old(enemies)@.len() as int),
{
    let mut k: usize = 0;
    let mut i: usize = 0;
    while i < enemies.len()
        invariant
            i <= enemies@.len(),
            enemies@.len() == old(enemies)@.len(),
            forall|j: int| 0 <= j < i ==> enemies@[j] == marked(old(enemies)@[j], colliding@),
            forall|j: int| i <= j < enemies@.len() ==> enemies@[j] == old(enemies)@[j],
            k == kills(old(enemies)@, colliding@, i as int),
            k <= i,
        decreases enemies@.len() - i,
    {
        if touches(colliding, enemies[i].id) {
            enemies[i].dying = true;
            k += 1;
        }
        i += 1;
    }
    k
}

impl AttackTrailCollider {
    /// The volume after `delta` more nanoseconds of cooldown.
    pub open spec fn cooled(self, delta: u64) -> AttackTrailCollider {
        AttackTrailCollider { cooldown: Cooldown(self.cooldown.0.ticked(delta)), ..self }
    }

    /// How many of `enemies` the volume overlaps.
    pub open spec fn kill_count(self, enemies: Seq<EnemyActor>) -> nat {
        kills(enemies, self.colliding@, enemies.len() as int)
    }

    /// The volume is used up on this tick: it hit at least one enemy, or
    /// its cooldown ran out without a hit.
    pub open spec fn consumed(self, enemies: Seq<EnemyActor>, delta: u64) -> bool {
        self.kill_count(enemies) > 0 || self.cooldown.0.ticked(delta).finished
    }
}

/// The cooldown of every volume is well formed.
pub open spec fn volumes_wf(volumes: Seq<AttackTrailCollider>) -> bool {
    forall|i: int| 0 <= i < volumes.len() ==> (#[trigger] volumes[i]).cooldown.0.wf()
}

/// Whether the cooldown of every volume is well formed.
pub fn check_volumes(volumes: &Vec<AttackTrailCollider>) -> (ok: bool)
    ensures
        ok == volumes_wf(volumes@),
{
    let mut i: usize = 0;
    while i < volumes.len()
        invariant
            i <= volumes@.len(),
            forall|j: int| 0 <= j < i ==> (#[trigger] volumes@[j]).cooldown.0.wf(),
        decreases volumes@.len() - i,
    {
        if !volumes[i].cooldown.0.check() {
            return false;
        }
        i += 1;
    }
    true
}

/// Some of the first `n` volumes overlaps the entity `id`.
pub open spec fn struck(volumes: Seq<AttackTrailCollider>, id: u64, n: int) -> bool
    decreases n,
{
    if n <= 0 {
        false
    } else {
        struck(volumes, id, n - 1) || volumes[n - 1].colliding@.contains(id)
    }
}

/// The score that the first `n` volumes earn: for each, the cube of the
/// number of enemies it overlaps.
pub open spec fn gain(volumes: Seq<AttackTrailCollider>, enemies: Seq<EnemyActor>, n: int) -> int
    decreases n,
{
    if n <= 0 {
        0
    } else {
        gain(volumes, enemies, n - 1) + cube(volumes[n - 1].kill_count(enemies) as int)
    }
}

/// Of the first `n` volumes, those not used up on this tick, cooled by
/// `delta`, in their old order.
pub open spec fn unspent(
    volumes: Seq<AttackTrailCollider>,
    enemies: Seq<EnemyActor>,
    delta: u64,
    n: int,
) -> Seq<AttackTrailCollider>
    decreases n,
{
    if n <= 0 {
        Seq::empty()
    } else if volumes[n - 1].consumed(enemies, delta) {
        unspent(volumes, enemies, delta, n - 1)
    } else {
        unspent(volumes, enemies, delta, n - 1).push(volumes[n - 1].cooled(delta))
    }
}

/// Of the first `n` volumes, the entities of those used up on this tick.
pub open spec fn spent(
    volumes: Seq<AttackTrailCollider>,
    enemies: Seq<EnemyActor>,
    delta: u64,
    n: int,
) -> Seq<u64>
    decreases n,
{
    if n <= 0 {
        Seq::empty()
    } else if volumes[n - 1].consumed(enemies, delta) {
        spent(volumes, enemies, delta, n - 1).push(volumes[n - 1].entity)
    } else {
        spent(volumes, enemies, delta, n - 1)
    }
}

/// A volume scores at most once: whatever is left after a sweep is a volume
/// from before it that overlapped no enemy and whose cooldown still runs,
/// so a volume that has scored is never swept again.
pub proof fn lemma_scores_at_most_once(
    volumes: Seq<AttackTrailCollider>,
    enemies: Seq<EnemyActor>,
    delta: u64,
    n: int,
    i: int,
)
    requires
        0 <= n <= volumes.len(),
        0 <= i < unspent(volumes, enemies, delta, n).len(),
    ensures
        exists|j: int|
            {
                &&& 0 <= j < n
                &&& unspent(volumes, enemies, delta, n)[i] == (#[trigger] volumes[j]).cooled(delta)
                &&& volumes[j].kill_count(enemies) == 0
                &&& !volumes[j].cooldown.0.ticked(delta).finished
            },
    decreases n,
{
    if n > 0 {
        let head = unspent(volumes, enemies, delta, n - 1);
        if i < head.len() {
            lemma_scores_at_most_once(volumes, enemies, delta, n - 1, i);
            let j = choose|j: int|
                {
                    &&& 0 <= j < n - 1
                    &&& head[i] == (#[trigger] volumes[j]).cooled(delta)
                    &&& volumes[j].kill_count(enemies) == 0
                    &&& !volumes[j].cooldown.0.ticked(delta).finished
                };
            assert(unspent(volumes, enemies, delta, n)[i] == volumes[j].cooled(delta));
        } else {
            assert(!volumes[n - 1].consumed(enemies, delta));
            assert(unspent(volumes, enemies, delta, n)[i] == volumes[n - 1].cooled(delta));
        }
    }
}

/// The kill count looks at who the enemies are, not at their marks.
pub proof fn lemma_kills_by_id(a: Seq<EnemyActor>, b: Seq<EnemyActor>, colliding: Seq<u64>, n: int)
    requires
        0 <= n <= a.len(),
        a.len() == b.len(),
        forall|i: int| 0 <= i < a.len() ==> a[i].id == b[i].id,
    ensures
        kills(a, colliding, n) == kills(b, colliding, n),
    decreases n,
{
    if n > 0 {
        lemma_kills_by_id(a, b, colliding, n - 1);
    }
}

/// No volume ever takes score away.
pub proof fn lemma_gain_nonnegative(
    volumes: Seq<AttackTrailCollider>,
    enemies: Seq<EnemyActor>,
    n: int,
)
    ensures
        gain(volumes, enemies, n) >= 0,
    decreases n,
{
    if n > 0 {
        lemma_gain_nonnegative(volumes, enemies, n - 1);
        let k = volumes[n - 1].kill_count(enemies) as int;
        assert(k * k * k >= 0) by (nonlinear_arith)
            requires
                k >= 0,
        ;
    }
}

/// Resolves the overlaps of every live attack volume.
///
/// Each volume's cooldown advances by `delta`. Every enemy that a volume
/// overlaps is marked as dying; marking twice changes nothing. A volume
/// that overlaps `k` enemies adds `k` cubed to the score and is used up at
/// once; one that overlaps none is used up when its cooldown runs out and
/// adds nothing. Returns the entities of the volumes that were used up.
pub fn check_for_collisions(
    volumes: &mut Vec<AttackTrailCollider>,
    enemies: &mut Vec<EnemyActor>,
    score: &mut Score,
    delta: u64,
) -> (gone: Vec<u64>)
    requires
        volumes_wf(old(volumes)@),
    ensures
        final(enemies)@.len() == old(enemies)@.len(),
        forall|i: int|
            0 <= i < old(enemies)@.len() ==> final(enemies)@[i] == (EnemyActor {
                dying: old(enemies)@[i].dying || struck(
                    old(volumes)@,
                    old(enemies)@[i].id,
                    old(volumes)@.len() as int,
                ),
                ..old(enemies)@[i]
            }),
        final(score).0 == capped(
            old(score).0 + gain(old(volumes)@, old(enemies)@, old(volumes)@.len() as int),
        ),
        final(score).0 >= old(score).0,
        final(volumes)@ == unspent(
            old(volumes)@,
            old(enemies)@,
            delta,
            old(volumes)@.len() as int,
        ),
        gone@ == spent(old(volumes)@, old(enemies)@, delta, old(volumes)@.len() as int),
        volumes_wf(final(volumes)@),
{
    let mut gone: Vec<u64> = Vec::new();
    let mut i: usize = 0;
    let ghost mut seen: int = 0;
    let ghost before = old(volumes)@;
    let ghost crowd = old(enemies)@;
    while i < volumes.len()
        invariant
            0 <= seen <= before.len(),
            before == old(volumes)@,
            crowd == old(enemies)@,
            volumes_wf(before),
            volumes_wf(volumes@),
            i <= volumes@.len(),
            i == unspent(before, crowd, delta, seen).len(),
            volumes@ =~= unspent(before, crowd, delta, seen) + before.subrange(
                seen,
                before.len() as int,
            ),
            gone@ == spent(before, crowd, delta, seen),
            enemies@.len() == crowd.len(),
            forall|j: int|
                0 <= j < crowd.len() ==> enemies@[j] == (EnemyActor {
                    dying: crowd[j].dying || struck(before, crowd[j].id, seen),
                    ..crowd[j]
                }),
            score.0 == capped(old(score).0 + gain(before, crowd, seen)),
            score.0 >= old(score).0,
        decreases volumes@.len() - i,
    {
        assert(volumes@[i as int] == before[seen]);
        proof {
            lemma_kills_by_id(enemies@, crowd, before[seen].colliding@, crowd.len() as int);
            lemma_gain_nonnegative(before, crowd, seen);
        }
        let ghost mid = enemies@;
        let k = sweep(enemies, &volumes[i].colliding);
        let mut timer = volumes[i].cooldown.0;
        timer.tick(delta);
        score.award(cubed(k));
        proof {
            let c = cube(k as int);
            assert(c >= 0) by (nonlinear_arith)
                requires
                    c == k * k * k,
                    k >= 0,
            ;
        }
        if k > 0 || timer.finished() {
            let used = volumes.remove(i);
            gone.push(used.entity);
        } else {
            volumes[i].cooldown = Cooldown(timer);
            assert(volumes@[i as int] == before[seen].cooled(delta));
            i += 1;
        }
        proof {
            seen = seen + 1;
        }
    }
    assert(seen == before.len());
    gone
}

/// One volume that overlaps exactly `k` enemies raises the score by `k`
/// cubed, up to the machine's largest count. A volume that overlaps none
/// leaves the score as it is and goes when its cooldown has run out.
pub proof fn lemma_score_of_one_volume(
    volume: AttackTrailCollider,
    enemies: Seq<EnemyActor>,
    delta: u64,
    before: usize,
)
    ensures
        gain(seq![volume], enemies, 1) == cube(volume.kill_count(enemies) as int),
        volume.kill_count(enemies) == 0 ==> {
            &&& capped(before + gain(seq![volume], enemies, 1)) == before
            &&& volume.consumed(enemies, delta) == volume.cooldown.0.ticked(delta).finished
        },
        volume.kill_count(enemies) > 0 ==> volume.consumed(enemies, delta),
{
    let one = seq![volume];
    assert(one[0] == volume);
    assert(gain(one, enemies, 0) == 0);
}

/// Tag of the state in which the pointer button is up.
pub const TAG_IDLE: u8 = 0;

/// Tag of the state in which the player draws.
pub const TAG_ATTACK: u8 = 1;

/// Whether the player is drawing an attack.
#[derive(Clone, Copy, Debug, PartialEq, Eq, Structural)]
pub enum AttackState {
    /// The pointer button is up.
    Idle,
    /// The pointer button is held and the path is being drawn.
    Attack,
}

/// What the pointer did since the last tick.
#[derive(Clone, Copy, Debug, PartialEq, Eq)]
pub struct Pointer {
    pub just_pressed: bool,
    pub just_released: bool,
    /// Where the cursor is in the world, if it is over the window.
    pub cursor: Option<Point>,
}

/// The predicates of the attack automaton.
#[derive(Clone, Copy, Debug, PartialEq, Eq, Structural)]
pub enum AttackTrigger {
    LeftMouseDown,
    LeftMouseUp,
}

impl Tagged for AttackState {
    open spec fn tag(&self) -> u8 {
        match self {
            AttackState::Idle => TAG_IDLE,
            AttackState::Attack => TAG_ATTACK,
        }
    }

    fn tag_of(&self) -> (t: u8) {
        match self {
            AttackState::Idle => TAG_IDLE,
            AttackState::Attack => TAG_ATTACK,
        }
    }
}

impl Trigger<AttackState> for AttackTrigger {
    type Scene = Pointer;

    open spec fn fires(&self, actor: u64, state: &AttackState, scene: &Pointer) -> bool {
        match self {
            AttackTrigger::LeftMouseDown => scene.just_pressed,
            AttackTrigger::LeftMouseUp => scene.just_released,
        }
    }

    fn check(&self, actor: u64, state: &AttackState, scene: &Pointer) -> (b: bool) {
        match self {
            AttackTrigger::LeftMouseDown => scene.just_pressed,
            AttackTrigger::LeftMouseUp => scene.just_released,
        }
    }
}

/// The automaton of the attack drawer; it has no hooks.
pub type AttackMachine = StateMachine<AttackTrigger, AttackState, ()>;

/// The attack automaton: pressing starts a drawing, releasing ends it.
pub open spec fn attack_rules() -> Seq<Rule<AttackTrigger, AttackState>> {
    seq![
        Rule {
            from: Source::State(TAG_IDLE),
            trigger: AttackTrigger::LeftMouseDown,
            to: AttackState::Attack,
        },
        Rule {
            from: Source::State(TAG_ATTACK),
            trigger: AttackTrigger::LeftMouseUp,
            to: AttackState::Idle,
        },
    ]
}

/// The session's one attack drawer: its automaton and its present state.
pub struct AttackComponent {
    pub machine: AttackMachine,
    pub state: AttackState,
}

/// Sets the attack up at session start: an empty path and an idle drawer.
pub fn init_attack() -> (r: (AttackPositions, AttackComponent))
    ensures
        r.0.0@.len() == 0,
        r.1.state == AttackState::Idle,
        r.1.machine.rules@ == attack_rules(),
        r.1.machine.hooks@.len() == 0,
{
    let mut machine: AttackMachine = StateMachine::new();
    machine.register(Source::State(TAG_IDLE), AttackTrigger::LeftMouseDown, AttackState::Attack);
    machine.register(Source::State(TAG_ATTACK), AttackTrigger::LeftMouseUp, AttackState::Idle);
    assert(machine.rules@ =~= attack_rules());
    (AttackPositions(Vec::new()), AttackComponent { machine, state: AttackState::Idle })
}

/// Where the attack automaton sends the drawer in one tick.
pub open spec fn attack_successor(state: AttackState, pointer: &Pointer) -> AttackState {
    match state {
        AttackState::Idle => if pointer.just_pressed {
            AttackState::Attack
        } else {
            state
        },
        AttackState::Attack => if pointer.just_released {
            AttackState::Idle
        } else {
            state
        },
    }
}

/// A machine that holds the attack rules moves the drawer exactly as
/// `attack_successor` says.
pub proof fn lemma_attack_graph(m: &AttackMachine, actor: u64, state: AttackState, pointer: &Pointer)
    requires
        m.rules@ == attack_rules(),
    ensures
        m.successor(actor, &state, pointer) == attack_successor(state, pointer),
{
    let rules = attack_rules();
    assert(rules.len() == 2);
    assert forall|j: int| !m.wildcard_hit(j, actor, &state, pointer) by {}
    let pick: int = match state {
        AttackState::Idle => if pointer.just_pressed {
            0
        } else {
            -1
        },
        AttackState::Attack => if pointer.just_released {
            1
        } else {
            -1
        },
    };
    if pick >= 0 {
        assert(m.specific_hit(pick, actor, &state, pointer));
        assert(m.chosen(pick, actor, &state, pointer));
        m.lemma_successor_of_chosen(pick, actor, &state, pointer);
    } else {
        assert forall|j: int| !m.specific_hit(j, actor, &state, pointer) by {
            if 0 <= j < 2 {
                assert(rules[j] == m.rules@[j]);
            }
        }
        assert(m.idle(actor, &state, pointer));
        m.lemma_successor_when_idle(actor, &state, pointer);
    }
}

impl AttackComponent {
    /// Whether the drawer's automaton holds the attack rules.
    pub fn check(&self) -> (ok: bool)
        ensures
            ok == (self.machine.rules@ == attack_rules()),
    {
        let rules = &self.machine.rules;
        if rules.len() != 2 {
            return false;
        }
        let ok = rules[0].from == Source::State(TAG_IDLE) && rules[0].trigger
            == AttackTrigger::LeftMouseDown && rules[0].to == AttackState::Attack && rules[1].from
            == Source::State(TAG_ATTACK) && rules[1].trigger == AttackTrigger::LeftMouseUp
            && rules[1].to == AttackState::Idle;
        proof {
            let model = attack_rules();
            assert(model.len() == 2);
            if ok {
                assert(rules@ =~= model);
            } else {
                assert(rules@[0] != model[0] || rules@[1] != model[1]);
            }
        }
        ok
    }

    /// Runs the drawer's automaton against the pointer.
    pub fn advance(&mut self, pointer: &Pointer)
        requires
            old(self).machine.rules@ == attack_rules(),
        ensures
            *final(self) == (AttackComponent {
                state: attack_successor(old(self).state, pointer),
                ..*old(self)
            }),
    {
        proof {
            lemma_attack_graph(&self.machine, 0, self.state, pointer);
        }
        match self.machine.tick(0, &self.state, pointer) {
            Some(t) => {
                self.state = t.state;
            },
            None => {},
        }
    }
}

/// The groups of the hit volume of a drawn attack: it reacts to enemies.
pub open spec fn trail_groups() -> CollisionGroups {
    CollisionGroups { memberships: ATTACK_TRAIL_GROUP, filters: ENEMY_GROUP }
}

/// `volume` is the hit volume that the path `path` lands as, under the id
/// `entity`: its outline is the path forward and then backward, it reacts
/// to enemies, its cooldown has not begun, and nothing overlaps it yet.
pub open spec fn lands_as(volume: AttackTrailCollider, path: Seq<Point>, entity: u64) -> bool {
    &&& volume.entity == entity
    &&& volume.outline@ == outline_of(path)
    &&& volume.groups == trail_groups()
    &&& volume.cooldown == Cooldown(Timer::fresh(ATTACK_COOLDOWN))
    &&& volume.colliding@.len() == 0
}

/// Whether a sample at `cursor` is added to the path: only while drawing,
/// only with the cursor over the window, and not if it repeats the sample
/// before it.
pub open spec fn sampled(path: Seq<Point>, state: AttackState, cursor: Option<Point>) -> bool {
    &&& state == AttackState::Attack
    &&& cursor is Some
    &&& (path.len() == 0 || path.last() != cursor->0)
}

/// Samples the cursor once. Returns the point that was added to the path,
/// which is where the caller puts a trail marker.
pub fn track_mouse_movement(
    positions: &mut AttackPositions,
    state: &AttackState,
    cursor: Option<Point>,
) -> (mark: Option<Point>)
    ensures
        sampled(old(positions).0@, *state, cursor) ==> mark == cursor && final(positions).0@ == old(
            positions,
        ).0@.push(cursor->0),
        !sampled(old(positions).0@, *state, cursor) ==> mark is None && final(positions).0@ == old(
            positions,
        ).0@,
{
    match state {
        AttackState::Idle => None,
        AttackState::Attack => match cursor {
            Some(p) => {
                let n = positions.0.len();
                if n > 0 && positions.0[n - 1].x == p.x && positions.0[n - 1].y == p.y {
                    None
                } else {
                    positions.0.push(p);
                    Some(p)
                }
            },
            None => None,
        },
    }
}

/// Builds the outline of the hit volume from a drawn path.
pub fn trail_outline(path: &Vec<Point>) -> (out: Vec<Point>)
    ensures
        out@ == outline_of(path@),
{
    let n: usize = path.len();
    let mut out: Vec<Point> = Vec::new();
    let mut i: usize = 0;
    while i < n
        invariant
            i <= n,
            n == path@.len(),
            out@ == path@.subrange(0, i as int),
        decreases n - i,
    {
        out.push(path[i]);
        i += 1;
    }
    let ghost back = path@.reverse();
    let mut k: usize = n;
    while k > 0
        invariant
            k <= n,
            n == path@.len(),
            back == path@.reverse(),
            out@ == path@ + back.subrange(0, n - k),
        decreases k,
    {
        k -= 1;
        assert(back[n - 1 - k] == path@[k as int]);
        out.push(path[k]);
        assert(out@ =~= path@ + back.subrange(0, n - k));
    }
    assert(out@ =~= path@ + back);
    out
}

/// How a check of the drawn path ended.
pub enum AttackOutcome {
    /// The player is still drawing; the path was left alone.
    Pending,
    /// The path was no valid attack. It was cleared, and the trail markers
    /// are to be removed.
    Discarded,
    /// The path was a valid attack. It was cleared, the trail markers are
    /// to be removed and this hit volume is to be created.
    Landed(AttackTrailCollider),
}

/// Checks the drawn path once the player has let go.
///
/// While the player draws, nothing happens. Otherwise the path is cleared
/// whatever it held, and it yields a hit volume, under the id `entity`,
/// exactly if it was a valid attack shape: at least two points, ending
/// closer than two sprite sizes to its start, and enclosing the least
/// attack area or more.
pub fn check_attack(positions: &mut AttackPositions, state: &AttackState, entity: u64) -> (r:
    AttackOutcome)
    ensures
        *state == AttackState::Attack ==> r is Pending && final(positions).0@ == old(positions).0@,
        *state == AttackState::Idle ==> final(positions).0@.len() == 0,
        *state == AttackState::Idle && !valid_attack(
            old(positions).0@,
            SPRITE_SIZE,
            MIN_ATTACK_AREA,
        ) ==> r is Discarded,
        *state == AttackState::Idle && valid_attack(old(positions).0@, SPRITE_SIZE, MIN_ATTACK_AREA)
            ==> {
            &&& r matches AttackOutcome::Landed(v)
            &&& lands_as(v, old(positions).0@, entity)
        },
{
    match state {
        AttackState::Attack => AttackOutcome::Pending,
        AttackState::Idle => {
            let outcome = if validate(&positions.0, SPRITE_SIZE, MIN_ATTACK_AREA) {
                AttackOutcome::Landed(
                    AttackTrailCollider {
                        entity,
                        outline: trail_outline(&positions.0),
                        groups: CollisionGroups {
                            memberships: ATTACK_TRAIL_GROUP,
                            filters: ENEMY_GROUP,
                        },
                        cooldown: Cooldown(Timer::new(ATTACK_COOLDOWN)),
                        colliding: Vec::new(),
                    },
                )
            } else {
                AttackOutcome::Discarded
            };
            positions.0.clear();
            outcome
        },
    }
}

} // verus!
