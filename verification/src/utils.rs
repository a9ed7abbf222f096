//! The entity hierarchy and its recursive clean-up.

use vstd::prelude::*;

verus! {

/// One entity of the scene. `parent` names the entity it hangs on, if any,
/// and `component` is the marker it carries, if it carries one. A list of
/// nodes may name them in any order.
pub struct Node<C> {
    pub id: u64,
    pub parent: Option<u64>,
    pub component: Option<C>,
}

/// Node `i` carries the component or is reached from a node that carries
/// it by going down at most `k` links from parent to child.
pub open spec fn reached<C>(nodes: Seq<Node<C>>, i: int, k: nat) -> bool
    decreases k,
{
    &&& 0 <= i < nodes.len()
    &&& {
        ||| nodes[i].component is Some
        ||| k > 0 && nodes[i].parent is Some && exists|j: int|
            0 <= j < nodes.len() && (#[trigger] nodes[j]).id == nodes[i].parent->0 && reached(
                nodes,
                j,
                (k - 1) as nat,
            )
    }
}

/// Node `i` goes in a recursive clean-up: it carries the component or
/// descends, over any number of links and wherever its ancestors stand in
/// the list, from a node that carries it.
pub open spec fn doomed<C>(nodes: Seq<Node<C>>, i: int) -> bool {
    exists|k: nat| reached(nodes, i, k)
}

/// Of the first `n` nodes, those that stay, in their old order.
pub open spec fn survivors<C>(nodes: Seq<Node<C>>, n: int) -> Seq<Node<C>>
    decreases n,
{
    if n <= 0 {
        Seq::empty()
    } else if doomed(nodes, n - 1) {
        survivors(nodes, n - 1)
    } else {
        survivors(nodes, n - 1).push(nodes[n - 1])
    }
}

/// Of the first `n` nodes, the ids of those that go, in their old order.
pub open spec fn casualties<C>(nodes: Seq<Node<C>>, n: int) -> Seq<u64>
    decreases n,
{
    if n <= 0 {
        Seq::empty()
    } else if doomed(nodes, n - 1) {
        casualties(nodes, n - 1).push(nodes[n - 1].id)
    } else {
        casualties(nodes, n - 1)
    }
}

/// How many of the first `n` flags are set.
pub open spec fn count_set(flags: Seq<bool>, n: int) -> nat
    decreases n,
{
    if n <= 0 {
        0
    } else if flags[n - 1] {
        count_set(flags, n - 1) + 1
    } else {
        count_set(flags, n - 1)
    }
}

/// What is reached over `k` links is reached over more.
pub proof fn lemma_reached_grows<C>(nodes: Seq<Node<C>>, i: int, k: nat, m: nat)
    requires
        reached(nodes, i, k),
        k <= m,
    ensures
        reached(nodes, i, m),
    decreases k,
{
    if nodes[i].component is None {
        let j = choose|j: int|
            0 <= j < nodes.len() && (#[trigger] nodes[j]).id == nodes[i].parent->0 && reached(
                nodes,
                j,
                (k - 1) as nat,
            );
        lemma_reached_grows(nodes, j, (k - 1) as nat, (m - 1) as nat);
    }
}

/// Once one more link reaches nothing new, no number of links does.
pub proof fn lemma_reached_settles<C>(nodes: Seq<Node<C>>, i: int, k: nat, m: nat)
    requires
        forall|j: int| reached(nodes, j, k + 1) ==> reached(nodes, j, k),
        reached(nodes, i, m),
    ensures
        reached(nodes, i, k),
    decreases m,
{
    if m <= k {
        lemma_reached_grows(nodes, i, m, k);
    } else if nodes[i].component is None {
        let j = choose|j: int|
            0 <= j < nodes.len() && (#[trigger] nodes[j]).id == nodes[i].parent->0 && reached(
                nodes,
                j,
                (m - 1) as nat,
            );
        lemma_reached_settles(nodes, j, k, (m - 1) as nat);
        assert(reached(nodes, i, k + 1));
    }
}

/// A clean-up does not depend on the order of the list in this sense: a
/// node goes exactly if it carries the component or its parent, wherever
/// that stands, goes.
pub proof fn lemma_doomed_by_parent<C>(nodes: Seq<Node<C>>, i: int)
    requires
        0 <= i < nodes.len(),
    ensures
        doomed(nodes, i) <==> nodes[i].component is Some || (nodes[i].parent is Some && exists|
            j: int,
        |
            0 <= j < nodes.len() && (#[trigger] nodes[j]).id == nodes[i].parent->0 && doomed(
                nodes,
                j,
            )),
{
    if doomed(nodes, i) && nodes[i].component is None {
        let k = choose|k: nat| reached(nodes, i, k);
        let j = choose|j: int|
            0 <= j < nodes.len() && (#[trigger] nodes[j]).id == nodes[i].parent->0 && reached(
                nodes,
                j,
                (k - 1) as nat,
            );
        assert(doomed(nodes, j));
    }
    if nodes[i].component is Some {
        assert(reached(nodes, i, 0));
    } else if nodes[i].parent is Some && exists|j: int|
        0 <= j < nodes.len() && (#[trigger] nodes[j]).id == nodes[i].parent->0 && doomed(nodes, j) {
        let j = choose|j: int|
            0 <= j < nodes.len() && (#[trigger] nodes[j]).id == nodes[i].parent->0 && doomed(
                nodes,
                j,
            );
        let k = choose|k: nat| reached(nodes, j, k);
        assert(reached(nodes, i, k + 1));
    }
}

/// Where no node carries the component, none is reached.
pub proof fn lemma_unmarked_unreached<C>(nodes: Seq<Node<C>>, i: int, k: nat)
    requires
        forall|j: int| 0 <= j < nodes.len() ==> (#[trigger] nodes[j]).component is None,
    ensures
        !reached(nodes, i, k),
    decreases k,
{
    if reached(nodes, i, k) {
        let j = choose|j: int|
            0 <= j < nodes.len() && (#[trigger] nodes[j]).id == nodes[i].parent->0 && reached(
                nodes,
                j,
                (k - 1) as nat,
            );
        lemma_unmarked_unreached(nodes, j, (k - 1) as nat);
    }
}

/// A scene in which no node carries the component is left as it is.
pub proof fn lemma_unmarked_stays<C>(nodes: Seq<Node<C>>, n: int)
    requires
        0 <= n <= nodes.len(),
        forall|j: int| 0 <= j < nodes.len() ==> (#[trigger] nodes[j]).component is None,
    ensures
        survivors(nodes, n) == nodes.subrange(0, n),
        casualties(nodes, n).len() == 0,
    decreases n,
{
    if n > 0 {
        lemma_unmarked_stays(nodes, n - 1);
        let last = n - 1;
        assert(!doomed(nodes, last)) by {
            if doomed(nodes, last) {
                let k = choose|k: nat| reached(nodes, last, k);
                lemma_unmarked_unreached(nodes, last, k);
            }
        }
        assert(survivors(nodes, n) =~= nodes.subrange(0, n));
    } else {
        assert(survivors(nodes, n) =~= nodes.subrange(0, n));
    }
}

/// Whatever a clean-up leaves is a node from before it, unchanged, that
/// neither carries the component nor descends from one that does. So a
/// second clean-up finds nothing to remove.
pub proof fn lemma_survivors_unmarked<C>(nodes: Seq<Node<C>>, n: int, i: int)
    requires
        0 <= n <= nodes.len(),
        0 <= i < survivors(nodes, n).len(),
    ensures
        exists|j: int|
            0 <= j < n && survivors(nodes, n)[i] == #[trigger] nodes[j] && !doomed(nodes, j),
        survivors(nodes, n)[i].component is None,
    decreases n,
{
    if n > 0 {
        let head = survivors(nodes, n - 1);
        if i < head.len() {
            lemma_survivors_unmarked(nodes, n - 1, i);
            let j = choose|j: int| 0 <= j < n - 1 && head[i] == #[trigger] nodes[j] && !doomed(nodes, j);
            assert(survivors(nodes, n)[i] == nodes[j]);
        } else {
            assert(survivors(nodes, n)[i] == nodes[n - 1]);
            assert(!doomed(nodes, n - 1));
        }
        let j = choose|j: int|
            0 <= j < n && survivors(nodes, n)[i] == #[trigger] nodes[j] && !doomed(nodes, j);
        if nodes[j].component is Some {
            assert(reached(nodes, j, 0));
        }
    }
}

proof fn lemma_count_bound(flags: Seq<bool>, n: int)
    requires
        0 <= n,
    ensures
        count_set(flags, n) <= n,
    decreases n,
{
    if n > 0 {
        lemma_count_bound(flags, n - 1);
    }
}

/// Setting more flags raises the count, and by at least one where a flag
/// among the first `n` is newly set.
proof fn lemma_count_grows(a: Seq<bool>, b: Seq<bool>, n: int)
    requires
        0 <= n <= a.len(),
        a.len() == b.len(),
        forall|i: int| 0 <= i < a.len() && a[i] ==> b[i],
    ensures
        count_set(a, n) <= count_set(b, n),
        (exists|i: int| 0 <= i < n && !a[i] && b[i]) ==> count_set(a, n) < count_set(b, n),
    decreases n,
{
    if n > 0 {
        lemma_count_grows(a, b, n - 1);
        if exists|i: int| 0 <= i < n && !a[i] && b[i] {
            let i = choose|i: int| 0 <= i < n && !a[i] && b[i];
            if i < n - 1 {
                assert(0 <= i < n - 1 && !a[i] && b[i]);
            }
        }
    }
}

/// Whether a node with the id `id` is flagged.
fn flagged<C>(nodes: &Vec<Node<C>>, flags: &Vec<bool>, id: u64) -> (b: bool)
    requires
        flags@.len() == nodes@.len(),
    ensures
        b == exists|j: int| 0 <= j < nodes@.len() && (#[trigger] nodes@[j]).id == id && flags@[j],
{
    let mut j: usize = 0;
    while j < nodes.len()
        invariant
            j <= nodes@.len(),
            flags@.len() == nodes@.len(),
            forall|t: int| 0 <= t < j ==> !((#[trigger] nodes@[t]).id == id && flags@[t]),
        decreases nodes@.len() - j,
    {
        if nodes[j].id == id && flags[j] {
            return true;
        }
        j += 1;
    }
    false
}

/// One round of marking: from the nodes reached over `k` links to those
/// reached over one more. Also tells whether the round reached a new node.
fn spread<C>(nodes: &Vec<Node<C>>, flags: &Vec<bool>, k: Ghost<nat>) -> (r: (Vec<bool>, bool))
    requires
        flags@.len() == nodes@.len(),
        forall|i: int| 0 <= i < nodes@.len() ==> flags@[i] == reached(nodes@, i, k@),
    ensures
        r.0@.len() == nodes@.len(),
        forall|i: int| 0 <= i < nodes@.len() ==> r.0@[i] == reached(nodes@, i, k@ + 1),
        r.1 == exists|i: int| 0 <= i < nodes@.len() && !flags@[i] && r.0@[i],
{
    let mut next: Vec<bool> = Vec::new();
    let mut changed: bool = false;
    let mut i: usize = 0;
    while i < nodes.len()
        invariant
            i <= nodes@.len(),
            flags@.len() == nodes@.len(),
            next@.len() == i,
            forall|t: int| 0 <= t < nodes@.len() ==> flags@[t] == reached(nodes@, t, k@),
            forall|t: int| 0 <= t < i ==> next@[t] == reached(nodes@, t, k@ + 1),
            changed == exists|t: int| 0 <= t < i && !flags@[t] && next@[t],
        decreases nodes@.len() - i,
    {
        let hangs = match nodes[i].parent {
            Some(p) => flagged(nodes, flags, p),
            None => false,
        };
        let now = nodes[i].component.is_some() || hangs;
        assert(now == reached(nodes@, i as int, k@ + 1));
        let ghost before = next@;
        if now && !flags[i] {
            changed = true;
        }
        next.push(now);
        proof {
            assert forall|t: int| 0 <= t < i implies next@[t] == before[t] by {}
            if exists|t: int| 0 <= t < i && !flags@[t] && before[t] {
                let t = choose|t: int| 0 <= t < i && !flags@[t] && before[t];
                assert(0 <= t < i + 1 && !flags@[t] && next@[t]);
            }
            if exists|t: int| 0 <= t < i + 1 && !flags@[t] && next@[t] {
                let t = choose|t: int| 0 <= t < i + 1 && !flags@[t] && next@[t];
                if t < i {
                    assert(0 <= t < i && !flags@[t] && before[t]);
                }
            }
        }
        i += 1;
    }
    (next, changed)
}

/// Removes every entity that carries the component `C`, and with each all
/// that descends from it, in whatever order the entities are listed.
/// Returns the ids of the removed entities, in list order.
pub fn despawn_all_recursive<C>(nodes: &mut Vec<Node<C>>) -> (gone: Vec<u64>)
    ensures
        final(nodes)@ == survivors(old(nodes)@, old(nodes)@.len() as int),
        gone@ == casualties(old(nodes)@, old(nodes)@.len() as int),
{
    let ghost before = nodes@;
    let ghost n = nodes@.len() as int;
    let mut flags: Vec<bool> = Vec::new();
    let mut m: usize = 0;
    while m < nodes.len()
        invariant
            m <= nodes@.len(),
            flags@.len() == m,
            forall|t: int| 0 <= t < m ==> flags@[t] == reached(nodes@, t, 0),
        decreases nodes@.len() - m,
    {
        flags.push(nodes[m].component.is_some());
        m += 1;
    }
    let ghost mut k: nat = 0;
    let mut changed: bool = true;
    while changed
        invariant
            nodes@ == before,
            n == before.len(),
            flags@.len() == n,
            forall|t: int| 0 <= t < n ==> flags@[t] == reached(before, t, k),
            !changed ==> forall|t: int| reached(before, t, k + 1) ==> reached(before, t, k),
        decreases
                2 * (n - count_set(flags@, n)) + if changed {
                    1int
                } else {
                    0int
                },
    {
        let (next, grew) = spread(nodes, &flags, Ghost(k));
        proof {
            lemma_count_bound(next@, n);
            assert forall|t: int| 0 <= t < n && flags@[t] implies next@[t] by {
                lemma_reached_grows(before, t, k, k + 1);
            }
            lemma_count_grows(flags@, next@, n);
            if !grew {
                assert forall|t: int| reached(before, t, k + 1) implies reached(before, t, k) by {
                    if 0 <= t < n {
                        assert(!(!flags@[t] && next@[t]));
                    }
                }
            }
        }
        if grew {
            flags = next;
            proof {
                k = k + 1;
            }
        }
        changed = grew;
    }
    proof {
        assert forall|t: int| 0 <= t < n implies flags@[t] == doomed(before, t) by {
            if doomed(before, t) {
                let far = choose|far: nat| reached(before, t, far);
                lemma_reached_settles(before, t, k, far);
            }
        }
    }
    let mut gone: Vec<u64> = Vec::new();
    let mut i: usize = 0;
    let mut seen: usize = 0;
    while seen < flags.len()
        invariant
            n == before.len(),
            flags@.len() == n,
            seen <= n,
            forall|t: int| 0 <= t < n ==> flags@[t] == doomed(before, t),
            i <= seen,
            i <= nodes@.len(),
            i == survivors(before, seen as int).len(),
            nodes@ =~= survivors(before, seen as int) + before.subrange(seen as int, n),
            gone@ == casualties(before, seen as int),
        decreases n - seen,
    {
        assert(nodes@[i as int] == before[seen as int]);
        if flags[seen] {
            let node = nodes.remove(i);
            gone.push(node.id);
        } else {
            i += 1;
        }
        seen += 1;
    }
    gone
}

} // verus!
