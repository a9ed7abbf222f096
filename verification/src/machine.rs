//! A per-actor finite automaton: an ordered table of transition rules plus
//! enter and exit hooks, evaluated once per tick against a read-only scene.

use vstd::prelude::*;

verus! {

/// A behaviour state that can name its own mode.
pub trait Tagged {
    /// The mode of this state; states of one mode differ only in payload.
    spec fn tag(&self) -> u8;

    fn tag_of(&self) -> (t: u8)
        ensures
            t == self.tag(),
    ;
}

/// A pure predicate over the scene, the acting entity and its current state.
pub trait Trigger<S> {
    /// The read-only snapshot that predicates are evaluated against.
    type Scene;

    spec fn fires(&self, actor: u64, state: &S, scene: &Self::Scene) -> bool;

    fn check(&self, actor: u64, state: &S, scene: &Self::Scene) -> (b: bool)
        ensures
            b == self.fires(actor, state, scene),
    ;
}

/// The states a rule starts from: one mode, or every mode.
#[derive(Clone, Copy, Debug, PartialEq, Eq, Structural)]
pub enum Source {
    State(u8),
    Any,
}

/// One registered transition.
pub struct Rule<T, S> {
    pub from: Source,
    pub trigger: T,
    pub to: S,
}

/// When a hook runs relative to a mode.
#[derive(Clone, Copy, Debug, PartialEq, Eq, Structural)]
pub enum Edge {
    Enter,
    Exit,
}

/// An effect to hand out whenever a mode is entered or left.
pub struct Hook<E> {
    pub tag: u8,
    pub edge: Edge,
    pub effect: E,
}

/// The outcome of a tick on which a rule fired.
pub struct Transition<S, E> {
    /// Index of the rule that fired, in registration order.
    pub rule: usize,
    /// The state the actor now holds.
    pub state: S,
    /// Exit effects of the old mode, then enter effects of the new one.
    pub effects: Vec<E>,
}

/// A finite automaton: its rules and its hooks, each in registration order.
pub struct StateMachine<T, S, E> {
    pub rules: Vec<Rule<T, S>>,
    pub hooks: Vec<Hook<E>>,
}

/// The effects of the hooks among the first `n` that are registered for
/// `tag` on `edge`, in registration order.
pub open spec fn hook_effects<E>(hooks: Seq<Hook<E>>, tag: u8, edge: Edge, n: int) -> Seq<E>
    decreases n,
{
    if n <= 0 {
        Seq::empty()
    } else {
        let rest = hook_effects(hooks, tag, edge, n - 1);
        if hooks[n - 1].tag == tag && hooks[n - 1].edge == edge {
            rest.push(hooks[n - 1].effect)
        } else {
            rest
        }
    }
}

impl<T: Trigger<S>, S: Tagged + Copy, E: Copy> StateMachine<T, S, E> {
    /// Rule `i` is registered for exactly the mode of `state` and its
    /// predicate holds.
    pub open spec fn specific_hit(&self, i: int, actor: u64, state: &S, scene: &T::Scene) -> bool {
        &&& 0 <= i < self.rules@.len()
        &&& self.rules@[i].from == Source::State(state.tag())
        &&& self.rules@[i].trigger.fires(actor, state, scene)
    }

    /// Rule `i` is a wildcard rule and its predicate holds.
    pub open spec fn wildcard_hit(&self, i: int, actor: u64, state: &S, scene: &T::Scene) -> bool {
        &&& 0 <= i < self.rules@.len()
        &&& self.rules@[i].from == Source::Any
        &&& self.rules@[i].trigger.fires(actor, state, scene)
    }

    /// Rule `i` is the one a tick applies: the first specific hit in
    /// registration order, or, when no specific rule hits, the first
    /// wildcard hit.
    pub open spec fn chosen(&self, i: int, actor: u64, state: &S, scene: &T::Scene) -> bool {
        ||| {
            &&& self.specific_hit(i, actor, state, scene)
            &&& forall|j: int| 0 <= j < i ==> !self.specific_hit(j, actor, state, scene)
        }
        ||| {
            &&& self.wildcard_hit(i, actor, state, scene)
            &&& forall|j: int| 0 <= j < i ==> !self.wildcard_hit(j, actor, state, scene)
            &&& forall|j: int| !self.specific_hit(j, actor, state, scene)
        }
    }

    /// No rule applies: the actor keeps its state.
    pub open spec fn idle(&self, actor: u64, state: &S, scene: &T::Scene) -> bool {
        forall|j: int|
            !self.specific_hit(j, actor, state, scene) && !self.wildcard_hit(j, actor, state, scene)
    }

    /// The state the actor holds after a tick: the target of the chosen
    /// rule, or its present state when no rule applies.
    pub open spec fn successor(&self, actor: u64, state: &S, scene: &T::Scene) -> S {
        if exists|i: int| self.chosen(i, actor, state, scene) {
            self.rules@[choose|i: int| self.chosen(i, actor, state, scene)].to
        } else {
            *state
        }
    }

    /// At most one rule is chosen on any tick.
    pub proof fn lemma_chosen_unique(&self, i: int, j: int, actor: u64, state: &S, scene: &T::Scene)
        requires
            self.chosen(i, actor, state, scene),
            self.chosen(j, actor, state, scene),
        ensures
            i == j,
    {
        if i < j {
            assert(self.specific_hit(i, actor, state, scene) || self.wildcard_hit(
                i,
                actor,
                state,
                scene,
            ));
        } else if j < i {
            assert(self.specific_hit(j, actor, state, scene) || self.wildcard_hit(
                j,
                actor,
                state,
                scene,
            ));
        }
    }

    /// The successor state is the target of whichever rule is chosen.
    pub proof fn lemma_successor_of_chosen(&self, i: int, actor: u64, state: &S, scene: &T::Scene)
        requires
            self.chosen(i, actor, state, scene),
        ensures
            self.successor(actor, state, scene) == self.rules@[i].to,
    {
        let k = choose|k: int| self.chosen(k, actor, state, scene);
        self.lemma_chosen_unique(i, k, actor, state, scene);
    }

    /// A tick on which nothing hits leaves the state as it is.
    pub proof fn lemma_successor_when_idle(&self, actor: u64, state: &S, scene: &T::Scene)
        requires
            self.idle(actor, state, scene),
        ensures
            self.successor(actor, state, scene) == *state,
    {
        if exists|i: int| self.chosen(i, actor, state, scene) {
            let k = choose|k: int| self.chosen(k, actor, state, scene);
            assert(self.specific_hit(k, actor, state, scene) || self.wildcard_hit(
                k,
                actor,
                state,
                scene,
            ));
        }
    }

    /// Transitions are deterministic: two machines holding the same rules in
    /// the same registration order send the same actor, in the same state and
    /// against the same scene, to the same successor state.
    pub proof fn lemma_tick_deterministic(
        &self,
        other: &Self,
        actor: u64,
        state: &S,
        scene: &T::Scene,
    )
        requires
            self.rules@ == other.rules@,
        ensures
            self.successor(actor, state, scene) == other.successor(actor, state, scene),
            self.successor(actor, state, scene).tag() == other.successor(actor, state, scene).tag(),
    {
        assert forall|i: int|
            self.specific_hit(i, actor, state, scene) == other.specific_hit(
                i,
                actor,
                state,
                scene,
            ) by {}
        assert forall|i: int|
            self.wildcard_hit(i, actor, state, scene) == other.wildcard_hit(
                i,
                actor,
                state,
                scene,
            ) by {}
        assert forall|i: int|
            self.chosen(i, actor, state, scene) == other.chosen(i, actor, state, scene) by {}
        if exists|i: int| self.chosen(i, actor, state, scene) {
            let k = choose|k: int| self.chosen(k, actor, state, scene);
            self.lemma_successor_of_chosen(k, actor, state, scene);
            other.lemma_successor_of_chosen(k, actor, state, scene);
        }
    }

    /// The effects handed out when an actor leaves mode `old_tag` for `new_tag`.
    pub open spec fn effects_of(&self, old_tag: u8, new_tag: u8) -> Seq<E> {
        hook_effects(self.hooks@, old_tag, Edge::Exit, self.hooks@.len() as int) + hook_effects(
            self.hooks@,
            new_tag,
            Edge::Enter,
            self.hooks@.len() as int,
        )
    }

    /// A machine without rules or hooks.
    pub fn new() -> (m: Self)
        ensures
            m.rules@.len() == 0,
            m.hooks@.len() == 0,
    {
        StateMachine { rules: Vec::new(), hooks: Vec::new() }
    }

    /// Appends a rule; earlier rules keep their place and their priority.
    pub fn register(&mut self, from: Source, trigger: T, to: S)
        ensures
            final(self).rules@ == old(self).rules@.push(Rule { from, trigger, to }),
            final(self).hooks@ == old(self).hooks@,
    {
        self.rules.push(Rule { from, trigger, to });
    }

    /// Registers `effect` to be handed out whenever mode `tag` is entered.
    pub fn on_enter(&mut self, tag: u8, effect: E)
        ensures
            final(self).hooks@ == old(self).hooks@.push(Hook { tag, edge: Edge::Enter, effect }),
            final(self).rules@ == old(self).rules@,
    {
        self.hooks.push(Hook { tag, edge: Edge::Enter, effect });
    }

    /// Registers `effect` to be handed out whenever mode `tag` is left.
    pub fn on_exit(&mut self, tag: u8, effect: E)
        ensures
            final(self).hooks@ == old(self).hooks@.push(Hook { tag, edge: Edge::Exit, effect }),
            final(self).rules@ == old(self).rules@,
    {
        self.hooks.push(Hook { tag, edge: Edge::Exit, effect });
    }

    fn collect(&self, tag: u8, edge: Edge, out: &mut Vec<E>)
        ensures
            final(out)@ == old(out)@ + hook_effects(
                self.hooks@,
                tag,
                edge,
                self.hooks@.len() as int,
            ),
    {
        let mut k: usize = 0;
        while k < self.hooks.len()
            invariant
                k <= self.hooks@.len(),
                out@ == old(out)@ + hook_effects(self.hooks@, tag, edge, k as int),
            decreases self.hooks@.len() - k,
        {
            let hook = &self.hooks[k];
            if hook.tag == tag && hook.edge == edge {
                out.push(hook.effect);
            }
            k += 1;
        }
    }

    fn fire(&self, i: usize, state: &S) -> (t: Transition<S, E>)
        requires
            i < self.rules@.len(),
        ensures
            t.rule == i,
            t.state == self.rules@[i as int].to,
            t.effects@ == self.effects_of(state.tag(), self.rules@[i as int].to.tag()),
    {
        let next = self.rules[i].to;
        let mut effects: Vec<E> = Vec::new();
        self.collect(state.tag_of(), Edge::Exit, &mut effects);
        self.collect(next.tag_of(), Edge::Enter, &mut effects);
        Transition { rule: i, state: next, effects }
    }

    /// Evaluates the rules for one actor against `scene`.
    ///
    /// Rules registered for the actor's current mode are tried first, in
    /// registration order; wildcard rules are tried only when none of those
    /// fires. The first rule whose predicate holds is applied. When no rule
    /// applies the result is `None` and the actor keeps its state.
    pub fn tick(&self, actor: u64, state: &S, scene: &T::Scene) -> (r: Option<Transition<S, E>>)
        ensures
            match r {
                Some(t) => {
                    &&& self.chosen(t.rule as int, actor, state, scene)
                    &&& t.state == self.rules@[t.rule as int].to
                    &&& t.state == self.successor(actor, state, scene)
                    &&& t.effects@ == self.effects_of(state.tag(), t.state.tag())
                },
                None => {
                    &&& self.idle(actor, state, scene)
                    &&& self.successor(actor, state, scene) == *state
                },
            },
    {
        let tag = state.tag_of();
        let mut i: usize = 0;
        while i < self.rules.len()
            invariant
                i <= self.rules@.len(),
                tag == state.tag(),
                forall|j: int| 0 <= j < i ==> !self.specific_hit(j, actor, state, scene),
            decreases self.rules@.len() - i,
        {
            let rule = &self.rules[i];
            let here = match rule.from {
                Source::State(t) => t == tag,
                Source::Any => false,
            };
            if here && rule.trigger.check(actor, state, scene) {
                proof {
                    self.lemma_successor_of_chosen(i as int, actor, state, scene);
                }
                return Some(self.fire(i, state));
            }
            i += 1;
        }
        let mut k: usize = 0;
        while k < self.rules.len()
            invariant
                k <= self.rules@.len(),
                forall|j: int| !self.specific_hit(j, actor, state, scene),
                forall|j: int| 0 <= j < k ==> !self.wildcard_hit(j, actor, state, scene),
            decreases self.rules@.len() - k,
        {
            let rule = &self.rules[k];
            let here = match rule.from {
                Source::State(_) => false,
                Source::Any => true,
            };
            if here && rule.trigger.check(actor, state, scene) {
                proof {
                    self.lemma_successor_of_chosen(k as int, actor, state, scene);
                }
                return Some(self.fire(k, state));
            }
            k += 1;
        }
        proof {
            self.lemma_successor_when_idle(actor, state, scene);
        }
        None
    }
}

} // verus!
