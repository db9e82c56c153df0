//! The outcome of handling one event, and the rule by which several outcomes
//! produced during the same tick collapse into one.

use std::ops::ControlFlow;
use vstd::prelude::*;

verus! {

/// What handling an event, or advancing an animation, asks of the event loop.
#[derive(Clone, Copy, Debug, PartialEq, Eq, Structural)]
pub enum Action {
    /// Nothing; any other outcome takes precedence.
    Noop,
    /// Nothing, but the event is used up: handlers further down do not see it.
    Intercept,
    /// Redraw.
    Tick,
    /// Leave: the application, or the popup that is open.
    Quit,
}

/// The first element of `actions` that is not `Noop`, or `Noop` when there is none.
pub open spec fn first_decisive(actions: Seq<Action>) -> Action
    decreases actions.len(),
{
    if actions.len() == 0 {
        Action::Noop
    } else if actions[0] != Action::Noop {
        actions[0]
    } else {
        first_decisive(actions.drop_first())
    }
}

/// Left-to-right merge of a whole sequence, starting from `Noop`: what is
/// left after `acc |= a` has run over the elements in order.
pub open spec fn merge_seq(actions: Seq<Action>) -> Action
    decreases actions.len(),
{
    if actions.len() == 0 {
        Action::Noop
    } else {
        merge_seq(actions.drop_last()).merged(actions.last())
    }
}

impl Action {
    /// Two outcomes merged: the left one wins unless it is `Noop`.
    pub open spec fn merged(self, rhs: Action) -> Action {
        if self == Action::Noop {
            rhs
        } else {
            self
        }
    }

    /// Position in the priority order `Noop < Intercept < Tick < Quit`.
    pub open spec fn rank(self) -> nat {
        match self {
            Action::Noop => 0,
            Action::Intercept => 1,
            Action::Tick => 2,
            Action::Quit => 3,
        }
    }

    /// Merges `rhs` into `self`: the first non-`Noop` outcome is kept.
    pub fn merge(self, rhs: Action) -> (out: Action)
        ensures
            out == self.merged(rhs),
    {
        match self {
            Action::Noop => rhs,
            _ => self,
        }
    }

    /// In-place form of [`Action::merge`].
    pub fn merge_assign(&mut self, rhs: Action)
        ensures
            *final(self) == old(self).merged(rhs),
    {
        if *self == Action::Noop {
            *self = rhs;
        }
    }

    /// The outcome that stands for "nothing happened, keep going".
    pub fn from_output(_output: ()) -> (out: Action)
        ensures
            out == Action::Noop,
    {
        Action::Noop
    }

    /// An outcome that cut a handler chain short is passed on unchanged.
    pub fn from_residual(residual: Action) -> (out: Action)
        ensures
            out == residual,
    {
        residual
    }

    /// Whether a handler chain goes on (`Noop`) or stops with this outcome.
    pub fn branch(self) -> (flow: ControlFlow<Action, ()>)
        ensures
            flow == (if self == Action::Noop {
                ControlFlow::<Action, ()>::Continue(())
            } else {
                ControlFlow::<Action, ()>::Break(self)
            }),
    {
        match self {
            Action::Noop => ControlFlow::Continue(()),
            _ => ControlFlow::Break(self),
        }
    }

    /// Merges every outcome of a tick, in order.
    pub fn merge_all(actions: &[Action]) -> (out: Action)
        ensures
            out == merge_seq(actions@),
            out == first_decisive(actions@),
    {
        let mut out = Action::Noop;
        let mut i: usize = 0;
        while i < actions.len()
            invariant
                i <= actions.len(),
                out == merge_seq(actions@.take(i as int)),
            decreases actions.len() - i,
        {
            proof {
                let next = actions@.take(i + 1);
                assert(next.drop_last() == actions@.take(i as int));
                assert(next.last() == actions@[i as int]);
            }
            out = out.merge(actions[i]);
            i += 1;
        }
        proof {
            assert(actions@.take(i as int) == actions@);
            lemma_merge_seq_is_first_decisive(actions@);
        }
        out
    }
}

impl Default for Action {
    fn default() -> (out: Action)
        ensures
            out == Action::Noop,
    {
        Action::Noop
    }
}

impl std::ops::BitOr for Action {
    type Output = Action;

    fn bitor(self, rhs: Action) -> (out: Action) {
        self.merge(rhs)
    }
}

impl std::ops::BitOrAssign for Action {
    fn bitor_assign(&mut self, rhs: Action)
        ensures
            *final(self) == old(self).merged(rhs),
    {
        self.merge_assign(rhs);
    }
}

impl vstd::std_specs::ops::BitOrSpecImpl for Action {
    open spec fn obeys_bitor_spec() -> bool {
        true
    }

    open spec fn bitor_req(self, rhs: Action) -> bool {
        true
    }

    open spec fn bitor_spec(self, rhs: Action) -> Action {
        self.merged(rhs)
    }
}

/// Splitting off the head instead of the tail gives the same merge.
proof fn lemma_merge_seq_head(actions: Seq<Action>)
    requires
        actions.len() > 0,
    ensures
        merge_seq(actions) == actions[0].merged(merge_seq(actions.drop_first())),
    decreases actions.len(),
{
    if actions.len() == 1 {
        assert(actions.drop_last().len() == 0);
        assert(actions.drop_first().len() == 0);
    } else {
        let init = actions.drop_last();
        lemma_merge_seq_head(init);
        assert(init.drop_first() == actions.drop_first().drop_last());
        assert(init[0] == actions[0]);
        assert(actions.drop_first().last() == actions.last());
    }
}

/// The merge of a sequence is its first non-`Noop` element: order of
/// evaluation decides between two competing outcomes, not their rank.
pub proof fn lemma_merge_seq_is_first_decisive(actions: Seq<Action>)
    ensures
        merge_seq(actions) == first_decisive(actions),
    decreases actions.len(),
{
    if actions.len() > 0 {
        lemma_merge_seq_head(actions);
        lemma_merge_seq_is_first_decisive(actions.drop_first());
    }
}

/// A tick in which only `Noop` was produced merges to `Noop`.
pub proof fn lemma_only_noops_merge_to_noop(actions: Seq<Action>)
    requires
        forall|i: int| 0 <= i < actions.len() ==> actions[i] == Action::Noop,
    ensures
        merge_seq(actions) == Action::Noop,
    decreases actions.len(),
{
    lemma_merge_seq_is_first_decisive(actions);
    lemma_first_decisive_of_noops(actions);
}

proof fn lemma_first_decisive_of_noops(actions: Seq<Action>)
    requires
        forall|i: int| 0 <= i < actions.len() ==> actions[i] == Action::Noop,
    ensures
        first_decisive(actions) == Action::Noop,
    decreases actions.len(),
{
    if actions.len() > 0 {
        let rest = actions.drop_first();
        assert forall|i: int| 0 <= i < rest.len() implies rest[i] == Action::Noop by {
            assert(rest[i] == actions[i + 1]);
        }
        lemma_first_decisive_of_noops(rest);
    }
}

/// A `Quit` wins the tick however many `Noop`s come before or after it,
/// provided nothing else was produced ahead of it.
pub proof fn lemma_quit_preempts_noops(actions: Seq<Action>, at: int)
    requires
        0 <= at < actions.len(),
        actions[at] == Action::Quit,
        forall|i: int| 0 <= i < at ==> actions[i] == Action::Noop,
    ensures
        merge_seq(actions) == Action::Quit,
{
    lemma_merge_seq_is_first_decisive(actions);
    lemma_first_decisive_at(actions, at);
}

/// Whatever stands first after a run of `Noop`s is the merge's result.
pub proof fn lemma_first_decisive_at(actions: Seq<Action>, at: int)
    requires
        0 <= at < actions.len(),
        actions[at] != Action::Noop,
        forall|i: int| 0 <= i < at ==> actions[i] == Action::Noop,
    ensures
        first_decisive(actions) == actions[at],
    decreases actions.len(),
{
    if at > 0 {
        let rest = actions.drop_first();
        assert(actions[0] == Action::Noop);
        assert(rest[at - 1] == actions[at]);
        assert forall|i: int| 0 <= i < at - 1 implies rest[i] == Action::Noop by {
            assert(rest[i] == actions[i + 1]);
        }
        lemma_first_decisive_at(rest, at - 1);
    }
}

/// Merging is idempotent and associative, and `Noop` is neutral on both
/// sides. It picks one of its operands, never one of lower rank than the
/// left, and yields `Noop` only from two `Noop`s.
pub proof fn lemma_merge_algebra(a: Action, b: Action, c: Action)
    ensures
        a.merged(a) == a,
        a.merged(Action::Noop) == a,
        Action::Noop.merged(a) == a,
        a.merged(b).merged(c) == a.merged(b.merged(c)),
        a.merged(b) == a || a.merged(b) == b,
        a.merged(b).rank() >= a.rank(),
        a.merged(b) == Action::Noop <==> a == Action::Noop && b == Action::Noop,
{
}

} // verus!
