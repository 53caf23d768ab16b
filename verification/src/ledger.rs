//! A store in memory that keeps the contract of the storage boundary: for
//! one activity identifier at most one change is applied, so a second
//! delivery of an activity changes nothing.
//!
//! It keeps the changes that it applied, in order, and the votes that stand.

use crate::activity::ActivityView;
use crate::iri::{Iri, IriView};
use crate::receive::{mutation, Effect, Mutation, MutationView};
use vstd::prelude::*;

verus! {

/// A vote that stands: `actor` is for (`up`) or against `target`.
#[derive(Debug, PartialEq, Eq)]
pub struct Vote {
    pub actor: Iri,
    pub target: Iri,
    pub up: bool,
}

/// The mathematical value of a [`Vote`].
pub struct VoteView {
    pub actor: IriView,
    pub target: IriView,
    pub up: bool,
}

impl View for Vote {
    type V = VoteView;

    open spec fn view(&self) -> VoteView {
        VoteView { actor: self.actor@, target: self.target@, up: self.up }
    }
}

/// The store.
#[derive(Debug, PartialEq, Eq)]
pub struct Ledger {
    log: Vec<Mutation>,
    votes: Vec<Vote>,
}

/// The mathematical value of a [`Ledger`]: the changes that were applied, in
/// the order in which they were, and the votes that stand.
pub struct LedgerView {
    pub log: Seq<MutationView>,
    pub votes: Seq<VoteView>,
}

impl View for Ledger {
    type V = LedgerView;

    closed spec fn view(&self) -> LedgerView {
        LedgerView {
            log: Seq::new(self.log@.len(), |i: int| self.log@[i]@),
            votes: Seq::new(self.votes@.len(), |i: int| self.votes@[i]@),
        }
    }
}

/// Whether a change was applied for the activity `id`.
pub open spec fn seen(log: Seq<MutationView>, id: IriView) -> bool {
    exists|i: int| 0 <= i < log.len() && (#[trigger] log[i]).activity == id
}

/// Whether `i` is the place of the first vote of `actor` on `target`.
pub open spec fn is_position(votes: Seq<VoteView>, actor: IriView, target: IriView, i: int) -> bool {
    &&& 0 <= i < votes.len()
    &&& votes[i].actor == actor
    &&& votes[i].target == target
    &&& forall|j: int|
        0 <= j < i ==> !((#[trigger] votes[j]).actor == actor && votes[j].target == target)
}

/// The place of the first vote of `actor` on `target`, if there is one.
pub open spec fn position(votes: Seq<VoteView>, actor: IriView, target: IriView) -> Option<int> {
    if exists|i: int| is_position(votes, actor, target, i) {
        Some(choose|i: int| is_position(votes, actor, target, i))
    } else {
        None
    }
}

/// The votes after `vote` is recorded: it takes the place of the vote of
/// its actor on its target, or is added where there is none.
pub open spec fn record(votes: Seq<VoteView>, vote: VoteView) -> Seq<VoteView> {
    match position(votes, vote.actor, vote.target) {
        Some(i) => votes.update(i, vote),
        None => votes.push(vote),
    }
}

/// The votes after the vote of `actor` on `target` is taken back.
pub open spec fn retract(votes: Seq<VoteView>, actor: IriView, target: IriView) -> Seq<VoteView> {
    match position(votes, actor, target) {
        Some(i) => votes.remove(i),
        None => votes,
    }
}

/// The votes after the change `m`.
pub open spec fn cast(votes: Seq<VoteView>, m: MutationView) -> Seq<VoteView> {
    match m.effect {
        Effect::Upvote => record(votes, VoteView { actor: m.actor, target: m.target, up: true }),
        Effect::Downvote => record(
            votes,
            VoteView { actor: m.actor, target: m.target, up: false },
        ),
        Effect::ReverseVote => retract(votes, m.actor, m.target),
        _ => votes,
    }
}

/// The store after the change `m` is handed to it: unchanged where a change
/// was applied for the same activity before; else the change is applied.
pub open spec fn apply(s: LedgerView, m: MutationView) -> LedgerView {
    if seen(s.log, m.activity) {
        s
    } else {
        LedgerView { log: s.log.push(m), votes: cast(s.votes, m) }
    }
}

/// The votes for `target` less the votes against it.
pub open spec fn tally(votes: Seq<VoteView>, target: IriView) -> int
    decreases votes.len(),
{
    if votes.len() == 0 {
        0
    } else {
        tally(votes.drop_last(), target) + weight(votes.last(), target)
    }
}

/// What the vote `v` counts for `target`.
pub open spec fn weight(v: VoteView, target: IriView) -> int {
    if v.target != target {
        0
    } else if v.up {
        1
    } else {
        -1
    }
}

/// Whether no two changes of `log` are for one activity.
pub open spec fn distinct(log: Seq<MutationView>) -> bool {
    forall|i: int, j: int|
        0 <= i < j < log.len() ==> (#[trigger] log[i]).activity != (#[trigger] log[j]).activity
}

/// A second delivery of an activity changes nothing: once a change was
/// handed to the store, no change for the same activity changes the store.
pub proof fn law_second_delivery_changes_nothing(
    s: LedgerView,
    first: MutationView,
    second: MutationView,
)
    requires
        first.activity == second.activity,
    ensures
        apply(apply(s, first), second) == apply(s, first),
{
    if !seen(s.log, first.activity) {
        let log = s.log.push(first);
        assert(log[log.len() - 1].activity == second.activity);
    }
}

/// An activity that is delivered twice is applied once: the change that is
/// planned for the second delivery changes nothing, whatever the kind of
/// the activity and on whose authority it is received.
pub proof fn law_redelivered_activity_is_applied_once(
    s: LedgerView,
    a: ActivityView,
    first_actor: IriView,
    second_actor: IriView,
)
    requires
        mutation(a, first_actor) is Some,
    ensures
        mutation(a, second_actor) is Some,
        apply(apply(s, mutation(a, first_actor)->0), mutation(a, second_actor)->0) == apply(
            s,
            mutation(a, first_actor)->0,
        ),
{
    law_second_delivery_changes_nothing(
        s,
        mutation(a, first_actor)->0,
        mutation(a, second_actor)->0,
    );
}

/// For one activity the store holds one change at most, and holds one once
/// a change for it was handed over.
pub proof fn law_one_change_for_one_activity(s: LedgerView, m: MutationView)
    requires
        distinct(s.log),
    ensures
        distinct(apply(s, m).log),
        seen(apply(s, m).log, m.activity),
{
    if !seen(s.log, m.activity) {
        let log = s.log.push(m);
        assert(log[log.len() - 1].activity == m.activity);
        assert forall|i: int, j: int| 0 <= i < j < log.len() implies (#[trigger] log[i]).activity
            != (#[trigger] log[j]).activity by {
            if j == log.len() - 1 {
                assert(s.log[i].activity != m.activity);
            } else {
                assert(s.log[i].activity != s.log[j].activity);
            }
        }
    }
}

/// At most one place is that of the first vote.
proof fn lemma_position_is_unique(
    votes: Seq<VoteView>,
    actor: IriView,
    target: IriView,
    i: int,
    j: int,
)
    requires
        is_position(votes, actor, target, i),
        is_position(votes, actor, target, j),
    ensures
        i == j,
{
    if i < j {
        assert(votes[i].actor == actor);
    } else if j < i {
        assert(votes[j].actor == actor);
    }
}

/// The tally of one vote more.
proof fn lemma_tally_step(votes: Seq<VoteView>, target: IriView, i: int)
    requires
        0 <= i < votes.len(),
    ensures
        tally(votes.take(i + 1), target) == tally(votes.take(i), target) + weight(votes[i], target),
{
    assert(votes.take(i + 1).drop_last() =~= votes.take(i));
}

impl Ledger {
    /// A store to which nothing was handed yet.
    pub fn new() -> (s: Ledger)
        ensures
            s@.log.len() == 0,
            s@.votes.len() == 0,
    {
        Ledger { log: Vec::new(), votes: Vec::new() }
    }

    /// Whether a change was applied for the activity `id`.
    pub fn has_seen(&self, id: &Iri) -> (b: bool)
        ensures
            b == seen(self@.log, id@),
    {
        let mut i: usize = 0;
        while i < self.log.len()
            invariant
                i <= self.log.len(),
                forall|j: int| 0 <= j < i ==> (#[trigger] self@.log[j]).activity != id@,
            decreases self.log.len() - i,
        {
            if self.log[i].activity.same_as(id) {
                assert(self@.log[i as int].activity == id@);
                return true;
            }
            i += 1;
        }
        false
    }

    /// The number of changes that were applied.
    pub fn applied(&self) -> (n: usize)
        ensures
            n == self@.log.len(),
    {
        self.log.len()
    }

    /// The place of the first vote of `actor` on `target`.
    fn find(&self, actor: &Iri, target: &Iri) -> (r: Option<usize>)
        ensures
            match r {
                Some(i) => position(self@.votes, actor@, target@) == Some(i as int) && i
                    < self.votes.len(),
                None => position(self@.votes, actor@, target@) is None,
            },
    {
        let mut i: usize = 0;
        while i < self.votes.len()
            invariant
                i <= self.votes.len(),
                forall|j: int|
                    0 <= j < i ==> !((#[trigger] self@.votes[j]).actor == actor@
                        && self@.votes[j].target == target@),
            decreases self.votes.len() - i,
        {
            if self.votes[i].actor.same_as(actor) && self.votes[i].target.same_as(target) {
                proof {
                    assert(is_position(self@.votes, actor@, target@, i as int));
                    let k = choose|k: int| is_position(self@.votes, actor@, target@, k);
                    lemma_position_is_unique(self@.votes, actor@, target@, i as int, k);
                }
                return Some(i);
            }
            i += 1;
        }
        proof {
            if exists|k: int| is_position(self@.votes, actor@, target@, k) {
                let k = choose|k: int| is_position(self@.votes, actor@, target@, k);
                assert(self@.votes[k].actor == actor@);
            }
        }
        None
    }

    /// Records the vote of `actor` on `target`.
    fn record(&mut self, actor: &Iri, target: &Iri, up: bool)
        ensures
            final(self)@.log == old(self)@.log,
            final(self)@.votes == record(
                old(self)@.votes,
                VoteView { actor: actor@, target: target@, up },
            ),
    {
        let vote = Vote { actor: actor.duplicate(), target: target.duplicate(), up };
        match self.find(actor, target) {
            Some(i) => {
                self.votes.set(i, vote);
                assert(self@.votes =~= old(self)@.votes.update(i as int, vote@));
            },
            None => {
                self.votes.push(vote);
                assert(self@.votes =~= old(self)@.votes.push(vote@));
            },
        }
        assert(self@.log =~= old(self)@.log);
    }

    /// Takes back the vote of `actor` on `target`.
    fn retract(&mut self, actor: &Iri, target: &Iri)
        ensures
            final(self)@.log == old(self)@.log,
            final(self)@.votes == retract(old(self)@.votes, actor@, target@),
    {
        match self.find(actor, target) {
            Some(i) => {
                self.votes.remove(i);
                assert(self@.votes =~= old(self)@.votes.remove(i as int));
            },
            None => {},
        }
        assert(self@.log =~= old(self)@.log);
    }

    /// Takes a change.
    ///
    /// Where a change was applied for the same activity before, nothing is
    /// changed and `false` is returned. Else the change is applied: it is
    /// kept, and a vote is recorded or taken back where the change is one.
    pub fn apply(&mut self, m: &Mutation) -> (fresh: bool)
        ensures
            final(self)@ == apply(old(self)@, m@),
            fresh == !seen(old(self)@.log, m.activity@),
    {
        if self.has_seen(&m.activity) {
            return false;
        }
        match m.effect {
            Effect::Upvote => {
                self.record(&m.actor, &m.target, true);
            },
            Effect::Downvote => {
                self.record(&m.actor, &m.target, false);
            },
            Effect::ReverseVote => {
                self.retract(&m.actor, &m.target);
            },
            _ => {},
        }
        self.log.push(m.duplicate());
        assert(self@.log =~= old(self)@.log.push(m@));
        assert(self@.votes =~= cast(old(self)@.votes, m@));
        true
    }

    /// The votes for `target` less the votes against it.
    pub fn tally(&self, target: &Iri) -> (t: i128)
        ensures
            t == tally(self@.votes, target@),
    {
        let mut t: i128 = 0;
        let mut i: usize = 0;
        while i < self.votes.len()
            invariant
                i <= self.votes.len(),
                t == tally(self@.votes.take(i as int), target@),
                -(i as int) <= t <= i as int,
            decreases self.votes.len() - i,
        {
            proof {
                lemma_tally_step(self@.votes, target@, i as int);
            }
            if self.votes[i].target.same_as(target) {
                if self.votes[i].up {
                    t = t + 1;
                } else {
                    t = t - 1;
                }
            }
            i += 1;
        }
        assert(self@.votes.take(self.votes.len() as int) =~= self@.votes);
        t
    }
}

} // verus!
