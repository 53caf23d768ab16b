//! The course of one delivery, from the planned change to its end.
//!
//! Before a change is made, every object that it refers to must be held
//! locally. One that is not held is fetched, at the cost of one unit of the
//! delivery's budget, and what a fetched object refers to must be held in
//! turn. The change is handed to storage when nothing is left to resolve,
//! and not before: a delivery that fails has changed nothing.

use crate::activity::iris_view;
use crate::budget::{charge_fetch, charged};
use crate::iri::{Iri, IriView};
use crate::receive::{references, Mutation, MutationView, ReceiveError};
use vstd::prelude::*;

verus! {

/// The caller is to say whether the object `current` is held locally.
pub struct Resolving {
    mutation: Mutation,
    current: Iri,
    pending: Vec<Iri>,
}

/// The caller is to fetch the object `current`.
pub struct Fetching {
    mutation: Mutation,
    current: Iri,
    pending: Vec<Iri>,
}

/// The caller is to hand the change to storage.
pub struct Applying {
    mutation: Mutation,
}

/// Where a delivery stands: what its caller is to do next, or how it ended.
pub enum Progress {
    Lookup(Resolving),
    Fetch(Fetching),
    Apply(Applying),
    Done,
    Failed(ReceiveError),
}

/// The mathematical value of a [`ReceiveError`].
pub enum ReceiveErrorView {
    Fetch(IriView),
    BudgetExhausted,
    Storage,
}

impl View for ReceiveError {
    type V = ReceiveErrorView;

    open spec fn view(&self) -> ReceiveErrorView {
        match self {
            ReceiveError::Fetch(iri) => ReceiveErrorView::Fetch(iri@),
            ReceiveError::BudgetExhausted => ReceiveErrorView::BudgetExhausted,
            ReceiveError::Storage => ReceiveErrorView::Storage,
        }
    }
}

/// The mathematical value of a [`Progress`]: with each thing to do, the
/// change that is planned and the objects that are still to be resolved
/// after the current one.
pub enum ProgressView {
    Lookup { current: IriView, mutation: MutationView, pending: Seq<IriView> },
    Fetch { current: IriView, mutation: MutationView, pending: Seq<IriView> },
    Apply { mutation: MutationView },
    Done,
    Failed(ReceiveErrorView),
}

impl Resolving {
    /// The object that is looked up.
    pub closed spec fn current_view(&self) -> IriView {
        self.current@
    }

    /// The change that is planned.
    pub closed spec fn mutation_view(&self) -> MutationView {
        self.mutation@
    }

    /// The objects that are still to be resolved after the current one.
    pub closed spec fn pending_view(&self) -> Seq<IriView> {
        iris_view(self.pending@)
    }
}

impl View for Resolving {
    type V = ProgressView;

    open spec fn view(&self) -> ProgressView {
        ProgressView::Lookup {
            current: self.current_view(),
            mutation: self.mutation_view(),
            pending: self.pending_view(),
        }
    }
}

impl Fetching {
    /// The object that is fetched.
    pub closed spec fn current_view(&self) -> IriView {
        self.current@
    }

    /// The change that is planned.
    pub closed spec fn mutation_view(&self) -> MutationView {
        self.mutation@
    }

    /// The objects that are still to be resolved after the current one.
    pub closed spec fn pending_view(&self) -> Seq<IriView> {
        iris_view(self.pending@)
    }
}

impl View for Fetching {
    type V = ProgressView;

    open spec fn view(&self) -> ProgressView {
        ProgressView::Fetch {
            current: self.current_view(),
            mutation: self.mutation_view(),
            pending: self.pending_view(),
        }
    }
}

impl Applying {
    /// The change that is handed to storage.
    pub closed spec fn mutation_view(&self) -> MutationView {
        self.mutation@
    }
}

impl View for Applying {
    type V = ProgressView;

    open spec fn view(&self) -> ProgressView {
        ProgressView::Apply { mutation: self.mutation_view() }
    }
}

impl View for Progress {
    type V = ProgressView;

    open spec fn view(&self) -> ProgressView {
        match self {
            Progress::Lookup(s) => s@,
            Progress::Fetch(s) => s@,
            Progress::Apply(s) => s@,
            Progress::Done => ProgressView::Done,
            Progress::Failed(e) => ProgressView::Failed(e@),
        }
    }
}

/// What is to be done for the change `mutation` when the objects `pending`
/// are still to be resolved: the first of them is looked up, and where none
/// is left the change is applied.
pub open spec fn proceed(mutation: MutationView, pending: Seq<IriView>) -> ProgressView {
    if pending.len() == 0 {
        ProgressView::Apply { mutation }
    } else {
        ProgressView::Lookup { current: pending[0], mutation, pending: pending.drop_first() }
    }
}

/// What follows when the caller says whether `current` is held, with
/// `remaining` left of the budget: the progress, and what is left then.
///
/// An object that is held costs nothing. One that is not is fetched if the
/// budget can be charged, and else the delivery fails with `BudgetExhausted`.
pub open spec fn after_lookup(
    current: IriView,
    mutation: MutationView,
    pending: Seq<IriView>,
    held: bool,
    remaining: int,
) -> (ProgressView, int) {
    if held {
        (proceed(mutation, pending), remaining)
    } else {
        match charged(remaining) {
            Some(left) => (ProgressView::Fetch { current, mutation, pending }, left),
            None => (ProgressView::Failed(ReceiveErrorView::BudgetExhausted), remaining),
        }
    }
}

/// What follows a fetch of `current`: where it failed, the delivery fails;
/// where it gave an object, what that object refers to is resolved first.
pub open spec fn after_fetch(
    current: IriView,
    mutation: MutationView,
    pending: Seq<IriView>,
    fetched: Option<Seq<IriView>>,
) -> ProgressView {
    match fetched {
        Some(refs) => proceed(mutation, refs + pending),
        None => ProgressView::Failed(ReceiveErrorView::Fetch(current)),
    }
}

/// What follows when storage has answered.
pub open spec fn after_apply(stored: bool) -> ProgressView {
    if stored {
        ProgressView::Done
    } else {
        ProgressView::Failed(ReceiveErrorView::Storage)
    }
}

/// Goes on with the next object to resolve, or with the change.
fn proceed_with(mutation: Mutation, pending: Vec<Iri>) -> (p: Progress)
    ensures
        p@ == proceed(mutation@, iris_view(pending@)),
{
    let mut pending = pending;
    if pending.len() == 0 {
        Progress::Apply(Applying { mutation })
    } else {
        let ghost before = pending@;
        let current = pending.remove(0);
        assert(iris_view(pending@) =~= iris_view(before).drop_first());
        Progress::Lookup(Resolving { mutation, current, pending })
    }
}

/// The references of the change `m`, in the order in which they are
/// resolved.
fn references_of(m: &Mutation) -> (r: Vec<Iri>)
    ensures
        iris_view(r@) == references(m@),
{
    let mut r: Vec<Iri> = Vec::new();
    r.push(m.target.duplicate());
    match &m.collection {
        Some(c) => {
            r.push(c.duplicate());
        },
        None => {},
    }
    assert(iris_view(r@) =~= references(m@));
    r
}

impl Progress {
    /// Begins the delivery of the change `mutation`: what it refers to is
    /// resolved, then it is applied.
    pub fn begin(mutation: Mutation) -> (p: Progress)
        ensures
            p@ == proceed(mutation@, references(mutation@)),
    {
        let pending = references_of(&mutation);
        proceed_with(mutation, pending)
    }
}

impl Resolving {
    /// The object that the caller is to look up.
    pub fn current(&self) -> (r: &Iri)
        ensures
            r@ == self.current_view(),
    {
        &self.current
    }

    /// Takes the caller's answer: whether the object is held locally.
    ///
    /// The budget never grows and never becomes negative, and with nothing
    /// left of it no fetch is asked for.
    pub fn answered(self, held: bool, request_counter: &mut i32) -> (p: Progress)
        ensures
            (p@, *final(request_counter) as int) == after_lookup(
                self.current_view(),
                self.mutation_view(),
                self.pending_view(),
                held,
                *old(request_counter) as int,
            ),
            (p@, *final(request_counter) as int) == step(
                self@,
                Answer::Held(held),
                *old(request_counter) as int,
            ),
            *final(request_counter) <= *old(request_counter),
            *old(request_counter) >= 0 ==> *final(request_counter) >= 0,
            *old(request_counter) <= 0 ==> !(p@ is Fetch),
            *old(request_counter) <= 0 && !held ==> p@ == ProgressView::Failed(
                ReceiveErrorView::BudgetExhausted,
            ),
    {
        if held {
            proceed_with(self.mutation, self.pending)
        } else if charge_fetch(request_counter) {
            Progress::Fetch(
                Fetching { mutation: self.mutation, current: self.current, pending: self.pending },
            )
        } else {
            Progress::Failed(ReceiveError::BudgetExhausted)
        }
    }
}

impl Fetching {
    /// The object that the caller is to fetch.
    pub fn current(&self) -> (r: &Iri)
        ensures
            r@ == self.current_view(),
    {
        &self.current
    }

    /// Takes the outcome of the fetch: `None` where it failed, else the
    /// identifiers that the fetched object refers to.
    pub fn fetched(self, outcome: Option<Vec<Iri>>) -> (p: Progress)
        ensures
            p@ == after_fetch(
                self.current_view(),
                self.mutation_view(),
                self.pending_view(),
                match outcome {
                    Some(refs) => Some(iris_view(refs@)),
                    None => None,
                },
            ),
            (p@, 0int) == step(
                self@,
                Answer::Fetched(
                    match outcome {
                        Some(refs) => Some(iris_view(refs@)),
                        None => None,
                    },
                ),
                0,
            ),
    {
        match outcome {
            Some(refs) => {
                let mut all = refs;
                let mut rest = self.pending;
                let ghost first = all@;
                let ghost second = rest@;
                all.append(&mut rest);
                assert(iris_view(all@) =~= iris_view(first) + iris_view(second));
                proceed_with(self.mutation, all)
            },
            None => Progress::Failed(ReceiveError::Fetch(self.current)),
        }
    }
}

impl Applying {
    /// The change that the caller is to hand to storage.
    pub fn mutation(&self) -> (r: &Mutation)
        ensures
            r@ == self.mutation_view(),
    {
        &self.mutation
    }

    /// Takes storage's answer: whether the change was applied.
    pub fn applied(self, stored: bool) -> (p: Progress)
        ensures
            p@ == after_apply(stored),
            (p@, 0int) == step(self@, Answer::Stored(stored), 0),
    {
        if stored {
            Progress::Done
        } else {
            Progress::Failed(ReceiveError::Storage)
        }
    }
}

/// What the caller of a delivery hands back: whether an object is held, what
/// a fetch gave, or whether storage applied the change.
pub enum Answer {
    Held(bool),
    Fetched(Option<Seq<IriView>>),
    Stored(bool),
}

/// One step of a delivery: the progress and the budget after the caller has
/// answered. An answer to what was not asked changes nothing, and a
/// delivery that has ended stays as it is.
pub open spec fn step(p: ProgressView, answer: Answer, remaining: int) -> (ProgressView, int) {
    match (p, answer) {
        (ProgressView::Lookup { current, mutation, pending }, Answer::Held(held)) => after_lookup(
            current,
            mutation,
            pending,
            held,
            remaining,
        ),
        (ProgressView::Fetch { current, mutation, pending }, Answer::Fetched(fetched)) => (
            after_fetch(current, mutation, pending, fetched),
            remaining,
        ),
        (ProgressView::Apply { mutation }, Answer::Stored(stored)) => (
            after_apply(stored),
            remaining,
        ),
        _ => (p, remaining),
    }
}

/// A delivery from the progress `p` with `remaining` left of the budget,
/// through the answers `answers`: the progress and the budget at the end.
pub open spec fn run(p: ProgressView, remaining: int, answers: Seq<Answer>) -> (ProgressView, int)
    decreases answers.len(),
{
    if answers.len() == 0 {
        (p, remaining)
    } else {
        let next = step(p, answers[0], remaining);
        run(next.0, next.1, answers.drop_first())
    }
}

/// The number of fetches that the caller is asked for in the delivery.
pub open spec fn fetches(p: ProgressView, remaining: int, answers: Seq<Answer>) -> nat
    decreases answers.len(),
{
    if answers.len() == 0 {
        0
    } else {
        let next = step(p, answers[0], remaining);
        let asked: nat = if next.0 is Fetch && !(p is Fetch) {
            1
        } else {
            0
        };
        asked + fetches(next.0, next.1, answers.drop_first())
    }
}

/// Whether the change is handed to storage in the delivery, at its
/// beginning or after some of the answers.
pub open spec fn handed_over(p: ProgressView, remaining: int, answers: Seq<Answer>) -> bool
    decreases answers.len(),
{
    p is Apply || (answers.len() > 0 && {
        let next = step(p, answers[0], remaining);
        handed_over(next.0, next.1, answers.drop_first())
    })
}

/// Whatever the caller answers, the budget never grows in a delivery, and
/// one that is not negative never becomes so.
pub proof fn law_budget_never_grows(p: ProgressView, remaining: int, answers: Seq<Answer>)
    ensures
        run(p, remaining, answers).1 <= remaining,
        remaining >= 0 ==> run(p, remaining, answers).1 >= 0,
    decreases answers.len(),
{
    if answers.len() > 0 {
        let next = step(p, answers[0], remaining);
        law_budget_never_grows(next.0, next.1, answers.drop_first());
    }
}

/// Whatever the caller answers, every fetch that it is asked for is paid
/// with one unit of the budget. So a delivery asks for no more fetches than
/// its budget holds, and for none once the budget is spent.
pub proof fn law_every_fetch_is_paid(p: ProgressView, remaining: int, answers: Seq<Answer>)
    ensures
        fetches(p, remaining, answers) == remaining - run(p, remaining, answers).1,
        remaining >= 0 ==> fetches(p, remaining, answers) <= remaining,
        remaining <= 0 ==> fetches(p, remaining, answers) == 0,
    decreases answers.len(),
{
    if answers.len() > 0 {
        let next = step(p, answers[0], remaining);
        law_every_fetch_is_paid(next.0, next.1, answers.drop_first());
        law_budget_never_grows(next.0, next.1, answers.drop_first());
    }
}

/// A delivery that has ended stays as it has ended.
pub proof fn law_an_ended_delivery_stays(p: ProgressView, remaining: int, answers: Seq<Answer>)
    requires
        p is Done || p is Failed,
    ensures
        run(p, remaining, answers) == (p, remaining),
        !handed_over(p, remaining, answers),
    decreases answers.len(),
{
    if answers.len() > 0 {
        law_an_ended_delivery_stays(p, remaining, answers.drop_first());
    }
}

/// A delivery that fails for want of budget or of a fetched object has
/// handed nothing to storage: the change is handed over when everything is
/// resolved, and then the delivery can only be done or fail in storage.
pub proof fn law_a_failed_delivery_changes_nothing(
    p: ProgressView,
    remaining: int,
    answers: Seq<Answer>,
)
    requires
        run(p, remaining, answers).0 matches ProgressView::Failed(e) && !(e is Storage),
    ensures
        !handed_over(p, remaining, answers),
    decreases answers.len(),
{
    if p is Apply {
        lemma_handed_over_ends_in_storage(p, remaining, answers);
    } else if answers.len() > 0 {
        let next = step(p, answers[0], remaining);
        law_a_failed_delivery_changes_nothing(next.0, next.1, answers.drop_first());
    }
}

/// From the moment the change is handed over, the delivery waits for
/// storage, is done, or has failed in storage.
proof fn lemma_handed_over_ends_in_storage(p: ProgressView, remaining: int, answers: Seq<Answer>)
    requires
        p is Apply || p is Done || p == ProgressView::Failed(ReceiveErrorView::Storage),
    ensures
        ({
            let end = run(p, remaining, answers).0;
            end is Apply || end is Done || end == ProgressView::Failed(ReceiveErrorView::Storage)
        }),
    decreases answers.len(),
{
    if answers.len() > 0 {
        let next = step(p, answers[0], remaining);
        lemma_handed_over_ends_in_storage(next.0, next.1, answers.drop_first());
    }
}

} // verus!
