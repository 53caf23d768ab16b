//! The checks that an activity must pass before anything is changed for it.

use crate::activity::{opt_iri_view, Activity, ActivityKind, ActivityView, Payload, PayloadView};
use crate::iri::{Iri, IriView};
use crate::receive::subject;
use vstd::prelude::*;

verus! {

/// What verification knows of the local instance. Nothing is fetched to
/// verify an activity: its caller hands over what is known.
#[derive(Debug, PartialEq, Eq)]
pub struct Context {
    /// The domains from which nothing is accepted.
    pub blocked: Vec<String>,
    /// The identifiers of the follow requests that are known.
    pub follow_requests: Vec<Iri>,
    /// The identifiers of the group-like collectives that are administered
    /// locally.
    pub local_collectives: Vec<Iri>,
}

/// The mathematical value of a [`Context`].
pub struct ContextView {
    pub blocked: Set<Seq<char>>,
    pub follow_requests: Set<IriView>,
    pub local_collectives: Set<IriView>,
}

impl View for Context {
    type V = ContextView;

    open spec fn view(&self) -> ContextView {
        ContextView {
            blocked: Set::new(|d: Seq<char>| listed(self.blocked@, d)),
            follow_requests: Set::new(|i: IriView| holds(self.follow_requests@, i)),
            local_collectives: Set::new(|i: IriView| holds(self.local_collectives@, i)),
        }
    }
}

/// Whether the domain `d` is among `domains`.
pub open spec fn listed(domains: Seq<String>, d: Seq<char>) -> bool {
    exists|i: int| 0 <= i < domains.len() && (#[trigger] domains[i])@ == d
}

/// Whether the identifier `iri` is among `iris`.
pub open spec fn holds(iris: Seq<Iri>, iri: IriView) -> bool {
    exists|i: int| 0 <= i < iris.len() && (#[trigger] iris[i])@ == iri
}

/// The checks, in the order in which they are made.
#[derive(Clone, Copy, Debug, PartialEq, Eq, Structural)]
pub enum Check {
    /// The actor and the activity's own identifier have one authority.
    DomainMismatch,
    /// The actor and the identifier of the activity that the payload holds
    /// have one authority.
    NestedDomainMismatch,
    /// The actor's identifier has an authority.
    MalformedIdentity,
    /// The actor's authority is not blocked.
    BlockedIdentity,
    /// An activity is undone by the actor that made it.
    ActorMismatch,
    /// An accepted follow request is known.
    UnknownFollow,
    /// An accepted follow request is for a collective that is administered
    /// locally.
    ForeignCollective,
}

/// A failed check, with the identifiers that failed it: the actor, and what
/// it was held against, if anything.
#[derive(Debug, PartialEq, Eq)]
pub struct VerificationError {
    pub check: Check,
    pub actor: Iri,
    pub against: Option<Iri>,
}

/// The mathematical value of a [`VerificationError`].
pub struct VerificationErrorView {
    pub check: Check,
    pub actor: IriView,
    pub against: Option<IriView>,
}

impl View for VerificationError {
    type V = VerificationErrorView;

    open spec fn view(&self) -> VerificationErrorView {
        VerificationErrorView {
            check: self.check,
            actor: self.actor@,
            against: opt_iri_view(self.against),
        }
    }
}

/// The error of the check `check`, made of `actor` against `against`.
pub open spec fn failed(check: Check, actor: IriView, against: IriView) -> VerificationErrorView {
    VerificationErrorView { check, actor, against: Some(against) }
}

/// The error of the check `check`, made of `actor` alone.
pub open spec fn failed_alone(check: Check, actor: IriView) -> VerificationErrorView {
    VerificationErrorView { check, actor, against: None }
}

/// Whether the identity `actor` is blocked.
pub open spec fn blocks(blocked: Set<Seq<char>>, actor: IriView) -> bool {
    actor.authority matches Some(d) && blocked.contains(d)
}

/// The result of the check of the identity `actor`: its identifier has an
/// authority, and the authority is not blocked.
pub open spec fn identity_verdict(actor: IriView, context: ContextView) -> Result<
    (),
    VerificationErrorView,
> {
    if actor.authority is None {
        Err(failed_alone(Check::MalformedIdentity, actor))
    } else if blocks(context.blocked, actor) {
        Err(failed_alone(Check::BlockedIdentity, actor))
    } else {
        Ok(())
    }
}

/// The result of the checks that the kind of the activity `a` adds, where
/// it holds the activity `inner`:
///
/// - an `Undo` has the actor of the activity that it undoes;
/// - an `Accept` answers a follow request that is known, and that is for a
///   collective that is administered locally.
pub open spec fn kind_verdict(a: ActivityView, inner: ActivityView, context: ContextView) -> Result<
    (),
    VerificationErrorView,
> {
    match a.kind {
        ActivityKind::Undo => if a.actor != inner.actor {
            Err(failed(Check::ActorMismatch, a.actor, inner.actor))
        } else {
            Ok(())
        },
        ActivityKind::Accept => if !context.follow_requests.contains(inner.id) {
            Err(failed(Check::UnknownFollow, a.actor, inner.id))
        } else if !context.local_collectives.contains(subject(inner.payload)) {
            Err(failed(Check::ForeignCollective, a.actor, subject(inner.payload)))
        } else {
            Ok(())
        },
        _ => Ok(()),
    }
}

/// The result of verifying the activity `a`. The checks are made in order,
/// and the first that fails decides:
///
/// 1. the actor's authority is that of the activity's identifier;
/// 2. where the payload is an activity, the actor's authority is that of
///    its identifier;
/// 3. the actor's identifier has an authority, and it is not blocked;
/// 4. where the payload is an activity, the checks that the kind adds pass
///    (see [`kind_verdict`]), and the activity that is held passes these
///    four checks in turn.
pub open spec fn verdict(a: ActivityView, context: ContextView) -> Result<
    (),
    VerificationErrorView,
>
    decreases a,
{
    if a.actor.authority != a.id.authority {
        Err(failed(Check::DomainMismatch, a.actor, a.id))
    } else {
        match a.payload {
            PayloadView::Nested(inner) => {
                if a.actor.authority != inner.id.authority {
                    Err(failed(Check::NestedDomainMismatch, a.actor, inner.id))
                } else if identity_verdict(a.actor, context) is Err {
                    identity_verdict(a.actor, context)
                } else if kind_verdict(a, *inner, context) is Err {
                    kind_verdict(a, *inner, context)
                } else {
                    verdict(*inner, context)
                }
            },
            _ => identity_verdict(a.actor, context),
        }
    }
}

/// Whether the result `r` of a verification is the verdict `v`.
pub open spec fn is_verdict(
    r: Result<(), VerificationError>,
    v: Result<(), VerificationErrorView>,
) -> bool {
    match r {
        Ok(_) => v is Ok,
        Err(e) => v == Err::<(), VerificationErrorView>(e@),
    }
}

/// Whether the identifier `iri` is among `iris`.
fn contains(iris: &Vec<Iri>, iri: &Iri) -> (b: bool)
    ensures
        b == holds(iris@, iri@),
{
    let mut i: usize = 0;
    while i < iris.len()
        invariant
            i <= iris.len(),
            forall|j: int| 0 <= j < i ==> (#[trigger] iris@[j])@ != iri@,
        decreases iris.len() - i,
    {
        if iris[i].same_as(iri) {
            return true;
        }
        i += 1;
    }
    false
}

impl Context {
    /// A context that blocks the domains `blocked`, and knows of no follow
    /// request and of no local collective.
    pub fn new(blocked: Vec<String>) -> (c: Context)
        ensures
            c.blocked == blocked,
            c.follow_requests@.len() == 0,
            c.local_collectives@.len() == 0,
    {
        Context { blocked, follow_requests: Vec::new(), local_collectives: Vec::new() }
    }

    /// Whether the identity `actor` is blocked: its authority is one of the
    /// blocked domains. Nothing is fetched to tell.
    pub fn is_blocked(&self, actor: &Iri) -> (b: bool)
        ensures
            b == blocks(self@.blocked, actor@),
    {
        let mut i: usize = 0;
        while i < self.blocked.len()
            invariant
                i <= self.blocked.len(),
                forall|j: int| 0 <= j < i ==> Some(self.blocked@[j]@) != actor@.authority,
            decreases self.blocked.len() - i,
        {
            if actor.has_authority(&self.blocked[i]) {
                assert(listed(self.blocked@, self.blocked@[i as int]@));
                return true;
            }
            i += 1;
        }
        false
    }

    /// Whether a follow request with the identifier `id` is known.
    pub fn knows_follow(&self, id: &Iri) -> (b: bool)
        ensures
            b == self@.follow_requests.contains(id@),
    {
        contains(&self.follow_requests, id)
    }

    /// Whether the collective `collective` is administered locally.
    pub fn administers(&self, collective: &Iri) -> (b: bool)
        ensures
            b == self@.local_collectives.contains(collective@),
    {
        contains(&self.local_collectives, collective)
    }
}

/// The error of the check `check`, made of `actor` against `against`.
fn fail(check: Check, actor: &Iri, against: &Iri) -> (e: VerificationError)
    ensures
        e@ == failed(check, actor@, against@),
{
    VerificationError { check, actor: actor.duplicate(), against: Some(against.duplicate()) }
}

/// Checks that `a` and `b` have the same network authority.
///
/// Fails with `DomainMismatch`, made of `a` against `b`, where they differ.
pub fn verify_domains_match(a: &Iri, b: &Iri) -> (r: Result<(), VerificationError>)
    ensures
        is_verdict(
            r,
            if a@.authority == b@.authority {
                Ok(())
            } else {
                Err(failed(Check::DomainMismatch, a@, b@))
            },
        ),
{
    if a.same_authority(b) {
        Ok(())
    } else {
        Err(fail(Check::DomainMismatch, a, b))
    }
}

/// Checks that the identity `actor` is valid: its identifier has an
/// authority, and the authority is not blocked.
pub fn check_identity(actor: &Iri, context: &Context) -> (r: Result<(), VerificationError>)
    ensures
        is_verdict(r, identity_verdict(actor@, context@)),
{
    if actor.authority().is_none() {
        Err(
            VerificationError {
                check: Check::MalformedIdentity,
                actor: actor.duplicate(),
                against: None,
            },
        )
    } else if context.is_blocked(actor) {
        Err(
            VerificationError {
                check: Check::BlockedIdentity,
                actor: actor.duplicate(),
                against: None,
            },
        )
    } else {
        Ok(())
    }
}

impl Activity {
    /// Makes the checks that the kind of the activity adds, where it holds
    /// the activity `inner`: see [`kind_verdict`].
    pub fn check_kind(&self, inner: &Activity, context: &Context) -> (r: Result<
        (),
        VerificationError,
    >)
        ensures
            is_verdict(r, kind_verdict(self@, inner@, context@)),
    {
        match self.kind {
            ActivityKind::Undo => {
                if !self.actor.same_as(&inner.actor) {
                    Err(fail(Check::ActorMismatch, &self.actor, &inner.actor))
                } else {
                    Ok(())
                }
            },
            ActivityKind::Accept => {
                if !context.knows_follow(&inner.id) {
                    Err(fail(Check::UnknownFollow, &self.actor, &inner.id))
                } else if !context.administers(inner.payload.subject()) {
                    Err(fail(Check::ForeignCollective, &self.actor, inner.payload.subject()))
                } else {
                    Ok(())
                }
            },
            _ => Ok(()),
        }
    }

    /// Verifies the activity: see [`verdict`].
    ///
    /// Whatever else holds, an activity whose actor and identifier differ in
    /// authority fails with `DomainMismatch`, and an `Undo` of an activity
    /// of another actor fails.
    pub fn verify(&self, context: &Context) -> (r: Result<(), VerificationError>)
        ensures
            is_verdict(r, verdict(self@, context@)),
            self@.actor.authority != self@.id.authority ==> (r matches Err(e) && e.check
                == Check::DomainMismatch),
            self@.kind == ActivityKind::Undo ==> (self@.payload matches PayloadView::Nested(inner)
                ==> inner.actor != self@.actor ==> r is Err),
        decreases *self,
    {
        match verify_domains_match(&self.actor, &self.id) {
            Err(e) => {
                return Err(e);
            },
            Ok(_) => {},
        }
        match &self.payload {
            Payload::Nested(inner) => {
                if !self.actor.same_authority(&inner.id) {
                    return Err(fail(Check::NestedDomainMismatch, &self.actor, &inner.id));
                }
                match check_identity(&self.actor, context) {
                    Err(e) => {
                        return Err(e);
                    },
                    Ok(_) => {},
                }
                match self.check_kind(inner, context) {
                    Err(e) => {
                        return Err(e);
                    },
                    Ok(_) => {},
                }
                inner.verify(context)
            },
            _ => check_identity(&self.actor, context),
        }
    }
}

/// An `Undo` of an activity of the same actor passes verification where the
/// activity that it holds passes and the `Undo`'s own identifier has the
/// actor's authority.
pub proof fn law_undo_of_own_activity_passes(
    undo: ActivityView,
    inner: ActivityView,
    context: ContextView,
)
    requires
        undo.kind == ActivityKind::Undo,
        undo.payload == PayloadView::Nested(Box::new(inner)),
        undo.actor == inner.actor,
        verdict(inner, context) is Ok,
        undo.actor.authority == undo.id.authority,
    ensures
        verdict(undo, context) is Ok,
{
}

/// An `Undo` of an activity of another actor fails verification.
pub proof fn law_undo_of_foreign_activity_fails(
    undo: ActivityView,
    inner: ActivityView,
    context: ContextView,
)
    requires
        undo.kind == ActivityKind::Undo,
        undo.payload == PayloadView::Nested(Box::new(inner)),
        undo.actor != inner.actor,
    ensures
        verdict(undo, context) is Err,
{
}

/// An activity whose actor and identifier differ in authority fails
/// verification with `DomainMismatch`, whatever else it holds.
pub proof fn law_domain_mismatch_fails(a: ActivityView, context: ContextView)
    requires
        a.actor.authority != a.id.authority,
    ensures
        verdict(a, context) == Err::<(), VerificationErrorView>(
            failed(Check::DomainMismatch, a.actor, a.id),
        ),
{
}

/// An activity that passes verification has an actor with an authority that
/// is not blocked, and the authority is that of the activity's identifier.
pub proof fn law_verified_actor_is_valid(a: ActivityView, context: ContextView)
    requires
        verdict(a, context) is Ok,
    ensures
        a.actor.authority is Some,
        a.actor.authority == a.id.authority,
        !blocks(context.blocked, a.actor),
{
}

} // verus!
