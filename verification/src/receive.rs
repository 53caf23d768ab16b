//! What receiving an activity changes, and the steps by which the change is
//! reached.
//!
//! The library decides; its caller looks up, fetches and stores. Each step
//! hands the caller one thing to do, and the caller hands back how it went.

use crate::activity::{opt_iri_view, Activity, ActivityKind, ActivityView, Payload, PayloadView};
use crate::iri::{Iri, IriView};
use crate::schema::{carries, conforms, wrapped, ObjectForm, Variant};
use vstd::prelude::*;

verus! {

/// The kinds of actor.
#[derive(Clone, Copy, Debug, PartialEq, Eq, Structural)]
pub enum ActorKind {
    Individual,
    Collective,
}

/// A resolved identity: an actor that the local instance knows.
#[derive(Debug, PartialEq, Eq)]
pub struct ActorIdentity {
    pub id: Iri,
    pub kind: ActorKind,
}

/// The state changes that an activity can ask for.
#[derive(Clone, Copy, Debug, PartialEq, Eq, Structural)]
pub enum Effect {
    Create,
    Update,
    Delete,
    AddMembership,
    RemoveMembership,
    Upvote,
    Downvote,
    ReverseVote,
    Forward,
}

/// One state change, as it is handed to storage.
#[derive(Debug, PartialEq, Eq)]
pub struct Mutation {
    /// The identifier of the activity that asks for the change. Storage
    /// applies at most one change for one identifier.
    pub activity: Iri,
    pub effect: Effect,
    /// The actor on whose authority the change is made.
    pub actor: Iri,
    /// What is changed.
    pub target: Iri,
    /// The collection in which it is changed, where the activity names one.
    pub collection: Option<Iri>,
}

/// The mathematical value of a [`Mutation`].
pub struct MutationView {
    pub activity: IriView,
    pub effect: Effect,
    pub actor: IriView,
    pub target: IriView,
    pub collection: Option<IriView>,
}

impl View for Mutation {
    type V = MutationView;

    open spec fn view(&self) -> MutationView {
        MutationView {
            activity: self.activity@,
            effect: self.effect,
            actor: self.actor@,
            target: self.target@,
            collection: opt_iri_view(self.collection),
        }
    }
}

/// Why an activity was not received.
#[derive(Debug, PartialEq, Eq)]
pub enum ReceiveError {
    /// The object with this identifier could not be fetched.
    Fetch(Iri),
    /// A fetch was needed and the budget was spent.
    BudgetExhausted,
    /// Storage did not apply the change.
    Storage,
}

/// The change that undoes the change `e`, where there is one.
pub open spec fn inverse(e: Effect) -> Option<Effect> {
    match e {
        Effect::Upvote => Some(Effect::ReverseVote),
        Effect::Downvote => Some(Effect::ReverseVote),
        Effect::Delete => Some(Effect::Update),
        Effect::AddMembership => Some(Effect::RemoveMembership),
        Effect::RemoveMembership => Some(Effect::AddMembership),
        _ => None,
    }
}

/// What the payload `p` is about, in the end: the identifier that it names,
/// that of the content it carries, or what the activity in it is about.
pub open spec fn subject(p: PayloadView) -> IriView
    decreases p,
{
    match p {
        PayloadView::Target(iri) => iri,
        PayloadView::Content { id, kind } => id,
        PayloadView::Nested(inner) => subject(inner.payload),
    }
}

/// The collection that the activity `a` names: its own target, or else that
/// of the activity in it.
pub open spec fn collection(a: ActivityView) -> Option<IriView>
    decreases a,
{
    match a.target {
        Some(t) => Some(t),
        None => match a.payload {
            PayloadView::Nested(inner) => collection(*inner),
            _ => None,
        },
    }
}

/// The change that the activity `a` asks for, where its kind and its payload
/// go together:
///
/// - `Create` and `Update` of content create and update it;
/// - `Delete` of a reference deletes what it names, and so does `Remove`,
///   unless it has a target: then it removes a membership;
/// - `Add` with a target and `Follow` add a membership, `Block` removes one;
/// - `Like` and `Dislike` record a vote;
/// - `Accept` confirms the change of the activity in it;
/// - `Undo` makes the inverse of the change of the activity in it;
/// - `Announce` forwards the activity in it.
pub open spec fn effect(a: ActivityView) -> Option<Effect>
    decreases a,
{
    match a.payload {
        PayloadView::Target(_) => match a.kind {
            ActivityKind::Delete => Some(Effect::Delete),
            ActivityKind::Remove => if a.target is Some {
                Some(Effect::RemoveMembership)
            } else {
                Some(Effect::Delete)
            },
            ActivityKind::Add => if a.target is Some {
                Some(Effect::AddMembership)
            } else {
                None
            },
            ActivityKind::Follow => Some(Effect::AddMembership),
            ActivityKind::Block => Some(Effect::RemoveMembership),
            ActivityKind::Like => Some(Effect::Upvote),
            ActivityKind::Dislike => Some(Effect::Downvote),
            _ => None,
        },
        PayloadView::Content { id, kind } => match a.kind {
            ActivityKind::Create => Some(Effect::Create),
            ActivityKind::Update => Some(Effect::Update),
            _ => None,
        },
        PayloadView::Nested(inner) => match a.kind {
            ActivityKind::Accept => effect(*inner),
            ActivityKind::Undo => match effect(*inner) {
                Some(e) => inverse(e),
                None => None,
            },
            ActivityKind::Announce => Some(Effect::Forward),
            _ => None,
        },
    }
}

/// The change that receiving the activity `a` makes on the authority of
/// `actor`, where `a` asks for one: it is made for the activity's
/// identifier, to what the payload is about.
pub open spec fn mutation(a: ActivityView, actor: IriView) -> Option<MutationView> {
    match effect(a) {
        Some(e) => Some(
            MutationView {
                activity: a.id,
                effect: e,
                actor,
                target: subject(a.payload),
                collection: collection(a),
            },
        ),
        None => None,
    }
}

/// The objects that must be held before the change `m` is made: what is
/// changed, and the collection in which it is changed.
pub open spec fn references(m: MutationView) -> Seq<IriView> {
    match m.collection {
        Some(c) => seq![m.target, c],
        None => seq![m.target],
    }
}

impl Mutation {
    /// A copy of this change.
    pub fn duplicate(&self) -> (r: Mutation)
        ensures
            r@ == self@,
    {
        Mutation {
            activity: self.activity.duplicate(),
            effect: self.effect,
            actor: self.actor.duplicate(),
            target: self.target.duplicate(),
            collection: match &self.collection {
                Some(c) => Some(c.duplicate()),
                None => None,
            },
        }
    }
}

impl Effect {
    /// The change that undoes this one, where there is one.
    pub fn inverse(self) -> (r: Option<Effect>)
        ensures
            r == inverse(self),
    {
        match self {
            Effect::Upvote => Some(Effect::ReverseVote),
            Effect::Downvote => Some(Effect::ReverseVote),
            Effect::Delete => Some(Effect::Update),
            Effect::AddMembership => Some(Effect::RemoveMembership),
            Effect::RemoveMembership => Some(Effect::AddMembership),
            _ => None,
        }
    }
}

impl Payload {
    /// What the payload is about, in the end.
    pub fn subject(&self) -> (r: &Iri)
        ensures
            r@ == subject(self@),
        decreases *self,
    {
        match self {
            Payload::Target(iri) => iri,
            Payload::Content { id, kind } => id,
            Payload::Nested(inner) => inner.payload.subject(),
        }
    }
}

impl Activity {
    /// The collection that the activity names, if any.
    pub fn collection(&self) -> (r: Option<&Iri>)
        ensures
            opt_ref_view(r) == collection(self@),
        decreases *self,
    {
        match &self.target {
            Some(t) => Some(t),
            None => match &self.payload {
                Payload::Nested(inner) => inner.collection(),
                _ => None,
            },
        }
    }

    /// The change that the activity asks for, where its kind and its payload
    /// go together.
    pub fn effect(&self) -> (r: Option<Effect>)
        ensures
            r == effect(self@),
        decreases *self,
    {
        match &self.payload {
            Payload::Target(_) => match self.kind {
                ActivityKind::Delete => Some(Effect::Delete),
                ActivityKind::Remove => if self.target.is_some() {
                    Some(Effect::RemoveMembership)
                } else {
                    Some(Effect::Delete)
                },
                ActivityKind::Add => if self.target.is_some() {
                    Some(Effect::AddMembership)
                } else {
                    None
                },
                ActivityKind::Follow => Some(Effect::AddMembership),
                ActivityKind::Block => Some(Effect::RemoveMembership),
                ActivityKind::Like => Some(Effect::Upvote),
                ActivityKind::Dislike => Some(Effect::Downvote),
                _ => None,
            },
            Payload::Content { id, kind } => match self.kind {
                ActivityKind::Create => Some(Effect::Create),
                ActivityKind::Update => Some(Effect::Update),
                _ => None,
            },
            Payload::Nested(inner) => match self.kind {
                ActivityKind::Accept => inner.effect(),
                ActivityKind::Undo => match inner.effect() {
                    Some(e) => e.inverse(),
                    None => None,
                },
                ActivityKind::Announce => Some(Effect::Forward),
                _ => None,
            },
        }
    }

    /// The change that receiving the activity makes on the authority of
    /// `actor`, where the activity asks for one.
    pub fn mutation(&self, actor: &ActorIdentity) -> (r: Option<Mutation>)
        ensures
            match r {
                Some(m) => mutation(self@, actor.id@) == Some(m@),
                None => mutation(self@, actor.id@) is None,
            },
    {
        match self.effect() {
            Some(e) => Some(
                Mutation {
                    activity: self.id.duplicate(),
                    effect: e,
                    actor: actor.id.duplicate(),
                    target: self.payload.subject().duplicate(),
                    collection: match self.collection() {
                        Some(c) => Some(c.duplicate()),
                        None => None,
                    },
                },
            ),
            None => None,
        }
    }
}

/// An activity that has the shape of a variant asks for a change: for
/// exactly one, which [`effect`] names.
pub proof fn law_every_variant_has_an_effect(a: ActivityView, v: Variant)
    requires
        conforms(a, v),
    ensures
        effect(a) is Some,
{
    reveal_with_fuel(effect, 3);
    reveal_with_fuel(wrapped, 3);
    reveal_with_fuel(carries, 3);
    match a.payload {
        PayloadView::Nested(inner) => {
            if v.shape().object == ObjectForm::Forwards {
            } else {
                let w = v.shape().object->Wraps_0;
                assert(wrapped(*inner, w));
                assert(effect(*inner) is Some);
            }
        },
        _ => {},
    }
}

/// The value of an optional borrowed identifier.
pub open spec fn opt_ref_view(iri: Option<&Iri>) -> Option<IriView> {
    match iri {
        Some(i) => Some(i@),
        None => None,
    }
}

} // verus!
