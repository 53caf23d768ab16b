//! The `Undo` of a `Like` of a post.

use crate::activity::{Activity, ActivityKind, ActivityView, Payload, PayloadView};
use crate::delivery::{proceed, Progress};
use crate::iri::Iri;
use crate::receive::{mutation, references, subject, ActorIdentity, Effect};
use crate::schema::{conforms, Variant};
use crate::verification::{
    blocks, check_identity, failed, failed_alone, is_verdict, verdict, verify_domains_match, Check,
    Context, ContextView, VerificationError, VerificationErrorView,
};
use crate::wire::{read_activity, WireDocument};
use vstd::prelude::*;

verus! {

/// An activity that takes back a `Like` of a post.
///
/// It owns the `Like` that it takes back. Only one that has the shape of the
/// variant can be made, so the `Like` is always there.
#[derive(Debug, PartialEq, Eq)]
pub struct UndoLikePost {
    activity: Activity,
}

/// The result of verifying the `Undo` `undo` of the `Like` `like`, with
/// `blocked` the set of blocked domains. In this order:
///
/// 1. the actor's authority is that of the `Undo`'s identifier;
/// 2. the actor's authority is that of the `Like`'s identifier;
/// 3. the actor's identifier has an authority, and it is not blocked;
/// 4. the actor is the actor of the `Like`.
pub open spec fn undo_like_verdict(
    undo: ActivityView,
    like: ActivityView,
    blocked: Set<Seq<char>>,
) -> Result<(), VerificationErrorView> {
    if undo.actor.authority != undo.id.authority {
        Err(failed(Check::DomainMismatch, undo.actor, undo.id))
    } else if undo.actor.authority != like.id.authority {
        Err(failed(Check::NestedDomainMismatch, undo.actor, like.id))
    } else if undo.actor.authority is None {
        Err(failed_alone(Check::MalformedIdentity, undo.actor))
    } else if blocks(blocked, undo.actor) {
        Err(failed_alone(Check::BlockedIdentity, undo.actor))
    } else if undo.actor != like.actor {
        Err(failed(Check::ActorMismatch, undo.actor, like.actor))
    } else {
        Ok(())
    }
}

impl UndoLikePost {
    #[verifier::type_invariant]
    spec fn well_formed(self) -> bool {
        conforms(self.activity@, Variant::UndoLikePost)
    }

    /// The `Undo`.
    pub closed spec fn activity(&self) -> ActivityView {
        self.activity@
    }

    /// The `Like` that is taken back.
    pub closed spec fn like(&self) -> ActivityView {
        match self.activity@.payload {
            PayloadView::Nested(inner) => *inner,
            _ => arbitrary(),
        }
    }

    /// The activity `a` as an `Undo` of a `Like` of a post, where it has the
    /// shape of one.
    pub fn from_activity(a: Activity) -> (r: Option<UndoLikePost>)
        ensures
            match r {
                Some(u) => conforms(a@, Variant::UndoLikePost) && u.activity() == a@
                    && a@.payload == PayloadView::Nested(Box::new(u.like())),
                None => !conforms(a@, Variant::UndoLikePost),
            },
    {
        if a.conforms_to(Variant::UndoLikePost) {
            Some(UndoLikePost { activity: a })
        } else {
            None
        }
    }

    /// Reads a delivered document as an `Undo` of a `Like` of a post.
    pub fn read(doc: &WireDocument) -> (r: Option<UndoLikePost>)
        ensures
            match r {
                Some(u) => read_activity(doc@) == Some(u.activity()) && conforms(
                    u.activity(),
                    Variant::UndoLikePost,
                ),
                None => match read_activity(doc@) {
                    Some(a) => !conforms(a, Variant::UndoLikePost),
                    None => true,
                },
            },
    {
        match doc.read() {
            Some(a) => UndoLikePost::from_activity(a),
            None => None,
        }
    }

    /// The `Undo` itself, as an activity.
    pub fn as_activity(&self) -> (a: &Activity)
        ensures
            a@ == self.activity(),
            conforms(a@, Variant::UndoLikePost),
            a@.payload == PayloadView::Nested(Box::new(self.like())),
    {
        proof {
            use_type_invariant(self);
        }
        &self.activity
    }

    /// The post whose `Like` is taken back.
    pub fn object(&self) -> (post: &Iri)
        ensures
            self.like().payload == PayloadView::Target(post@),
    {
        proof {
            use_type_invariant(self);
            lemma_undo_like_shape(self.activity());
        }
        self.activity.payload.subject()
    }

    /// Verifies the `Undo`: see [`undo_like_verdict`]. That is the verdict
    /// on the `Undo` as an activity.
    pub fn verify(&self, context: &Context) -> (r: Result<(), VerificationError>)
        ensures
            is_verdict(r, undo_like_verdict(self.activity(), self.like(), context@.blocked)),
            is_verdict(r, verdict(self.activity(), context@)),
    {
        proof {
            use_type_invariant(self);
            lemma_undo_like_shape(self.activity());
            law_undo_like_verdict(self.activity(), self.like(), context@);
        }
        match &self.activity.payload {
            Payload::Nested(like) => {
                assert(self.activity@.payload == PayloadView::Nested(Box::new(like@)));
                assert(self.like() == like@);
                match verify_domains_match(&self.activity.actor, &self.activity.id) {
                    Err(e) => {
                        return Err(e);
                    },
                    Ok(_) => {},
                }
                if !self.activity.actor.same_authority(&like.id) {
                    return Err(
                        VerificationError {
                            check: Check::NestedDomainMismatch,
                            actor: self.activity.actor.duplicate(),
                            against: Some(like.id.duplicate()),
                        },
                    );
                }
                match check_identity(&self.activity.actor, context) {
                    Err(e) => {
                        return Err(e);
                    },
                    Ok(_) => {},
                }
                if !self.activity.actor.same_as(&like.actor) {
                    return Err(
                        VerificationError {
                            check: Check::ActorMismatch,
                            actor: self.activity.actor.duplicate(),
                            against: Some(like.actor.duplicate()),
                        },
                    );
                }
                Ok(())
            },
            _ => self.activity.verify(context),
        }
    }

    /// Begins to receive the `Undo` on the authority of `actor`: the vote
    /// of the `Like` on the post is to be reversed, once the post is held.
    pub fn receive(&self, actor: &ActorIdentity) -> (p: Progress)
        ensures
            mutation(self.activity(), actor.id@) matches Some(m) && p@ == proceed(m, references(m))
                && m.effect == Effect::ReverseVote && m.activity == self.activity().id && m.actor
                == actor.id@ && self.like().payload == PayloadView::Target(m.target),
    {
        proof {
            use_type_invariant(self);
            lemma_undo_like_shape(self.activity());
        }
        match self.activity.mutation(actor) {
            Some(m) => Progress::begin(m),
            None => Progress::Done,
        }
    }
}

/// What the shape of the variant says of an `Undo` of a `Like` of a post.
proof fn lemma_undo_like_shape(undo: ActivityView)
    requires
        conforms(undo, Variant::UndoLikePost),
    ensures
        undo.kind == ActivityKind::Undo,
        undo.payload matches PayloadView::Nested(like) && like.kind == ActivityKind::Like && (
        like.payload matches PayloadView::Target(post) && subject(undo.payload) == post),
        crate::receive::effect(undo) == Some(Effect::ReverseVote),
{
    reveal_with_fuel(crate::schema::wrapped, 2);
    reveal_with_fuel(crate::schema::carries, 3);
    reveal_with_fuel(subject, 3);
    reveal_with_fuel(crate::receive::effect, 3);
}

/// For an `Undo` of a `Like` of a post, the verdict of the four checks is
/// the verdict on the `Undo` as an activity: the `Like` in it passes its own
/// checks where the `Undo` passes these.
pub proof fn law_undo_like_verdict(undo: ActivityView, like: ActivityView, context: ContextView)
    requires
        conforms(undo, Variant::UndoLikePost),
        undo.payload == PayloadView::Nested(Box::new(like)),
    ensures
        undo_like_verdict(undo, like, context.blocked) == verdict(undo, context),
{
    reveal_with_fuel(verdict, 3);
    reveal_with_fuel(crate::schema::wrapped, 2);
    reveal_with_fuel(crate::schema::carries, 3);
}

} // verus!
