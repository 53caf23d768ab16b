//! The three inboxes, and the variants of activity that each accepts.

use crate::activity::{Activity, ActivityKind, PayloadView};
use crate::delivery::{proceed, Progress};
use crate::dispatch::{handle, receive, resolution, resolve, DispatchError};
use crate::receive::{mutation, references, ActorIdentity};
use crate::schema::{conforms, Variant};
use crate::verification::{
    is_verdict, verdict, Check, Context, VerificationError, VerificationErrorView,
};
use crate::wire::WireDocument;
use vstd::prelude::*;

verus! {

/// What the inbox of an individual actor accepts.
#[derive(Debug, PartialEq, Eq)]
pub enum PersonInboxActivities {
    AcceptFollowCommunity(Activity),
    CreatePrivateMessage(Activity),
    UpdatePrivateMessage(Activity),
    DeletePrivateMessage(Activity),
    UndoDeletePrivateMessage(Activity),
    AnnounceActivity(Activity),
}

impl PersonInboxActivities {
    /// The variants that the endpoint accepts, in the order of their
    /// declaration.
    pub open spec fn declared() -> Seq<Variant> {
        seq![
            Variant::AcceptFollowCommunity,
            Variant::CreatePrivateMessage,
            Variant::UpdatePrivateMessage,
            Variant::DeletePrivateMessage,
            Variant::UndoDeletePrivateMessage,
            Variant::AnnounceActivity,
        ]
    }

    /// The variants that the endpoint accepts, in the order of their
    /// declaration.
    pub fn declared_variants() -> (v: Vec<Variant>)
        ensures
            v@ == Self::declared(),
    {
        let v = vec![
            Variant::AcceptFollowCommunity,
            Variant::CreatePrivateMessage,
            Variant::UpdatePrivateMessage,
            Variant::DeletePrivateMessage,
            Variant::UndoDeletePrivateMessage,
            Variant::AnnounceActivity,
        ];
        assert(v@ =~= Self::declared());
        v
    }

    /// The variant of the activity.
    pub open spec fn variant(&self) -> Variant {
        match self {
            PersonInboxActivities::AcceptFollowCommunity(_) => Variant::AcceptFollowCommunity,
            PersonInboxActivities::CreatePrivateMessage(_) => Variant::CreatePrivateMessage,
            PersonInboxActivities::UpdatePrivateMessage(_) => Variant::UpdatePrivateMessage,
            PersonInboxActivities::DeletePrivateMessage(_) => Variant::DeletePrivateMessage,
            PersonInboxActivities::UndoDeletePrivateMessage(_) => Variant::UndoDeletePrivateMessage,
            PersonInboxActivities::AnnounceActivity(_) => Variant::AnnounceActivity,
        }
    }

    /// The activity.
    pub open spec fn activity(&self) -> Activity {
        match self {
            PersonInboxActivities::AcceptFollowCommunity(a) => *a,
            PersonInboxActivities::CreatePrivateMessage(a) => *a,
            PersonInboxActivities::UpdatePrivateMessage(a) => *a,
            PersonInboxActivities::DeletePrivateMessage(a) => *a,
            PersonInboxActivities::UndoDeletePrivateMessage(a) => *a,
            PersonInboxActivities::AnnounceActivity(a) => *a,
        }
    }

    /// The variant of the activity, and the activity.
    pub fn parts(&self) -> (r: (Variant, &Activity))
        ensures
            r.0 == self.variant(),
            *r.1 == self.activity(),
    {
        match self {
            PersonInboxActivities::AcceptFollowCommunity(a) => (Variant::AcceptFollowCommunity, a),
            PersonInboxActivities::CreatePrivateMessage(a) => (Variant::CreatePrivateMessage, a),
            PersonInboxActivities::UpdatePrivateMessage(a) => (Variant::UpdatePrivateMessage, a),
            PersonInboxActivities::DeletePrivateMessage(a) => (Variant::DeletePrivateMessage, a),
            PersonInboxActivities::UndoDeletePrivateMessage(a) => (Variant::UndoDeletePrivateMessage, a),
            PersonInboxActivities::AnnounceActivity(a) => (Variant::AnnounceActivity, a),
        }
    }

    /// The activity `a` as the variant `v`, where the endpoint accepts it.
    fn of(v: Variant, a: Activity) -> (r: Option<Self>)
        ensures
            match r {
                Some(x) => x.variant() == v && x.activity() == a,
                None => !Self::declared().contains(v),
            },
    {
        match v {
            Variant::AcceptFollowCommunity => Some(PersonInboxActivities::AcceptFollowCommunity(a)),
            Variant::CreatePrivateMessage => Some(PersonInboxActivities::CreatePrivateMessage(a)),
            Variant::UpdatePrivateMessage => Some(PersonInboxActivities::UpdatePrivateMessage(a)),
            Variant::DeletePrivateMessage => Some(PersonInboxActivities::DeletePrivateMessage(a)),
            Variant::UndoDeletePrivateMessage => Some(PersonInboxActivities::UndoDeletePrivateMessage(a)),
            Variant::AnnounceActivity => Some(PersonInboxActivities::AnnounceActivity(a)),
            _ => None,
        }
    }

    /// Whether the activity has the shape of its variant.
    pub open spec fn wf(&self) -> bool {
        conforms(self.activity()@, self.variant())
    }

    /// Resolves a delivered document to the variant that it is: the first
    /// declared variant whose shape the activity that it states has.
    ///
    /// Fails with `UnrecognizedActivity` where the document states no
    /// activity, or one of no declared shape.
    pub fn resolve(doc: &WireDocument) -> (r: Result<Self, DispatchError>)
        ensures
            match r {
                Ok(x) => resolution(doc@, Self::declared()) == Some((x.variant(), x.activity()@))
                    && x.wf(),
                Err(e) => e is UnrecognizedActivity && resolution(doc@, Self::declared()) is None,
            },
    {
        let declared = Self::declared_variants();
        match resolve(doc, &declared) {
            Ok((v, a)) => match Self::of(v, a) {
                Some(x) => Ok(x),
                None => Err(DispatchError::UnrecognizedActivity),
            },
            Err(e) => Err(e),
        }
    }

    /// Verifies the activity: see [`verdict`].
    ///
    /// Whatever else holds, an activity whose actor and identifier differ in
    /// authority fails with `DomainMismatch`, and an `Undo` of an activity
    /// of another actor fails.
    pub fn verify(&self, context: &Context) -> (r: Result<(), VerificationError>)
        ensures
            is_verdict(r, verdict(self.activity()@, context@)),
            self.activity()@.actor.authority != self.activity()@.id.authority ==> (r matches Err(
                e,
            ) && e.check == Check::DomainMismatch),
            self.activity()@.kind == ActivityKind::Undo ==> (
            self.activity()@.payload matches PayloadView::Nested(inner) ==> inner.actor
                != self.activity()@.actor ==> r is Err),
    {
        let (_, a) = self.parts();
        a.verify(context)
    }

    /// Begins to receive the activity on the authority of `actor`: plans
    /// the one change that it asks for, and says what is to be done first.
    pub fn receive(&self, actor: &ActorIdentity) -> (p: Progress)
        requires
            self.wf(),
        ensures
            mutation(self.activity()@, actor.id@) matches Some(m) && p@ == proceed(
                m,
                references(m),
            ),
    {
        let (v, a) = self.parts();
        receive(v, a, actor)
    }

    /// Verifies the activity and, where it passes, begins to receive it on
    /// the authority of `actor`. An activity that fails is not received.
    pub fn handle(&self, actor: &ActorIdentity, context: &Context) -> (r: Result<
        Progress,
        DispatchError,
    >)
        requires
            self.wf(),
        ensures
            match r {
                Ok(p) => verdict(self.activity()@, context@) is Ok && (mutation(
                    self.activity()@,
                    actor.id@,
                ) matches Some(m) && p@ == proceed(m, references(m))),
                Err(e) => e matches DispatchError::Verification(cause) && verdict(
                    self.activity()@,
                    context@,
                ) == Err::<(), VerificationErrorView>(cause@),
            },
    {
        let (v, a) = self.parts();
        handle(v, a, actor, context)
    }
}

/// What the inbox of a group-like collective accepts.
#[derive(Debug, PartialEq, Eq)]
pub enum GroupInboxActivities {
    FollowCommunity(Activity),
    UndoFollowCommunity(Activity),
    CreateComment(Activity),
    UpdateComment(Activity),
    LikeComment(Activity),
    DislikeComment(Activity),
    UndoLikeComment(Activity),
    UndoDislikeComment(Activity),
    DeleteComment(Activity),
    UndoDeleteComment(Activity),
    RemoveComment(Activity),
    UndoRemoveComment(Activity),
    CreatePost(Activity),
    UpdatePost(Activity),
    LikePost(Activity),
    DislikePost(Activity),
    DeletePost(Activity),
    UndoDeletePost(Activity),
    RemovePost(Activity),
    UndoRemovePost(Activity),
    UndoLikePost(Activity),
    UndoDislikePost(Activity),
    UpdateCommunity(Activity),
    DeleteCommunity(Activity),
    RemoveCommunity(Activity),
    UndoDeleteCommunity(Activity),
    UndoRemoveCommunity(Activity),
    BlockUserFromCommunity(Activity),
    UndoBlockUserFromCommunity(Activity),
    AddMod(Activity),
    RemoveMod(Activity),
}

impl GroupInboxActivities {
    /// The variants that the endpoint accepts, in the order of their
    /// declaration.
    pub open spec fn declared() -> Seq<Variant> {
        seq![
            Variant::FollowCommunity,
            Variant::UndoFollowCommunity,
            Variant::CreateComment,
            Variant::UpdateComment,
            Variant::LikeComment,
            Variant::DislikeComment,
            Variant::UndoLikeComment,
            Variant::UndoDislikeComment,
            Variant::DeleteComment,
            Variant::UndoDeleteComment,
            Variant::RemoveComment,
            Variant::UndoRemoveComment,
            Variant::CreatePost,
            Variant::UpdatePost,
            Variant::LikePost,
            Variant::DislikePost,
            Variant::DeletePost,
            Variant::UndoDeletePost,
            Variant::RemovePost,
            Variant::UndoRemovePost,
            Variant::UndoLikePost,
            Variant::UndoDislikePost,
            Variant::UpdateCommunity,
            Variant::DeleteCommunity,
            Variant::RemoveCommunity,
            Variant::UndoDeleteCommunity,
            Variant::UndoRemoveCommunity,
            Variant::BlockUserFromCommunity,
            Variant::UndoBlockUserFromCommunity,
            Variant::AddMod,
            Variant::RemoveMod,
        ]
    }

    /// The variants that the endpoint accepts, in the order of their
    /// declaration.
    pub fn declared_variants() -> (v: Vec<Variant>)
        ensures
            v@ == Self::declared(),
    {
        let v = vec![
            Variant::FollowCommunity,
            Variant::UndoFollowCommunity,
            Variant::CreateComment,
            Variant::UpdateComment,
            Variant::LikeComment,
            Variant::DislikeComment,
            Variant::UndoLikeComment,
            Variant::UndoDislikeComment,
            Variant::DeleteComment,
            Variant::UndoDeleteComment,
            Variant::RemoveComment,
            Variant::UndoRemoveComment,
            Variant::CreatePost,
            Variant::UpdatePost,
            Variant::LikePost,
            Variant::DislikePost,
            Variant::DeletePost,
            Variant::UndoDeletePost,
            Variant::RemovePost,
            Variant::UndoRemovePost,
            Variant::UndoLikePost,
            Variant::UndoDislikePost,
            Variant::UpdateCommunity,
            Variant::DeleteCommunity,
            Variant::RemoveCommunity,
            Variant::UndoDeleteCommunity,
            Variant::UndoRemoveCommunity,
            Variant::BlockUserFromCommunity,
            Variant::UndoBlockUserFromCommunity,
            Variant::AddMod,
            Variant::RemoveMod,
        ];
        assert(v@ =~= Self::declared());
        v
    }

    /// The variant of the activity.
    pub open spec fn variant(&self) -> Variant {
        match self {
            GroupInboxActivities::FollowCommunity(_) => Variant::FollowCommunity,
            GroupInboxActivities::UndoFollowCommunity(_) => Variant::UndoFollowCommunity,
            GroupInboxActivities::CreateComment(_) => Variant::CreateComment,
            GroupInboxActivities::UpdateComment(_) => Variant::UpdateComment,
            GroupInboxActivities::LikeComment(_) => Variant::LikeComment,
            GroupInboxActivities::DislikeComment(_) => Variant::DislikeComment,
            GroupInboxActivities::UndoLikeComment(_) => Variant::UndoLikeComment,
            GroupInboxActivities::UndoDislikeComment(_) => Variant::UndoDislikeComment,
            GroupInboxActivities::DeleteComment(_) => Variant::DeleteComment,
            GroupInboxActivities::UndoDeleteComment(_) => Variant::UndoDeleteComment,
            GroupInboxActivities::RemoveComment(_) => Variant::RemoveComment,
            GroupInboxActivities::UndoRemoveComment(_) => Variant::UndoRemoveComment,
            GroupInboxActivities::CreatePost(_) => Variant::CreatePost,
            GroupInboxActivities::UpdatePost(_) => Variant::UpdatePost,
            GroupInboxActivities::LikePost(_) => Variant::LikePost,
            GroupInboxActivities::DislikePost(_) => Variant::DislikePost,
            GroupInboxActivities::DeletePost(_) => Variant::DeletePost,
            GroupInboxActivities::UndoDeletePost(_) => Variant::UndoDeletePost,
            GroupInboxActivities::RemovePost(_) => Variant::RemovePost,
            GroupInboxActivities::UndoRemovePost(_) => Variant::UndoRemovePost,
            GroupInboxActivities::UndoLikePost(_) => Variant::UndoLikePost,
            GroupInboxActivities::UndoDislikePost(_) => Variant::UndoDislikePost,
            GroupInboxActivities::UpdateCommunity(_) => Variant::UpdateCommunity,
            GroupInboxActivities::DeleteCommunity(_) => Variant::DeleteCommunity,
            GroupInboxActivities::RemoveCommunity(_) => Variant::RemoveCommunity,
            GroupInboxActivities::UndoDeleteCommunity(_) => Variant::UndoDeleteCommunity,
            GroupInboxActivities::UndoRemoveCommunity(_) => Variant::UndoRemoveCommunity,
            GroupInboxActivities::BlockUserFromCommunity(_) => Variant::BlockUserFromCommunity,
            GroupInboxActivities::UndoBlockUserFromCommunity(_) => Variant::UndoBlockUserFromCommunity,
            GroupInboxActivities::AddMod(_) => Variant::AddMod,
            GroupInboxActivities::RemoveMod(_) => Variant::RemoveMod,
        }
    }

    /// The activity.
    pub open spec fn activity(&self) -> Activity {
        match self {
            GroupInboxActivities::FollowCommunity(a) => *a,
            GroupInboxActivities::UndoFollowCommunity(a) => *a,
            GroupInboxActivities::CreateComment(a) => *a,
            GroupInboxActivities::UpdateComment(a) => *a,
            GroupInboxActivities::LikeComment(a) => *a,
            GroupInboxActivities::DislikeComment(a) => *a,
            GroupInboxActivities::UndoLikeComment(a) => *a,
            GroupInboxActivities::UndoDislikeComment(a) => *a,
            GroupInboxActivities::DeleteComment(a) => *a,
            GroupInboxActivities::UndoDeleteComment(a) => *a,
            GroupInboxActivities::RemoveComment(a) => *a,
            GroupInboxActivities::UndoRemoveComment(a) => *a,
            GroupInboxActivities::CreatePost(a) => *a,
            GroupInboxActivities::UpdatePost(a) => *a,
            GroupInboxActivities::LikePost(a) => *a,
            GroupInboxActivities::DislikePost(a) => *a,
            GroupInboxActivities::DeletePost(a) => *a,
            GroupInboxActivities::UndoDeletePost(a) => *a,
            GroupInboxActivities::RemovePost(a) => *a,
            GroupInboxActivities::UndoRemovePost(a) => *a,
            GroupInboxActivities::UndoLikePost(a) => *a,
            GroupInboxActivities::UndoDislikePost(a) => *a,
            GroupInboxActivities::UpdateCommunity(a) => *a,
            GroupInboxActivities::DeleteCommunity(a) => *a,
            GroupInboxActivities::RemoveCommunity(a) => *a,
            GroupInboxActivities::UndoDeleteCommunity(a) => *a,
            GroupInboxActivities::UndoRemoveCommunity(a) => *a,
            GroupInboxActivities::BlockUserFromCommunity(a) => *a,
            GroupInboxActivities::UndoBlockUserFromCommunity(a) => *a,
            GroupInboxActivities::AddMod(a) => *a,
            GroupInboxActivities::RemoveMod(a) => *a,
        }
    }

    /// The variant of the activity, and the activity.
    pub fn parts(&self) -> (r: (Variant, &Activity))
        ensures
            r.0 == self.variant(),
            *r.1 == self.activity(),
    {
        match self {
            GroupInboxActivities::FollowCommunity(a) => (Variant::FollowCommunity, a),
            GroupInboxActivities::UndoFollowCommunity(a) => (Variant::UndoFollowCommunity, a),
            GroupInboxActivities::CreateComment(a) => (Variant::CreateComment, a),
            GroupInboxActivities::UpdateComment(a) => (Variant::UpdateComment, a),
            GroupInboxActivities::LikeComment(a) => (Variant::LikeComment, a),
            GroupInboxActivities::DislikeComment(a) => (Variant::DislikeComment, a),
            GroupInboxActivities::UndoLikeComment(a) => (Variant::UndoLikeComment, a),
            GroupInboxActivities::UndoDislikeComment(a) => (Variant::UndoDislikeComment, a),
            GroupInboxActivities::DeleteComment(a) => (Variant::DeleteComment, a),
            GroupInboxActivities::UndoDeleteComment(a) => (Variant::UndoDeleteComment, a),
            GroupInboxActivities::RemoveComment(a) => (Variant::RemoveComment, a),
            GroupInboxActivities::UndoRemoveComment(a) => (Variant::UndoRemoveComment, a),
            GroupInboxActivities::CreatePost(a) => (Variant::CreatePost, a),
            GroupInboxActivities::UpdatePost(a) => (Variant::UpdatePost, a),
            GroupInboxActivities::LikePost(a) => (Variant::LikePost, a),
            GroupInboxActivities::DislikePost(a) => (Variant::DislikePost, a),
            GroupInboxActivities::DeletePost(a) => (Variant::DeletePost, a),
            GroupInboxActivities::UndoDeletePost(a) => (Variant::UndoDeletePost, a),
            GroupInboxActivities::RemovePost(a) => (Variant::RemovePost, a),
            GroupInboxActivities::UndoRemovePost(a) => (Variant::UndoRemovePost, a),
            GroupInboxActivities::UndoLikePost(a) => (Variant::UndoLikePost, a),
            GroupInboxActivities::UndoDislikePost(a) => (Variant::UndoDislikePost, a),
            GroupInboxActivities::UpdateCommunity(a) => (Variant::UpdateCommunity, a),
            GroupInboxActivities::DeleteCommunity(a) => (Variant::DeleteCommunity, a),
            GroupInboxActivities::RemoveCommunity(a) => (Variant::RemoveCommunity, a),
            GroupInboxActivities::UndoDeleteCommunity(a) => (Variant::UndoDeleteCommunity, a),
            GroupInboxActivities::UndoRemoveCommunity(a) => (Variant::UndoRemoveCommunity, a),
            GroupInboxActivities::BlockUserFromCommunity(a) => (Variant::BlockUserFromCommunity, a),
            GroupInboxActivities::UndoBlockUserFromCommunity(a) => (Variant::UndoBlockUserFromCommunity, a),
            GroupInboxActivities::AddMod(a) => (Variant::AddMod, a),
            GroupInboxActivities::RemoveMod(a) => (Variant::RemoveMod, a),
        }
    }

    /// The activity `a` as the variant `v`, where the endpoint accepts it.
    fn of(v: Variant, a: Activity) -> (r: Option<Self>)
        ensures
            match r {
                Some(x) => x.variant() == v && x.activity() == a,
                None => !Self::declared().contains(v),
            },
    {
        match v {
            Variant::FollowCommunity => Some(GroupInboxActivities::FollowCommunity(a)),
            Variant::UndoFollowCommunity => Some(GroupInboxActivities::UndoFollowCommunity(a)),
            Variant::CreateComment => Some(GroupInboxActivities::CreateComment(a)),
            Variant::UpdateComment => Some(GroupInboxActivities::UpdateComment(a)),
            Variant::LikeComment => Some(GroupInboxActivities::LikeComment(a)),
            Variant::DislikeComment => Some(GroupInboxActivities::DislikeComment(a)),
            Variant::UndoLikeComment => Some(GroupInboxActivities::UndoLikeComment(a)),
            Variant::UndoDislikeComment => Some(GroupInboxActivities::UndoDislikeComment(a)),
            Variant::DeleteComment => Some(GroupInboxActivities::DeleteComment(a)),
            Variant::UndoDeleteComment => Some(GroupInboxActivities::UndoDeleteComment(a)),
            Variant::RemoveComment => Some(GroupInboxActivities::RemoveComment(a)),
            Variant::UndoRemoveComment => Some(GroupInboxActivities::UndoRemoveComment(a)),
            Variant::CreatePost => Some(GroupInboxActivities::CreatePost(a)),
            Variant::UpdatePost => Some(GroupInboxActivities::UpdatePost(a)),
            Variant::LikePost => Some(GroupInboxActivities::LikePost(a)),
            Variant::DislikePost => Some(GroupInboxActivities::DislikePost(a)),
            Variant::DeletePost => Some(GroupInboxActivities::DeletePost(a)),
            Variant::UndoDeletePost => Some(GroupInboxActivities::UndoDeletePost(a)),
            Variant::RemovePost => Some(GroupInboxActivities::RemovePost(a)),
            Variant::UndoRemovePost => Some(GroupInboxActivities::UndoRemovePost(a)),
            Variant::UndoLikePost => Some(GroupInboxActivities::UndoLikePost(a)),
            Variant::UndoDislikePost => Some(GroupInboxActivities::UndoDislikePost(a)),
            Variant::UpdateCommunity => Some(GroupInboxActivities::UpdateCommunity(a)),
            Variant::DeleteCommunity => Some(GroupInboxActivities::DeleteCommunity(a)),
            Variant::RemoveCommunity => Some(GroupInboxActivities::RemoveCommunity(a)),
            Variant::UndoDeleteCommunity => Some(GroupInboxActivities::UndoDeleteCommunity(a)),
            Variant::UndoRemoveCommunity => Some(GroupInboxActivities::UndoRemoveCommunity(a)),
            Variant::BlockUserFromCommunity => Some(GroupInboxActivities::BlockUserFromCommunity(a)),
            Variant::UndoBlockUserFromCommunity => Some(GroupInboxActivities::UndoBlockUserFromCommunity(a)),
            Variant::AddMod => Some(GroupInboxActivities::AddMod(a)),
            Variant::RemoveMod => Some(GroupInboxActivities::RemoveMod(a)),
            _ => None,
        }
    }

    /// Whether the activity has the shape of its variant.
    pub open spec fn wf(&self) -> bool {
        conforms(self.activity()@, self.variant())
    }

    /// Resolves a delivered document to the variant that it is: the first
    /// declared variant whose shape the activity that it states has.
    ///
    /// Fails with `UnrecognizedActivity` where the document states no
    /// activity, or one of no declared shape.
    pub fn resolve(doc: &WireDocument) -> (r: Result<Self, DispatchError>)
        ensures
            match r {
                Ok(x) => resolution(doc@, Self::declared()) == Some((x.variant(), x.activity()@))
                    && x.wf(),
                Err(e) => e is UnrecognizedActivity && resolution(doc@, Self::declared()) is None,
            },
    {
        let declared = Self::declared_variants();
        match resolve(doc, &declared) {
            Ok((v, a)) => match Self::of(v, a) {
                Some(x) => Ok(x),
                None => Err(DispatchError::UnrecognizedActivity),
            },
            Err(e) => Err(e),
        }
    }

    /// Verifies the activity: see [`verdict`].
    ///
    /// Whatever else holds, an activity whose actor and identifier differ in
    /// authority fails with `DomainMismatch`, and an `Undo` of an activity
    /// of another actor fails.
    pub fn verify(&self, context: &Context) -> (r: Result<(), VerificationError>)
        ensures
            is_verdict(r, verdict(self.activity()@, context@)),
            self.activity()@.actor.authority != self.activity()@.id.authority ==> (r matches Err(
                e,
            ) && e.check == Check::DomainMismatch),
            self.activity()@.kind == ActivityKind::Undo ==> (
            self.activity()@.payload matches PayloadView::Nested(inner) ==> inner.actor
                != self.activity()@.actor ==> r is Err),
    {
        let (_, a) = self.parts();
        a.verify(context)
    }

    /// Begins to receive the activity on the authority of `actor`: plans
    /// the one change that it asks for, and says what is to be done first.
    pub fn receive(&self, actor: &ActorIdentity) -> (p: Progress)
        requires
            self.wf(),
        ensures
            mutation(self.activity()@, actor.id@) matches Some(m) && p@ == proceed(
                m,
                references(m),
            ),
    {
        let (v, a) = self.parts();
        receive(v, a, actor)
    }

    /// Verifies the activity and, where it passes, begins to receive it on
    /// the authority of `actor`. An activity that fails is not received.
    pub fn handle(&self, actor: &ActorIdentity, context: &Context) -> (r: Result<
        Progress,
        DispatchError,
    >)
        requires
            self.wf(),
        ensures
            match r {
                Ok(p) => verdict(self.activity()@, context@) is Ok && (mutation(
                    self.activity()@,
                    actor.id@,
                ) matches Some(m) && p@ == proceed(m, references(m))),
                Err(e) => e matches DispatchError::Verification(cause) && verdict(
                    self.activity()@,
                    context@,
                ) == Err::<(), VerificationErrorView>(cause@),
            },
    {
        let (v, a) = self.parts();
        handle(v, a, actor, context)
    }
}

/// What the inbox that serves every local actor accepts.
#[derive(Debug, PartialEq, Eq)]
pub enum SharedInboxActivities {
    // received by an individual
    AcceptFollowCommunity(Activity),
    CreatePrivateMessage(Activity),
    UpdatePrivateMessage(Activity),
    DeletePrivateMessage(Activity),
    UndoDeletePrivateMessage(Activity),
    AnnounceActivity(Activity),
    // received by a collective
    FollowCommunity(Activity),
    UndoFollowCommunity(Activity),
    CreateComment(Activity),
    UpdateComment(Activity),
    LikeComment(Activity),
    DislikeComment(Activity),
    UndoLikeComment(Activity),
    UndoDislikeComment(Activity),
    DeleteComment(Activity),
    UndoDeleteComment(Activity),
    RemoveComment(Activity),
    UndoRemoveComment(Activity),
    CreatePost(Activity),
    UpdatePost(Activity),
    LikePost(Activity),
    DislikePost(Activity),
    DeletePost(Activity),
    UndoDeletePost(Activity),
    RemovePost(Activity),
    UndoRemovePost(Activity),
    UndoLikePost(Activity),
    UndoDislikePost(Activity),
    UpdateCommunity(Activity),
    DeleteCommunity(Activity),
    RemoveCommunity(Activity),
    UndoDeleteCommunity(Activity),
    UndoRemoveCommunity(Activity),
    BlockUserFromCommunity(Activity),
    UndoBlockUserFromCommunity(Activity),
    AddMod(Activity),
    RemoveMod(Activity),
}

impl SharedInboxActivities {
    /// The variants that the endpoint accepts, in the order of their
    /// declaration.
    pub open spec fn declared() -> Seq<Variant> {
        seq![
            Variant::AcceptFollowCommunity,
            Variant::CreatePrivateMessage,
            Variant::UpdatePrivateMessage,
            Variant::DeletePrivateMessage,
            Variant::UndoDeletePrivateMessage,
            Variant::AnnounceActivity,
            Variant::FollowCommunity,
            Variant::UndoFollowCommunity,
            Variant::CreateComment,
            Variant::UpdateComment,
            Variant::LikeComment,
            Variant::DislikeComment,
            Variant::UndoLikeComment,
            Variant::UndoDislikeComment,
            Variant::DeleteComment,
            Variant::UndoDeleteComment,
            Variant::RemoveComment,
            Variant::UndoRemoveComment,
            Variant::CreatePost,
            Variant::UpdatePost,
            Variant::LikePost,
            Variant::DislikePost,
            Variant::DeletePost,
            Variant::UndoDeletePost,
            Variant::RemovePost,
            Variant::UndoRemovePost,
            Variant::UndoLikePost,
            Variant::UndoDislikePost,
            Variant::UpdateCommunity,
            Variant::DeleteCommunity,
            Variant::RemoveCommunity,
            Variant::UndoDeleteCommunity,
            Variant::UndoRemoveCommunity,
            Variant::BlockUserFromCommunity,
            Variant::UndoBlockUserFromCommunity,
            Variant::AddMod,
            Variant::RemoveMod,
        ]
    }

    /// The variants that the endpoint accepts, in the order of their
    /// declaration.
    pub fn declared_variants() -> (v: Vec<Variant>)
        ensures
            v@ == Self::declared(),
    {
        let v = vec![
            Variant::AcceptFollowCommunity,
            Variant::CreatePrivateMessage,
            Variant::UpdatePrivateMessage,
            Variant::DeletePrivateMessage,
            Variant::UndoDeletePrivateMessage,
            Variant::AnnounceActivity,
            Variant::FollowCommunity,
            Variant::UndoFollowCommunity,
            Variant::CreateComment,
            Variant::UpdateComment,
            Variant::LikeComment,
            Variant::DislikeComment,
            Variant::UndoLikeComment,
            Variant::UndoDislikeComment,
            Variant::DeleteComment,
            Variant::UndoDeleteComment,
            Variant::RemoveComment,
            Variant::UndoRemoveComment,
            Variant::CreatePost,
            Variant::UpdatePost,
            Variant::LikePost,
            Variant::DislikePost,
            Variant::DeletePost,
            Variant::UndoDeletePost,
            Variant::RemovePost,
            Variant::UndoRemovePost,
            Variant::UndoLikePost,
            Variant::UndoDislikePost,
            Variant::UpdateCommunity,
            Variant::DeleteCommunity,
            Variant::RemoveCommunity,
            Variant::UndoDeleteCommunity,
            Variant::UndoRemoveCommunity,
            Variant::BlockUserFromCommunity,
            Variant::UndoBlockUserFromCommunity,
            Variant::AddMod,
            Variant::RemoveMod,
        ];
        assert(v@ =~= Self::declared());
        v
    }

    /// The variant of the activity.
    pub open spec fn variant(&self) -> Variant {
        match self {
            SharedInboxActivities::AcceptFollowCommunity(_) => Variant::AcceptFollowCommunity,
            SharedInboxActivities::CreatePrivateMessage(_) => Variant::CreatePrivateMessage,
            SharedInboxActivities::UpdatePrivateMessage(_) => Variant::UpdatePrivateMessage,
            SharedInboxActivities::DeletePrivateMessage(_) => Variant::DeletePrivateMessage,
            SharedInboxActivities::UndoDeletePrivateMessage(_) => Variant::UndoDeletePrivateMessage,
            SharedInboxActivities::AnnounceActivity(_) => Variant::AnnounceActivity,
            SharedInboxActivities::FollowCommunity(_) => Variant::FollowCommunity,
            SharedInboxActivities::UndoFollowCommunity(_) => Variant::UndoFollowCommunity,
            SharedInboxActivities::CreateComment(_) => Variant::CreateComment,
            SharedInboxActivities::UpdateComment(_) => Variant::UpdateComment,
            SharedInboxActivities::LikeComment(_) => Variant::LikeComment,
            SharedInboxActivities::DislikeComment(_) => Variant::DislikeComment,
            SharedInboxActivities::UndoLikeComment(_) => Variant::UndoLikeComment,
            SharedInboxActivities::UndoDislikeComment(_) => Variant::UndoDislikeComment,
            SharedInboxActivities::DeleteComment(_) => Variant::DeleteComment,
            SharedInboxActivities::UndoDeleteComment(_) => Variant::UndoDeleteComment,
            SharedInboxActivities::RemoveComment(_) => Variant::RemoveComment,
            SharedInboxActivities::UndoRemoveComment(_) => Variant::UndoRemoveComment,
            SharedInboxActivities::CreatePost(_) => Variant::CreatePost,
            SharedInboxActivities::UpdatePost(_) => Variant::UpdatePost,
            SharedInboxActivities::LikePost(_) => Variant::LikePost,
            SharedInboxActivities::DislikePost(_) => Variant::DislikePost,
            SharedInboxActivities::DeletePost(_) => Variant::DeletePost,
            SharedInboxActivities::UndoDeletePost(_) => Variant::UndoDeletePost,
            SharedInboxActivities::RemovePost(_) => Variant::RemovePost,
            SharedInboxActivities::UndoRemovePost(_) => Variant::UndoRemovePost,
            SharedInboxActivities::UndoLikePost(_) => Variant::UndoLikePost,
            SharedInboxActivities::UndoDislikePost(_) => Variant::UndoDislikePost,
            SharedInboxActivities::UpdateCommunity(_) => Variant::UpdateCommunity,
            SharedInboxActivities::DeleteCommunity(_) => Variant::DeleteCommunity,
            SharedInboxActivities::RemoveCommunity(_) => Variant::RemoveCommunity,
            SharedInboxActivities::UndoDeleteCommunity(_) => Variant::UndoDeleteCommunity,
            SharedInboxActivities::UndoRemoveCommunity(_) => Variant::UndoRemoveCommunity,
            SharedInboxActivities::BlockUserFromCommunity(_) => Variant::BlockUserFromCommunity,
            SharedInboxActivities::UndoBlockUserFromCommunity(_) => Variant::UndoBlockUserFromCommunity,
            SharedInboxActivities::AddMod(_) => Variant::AddMod,
            SharedInboxActivities::RemoveMod(_) => Variant::RemoveMod,
        }
    }

    /// The activity.
    pub open spec fn activity(&self) -> Activity {
        match self {
            SharedInboxActivities::AcceptFollowCommunity(a) => *a,
            SharedInboxActivities::CreatePrivateMessage(a) => *a,
            SharedInboxActivities::UpdatePrivateMessage(a) => *a,
            SharedInboxActivities::DeletePrivateMessage(a) => *a,
            SharedInboxActivities::UndoDeletePrivateMessage(a) => *a,
            SharedInboxActivities::AnnounceActivity(a) => *a,
            SharedInboxActivities::FollowCommunity(a) => *a,
            SharedInboxActivities::UndoFollowCommunity(a) => *a,
            SharedInboxActivities::CreateComment(a) => *a,
            SharedInboxActivities::UpdateComment(a) => *a,
            SharedInboxActivities::LikeComment(a) => *a,
            SharedInboxActivities::DislikeComment(a) => *a,
            SharedInboxActivities::UndoLikeComment(a) => *a,
            SharedInboxActivities::UndoDislikeComment(a) => *a,
            SharedInboxActivities::DeleteComment(a) => *a,
            SharedInboxActivities::UndoDeleteComment(a) => *a,
            SharedInboxActivities::RemoveComment(a) => *a,
            SharedInboxActivities::UndoRemoveComment(a) => *a,
            SharedInboxActivities::CreatePost(a) => *a,
            SharedInboxActivities::UpdatePost(a) => *a,
            SharedInboxActivities::LikePost(a) => *a,
            SharedInboxActivities::DislikePost(a) => *a,
            SharedInboxActivities::DeletePost(a) => *a,
            SharedInboxActivities::UndoDeletePost(a) => *a,
            SharedInboxActivities::RemovePost(a) => *a,
            SharedInboxActivities::UndoRemovePost(a) => *a,
            SharedInboxActivities::UndoLikePost(a) => *a,
            SharedInboxActivities::UndoDislikePost(a) => *a,
            SharedInboxActivities::UpdateCommunity(a) => *a,
            SharedInboxActivities::DeleteCommunity(a) => *a,
            SharedInboxActivities::RemoveCommunity(a) => *a,
            SharedInboxActivities::UndoDeleteCommunity(a) => *a,
            SharedInboxActivities::UndoRemoveCommunity(a) => *a,
            SharedInboxActivities::BlockUserFromCommunity(a) => *a,
            SharedInboxActivities::UndoBlockUserFromCommunity(a) => *a,
            SharedInboxActivities::AddMod(a) => *a,
            SharedInboxActivities::RemoveMod(a) => *a,
        }
    }

    /// The variant of the activity, and the activity.
    pub fn parts(&self) -> (r: (Variant, &Activity))
        ensures
            r.0 == self.variant(),
            *r.1 == self.activity(),
    {
        match self {
            SharedInboxActivities::AcceptFollowCommunity(a) => (Variant::AcceptFollowCommunity, a),
            SharedInboxActivities::CreatePrivateMessage(a) => (Variant::CreatePrivateMessage, a),
            SharedInboxActivities::UpdatePrivateMessage(a) => (Variant::UpdatePrivateMessage, a),
            SharedInboxActivities::DeletePrivateMessage(a) => (Variant::DeletePrivateMessage, a),
            SharedInboxActivities::UndoDeletePrivateMessage(a) => (Variant::UndoDeletePrivateMessage, a),
            SharedInboxActivities::AnnounceActivity(a) => (Variant::AnnounceActivity, a),
            SharedInboxActivities::FollowCommunity(a) => (Variant::FollowCommunity, a),
            SharedInboxActivities::UndoFollowCommunity(a) => (Variant::UndoFollowCommunity, a),
            SharedInboxActivities::CreateComment(a) => (Variant::CreateComment, a),
            SharedInboxActivities::UpdateComment(a) => (Variant::UpdateComment, a),
            SharedInboxActivities::LikeComment(a) => (Variant::LikeComment, a),
            SharedInboxActivities::DislikeComment(a) => (Variant::DislikeComment, a),
            SharedInboxActivities::UndoLikeComment(a) => (Variant::UndoLikeComment, a),
            SharedInboxActivities::UndoDislikeComment(a) => (Variant::UndoDislikeComment, a),
            SharedInboxActivities::DeleteComment(a) => (Variant::DeleteComment, a),
            SharedInboxActivities::UndoDeleteComment(a) => (Variant::UndoDeleteComment, a),
            SharedInboxActivities::RemoveComment(a) => (Variant::RemoveComment, a),
            SharedInboxActivities::UndoRemoveComment(a) => (Variant::UndoRemoveComment, a),
            SharedInboxActivities::CreatePost(a) => (Variant::CreatePost, a),
            SharedInboxActivities::UpdatePost(a) => (Variant::UpdatePost, a),
            SharedInboxActivities::LikePost(a) => (Variant::LikePost, a),
            SharedInboxActivities::DislikePost(a) => (Variant::DislikePost, a),
            SharedInboxActivities::DeletePost(a) => (Variant::DeletePost, a),
            SharedInboxActivities::UndoDeletePost(a) => (Variant::UndoDeletePost, a),
            SharedInboxActivities::RemovePost(a) => (Variant::RemovePost, a),
            SharedInboxActivities::UndoRemovePost(a) => (Variant::UndoRemovePost, a),
            SharedInboxActivities::UndoLikePost(a) => (Variant::UndoLikePost, a),
            SharedInboxActivities::UndoDislikePost(a) => (Variant::UndoDislikePost, a),
            SharedInboxActivities::UpdateCommunity(a) => (Variant::UpdateCommunity, a),
            SharedInboxActivities::DeleteCommunity(a) => (Variant::DeleteCommunity, a),
            SharedInboxActivities::RemoveCommunity(a) => (Variant::RemoveCommunity, a),
            SharedInboxActivities::UndoDeleteCommunity(a) => (Variant::UndoDeleteCommunity, a),
            SharedInboxActivities::UndoRemoveCommunity(a) => (Variant::UndoRemoveCommunity, a),
            SharedInboxActivities::BlockUserFromCommunity(a) => (Variant::BlockUserFromCommunity, a),
            SharedInboxActivities::UndoBlockUserFromCommunity(a) => (Variant::UndoBlockUserFromCommunity, a),
            SharedInboxActivities::AddMod(a) => (Variant::AddMod, a),
            SharedInboxActivities::RemoveMod(a) => (Variant::RemoveMod, a),
        }
    }

    /// The activity `a` as the variant `v`, where the endpoint accepts it.
    fn of(v: Variant, a: Activity) -> (r: Option<Self>)
        ensures
            match r {
                Some(x) => x.variant() == v && x.activity() == a,
                None => !Self::declared().contains(v),
            },
    {
        match v {
            Variant::AcceptFollowCommunity => Some(SharedInboxActivities::AcceptFollowCommunity(a)),
            Variant::CreatePrivateMessage => Some(SharedInboxActivities::CreatePrivateMessage(a)),
            Variant::UpdatePrivateMessage => Some(SharedInboxActivities::UpdatePrivateMessage(a)),
            Variant::DeletePrivateMessage => Some(SharedInboxActivities::DeletePrivateMessage(a)),
            Variant::UndoDeletePrivateMessage => Some(SharedInboxActivities::UndoDeletePrivateMessage(a)),
            Variant::AnnounceActivity => Some(SharedInboxActivities::AnnounceActivity(a)),
            Variant::FollowCommunity => Some(SharedInboxActivities::FollowCommunity(a)),
            Variant::UndoFollowCommunity => Some(SharedInboxActivities::UndoFollowCommunity(a)),
            Variant::CreateComment => Some(SharedInboxActivities::CreateComment(a)),
            Variant::UpdateComment => Some(SharedInboxActivities::UpdateComment(a)),
            Variant::LikeComment => Some(SharedInboxActivities::LikeComment(a)),
            Variant::DislikeComment => Some(SharedInboxActivities::DislikeComment(a)),
            Variant::UndoLikeComment => Some(SharedInboxActivities::UndoLikeComment(a)),
            Variant::UndoDislikeComment => Some(SharedInboxActivities::UndoDislikeComment(a)),
            Variant::DeleteComment => Some(SharedInboxActivities::DeleteComment(a)),
            Variant::UndoDeleteComment => Some(SharedInboxActivities::UndoDeleteComment(a)),
            Variant::RemoveComment => Some(SharedInboxActivities::RemoveComment(a)),
            Variant::UndoRemoveComment => Some(SharedInboxActivities::UndoRemoveComment(a)),
            Variant::CreatePost => Some(SharedInboxActivities::CreatePost(a)),
            Variant::UpdatePost => Some(SharedInboxActivities::UpdatePost(a)),
            Variant::LikePost => Some(SharedInboxActivities::LikePost(a)),
            Variant::DislikePost => Some(SharedInboxActivities::DislikePost(a)),
            Variant::DeletePost => Some(SharedInboxActivities::DeletePost(a)),
            Variant::UndoDeletePost => Some(SharedInboxActivities::UndoDeletePost(a)),
            Variant::RemovePost => Some(SharedInboxActivities::RemovePost(a)),
            Variant::UndoRemovePost => Some(SharedInboxActivities::UndoRemovePost(a)),
            Variant::UndoLikePost => Some(SharedInboxActivities::UndoLikePost(a)),
            Variant::UndoDislikePost => Some(SharedInboxActivities::UndoDislikePost(a)),
            Variant::UpdateCommunity => Some(SharedInboxActivities::UpdateCommunity(a)),
            Variant::DeleteCommunity => Some(SharedInboxActivities::DeleteCommunity(a)),
            Variant::RemoveCommunity => Some(SharedInboxActivities::RemoveCommunity(a)),
            Variant::UndoDeleteCommunity => Some(SharedInboxActivities::UndoDeleteCommunity(a)),
            Variant::UndoRemoveCommunity => Some(SharedInboxActivities::UndoRemoveCommunity(a)),
            Variant::BlockUserFromCommunity => Some(SharedInboxActivities::BlockUserFromCommunity(a)),
            Variant::UndoBlockUserFromCommunity => Some(SharedInboxActivities::UndoBlockUserFromCommunity(a)),
            Variant::AddMod => Some(SharedInboxActivities::AddMod(a)),
            Variant::RemoveMod => Some(SharedInboxActivities::RemoveMod(a)),
        }
    }

    /// Whether the activity has the shape of its variant.
    pub open spec fn wf(&self) -> bool {
        conforms(self.activity()@, self.variant())
    }

    /// Resolves a delivered document to the variant that it is: the first
    /// declared variant whose shape the activity that it states has.
    ///
    /// Fails with `UnrecognizedActivity` where the document states no
    /// activity, or one of no declared shape.
    pub fn resolve(doc: &WireDocument) -> (r: Result<Self, DispatchError>)
        ensures
            match r {
                Ok(x) => resolution(doc@, Self::declared()) == Some((x.variant(), x.activity()@))
                    && x.wf(),
                Err(e) => e is UnrecognizedActivity && resolution(doc@, Self::declared()) is None,
            },
    {
        let declared = Self::declared_variants();
        match resolve(doc, &declared) {
            Ok((v, a)) => match Self::of(v, a) {
                Some(x) => Ok(x),
                None => Err(DispatchError::UnrecognizedActivity),
            },
            Err(e) => Err(e),
        }
    }

    /// Verifies the activity: see [`verdict`].
    ///
    /// Whatever else holds, an activity whose actor and identifier differ in
    /// authority fails with `DomainMismatch`, and an `Undo` of an activity
    /// of another actor fails.
    pub fn verify(&self, context: &Context) -> (r: Result<(), VerificationError>)
        ensures
            is_verdict(r, verdict(self.activity()@, context@)),
            self.activity()@.actor.authority != self.activity()@.id.authority ==> (r matches Err(
                e,
            ) && e.check == Check::DomainMismatch),
            self.activity()@.kind == ActivityKind::Undo ==> (
            self.activity()@.payload matches PayloadView::Nested(inner) ==> inner.actor
                != self.activity()@.actor ==> r is Err),
    {
        let (_, a) = self.parts();
        a.verify(context)
    }

    /// Begins to receive the activity on the authority of `actor`: plans
    /// the one change that it asks for, and says what is to be done first.
    pub fn receive(&self, actor: &ActorIdentity) -> (p: Progress)
        requires
            self.wf(),
        ensures
            mutation(self.activity()@, actor.id@) matches Some(m) && p@ == proceed(
                m,
                references(m),
            ),
    {
        let (v, a) = self.parts();
        receive(v, a, actor)
    }

    /// Verifies the activity and, where it passes, begins to receive it on
    /// the authority of `actor`. An activity that fails is not received.
    pub fn handle(&self, actor: &ActorIdentity, context: &Context) -> (r: Result<
        Progress,
        DispatchError,
    >)
        requires
            self.wf(),
        ensures
            match r {
                Ok(p) => verdict(self.activity()@, context@) is Ok && (mutation(
                    self.activity()@,
                    actor.id@,
                ) matches Some(m) && p@ == proceed(m, references(m))),
                Err(e) => e matches DispatchError::Verification(cause) && verdict(
                    self.activity()@,
                    context@,
                ) == Err::<(), VerificationErrorView>(cause@),
            },
    {
        let (v, a) = self.parts();
        handle(v, a, actor, context)
    }
}

} // verus!
