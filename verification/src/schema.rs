//! The fixed vocabulary: every variant of activity that an inbox can accept,
//! and the shape that a delivered activity must have to be one.

use crate::activity::{Activity, ActivityKind, ActivityView, ContentKind, Payload, PayloadView};
use vstd::prelude::*;

verus! {

/// The variants of activity.
#[derive(Clone, Copy, Debug, PartialEq, Eq, Structural)]
pub enum Variant {
    AcceptFollowCommunity,
    CreatePrivateMessage,
    UpdatePrivateMessage,
    DeletePrivateMessage,
    UndoDeletePrivateMessage,
    AnnounceActivity,
    FollowCommunity,
    UndoFollowCommunity,
    CreateComment,
    UpdateComment,
    LikeComment,
    DislikeComment,
    UndoLikeComment,
    UndoDislikeComment,
    DeleteComment,
    UndoDeleteComment,
    RemoveComment,
    UndoRemoveComment,
    CreatePost,
    UpdatePost,
    LikePost,
    DislikePost,
    DeletePost,
    UndoDeletePost,
    RemovePost,
    UndoRemovePost,
    UndoLikePost,
    UndoDislikePost,
    UpdateCommunity,
    DeleteCommunity,
    RemoveCommunity,
    UndoDeleteCommunity,
    UndoRemoveCommunity,
    BlockUserFromCommunity,
    UndoBlockUserFromCommunity,
    AddMod,
    RemoveMod,
}

/// To whom a variant is addressed.
#[derive(Clone, Copy, Debug, PartialEq, Eq, Structural)]
pub enum Audience {
    /// To one recipient, which is not the public.
    Direct,
    /// To the public, with one carbon-copy recipient: the collective.
    Collective,
    /// To the public, with any carbon-copy recipients.
    Open,
}

/// What a variant carries as its payload.
#[derive(Clone, Copy, Debug, PartialEq, Eq, Structural)]
pub enum ObjectForm {
    /// A reference to content or to an actor.
    Reference,
    /// Content of the given kind, carried in full.
    Content(ContentKind),
    /// An activity of the given variant.
    Wraps(Variant),
    /// An activity of any variant that a collective forwards.
    Forwards,
}

/// The shape of a variant: what a delivered activity must hold to be one.
/// Fields that the shape does not ask for are not looked at.
#[derive(Clone, Copy, Debug, PartialEq, Eq, Structural)]
pub struct Shape {
    pub kind: ActivityKind,
    pub audience: Audience,
    pub object: ObjectForm,
    /// Whether a `target` is required.
    pub targeted: bool,
}

/// The marker that addresses an activity to the public.
pub open spec fn public_marker() -> Seq<char> {
    "https://www.w3.org/ns/activitystreams#Public"@
}

/// The marker that addresses an activity to the public.
pub fn public_audience() -> (s: &'static str)
    ensures
        s@ == public_marker(),
{
    "https://www.w3.org/ns/activitystreams#Public"
}

/// A shape without a target.
pub open spec fn plain(kind: ActivityKind, audience: Audience, object: ObjectForm) -> Shape {
    Shape { kind, audience, object, targeted: false }
}

/// A shape with a target.
pub open spec fn targeted(kind: ActivityKind, audience: Audience, object: ObjectForm) -> Shape {
    Shape { kind, audience, object, targeted: true }
}

impl Shape {
    /// A shape without a target.
    pub fn plain(kind: ActivityKind, audience: Audience, object: ObjectForm) -> (s: Shape)
        ensures
            s == plain(kind, audience, object),
    {
        Shape { kind, audience, object, targeted: false }
    }

    /// A shape with a target.
    pub fn targeted(kind: ActivityKind, audience: Audience, object: ObjectForm) -> (s: Shape)
        ensures
            s == targeted(kind, audience, object),
    {
        Shape { kind, audience, object, targeted: true }
    }
}

impl Variant {
    /// The shape of the variant.
    pub open spec fn shape(self) -> Shape {
        match self {
            Variant::AcceptFollowCommunity => plain(
                ActivityKind::Accept,
                Audience::Direct,
                ObjectForm::Wraps(Variant::FollowCommunity),
            ),
            Variant::CreatePrivateMessage => plain(
                ActivityKind::Create,
                Audience::Direct,
                ObjectForm::Content(ContentKind::Note),
            ),
            Variant::UpdatePrivateMessage => plain(
                ActivityKind::Update,
                Audience::Direct,
                ObjectForm::Content(ContentKind::Note),
            ),
            Variant::DeletePrivateMessage => plain(
                ActivityKind::Delete,
                Audience::Direct,
                ObjectForm::Reference,
            ),
            Variant::UndoDeletePrivateMessage => plain(
                ActivityKind::Undo,
                Audience::Direct,
                ObjectForm::Wraps(Variant::DeletePrivateMessage),
            ),
            Variant::AnnounceActivity => plain(
                ActivityKind::Announce,
                Audience::Collective,
                ObjectForm::Forwards,
            ),
            Variant::FollowCommunity => plain(
                ActivityKind::Follow,
                Audience::Direct,
                ObjectForm::Reference,
            ),
            Variant::UndoFollowCommunity => plain(
                ActivityKind::Undo,
                Audience::Direct,
                ObjectForm::Wraps(Variant::FollowCommunity),
            ),
            Variant::CreateComment => plain(
                ActivityKind::Create,
                Audience::Open,
                ObjectForm::Content(ContentKind::Note),
            ),
            Variant::UpdateComment => plain(
                ActivityKind::Update,
                Audience::Open,
                ObjectForm::Content(ContentKind::Note),
            ),
            Variant::LikeComment => plain(
                ActivityKind::Like,
                Audience::Collective,
                ObjectForm::Reference,
            ),
            Variant::DislikeComment => plain(
                ActivityKind::Dislike,
                Audience::Collective,
                ObjectForm::Reference,
            ),
            Variant::UndoLikeComment => plain(
                ActivityKind::Undo,
                Audience::Collective,
                ObjectForm::Wraps(Variant::LikeComment),
            ),
            Variant::UndoDislikeComment => plain(
                ActivityKind::Undo,
                Audience::Collective,
                ObjectForm::Wraps(Variant::DislikeComment),
            ),
            Variant::DeleteComment => plain(
                ActivityKind::Delete,
                Audience::Collective,
                ObjectForm::Reference,
            ),
            Variant::UndoDeleteComment => plain(
                ActivityKind::Undo,
                Audience::Collective,
                ObjectForm::Wraps(Variant::DeleteComment),
            ),
            Variant::RemoveComment => plain(
                ActivityKind::Remove,
                Audience::Collective,
                ObjectForm::Reference,
            ),
            Variant::UndoRemoveComment => plain(
                ActivityKind::Undo,
                Audience::Collective,
                ObjectForm::Wraps(Variant::RemoveComment),
            ),
            Variant::CreatePost => plain(
                ActivityKind::Create,
                Audience::Collective,
                ObjectForm::Content(ContentKind::Page),
            ),
            Variant::UpdatePost => plain(
                ActivityKind::Update,
                Audience::Collective,
                ObjectForm::Content(ContentKind::Page),
            ),
            Variant::LikePost => plain(
                ActivityKind::Like,
                Audience::Collective,
                ObjectForm::Reference,
            ),
            Variant::DislikePost => plain(
                ActivityKind::Dislike,
                Audience::Collective,
                ObjectForm::Reference,
            ),
            Variant::DeletePost => plain(
                ActivityKind::Delete,
                Audience::Collective,
                ObjectForm::Reference,
            ),
            Variant::UndoDeletePost => plain(
                ActivityKind::Undo,
                Audience::Collective,
                ObjectForm::Wraps(Variant::DeletePost),
            ),
            Variant::RemovePost => plain(
                ActivityKind::Remove,
                Audience::Collective,
                ObjectForm::Reference,
            ),
            Variant::UndoRemovePost => plain(
                ActivityKind::Undo,
                Audience::Collective,
                ObjectForm::Wraps(Variant::RemovePost),
            ),
            Variant::UndoLikePost => plain(
                ActivityKind::Undo,
                Audience::Collective,
                ObjectForm::Wraps(Variant::LikePost),
            ),
            Variant::UndoDislikePost => plain(
                ActivityKind::Undo,
                Audience::Collective,
                ObjectForm::Wraps(Variant::DislikePost),
            ),
            Variant::UpdateCommunity => plain(
                ActivityKind::Update,
                Audience::Collective,
                ObjectForm::Content(ContentKind::Group),
            ),
            Variant::DeleteCommunity => plain(
                ActivityKind::Delete,
                Audience::Collective,
                ObjectForm::Reference,
            ),
            Variant::RemoveCommunity => plain(
                ActivityKind::Remove,
                Audience::Collective,
                ObjectForm::Reference,
            ),
            Variant::UndoDeleteCommunity => plain(
                ActivityKind::Undo,
                Audience::Collective,
                ObjectForm::Wraps(Variant::DeleteCommunity),
            ),
            Variant::UndoRemoveCommunity => plain(
                ActivityKind::Undo,
                Audience::Collective,
                ObjectForm::Wraps(Variant::RemoveCommunity),
            ),
            Variant::BlockUserFromCommunity => targeted(
                ActivityKind::Block,
                Audience::Collective,
                ObjectForm::Reference,
            ),
            Variant::UndoBlockUserFromCommunity => plain(
                ActivityKind::Undo,
                Audience::Collective,
                ObjectForm::Wraps(Variant::BlockUserFromCommunity),
            ),
            Variant::AddMod => targeted(
                ActivityKind::Add,
                Audience::Collective,
                ObjectForm::Reference,
            ),
            Variant::RemoveMod => targeted(
                ActivityKind::Remove,
                Audience::Collective,
                ObjectForm::Reference,
            ),
        }
    }

    /// The shape of the variant.
    pub fn shape_of(self) -> (s: Shape)
        ensures
            s == self.shape(),
    {
        match self {
            Variant::AcceptFollowCommunity => Shape::plain(
                ActivityKind::Accept,
                Audience::Direct,
                ObjectForm::Wraps(Variant::FollowCommunity),
            ),
            Variant::CreatePrivateMessage => Shape::plain(
                ActivityKind::Create,
                Audience::Direct,
                ObjectForm::Content(ContentKind::Note),
            ),
            Variant::UpdatePrivateMessage => Shape::plain(
                ActivityKind::Update,
                Audience::Direct,
                ObjectForm::Content(ContentKind::Note),
            ),
            Variant::DeletePrivateMessage => Shape::plain(
                ActivityKind::Delete,
                Audience::Direct,
                ObjectForm::Reference,
            ),
            Variant::UndoDeletePrivateMessage => Shape::plain(
                ActivityKind::Undo,
                Audience::Direct,
                ObjectForm::Wraps(Variant::DeletePrivateMessage),
            ),
            Variant::AnnounceActivity => Shape::plain(
                ActivityKind::Announce,
                Audience::Collective,
                ObjectForm::Forwards,
            ),
            Variant::FollowCommunity => Shape::plain(
                ActivityKind::Follow,
                Audience::Direct,
                ObjectForm::Reference,
            ),
            Variant::UndoFollowCommunity => Shape::plain(
                ActivityKind::Undo,
                Audience::Direct,
                ObjectForm::Wraps(Variant::FollowCommunity),
            ),
            Variant::CreateComment => Shape::plain(
                ActivityKind::Create,
                Audience::Open,
                ObjectForm::Content(ContentKind::Note),
            ),
            Variant::UpdateComment => Shape::plain(
                ActivityKind::Update,
                Audience::Open,
                ObjectForm::Content(ContentKind::Note),
            ),
            Variant::LikeComment => Shape::plain(
                ActivityKind::Like,
                Audience::Collective,
                ObjectForm::Reference,
            ),
            Variant::DislikeComment => Shape::plain(
                ActivityKind::Dislike,
                Audience::Collective,
                ObjectForm::Reference,
            ),
            Variant::UndoLikeComment => Shape::plain(
                ActivityKind::Undo,
                Audience::Collective,
                ObjectForm::Wraps(Variant::LikeComment),
            ),
            Variant::UndoDislikeComment => Shape::plain(
                ActivityKind::Undo,
                Audience::Collective,
                ObjectForm::Wraps(Variant::DislikeComment),
            ),
            Variant::DeleteComment => Shape::plain(
                ActivityKind::Delete,
                Audience::Collective,
                ObjectForm::Reference,
            ),
            Variant::UndoDeleteComment => Shape::plain(
                ActivityKind::Undo,
                Audience::Collective,
                ObjectForm::Wraps(Variant::DeleteComment),
            ),
            Variant::RemoveComment => Shape::plain(
                ActivityKind::Remove,
                Audience::Collective,
                ObjectForm::Reference,
            ),
            Variant::UndoRemoveComment => Shape::plain(
                ActivityKind::Undo,
                Audience::Collective,
                ObjectForm::Wraps(Variant::RemoveComment),
            ),
            Variant::CreatePost => Shape::plain(
                ActivityKind::Create,
                Audience::Collective,
                ObjectForm::Content(ContentKind::Page),
            ),
            Variant::UpdatePost => Shape::plain(
                ActivityKind::Update,
                Audience::Collective,
                ObjectForm::Content(ContentKind::Page),
            ),
            Variant::LikePost => Shape::plain(
                ActivityKind::Like,
                Audience::Collective,
                ObjectForm::Reference,
            ),
            Variant::DislikePost => Shape::plain(
                ActivityKind::Dislike,
                Audience::Collective,
                ObjectForm::Reference,
            ),
            Variant::DeletePost => Shape::plain(
                ActivityKind::Delete,
                Audience::Collective,
                ObjectForm::Reference,
            ),
            Variant::UndoDeletePost => Shape::plain(
                ActivityKind::Undo,
                Audience::Collective,
                ObjectForm::Wraps(Variant::DeletePost),
            ),
            Variant::RemovePost => Shape::plain(
                ActivityKind::Remove,
                Audience::Collective,
                ObjectForm::Reference,
            ),
            Variant::UndoRemovePost => Shape::plain(
                ActivityKind::Undo,
                Audience::Collective,
                ObjectForm::Wraps(Variant::RemovePost),
            ),
            Variant::UndoLikePost => Shape::plain(
                ActivityKind::Undo,
                Audience::Collective,
                ObjectForm::Wraps(Variant::LikePost),
            ),
            Variant::UndoDislikePost => Shape::plain(
                ActivityKind::Undo,
                Audience::Collective,
                ObjectForm::Wraps(Variant::DislikePost),
            ),
            Variant::UpdateCommunity => Shape::plain(
                ActivityKind::Update,
                Audience::Collective,
                ObjectForm::Content(ContentKind::Group),
            ),
            Variant::DeleteCommunity => Shape::plain(
                ActivityKind::Delete,
                Audience::Collective,
                ObjectForm::Reference,
            ),
            Variant::RemoveCommunity => Shape::plain(
                ActivityKind::Remove,
                Audience::Collective,
                ObjectForm::Reference,
            ),
            Variant::UndoDeleteCommunity => Shape::plain(
                ActivityKind::Undo,
                Audience::Collective,
                ObjectForm::Wraps(Variant::DeleteCommunity),
            ),
            Variant::UndoRemoveCommunity => Shape::plain(
                ActivityKind::Undo,
                Audience::Collective,
                ObjectForm::Wraps(Variant::RemoveCommunity),
            ),
            Variant::BlockUserFromCommunity => Shape::targeted(
                ActivityKind::Block,
                Audience::Collective,
                ObjectForm::Reference,
            ),
            Variant::UndoBlockUserFromCommunity => Shape::plain(
                ActivityKind::Undo,
                Audience::Collective,
                ObjectForm::Wraps(Variant::BlockUserFromCommunity),
            ),
            Variant::AddMod => Shape::targeted(
                ActivityKind::Add,
                Audience::Collective,
                ObjectForm::Reference,
            ),
            Variant::RemoveMod => Shape::targeted(
                ActivityKind::Remove,
                Audience::Collective,
                ObjectForm::Reference,
            ),
        }
    }
}

/// The variants that a collective forwards to its followers, in the order in
/// which a forwarded activity is tried against them.
pub open spec fn forwarded() -> Seq<Variant> {
    seq![
        Variant::CreateComment,
        Variant::UpdateComment,
        Variant::LikeComment,
        Variant::DislikeComment,
        Variant::UndoLikeComment,
        Variant::UndoDislikeComment,
        Variant::DeleteComment,
        Variant::UndoDeleteComment,
        Variant::RemoveComment,
        Variant::UndoRemoveComment,
        Variant::CreatePost,
        Variant::UpdatePost,
        Variant::LikePost,
        Variant::DislikePost,
        Variant::DeletePost,
        Variant::UndoDeletePost,
        Variant::RemovePost,
        Variant::UndoRemovePost,
        Variant::UndoLikePost,
        Variant::UndoDislikePost,
        Variant::UpdateCommunity,
        Variant::DeleteCommunity,
        Variant::RemoveCommunity,
        Variant::UndoDeleteCommunity,
        Variant::UndoRemoveCommunity,
        Variant::BlockUserFromCommunity,
        Variant::UndoBlockUserFromCommunity,
        Variant::AddMod,
        Variant::RemoveMod,
    ]
}

/// The variants that a collective forwards to its followers.
pub fn forwarded_variants() -> (v: Vec<Variant>)
    ensures
        v@ == forwarded(),
{
    let v = vec![
        Variant::CreateComment,
        Variant::UpdateComment,
        Variant::LikeComment,
        Variant::DislikeComment,
        Variant::UndoLikeComment,
        Variant::UndoDislikeComment,
        Variant::DeleteComment,
        Variant::UndoDeleteComment,
        Variant::RemoveComment,
        Variant::UndoRemoveComment,
        Variant::CreatePost,
        Variant::UpdatePost,
        Variant::LikePost,
        Variant::DislikePost,
        Variant::DeletePost,
        Variant::UndoDeletePost,
        Variant::RemovePost,
        Variant::UndoRemovePost,
        Variant::UndoLikePost,
        Variant::UndoDislikePost,
        Variant::UpdateCommunity,
        Variant::DeleteCommunity,
        Variant::RemoveCommunity,
        Variant::UndoDeleteCommunity,
        Variant::UndoRemoveCommunity,
        Variant::BlockUserFromCommunity,
        Variant::UndoBlockUserFromCommunity,
        Variant::AddMod,
        Variant::RemoveMod,
    ];
    assert(v@ =~= forwarded());
    v
}

/// Whether the recipients of `a` are those that the audience asks for.
pub open spec fn addressed(a: ActivityView, audience: Audience) -> bool {
    match audience {
        Audience::Direct => a.to.len() == 1 && a.to[0].href != public_marker(),
        Audience::Collective => a.to.len() == 1 && a.to[0].href == public_marker() && a.cc.len()
            == 1,
        Audience::Open => a.to.len() == 1 && a.to[0].href == public_marker(),
    }
}

/// Whether the activity `a` has the kind and the recipients that the shape
/// asks for, and a target where it asks for one.
pub open spec fn framed(a: ActivityView, shape: Shape) -> bool {
    &&& a.kind == shape.kind
    &&& addressed(a, shape.audience)
    &&& (shape.targeted ==> a.target is Some)
}

/// Whether the payload `p` has the form `form`, for a form that forwards
/// nothing. A wrapped activity must have the shape of the variant that the
/// form names.
pub open spec fn carries(p: PayloadView, form: ObjectForm) -> bool
    decreases p,
{
    match p {
        PayloadView::Target(_) => form == ObjectForm::Reference,
        PayloadView::Content { id, kind } => form == ObjectForm::Content(kind),
        PayloadView::Nested(inner) => match form {
            ObjectForm::Wraps(w) => wrapped(*inner, w),
            _ => false,
        },
    }
}

/// Whether the activity `a` has the shape of the variant `v`, for a variant
/// that forwards nothing. So a wrapped activity never forwards another.
pub open spec fn wrapped(a: ActivityView, v: Variant) -> bool
    decreases a,
{
    framed(a, v.shape()) && carries(a.payload, v.shape().object)
}

/// Whether the payload `p` is an activity that has the shape of some variant
/// that a collective forwards.
pub open spec fn forwards(p: PayloadView) -> bool {
    p matches PayloadView::Nested(inner) && exists|i: int|
        0 <= i < forwarded().len() && #[trigger] wrapped(*inner, forwarded()[i])
}

/// Whether the activity `a` has the shape of the variant `v`: its kind, its
/// recipients, its payload and, where the variant asks for one, a target.
pub open spec fn conforms(a: ActivityView, v: Variant) -> bool {
    &&& framed(a, v.shape())
    &&& if v.shape().object == ObjectForm::Forwards {
        forwards(a.payload)
    } else {
        carries(a.payload, v.shape().object)
    }
}

impl Activity {
    /// Whether the recipients are those that the audience asks for.
    pub fn addressed_to(&self, audience: Audience) -> (b: bool)
        ensures
            b == addressed(self@, audience),
    {
        match audience {
            Audience::Direct => self.to.len() == 1 && !self.to[0].is_text(public_audience()),
            Audience::Collective => self.to.len() == 1 && self.to[0].is_text(public_audience())
                && self.cc.len() == 1,
            Audience::Open => self.to.len() == 1 && self.to[0].is_text(public_audience()),
        }
    }

    /// Whether the activity has the kind, the recipients and the target that
    /// the shape asks for.
    pub fn framed_as(&self, shape: Shape) -> (b: bool)
        ensures
            b == framed(self@, shape),
    {
        self.kind == shape.kind && self.addressed_to(shape.audience) && (!shape.targeted
            || self.target.is_some())
    }

    /// Whether the activity has the shape of the variant `v`, for a variant
    /// that forwards nothing.
    pub fn wrapped_as(&self, v: Variant) -> (b: bool)
        ensures
            b == wrapped(self@, v),
        decreases *self,
    {
        let shape = v.shape_of();
        self.framed_as(shape) && self.payload.carries_form(shape.object)
    }

    /// Whether the activity has the shape of the variant `v`.
    pub fn conforms_to(&self, v: Variant) -> (b: bool)
        ensures
            b == conforms(self@, v),
    {
        let shape = v.shape_of();
        if !self.framed_as(shape) {
            return false;
        }
        match shape.object {
            ObjectForm::Forwards => self.payload.forwards_one(),
            _ => self.payload.carries_form(shape.object),
        }
    }
}

impl Payload {
    /// Whether the payload has the form `form`, for a form that forwards
    /// nothing.
    pub fn carries_form(&self, form: ObjectForm) -> (b: bool)
        ensures
            b == carries(self@, form),
        decreases *self,
    {
        match self {
            Payload::Target(_) => form == ObjectForm::Reference,
            Payload::Content { id, kind } => form == ObjectForm::Content(*kind),
            Payload::Nested(inner) => match form {
                ObjectForm::Wraps(w) => inner.wrapped_as(w),
                _ => false,
            },
        }
    }

    /// Whether the payload is an activity that has the shape of some variant
    /// that a collective forwards.
    pub fn forwards_one(&self) -> (b: bool)
        ensures
            b == forwards(self@),
    {
        match self {
            Payload::Nested(inner) => {
                let list = forwarded_variants();
                let mut i: usize = 0;
                while i < list.len()
                    invariant
                        i <= list.len(),
                        list@ == forwarded(),
                        self@ == PayloadView::Nested(Box::new(inner@)),
                        forall|j: int| 0 <= j < i ==> !wrapped(inner@, forwarded()[j]),
                    decreases list.len() - i,
                {
                    if inner.wrapped_as(list[i]) {
                        assert(wrapped(inner@, forwarded()[i as int]));
                        return true;
                    }
                    i += 1;
                }
                false
            },
            _ => false,
        }
    }
}

} // verus!
