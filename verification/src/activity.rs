//! The activity envelope: the common shape of every protocol message.

use crate::iri::{Iri, IriView};
use vstd::prelude::*;

verus! {

/// The kinds of activity that an inbox knows, each named on the wire by one
/// literal.
#[derive(Clone, Copy, Debug, PartialEq, Eq, Structural)]
pub enum ActivityKind {
    Accept,
    Add,
    Announce,
    Block,
    Create,
    Delete,
    Dislike,
    Follow,
    Like,
    Remove,
    Undo,
    Update,
}

/// The kinds of content that an activity can carry in full.
#[derive(Clone, Copy, Debug, PartialEq, Eq, Structural)]
pub enum ContentKind {
    /// A short text: a comment or a private message.
    Note,
    /// A post.
    Page,
    /// The profile of a group-like collective.
    Group,
}

impl ActivityKind {
    /// The literal that names the kind on the wire.
    pub open spec fn literal(self) -> Seq<char> {
        match self {
            ActivityKind::Accept => "Accept"@,
            ActivityKind::Add => "Add"@,
            ActivityKind::Announce => "Announce"@,
            ActivityKind::Block => "Block"@,
            ActivityKind::Create => "Create"@,
            ActivityKind::Delete => "Delete"@,
            ActivityKind::Dislike => "Dislike"@,
            ActivityKind::Follow => "Follow"@,
            ActivityKind::Like => "Like"@,
            ActivityKind::Remove => "Remove"@,
            ActivityKind::Undo => "Undo"@,
            ActivityKind::Update => "Update"@,
        }
    }

    /// The kind that `text` names: the first whose literal it is.
    pub open spec fn named_by(text: Seq<char>) -> Option<ActivityKind> {
        if text == ActivityKind::Accept.literal() {
            Some(ActivityKind::Accept)
        } else if text == ActivityKind::Add.literal() {
            Some(ActivityKind::Add)
        } else if text == ActivityKind::Announce.literal() {
            Some(ActivityKind::Announce)
        } else if text == ActivityKind::Block.literal() {
            Some(ActivityKind::Block)
        } else if text == ActivityKind::Create.literal() {
            Some(ActivityKind::Create)
        } else if text == ActivityKind::Delete.literal() {
            Some(ActivityKind::Delete)
        } else if text == ActivityKind::Dislike.literal() {
            Some(ActivityKind::Dislike)
        } else if text == ActivityKind::Follow.literal() {
            Some(ActivityKind::Follow)
        } else if text == ActivityKind::Like.literal() {
            Some(ActivityKind::Like)
        } else if text == ActivityKind::Remove.literal() {
            Some(ActivityKind::Remove)
        } else if text == ActivityKind::Undo.literal() {
            Some(ActivityKind::Undo)
        } else if text == ActivityKind::Update.literal() {
            Some(ActivityKind::Update)
        } else {
            None
        }
    }

    /// The literal that names the kind on the wire.
    pub fn as_str(self) -> (s: &'static str)
        ensures
            s@ == self.literal(),
    {
        match self {
            ActivityKind::Accept => "Accept",
            ActivityKind::Add => "Add",
            ActivityKind::Announce => "Announce",
            ActivityKind::Block => "Block",
            ActivityKind::Create => "Create",
            ActivityKind::Delete => "Delete",
            ActivityKind::Dislike => "Dislike",
            ActivityKind::Follow => "Follow",
            ActivityKind::Like => "Like",
            ActivityKind::Remove => "Remove",
            ActivityKind::Undo => "Undo",
            ActivityKind::Update => "Update",
        }
    }

    /// The kind that `text` names, if any.
    pub fn from_literal(text: &String) -> (r: Option<ActivityKind>)
        ensures
            r == ActivityKind::named_by(text@),
    {
        if is_literal(text, ActivityKind::Accept.as_str()) {
            Some(ActivityKind::Accept)
        } else if is_literal(text, ActivityKind::Add.as_str()) {
            Some(ActivityKind::Add)
        } else if is_literal(text, ActivityKind::Announce.as_str()) {
            Some(ActivityKind::Announce)
        } else if is_literal(text, ActivityKind::Block.as_str()) {
            Some(ActivityKind::Block)
        } else if is_literal(text, ActivityKind::Create.as_str()) {
            Some(ActivityKind::Create)
        } else if is_literal(text, ActivityKind::Delete.as_str()) {
            Some(ActivityKind::Delete)
        } else if is_literal(text, ActivityKind::Dislike.as_str()) {
            Some(ActivityKind::Dislike)
        } else if is_literal(text, ActivityKind::Follow.as_str()) {
            Some(ActivityKind::Follow)
        } else if is_literal(text, ActivityKind::Like.as_str()) {
            Some(ActivityKind::Like)
        } else if is_literal(text, ActivityKind::Remove.as_str()) {
            Some(ActivityKind::Remove)
        } else if is_literal(text, ActivityKind::Undo.as_str()) {
            Some(ActivityKind::Undo)
        } else if is_literal(text, ActivityKind::Update.as_str()) {
            Some(ActivityKind::Update)
        } else {
            None
        }
    }
}

impl ContentKind {
    /// The literal that names the kind on the wire.
    pub open spec fn literal(self) -> Seq<char> {
        match self {
            ContentKind::Note => "Note"@,
            ContentKind::Page => "Page"@,
            ContentKind::Group => "Group"@,
        }
    }

    /// The kind that `text` names: the first whose literal it is.
    pub open spec fn named_by(text: Seq<char>) -> Option<ContentKind> {
        if text == ContentKind::Note.literal() {
            Some(ContentKind::Note)
        } else if text == ContentKind::Page.literal() {
            Some(ContentKind::Page)
        } else if text == ContentKind::Group.literal() {
            Some(ContentKind::Group)
        } else {
            None
        }
    }

    /// The literal that names the kind on the wire.
    pub fn as_str(self) -> (s: &'static str)
        ensures
            s@ == self.literal(),
    {
        match self {
            ContentKind::Note => "Note",
            ContentKind::Page => "Page",
            ContentKind::Group => "Group",
        }
    }

    /// The kind that `text` names, if any.
    pub fn from_literal(text: &String) -> (r: Option<ContentKind>)
        ensures
            r == ContentKind::named_by(text@),
    {
        if is_literal(text, ContentKind::Note.as_str()) {
            Some(ContentKind::Note)
        } else if is_literal(text, ContentKind::Page.as_str()) {
            Some(ContentKind::Page)
        } else if is_literal(text, ContentKind::Group.as_str()) {
            Some(ContentKind::Group)
        } else {
            None
        }
    }
}

/// Whether `text` is the literal `literal`.
pub fn is_literal(text: &String, literal: &str) -> (b: bool)
    ensures
        b == (text@ == literal@),
{
    let owned = literal.to_owned();
    *text == owned
}

/// What an activity is about.
#[derive(Debug, PartialEq, Eq)]
pub enum Payload {
    /// A reference to content or to an actor, by its identifier.
    Target(Iri),
    /// Content carried in full: its identifier and kind.
    Content { id: Iri, kind: ContentKind },
    /// Another activity, owned by the one that carries it.
    Nested(Box<Activity>),
}

/// An activity: who claims what, under which identifier, addressed to whom.
#[derive(Debug, PartialEq, Eq)]
pub struct Activity {
    /// The activity's own identifier, by which deliveries are told apart.
    pub id: Iri,
    /// The claimed sender.
    pub actor: Iri,
    /// The primary recipients.
    pub to: Vec<Iri>,
    /// The carbon-copy recipients.
    pub cc: Vec<Iri>,
    /// The kind of the activity.
    pub kind: ActivityKind,
    /// What the activity is about.
    pub payload: Payload,
    /// Where the payload is to be added or removed, for the kinds that say so.
    pub target: Option<Iri>,
}

/// The mathematical value of a [`Payload`].
pub enum PayloadView {
    Target(IriView),
    Content { id: IriView, kind: ContentKind },
    Nested(Box<ActivityView>),
}

/// The mathematical value of an [`Activity`].
pub struct ActivityView {
    pub id: IriView,
    pub actor: IriView,
    pub to: Seq<IriView>,
    pub cc: Seq<IriView>,
    pub kind: ActivityKind,
    pub payload: PayloadView,
    pub target: Option<IriView>,
}

/// The values of a list of identifiers.
pub open spec fn iris_view(iris: Seq<Iri>) -> Seq<IriView> {
    Seq::new(iris.len(), |i: int| iris[i]@)
}

/// The value of an optional identifier.
pub open spec fn opt_iri_view(iri: Option<Iri>) -> Option<IriView> {
    match iri {
        Some(i) => Some(i@),
        None => None,
    }
}

/// The value of an activity.
pub open spec fn activity_view(a: Activity) -> ActivityView
    decreases a,
{
    ActivityView {
        id: a.id@,
        actor: a.actor@,
        to: iris_view(a.to@),
        cc: iris_view(a.cc@),
        kind: a.kind,
        payload: payload_view(a.payload),
        target: opt_iri_view(a.target),
    }
}

/// The value of a payload.
pub open spec fn payload_view(p: Payload) -> PayloadView
    decreases p,
{
    match p {
        Payload::Target(iri) => PayloadView::Target(iri@),
        Payload::Content { id, kind } => PayloadView::Content { id: id@, kind },
        Payload::Nested(inner) => PayloadView::Nested(Box::new(activity_view(*inner))),
    }
}

impl View for Activity {
    type V = ActivityView;

    open spec fn view(&self) -> ActivityView {
        activity_view(*self)
    }
}

impl View for Payload {
    type V = PayloadView;

    open spec fn view(&self) -> PayloadView {
        payload_view(*self)
    }
}

} // verus!
