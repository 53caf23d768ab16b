//! The delivered document, as plain text fields, and how it is read as an
//! activity.

use crate::activity::{
    iris_view, opt_iri_view, Activity, ActivityKind, ActivityView, ContentKind, Payload,
    PayloadView,
};
use crate::iri::{parse_iri, Iri, IriView};
use vstd::prelude::*;

verus! {

/// The `object` field of a delivered document.
#[derive(Debug, PartialEq, Eq)]
pub enum WireObject {
    /// The field is absent, or holds neither a text nor a record.
    Missing,
    /// The field holds a text.
    Reference(String),
    /// The field holds a record.
    Embedded(Box<WireDocument>),
}

/// A delivered document: the fields that an inbox reads, as they came.
///
/// A field that is absent is `None`; a recipient field that is absent is the
/// empty list, one that holds a single text is a list of one.
#[derive(Debug, PartialEq, Eq)]
pub struct WireDocument {
    pub id: Option<String>,
    pub actor: Option<String>,
    /// The `type` field.
    pub kind: Option<String>,
    pub to: Vec<String>,
    pub cc: Vec<String>,
    pub object: WireObject,
    pub target: Option<String>,
}

/// The mathematical value of a [`WireObject`].
pub enum WireObjectView {
    Missing,
    Reference(Seq<char>),
    Embedded(Box<WireDocumentView>),
}

/// The mathematical value of a [`WireDocument`].
pub struct WireDocumentView {
    pub id: Option<Seq<char>>,
    pub actor: Option<Seq<char>>,
    pub kind: Option<Seq<char>>,
    pub to: Seq<Seq<char>>,
    pub cc: Seq<Seq<char>>,
    pub object: WireObjectView,
    pub target: Option<Seq<char>>,
}

/// The value of an optional text.
pub open spec fn opt_text_view(text: Option<String>) -> Option<Seq<char>> {
    match text {
        Some(t) => Some(t@),
        None => None,
    }
}

/// The values of a list of texts.
pub open spec fn texts_view(texts: Seq<String>) -> Seq<Seq<char>> {
    Seq::new(texts.len(), |i: int| texts[i]@)
}

/// The value of a document.
pub open spec fn document_view(doc: WireDocument) -> WireDocumentView
    decreases doc,
{
    WireDocumentView {
        id: opt_text_view(doc.id),
        actor: opt_text_view(doc.actor),
        kind: opt_text_view(doc.kind),
        to: texts_view(doc.to@),
        cc: texts_view(doc.cc@),
        object: object_view(doc.object),
        target: opt_text_view(doc.target),
    }
}

/// The value of an `object` field.
pub open spec fn object_view(object: WireObject) -> WireObjectView
    decreases object,
{
    match object {
        WireObject::Missing => WireObjectView::Missing,
        WireObject::Reference(t) => WireObjectView::Reference(t@),
        WireObject::Embedded(doc) => WireObjectView::Embedded(Box::new(document_view(*doc))),
    }
}

impl View for WireDocument {
    type V = WireDocumentView;

    open spec fn view(&self) -> WireDocumentView {
        document_view(*self)
    }
}

impl View for WireObject {
    type V = WireObjectView;

    open spec fn view(&self) -> WireObjectView {
        object_view(*self)
    }
}

/// Whether every text of `texts` is a URL.
pub open spec fn all_iris(texts: Seq<Seq<char>>) -> bool {
    forall|i: int| 0 <= i < texts.len() ==> (#[trigger] parse_iri(texts[i])) is Some
}

/// The identifiers that `texts` denote, where each is a URL.
pub open spec fn read_iris(texts: Seq<Seq<char>>) -> Option<Seq<IriView>> {
    if all_iris(texts) {
        Some(Seq::new(texts.len(), |i: int| parse_iri(texts[i])->0))
    } else {
        None
    }
}

/// The identifier that an optional text denotes: nothing where the text is
/// absent, `None` where it is present and no URL.
pub open spec fn read_optional_iri(text: Option<Seq<char>>) -> Option<Option<IriView>> {
    match text {
        None => Some(None),
        Some(t) => match parse_iri(t) {
            Some(iri) => Some(Some(iri)),
            None => None,
        },
    }
}

/// The identifier that a required text denotes.
pub open spec fn read_required_iri(text: Option<Seq<char>>) -> Option<IriView> {
    match text {
        None => None,
        Some(t) => parse_iri(t),
    }
}

/// The kind of activity that a required text names.
pub open spec fn read_kind(text: Option<Seq<char>>) -> Option<ActivityKind> {
    match text {
        None => None,
        Some(t) => ActivityKind::named_by(t),
    }
}

/// The kind of content that a document says it is, if it says so.
pub open spec fn content_kind_of(doc: WireDocumentView) -> Option<ContentKind> {
    match doc.kind {
        None => None,
        Some(t) => ContentKind::named_by(t),
    }
}

/// The activity that a delivered document states, if it states one: its
/// `id` and `actor` are URLs, its `type` names a kind of activity, every
/// recipient is a URL, its `target` is a URL where it has one, and its
/// `object` is a URL, a piece of content with a URL as `id`, or a document
/// that states an activity in turn.
pub open spec fn read_activity(doc: WireDocumentView) -> Option<ActivityView>
    decreases doc,
{
    match (
        read_required_iri(doc.id),
        read_required_iri(doc.actor),
        read_kind(doc.kind),
        read_iris(doc.to),
        read_iris(doc.cc),
        read_object(doc.object),
        read_optional_iri(doc.target),
    ) {
        (Some(id), Some(actor), Some(kind), Some(to), Some(cc), Some(payload), Some(target)) => Some(
            ActivityView { id, actor, to, cc, kind, payload, target },
        ),
        _ => None,
    }
}

/// What an `object` field states, if it states anything. A record that says
/// it is content is taken as content; any other is read as an activity.
pub open spec fn read_object(object: WireObjectView) -> Option<PayloadView>
    decreases object,
{
    match object {
        WireObjectView::Missing => None,
        WireObjectView::Reference(t) => match parse_iri(t) {
            Some(iri) => Some(PayloadView::Target(iri)),
            None => None,
        },
        WireObjectView::Embedded(doc) => match content_kind_of(*doc) {
            Some(kind) => match read_required_iri(doc.id) {
                Some(id) => Some(PayloadView::Content { id, kind }),
                None => None,
            },
            None => match read_activity(*doc) {
                Some(inner) => Some(PayloadView::Nested(Box::new(inner))),
                None => None,
            },
        },
    }
}

/// Reads each text as a URL.
fn parse_iris(texts: &Vec<String>) -> (r: Option<Vec<Iri>>)
    ensures
        match r {
            Some(iris) => read_iris(texts_view(texts@)) == Some(iris_view(iris@)),
            None => read_iris(texts_view(texts@)) is None,
        },
{
    let ghost views = texts_view(texts@);
    let mut iris: Vec<Iri> = Vec::new();
    let mut i: usize = 0;
    while i < texts.len()
        invariant
            i <= texts.len(),
            iris.len() == i,
            views == texts_view(texts@),
            forall|j: int| 0 <= j < i ==> parse_iri(views[j]) == Some(#[trigger] iris@[j]@),
        decreases texts.len() - i,
    {
        match Iri::parse(texts[i].as_str()) {
            Some(iri) => {
                iris.push(iri);
            },
            None => {
                assert(parse_iri(views[i as int]) is None);
                return None;
            },
        }
        i += 1;
    }
    assert(all_iris(views)) by {
        assert forall|j: int| 0 <= j < views.len() implies (#[trigger] parse_iri(views[j]))
            is Some by {
            assert(parse_iri(views[j]) == Some(iris@[j]@));
        }
    }
    assert(read_iris(views)->0 =~= iris_view(iris@)) by {
        assert forall|j: int| 0 <= j < views.len() implies read_iris(views)->0[j] == iris_view(
            iris@,
        )[j] by {
            assert(parse_iri(views[j]) == Some(iris@[j]@));
        }
    }
    Some(iris)
}

/// Reads a required text as a URL.
fn parse_required(text: &Option<String>) -> (r: Option<Iri>)
    ensures
        match r {
            Some(iri) => read_required_iri(opt_text_view(*text)) == Some(iri@),
            None => read_required_iri(opt_text_view(*text)) is None,
        },
{
    match text {
        Some(t) => Iri::parse(t.as_str()),
        None => None,
    }
}

/// Reads an optional text as a URL.
fn parse_optional(text: &Option<String>) -> (r: Option<Option<Iri>>)
    ensures
        match r {
            Some(iri) => read_optional_iri(opt_text_view(*text)) == Some(opt_iri_view(iri)),
            None => read_optional_iri(opt_text_view(*text)) is None,
        },
{
    match text {
        Some(t) => match Iri::parse(t.as_str()) {
            Some(iri) => Some(Some(iri)),
            None => None,
        },
        None => Some(None),
    }
}

impl WireDocument {
    /// The kind of content that the document says it is, if it says so.
    pub fn content_kind(&self) -> (r: Option<ContentKind>)
        ensures
            r == content_kind_of(self@),
    {
        match &self.kind {
            Some(t) => ContentKind::from_literal(t),
            None => None,
        }
    }

    /// Reads the document as an activity.
    ///
    /// Returns the activity that the document states, and `None` where it
    /// states none.
    pub fn read(&self) -> (r: Option<Activity>)
        ensures
            match r {
                Some(a) => read_activity(self@) == Some(a@),
                None => read_activity(self@) is None,
            },
        decreases *self,
    {
        let id = match parse_required(&self.id) {
            Some(id) => id,
            None => {
                return None;
            },
        };
        let actor = match parse_required(&self.actor) {
            Some(actor) => actor,
            None => {
                return None;
            },
        };
        let kind = match &self.kind {
            Some(t) => match ActivityKind::from_literal(t) {
                Some(kind) => kind,
                None => {
                    return None;
                },
            },
            None => {
                return None;
            },
        };
        let to = match parse_iris(&self.to) {
            Some(to) => to,
            None => {
                return None;
            },
        };
        let cc = match parse_iris(&self.cc) {
            Some(cc) => cc,
            None => {
                return None;
            },
        };
        let payload = match self.object.read() {
            Some(payload) => payload,
            None => {
                return None;
            },
        };
        let target = match parse_optional(&self.target) {
            Some(target) => target,
            None => {
                return None;
            },
        };
        Some(Activity { id, actor, to, cc, kind, payload, target })
    }
}

impl WireObject {
    /// Reads the field as the payload of an activity.
    pub fn read(&self) -> (r: Option<Payload>)
        ensures
            match r {
                Some(p) => read_object(self@) == Some(p@),
                None => read_object(self@) is None,
            },
        decreases *self,
    {
        match self {
            WireObject::Missing => None,
            WireObject::Reference(t) => match Iri::parse(t.as_str()) {
                Some(iri) => Some(Payload::Target(iri)),
                None => None,
            },
            WireObject::Embedded(doc) => match doc.content_kind() {
                Some(kind) => match parse_required(&doc.id) {
                    Some(id) => Some(Payload::Content { id, kind }),
                    None => None,
                },
                None => match doc.read() {
                    Some(inner) => Some(Payload::Nested(Box::new(inner))),
                    None => None,
                },
            },
        }
    }
}

} // verus!
