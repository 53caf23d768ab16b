use activitystreams::activity::kind;
use activitystreams::actor::kind::GroupType;
use activitystreams::object::kind::{NoteType, PageType};
use apub_receive::activity::{ActivityKind, ContentKind};
use apub_receive::iri::Iri;
use apub_receive::schema::public_audience;

#[test]
fn parse_keeps_a_canonical_url() {
    let iri = Iri::parse("https://example.org/u/alice").unwrap();
    assert_eq!(iri.as_str(), "https://example.org/u/alice");
    assert_eq!(iri.authority(), Some("example.org"));
}

#[test]
fn parse_normalizes_scheme_and_host() {
    let iri = Iri::parse("HTTPS://Example.ORG").unwrap();
    assert_eq!(iri.as_str(), "https://example.org/");
    assert_eq!(iri.authority(), Some("example.org"));
}

#[test]
fn parse_agrees_with_the_url_crate() {
    let text = "https://sub.Example.org:8536/post/1?x=1#top";
    let url = url::Url::parse(text).unwrap();
    let iri = Iri::parse(text).unwrap();
    assert_eq!(iri.as_str(), url.as_str());
    assert_eq!(iri.authority(), url.domain());
}

#[test]
fn parse_rejects_what_is_no_url() {
    assert!(Iri::parse("not a url").is_none());
    assert!(Iri::parse("").is_none());
    assert!(Iri::parse("/relative/path").is_none());
}

#[test]
fn an_address_is_no_authority() {
    let iri = Iri::parse("https://127.0.0.1/u/alice").unwrap();
    assert_eq!(iri.authority(), None);
    let mail = Iri::parse("mailto:alice@example.org").unwrap();
    assert_eq!(mail.authority(), None);
}

#[test]
fn the_port_is_not_part_of_the_authority() {
    let a = Iri::parse("https://example.org:8536/u/alice").unwrap();
    let b = Iri::parse("https://example.org/activities/1").unwrap();
    assert!(a.same_authority(&b));
    assert!(!a.same_as(&b));
}

#[test]
fn same_authority_compares_domains() {
    let a = Iri::parse("https://example.org/u/alice").unwrap();
    let b = Iri::parse("https://example.org/post/7").unwrap();
    let c = Iri::parse("https://other.org/post/7").unwrap();
    let d = Iri::parse("https://sub.example.org/post/7").unwrap();
    assert!(a.same_authority(&b));
    assert!(!a.same_authority(&c));
    assert!(!a.same_authority(&d));
}

#[test]
fn identifiers_without_authority_count_as_the_same() {
    let a = Iri::parse("https://127.0.0.1/u/alice").unwrap();
    let b = Iri::parse("mailto:alice@example.org").unwrap();
    assert!(a.same_authority(&b));
}

#[test]
fn same_as_compares_the_whole_url() {
    let a = Iri::parse("https://example.org/u/alice").unwrap();
    let b = Iri::parse("https://EXAMPLE.org/u/alice").unwrap();
    let c = Iri::parse("https://example.org/u/bob").unwrap();
    assert!(a.same_as(&b));
    assert!(!a.same_as(&c));
}

#[test]
fn duplicate_is_the_same_identifier() {
    let a = Iri::parse("https://example.org/u/alice").unwrap();
    let b = a.duplicate();
    assert_eq!(a, b);
    assert!(a.same_as(&b));
}

#[test]
fn is_text_and_has_authority_compare_texts() {
    let a = Iri::parse("https://example.org/u/alice").unwrap();
    assert!(a.is_text("https://example.org/u/alice"));
    assert!(!a.is_text("https://example.org/u/alice/"));
    assert!(a.has_authority(&"example.org".to_string()));
    assert!(!a.has_authority(&"example.com".to_string()));
}

#[test]
fn the_public_marker_is_a_url_that_parsing_keeps() {
    let marker = Iri::parse(public_audience()).unwrap();
    assert_eq!(marker.as_str(), "https://www.w3.org/ns/activitystreams#Public");
    assert_eq!(marker.as_str(), activitystreams::public().as_str());
}

#[test]
fn activity_kinds_have_the_literals_of_the_vocabulary() {
    assert_eq!(ActivityKind::Accept.as_str(), kind::AcceptType::Accept.to_string());
    assert_eq!(ActivityKind::Add.as_str(), kind::AddType::Add.to_string());
    assert_eq!(ActivityKind::Announce.as_str(), kind::AnnounceType::Announce.to_string());
    assert_eq!(ActivityKind::Block.as_str(), kind::BlockType::Block.to_string());
    assert_eq!(ActivityKind::Create.as_str(), kind::CreateType::Create.to_string());
    assert_eq!(ActivityKind::Delete.as_str(), kind::DeleteType::Delete.to_string());
    assert_eq!(ActivityKind::Dislike.as_str(), kind::DislikeType::Dislike.to_string());
    assert_eq!(ActivityKind::Follow.as_str(), kind::FollowType::Follow.to_string());
    assert_eq!(ActivityKind::Like.as_str(), kind::LikeType::Like.to_string());
    assert_eq!(ActivityKind::Remove.as_str(), kind::RemoveType::Remove.to_string());
    assert_eq!(ActivityKind::Undo.as_str(), kind::UndoType::Undo.to_string());
    assert_eq!(ActivityKind::Update.as_str(), kind::UpdateType::Update.to_string());
}

#[test]
fn content_kinds_have_the_literals_of_the_vocabulary() {
    assert_eq!(ContentKind::Note.as_str(), NoteType::Note.to_string());
    assert_eq!(ContentKind::Page.as_str(), PageType::Page.to_string());
    assert_eq!(ContentKind::Group.as_str(), GroupType::Group.to_string());
}

#[test]
fn kinds_are_read_from_their_literals_only() {
    let all = [
        ActivityKind::Accept,
        ActivityKind::Add,
        ActivityKind::Announce,
        ActivityKind::Block,
        ActivityKind::Create,
        ActivityKind::Delete,
        ActivityKind::Dislike,
        ActivityKind::Follow,
        ActivityKind::Like,
        ActivityKind::Remove,
        ActivityKind::Undo,
        ActivityKind::Update,
    ];
    for kind in all {
        assert_eq!(ActivityKind::from_literal(&kind.as_str().to_string()), Some(kind));
    }
    assert_eq!(ActivityKind::from_literal(&"like".to_string()), None);
    assert_eq!(ActivityKind::from_literal(&"Flag".to_string()), None);
    assert_eq!(ActivityKind::from_literal(&"Note".to_string()), None);
    assert_eq!(ActivityKind::from_literal(&String::new()), None);
    for kind in [ContentKind::Note, ContentKind::Page, ContentKind::Group] {
        assert_eq!(ContentKind::from_literal(&kind.as_str().to_string()), Some(kind));
    }
    assert_eq!(ContentKind::from_literal(&"Like".to_string()), None);
}
