use apub_receive::inbox::{GroupInboxActivities, PersonInboxActivities, SharedInboxActivities};
use apub_receive::iri::Iri;
use apub_receive::schema::public_audience;
use apub_receive::undo_like::UndoLikePost;
use apub_receive::verification::{
    check_identity, verify_domains_match, Check, Context, VerificationError,
};
use apub_receive::wire::{WireDocument, WireObject};

fn iri(s: &str) -> Iri {
    Iri::parse(s).unwrap()
}

fn open_context() -> Context {
    Context::new(vec![])
}

fn activity(id: &str, actor: &str, kind: &str, object: WireObject) -> WireDocument {
    WireDocument {
        id: Some(id.to_string()),
        actor: Some(actor.to_string()),
        kind: Some(kind.to_string()),
        to: vec![public_audience().to_string()],
        cc: vec!["https://other.org/c/main".to_string()],
        object,
        target: None,
    }
}

fn like_by(id: &str, actor: &str) -> WireDocument {
    activity(id, actor, "Like", WireObject::Reference("https://other.org/post/7".to_string()))
}

fn undo_of(id: &str, actor: &str, inner: WireDocument) -> WireDocument {
    activity(id, actor, "Undo", WireObject::Embedded(Box::new(inner)))
}

fn error(check: Check, actor: &str, against: Option<&str>) -> VerificationError {
    VerificationError { check, actor: iri(actor), against: against.map(iri) }
}

const ALICE: &str = "https://example.org/u/alice";
const MALLORY: &str = "https://evil.org/u/mallory";
const LIKE: &str = "https://example.org/activities/like/1";
const UNDO: &str = "https://example.org/activities/undo/1";

#[test]
fn domains_match_where_the_authorities_are_equal() {
    assert_eq!(verify_domains_match(&iri(ALICE), &iri(LIKE)), Ok(()));
    assert_eq!(
        verify_domains_match(&iri(ALICE), &iri("https://evil.org/activities/1")),
        Err(error(
            Check::DomainMismatch,
            ALICE,
            Some("https://evil.org/activities/1")
        ))
    );
    assert_eq!(
        verify_domains_match(&iri("https://10.0.0.1/u/a"), &iri("https://10.0.0.2/x")),
        Ok(())
    );
}

#[test]
fn an_identity_needs_an_authority_that_is_not_blocked() {
    let context = Context::new(vec!["evil.org".to_string(), "spam.example".to_string()]);
    assert_eq!(check_identity(&iri(ALICE), &context), Ok(()));
    assert_eq!(
        check_identity(&iri(MALLORY), &context),
        Err(error(Check::BlockedIdentity, MALLORY, None))
    );
    assert_eq!(
        check_identity(&iri("https://spam.example/u/x"), &context),
        Err(error(Check::BlockedIdentity, "https://spam.example/u/x", None))
    );
    assert_eq!(
        check_identity(&iri("https://sub.evil.org/u/x"), &context),
        Ok(())
    );
    assert_eq!(
        check_identity(&iri("https://127.0.0.1/u/x"), &context),
        Err(error(Check::MalformedIdentity, "https://127.0.0.1/u/x", None))
    );
    assert!(context.is_blocked(&iri(MALLORY)));
    assert!(!context.is_blocked(&iri(ALICE)));
    assert!(!context.is_blocked(&iri("https://127.0.0.1/u/x")));
    assert!(!open_context().is_blocked(&iri(MALLORY)));
}

#[test]
fn a_like_under_its_own_domain_passes_verification() {
    let like = GroupInboxActivities::resolve(&like_by(LIKE, ALICE)).unwrap();
    assert_eq!(like.verify(&open_context()), Ok(()));
    let (_, a) = like.parts();
    assert_eq!(a.actor.authority(), Some("example.org"));
    assert_eq!(a.id.authority(), Some("example.org"));
    assert_eq!(a.verify(&open_context()), Ok(()));
}

#[test]
fn an_undo_by_the_same_actor_passes_verification() {
    let undo = GroupInboxActivities::resolve(&undo_of(UNDO, ALICE, like_by(LIKE, ALICE))).unwrap();
    assert_eq!(undo.verify(&open_context()), Ok(()));
    let typed = UndoLikePost::read(&undo_of(UNDO, ALICE, like_by(LIKE, ALICE))).unwrap();
    assert_eq!(typed.verify(&open_context()), Ok(()));
}

#[test]
fn an_undo_by_an_actor_of_another_domain_fails_verification() {
    let doc = undo_of(
        "https://evil.org/activities/undo/1",
        MALLORY,
        like_by(LIKE, ALICE),
    );
    let undo = GroupInboxActivities::resolve(&doc).unwrap();
    assert_eq!(
        undo.verify(&open_context()),
        Err(error(Check::NestedDomainMismatch, MALLORY, Some(LIKE)))
    );
    let typed = UndoLikePost::read(&doc).unwrap();
    assert_eq!(
        typed.verify(&open_context()),
        Err(error(Check::NestedDomainMismatch, MALLORY, Some(LIKE)))
    );
}

#[test]
fn an_activity_under_a_foreign_identifier_fails_with_a_domain_mismatch() {
    let doc = like_by("https://evil.org/activities/like/1", ALICE);
    let like = SharedInboxActivities::resolve(&doc).unwrap();
    assert_eq!(
        like.verify(&open_context()),
        Err(error(
            Check::DomainMismatch,
            ALICE,
            Some("https://evil.org/activities/like/1")
        ))
    );
    let blocking = Context::new(vec!["example.org".to_string()]);
    assert_eq!(
        like.verify(&blocking),
        Err(error(
            Check::DomainMismatch,
            ALICE,
            Some("https://evil.org/activities/like/1")
        ))
    );
}

#[test]
fn an_undo_under_a_foreign_identifier_fails_though_the_like_passes() {
    let doc = undo_of(
        "https://evil.org/activities/undo/1",
        ALICE,
        like_by(LIKE, ALICE),
    );
    let like = GroupInboxActivities::resolve(&like_by(LIKE, ALICE)).unwrap();
    assert_eq!(like.verify(&open_context()), Ok(()));
    let undo = GroupInboxActivities::resolve(&doc).unwrap();
    assert_eq!(
        undo.verify(&open_context()),
        Err(error(
            Check::DomainMismatch,
            ALICE,
            Some("https://evil.org/activities/undo/1")
        ))
    );
}

#[test]
fn an_undo_of_the_activity_of_another_actor_of_the_same_domain_fails() {
    let doc = undo_of(
        UNDO,
        "https://example.org/u/bob",
        like_by(LIKE, ALICE),
    );
    let undo = GroupInboxActivities::resolve(&doc).unwrap();
    assert_eq!(
        undo.verify(&open_context()),
        Err(error(Check::ActorMismatch, "https://example.org/u/bob", Some(ALICE)))
    );
    assert_eq!(
        UndoLikePost::read(&doc).unwrap().verify(&open_context()),
        Err(error(Check::ActorMismatch, "https://example.org/u/bob", Some(ALICE)))
    );
}

#[test]
fn the_checks_are_made_in_order() {
    let blocking = Context::new(vec!["example.org".to_string()]);
    let undo = |id: &str, actor: &str, like_id: &str, like_actor: &str| {
        GroupInboxActivities::resolve(&undo_of(id, actor, like_by(like_id, like_actor))).unwrap()
    };
    let bob = "https://example.org/u/bob";
    assert_eq!(
        undo("https://evil.org/a/1", bob, "https://other.org/a/2", ALICE).verify(&blocking),
        Err(error(Check::DomainMismatch, bob, Some("https://evil.org/a/1")))
    );
    assert_eq!(
        undo(UNDO, bob, "https://other.org/a/2", ALICE).verify(&blocking),
        Err(error(Check::NestedDomainMismatch, bob, Some("https://other.org/a/2")))
    );
    assert_eq!(
        undo(UNDO, bob, LIKE, ALICE).verify(&blocking),
        Err(error(Check::BlockedIdentity, bob, None))
    );
    assert_eq!(
        undo(UNDO, bob, LIKE, ALICE).verify(&open_context()),
        Err(error(Check::ActorMismatch, bob, Some(ALICE)))
    );
    assert_eq!(undo(UNDO, bob, LIKE, bob).verify(&open_context()), Ok(()));
    let address = "https://127.0.0.1/u/x";
    assert_eq!(
        undo("https://127.0.0.1/a/1", address, "https://127.0.0.1/a/2", address)
            .verify(&open_context()),
        Err(error(Check::MalformedIdentity, address, None))
    );
}

#[test]
fn a_blocked_actor_fails_verification() {
    let like = GroupInboxActivities::resolve(&like_by(LIKE, ALICE)).unwrap();
    let blocking = Context::new(vec!["example.org".to_string()]);
    assert_eq!(
        like.verify(&blocking),
        Err(error(Check::BlockedIdentity, ALICE, None))
    );
}

#[test]
fn an_announcement_is_held_to_the_activity_that_it_forwards() {
    let community = "https://example.org/c/main";
    let announce = |inner: WireDocument| {
        PersonInboxActivities::resolve(&activity(
            "https://example.org/activities/announce/1",
            community,
            "Announce",
            WireObject::Embedded(Box::new(inner)),
        ))
        .unwrap()
    };
    assert_eq!(announce(like_by(LIKE, ALICE)).verify(&open_context()), Ok(()));
    assert_eq!(
        announce(like_by("https://other.org/activities/like/1", "https://other.org/u/carol"))
            .verify(&open_context()),
        Err(error(
            Check::NestedDomainMismatch,
            community,
            Some("https://other.org/activities/like/1")
        ))
    );
    assert_eq!(
        announce(undo_of(UNDO, "https://example.org/u/bob", like_by(LIKE, ALICE)))
            .verify(&open_context()),
        Err(error(Check::ActorMismatch, "https://example.org/u/bob", Some(ALICE)))
    );
}

#[test]
fn undo_like_post_is_made_of_its_shape_only() {
    let undo = undo_of(UNDO, ALICE, like_by(LIKE, ALICE)).read().unwrap();
    let typed = UndoLikePost::from_activity(undo).unwrap();
    assert_eq!(typed.object().as_str(), "https://other.org/post/7");
    assert_eq!(typed.as_activity().id.as_str(), UNDO);
    assert!(UndoLikePost::from_activity(like_by(LIKE, ALICE).read().unwrap()).is_none());
    let dislike = activity(
        "https://example.org/activities/dislike/1",
        ALICE,
        "Dislike",
        WireObject::Reference("https://other.org/post/7".to_string()),
    );
    assert!(UndoLikePost::read(&undo_of(UNDO, ALICE, dislike)).is_none());
    let mut nowhere = like_by(LIKE, ALICE);
    nowhere.actor = None;
    assert!(UndoLikePost::read(&undo_of(UNDO, ALICE, nowhere)).is_none());
}

fn follow(id: &str, actor: &str, collective: &str) -> WireDocument {
    WireDocument {
        id: Some(id.to_string()),
        actor: Some(actor.to_string()),
        kind: Some("Follow".to_string()),
        to: vec![collective.to_string()],
        cc: vec![],
        object: WireObject::Reference(collective.to_string()),
        target: None,
    }
}

fn accept(id: &str, actor: &str, to: &str, inner: WireDocument) -> WireDocument {
    WireDocument {
        id: Some(id.to_string()),
        actor: Some(actor.to_string()),
        kind: Some("Accept".to_string()),
        to: vec![to.to_string()],
        cc: vec![],
        object: WireObject::Embedded(Box::new(inner)),
        target: None,
    }
}

#[test]
fn an_accepted_follow_must_be_known_and_be_for_a_local_collective() {
    let community = "https://example.org/c/main";
    let request = "https://example.org/activities/follow/1";
    let doc = accept(
        "https://example.org/activities/accept/1",
        community,
        ALICE,
        follow(request, ALICE, community),
    );
    let accepted = PersonInboxActivities::resolve(&doc).unwrap();
    let mut context = open_context();
    assert!(!context.knows_follow(&iri(request)));
    assert!(!context.administers(&iri(community)));
    assert_eq!(
        accepted.verify(&context),
        Err(error(Check::UnknownFollow, community, Some(request)))
    );
    context.follow_requests.push(iri("https://example.org/activities/follow/2"));
    assert_eq!(
        accepted.verify(&context),
        Err(error(Check::UnknownFollow, community, Some(request)))
    );
    context.follow_requests.push(iri(request));
    assert!(context.knows_follow(&iri(request)));
    assert_eq!(
        accepted.verify(&context),
        Err(error(Check::ForeignCollective, community, Some(community)))
    );
    context.local_collectives.push(iri("https://example.org/c/other"));
    context.local_collectives.push(iri(community));
    assert!(context.administers(&iri(community)));
    assert_eq!(accepted.verify(&context), Ok(()));
    context.blocked.push("example.org".to_string());
    assert_eq!(
        accepted.verify(&context),
        Err(error(Check::BlockedIdentity, community, None))
    );
}

#[test]
fn the_checks_of_a_kind_are_made_of_that_kind_only() {
    let community = "https://example.org/c/main";
    let a_follow = follow("https://example.org/activities/follow/1", ALICE, community)
        .read()
        .unwrap();
    let a_like = like_by(LIKE, "https://example.org/u/bob").read().unwrap();
    let an_undo = undo_of(UNDO, ALICE, like_by(LIKE, ALICE)).read().unwrap();
    let an_accept = accept(
        "https://example.org/activities/accept/1",
        community,
        ALICE,
        follow("https://example.org/activities/follow/1", ALICE, community),
    )
    .read()
    .unwrap();
    let announce = activity(
        "https://example.org/activities/announce/1",
        community,
        "Announce",
        WireObject::Embedded(Box::new(like_by(LIKE, ALICE))),
    )
    .read()
    .unwrap();
    let context = open_context();
    assert_eq!(
        an_undo.check_kind(&a_like, &context),
        Err(error(Check::ActorMismatch, ALICE, Some("https://example.org/u/bob")))
    );
    assert_eq!(an_undo.check_kind(&a_follow, &context), Ok(()));
    assert_eq!(
        an_accept.check_kind(&a_follow, &context),
        Err(error(
            Check::UnknownFollow,
            community,
            Some("https://example.org/activities/follow/1")
        ))
    );
    assert_eq!(announce.check_kind(&a_like, &context), Ok(()));
    assert_eq!(announce.check_kind(&a_follow, &context), Ok(()));
}
