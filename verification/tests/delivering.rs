use apub_receive::budget::charge_fetch;
use apub_receive::delivery::Progress;
use apub_receive::dispatch::{acknowledges, DispatchError};
use apub_receive::inbox::{GroupInboxActivities, PersonInboxActivities, SharedInboxActivities};
use apub_receive::iri::Iri;
use apub_receive::ledger::Ledger;
use apub_receive::receive::{ActorIdentity, ActorKind, Effect, Mutation, ReceiveError};
use apub_receive::schema::public_audience;
use apub_receive::undo_like::UndoLikePost;
use apub_receive::verification::{Check, Context};
use apub_receive::wire::{WireDocument, WireObject};

fn iri(s: &str) -> Iri {
    Iri::parse(s).unwrap()
}

fn individual(id: &str) -> ActorIdentity {
    ActorIdentity { id: iri(id), kind: ActorKind::Individual }
}

fn activity(id: &str, actor: &str, kind: &str, object: WireObject) -> WireDocument {
    WireDocument {
        id: Some(id.to_string()),
        actor: Some(actor.to_string()),
        kind: Some(kind.to_string()),
        to: vec![public_audience().to_string()],
        cc: vec!["https://other.org/c/main".to_string()],
        object,
        target: None,
    }
}

fn reference(s: &str) -> WireObject {
    WireObject::Reference(s.to_string())
}

fn like_by(id: &str, actor: &str) -> WireDocument {
    activity(id, actor, "Like", reference(POST))
}

fn undo_of(id: &str, actor: &str, inner: WireDocument) -> WireDocument {
    activity(id, actor, "Undo", WireObject::Embedded(Box::new(inner)))
}

const ALICE: &str = "https://example.org/u/alice";
const MALLORY: &str = "https://evil.org/u/mallory";
const LIKE: &str = "https://example.org/activities/like/1";
const UNDO: &str = "https://example.org/activities/undo/1";
const POST: &str = "https://other.org/post/7";

/// What stands for the collaborators: what is held locally, what can be
/// fetched and what each fetched object refers to, and the store.
struct World {
    held: Vec<String>,
    remote: Vec<(String, Vec<String>)>,
    ledger: Ledger,
    storage_fails: bool,
    fetched: Vec<String>,
    storage_calls: usize,
}

impl World {
    fn holding(held: &[&str]) -> World {
        World {
            held: held.iter().map(|s| s.to_string()).collect(),
            remote: vec![],
            ledger: Ledger::new(),
            storage_fails: false,
            fetched: vec![],
            storage_calls: 0,
        }
    }

    /// Does what each step asks for, until the delivery has ended.
    fn run(&mut self, begun: Progress, request_counter: &mut i32) -> Result<(), DispatchError> {
        let mut progress = begun;
        loop {
            progress = match progress {
                Progress::Lookup(step) => {
                    let held = self.held.iter().any(|h| h == step.current().as_str());
                    step.answered(held, request_counter)
                }
                Progress::Fetch(step) => {
                    let id = step.current().as_str().to_string();
                    self.fetched.push(id.clone());
                    let found = self.remote.iter().find(|(r, _)| *r == id).cloned();
                    match found {
                        Some((_, refs)) => {
                            self.held.push(id);
                            step.fetched(Some(refs.iter().map(|r| iri(r)).collect()))
                        }
                        None => step.fetched(None),
                    }
                }
                Progress::Apply(step) => {
                    self.storage_calls += 1;
                    if self.storage_fails {
                        step.applied(false)
                    } else {
                        self.ledger.apply(step.mutation());
                        step.applied(true)
                    }
                }
                ended => return ended.conclude().unwrap(),
            }
        }
    }

    /// One delivery to the inbox of a collective.
    fn deliver(&mut self, doc: &WireDocument, ceiling: i32) -> Result<(), DispatchError> {
        let resolved = GroupInboxActivities::resolve(doc)?;
        let actor = individual(resolved.parts().1.actor.as_str());
        let begun = resolved.handle(&actor, &Context::new(vec![]))?;
        let mut request_counter = ceiling;
        self.run(begun, &mut request_counter)
    }
}

#[test]
fn charge_fetch_takes_one_unit_while_something_is_left() {
    let mut counter: i32 = 2;
    assert!(charge_fetch(&mut counter));
    assert_eq!(counter, 1);
    assert!(charge_fetch(&mut counter));
    assert_eq!(counter, 0);
    assert!(!charge_fetch(&mut counter));
    assert_eq!(counter, 0);
    assert!(!charge_fetch(&mut counter));
    assert_eq!(counter, 0);
}

#[test]
fn charge_fetch_leaves_a_negative_budget_as_it_is() {
    let mut counter: i32 = -3;
    assert!(!charge_fetch(&mut counter));
    assert_eq!(counter, -3);
    let mut least = i32::MIN;
    assert!(!charge_fetch(&mut least));
    assert_eq!(least, i32::MIN);
    let mut most = i32::MAX;
    assert!(charge_fetch(&mut most));
    assert_eq!(most, i32::MAX - 1);
}

#[test]
fn the_budget_never_grows_in_a_delivery() {
    let mut world = World::holding(&[]);
    world.remote = vec![
        (POST.to_string(), vec!["https://other.org/u/carol".to_string()]),
        ("https://other.org/u/carol".to_string(), vec![]),
    ];
    let resolved = GroupInboxActivities::resolve(&like_by(LIKE, ALICE)).unwrap();
    let mut progress = resolved.receive(&individual(ALICE));
    let mut counter: i32 = 5;
    let mut last = counter;
    loop {
        progress = match progress {
            Progress::Lookup(step) => {
                let held = world.held.iter().any(|h| h == step.current().as_str());
                step.answered(held, &mut counter)
            }
            Progress::Fetch(step) => {
                let id = step.current().as_str().to_string();
                let refs = world.remote.iter().find(|(r, _)| *r == id).unwrap().1.clone();
                world.held.push(id);
                step.fetched(Some(refs.iter().map(|r| iri(r)).collect()))
            }
            Progress::Apply(step) => step.applied(true),
            _ => break,
        };
        assert!(counter <= last);
        assert!(counter >= 0);
        last = counter;
    }
    assert_eq!(counter, 3);
}

#[test]
fn a_like_plans_one_vote_for_the_post() {
    let resolved = GroupInboxActivities::resolve(&like_by(LIKE, ALICE)).unwrap();
    let (_, a) = resolved.parts();
    assert_eq!(a.effect(), Some(Effect::Upvote));
    assert_eq!(
        a.mutation(&individual(ALICE)),
        Some(Mutation {
            activity: iri(LIKE),
            effect: Effect::Upvote,
            actor: iri(ALICE),
            target: iri(POST),
            collection: None,
        })
    );
}

#[test]
fn every_kind_plans_its_change() {
    let effect_of = |doc: &WireDocument| doc.read().unwrap().effect();
    let simple = |kind: &str| activity("https://example.org/a/1", ALICE, kind, reference(POST));
    let content = |kind: &str| {
        activity(
            "https://example.org/a/1",
            ALICE,
            kind,
            WireObject::Embedded(Box::new(WireDocument {
                id: Some("https://example.org/post/9".to_string()),
                actor: None,
                kind: Some("Page".to_string()),
                to: vec![],
                cc: vec![],
                object: WireObject::Missing,
                target: None,
            })),
        )
    };
    let targeted = |kind: &str| {
        let mut doc = simple(kind);
        doc.target = Some("https://example.org/c/main/moderators".to_string());
        doc
    };
    let wrapping = |kind: &str, inner: WireDocument| {
        activity("https://example.org/a/2", ALICE, kind, WireObject::Embedded(Box::new(inner)))
    };
    assert_eq!(effect_of(&simple("Like")), Some(Effect::Upvote));
    assert_eq!(effect_of(&simple("Dislike")), Some(Effect::Downvote));
    assert_eq!(effect_of(&simple("Delete")), Some(Effect::Delete));
    assert_eq!(effect_of(&simple("Remove")), Some(Effect::Delete));
    assert_eq!(effect_of(&targeted("Remove")), Some(Effect::RemoveMembership));
    assert_eq!(effect_of(&simple("Follow")), Some(Effect::AddMembership));
    assert_eq!(effect_of(&simple("Block")), Some(Effect::RemoveMembership));
    assert_eq!(effect_of(&targeted("Add")), Some(Effect::AddMembership));
    assert_eq!(effect_of(&simple("Add")), None);
    assert_eq!(effect_of(&simple("Create")), None);
    assert_eq!(effect_of(&simple("Undo")), None);
    assert_eq!(effect_of(&content("Create")), Some(Effect::Create));
    assert_eq!(effect_of(&content("Update")), Some(Effect::Update));
    assert_eq!(effect_of(&content("Like")), None);
    assert_eq!(effect_of(&wrapping("Undo", simple("Like"))), Some(Effect::ReverseVote));
    assert_eq!(effect_of(&wrapping("Undo", simple("Dislike"))), Some(Effect::ReverseVote));
    assert_eq!(effect_of(&wrapping("Undo", simple("Delete"))), Some(Effect::Update));
    assert_eq!(effect_of(&wrapping("Undo", simple("Remove"))), Some(Effect::Update));
    assert_eq!(effect_of(&wrapping("Undo", simple("Follow"))), Some(Effect::RemoveMembership));
    assert_eq!(effect_of(&wrapping("Undo", simple("Block"))), Some(Effect::AddMembership));
    assert_eq!(effect_of(&wrapping("Undo", content("Create"))), None);
    assert_eq!(
        effect_of(&wrapping("Undo", wrapping("Undo", simple("Like")))),
        None
    );
    assert_eq!(effect_of(&wrapping("Accept", simple("Follow"))), Some(Effect::AddMembership));
    assert_eq!(effect_of(&wrapping("Announce", simple("Like"))), Some(Effect::Forward));
    assert_eq!(effect_of(&wrapping("Like", simple("Like"))), None);
    assert_eq!(Effect::Upvote.inverse(), Some(Effect::ReverseVote));
    assert_eq!(Effect::Create.inverse(), None);
    assert_eq!(Effect::ReverseVote.inverse(), None);
    assert_eq!(Effect::Forward.inverse(), None);
}

#[test]
fn a_change_is_made_to_what_the_payload_is_about_in_the_named_collection() {
    let mut block = activity(
        "https://example.org/a/1",
        "https://example.org/u/mod",
        "Block",
        reference("https://example.org/u/bob"),
    );
    block.target = Some("https://example.org/c/main".to_string());
    let undo = undo_of("https://example.org/a/2", "https://example.org/u/mod", block);
    let a = undo.read().unwrap();
    let m = a.mutation(&individual("https://example.org/u/mod")).unwrap();
    assert_eq!(m.activity, iri("https://example.org/a/2"));
    assert_eq!(m.effect, Effect::AddMembership);
    assert_eq!(m.target, iri("https://example.org/u/bob"));
    assert_eq!(m.collection, Some(iri("https://example.org/c/main")));
    assert_eq!(m.duplicate(), m);
    assert_eq!(a.collection().map(|c| c.as_str()), Some("https://example.org/c/main"));
    assert_eq!(a.payload.subject().as_str(), "https://example.org/u/bob");
}

#[test]
fn a_delivery_resolves_the_target_and_then_the_collection() {
    let mut add = activity(
        "https://example.org/a/1",
        "https://example.org/u/mod",
        "Add",
        reference("https://example.org/u/bob"),
    );
    add.target = Some("https://example.org/c/main/moderators".to_string());
    let resolved = GroupInboxActivities::resolve(&add).unwrap();
    let mut counter: i32 = 1;
    let first = match resolved.receive(&individual("https://example.org/u/mod")) {
        Progress::Lookup(step) => step,
        _ => panic!("a lookup was expected"),
    };
    assert_eq!(first.current().as_str(), "https://example.org/u/bob");
    let second = match first.answered(true, &mut counter) {
        Progress::Lookup(step) => step,
        _ => panic!("a lookup was expected"),
    };
    assert_eq!(second.current().as_str(), "https://example.org/c/main/moderators");
    let apply = match second.answered(true, &mut counter) {
        Progress::Apply(step) => step,
        _ => panic!("the change was expected"),
    };
    assert_eq!(apply.mutation().effect, Effect::AddMembership);
    assert_eq!(counter, 1);
    assert_eq!(apply.applied(true).conclude(), Some(Ok(())));
}

#[test]
fn a_progress_that_has_not_ended_has_no_conclusion() {
    let m = GroupInboxActivities::resolve(&like_by(LIKE, ALICE))
        .unwrap()
        .parts()
        .1
        .mutation(&individual(ALICE))
        .unwrap();
    assert_eq!(Progress::begin(m.duplicate()).conclude(), None);
    let mut counter: i32 = 1;
    let fetch = match Progress::begin(m.duplicate()) {
        Progress::Lookup(step) => step.answered(false, &mut counter),
        _ => panic!("a lookup was expected"),
    };
    assert!(matches!(fetch, Progress::Fetch(_)));
    assert_eq!(fetch.conclude(), None);
    assert_eq!(Progress::Done.conclude(), Some(Ok(())));
    assert_eq!(
        Progress::Failed(ReceiveError::Storage).conclude(),
        Some(Err(DispatchError::Receive(ReceiveError::Storage)))
    );
}

#[test]
fn a_like_raises_the_tally_by_one() {
    let mut world = World::holding(&[POST]);
    let before = world.ledger.tally(&iri(POST));
    assert_eq!(world.deliver(&like_by(LIKE, ALICE), 2), Ok(()));
    assert_eq!(world.ledger.tally(&iri(POST)), before + 1);
    assert_eq!(world.ledger.tally(&iri(POST)), 1);
    assert_eq!(world.ledger.applied(), 1);
    assert_eq!(world.storage_calls, 1);
    assert!(world.fetched.is_empty());
}

#[test]
fn an_undo_returns_the_tally_and_a_second_undo_changes_nothing() {
    let mut world = World::holding(&[POST]);
    let before = world.ledger.tally(&iri(POST));
    assert_eq!(world.deliver(&like_by(LIKE, ALICE), 2), Ok(()));
    assert_eq!(world.ledger.tally(&iri(POST)), before + 1);
    let undo = undo_of(UNDO, ALICE, like_by(LIKE, ALICE));
    assert_eq!(world.deliver(&undo, 2), Ok(()));
    assert_eq!(world.ledger.tally(&iri(POST)), before);
    assert_eq!(world.ledger.applied(), 2);
    assert_eq!(world.deliver(&undo, 2), Ok(()));
    assert_eq!(world.ledger.tally(&iri(POST)), before);
    assert_eq!(world.ledger.applied(), 2);
}

#[test]
fn an_undo_by_another_actor_changes_no_tally() {
    let mut world = World::holding(&[POST]);
    assert_eq!(world.deliver(&like_by(LIKE, ALICE), 2), Ok(()));
    let forged = undo_of("https://evil.org/activities/undo/1", MALLORY, like_by(LIKE, ALICE));
    match world.deliver(&forged, 2) {
        Err(DispatchError::Verification(e)) => {
            assert_eq!(e.check, Check::NestedDomainMismatch);
            assert_eq!(e.actor, iri(MALLORY));
            assert_eq!(e.against, Some(iri(LIKE)));
        }
        other => panic!("unexpected outcome {:?}", other),
    }
    assert_eq!(world.ledger.tally(&iri(POST)), 1);
    assert_eq!(world.ledger.applied(), 1);
    assert_eq!(world.storage_calls, 1);
}

#[test]
fn an_unrecognized_kind_reaches_no_storage() {
    let mut world = World::holding(&[POST]);
    let doc = activity("https://example.org/activities/flag/1", ALICE, "Flag", reference(POST));
    assert_eq!(
        SharedInboxActivities::resolve(&doc).err(),
        Some(DispatchError::UnrecognizedActivity)
    );
    assert_eq!(world.deliver(&doc, 2), Err(DispatchError::UnrecognizedActivity));
    assert_eq!(world.storage_calls, 0);
    assert_eq!(world.ledger.applied(), 0);
    assert!(world.fetched.is_empty());
}

#[test]
fn the_third_unseen_reference_exhausts_a_budget_of_two() {
    let mut world = World::holding(&[]);
    world.remote = vec![
        (POST.to_string(), vec!["https://other.org/u/carol".to_string()]),
        (
            "https://other.org/u/carol".to_string(),
            vec!["https://third.org/c/main".to_string()],
        ),
        ("https://third.org/c/main".to_string(), vec![]),
    ];
    assert_eq!(
        world.deliver(&like_by(LIKE, ALICE), 2),
        Err(DispatchError::Receive(ReceiveError::BudgetExhausted))
    );
    assert_eq!(
        world.fetched,
        vec![POST.to_string(), "https://other.org/u/carol".to_string()]
    );
    assert_eq!(world.storage_calls, 0);
    assert_eq!(world.ledger.applied(), 0);
    assert_eq!(world.ledger.tally(&iri(POST)), 0);
}

#[test]
fn the_same_chain_is_resolved_with_a_budget_of_three() {
    let mut world = World::holding(&[]);
    world.remote = vec![
        (POST.to_string(), vec!["https://other.org/u/carol".to_string()]),
        (
            "https://other.org/u/carol".to_string(),
            vec!["https://third.org/c/main".to_string()],
        ),
        ("https://third.org/c/main".to_string(), vec![]),
    ];
    assert_eq!(world.deliver(&like_by(LIKE, ALICE), 3), Ok(()));
    assert_eq!(world.fetched.len(), 3);
    assert_eq!(world.storage_calls, 1);
    assert_eq!(world.ledger.tally(&iri(POST)), 1);
}

#[test]
fn a_spent_budget_fails_the_first_fetch_and_makes_none() {
    let mut world = World::holding(&[]);
    world.remote = vec![(POST.to_string(), vec![])];
    assert_eq!(
        world.deliver(&like_by(LIKE, ALICE), 0),
        Err(DispatchError::Receive(ReceiveError::BudgetExhausted))
    );
    assert!(world.fetched.is_empty());
    assert_eq!(world.storage_calls, 0);
}

#[test]
fn a_held_object_costs_nothing() {
    let mut world = World::holding(&[POST]);
    assert_eq!(world.deliver(&like_by(LIKE, ALICE), 0), Ok(()));
    assert_eq!(world.ledger.tally(&iri(POST)), 1);
}

#[test]
fn a_failed_fetch_fails_the_delivery_and_is_charged() {
    let mut world = World::holding(&[]);
    let resolved = GroupInboxActivities::resolve(&like_by(LIKE, ALICE)).unwrap();
    let begun = resolved.handle(&individual(ALICE), &Context::new(vec![])).unwrap();
    let mut counter: i32 = 4;
    assert_eq!(
        world.run(begun, &mut counter),
        Err(DispatchError::Receive(ReceiveError::Fetch(iri(POST))))
    );
    assert_eq!(counter, 3);
    assert_eq!(world.fetched, vec![POST.to_string()]);
    assert_eq!(world.storage_calls, 0);
}

#[test]
fn a_storage_failure_fails_the_delivery() {
    let mut world = World::holding(&[POST]);
    world.storage_fails = true;
    assert_eq!(
        world.deliver(&like_by(LIKE, ALICE), 2),
        Err(DispatchError::Receive(ReceiveError::Storage))
    );
    assert_eq!(world.storage_calls, 1);
    assert_eq!(world.ledger.applied(), 0);
}

#[test]
fn a_second_delivery_of_an_activity_is_applied_once() {
    let mut world = World::holding(&[POST]);
    assert_eq!(world.deliver(&like_by(LIKE, ALICE), 2), Ok(()));
    assert_eq!(world.deliver(&like_by(LIKE, ALICE), 2), Ok(()));
    assert_eq!(world.ledger.applied(), 1);
    assert_eq!(world.ledger.tally(&iri(POST)), 1);
    assert!(world.ledger.has_seen(&iri(LIKE)));
    assert!(!world.ledger.has_seen(&iri(UNDO)));
}

#[test]
fn the_ledger_keeps_one_vote_of_an_actor_on_a_target() {
    let vote = |id: &str, effect: Effect, actor: &str, target: &str| Mutation {
        activity: iri(id),
        effect,
        actor: iri(actor),
        target: iri(target),
        collection: None,
    };
    let bob = "https://example.org/u/bob";
    let other = "https://other.org/post/8";
    let mut ledger = Ledger::new();
    assert_eq!(ledger.tally(&iri(POST)), 0);
    assert!(ledger.apply(&vote("https://example.org/a/1", Effect::Upvote, ALICE, POST)));
    assert!(ledger.apply(&vote("https://example.org/a/2", Effect::Upvote, bob, POST)));
    assert!(ledger.apply(&vote("https://example.org/a/3", Effect::Downvote, bob, other)));
    assert_eq!(ledger.tally(&iri(POST)), 2);
    assert_eq!(ledger.tally(&iri(other)), -1);
    assert!(ledger.apply(&vote("https://example.org/a/4", Effect::Downvote, ALICE, POST)));
    assert_eq!(ledger.tally(&iri(POST)), 0);
    assert!(ledger.apply(&vote("https://example.org/a/5", Effect::Upvote, ALICE, POST)));
    assert_eq!(ledger.tally(&iri(POST)), 2);
    assert!(!ledger.apply(&vote("https://example.org/a/4", Effect::Downvote, ALICE, POST)));
    assert_eq!(ledger.tally(&iri(POST)), 2);
    assert!(ledger.apply(&vote("https://example.org/a/6", Effect::ReverseVote, bob, POST)));
    assert_eq!(ledger.tally(&iri(POST)), 1);
    assert!(ledger.apply(&vote("https://example.org/a/7", Effect::ReverseVote, bob, POST)));
    assert_eq!(ledger.tally(&iri(POST)), 1);
    assert_eq!(ledger.tally(&iri(other)), -1);
    assert!(ledger.apply(&vote("https://example.org/a/8", Effect::Delete, bob, other)));
    assert_eq!(ledger.tally(&iri(other)), -1);
    assert_eq!(ledger.applied(), 8);
}

#[test]
fn undo_like_post_plans_the_reversal_of_the_vote() {
    let typed = UndoLikePost::read(&undo_of(UNDO, ALICE, like_by(LIKE, ALICE))).unwrap();
    let apply = match typed.receive(&individual(ALICE)) {
        Progress::Lookup(step) => {
            assert_eq!(step.current().as_str(), POST);
            let mut counter: i32 = 0;
            match step.answered(true, &mut counter) {
                Progress::Apply(apply) => apply,
                _ => panic!("the change was expected"),
            }
        }
        _ => panic!("a lookup was expected"),
    };
    assert_eq!(
        *apply.mutation(),
        Mutation {
            activity: iri(UNDO),
            effect: Effect::ReverseVote,
            actor: iri(ALICE),
            target: iri(POST),
            collection: None,
        }
    );
}

#[test]
fn an_activity_that_fails_verification_is_not_received() {
    let forged = like_by("https://evil.org/activities/like/1", ALICE);
    let resolved = PersonInboxActivities::resolve(&activity(
        "https://evil.org/activities/announce/1",
        "https://other.org/c/main",
        "Announce",
        WireObject::Embedded(Box::new(forged)),
    ))
    .unwrap();
    let actor = ActorIdentity { id: iri("https://other.org/c/main"), kind: ActorKind::Collective };
    match resolved.handle(&actor, &Context::new(vec![])) {
        Err(DispatchError::Verification(e)) => assert_eq!(e.check, Check::DomainMismatch),
        _ => panic!("a failed check was expected"),
    }
}

#[test]
fn only_a_delivery_that_was_carried_out_or_dropped_is_acknowledged() {
    assert!(acknowledges(&Ok(())));
    assert!(acknowledges(&Err(DispatchError::UnrecognizedActivity)));
    assert!(!acknowledges(&Err(DispatchError::Receive(ReceiveError::BudgetExhausted))));
    assert!(!acknowledges(&Err(DispatchError::Receive(ReceiveError::Storage))));
    assert!(!acknowledges(&Err(DispatchError::Receive(ReceiveError::Fetch(iri(POST))))));
    let mut world = World::holding(&[POST]);
    let forged = undo_of("https://evil.org/activities/undo/1", MALLORY, like_by(LIKE, ALICE));
    let outcome = world.deliver(&forged, 2);
    assert!(matches!(outcome, Err(DispatchError::Verification(_))));
    assert!(!acknowledges(&outcome));
}
