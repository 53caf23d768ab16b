use apub_receive::dispatch::DispatchError;
use apub_receive::inbox::{GroupInboxActivities, SharedInboxActivities};
use apub_receive::schema::Variant;
use apub_receive::undo_like::UndoLikePost;
use apub_receive::verification::{Check, Context};
use apub_receive::wire::{WireDocument, WireObject};
use serde_json::Value;

fn text(value: Option<&Value>) -> Option<String> {
    value.and_then(Value::as_str).map(str::to_string)
}

fn recipients(value: Option<&Value>) -> Vec<String> {
    match value {
        Some(Value::String(one)) => vec![one.clone()],
        Some(Value::Array(many)) => many.iter().map(|v| text(Some(v)).unwrap_or_default()).collect(),
        _ => vec![],
    }
}

fn document(value: &Value) -> WireDocument {
    WireDocument {
        id: text(value.get("id")),
        actor: text(value.get("actor")),
        kind: text(value.get("type")),
        to: recipients(value.get("to")),
        cc: recipients(value.get("cc")),
        object: match value.get("object") {
            Some(Value::String(reference)) => WireObject::Reference(reference.clone()),
            Some(record @ Value::Object(_)) => WireObject::Embedded(Box::new(document(record))),
            _ => WireObject::Missing,
        },
        target: text(value.get("target")),
    }
}

fn parse(json: &str) -> WireDocument {
    document(&serde_json::from_str::<Value>(json).unwrap())
}

const UNDO_LIKE: &str = r#"{
    "@context": "https://www.w3.org/ns/activitystreams",
    "id": "https://example.org/activities/undo/5d6a",
    "actor": "https://example.org/u/alice",
    "to": "https://www.w3.org/ns/activitystreams#Public",
    "object": {
        "id": "https://example.org/activities/like/77c1",
        "actor": "https://example.org/u/alice",
        "to": "https://www.w3.org/ns/activitystreams#Public",
        "object": "https://other.org/post/7",
        "cc": ["https://other.org/c/main"],
        "type": "Like"
    },
    "cc": ["https://other.org/c/main"],
    "type": "Undo"
}"#;

#[test]
fn an_undo_of_a_like_is_read_from_json() {
    let doc = parse(UNDO_LIKE);
    let undo = UndoLikePost::read(&doc).unwrap();
    assert_eq!(undo.object().as_str(), "https://other.org/post/7");
    assert_eq!(undo.verify(&Context::new(vec![])), Ok(()));
    let resolved = SharedInboxActivities::resolve(&doc).unwrap();
    assert_eq!(resolved.parts().0, Variant::UndoLikeComment);
    assert_eq!(resolved.verify(&Context::new(vec![])), Ok(()));
}

#[test]
fn a_forged_undo_is_read_from_json_and_fails() {
    let forged = UNDO_LIKE.replace(
        "\"actor\": \"https://example.org/u/alice\",\n    \"to\"",
        "\"actor\": \"https://example.org/u/bob\",\n    \"to\"",
    );
    assert_ne!(forged, UNDO_LIKE);
    let doc = parse(&forged);
    let resolved = GroupInboxActivities::resolve(&doc).unwrap();
    match resolved.verify(&Context::new(vec![])) {
        Err(e) => {
            assert_eq!(e.check, Check::ActorMismatch);
            assert_eq!(e.actor.as_str(), "https://example.org/u/bob");
            assert_eq!(e.against.unwrap().as_str(), "https://example.org/u/alice");
        }
        Ok(()) => panic!("the undo of another actor's like passed"),
    }
}

#[test]
fn json_of_another_vocabulary_is_unrecognized() {
    let doc = parse(r#"{"type": "Flag", "id": "https://example.org/a/1",
        "actor": "https://example.org/u/alice", "object": "https://other.org/post/7",
        "to": "https://www.w3.org/ns/activitystreams#Public", "cc": ["https://other.org/c/main"]}"#);
    assert_eq!(SharedInboxActivities::resolve(&doc), Err(DispatchError::UnrecognizedActivity));
    let empty = parse("{}");
    assert_eq!(SharedInboxActivities::resolve(&empty), Err(DispatchError::UnrecognizedActivity));
    let numbers = parse(r#"{"type": 5, "id": 7, "actor": null, "object": [1, 2]}"#);
    assert_eq!(SharedInboxActivities::resolve(&numbers), Err(DispatchError::UnrecognizedActivity));
}
