use std::sync::Mutex;

use serde_json::Value;
use transpile_test::context::{ContextStore, ExecutionContext};
use transpile_test::dispatch::{invoke, ErrorKind, InvocationOutcome};
use transpile_test::registry::{FunctionMetadata, FunctionRegistry, Handler};
use transpile_test::server::InvokeMethodResponse;
use transpile_test::string_map::StringMap;

fn json(text: &str) -> Value {
    serde_json::from_str(text).expect("the test writes well-formed JSON")
}

#[test]
fn string_map_keeps_one_value_per_key() {
    let mut map: StringMap<i64> = StringMap::new();
    assert!(!map.contains_key("a"));
    assert_eq!(map.get("a"), None);
    assert_eq!(map.position("a"), None);
    assert_eq!(map.insert("a".to_string(), 1), None);
    assert_eq!(map.insert("b".to_string(), 2), None);
    assert_eq!(map.insert("".to_string(), 0), None);
    assert_eq!(map.insert("a".to_string(), 3), Some(1));
    assert_eq!(map.get("a"), Some(&3));
    assert_eq!(map.get("b"), Some(&2));
    assert_eq!(map.get(""), Some(&0));
    assert_eq!(map.get("A"), None);
    assert_eq!(map.get("ab"), None);
    assert_eq!(map.position("b"), Some(1));
    assert_eq!(
        map.entries(),
        &vec![("a".to_string(), 3), ("b".to_string(), 2), ("".to_string(), 0)]
    );
    assert_eq!(map.remove("b"), Some(2));
    assert_eq!(map.remove("b"), None);
    assert!(!map.contains_key("b"));
    assert!(map.contains_key("a"));
    assert_eq!(map.entries(), &vec![("a".to_string(), 3), ("".to_string(), 0)]);
    assert_eq!(map.insert("b".to_string(), 4), None);
    assert_eq!(map.position("b"), Some(2));
}

#[test]
fn store_creates_finds_and_destroys() {
    let mut store = ContextStore::new();
    assert!(store.get("").is_none());
    let id = store.create(Some("{\"n\": 1, \"s\": \"text\"}".to_string()));
    let context = store.get(&id).expect("the context was just created");
    assert_eq!(context.get_state("n"), Some(json("1")));
    assert_eq!(context.get_state("s"), Some(json("\"text\"")));
    assert_eq!(context.get_state("missing"), None);
    assert_eq!(context.get_state("N"), None);
    let all = context.get_all_state();
    assert_eq!(all.get("n"), Some(&json("1")));
    assert_eq!(all.get("s"), Some(&json("\"text\"")));
    assert_eq!(all.entries().len(), 2);
    let empty = store.create(None);
    assert_ne!(empty, id);
    assert_eq!(store.get(&empty).expect("created").get_all_state().entries().len(), 0);
    let dropped = store.create(Some("\"no object\"".to_string()));
    assert_eq!(store.get(&dropped).expect("created").get_all_state().entries().len(), 0);
    assert!(store.destroy(&id));
    assert!(store.get(&id).is_none());
    assert!(!store.destroy(&id));
    assert!(store.get(&empty).is_some());
}

/// A handler that writes what it is told to, and remembers what it found.
struct Recorder {
    found: Mutex<Vec<Option<Value>>>,
}

impl Handler for Recorder {
    fn call(&self, context: &mut ExecutionContext, arguments: Value) -> Result<Value, String> {
        self.found.lock().unwrap().push(context.get_state("slot"));
        if arguments.is_null() {
            return Err("nothing to write".to_string());
        }
        context.set_state("slot".to_string(), arguments.clone());
        context.set_state("slot".to_string(), arguments.clone());
        context.set_state("other".to_string(), Value::from(1));
        assert_eq!(context.get_state("slot"), Some(arguments.clone()));
        assert_eq!(context.get_all_state().entries().len(), 2);
        Ok(arguments)
    }
}

fn registry() -> FunctionRegistry<Recorder> {
    let mut registry = FunctionRegistry::new();
    registry.register(
        "record".to_string(),
        Recorder { found: Mutex::new(Vec::new()) },
        FunctionMetadata {
            description: "records".to_string(),
            is_stateful: true,
            parameter_types: vec!["any".to_string()],
            return_type: "any".to_string(),
        },
    );
    registry
}

fn found(registry: &FunctionRegistry<Recorder>) -> Vec<Option<Value>> {
    registry.resolve("record").expect("registered").found.lock().unwrap().clone()
}

#[test]
fn dispatcher_hands_the_context_state_to_the_handler() {
    let registry = registry();
    let mut store = ContextStore::new();
    let id = store.create(Some("{\"slot\": \"seed\"}".to_string()));
    match invoke(&registry, &mut store, "record", "[1, 2]", &id) {
        InvocationOutcome::Success { value, latency_us } => {
            assert_eq!(value, json("[1,2]"));
            assert!(latency_us >= 0);
        }
        InvocationOutcome::Failure { message, .. } => panic!("failed: {}", message),
    }
    match invoke(&registry, &mut store, "record", "{\"k\": true}", "") {
        InvocationOutcome::Success { value, .. } => assert_eq!(value, json("{\"k\": true}")),
        InvocationOutcome::Failure { message, .. } => panic!("failed: {}", message),
    }
    match invoke(&registry, &mut store, "record", "null", &id) {
        InvocationOutcome::Failure { kind, message } => {
            assert_eq!(kind, ErrorKind::HandlerError);
            assert_eq!(message, "nothing to write");
        }
        InvocationOutcome::Success { .. } => panic!("the handler was to fail"),
    }
    assert_eq!(found(&registry), vec![Some(json("\"seed\"")), None, Some(json("[1,2]"))]);
    assert_eq!(store.get(&id).expect("live").get_state("other"), Some(json("1")));
}

#[test]
fn dispatcher_turns_away_in_order() {
    let registry = registry();
    let mut store = ContextStore::new();
    let kinds = |outcome: InvocationOutcome| match outcome {
        InvocationOutcome::Failure { kind, message } => (kind, message),
        InvocationOutcome::Success { .. } => panic!("the invocation was to be turned away"),
    };
    assert_eq!(
        kinds(invoke(&registry, &mut store, "missing", "{", "gone")),
        (ErrorKind::MethodNotFound, "Method not found: missing".to_string())
    );
    assert_eq!(
        kinds(invoke(&registry, &mut store, "record", "{", "gone")),
        (
            ErrorKind::InvalidArguments,
            "Invalid JSON arguments: EOF while parsing an object at line 1 column 1".to_string()
        )
    );
    assert_eq!(
        kinds(invoke(&registry, &mut store, "record", "{}", "gone")),
        (ErrorKind::ContextNotFound, "Context not found: gone".to_string())
    );
    assert!(found(&registry).is_empty());
}

#[test]
fn outcome_becomes_a_response() {
    let success = InvokeMethodResponse::from_outcome(InvocationOutcome::from_handler(
        Ok(json("{\"b\": [1.5, \"\\u00e9\"], \"a\": null}")),
        42,
    ));
    assert!(success.success);
    assert_eq!(success.result, "{\"a\":null,\"b\":[1.5,\"\u{00E9}\"]}");
    assert_eq!(success.error, "");
    let metadata = success.metadata.expect("success carries metadata");
    assert_eq!(metadata.execution_time_us, 42);
    assert_eq!(metadata.memory_bytes, 0);
    assert_eq!(metadata.runtime, "rust");

    let failure = InvokeMethodResponse::from_outcome(InvocationOutcome::from_handler(
        Err("it broke".to_string()),
        42,
    ));
    assert!(!failure.success);
    assert_eq!(failure.result, "");
    assert_eq!(failure.error, "it broke");
    assert!(failure.metadata.is_none());
}

#[test]
fn registry_resolves_and_lists() {
    let mut registry = registry();
    assert!(registry.resolve("record").is_some());
    assert!(registry.resolve("Record").is_none());
    assert!(registry.resolve("").is_none());
    registry.register(
        "recall".to_string(),
        Recorder { found: Mutex::new(Vec::new()) },
        FunctionMetadata {
            description: "recalls".to_string(),
            is_stateful: false,
            parameter_types: Vec::new(),
            return_type: "none".to_string(),
        },
    );
    let listed = registry.list("rec");
    assert_eq!(listed.len(), 2);
    assert_eq!(listed[0].name, "record");
    assert_eq!(listed[0].description, "records");
    assert_eq!(listed[1].name, "recall");
    assert_eq!(listed[1].return_type, "none");
    assert_eq!(registry.list("reco").len(), 1);
    assert_eq!(registry.list("").len(), 2);
    assert_eq!(registry.list("x").len(), 0);
}
