use std::sync::atomic::{AtomicUsize, Ordering};
use std::sync::Arc;

use serde_json::Value;
use transpile_test::context::ExecutionContext;
use transpile_test::registry::Handler;
use transpile_test::server::TranspileTestServer;

/// The functions that the service under test offers.
enum Function {
    Add,
    CounterIncrement,
    CounterGet,
    Remember,
    Fail,
    StoreThenFail,
    Counted(Arc<AtomicUsize>),
    Busy { micros: u128 },
}

fn integer(arguments: &Value, name: &str) -> Result<i64, String> {
    arguments
        .get(name)
        .and_then(|value| value.as_i64())
        .ok_or(format!("Missing or invalid '{}'", name))
}

fn counter(context: &ExecutionContext) -> i64 {
    context.get_state("counter").and_then(|value| value.as_i64()).unwrap_or(0)
}

impl Handler for Function {
    fn call(&self, context: &mut ExecutionContext, arguments: Value) -> Result<Value, String> {
        match self {
            Function::Add => {
                let a = integer(&arguments, "a")?;
                let b = integer(&arguments, "b")?;
                Ok(Value::from(a + b))
            }
            Function::CounterIncrement => {
                let next = counter(context) + 1;
                context.set_state("counter".to_string(), Value::from(next));
                Ok(Value::from(next))
            }
            Function::CounterGet => Ok(Value::from(counter(context))),
            Function::Remember => {
                let key = arguments.get("key").and_then(|key| key.as_str()).ok_or("no key")?;
                let value = arguments.get("value").cloned().unwrap_or(Value::Null);
                context.set_state(key.to_string(), value);
                Ok(Value::Null)
            }
            Function::Fail => Err("boom: 'quoted' \u{1F4A5}".to_string()),
            Function::StoreThenFail => {
                context.set_state("touched".to_string(), Value::from(true));
                Err("failed after writing".to_string())
            }
            Function::Busy { micros } => {
                let start = std::time::Instant::now();
                while start.elapsed().as_micros() < *micros {
                    std::hint::spin_loop();
                }
                Ok(Value::Null)
            }
            Function::Counted(calls) => {
                calls.fetch_add(1, Ordering::SeqCst);
                Ok(Value::from("called"))
            }
        }
    }
}

fn register(server: &mut TranspileTestServer<Function>, name: &str, function: Function, stateful: bool) {
    server.register_function(
        name.to_string(),
        function,
        format!("the function {}", name),
        stateful,
        vec!["int".to_string()],
        "int".to_string(),
    );
}

fn service() -> TranspileTestServer<Function> {
    let mut server = TranspileTestServer::new();
    register(&mut server, "add", Function::Add, false);
    register(&mut server, "counter_increment", Function::CounterIncrement, true);
    register(&mut server, "counter_get", Function::CounterGet, true);
    register(&mut server, "remember", Function::Remember, true);
    register(&mut server, "fail", Function::Fail, false);
    register(&mut server, "store_then_fail", Function::StoreThenFail, true);
    server
}

#[test]
fn add_returns_the_sum() {
    let mut server = service();
    let response = server.invoke_method("", "add", "{\"a\": 2, \"b\": 3}");
    assert!(response.success);
    assert_eq!(response.result, "5");
    assert_eq!(response.error, "");
    let metadata = response.metadata.expect("a successful call carries metadata");
    assert!(metadata.execution_time_us >= 0);
    assert_eq!(metadata.memory_bytes, 0);
    assert_eq!(metadata.runtime, "rust");
}

#[test]
fn counter_counts_per_context() {
    let mut server = service();
    let first = server.create_context("").context_id;
    let one = server.invoke_method(&first, "counter_increment", "{}");
    assert!(one.success);
    assert_eq!(one.result, "1");
    let two = server.invoke_method(&first, "counter_increment", "{}");
    assert_eq!(two.result, "2");
    let second = server.create_context("").context_id;
    let again = server.invoke_method(&second, "counter_increment", "{}");
    assert_eq!(again.result, "1");
    assert_eq!(server.invoke_method(&first, "counter_get", "null").result, "2");
}

#[test]
fn unregistered_method_is_not_found() {
    let mut server = service();
    let response = server.invoke_method("", "nope", "{}");
    assert!(!response.success);
    assert_eq!(response.result, "");
    assert_eq!(response.error, "Method not found: nope");
    assert!(response.metadata.is_none());
}

#[test]
fn method_is_checked_before_arguments_and_context() {
    let mut server = service();
    let response = server.invoke_method("no-such-context", "nope", "not json");
    assert_eq!(response.error, "Method not found: nope");
    let response = server.invoke_method("no-such-context", "add", "not json");
    assert_eq!(response.error, "Invalid JSON arguments: expected ident at line 1 column 2");
    let response = server.invoke_method("no-such-context", "add", "{}");
    assert_eq!(response.error, "Context not found: no-such-context");
}

#[test]
fn method_names_are_matched_exactly() {
    let mut server = service();
    assert_eq!(server.invoke_method("", "Add", "{}").error, "Method not found: Add");
    assert_eq!(server.invoke_method("", "add ", "{}").error, "Method not found: add ");
    assert_eq!(server.invoke_method("", "ad", "{}").error, "Method not found: ad");
    assert_eq!(server.invoke_method("", "", "{}").error, "Method not found: ");
}

#[test]
fn malformed_arguments_run_no_handler() {
    let calls = Arc::new(AtomicUsize::new(0));
    let mut server = TranspileTestServer::new();
    register(&mut server, "counted", Function::Counted(calls.clone()), false);
    let response = server.invoke_method("", "counted", "{\"a\": ");
    assert!(!response.success);
    assert_eq!(response.result, "");
    assert_eq!(
        response.error,
        "Invalid JSON arguments: EOF while parsing a value at line 1 column 6"
    );
    assert!(response.metadata.is_none());
    assert_eq!(calls.load(Ordering::SeqCst), 0);
    let response = server.invoke_method("", "counted", "");
    assert_eq!(
        response.error,
        "Invalid JSON arguments: EOF while parsing a value at line 1 column 0"
    );
    assert_eq!(calls.load(Ordering::SeqCst), 0);
    let response = server.invoke_method("", "counted", "[]");
    assert!(response.success);
    assert_eq!(response.result, "\"called\"");
    assert_eq!(calls.load(Ordering::SeqCst), 1);
}

#[test]
fn handler_error_is_reported_word_for_word() {
    let mut server = service();
    let response = server.invoke_method("", "fail", "{}");
    assert!(!response.success);
    assert_eq!(response.result, "");
    assert_eq!(response.error, "boom: 'quoted' \u{1F4A5}");
    assert!(response.metadata.is_none());
    let response = server.invoke_method("", "add", "{\"a\": 2}");
    assert_eq!(response.error, "Missing or invalid 'b'");
}

#[test]
fn handler_error_keeps_what_the_handler_wrote() {
    let mut server = service();
    let id = server.create_context("").context_id;
    let response = server.invoke_method(&id, "store_then_fail", "{}");
    assert_eq!(response.error, "failed after writing");
    assert_eq!(server.inspect_state(&id).state, "{\"touched\":true}");
}

#[test]
fn context_lives_until_destroyed() {
    let mut server = service();
    let created = server.create_context("");
    assert!(created.success);
    assert_eq!(created.error, "");
    let id = created.context_id;
    assert!(server.inspect_state(&id).success);
    assert!(server.invoke_method(&id, "counter_increment", "{}").success);
    let other = server.create_context("").context_id;
    assert!(server.destroy_context(&other).success);
    assert!(server.inspect_state(&id).success);
    assert_eq!(server.invoke_method(&id, "counter_get", "{}").result, "1");

    let destroyed = server.destroy_context(&id);
    assert!(destroyed.success);
    assert_eq!(destroyed.error, "");
    let inspected = server.inspect_state(&id);
    assert!(!inspected.success);
    assert_eq!(inspected.state, "");
    assert_eq!(inspected.error, format!("Context not found: {}", id));
    let invoked = server.invoke_method(&id, "counter_increment", "{}");
    assert!(!invoked.success);
    assert_eq!(invoked.error, format!("Context not found: {}", id));
    assert!(invoked.metadata.is_none());
    assert!(!server.inspect_state(&id).success);
    let again = server.destroy_context(&id);
    assert!(!again.success);
    assert_eq!(again.error, format!("Context not found: {}", id));
}

#[test]
fn context_identifiers_are_fresh_uuids() {
    let mut server = service();
    let first = server.create_context("").context_id;
    let second = server.create_context("").context_id;
    assert_ne!(first, second);
    for id in [&first, &second] {
        assert_eq!(id.chars().count(), 36);
        for (place, character) in id.chars().enumerate() {
            if place == 8 || place == 13 || place == 18 || place == 23 {
                assert_eq!(character, '-');
            } else {
                assert!(character.is_ascii_digit() || ('a'..='f').contains(&character));
            }
        }
    }
}

#[test]
fn stateless_invocations_do_not_see_each_other() {
    let mut server = service();
    assert_eq!(server.invoke_method("", "counter_increment", "{}").result, "1");
    assert_eq!(server.invoke_method("", "counter_increment", "{}").result, "1");
    assert_eq!(server.invoke_method("", "counter_get", "{}").result, "0");
    let id = server.create_context("").context_id;
    assert_eq!(server.invoke_method("", "counter_increment", "{}").result, "1");
    assert_eq!(server.inspect_state(&id).state, "{}");
}

#[test]
fn contexts_are_isolated() {
    let mut server = service();
    let first = server.create_context("{\"counter\": 10}").context_id;
    let second = server.create_context("{\"counter\": 20}").context_id;
    assert_eq!(server.invoke_method(&first, "counter_increment", "{}").result, "11");
    assert_eq!(server.inspect_state(&second).state, "{\"counter\":20}");
    assert_eq!(server.invoke_method(&second, "counter_get", "{}").result, "20");
    assert_eq!(server.inspect_state(&first).state, "{\"counter\":11}");
    assert!(server.destroy_context(&first).success);
    assert_eq!(server.inspect_state(&second).state, "{\"counter\":20}");
}

#[test]
fn inspection_repeats() {
    let mut server = service();
    let id = server.create_context("{\"b\": [1, 2.5, \"x\"], \"a\": {\"z\": null}}").context_id;
    let first = server.inspect_state(&id);
    let second = server.inspect_state(&id);
    assert!(first.success);
    assert_eq!(first.state, "{\"a\":{\"z\":null},\"b\":[1,2.5,\"x\"]}");
    assert_eq!(first.success, second.success);
    assert_eq!(first.state, second.state);
    assert_eq!(first.error, second.error);
    let missing = server.inspect_state("missing");
    assert_eq!(missing.error, server.inspect_state("missing").error);
}

#[test]
fn inspection_lists_members_by_key() {
    let mut server = service();
    let id = server.create_context("").context_id;
    for key in ["pear", "apple", "zebra", "mango"] {
        let arguments = format!("{{\"key\": \"{}\", \"value\": 1}}", key);
        assert!(server.invoke_method(&id, "remember", &arguments).success);
    }
    assert!(server.invoke_method(&id, "remember", "{\"key\": \"apple\", \"value\": 2}").success);
    assert_eq!(
        server.inspect_state(&id).state,
        "{\"apple\":2,\"mango\":1,\"pear\":1,\"zebra\":1}"
    );
}

#[test]
fn initial_state_is_parsed_or_dropped() {
    let mut server = service();
    let seeded = server.create_context("{\"counter\": 41}").context_id;
    assert_eq!(server.invoke_method(&seeded, "counter_increment", "{}").result, "42");

    let malformed = server.create_context("{\"counter\": ");
    assert!(malformed.success);
    assert_eq!(malformed.error, "");
    assert_eq!(server.inspect_state(&malformed.context_id).state, "{}");

    let no_object = server.create_context("[1, 2, 3]");
    assert!(no_object.success);
    assert_eq!(server.inspect_state(&no_object.context_id).state, "{}");

    let repeated = server.create_context("{\"a\": 1, \"a\": 2}").context_id;
    assert_eq!(server.inspect_state(&repeated).state, "{\"a\":2}");
}

#[test]
fn methods_are_listed_by_prefix() {
    let server = service();
    let all = server.list_methods("");
    let names: Vec<&str> = all.iter().map(|info| info.name.as_str()).collect();
    assert_eq!(
        names,
        vec!["add", "counter_increment", "counter_get", "remember", "fail", "store_then_fail"]
    );
    let counters = server.list_methods("counter_");
    let names: Vec<&str> = counters.iter().map(|info| info.name.as_str()).collect();
    assert_eq!(names, vec!["counter_increment", "counter_get"]);
    assert_eq!(counters[0].description, "the function counter_increment");
    assert!(counters[0].is_stateful);
    assert_eq!(counters[0].parameter_types, vec!["int".to_string()]);
    assert_eq!(counters[0].return_type, "int");
    assert!(server.list_methods("Counter").is_empty());
    assert!(server.list_methods("counter_increment_more").is_empty());
    assert_eq!(server.list_methods("add").len(), 1);
    assert!(!server.list_methods("add")[0].is_stateful);
}

#[test]
fn registering_again_overwrites() {
    let mut server = service();
    server.register_function(
        "add".to_string(),
        Function::Fail,
        "no longer adds".to_string(),
        true,
        Vec::new(),
        "never".to_string(),
    );
    assert_eq!(server.invoke_method("", "add", "{}").error, "boom: 'quoted' \u{1F4A5}");
    let listed = server.list_methods("");
    assert_eq!(listed.len(), 6);
    assert_eq!(listed[0].name, "add");
    assert_eq!(listed[0].description, "no longer adds");
    assert!(listed[0].is_stateful);
    assert!(listed[0].parameter_types.is_empty());
    assert_eq!(listed[0].return_type, "never");
    assert_eq!(server.invoke_method("", "counter_get", "{}").result, "0");
}

#[test]
fn resolving_is_stable() {
    let mut server = service();
    let first = server.invoke_method("", "add", "{\"a\": 1, \"b\": 1}");
    let id = server.create_context("").context_id;
    server.invoke_method(&id, "counter_increment", "{}");
    server.destroy_context(&id);
    register(&mut server, "other", Function::Fail, false);
    let second = server.invoke_method("", "add", "{\"a\": 1, \"b\": 1}");
    assert_eq!(first.result, "2");
    assert_eq!(second.result, "2");
}

#[test]
fn new_and_default_services_are_empty() {
    let mut server: TranspileTestServer<Function> = TranspileTestServer::default();
    assert!(server.list_methods("").is_empty());
    assert!(!server.inspect_state("").success);
    assert_eq!(server.invoke_method("", "add", "{}").error, "Method not found: add");
    let mut server: TranspileTestServer<Function> = TranspileTestServer::new();
    assert!(server.list_methods("").is_empty());
    assert!(!server.destroy_context("anything").success);
}

#[test]
fn context_state_is_read_and_written() {
    let mut server = service();
    let id = server.create_context("{\"kept\": \"yes\"}").context_id;
    assert!(server
        .invoke_method(&id, "remember", "{\"key\": \"added\", \"value\": [1, 2]}")
        .success);
    assert_eq!(server.inspect_state(&id).state, "{\"added\":[1,2],\"kept\":\"yes\"}");
}

#[test]
fn latency_is_the_time_the_handler_took() {
    let mut server = TranspileTestServer::new();
    register(&mut server, "busy", Function::Busy { micros: 3000 }, false);
    let started = std::time::Instant::now();
    let response = server.invoke_method("", "busy", "{}");
    let whole_call = started.elapsed().as_micros() as i64;
    assert!(response.success);
    let latency = response.metadata.expect("a successful call carries metadata").execution_time_us;
    assert!(latency >= 3000);
    assert!(latency <= whole_call);
}
