//! The invocation dispatcher: from a method name, an argument text and a context
//! identifier to the outcome of one call.

use crate::context::{ContextStore, ExecutionContext, StateView, StoreView};
use crate::json::{describe_error, error_text, parse_json, parsed_json};
use crate::registry::{FunctionRegistry, Handler, RegisteredFunction};
use vstd::prelude::*;
use vstd::string::StringExecFns;

verus! {

/// Why an invocation failed.
#[derive(Clone, Copy, Debug, PartialEq, Eq, Structural)]
pub enum ErrorKind {
    /// No function is registered under the method name.
    MethodNotFound,
    /// The argument text is not well-formed JSON.
    InvalidArguments,
    /// No live context has the identifier.
    ContextNotFound,
    /// The handler ran and returned an error.
    HandlerError,
}

/// How one invocation ended: with a value and the time the handler took, or with an error.
#[derive(Debug)]
pub enum InvocationOutcome {
    Success { value: serde_json::Value, latency_us: i64 },
    Failure { kind: ErrorKind, message: String },
}

/// The error that turns an invocation away before any handler runs, if there is one.
///
/// The method name is looked at first, then the argument text, then the context
/// identifier; the empty identifier asks for no context and is never turned away.
pub open spec fn rejection<H: Handler>(
    registry: Map<Seq<char>, RegisteredFunction<H>>,
    store: StoreView,
    method_name: Seq<char>,
    arguments: Seq<char>,
    context_id: Seq<char>,
) -> Option<(ErrorKind, Seq<char>)> {
    if !registry.contains_key(method_name) {
        Some((ErrorKind::MethodNotFound, "Method not found: "@ + method_name))
    } else if let Err(error) = parsed_json(arguments) {
        Some((ErrorKind::InvalidArguments, "Invalid JSON arguments: "@ + error_text(error)))
    } else if context_id.len() > 0 && !store.contains_key(context_id) {
        Some((ErrorKind::ContextNotFound, "Context not found: "@ + context_id))
    } else {
        None
    }
}

/// The state that the handler finds: that of the named context, or the empty state of a
/// throwaway context where no context is named.
pub open spec fn state_found(store: StoreView, context_id: Seq<char>) -> StateView {
    if context_id.len() == 0 {
        Map::empty()
    } else {
        store[context_id]
    }
}

/// The store after a handler has left the state `after` behind: the named context holds
/// it; where no context is named it is discarded and the store is as it was.
pub open spec fn store_left(store: StoreView, context_id: Seq<char>, after: StateView) -> StoreView {
    if context_id.len() == 0 {
        store
    } else {
        store.insert(context_id, after)
    }
}

/// Whether `outcome` reports what the handler returned: its value with a latency that is
/// not negative, or its error text, word for word.
pub open spec fn reports(outcome: InvocationOutcome, returned: Result<serde_json::Value, String>) -> bool {
    match returned {
        Ok(value) => outcome matches InvocationOutcome::Success { value: reported, latency_us }
            && reported == value && latency_us >= 0,
        Err(error) => outcome matches InvocationOutcome::Failure { kind, message } && kind
            == ErrorKind::HandlerError && message@ == error@,
    }
}

/// Whether an invocation that starts from the store `before` may end with `outcome` and
/// the store `after`.
///
/// An invocation that is turned away ends with that error and changes nothing. Any other
/// runs the handler registered under the method name once, on the parsed arguments and
/// the state that `state_found` gives, and reports what it returned.
pub open spec fn dispatched<H: Handler>(
    registry: Map<Seq<char>, RegisteredFunction<H>>,
    before: StoreView,
    method_name: Seq<char>,
    arguments: Seq<char>,
    context_id: Seq<char>,
    outcome: InvocationOutcome,
    after: StoreView,
) -> bool {
    match rejection(registry, before, method_name, arguments, context_id) {
        Some((kind, message)) => {
            &&& after == before
            &&& outcome matches InvocationOutcome::Failure { kind: reported, message: text }
            &&& reported == kind
            &&& text@ == message
        },
        None => exists|returned: Result<serde_json::Value, String>, left: StateView|
            {
                &&& #[trigger] registry[method_name].handler.effect(
                    state_found(before, context_id),
                    parsed_json(arguments)->Ok_0,
                    returned,
                    left,
                )
                &&& after == store_left(before, context_id, left)
                &&& reports(outcome, returned)
            },
    }
}

impl InvocationOutcome {
    /// The failure of the given kind whose message is `prefix` followed by `detail`.
    fn failure(kind: ErrorKind, prefix: &str, detail: &str) -> (outcome: Self)
        ensures
            outcome matches InvocationOutcome::Failure { kind: reported, message } && reported
                == kind && message@ == prefix@ + detail@,
    {
        let mut message = String::from_str(prefix);
        message.append(detail);
        InvocationOutcome::Failure { kind, message }
    }

    /// The outcome that reports what a handler returned: its value with the latency
    /// measured around the call, or its error text, word for word and without a latency.
    pub fn from_handler(returned: Result<serde_json::Value, String>, latency_us: i64) -> (outcome:
        Self)
        ensures
            match returned {
                Ok(value) => outcome == (InvocationOutcome::Success { value, latency_us }),
                Err(error) => outcome == (InvocationOutcome::Failure {
                    kind: ErrorKind::HandlerError,
                    message: error,
                }),
            },
            latency_us >= 0 ==> reports(outcome, returned),
    {
        match returned {
            Ok(value) => InvocationOutcome::Success { value, latency_us },
            Err(error) => InvocationOutcome::Failure { kind: ErrorKind::HandlerError, message: error },
        }
    }
}

/// The whole microseconds of a duration as a latency: as they are, or the greatest latency
/// there is where they are more.
fn latency_of(spent: &std::time::Duration) -> (latency_us: i64)
    ensures
        latency_us == latency(crate::clock::whole_micros(*spent)),
{
    let micros = spent.as_micros();
    if micros > 0x7fff_ffff_ffff_ffff {
        i64::MAX
    } else {
        micros as i64
    }
}

/// The latency that stands for a number of microseconds: the number itself, or the
/// greatest latency there is where the number is greater.
pub open spec fn latency(micros: u128) -> i64 {
    if micros > i64::MAX {
        i64::MAX
    } else {
        micros as i64
    }
}

/// Runs `handler` in `context` on `arguments` and measures the time it takes, from just
/// before the call to just after it.
fn run_handler<H: Handler>(
    handler: &H,
    context: &mut ExecutionContext,
    arguments: serde_json::Value,
) -> (outcome: InvocationOutcome)
    ensures
        exists|returned: Result<serde_json::Value, String>|
            {
                &&& #[trigger] handler.effect(
                    old(context)@,
                    arguments,
                    returned,
                    final(context)@,
                )
                &&& reports(outcome, returned)
            },
{
    let start = std::time::Instant::now();
    let returned = handler.call(context, arguments);
    let spent = start.elapsed();
    let latency_us = latency_of(&spent);
    InvocationOutcome::from_handler(returned, latency_us)
}

/// Invokes the function registered under `method_name` on the arguments that
/// `arguments_json` denotes, in the context under `context_id`, or in a throwaway context
/// with empty state where `context_id` is empty.
pub fn invoke<H: Handler>(
    registry: &FunctionRegistry<H>,
    store: &mut ContextStore,
    method_name: &str,
    arguments_json: &str,
    context_id: &str,
) -> (outcome: InvocationOutcome)
    ensures
        dispatched(
            registry@,
            old(store)@,
            method_name@,
            arguments_json@,
            context_id@,
            outcome,
            final(store)@,
        ),
{
    let handler = match registry.resolve(method_name) {
        Some(handler) => handler,
        None => {
            return InvocationOutcome::failure(
                ErrorKind::MethodNotFound,
                "Method not found: ",
                method_name,
            );
        },
    };
    let arguments = match parse_json(arguments_json) {
        Ok(arguments) => arguments,
        Err(error) => {
            let detail = describe_error(&error);
            return InvocationOutcome::failure(
                ErrorKind::InvalidArguments,
                "Invalid JSON arguments: ",
                detail.as_str(),
            );
        },
    };
    if context_id.is_empty() {
        let mut context = ExecutionContext::new(crate::context::fresh_context_id(), None);
        let ghost found = context@;
        let outcome = run_handler(handler, &mut context, arguments);
        proof {
            let returned = choose|returned: Result<serde_json::Value, String>|
                {
                    &&& #[trigger] handler.effect(found, arguments, returned, context@)
                    &&& reports(outcome, returned)
                };
            assert(registry@[method_name@].handler.effect(
                state_found(old(store)@, context_id@),
                parsed_json(arguments_json@)->Ok_0,
                returned,
                context@,
            ));
        }
        outcome
    } else {
        match store.take(context_id) {
            Some(context) => {
                let mut context = context;
                let ghost found = context@;
                let outcome = run_handler(handler, &mut context, arguments);
                store.put(context_id.to_owned(), context);
                proof {
                    let returned = choose|returned: Result<serde_json::Value, String>|
                        {
                            &&& #[trigger] handler.effect(
                                found,
                                arguments,
                                returned,
                                context@,
                            )
                            &&& reports(outcome, returned)
                        };
                    assert(store@ =~= store_left(old(store)@, context_id@, context@));
                    assert(registry@[method_name@].handler.effect(
                        state_found(old(store)@, context_id@),
                        parsed_json(arguments_json@)->Ok_0,
                        returned,
                        context@,
                    ));
                }
                outcome
            },
            None => {
                assert(store@ =~= old(store)@);
                InvocationOutcome::failure(
                    ErrorKind::ContextNotFound,
                    "Context not found: ",
                    context_id,
                )
            },
        }
    }
}

} // verus!
