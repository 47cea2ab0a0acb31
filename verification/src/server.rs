//! The stateful execution service: the registry, the context store and the dispatcher
//! behind five operations, each of which answers with a response and never fails past it.

use crate::context::{initial_state, is_uuid_text, ContextStore, StateView, StoreView};
use crate::dispatch::{dispatched, invoke, InvocationOutcome};
use crate::json::{encode_json, encode_state, json_text, state_text};
use crate::registry::{
    infos_view, listed, lists_exactly, FunctionMetadata, FunctionRegistry, Handler, MethodInfo,
    RegisteredFunction,
};
use crate::string_map::{distinct_keys, listing_map, listing_with};
use vstd::prelude::*;
use vstd::string::StringExecFns;

verus! {

/// The answer to a request for a new context.
#[derive(Debug)]
pub struct CreateContextResponse {
    pub context_id: String,
    pub success: bool,
    pub error: String,
}

/// How a successful invocation ran.
#[derive(Debug)]
pub struct ExecutionMetadata {
    pub execution_time_us: i64,
    pub memory_bytes: i64,
    pub runtime: String,
}

/// The answer to an invocation.
#[derive(Debug)]
pub struct InvokeMethodResponse {
    pub success: bool,
    pub result: String,
    pub error: String,
    pub metadata: Option<ExecutionMetadata>,
}

/// The answer to a request for a context's state.
#[derive(Debug)]
pub struct InspectStateResponse {
    pub success: bool,
    pub state: String,
    pub error: String,
}

/// The answer to a request to destroy a context.
#[derive(Debug)]
pub struct DestroyContextResponse {
    pub success: bool,
    pub error: String,
}

/// The registry entry for a handler with what describes it.
pub open spec fn registered<H>(
    handler: H,
    description: String,
    is_stateful: bool,
    parameter_types: Vec<String>,
    return_type: String,
) -> RegisteredFunction<H> {
    RegisteredFunction {
        handler,
        metadata: FunctionMetadata { description, is_stateful, parameter_types, return_type },
    }
}

/// The initial state that a creation request asks for: an empty text asks for none.
pub open spec fn requested_state(initial_state: Seq<char>) -> Option<Seq<char>> {
    if initial_state.len() == 0 {
        None
    } else {
        Some(initial_state)
    }
}

/// The result text of a successful invocation: the compact JSON text of the value, or
/// `null` where the value cannot be encoded.
pub open spec fn result_text(value: serde_json::Value) -> Seq<char> {
    match json_text(value) {
        Ok(text) => text,
        Err(_) => "null"@,
    }
}

/// Whether `response` is the answer that goes with `outcome`.
///
/// Success carries the result text and the metadata with the measured latency, no error;
/// failure carries the error message, no result and no metadata.
pub open spec fn answers(response: InvokeMethodResponse, outcome: InvocationOutcome) -> bool {
    match outcome {
        InvocationOutcome::Success { value, latency_us } => {
            &&& response.success
            &&& response.result@ == result_text(value)
            &&& response.error@.len() == 0
            &&& response.metadata matches Some(metadata)
            &&& metadata.execution_time_us == latency_us
            &&& metadata.memory_bytes == 0
            &&& metadata.runtime@ == "rust"@
        },
        InvocationOutcome::Failure { kind, message } => {
            &&& !response.success
            &&& response.result@.len() == 0
            &&& response.error@ == message@
            &&& response.metadata is None
        },
    }
}

/// The state text of an inspection: the compact JSON text of the state, members in the
/// order of their keys, or `{}` where the state cannot be encoded.
pub open spec fn inspected_text(state: StateView) -> Seq<char> {
    match state_text(state) {
        Some(text) => text,
        None => "{}"@,
    }
}

/// Whether `response` is the answer to an inspection of the context under `context_id`.
pub open spec fn inspects(response: InspectStateResponse, contexts: StoreView, context_id: Seq<char>) -> bool {
    if contexts.contains_key(context_id) {
        &&& response.success
        &&& response.state@ == inspected_text(contexts[context_id])
        &&& response.error@.len() == 0
    } else {
        &&& !response.success
        &&& response.state@.len() == 0
        &&& response.error@ == "Context not found: "@ + context_id
    }
}

impl InvokeMethodResponse {
    /// The answer that goes with `outcome`.
    pub fn from_outcome(outcome: InvocationOutcome) -> (response: Self)
        ensures
            answers(response, outcome),
    {
        match outcome {
            InvocationOutcome::Success { value, latency_us } => {
                let result = match encode_json(&value) {
                    Ok(text) => text,
                    Err(_) => String::from_str("null"),
                };
                InvokeMethodResponse {
                    success: true,
                    result,
                    error: String::new(),
                    metadata: Some(
                        ExecutionMetadata {
                            execution_time_us: latency_us,
                            memory_bytes: 0,
                            runtime: String::from_str("rust"),
                        },
                    ),
                }
            },
            InvocationOutcome::Failure { kind, message } => InvokeMethodResponse {
                success: false,
                result: String::new(),
                error: message,
                metadata: None,
            },
        }
    }
}

/// The service, for handlers of type `H`.
pub struct TranspileTestServer<H: Handler> {
    registry: FunctionRegistry<H>,
    contexts: ContextStore,
}

impl<H: Handler> TranspileTestServer<H> {
    /// Every registered function, by name.
    pub closed spec fn functions(&self) -> Map<Seq<char>, RegisteredFunction<H>> {
        self.registry@
    }

    /// Every registered function, in the order in which the names were first registered.
    pub closed spec fn listing(&self) -> Seq<(String, RegisteredFunction<H>)> {
        self.registry.listing()
    }

    /// The functions are those that the listing denotes.
    pub proof fn lemma_functions_of_listing(&self)
        ensures
            self.functions() == listing_map(self.listing()),
    {
        self.registry.lemma_view_of_listing();
    }

    /// The state of every live context, by context identifier.
    pub closed spec fn contexts(&self) -> StoreView {
        self.contexts@
    }

    /// A service without functions and without contexts.
    pub fn new() -> (server: Self)
        ensures
            server.functions() == Map::<Seq<char>, RegisteredFunction<H>>::empty(),
            server.listing().len() == 0,
            server.contexts() == Map::<Seq<char>, StateView>::empty(),
    {
        TranspileTestServer { registry: FunctionRegistry::new(), contexts: ContextStore::new() }
    }

    /// Registers `func` under `name`, with what describes it, in the place of what was
    /// registered under that name before. The contexts stay as they are.
    pub fn register_function(
        &mut self,
        name: String,
        func: H,
        description: String,
        is_stateful: bool,
        parameter_types: Vec<String>,
        return_type: String,
    )
        ensures
            final(self).functions() == old(self).functions().insert(
                name@,
                registered(func, description, is_stateful, parameter_types, return_type),
            ),
            final(self).listing() == listing_with(
                old(self).listing(),
                name,
                registered(func, description, is_stateful, parameter_types, return_type),
            ),
            final(self).contexts() == old(self).contexts(),
    {
        let metadata = FunctionMetadata { description, is_stateful, parameter_types, return_type };
        self.registry.register(name, func, metadata);
    }

    /// Creates a context and answers with its identifier.
    ///
    /// This always succeeds. The context starts with the members of the JSON object that
    /// `initial_state` denotes; where the text is empty or denotes no JSON object, it starts
    /// empty. The identifier is a random UUID as it is printed, and so never empty.
    pub fn create_context(&mut self, initial_state: &str) -> (response: CreateContextResponse)
        ensures
            response.success,
            response.error@.len() == 0,
            is_uuid_text(response.context_id@),
            final(self).contexts() == old(self).contexts().insert(
                response.context_id@,
                self::initial_state(requested_state(initial_state@)),
            ),
            final(self).functions() == old(self).functions(),
            final(self).listing() == old(self).listing(),
    {
        let requested = if initial_state.is_empty() {
            None
        } else {
            Some(initial_state.to_owned())
        };
        let context_id = self.contexts.create(requested);
        CreateContextResponse { context_id, success: true, error: String::new() }
    }

    /// Invokes `method_name` on the arguments that `arguments` denotes, in the context under
    /// `context_id`, or in a throwaway context with empty state where `context_id` is empty.
    ///
    /// The answer goes with an outcome that `dispatched` allows. The registry stays as it
    /// is.
    pub fn invoke_method(&mut self, context_id: &str, method_name: &str, arguments: &str) -> (response:
        InvokeMethodResponse)
        ensures
            exists|outcome: InvocationOutcome|
                {
                    &&& #[trigger] dispatched(
                        old(self).functions(),
                        old(self).contexts(),
                        method_name@,
                        arguments@,
                        context_id@,
                        outcome,
                        final(self).contexts(),
                    )
                    &&& answers(response, outcome)
                },
            final(self).functions() == old(self).functions(),
            final(self).listing() == old(self).listing(),
    {
        let outcome = invoke(&self.registry, &mut self.contexts, method_name, arguments, context_id);
        let ghost reported = outcome;
        let response = InvokeMethodResponse::from_outcome(outcome);
        assert(dispatched(
            old(self).functions(),
            old(self).contexts(),
            method_name@,
            arguments@,
            context_id@,
            reported,
            self.contexts(),
        ));
        response
    }

    /// Answers with the state of the context under `context_id`, as JSON text.
    ///
    /// The service is only read. The answer depends on nothing but the state of that
    /// context, so two inspections with no operation between them answer alike.
    pub fn inspect_state(&self, context_id: &str) -> (response: InspectStateResponse)
        ensures
            inspects(response, self.contexts(), context_id@),
    {
        match self.contexts.get(context_id) {
            Some(context) => {
                let state = match encode_state(context.entries()) {
                    Some(text) => text,
                    None => String::from_str("{}"),
                };
                InspectStateResponse { success: true, state, error: String::new() }
            },
            None => {
                let mut error = String::from_str("Context not found: ");
                error.append(context_id);
                InspectStateResponse { success: false, state: String::new(), error }
            },
        }
    }

    /// Destroys the context under `context_id`.
    ///
    /// Succeeds exactly when there was such a context. Every other context stays as it is.
    pub fn destroy_context(&mut self, context_id: &str) -> (response: DestroyContextResponse)
        ensures
            response.success == old(self).contexts().contains_key(context_id@),
            response.success ==> response.error@.len() == 0,
            !response.success ==> response.error@ == "Context not found: "@ + context_id@,
            final(self).contexts() == old(self).contexts().remove(context_id@),
            final(self).functions() == old(self).functions(),
            final(self).listing() == old(self).listing(),
    {
        if self.contexts.destroy(context_id) {
            DestroyContextResponse { success: true, error: String::new() }
        } else {
            let mut error = String::from_str("Context not found: ");
            error.append(context_id);
            DestroyContextResponse { success: false, error }
        }
    }

    /// The listing entries of the functions whose names begin with `prefix`, in the order
    /// in which their names were first registered. The empty prefix selects them all.
    ///
    /// Each registered function with such a name is listed once, with the metadata that
    /// was last registered under its name, and nothing else is listed.
    pub fn list_methods(&self, prefix: &str) -> (methods: Vec<MethodInfo>)
        ensures
            infos_view(methods@) == listed(self.listing(), prefix@),
            distinct_keys(self.listing()),
            lists_exactly(infos_view(methods@), self.functions(), prefix@),
    {
        self.registry.list(prefix)
    }
}

impl<H: Handler> Default for TranspileTestServer<H> {
    fn default() -> (server: Self)
        ensures
            server.functions() == Map::<Seq<char>, RegisteredFunction<H>>::empty(),
            server.listing().len() == 0,
            server.contexts() == Map::<Seq<char>, StateView>::empty(),
    {
        TranspileTestServer::new()
    }
}

} // verus!
