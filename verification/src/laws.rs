//! What holds of the service, the driver and the comparator, whatever the handlers and
//! the backends do.

use crate::comparator::{
    all_errored, common_result, diagnostic, results_agree, same_result, some_errored, verdict,
    BackendOutcome, Verdict,
};
use crate::context::{StateView, StoreView};
use crate::dispatch::{dispatched, rejection, reports, ErrorKind, InvocationOutcome};
use crate::driver::{
    answer_of, is_value_or_error, next_step, AnswerView, ProgressView, Reply, RequestView,
    RoundTripView,
};
use crate::json::{json_equal, parsed_json};
use crate::registry::{Handler, RegisteredFunction};
use crate::server::{inspects, requested_state, InspectStateResponse};
use vstd::prelude::*;

verus! {

/// The registry is stable: registering under one name leaves what every other name
/// resolves to as it was. (No other operation of the service changes the registry.)
pub proof fn law_registration_keeps_other_names<H: Handler>(
    functions: Map<Seq<char>, RegisteredFunction<H>>,
    registered: Seq<char>,
    function: RegisteredFunction<H>,
    name: Seq<char>,
)
    requires
        name != registered,
    ensures
        functions.insert(registered, function).contains_key(name) == functions.contains_key(name),
        functions.contains_key(name) ==> functions.insert(registered, function)[name]
            == functions[name],
{
}

/// One operation of the service, with what it answered where that matters for the store.
pub enum Operation {
    CreateContext { initial_state: Seq<char>, created: Seq<char> },
    InvokeMethod {
        context_id: Seq<char>,
        method_name: Seq<char>,
        arguments: Seq<char>,
        outcome: InvocationOutcome,
    },
    InspectState { context_id: Seq<char> },
    DestroyContext { context_id: Seq<char> },
    ListMethods { prefix: Seq<char> },
}

/// Whether the store `after` may follow the store `before` on `operation`, as the
/// contracts of the service have it.
pub open spec fn follows<H: Handler>(
    functions: Map<Seq<char>, RegisteredFunction<H>>,
    before: StoreView,
    operation: Operation,
    after: StoreView,
) -> bool {
    match operation {
        Operation::CreateContext { initial_state, created } => after == before.insert(
            created,
            crate::context::initial_state(requested_state(initial_state)),
        ),
        Operation::InvokeMethod { context_id, method_name, arguments, outcome } => dispatched(
            functions,
            before,
            method_name,
            arguments,
            context_id,
            outcome,
            after,
        ),
        Operation::InspectState { context_id } => after == before,
        Operation::DestroyContext { context_id } => after == before.remove(context_id),
        Operation::ListMethods { prefix } => after == before,
    }
}

/// The one context that an operation can create, change or destroy, if there is one.
pub open spec fn target(operation: Operation) -> Option<Seq<char>> {
    match operation {
        Operation::CreateContext { initial_state, created } => Some(created),
        Operation::InvokeMethod { context_id, method_name, arguments, outcome } => Some(context_id),
        Operation::InspectState { context_id } => None,
        Operation::DestroyContext { context_id } => Some(context_id),
        Operation::ListMethods { prefix } => None,
    }
}

/// Whether `stores` are the stores of a run of the service on `operations`: the store
/// before the first operation, and then the store after each.
pub open spec fn is_run<H: Handler>(
    functions: Map<Seq<char>, RegisteredFunction<H>>,
    stores: Seq<StoreView>,
    operations: Seq<Operation>,
) -> bool {
    &&& stores.len() == operations.len() + 1
    &&& forall|i: int|
        0 <= i < operations.len() ==> follows(
            functions,
            #[trigger] stores[i],
            operations[i],
            stores[i + 1],
        )
}

/// A context is live from the moment it is created, with the state it was created with.
pub proof fn law_created_context_is_live<H: Handler>(
    functions: Map<Seq<char>, RegisteredFunction<H>>,
    before: StoreView,
    initial_state: Seq<char>,
    created: Seq<char>,
    after: StoreView,
)
    requires
        follows(functions, before, Operation::CreateContext { initial_state, created }, after),
    ensures
        after.contains_key(created),
        after[created] == crate::context::initial_state(requested_state(initial_state)),
{
}

/// An invocation neither creates nor destroys a context: the same contexts are live
/// before and after it, whatever the handler did.
pub proof fn law_invocation_keeps_contexts_live<H: Handler>(
    functions: Map<Seq<char>, RegisteredFunction<H>>,
    before: StoreView,
    method_name: Seq<char>,
    arguments: Seq<char>,
    context_id: Seq<char>,
    outcome: InvocationOutcome,
    after: StoreView,
)
    requires
        dispatched(functions, before, method_name, arguments, context_id, outcome, after),
    ensures
        after.dom() == before.dom(),
{
}

/// A context lives until it is destroyed: in a run that starts with the context live and
/// never destroys it, the context is live after every operation.
pub proof fn law_context_lives_until_destroyed<H: Handler>(
    functions: Map<Seq<char>, RegisteredFunction<H>>,
    stores: Seq<StoreView>,
    operations: Seq<Operation>,
    context_id: Seq<char>,
    at: int,
)
    requires
        is_run(functions, stores, operations),
        stores[0].contains_key(context_id),
        forall|i: int|
            0 <= i < operations.len() ==> #[trigger] operations[i] != (Operation::DestroyContext {
                context_id,
            }),
        0 <= at < stores.len(),
    ensures
        stores[at].contains_key(context_id),
    decreases at,
{
    if at > 0 {
        law_context_lives_until_destroyed(functions, stores, operations, context_id, at - 1);
        match operations[at - 1] {
            Operation::InvokeMethod { context_id: target, method_name, arguments, outcome } => {
                law_invocation_keeps_contexts_live(
                    functions,
                    stores[at - 1],
                    method_name,
                    arguments,
                    target,
                    outcome,
                    stores[at],
                );
            },
            _ => {},
        }
    }
}

/// Once a context is destroyed it is gone: it is not live, it cannot be inspected, and an
/// invocation in it, of a registered method with well-formed arguments, fails with
/// `ContextNotFound`, runs no handler, and does not bring the context back.
pub proof fn law_destroyed_context_is_gone<H: Handler>(
    functions: Map<Seq<char>, RegisteredFunction<H>>,
    before: StoreView,
    context_id: Seq<char>,
    destroyed: StoreView,
    inspected: InspectStateResponse,
    method_name: Seq<char>,
    arguments: Seq<char>,
    outcome: InvocationOutcome,
    after: StoreView,
)
    requires
        context_id.len() > 0,
        follows(functions, before, Operation::DestroyContext { context_id }, destroyed),
        inspects(inspected, destroyed, context_id),
        functions.contains_key(method_name),
        parsed_json(arguments) is Ok,
        follows(
            functions,
            destroyed,
            Operation::InvokeMethod { context_id, method_name, arguments, outcome },
            after,
        ),
    ensures
        !destroyed.contains_key(context_id),
        !inspected.success,
        inspected.error@ == "Context not found: "@ + context_id,
        outcome matches InvocationOutcome::Failure { kind, message } && kind
            == ErrorKind::ContextNotFound && message@ == "Context not found: "@ + context_id,
        after == destroyed,
{
}

/// Contexts are isolated: whatever an operation does to its target, and whatever a
/// handler does in it, every other context is as live as before and keeps its state.
pub proof fn law_operation_leaves_other_contexts<H: Handler>(
    functions: Map<Seq<char>, RegisteredFunction<H>>,
    before: StoreView,
    operation: Operation,
    after: StoreView,
    other: Seq<char>,
)
    requires
        follows(functions, before, operation, after),
        target(operation) != Some(other),
    ensures
        after.contains_key(other) == before.contains_key(other),
        before.contains_key(other) ==> after[other] == before[other],
{
}

/// Stateless invocations do not see each other: neither changes the store, and the
/// handler of the second, if one runs, finds the empty state, whatever the first left.
pub proof fn law_stateless_invocations_are_isolated<H: Handler>(
    functions: Map<Seq<char>, RegisteredFunction<H>>,
    before: StoreView,
    first_method: Seq<char>,
    first_arguments: Seq<char>,
    first_outcome: InvocationOutcome,
    between: StoreView,
    second_method: Seq<char>,
    second_arguments: Seq<char>,
    second_outcome: InvocationOutcome,
    after: StoreView,
)
    requires
        dispatched(
            functions,
            before,
            first_method,
            first_arguments,
            Seq::<char>::empty(),
            first_outcome,
            between,
        ),
        dispatched(
            functions,
            between,
            second_method,
            second_arguments,
            Seq::<char>::empty(),
            second_outcome,
            after,
        ),
    ensures
        between == before,
        after == before,
        rejection(functions, between, second_method, second_arguments, Seq::<char>::empty())
            is None ==> exists|returned: Result<serde_json::Value, String>, left: StateView|
            {
                &&& #[trigger] functions[second_method].handler.effect(
                    Map::<Seq<char>, serde_json::Value>::empty(),
                    parsed_json(second_arguments)->Ok_0,
                    returned,
                    left,
                )
                &&& reports(second_outcome, returned)
            },
{
}

/// Reading is idempotent: two inspections of the same context with no operation between
/// them answer alike.
pub proof fn law_inspection_repeats(
    first: InspectStateResponse,
    second: InspectStateResponse,
    contexts: StoreView,
    context_id: Seq<char>,
)
    requires
        inspects(first, contexts, context_id),
        inspects(second, contexts, context_id),
    ensures
        first.success == second.success,
        first.state@ == second.state@,
        first.error@ == second.error@,
{
}

/// The comparator tries its verdicts in order. Errors come before values: where every
/// backend failed the verdict is `AllFailed`, and where some did it is `SomeFailed`,
/// whatever the values and whatever is expected. Disagreement comes before the expected
/// value, and the expected value before `Pass`.
pub proof fn law_verdicts_in_order(outcomes: Seq<BackendOutcome>, expected: Option<serde_json::Value>)
    ensures
        all_errored(outcomes) ==> verdict(outcomes, expected) == Verdict::AllFailed,
        some_errored(outcomes) && !all_errored(outcomes) ==> verdict(outcomes, expected)
            == Verdict::SomeFailed,
        !some_errored(outcomes) && !results_agree(outcomes) ==> verdict(outcomes, expected)
            == Verdict::Mismatch,
        !some_errored(outcomes) && results_agree(outcomes) && expected is Some && !same_result(
            expected,
            common_result(outcomes),
        ) ==> verdict(outcomes, expected) == Verdict::ExpectationMismatch,
        verdict(outcomes, expected) == Verdict::Pass ==> !some_errored(outcomes) && results_agree(
            outcomes,
        ) && (expected is Some ==> same_result(expected, common_result(outcomes))),
{
}

/// What a backend answered is a value or an error, never both and never neither; a
/// value comes with the time that the backend reported, an error without one. A value is
/// what the result text of a successful response denotes.
pub proof fn law_answer_is_value_or_error(reply: Reply)
    ensures
        is_value_or_error(answer_of(reply)),
        answer_of(reply).result matches Some(value) ==> {
            &&& reply matches Reply::Invoked(response)
            &&& response.success
            &&& parsed_json(response.result@) == Ok::<serde_json::Value, serde_json::Error>(value)
            &&& response.metadata matches Some(metadata)
            &&& answer_of(reply).time_us == Some(metadata.execution_time_us)
        },
{
}

/// However a round trip goes, it ends with a value or an error: each step either ends
/// with such an answer or keeps one for the end.
pub proof fn law_round_trip_ends_with_value_or_error(state: RoundTripView, reply: Reply)
    requires
        state matches RoundTripView::Destroying { answer } ==> is_value_or_error(answer),
    ensures
        match next_step(state, reply) {
            ProgressView::Finish { answer } => is_value_or_error(answer),
            ProgressView::Send { request, then } => then matches RoundTripView::Destroying {
                answer,
            } ==> is_value_or_error(answer),
        },
{
}

/// Whether `outcome` is what a backend answered, given how its round trip ended.
pub open spec fn carries(outcome: BackendOutcome, answer: AnswerView) -> bool {
    &&& outcome.result == answer.result
    &&& outcome.error is Some <==> answer.error is Some
    &&& outcome.error matches Some(error) ==> answer.error == Some(error@)
    &&& outcome.time_us == answer.time_us
}

/// Two backends that both answered with a value are judged by their values alone: where
/// the values are equal and nothing else is expected the test case passes, and where
/// they are not it fails with a message that begins `Results differ:`.
pub proof fn law_two_values_are_compared(
    first_reply: Reply,
    second_reply: Reply,
    outcomes: Seq<BackendOutcome>,
    expected: Option<serde_json::Value>,
)
    requires
        outcomes.len() == 2,
        carries(outcomes[0], answer_of(first_reply)),
        carries(outcomes[1], answer_of(second_reply)),
        answer_of(first_reply).result is Some,
        answer_of(second_reply).result is Some,
    ensures
        json_equal(outcomes[0].result->0, outcomes[1].result->0) && expected is None ==> verdict(
            outcomes,
            expected,
        ) == Verdict::Pass && diagnostic(outcomes, expected) is None,
        json_equal(outcomes[0].result->0, outcomes[1].result->0) ==> (verdict(outcomes, expected)
            == Verdict::Pass <==> (expected matches Some(value) ==> json_equal(
            value,
            outcomes[0].result->0,
        ))),
        !json_equal(outcomes[0].result->0, outcomes[1].result->0) ==> {
            &&& verdict(outcomes, expected) == Verdict::Mismatch
            &&& diagnostic(outcomes, expected) matches Some(message)
            &&& "Results differ:"@.is_prefix_of(message)
        },
{
    if !json_equal(outcomes[0].result->0, outcomes[1].result->0) {
        assert(!same_result(outcomes[0].result, outcomes[1].result));
        let message = diagnostic(outcomes, expected)->0;
        assert(message.subrange(0, "Results differ:"@.len() as int) =~= "Results differ:"@);
    }
}

/// A context that was created for a test case is destroyed before the round trip ends,
/// whatever the reply to the invocation was, and the reply to the destruction does not
/// change the answer.
pub proof fn law_created_context_is_destroyed(
    context_id: Seq<char>,
    invoked: Reply,
    destroyed: Reply,
)
    ensures
        next_step(RoundTripView::Invoking { context_id: Some(context_id) }, invoked) matches ProgressView::Send {
            request,
            then,
        } && request == (RequestView::DestroyContext { context_id }) && next_step(then, destroyed)
            == (ProgressView::Finish {
            answer: next_step(RoundTripView::Invoking { context_id: None }, invoked)->answer,
        }),
{
}

} // verus!
