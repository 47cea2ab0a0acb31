//! The result comparator: from what every backend answered for one test case to a
//! verdict, and to the message that explains a failure.

use crate::json::{debug_json, json_debug, json_equal, values_equal};
use vstd::prelude::*;
use vstd::string::StringExecFns;

verus! {

/// What one backend answered for one test case: a value or an error, and the time that
/// the backend reported for a successful call.
#[derive(Debug)]
pub struct BackendOutcome {
    pub backend: String,
    pub result: Option<serde_json::Value>,
    pub error: Option<String>,
    pub time_us: Option<i64>,
}

/// How a test case is judged. The variants stand in the order in which they are tried:
/// the first that applies is the verdict.
#[derive(Clone, Copy, Debug, PartialEq, Eq, Structural)]
pub enum Verdict {
    /// Every backend answered with an error.
    AllFailed,
    /// Some backend answered with an error, and some did not.
    SomeFailed,
    /// No backend answered with an error, but some value is not the same as the first.
    Mismatch,
    /// The backends agree, but not with the expected value of the test case.
    ExpectationMismatch,
    /// None of the above.
    Pass,
}

/// Whether there is a backend, and each one answered with an error.
pub open spec fn all_errored(outcomes: Seq<BackendOutcome>) -> bool {
    outcomes.len() > 0 && forall|i: int|
        0 <= i < outcomes.len() ==> (#[trigger] outcomes[i]).error is Some
}

/// Whether some backend answered with an error.
pub open spec fn some_errored(outcomes: Seq<BackendOutcome>) -> bool {
    exists|i: int| 0 <= i < outcomes.len() && (#[trigger] outcomes[i]).error is Some
}

/// Whether two results are the same: both absent, or both present and equal as JSON.
pub open spec fn same_result(left: Option<serde_json::Value>, right: Option<serde_json::Value>) -> bool {
    match (left, right) {
        (Some(left), Some(right)) => json_equal(left, right),
        (None, None) => true,
        _ => false,
    }
}

/// Whether the result of the first backend is the same as that of every other backend.
pub open spec fn results_agree(outcomes: Seq<BackendOutcome>) -> bool {
    forall|i: int|
        1 <= i < outcomes.len() ==> same_result(outcomes[0].result, (#[trigger] outcomes[i]).result)
}

/// The result that stands for all backends: that of the first, if there is a backend.
pub open spec fn common_result(outcomes: Seq<BackendOutcome>) -> Option<serde_json::Value> {
    if outcomes.len() == 0 {
        None
    } else {
        outcomes[0].result
    }
}

/// Whether the common result is the expected one, where one is expected.
pub open spec fn meets(expected: Option<serde_json::Value>, outcomes: Seq<BackendOutcome>) -> bool {
    match expected {
        Some(expected) => same_result(Some(expected), common_result(outcomes)),
        None => true,
    }
}

/// The verdict on a test case.
pub open spec fn verdict(outcomes: Seq<BackendOutcome>, expected: Option<serde_json::Value>) -> Verdict {
    if all_errored(outcomes) {
        Verdict::AllFailed
    } else if some_errored(outcomes) {
        Verdict::SomeFailed
    } else if !results_agree(outcomes) {
        Verdict::Mismatch
    } else if !meets(expected, outcomes) {
        Verdict::ExpectationMismatch
    } else {
        Verdict::Pass
    }
}

/// The error text of an outcome, empty where it has none.
pub open spec fn error_of(outcome: BackendOutcome) -> Seq<char> {
    match outcome.error {
        Some(error) => error@,
        None => Seq::empty(),
    }
}

/// How a result is shown: as `Debug` shows an `Option` of a JSON value.
pub open spec fn shown(result: Option<serde_json::Value>) -> Seq<char> {
    match result {
        Some(value) => "Some("@ + json_debug(value) + ")"@,
        None => "None"@,
    }
}

/// For each backend a line break, its name, a colon and its error.
pub open spec fn error_lines(outcomes: Seq<BackendOutcome>) -> Seq<char>
    decreases outcomes.len(),
{
    if outcomes.len() == 0 {
        Seq::empty()
    } else {
        error_lines(outcomes.drop_last()) + "\n"@ + outcomes.last().backend@ + ": "@ + error_of(
            outcomes.last(),
        )
    }
}

/// For each backend that answered with an error one line: its name, ` failed: ` and its
/// error. A line break stands between two lines.
pub open spec fn failure_lines(outcomes: Seq<BackendOutcome>) -> Seq<char>
    decreases outcomes.len(),
{
    if outcomes.len() == 0 {
        Seq::empty()
    } else {
        let before = failure_lines(outcomes.drop_last());
        let last = outcomes.last();
        if last.error is None {
            before
        } else if before.len() == 0 {
            last.backend@ + " failed: "@ + error_of(last)
        } else {
            before + "\n"@ + last.backend@ + " failed: "@ + error_of(last)
        }
    }
}

/// For each backend a line break, its name, a colon and its result as `shown`.
pub open spec fn result_lines(outcomes: Seq<BackendOutcome>) -> Seq<char>
    decreases outcomes.len(),
{
    if outcomes.len() == 0 {
        Seq::empty()
    } else {
        result_lines(outcomes.drop_last()) + "\n"@ + outcomes.last().backend@ + ": "@ + shown(
            outcomes.last().result,
        )
    }
}

/// The heading of the diagnostic when every backend failed.
pub open spec fn all_failed_heading(backends: nat) -> Seq<char> {
    if backends == 2 {
        "Both implementations failed:"@
    } else {
        "All implementations failed:"@
    }
}

/// The message that explains a verdict; `Pass` has none.
pub open spec fn diagnostic(outcomes: Seq<BackendOutcome>, expected: Option<serde_json::Value>) -> Option<
    Seq<char>,
> {
    match verdict(outcomes, expected) {
        Verdict::AllFailed => Some(all_failed_heading(outcomes.len()) + error_lines(outcomes)),
        Verdict::SomeFailed => Some(failure_lines(outcomes)),
        Verdict::Mismatch => Some("Results differ:"@ + result_lines(outcomes)),
        Verdict::ExpectationMismatch => Some(
            "Result doesn't match expected:\nExpected: "@ + json_debug(expected->0) + "\nGot: "@
                + shown(common_result(outcomes)),
        ),
        Verdict::Pass => None,
    }
}

/// Whether two results are the same.
fn results_equal(left: &Option<serde_json::Value>, right: &Option<serde_json::Value>) -> (same:
    bool)
    ensures
        same == same_result(*left, *right),
{
    match (left, right) {
        (Some(left), Some(right)) => values_equal(left, right),
        (None, None) => true,
        _ => false,
    }
}

/// Appends a result to `message`, as `shown`.
fn append_shown(message: &mut String, result: &Option<serde_json::Value>)
    ensures
        final(message)@ == old(message)@ + shown(*result),
{
    match result {
        Some(value) => {
            let text = debug_json(value);
            message.append("Some(");
            message.append(text.as_str());
            message.append(")");
        },
        None => {
            message.append("None");
        },
    }
}

/// The text of an error that may be absent.
fn error_text_of(outcome: &BackendOutcome) -> (text: &str)
    ensures
        text@ == error_of(*outcome),
{
    proof {
        reveal_strlit("");
    }
    match &outcome.error {
        Some(error) => error.as_str(),
        None => "",
    }
}

/// The verdict on a test case, given what every backend answered and what was expected.
pub fn classify(outcomes: &Vec<BackendOutcome>, expected: &Option<serde_json::Value>) -> (judged:
    Verdict)
    ensures
        judged == verdict(outcomes@, *expected),
{
    let mut every = outcomes.len() > 0;
    let mut some = false;
    let mut index: usize = 0;
    while index < outcomes.len()
        invariant
            index <= outcomes.len(),
            every == (outcomes.len() > 0 && forall|i: int|
                0 <= i < index ==> (#[trigger] outcomes@[i]).error is Some),
            some == exists|i: int| 0 <= i < index && (#[trigger] outcomes@[i]).error is Some,
        decreases outcomes.len() - index,
    {
        if outcomes[index].error.is_some() {
            some = true;
        } else {
            every = false;
        }
        index += 1;
    }
    if every {
        return Verdict::AllFailed;
    }
    if some {
        return Verdict::SomeFailed;
    }
    let mut agree = true;
    let mut index: usize = 1;
    while index < outcomes.len()
        invariant
            1 <= index,
            agree == forall|i: int|
                1 <= i < index && i < outcomes.len() ==> same_result(
                    outcomes@[0].result,
                    (#[trigger] outcomes@[i]).result,
                ),
        decreases outcomes.len() - index,
    {
        if !results_equal(&outcomes[0].result, &outcomes[index].result) {
            agree = false;
        }
        index += 1;
    }
    if !agree {
        return Verdict::Mismatch;
    }
    match expected {
        Some(expected) => {
            let met = if outcomes.len() == 0 {
                false
            } else {
                match &outcomes[0].result {
                    Some(common) => values_equal(expected, common),
                    None => false,
                }
            };
            if met {
                Verdict::Pass
            } else {
                Verdict::ExpectationMismatch
            }
        },
        None => Verdict::Pass,
    }
}

/// The message for the case that every backend failed.
fn all_failed_message(outcomes: &Vec<BackendOutcome>) -> (message: String)
    ensures
        message@ == all_failed_heading(outcomes@.len()) + error_lines(outcomes@),
{
    let mut message = if outcomes.len() == 2 {
        String::from_str("Both implementations failed:")
    } else {
        String::from_str("All implementations failed:")
    };
    let mut index: usize = 0;
    while index < outcomes.len()
        invariant
            index <= outcomes.len(),
            message@ == all_failed_heading(outcomes@.len()) + error_lines(
                outcomes@.take(index as int),
            ),
        decreases outcomes.len() - index,
    {
        let outcome = &outcomes[index];
        assert(outcomes@.take(index + 1).drop_last() == outcomes@.take(index as int));
        message.append("\n");
        message.append(outcome.backend.as_str());
        message.append(": ");
        message.append(error_text_of(outcome));
        index += 1;
    }
    assert(outcomes@.take(outcomes.len() as int) == outcomes@);
    message
}

/// The message for the case that some backend failed.
fn some_failed_message(outcomes: &Vec<BackendOutcome>) -> (message: String)
    ensures
        message@ == failure_lines(outcomes@),
{
    let mut message = String::new();
    let mut index: usize = 0;
    while index < outcomes.len()
        invariant
            index <= outcomes.len(),
            message@ == failure_lines(outcomes@.take(index as int)),
        decreases outcomes.len() - index,
    {
        let outcome = &outcomes[index];
        assert(outcomes@.take(index + 1).drop_last() == outcomes@.take(index as int));
        if outcome.error.is_some() {
            if !message.as_str().is_empty() {
                message.append("\n");
            }
            message.append(outcome.backend.as_str());
            message.append(" failed: ");
            message.append(error_text_of(outcome));
            assert(message@ =~= failure_lines(outcomes@.take(index + 1)));
        }
        index += 1;
    }
    assert(outcomes@.take(outcomes.len() as int) == outcomes@);
    message
}

/// The message for the case that the backends disagree.
fn mismatch_message(outcomes: &Vec<BackendOutcome>) -> (message: String)
    ensures
        message@ == "Results differ:"@ + result_lines(outcomes@),
{
    let mut message = String::from_str("Results differ:");
    let mut index: usize = 0;
    while index < outcomes.len()
        invariant
            index <= outcomes.len(),
            message@ == "Results differ:"@ + result_lines(outcomes@.take(index as int)),
        decreases outcomes.len() - index,
    {
        let outcome = &outcomes[index];
        assert(outcomes@.take(index + 1).drop_last() == outcomes@.take(index as int));
        message.append("\n");
        message.append(outcome.backend.as_str());
        message.append(": ");
        append_shown(&mut message, &outcome.result);
        index += 1;
    }
    assert(outcomes@.take(outcomes.len() as int) == outcomes@);
    message
}

/// The message for the case that the backends agree on something else than expected.
fn expectation_message(outcomes: &Vec<BackendOutcome>, expected: &serde_json::Value) -> (message:
    String)
    ensures
        message@ == "Result doesn't match expected:\nExpected: "@ + json_debug(*expected)
            + "\nGot: "@ + shown(common_result(outcomes@)),
{
    let mut message = String::from_str("Result doesn't match expected:\nExpected: ");
    let text = debug_json(expected);
    message.append(text.as_str());
    message.append("\nGot: ");
    if outcomes.len() == 0 {
        append_shown(&mut message, &None);
    } else {
        append_shown(&mut message, &outcomes[0].result);
    }
    message
}

/// Whether the test case passes, and the message that explains why it does not.
///
/// The test case passes exactly on the verdict `Pass`, and exactly then there is no
/// message.
pub fn compare_results(outcomes: &Vec<BackendOutcome>, expected: &Option<serde_json::Value>) -> (judged:
    (bool, Option<String>))
    ensures
        judged.0 == (verdict(outcomes@, *expected) == Verdict::Pass),
        judged.1 is Some <==> diagnostic(outcomes@, *expected) is Some,
        judged.1 matches Some(message) ==> diagnostic(outcomes@, *expected) == Some(message@),
{
    match classify(outcomes, expected) {
        Verdict::AllFailed => (false, Some(all_failed_message(outcomes))),
        Verdict::SomeFailed => (false, Some(some_failed_message(outcomes))),
        Verdict::Mismatch => (false, Some(mismatch_message(outcomes))),
        Verdict::ExpectationMismatch => match expected {
            Some(expected) => (false, Some(expectation_message(outcomes, expected))),
            None => vstd::pervasive::unreached(),
        },
        Verdict::Pass => (true, None),
    }
}

} // verus!
