//! The suite orchestrator: the declared test cases, the result of each, and what is
//! reported of a run.

use crate::comparator::{compare_results, diagnostic, verdict, BackendOutcome, Verdict};
use crate::driver::Answer;
use crate::json::{describe_error, encode_json, error_text, json_text};
use crate::text::{append_decimal, decimal, split_lines, text_lines, texts_view};
use vstd::prelude::*;
use vstd::string::StringExecFns;

verus! {

/// Where a backend listens.
#[derive(Debug)]
pub struct ServerConfig {
    pub host: String,
    pub port: u16,
}

impl ServerConfig {
    /// The address to connect to: `http://`, the host, a colon and the port in decimal.
    pub fn url(&self) -> (url: String)
        ensures
            url@ == "http://"@ + self.host@ + ":"@ + decimal(self.port as nat),
    {
        let mut url = String::from_str("http://");
        url.append(self.host.as_str());
        url.append(":");
        append_decimal(&mut url, self.port as u64);
        url
    }
}

/// A declared test case.
#[derive(Debug)]
pub struct TestCase {
    pub name: String,
    pub description: Option<String>,
    pub method: String,
    pub arguments: serde_json::Value,
    pub stateful: bool,
    pub initial_state: Option<String>,
    pub expected: Option<serde_json::Value>,
}

/// The result of one test case: what every backend answered, whether the test case
/// passed, and the message that explains why it did not.
#[derive(Debug)]
pub struct TestResult {
    pub name: String,
    pub passed: bool,
    pub outcomes: Vec<BackendOutcome>,
    pub error_message: Option<String>,
}

/// How many test cases passed and how many failed.
#[derive(Clone, Copy, Debug, PartialEq, Eq, Structural)]
pub struct Summary {
    pub passed: usize,
    pub failed: usize,
}

/// What is reported of one test case.
#[derive(Debug)]
pub struct ReportEntry {
    pub name: String,
    pub passed: bool,
    /// Of a test case that passed: each backend with its time, where every backend
    /// reported one.
    pub timings: Option<Vec<(String, i64)>>,
    /// Of a test case that passed: the JSON text of the first backend's result.
    pub result: Option<String>,
    /// Of a test case that failed: its message, line by line.
    pub details: Vec<String>,
}

/// The message of a test case that could not be run for the given reason.
pub open spec fn not_run(reason: Seq<char>) -> Seq<char> {
    "Test execution failed: "@ + reason
}

/// Whether there is a backend, and each one reported a time.
pub open spec fn all_timed(outcomes: Seq<BackendOutcome>) -> bool {
    outcomes.len() > 0 && forall|i: int|
        0 <= i < outcomes.len() ==> (#[trigger] outcomes[i]).time_us is Some
}

/// Each backend with the time it reported.
pub open spec fn timings_of(outcomes: Seq<BackendOutcome>) -> Seq<(Seq<char>, i64)> {
    outcomes.map_values(|outcome: BackendOutcome| (outcome.backend@, outcome.time_us->0))
}

/// The names and times of a sequence of timings.
pub open spec fn timings_view(timings: Seq<(String, i64)>) -> Seq<(Seq<char>, i64)> {
    timings.map_values(|timing: (String, i64)| (timing.0@, timing.1))
}

/// The JSON text of the first backend's result, where there is one and it can be encoded.
pub open spec fn first_result_text(outcomes: Seq<BackendOutcome>) -> Option<Seq<char>> {
    if outcomes.len() > 0 && outcomes[0].result is Some {
        match json_text(outcomes[0].result->0) {
            Ok(text) => Some(text),
            Err(_) => None,
        }
    } else {
        None
    }
}

/// Whether `entry` is what is reported of `result`.
pub open spec fn reports_on(entry: ReportEntry, result: TestResult) -> bool {
    &&& entry.name@ == result.name@
    &&& entry.passed == result.passed
    &&& entry.timings is Some <==> result.passed && all_timed(result.outcomes@)
    &&& entry.timings matches Some(timings) ==> timings_view(timings@) == timings_of(
        result.outcomes@,
    )
    &&& entry.result is Some <==> result.passed && first_result_text(result.outcomes@) is Some
    &&& entry.result matches Some(text) ==> first_result_text(result.outcomes@) == Some(text@)
    &&& texts_view(entry.details@) == if !result.passed && result.error_message is Some {
        text_lines(result.error_message->0@)
    } else {
        Seq::empty()
    }
}

/// How many results of a sequence passed.
pub open spec fn passed_count(results: Seq<TestResult>) -> nat {
    results.filter(|result: TestResult| result.passed).len()
}

/// The summary of a run.
pub open spec fn summary_of(results: Seq<TestResult>) -> Summary {
    Summary {
        passed: passed_count(results) as usize,
        failed: (results.len() - passed_count(results)) as usize,
    }
}

/// Whether every result of a sequence passed.
pub open spec fn every_passed(results: Seq<TestResult>) -> bool {
    forall|i: int| 0 <= i < results.len() ==> (#[trigger] results[i]).passed
}

/// A prefix of a sequence of results has no more passes than it has results, and one
/// more result adds one pass or none.
proof fn lemma_passed_count_step(results: Seq<TestResult>, index: int)
    requires
        0 <= index < results.len(),
    ensures
        passed_count(results.take(index)) <= index,
        passed_count(results.take(index + 1)) == passed_count(results.take(index)) + if results[index].passed {
            1nat
        } else {
            0nat
        },
{
    reveal(Seq::filter);
    let keep = |result: TestResult| result.passed;
    results.take(index).lemma_filter_len(keep);
    assert(results.take(index + 1).drop_last() == results.take(index));
}

impl BackendOutcome {
    /// What the backend called `backend` answered, given how its round trip ended.
    pub fn new(backend: String, answer: Answer) -> (outcome: Self)
        ensures
            outcome.backend == backend,
            outcome.result == answer.result,
            outcome.error == answer.error,
            outcome.time_us == answer.time_us,
    {
        BackendOutcome {
            backend,
            result: answer.result,
            error: answer.error,
            time_us: answer.time_us,
        }
    }
}

impl TestCase {
    /// The argument text that every backend is sent, or the result of the test case where
    /// the arguments cannot be encoded: failed, with the error as the reason.
    pub fn encode_arguments(&self) -> (encoded: Result<String, TestResult>)
        ensures
            match encoded {
                Ok(text) => json_text(self.arguments) == Ok::<Seq<char>, serde_json::Error>(text@),
                Err(result) => {
                    &&& json_text(self.arguments) matches Err(error)
                    &&& result.name@ == self.name@
                    &&& !result.passed
                    &&& result.outcomes@.len() == 0
                    &&& result.error_message matches Some(message)
                    &&& message@ == not_run(error_text(error))
                },
            },
    {
        match encode_json(&self.arguments) {
            Ok(text) => Ok(text),
            Err(error) => {
                let reason = describe_error(&error);
                Err(TestResult::execution_failed(self.name.clone(), reason.as_str()))
            },
        }
    }
}

impl TestResult {
    /// The result of a test case, given what every backend answered.
    ///
    /// It passes exactly on the verdict `Pass`; otherwise it carries the diagnostic of the
    /// verdict.
    pub fn judge(name: String, outcomes: Vec<BackendOutcome>, expected: &Option<serde_json::Value>) -> (result:
        Self)
        ensures
            result.name == name,
            result.outcomes == outcomes,
            result.passed == (verdict(outcomes@, *expected) == Verdict::Pass),
            result.error_message is Some <==> !result.passed,
            result.error_message matches Some(message) ==> diagnostic(outcomes@, *expected)
                == Some(message@),
    {
        let (passed, error_message) = compare_results(&outcomes, expected);
        TestResult { name, passed, outcomes, error_message }
    }

    /// The result of a test case that could not be run: failed, without answers, with the
    /// reason in its message.
    pub fn execution_failed(name: String, reason: &str) -> (result: Self)
        ensures
            result.name == name,
            !result.passed,
            result.outcomes@.len() == 0,
            result.error_message matches Some(message) && message@ == not_run(reason@),
    {
        let mut message = String::from_str("Test execution failed: ");
        message.append(reason);
        TestResult { name, passed: false, outcomes: Vec::new(), error_message: Some(message) }
    }

    /// What is reported of this result.
    pub fn report(&self) -> (entry: ReportEntry)
        ensures
            reports_on(entry, *self),
    {
        let name = self.name.clone();
        if self.passed {
            let timings = self.timings();
            let result = if self.outcomes.len() > 0 {
                match &self.outcomes[0].result {
                    Some(value) => match encode_json(value) {
                        Ok(text) => Some(text),
                        Err(_) => None,
                    },
                    None => None,
                }
            } else {
                None
            };
            let details: Vec<String> = Vec::new();
            assert(texts_view(details@) =~= Seq::<Seq<char>>::empty());
            ReportEntry { name, passed: true, timings, result, details }
        } else {
            let details = match &self.error_message {
                Some(message) => split_lines(message.as_str()),
                None => {
                    let details: Vec<String> = Vec::new();
                    assert(texts_view(details@) =~= Seq::<Seq<char>>::empty());
                    details
                },
            };
            ReportEntry { name, passed: false, timings: None, result: None, details }
        }
    }

    /// Each backend with its time, where there is a backend and every one reported a time.
    fn timings(&self) -> (timings: Option<Vec<(String, i64)>>)
        ensures
            timings is Some <==> all_timed(self.outcomes@),
            timings matches Some(timings) ==> timings_view(timings@) == timings_of(self.outcomes@),
    {
        if self.outcomes.len() == 0 {
            return None;
        }
        let mut timings: Vec<(String, i64)> = Vec::new();
        let mut index: usize = 0;
        while index < self.outcomes.len()
            invariant
                index <= self.outcomes.len(),
                forall|i: int| 0 <= i < index ==> (#[trigger] self.outcomes@[i]).time_us is Some,
                timings_view(timings@) == timings_of(self.outcomes@.take(index as int)),
            decreases self.outcomes.len() - index,
        {
            match self.outcomes[index].time_us {
                Some(time_us) => {
                    timings.push((self.outcomes[index].backend.clone(), time_us));
                    assert(timings_of(self.outcomes@.take(index + 1)) =~= timings_of(
                        self.outcomes@.take(index as int),
                    ).push((self.outcomes@[index as int].backend@, time_us)));
                },
                None => {
                    return None;
                },
            }
            index += 1;
        }
        Some(timings)
    }
}

/// Counts the results that passed and those that failed.
pub fn summarize(results: &Vec<TestResult>) -> (summary: Summary)
    ensures
        summary == summary_of(results@),
        summary.passed + summary.failed == results.len(),
        summary.failed == 0 <==> every_passed(results@),
{
    let mut passed: usize = 0;
    let mut failed: usize = 0;
    let mut index: usize = 0;
    assert(passed_count(results@.take(0)) == 0) by {
        reveal(Seq::filter);
    }
    while index < results.len()
        invariant
            index <= results.len(),
            passed == passed_count(results@.take(index as int)),
            passed + failed == index,
            failed == 0 <==> forall|i: int| 0 <= i < index ==> (#[trigger] results@[i]).passed,
        decreases results.len() - index,
    {
        proof {
            lemma_passed_count_step(results@, index as int);
        }
        if results[index].passed {
            passed += 1;
        } else {
            failed += 1;
        }
        index += 1;
    }
    assert(results@.take(results.len() as int) == results@);
    Summary { passed, failed }
}

/// Whether the run succeeded: whether every test case passed.
pub fn all_passed(results: &Vec<TestResult>) -> (success: bool)
    ensures
        success == every_passed(results@),
{
    summarize(results).failed == 0
}

} // verus!
