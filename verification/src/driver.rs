//! The differential driver: the round trip of one test case with one backend.
//!
//! The library decides, the caller talks to the backend. `RoundTrip::start` says what to
//! send first; after each reply `RoundTrip::step` says what to send next, or how the
//! round trip ended.

use crate::context::text_view;
use crate::json::{describe_error, error_text, parse_json, parsed_json};
use crate::server::{CreateContextResponse, DestroyContextResponse, InvokeMethodResponse};
use crate::suite::TestCase;
use vstd::prelude::*;
use vstd::string::StringExecFns;

verus! {

/// What is sent to a backend.
#[derive(Debug)]
pub enum Request {
    CreateContext { initial_state: String },
    InvokeMethod { context_id: String, method_name: String, arguments: String },
    DestroyContext { context_id: String },
}

/// What comes back: the backend's answer to a request, or the failure of the transport.
#[derive(Debug)]
pub enum Reply {
    Created(CreateContextResponse),
    Invoked(InvokeMethodResponse),
    Destroyed(DestroyContextResponse),
    Unreachable(String),
}

/// How a round trip ended: with a value or an error, and with the time that the backend
/// reported for a successful call.
#[derive(Debug)]
pub struct Answer {
    pub result: Option<serde_json::Value>,
    pub error: Option<String>,
    pub time_us: Option<i64>,
}

/// Where a round trip stands, by the request that is under way.
pub enum RoundTrip {
    /// A context is being created; the invocation is yet to be sent.
    Creating { method_name: String, arguments: String },
    /// The invocation is under way, in the context that was created for it, if any.
    Invoking { context_id: Option<String> },
    /// The context is being destroyed; the answer is already known.
    Destroying { answer: Answer },
}

/// What to do next.
pub enum Progress {
    Send { request: Request, then: RoundTrip },
    Finish { answer: Answer },
}

/// A request as contracts see it.
pub enum RequestView {
    CreateContext { initial_state: Seq<char> },
    InvokeMethod { context_id: Seq<char>, method_name: Seq<char>, arguments: Seq<char> },
    DestroyContext { context_id: Seq<char> },
}

/// An answer as contracts see it.
pub struct AnswerView {
    pub result: Option<serde_json::Value>,
    pub error: Option<Seq<char>>,
    pub time_us: Option<i64>,
}

/// A round trip as contracts see it.
pub enum RoundTripView {
    Creating { method_name: Seq<char>, arguments: Seq<char> },
    Invoking { context_id: Option<Seq<char>> },
    Destroying { answer: AnswerView },
}

/// A progress as contracts see it.
pub enum ProgressView {
    Send { request: RequestView, then: RoundTripView },
    Finish { answer: AnswerView },
}

impl View for Request {
    type V = RequestView;

    open spec fn view(&self) -> RequestView {
        match *self {
            Request::CreateContext { initial_state } => RequestView::CreateContext {
                initial_state: initial_state@,
            },
            Request::InvokeMethod { context_id, method_name, arguments } => RequestView::InvokeMethod {
                context_id: context_id@,
                method_name: method_name@,
                arguments: arguments@,
            },
            Request::DestroyContext { context_id } => RequestView::DestroyContext {
                context_id: context_id@,
            },
        }
    }
}

impl View for Answer {
    type V = AnswerView;

    open spec fn view(&self) -> AnswerView {
        AnswerView {
            result: self.result,
            error: match self.error {
                Some(error) => Some(error@),
                None => None,
            },
            time_us: self.time_us,
        }
    }
}

impl View for RoundTrip {
    type V = RoundTripView;

    open spec fn view(&self) -> RoundTripView {
        match *self {
            RoundTrip::Creating { method_name, arguments } => RoundTripView::Creating {
                method_name: method_name@,
                arguments: arguments@,
            },
            RoundTrip::Invoking { context_id } => RoundTripView::Invoking {
                context_id: match context_id {
                    Some(context_id) => Some(context_id@),
                    None => None,
                },
            },
            RoundTrip::Destroying { answer } => RoundTripView::Destroying { answer: answer@ },
        }
    }
}

impl View for Progress {
    type V = ProgressView;

    open spec fn view(&self) -> ProgressView {
        match *self {
            Progress::Send { request, then } => ProgressView::Send { request: request@, then: then@ },
            Progress::Finish { answer } => ProgressView::Finish { answer: answer@ },
        }
    }
}

/// The answer that only reports an error.
pub open spec fn failed(error: Seq<char>) -> AnswerView {
    AnswerView { result: None, error: Some(error), time_us: None }
}

/// The error text for a reply that does not answer the request under way.
pub open spec fn out_of_turn() -> Seq<char> {
    "Unexpected reply from backend"@
}

/// How a round trip starts: a stateful test case first has a context created, with the
/// initial state it declares or with none; any other is invoked at once, in no context.
pub open spec fn first_step(
    stateful: bool,
    initial_state: Option<Seq<char>>,
    method_name: Seq<char>,
    arguments: Seq<char>,
) -> ProgressView {
    if stateful {
        ProgressView::Send {
            request: RequestView::CreateContext {
                initial_state: match initial_state {
                    Some(text) => text,
                    None => Seq::empty(),
                },
            },
            then: RoundTripView::Creating { method_name, arguments },
        }
    } else {
        ProgressView::Send {
            request: RequestView::InvokeMethod { context_id: Seq::empty(), method_name, arguments },
            then: RoundTripView::Invoking { context_id: None },
        }
    }
}

/// Whether an answer is a value with its time, or an error without one.
pub open spec fn is_value_or_error(answer: AnswerView) -> bool {
    &&& answer.result is Some <==> answer.error is None
    &&& answer.result is Some <==> answer.time_us is Some
}

/// The error text for a successful response whose result text is not JSON.
pub open spec fn malformed_result(error: serde_json::Error) -> Seq<char> {
    "Invalid JSON result: "@ + error_text(error)
}

/// The error text for a successful response that reports no time.
pub open spec fn untimed() -> Seq<char> {
    "Missing execution metadata"@
}

/// What a reply to an invocation says of the call: a value with the time that the
/// backend reported for it, or an error and no time, never both and never neither.
///
/// A successful response gives the value that its result text denotes and the reported
/// time; one that breaks the protocol, with a result text that is not JSON or with no
/// time, gives an error that says so. A failed response gives its error. A failed
/// transport gives its error. Any other reply is out of turn.
pub open spec fn answer_of(reply: Reply) -> AnswerView {
    match reply {
        Reply::Invoked(response) => if response.success {
            match parsed_json(response.result@) {
                Ok(value) => match response.metadata {
                    Some(metadata) => AnswerView {
                        result: Some(value),
                        error: None,
                        time_us: Some(metadata.execution_time_us),
                    },
                    None => failed(untimed()),
                },
                Err(error) => failed(malformed_result(error)),
            }
        } else {
            failed(response.error@)
        },
        Reply::Unreachable(error) => failed(error@),
        _ => failed(out_of_turn()),
    }
}

/// What follows from a reply.
///
/// While a context is being created: its identifier goes into the invocation; a refusal
/// or a failed transport ends the round trip with that error. While the invocation is
/// under way: the reply gives the answer, and a context that was created is destroyed
/// before the round trip ends. While the context is being destroyed: the round trip ends
/// with the answer it has, whatever the reply.
pub open spec fn next_step(state: RoundTripView, reply: Reply) -> ProgressView {
    match state {
        RoundTripView::Creating { method_name, arguments } => match reply {
            Reply::Created(response) => if response.success {
                ProgressView::Send {
                    request: RequestView::InvokeMethod {
                        context_id: response.context_id@,
                        method_name,
                        arguments,
                    },
                    then: RoundTripView::Invoking { context_id: Some(response.context_id@) },
                }
            } else {
                ProgressView::Finish { answer: failed(response.error@) }
            },
            Reply::Unreachable(error) => ProgressView::Finish { answer: failed(error@) },
            _ => ProgressView::Finish { answer: failed(out_of_turn()) },
        },
        RoundTripView::Invoking { context_id } => match context_id {
            Some(context_id) => ProgressView::Send {
                request: RequestView::DestroyContext { context_id },
                then: RoundTripView::Destroying { answer: answer_of(reply) },
            },
            None => ProgressView::Finish { answer: answer_of(reply) },
        },
        RoundTripView::Destroying { answer } => ProgressView::Finish { answer },
    }
}

impl Answer {
    /// The answer that only reports `error`.
    fn failure(error: String) -> (answer: Self)
        ensures
            answer@ == failed(error@),
    {
        Answer { result: None, error: Some(error), time_us: None }
    }

    /// What a reply to an invocation says of the call.
    fn from_reply(reply: Reply) -> (answer: Self)
        ensures
            answer@ == answer_of(reply),
    {
        match reply {
            Reply::Invoked(response) => {
                if response.success {
                    match parse_json(response.result.as_str()) {
                        Ok(value) => match response.metadata {
                            Some(metadata) => Answer {
                                result: Some(value),
                                error: None,
                                time_us: Some(metadata.execution_time_us),
                            },
                            None => Answer::failure(
                                String::from_str("Missing execution metadata"),
                            ),
                        },
                        Err(error) => {
                            let mut message = String::from_str("Invalid JSON result: ");
                            message.append(describe_error(&error).as_str());
                            Answer::failure(message)
                        },
                    }
                } else {
                    Answer::failure(response.error)
                }
            },
            Reply::Unreachable(error) => Answer::failure(error),
            _ => Answer::failure(String::from_str("Unexpected reply from backend")),
        }
    }
}

impl RoundTrip {
    /// Starts the round trip of a test case with the argument text that every backend is
    /// sent: says what to send first.
    pub fn start(test: &TestCase, arguments: &str) -> (progress: Progress)
        ensures
            progress@ == first_step(
                test.stateful,
                text_view(test.initial_state),
                test.method@,
                arguments@,
            ),
    {
        if test.stateful {
            let initial_state = match &test.initial_state {
                Some(text) => text.clone(),
                None => String::new(),
            };
            Progress::Send {
                request: Request::CreateContext { initial_state },
                then: RoundTrip::Creating {
                    method_name: test.method.clone(),
                    arguments: arguments.to_owned(),
                },
            }
        } else {
            Progress::Send {
                request: Request::InvokeMethod {
                    context_id: String::new(),
                    method_name: test.method.clone(),
                    arguments: arguments.to_owned(),
                },
                then: RoundTrip::Invoking { context_id: None },
            }
        }
    }

    /// Takes the reply to the request under way and says what to do next.
    pub fn step(self, reply: Reply) -> (progress: Progress)
        ensures
            progress@ == next_step(self@, reply),
    {
        match self {
            RoundTrip::Creating { method_name, arguments } => match reply {
                Reply::Created(response) => {
                    if response.success {
                        let context_id = response.context_id;
                        Progress::Send {
                            request: Request::InvokeMethod {
                                context_id: context_id.clone(),
                                method_name,
                                arguments,
                            },
                            then: RoundTrip::Invoking { context_id: Some(context_id) },
                        }
                    } else {
                        Progress::Finish { answer: Answer::failure(response.error) }
                    }
                },
                Reply::Unreachable(error) => Progress::Finish { answer: Answer::failure(error) },
                _ => Progress::Finish {
                    answer: Answer::failure(String::from_str("Unexpected reply from backend")),
                },
            },
            RoundTrip::Invoking { context_id } => {
                let answer = Answer::from_reply(reply);
                match context_id {
                    Some(context_id) => Progress::Send {
                        request: Request::DestroyContext { context_id },
                        then: RoundTrip::Destroying { answer },
                    },
                    None => Progress::Finish { answer },
                }
            },
            RoundTrip::Destroying { answer } => Progress::Finish { answer },
        }
    }
}

} // verus!
