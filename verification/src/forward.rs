//! The request-forwarding engine: what one attempt to reach the backend came
//! to, and what follows from it.
//!
//! A forwarded request gets up to three attempts. The program makes each
//! attempt and hands what it saw to [`ForwardOutcome`]; [`RetryState::step`]
//! then says whether the request is over or is to be tried again, and after
//! what delay. Retries are silent: the caller sees the final result and nothing
//! of the attempts before it.

use crate::http::{
    backoff_delay, body_plan_of, header_summary, lemma_backoff_sequence, lines_of,
    main_content_type_of, status_line, status_text, transient_network_error,
    transient_status, BodyPlan, BunDocsClient, Header, HeaderLine, MAX_BODY_SNIPPET_SIZE,
    MAX_ERROR_BODY_SIZE, MAX_RETRIES,
};
use crate::json::{option_value, parsed_bytes, Json, JsonValue};
use crate::sse::{reduce_body, reduce_bytes};
use crate::text::{decimal, option_text, truncate_utf8, truncated};
use vstd::prelude::*;
use vstd::string::StringExecFns;

verus! {

/// The text that `String::from_utf8_lossy` makes of `bytes`.
pub uninterp spec fn utf8_lossy(bytes: Seq<u8>) -> Seq<char>;

/// `String::from_utf8_lossy`. The result is given the name [`utf8_lossy`].
#[verifier::external_body]
fn lossy_text(bytes: &[u8]) -> (text: String)
    ensures
        text@ == utf8_lossy(bytes@),
{
    String::from_utf8_lossy(bytes).into_owned()
}

/// The part of a failed response's body that is looked at: its first 100,000
/// bytes.
pub open spec fn inspected_body(body: Seq<u8>) -> Seq<u8> {
    if body.len() > MAX_ERROR_BODY_SIZE {
        body.take(MAX_ERROR_BODY_SIZE as int)
    } else {
        body
    }
}

/// The text of a failed response's body, as far as it is looked at.
pub open spec fn body_text(body: Seq<u8>) -> Seq<char> {
    utf8_lossy(inspected_body(body))
}

/// The part of a body's text that is quoted: its start, cut to 2048 bytes
/// without splitting a character.
pub open spec fn snippet_of(text: Seq<char>) -> Seq<char> {
    truncated(text, MAX_BODY_SNIPPET_SIZE as nat)
}

/// The report on a response that did not succeed, given how its status reads
/// and the text of its body: status, main content type, the summary of the
/// headers, and the start of the body.
pub open spec fn failure_report_with(
    status_text: Seq<char>,
    headers: Seq<HeaderLine>,
    body_text: Seq<char>,
) -> Seq<char> {
    "Bun Docs API error: status="@ + status_text + " content_type="@ + (if main_content_type_of(
        headers,
    ).len() == 0 {
        "<none>"@
    } else {
        main_content_type_of(headers)
    }) + " headers=["@ + header_summary(headers) + "] body_snippet=\""@ + snippet_of(body_text)
        + "\""@
}

/// The report on a response that did not succeed.
pub open spec fn failure_report(status: u16, headers: Seq<HeaderLine>, body: Seq<u8>) -> Seq<char> {
    failure_report_with(status_text(status), headers, body_text(body))
}

/// The report on a request that could not be sent, from the HTTP library's
/// own description of the failure.
pub open spec fn send_failure_report(detail: Seq<char>) -> Seq<char> {
    "Failed to send request to Bun Docs API: "@ + detail
}

/// The report on a successful response whose body is no JSON.
pub open spec fn decode_failure_report() -> Seq<char> {
    "Failed to parse JSON response"@
}

/// The report of last resort, for a request that ran out of attempts without
/// a recorded error.
pub open spec fn unknown_failure_report() -> Seq<char> {
    "Unknown error sending request"@
}

/// What one attempt to reach the backend came to.
#[derive(Debug, PartialEq)]
pub enum ForwardOutcome {
    /// The backend answered with this JSON value.
    Decoded(Json),
    /// The backend answered with a status that may pass.
    TransientHttpStatus { status: u16, message: String },
    /// The backend answered with a status that a retry would not change.
    NonTransientHttpStatus { status: u16, message: String },
    /// The request did not get through, for a reason that may pass.
    TransientNetworkError { message: String },
    /// The request did not get through, and a retry would not change that.
    FatalNetworkError { message: String },
    /// The backend reported success and sent nothing that can be used.
    DecodeError { message: String },
}

/// What a [`ForwardOutcome`] stands for.
pub enum OutcomeValue {
    Decoded(JsonValue),
    TransientHttpStatus { status: u16, message: Seq<char> },
    NonTransientHttpStatus { status: u16, message: Seq<char> },
    TransientNetworkError { message: Seq<char> },
    FatalNetworkError { message: Seq<char> },
    DecodeError { message: Seq<char> },
}

impl View for ForwardOutcome {
    type V = OutcomeValue;

    open spec fn view(&self) -> OutcomeValue {
        match self {
            ForwardOutcome::Decoded(value) => OutcomeValue::Decoded(value@),
            ForwardOutcome::TransientHttpStatus { status, message } => {
                OutcomeValue::TransientHttpStatus { status: *status, message: message@ }
            },
            ForwardOutcome::NonTransientHttpStatus { status, message } => {
                OutcomeValue::NonTransientHttpStatus { status: *status, message: message@ }
            },
            ForwardOutcome::TransientNetworkError { message } => {
                OutcomeValue::TransientNetworkError { message: message@ }
            },
            ForwardOutcome::FatalNetworkError { message } => OutcomeValue::FatalNetworkError {
                message: message@,
            },
            ForwardOutcome::DecodeError { message } => OutcomeValue::DecodeError {
                message: message@,
            },
        }
    }
}

impl OutcomeValue {
    /// Whether the attempt failed in a way that may pass.
    pub open spec fn is_transient(self) -> bool {
        self is TransientHttpStatus || self is TransientNetworkError
    }

    /// What the forwarded request comes to if this attempt is its last: the
    /// decoded value, or the report of the failure.
    pub open spec fn settle(self) -> Result<JsonValue, Seq<char>> {
        match self {
            OutcomeValue::Decoded(value) => Ok(value),
            OutcomeValue::TransientHttpStatus { message, .. } => Err(message),
            OutcomeValue::NonTransientHttpStatus { message, .. } => Err(message),
            OutcomeValue::TransientNetworkError { message } => Err(message),
            OutcomeValue::FatalNetworkError { message } => Err(message),
            OutcomeValue::DecodeError { message } => Err(message),
        }
    }

    /// The outcome of an attempt that was answered with a status other than
    /// success, given the report on it: a failure that may pass for the five
    /// statuses that may, and one that will not for every other.
    pub open spec fn failed_status(status: u16, report: Seq<char>) -> OutcomeValue {
        if transient_status(status) {
            OutcomeValue::TransientHttpStatus { status, message: report }
        } else {
            OutcomeValue::NonTransientHttpStatus { status, message: report }
        }
    }

    /// The outcome of an attempt that was answered with a status other than
    /// success.
    pub open spec fn http_failure(status: u16, headers: Seq<HeaderLine>, body: Seq<u8>)
        -> OutcomeValue {
        OutcomeValue::failed_status(status, failure_report(status, headers, body))
    }

    /// The outcome of an attempt that could not be sent.
    pub open spec fn network_failure(connect: bool, timeout: bool, request: bool, detail: Seq<char>)
        -> OutcomeValue {
        if transient_network_error(connect, timeout, request) {
            OutcomeValue::TransientNetworkError { message: send_failure_report(detail) }
        } else {
            OutcomeValue::FatalNetworkError { message: send_failure_report(detail) }
        }
    }

    /// The outcome of an attempt that was answered with success and a body
    /// that is to be one JSON document, given what the body reads as.
    pub open spec fn json_document(parsed: Option<JsonValue>) -> OutcomeValue {
        match parsed {
            Some(value) => OutcomeValue::Decoded(value),
            None => OutcomeValue::DecodeError { message: decode_failure_report() },
        }
    }

    /// The outcome of an attempt that was answered with success and a body
    /// that is to be one JSON document.
    pub open spec fn json_body(body: Seq<u8>) -> OutcomeValue {
        OutcomeValue::json_document(parsed_bytes(body))
    }

    /// The outcome of an attempt that was answered with success and an event
    /// stream, given what the stream came to.
    pub open spec fn event_stream(reduced: Result<JsonValue, Seq<char>>) -> OutcomeValue {
        match reduced {
            Ok(value) => OutcomeValue::Decoded(value),
            Err(message) => OutcomeValue::DecodeError { message },
        }
    }

    /// The outcome of an attempt that was answered with this status, these
    /// headers and this body.
    pub open spec fn of_response(status: u16, headers: Seq<HeaderLine>, body: Seq<u8>)
        -> OutcomeValue {
        match body_plan_of(status, headers) {
            BodyPlan::Diagnostic => OutcomeValue::http_failure(status, headers, body),
            BodyPlan::EventStream => OutcomeValue::event_stream(reduce_bytes(body)),
            BodyPlan::JsonDocument => OutcomeValue::json_body(body),
        }
    }
}

/// What a finished forward call stands for.
pub open spec fn result_value(result: Result<Json, String>) -> Result<JsonValue, Seq<char>> {
    match result {
        Ok(value) => Ok(value@),
        Err(message) => Err(message@),
    }
}

impl ForwardOutcome {
    /// What the forwarded request comes to if this attempt is its last.
    pub fn settle(self) -> (result: Result<Json, String>)
        ensures
            result_value(result) == self@.settle(),
    {
        match self {
            ForwardOutcome::Decoded(value) => Ok(value),
            ForwardOutcome::TransientHttpStatus { message, .. } => Err(message),
            ForwardOutcome::NonTransientHttpStatus { message, .. } => Err(message),
            ForwardOutcome::TransientNetworkError { message } => Err(message),
            ForwardOutcome::FatalNetworkError { message } => Err(message),
            ForwardOutcome::DecodeError { message } => Err(message),
        }
    }

    /// Whether the attempt failed in a way that may pass.
    pub fn is_transient(&self) -> (transient: bool)
        ensures
            transient == self@.is_transient(),
    {
        match self {
            ForwardOutcome::TransientHttpStatus { .. } => true,
            ForwardOutcome::TransientNetworkError { .. } => true,
            _ => false,
        }
    }

    /// The outcome of an attempt that was answered with a status other than
    /// success, given how the status reads and the text of the body. The
    /// report names the status, the main content type, the first headers, and
    /// the start of the body, of which no more than 2048 bytes are quoted.
    pub fn http_failure_with(status: u16, status_text: &str, headers: &Vec<Header>, body_text: &str)
        -> (outcome: ForwardOutcome)
        ensures
            outcome@ == OutcomeValue::failed_status(
                status,
                failure_report_with(status_text@, lines_of(headers@), body_text@),
            ),
    {
        let snippet = truncate_utf8(body_text, MAX_BODY_SNIPPET_SIZE);
        let content_type = BunDocsClient::main_content_type(headers);
        let summary = BunDocsClient::summarize_headers(headers);
        let mut message = String::from_str("Bun Docs API error: status=");
        message.append(status_text);
        message.append(" content_type=");
        if content_type.as_str().is_empty() {
            message.append("<none>");
        } else {
            message.append(content_type.as_str());
        }
        message.append(" headers=[");
        message.append(summary.as_str());
        message.append("] body_snippet=\"");
        message.append(snippet);
        message.append("\"");
        if BunDocsClient::is_transient_status(status) {
            ForwardOutcome::TransientHttpStatus { status, message }
        } else {
            ForwardOutcome::NonTransientHttpStatus { status, message }
        }
    }

    /// The outcome of an attempt that was answered with a status other than
    /// success. Of the body no more than the first 100,000 bytes are looked
    /// at; they are read as UTF-8, with a replacement character for what is
    /// none.
    pub fn http_failure(status: u16, headers: &Vec<Header>, body: &[u8]) -> (outcome:
        ForwardOutcome)
        ensures
            outcome@ == OutcomeValue::http_failure(status, lines_of(headers@), body@),
    {
        let inspected: &[u8] = if body.len() > MAX_ERROR_BODY_SIZE {
            vstd::slice::slice_subrange(body, 0, MAX_ERROR_BODY_SIZE)
        } else {
            body
        };
        let text = lossy_text(inspected);
        let status_text = status_line(status);
        Self::http_failure_with(status, status_text.as_str(), headers, text.as_str())
    }

    /// The outcome of an attempt that could not be sent, from what the HTTP
    /// library says of the failure and its description of it.
    pub fn network_failure(connect: bool, timeout: bool, request: bool, detail: &str) -> (outcome:
        ForwardOutcome)
        ensures
            outcome@ == OutcomeValue::network_failure(connect, timeout, request, detail@),
    {
        let mut message = String::from_str("Failed to send request to Bun Docs API: ");
        message.append(detail);
        if BunDocsClient::is_transient_network_error(connect, timeout, request) {
            ForwardOutcome::TransientNetworkError { message }
        } else {
            ForwardOutcome::FatalNetworkError { message }
        }
    }

    /// The outcome of an attempt that was answered with success and a body
    /// that is to be one JSON document, given what the body was read as.
    pub fn json_document(parsed: Option<Json>) -> (outcome: ForwardOutcome)
        ensures
            outcome@ == OutcomeValue::json_document(option_value(parsed)),
    {
        match parsed {
            Some(value) => ForwardOutcome::Decoded(value),
            None => Self::unreadable_body(),
        }
    }

    /// The outcome of an attempt that was answered with success and a body
    /// that is to be one JSON document.
    pub fn json_body(body: &[u8]) -> (outcome: ForwardOutcome)
        ensures
            outcome@ == OutcomeValue::json_body(body@),
    {
        Self::json_document(Json::parse_bytes(body))
    }

    /// The outcome of an attempt that was answered with success and a body
    /// that could not be read to its end.
    pub fn unreadable_body() -> (outcome: ForwardOutcome)
        ensures
            outcome@ == (OutcomeValue::DecodeError { message: decode_failure_report() }),
    {
        ForwardOutcome::DecodeError { message: String::from_str("Failed to parse JSON response") }
    }

    /// The outcome of an attempt that was answered with success and an event
    /// stream, given what the stream came to.
    pub fn event_stream(reduced: Result<Json, String>) -> (outcome: ForwardOutcome)
        ensures
            outcome@ == OutcomeValue::event_stream(result_value(reduced)),
    {
        match reduced {
            Ok(value) => ForwardOutcome::Decoded(value),
            Err(message) => ForwardOutcome::DecodeError { message },
        }
    }

    /// The outcome of an attempt whose response has arrived in full.
    ///
    /// A response that did not succeed becomes a failure with its report. A
    /// success is read as its main content type says: as an event stream that
    /// is reduced to its answer, or as one JSON document.
    pub fn of_response(status: u16, headers: &Vec<Header>, body: &[u8]) -> (outcome:
        ForwardOutcome)
        ensures
            outcome@ == OutcomeValue::of_response(status, lines_of(headers@), body@),
    {
        match BunDocsClient::body_plan(status, headers) {
            BodyPlan::Diagnostic => Self::http_failure(status, headers, body),
            BodyPlan::EventStream => Self::event_stream(reduce_body(body)),
            BodyPlan::JsonDocument => Self::json_body(body),
        }
    }
}

/// Where one forwarded request stands: the number of the attempt that is
/// under way, from 1 to [`MAX_RETRIES`], and the report of the attempt that
/// failed last.
#[derive(Debug, PartialEq)]
pub struct RetryState {
    attempt: usize,
    last_error: Option<String>,
}

/// What a [`RetryState`] stands for.
pub struct RetryValue {
    pub attempt: nat,
    pub last_error: Option<Seq<char>>,
}

/// What comes after an attempt.
#[derive(Debug, PartialEq)]
pub enum NextStep {
    /// The forwarded request is over, with this result.
    Finish(Result<Json, String>),
    /// Wait this long, then make the attempt that `state` counts.
    Retry { delay_ms: u64, state: RetryState },
}

/// What a [`NextStep`] stands for.
pub enum StepValue {
    Finish(Result<JsonValue, Seq<char>>),
    Retry { delay_ms: nat, state: RetryValue },
}

impl View for RetryState {
    type V = RetryValue;

    closed spec fn view(&self) -> RetryValue {
        RetryValue { attempt: self.attempt as nat, last_error: option_text(self.last_error) }
    }
}

impl View for NextStep {
    type V = StepValue;

    open spec fn view(&self) -> StepValue {
        match self {
            NextStep::Finish(result) => StepValue::Finish(result_value(*result)),
            NextStep::Retry { delay_ms, state } => StepValue::Retry {
                delay_ms: *delay_ms as nat,
                state: state@,
            },
        }
    }
}

/// The course of a forwarded request over the attempts made so far.
pub struct CourseValue {
    /// What the request came to, once it is over.
    pub result: Option<Result<JsonValue, Seq<char>>>,
    /// The delays that were waited, in order.
    pub delays: Seq<nat>,
    /// How many attempts were made.
    pub attempts: nat,
}

impl RetryValue {
    /// The state of a request before its first attempt.
    pub open spec fn start() -> RetryValue {
        RetryValue { attempt: 1, last_error: None }
    }

    /// What follows when the attempt under way ends in `outcome`: a failure
    /// that may pass is retried after the backoff delay as long as attempts
    /// remain, and everything else ends the request with what the attempt
    /// came to.
    pub open spec fn step(self, outcome: OutcomeValue) -> StepValue {
        if outcome.is_transient() && self.attempt < MAX_RETRIES {
            StepValue::Retry {
                delay_ms: backoff_delay(self.attempt),
                state: RetryValue {
                    attempt: self.attempt + 1,
                    last_error: Some(outcome.settle()->Err_0),
                },
            }
        } else {
            StepValue::Finish(outcome.settle())
        }
    }

    /// The error of a request that ran out of attempts: the report recorded
    /// last, or a general one.
    pub open spec fn exhausted(self) -> Seq<char> {
        match self.last_error {
            Some(message) => message,
            None => unknown_failure_report(),
        }
    }

    /// The course that a request takes from this state when its attempts end
    /// in `outcomes`, one after the other. Outcomes after the one that ends
    /// the request are not looked at: no attempt is made for them.
    pub open spec fn course(self, outcomes: Seq<OutcomeValue>) -> CourseValue
        decreases outcomes.len(),
    {
        if outcomes.len() == 0 {
            CourseValue { result: None, delays: Seq::empty(), attempts: 0 }
        } else {
            match self.step(outcomes[0]) {
                StepValue::Finish(result) => CourseValue {
                    result: Some(result),
                    delays: Seq::empty(),
                    attempts: 1,
                },
                StepValue::Retry { delay_ms, state } => {
                    let rest = state.course(outcomes.drop_first());
                    CourseValue {
                        result: rest.result,
                        delays: seq![delay_ms] + rest.delays,
                        attempts: 1 + rest.attempts,
                    }
                },
            }
        }
    }
}

impl RetryState {
    #[verifier::type_invariant]
    spec fn in_range(self) -> bool {
        1 <= self.attempt <= MAX_RETRIES
    }

    /// The state of a request before its first attempt.
    pub fn new() -> (state: RetryState)
        ensures
            state@ == RetryValue::start(),
    {
        RetryState { attempt: 1, last_error: None }
    }

    /// The number of the attempt under way.
    pub fn attempt(&self) -> (attempt: usize)
        ensures
            attempt == self@.attempt,
            1 <= attempt <= MAX_RETRIES,
    {
        proof {
            use_type_invariant(self);
        }
        self.attempt
    }

    /// The report of the attempt that failed last, if one did.
    pub fn last_error(&self) -> (message: Option<&String>)
        ensures
            match message {
                Some(m) => self@.last_error == Some(m@),
                None => self@.last_error is None,
            },
    {
        self.last_error.as_ref()
    }

    /// Decides what follows the attempt under way, given what it came to.
    ///
    /// A decoded value ends the request with that value. A failure that may
    /// pass is answered with a retry after the backoff delay of this attempt,
    /// unless this was the last attempt. Every other failure ends the request
    /// at once with its report.
    pub fn step(self, outcome: ForwardOutcome) -> (next: NextStep)
        ensures
            next@ == self@.step(outcome@),
    {
        proof {
            use_type_invariant(&self);
        }
        if outcome.is_transient() && self.attempt < MAX_RETRIES {
            let delay_ms = BunDocsClient::backoff_delay_ms(self.attempt);
            let attempt = self.attempt + 1;
            match outcome.settle() {
                Ok(value) => NextStep::Finish(Ok(value)),
                Err(message) => NextStep::Retry {
                    delay_ms,
                    state: RetryState { attempt, last_error: Some(message) },
                },
            }
        } else {
            NextStep::Finish(outcome.settle())
        }
    }

    /// The error of a request that ran out of attempts without an answer:
    /// the report recorded last, or a general one where none was recorded.
    pub fn exhausted(self) -> (message: String)
        ensures
            message@ == self@.exhausted(),
    {
        match self.last_error {
            Some(message) => message,
            None => String::from_str("Unknown error sending request"),
        }
    }
}

/// The sum of a sequence of delays.
pub open spec fn total_delay(delays: Seq<nat>) -> nat
    decreases delays.len(),
{
    if delays.len() == 0 {
        0
    } else {
        delays[0] + total_delay(delays.drop_first())
    }
}

/// An attempt that ends in anything but a failure that may pass ends the
/// request at once, with what the attempt came to: no delay, no further
/// attempt.
pub proof fn lemma_no_retry_unless_transient(state: RetryValue, outcome: OutcomeValue)
    requires
        !outcome.is_transient(),
    ensures
        state.step(outcome) == StepValue::Finish(outcome.settle()),
{
}

/// The last attempt is never followed by a delay: whatever it came to ends
/// the request.
pub proof fn lemma_last_attempt_finishes(state: RetryValue, outcome: OutcomeValue)
    requires
        state.attempt >= MAX_RETRIES,
    ensures
        state.step(outcome) == StepValue::Finish(outcome.settle()),
{
}

/// A first attempt that fails in a way that may pass, followed by one that
/// is answered with `value`, gives `value` after a single delay of 200
/// milliseconds.
pub proof fn lemma_retry_then_succeed(first: OutcomeValue, value: JsonValue)
    requires
        first.is_transient(),
    ensures
        ({
            &&& RetryValue::start().step(first) matches StepValue::Retry { delay_ms, state }
            &&& delay_ms == 200
            &&& state.attempt == 2
            &&& state.step(OutcomeValue::Decoded(value)) == StepValue::Finish(Ok(value))
        }),
{
    lemma_backoff_sequence(1);
}

/// Three attempts that each fail in a way that may pass end the request
/// with the report of the third, after delays of 200 and 400 milliseconds and
/// none after the last attempt.
pub proof fn lemma_retry_exhaustion(first: OutcomeValue, second: OutcomeValue, third: OutcomeValue)
    requires
        first.is_transient(),
        second.is_transient(),
        third.is_transient(),
    ensures
        ({
            &&& RetryValue::start().step(first) matches StepValue::Retry {
                delay_ms: first_delay,
                state: after_first,
            }
            &&& first_delay == 200
            &&& after_first.step(second) matches StepValue::Retry {
                delay_ms: second_delay,
                state: after_second,
            }
            &&& second_delay == 400
            &&& after_second.step(third) == StepValue::Finish(third.settle())
            &&& third.settle() is Err
        }),
{
    lemma_backoff_sequence(1);
}

/// Whatever the attempts come to, a request makes no more attempts than are
/// left to it, waits once less often than it makes attempts if it comes to an
/// end, and is over once its last attempt is.
pub proof fn lemma_course_is_bounded(state: RetryValue, outcomes: Seq<OutcomeValue>)
    requires
        1 <= state.attempt <= MAX_RETRIES,
    ensures
        state.course(outcomes).attempts <= MAX_RETRIES - state.attempt + 1,
        state.course(outcomes).attempts <= outcomes.len(),
        state.course(outcomes).result is Some ==> state.course(outcomes).delays.len() + 1
            == state.course(outcomes).attempts,
        state.course(outcomes).result is None ==> state.course(outcomes).delays.len()
            == state.course(outcomes).attempts,
        outcomes.len() >= MAX_RETRIES - state.attempt + 1 ==> state.course(outcomes).result is Some,
    decreases outcomes.len(),
{
    if outcomes.len() > 0 {
        match state.step(outcomes[0]) {
            StepValue::Finish(_) => {},
            StepValue::Retry { delay_ms, state: next } => {
                lemma_course_is_bounded(next, outcomes.drop_first());
            },
        }
    }
}

/// A request that starts afresh makes at most three attempts and waits at
/// most twice, for 200 and then 400 milliseconds: 600 milliseconds in all.
pub proof fn lemma_course_from_start(outcomes: Seq<OutcomeValue>)
    ensures
        RetryValue::start().course(outcomes).attempts <= MAX_RETRIES,
        RetryValue::start().course(outcomes).delays.len() <= 2,
        RetryValue::start().course(outcomes).delays.is_prefix_of(seq![200nat, 400nat]),
        total_delay(RetryValue::start().course(outcomes).delays) <= 600,
{
    let start = RetryValue::start();
    lemma_backoff_sequence(1);
    lemma_course_is_bounded(start, outcomes);
    reveal_with_fuel(RetryValue::course, 4);
    reveal_with_fuel(total_delay, 4);
    if outcomes.len() > 0 {
        if let StepValue::Retry { state: second, .. } = start.step(outcomes[0]) {
            let rest = outcomes.drop_first();
            lemma_course_is_bounded(second, rest);
            if rest.len() > 0 {
                if let StepValue::Retry { state: third, .. } = second.step(rest[0]) {
                    lemma_course_is_bounded(third, rest.drop_first());
                }
            }
        }
    }
}

/// The report on a failed response shows the status number right after
/// `status=`.
pub proof fn lemma_report_names_status(status: u16, headers: Seq<HeaderLine>, body: Seq<u8>)
    ensures
        ({
            let report = failure_report(status, headers, body);
            let start = "Bun Docs API error: status="@.len() as int;
            let end = start + decimal(status as nat).len();
            end <= report.len() && report.subrange(start, end) == decimal(status as nat)
        }),
{
}

} // verus!
