//! The reduction of a Server-Sent-Events stream to the one JSON-RPC payload
//! that it carries.
//!
//! The backend may answer a request with a stream of events. Only events of
//! type `message` or `completion` count, and among them the first whose data
//! is a JSON value with a `result` or an `error` member is the answer. Each
//! event is looked at by itself: a payload that is spread over several events
//! is never put together, and such a stream yields no answer.

use crate::json::{option_value, parsed_text, Json, JsonValue};
use crate::text::str_eq;
use eventsource_stream::Eventsource;
use futures::{FutureExt, StreamExt};
use vstd::prelude::*;
use vstd::string::StringExecFns;

verus! {

/// The type of an event that names none.
pub const DEFAULT_EVENT_TYPE: &'static str = "message";

/// The other event type that may carry the answer.
pub const COMPLETION_EVENT_TYPE: &'static str = "completion";

/// One event of a stream: its type as sent, which may be empty, and its data.
#[derive(Debug, PartialEq)]
pub struct SseEvent {
    pub event: String,
    pub data: String,
}

/// One item of a stream: an event, or the failure of the stream.
#[derive(Debug, PartialEq)]
pub enum SseItem {
    Event(SseEvent),
    Failure,
}

/// What an [`SseEvent`] stands for.
pub struct EventValue {
    pub event: Seq<char>,
    pub data: Seq<char>,
}

/// What an [`SseItem`] stands for.
pub enum ItemValue {
    Event(EventValue),
    Failure,
}

impl View for SseEvent {
    type V = EventValue;

    open spec fn view(&self) -> EventValue {
        EventValue { event: self.event@, data: self.data@ }
    }
}

impl View for SseItem {
    type V = ItemValue;

    open spec fn view(&self) -> ItemValue {
        match self {
            SseItem::Event(event) => ItemValue::Event(event@),
            SseItem::Failure => ItemValue::Failure,
        }
    }
}

/// What a sequence of stream items stands for.
pub open spec fn items_of(items: Seq<SseItem>) -> Seq<ItemValue> {
    Seq::new(items.len(), |i: int| items[i]@)
}

/// The error of a stream that carried no answer.
pub open spec fn no_response_report() -> Seq<char> {
    "No valid JSON-RPC response in SSE stream"@
}

/// Whether a JSON value is a JSON-RPC answer: an object with a `result` or an
/// `error` member, whatever that member holds.
pub open spec fn is_envelope(value: JsonValue) -> bool {
    value.get("result"@) is Some || value.get("error"@) is Some
}

impl EventValue {
    /// The type of the event, with `message` for an event that names none.
    pub open spec fn effective_type(self) -> Seq<char> {
        if self.event.len() == 0 {
            DEFAULT_EVENT_TYPE@
        } else {
            self.event
        }
    }

    /// Whether the event is of a type that may carry the answer.
    pub open spec fn is_handled(self) -> bool {
        self.effective_type() == DEFAULT_EVENT_TYPE@ || self.effective_type()
            == COMPLETION_EVENT_TYPE@
    }

    /// The answer that the event carries, given what its data reads as. An
    /// event of another type carries none, nor does one without data, one
    /// whose data is no JSON, or one whose JSON is no JSON-RPC answer.
    pub open spec fn payload_from(self, parsed: Option<JsonValue>) -> Option<JsonValue> {
        if !self.is_handled() || self.data.len() == 0 {
            None
        } else {
            match parsed {
                Some(value) => if is_envelope(value) {
                    Some(value)
                } else {
                    None
                },
                None => None,
            }
        }
    }

    /// The answer that the event carries, if it carries one.
    pub open spec fn payload(self) -> Option<JsonValue> {
        self.payload_from(parsed_text(self.data))
    }
}

impl ItemValue {
    /// What the item settles: the answer of an event that carries one, the
    /// error for a failed stream, and nothing for every other event, after
    /// which the stream is read on.
    pub open spec fn verdict(self) -> Option<Result<JsonValue, Seq<char>>> {
        match self {
            ItemValue::Event(event) => match event.payload() {
                Some(value) => Some(Ok(value)),
                None => None,
            },
            ItemValue::Failure => Some(Err(no_response_report())),
        }
    }
}

/// What a stream comes to: the verdict of the first item that has one, and the
/// error where the stream ends before any item had.
pub open spec fn reduce(items: Seq<ItemValue>) -> Result<JsonValue, Seq<char>>
    decreases items.len(),
{
    if items.len() == 0 {
        Err(no_response_report())
    } else {
        match items[0].verdict() {
            Some(result) => result,
            None => reduce(items.drop_first()),
        }
    }
}

/// The value of a verdict.
pub open spec fn verdict_value(verdict: Option<Result<Json, String>>) -> Option<
    Result<JsonValue, Seq<char>>,
> {
    match verdict {
        Some(Ok(value)) => Some(Ok(value@)),
        Some(Err(message)) => Some(Err(message@)),
        None => None,
    }
}

/// The value of a reduced stream.
pub open spec fn reduced_value(result: Result<Json, String>) -> Result<JsonValue, Seq<char>> {
    match result {
        Ok(value) => Ok(value@),
        Err(message) => Err(message@),
    }
}

/// A stream comes to the answer of its first event that carries one, if only
/// events without an answer stand before it. What follows that event plays no
/// part.
pub proof fn lemma_reduce_first_answer(items: Seq<ItemValue>, index: int, answer: JsonValue)
    requires
        0 <= index < items.len(),
        items[index].verdict() == Some(Ok::<JsonValue, Seq<char>>(answer)),
        forall|k: int| 0 <= k < index ==> (#[trigger] items[k]).verdict() is None,
    ensures
        reduce(items) == Ok::<JsonValue, Seq<char>>(answer),
    decreases index,
{
    if index > 0 {
        lemma_reduce_first_answer(items.drop_first(), index - 1, answer);
    }
}

/// Once a stream has come to an answer, nothing that arrives later changes
/// it.
pub proof fn lemma_reduce_settled(read: Seq<ItemValue>, later: Seq<ItemValue>)
    requires
        reduce(read) is Ok,
    ensures
        reduce(read + later) == reduce(read),
    decreases read.len(),
{
    if read.len() > 0 {
        assert((read + later).drop_first() =~= read.drop_first() + later);
        if read[0].verdict() is None {
            lemma_reduce_settled(read.drop_first(), later);
        }
    }
}

/// A stream without an answer in it comes to the error: one that ends, and one
/// that fails, before any event carried an answer.
pub proof fn lemma_reduce_no_answer(items: Seq<ItemValue>)
    requires
        forall|k: int| 0 <= k < items.len() ==> !((#[trigger] items[k]).verdict() is Some
            && items[k].verdict()->0 is Ok),
    ensures
        reduce(items) == Err::<JsonValue, Seq<char>>(no_response_report()),
    decreases items.len(),
{
    if items.len() > 0 {
        lemma_reduce_no_answer(items.drop_first());
    }
}

/// Whether a body starts with the UTF-8 byte-order mark.
pub open spec fn starts_with_bom(body: Seq<u8>) -> bool {
    body.len() >= 3 && body[0] == 0xef && body[1] == 0xbb && body[2] == 0xbf
}

/// The items that `eventsource_stream` makes of a body that arrives in one
/// piece: its events in order and, where the stream breaks off with an error,
/// a failure in that place.
pub uninterp spec fn stream_items(body: Seq<u8>) -> Seq<ItemValue>;

/// `Eventsource::eventsource` of `eventsource_stream`, on a stream that hands
/// out `body` as its only chunk, polled to its end. Each event keeps its type
/// and its data, each error becomes a failure. The result is given the name
/// [`stream_items`]. A body that starts with a byte-order mark is kept out:
/// the parser cuts such a mark off at a byte offset that is no character
/// boundary, and panics.
#[verifier::external_body]
fn read_stream(body: &[u8]) -> (items: Vec<SseItem>)
    requires
        !starts_with_bom(body@),
    ensures
        items_of(items@) == stream_items(body@),
{
    futures::stream::iter([Ok::<&[u8], std::convert::Infallible>(body)])
        .eventsource()
        .map(|item| match item {
            Ok(event) => SseItem::Event(SseEvent { event: event.event, data: event.data }),
            Err(_) => SseItem::Failure,
        })
        .collect::<Vec<SseItem>>()
        .now_or_never()
        .unwrap_or_default()
}

/// What a body that holds a whole event stream comes to. A body that starts
/// with a byte-order mark is not read as a stream, and comes to the error.
pub open spec fn reduce_bytes(body: Seq<u8>) -> Result<JsonValue, Seq<char>> {
    if starts_with_bom(body) {
        Err(no_response_report())
    } else {
        reduce(stream_items(body))
    }
}

/// Whether a JSON value is a JSON-RPC answer: an object with a `result` or an
/// `error` member.
pub fn is_rpc_envelope(value: &Json) -> (envelope: bool)
    ensures
        envelope == is_envelope(value@),
{
    value.get("result").is_some() || value.get("error").is_some()
}

impl SseEvent {
    /// Whether the event is of a type that may carry the answer: `message`,
    /// which an event without a type counts as, or `completion`.
    pub fn is_handled(&self) -> (handled: bool)
        ensures
            handled == self@.is_handled(),
    {
        if self.event.as_str().is_empty() {
            true
        } else {
            str_eq(self.event.as_str(), DEFAULT_EVENT_TYPE) || str_eq(
                self.event.as_str(),
                COMPLETION_EVENT_TYPE,
            )
        }
    }

    /// The answer that the event carries, given what its data was read as by
    /// the JSON parser.
    pub fn payload_from(&self, parsed: Option<Json>) -> (payload: Option<Json>)
        ensures
            option_value(payload) == self@.payload_from(option_value(parsed)),
    {
        if !self.is_handled() || self.data.as_str().is_empty() {
            None
        } else {
            match parsed {
                Some(value) => {
                    if is_rpc_envelope(&value) {
                        Some(value)
                    } else {
                        None
                    }
                },
                None => None,
            }
        }
    }

    /// The answer that the event carries, if it carries one. Data that is no
    /// JSON is passed over, as is every event of another type.
    pub fn payload(&self) -> (payload: Option<Json>)
        ensures
            option_value(payload) == self@.payload(),
    {
        if !self.is_handled() || self.data.as_str().is_empty() {
            None
        } else {
            self.payload_from(Json::parse(self.data.as_str()))
        }
    }
}

/// The error of a stream that carried no answer.
pub fn no_response_error() -> (message: String)
    ensures
        message@ == no_response_report(),
{
    String::from_str("No valid JSON-RPC response in SSE stream")
}

impl SseItem {
    /// Looks at one item of a stream as it arrives. `Some` settles the
    /// stream, which need not be read further: with the answer that an event
    /// carries, or with the error where the stream failed. `None` asks for the
    /// next item.
    pub fn verdict(&self) -> (verdict: Option<Result<Json, String>>)
        ensures
            verdict_value(verdict) == self@.verdict(),
    {
        match self {
            SseItem::Event(event) => match event.payload() {
                Some(value) => Some(Ok(value)),
                None => None,
            },
            SseItem::Failure => Some(Err(no_response_error())),
        }
    }
}

/// The result of a stream that ends before any of its items settled it: the
/// error.
pub fn end_of_stream() -> (result: Result<Json, String>)
    ensures
        reduced_value(result) == reduce(Seq::empty()),
{
    Err(no_response_error())
}

/// Reduces the items of a stream to its answer: that of the first event that
/// carries one. No item after it is looked at. A stream that fails or ends
/// before such an event comes to the error.
pub fn reduce_events(items: &Vec<SseItem>) -> (result: Result<Json, String>)
    ensures
        reduced_value(result) == reduce(items_of(items@)),
{
    let ghost all = items_of(items@);
    let mut i: usize = 0;
    assert(all.skip(0) == all);
    while i < items.len()
        invariant
            i <= items.len(),
            all == items_of(items@),
            reduce(all) == reduce(all.skip(i as int)),
        decreases items.len() - i,
    {
        assert(all.skip(i as int).drop_first() == all.skip(i as int + 1));
        match items[i].verdict() {
            Some(result) => {
                return result;
            },
            None => {},
        }
        i = i + 1;
    }
    end_of_stream()
}

/// Reduces a body that holds a whole event stream to its answer.
pub fn reduce_body(body: &[u8]) -> (result: Result<Json, String>)
    ensures
        reduced_value(result) == reduce_bytes(body@),
{
    if body.len() >= 3 && body[0] == 0xef && body[1] == 0xbb && body[2] == 0xbf {
        Err(no_response_error())
    } else {
        let items = read_stream(body);
        reduce_events(&items)
    }
}

} // verus!
