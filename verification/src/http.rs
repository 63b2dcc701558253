//! The HTTP side of the bridge, as far as it is policy: the backoff between
//! attempts, which failures are worth a retry, what the headers of a response
//! say, and how its body is to be read.
//!
//! Nothing here touches the network. The program that owns the connection
//! sends the requests; the functions of this module say what to make of the
//! answers.

use crate::text::{
    before, chars_of, decimal, decimal_string, find_char, has_prefix, join, join_strings,
    is_whitespace, lemma_index_of, lemma_trim, lowercase, option_text, string_from_chars, texts_of,
    to_ascii_lowercase, trim, trim_range, truncated,
};
use vstd::arithmetic::power2::{lemma2_to64, lemma_pow2_strictly_increases, lemma_pow2_unfold, pow2};
use vstd::prelude::*;
use vstd::string::{StringExecFns, StringSliceAdditionalSpecFns};

verus! {

/// The address of the documentation backend.
pub const BUN_DOCS_API: &'static str = "https://bun.com/docs/mcp";

/// How long one attempt may take, in seconds.
pub const REQUEST_TIMEOUT_SECS: u64 = 5;

/// How many attempts one forwarded request gets.
pub const MAX_RETRIES: usize = 3;

/// The delay after the first failed attempt, in milliseconds.
pub const BACKOFF_BASE_MS: u64 = 200;

/// The longest delay between two attempts, in milliseconds.
pub const BACKOFF_MAX_MS: u64 = 1000;

/// How many bytes of a failed response's body are looked at.
pub const MAX_ERROR_BODY_SIZE: usize = 100_000;

/// How many bytes of a failed response's body are quoted in the report.
pub const MAX_BODY_SNIPPET_SIZE: usize = 2048;

/// How many headers of a failed response are listed in the report.
pub const MAX_SUMMARY_HEADERS: usize = 8;

/// The name of the header that declares the body's type.
pub const CONTENT_TYPE: &'static str = "content-type";

/// The content type of the request body.
pub const JSON_CONTENT_TYPE: &'static str = "application/json";

/// The content types that the bridge accepts in answer.
pub const ACCEPTED_CONTENT_TYPES: &'static str = "application/json, text/event-stream";

/// The content type of a Server-Sent-Events stream.
pub const EVENT_STREAM_CONTENT_TYPE: &'static str = "text/event-stream";

/// The content type that is asked for when a documentation page is fetched.
pub const MARKDOWN_CONTENT_TYPE: &'static str = "text/markdown";

/// One header of a response: its name, in lower case as HTTP libraries hand
/// it out, and its value as the bytes that were sent.
#[derive(Debug, PartialEq)]
pub struct Header {
    pub name: String,
    pub value: Vec<u8>,
}

/// What a [`Header`] stands for.
pub struct HeaderLine {
    pub name: Seq<char>,
    pub value: Seq<u8>,
}

impl View for Header {
    type V = HeaderLine;

    open spec fn view(&self) -> HeaderLine {
        HeaderLine { name: self.name@, value: self.value@ }
    }
}

/// What a list of headers stands for.
pub open spec fn lines_of(headers: Seq<Header>) -> Seq<HeaderLine> {
    Seq::new(headers.len(), |i: int| headers[i]@)
}

/// The delay before the retry that follows attempt number `attempt`: the base
/// delay doubled with every earlier attempt, and never more than the cap.
pub open spec fn backoff_delay(attempt: nat) -> nat
    recommends
        attempt >= 1,
{
    let doubled = BACKOFF_BASE_MS as nat * pow2((attempt - 1) as nat);
    if doubled < BACKOFF_MAX_MS as nat {
        doubled
    } else {
        BACKOFF_MAX_MS as nat
    }
}

/// The first delays are 200, 400 and 800 milliseconds, and from the fourth
/// attempt on the delay is the cap of 1000.
pub proof fn lemma_backoff_sequence(attempt: nat)
    requires
        attempt >= 1,
    ensures
        backoff_delay(1) == 200,
        backoff_delay(2) == 400,
        backoff_delay(3) == 800,
        backoff_delay(4) == 1000,
        attempt >= 4 ==> backoff_delay(attempt) == BACKOFF_MAX_MS,
        backoff_delay(attempt) <= BACKOFF_MAX_MS,
{
    lemma2_to64();
    if attempt > 4 {
        lemma_pow2_strictly_increases(3, (attempt - 1) as nat);
    }
    assert(attempt >= 4 ==> BACKOFF_BASE_MS as nat * pow2((attempt - 1) as nat) >= 1600)
        by (nonlinear_arith)
        requires
            attempt >= 4 ==> pow2((attempt - 1) as nat) >= 8,
            BACKOFF_BASE_MS == 200,
    ;
}

/// A later attempt never waits less than an earlier one.
pub proof fn lemma_backoff_monotonic(earlier: nat, later: nat)
    requires
        1 <= earlier <= later,
    ensures
        backoff_delay(earlier) <= backoff_delay(later),
{
    if earlier < later {
        lemma_pow2_strictly_increases((earlier - 1) as nat, (later - 1) as nat);
        assert(BACKOFF_BASE_MS as nat * pow2((earlier - 1) as nat) <= BACKOFF_BASE_MS as nat * pow2(
            (later - 1) as nat,
        )) by (nonlinear_arith)
            requires
                pow2((earlier - 1) as nat) < pow2((later - 1) as nat),
        ;
    }
}

/// Whether a response with this status is worth a retry: rate limiting and
/// the server errors that pass.
pub open spec fn transient_status(status: u16) -> bool {
    status == 429 || status == 500 || status == 502 || status == 503 || status == 504
}

/// Whether this status reports success: the codes from 200 to 299.
pub open spec fn success_status(status: u16) -> bool {
    200 <= status < 300
}

/// Whether a failure to send is worth a retry: a connection that could not be
/// made, a timeout, or a request that could not be put together.
pub open spec fn transient_network_error(connect: bool, timeout: bool, request: bool) -> bool {
    connect || timeout || request
}

/// Whether a header value is text: only visible ASCII characters, spaces and
/// tabs.
pub open spec fn is_header_text(value: Seq<u8>) -> bool {
    forall|i: int| 0 <= i < value.len() ==> is_visible_ascii(#[trigger] value[i])
}

/// A byte that may stand in a header value that is text.
pub open spec fn is_visible_ascii(b: u8) -> bool {
    (32 <= b < 127) || b == 9
}

/// The characters that the bytes of an ASCII text stand for.
pub open spec fn ascii_chars(value: Seq<u8>) -> Seq<char> {
    Seq::new(value.len(), |i: int| value[i] as char)
}

/// The value of the first header called `name`, if there is one.
pub open spec fn first_value(headers: Seq<HeaderLine>, name: Seq<char>) -> Option<Seq<u8>>
    decreases headers.len(),
{
    if headers.len() == 0 {
        None
    } else if headers[0].name == name {
        Some(headers[0].value)
    } else {
        first_value(headers.drop_first(), name)
    }
}

/// The main content type that a header value declares: what stands before
/// the first `;`, without surrounding whitespace, in lower case.
pub open spec fn main_type(value: Seq<char>) -> Seq<char> {
    to_ascii_lowercase(trim(before(value, ';')))
}

/// A main content type is in normal form: it holds no `;` and no ASCII capital
/// letter, and neither starts nor ends with whitespace.
pub proof fn lemma_main_type_is_normal(value: Seq<char>)
    ensures
        forall|i: int|
            0 <= i < main_type(value).len() ==> (#[trigger] main_type(value)[i]) != ';' && !('A'
                <= main_type(value)[i] <= 'Z'),
        main_type(value).len() > 0 ==> !is_whitespace(main_type(value)[0]) && !is_whitespace(
            main_type(value).last(),
        ),
{
    let head = before(value, ';');
    lemma_index_of(value, ';');
    lemma_trim(head);
    let (from, to) = choose|from: int, to: int|
        0 <= from <= to <= head.len() && #[trigger] head.subrange(from, to) == trim(head);
    let kept = trim(head);
    assert forall|i: int| 0 <= i < kept.len() implies (#[trigger] kept[i]) != ';' by {
        assert(kept[i] == head.subrange(from, to)[i]);
    }
}

/// The main content type that the headers declare, or the empty text where
/// they declare none that can be read: no `content-type` header, or one whose
/// value is not text.
pub open spec fn main_content_type_of(headers: Seq<HeaderLine>) -> Seq<char> {
    match first_value(headers, CONTENT_TYPE@) {
        Some(value) => if is_header_text(value) {
            main_type(ascii_chars(value))
        } else {
            Seq::empty()
        },
        None => Seq::empty(),
    }
}

/// How a header reads in a report: its name, a colon, and its value, or
/// `<binary>` in place of a value that is not text.
pub open spec fn header_report(header: HeaderLine) -> Seq<char> {
    header.name + ": "@ + if is_header_text(header.value) {
        ascii_chars(header.value)
    } else {
        "<binary>"@
    }
}

/// The reports of a list of headers.
pub open spec fn header_reports(headers: Seq<HeaderLine>) -> Seq<Seq<char>> {
    Seq::new(headers.len(), |i: int| header_report(headers[i]))
}

/// The summary of a response's headers: the reports of the first eight,
/// separated by commas.
pub open spec fn header_summary(headers: Seq<HeaderLine>) -> Seq<char> {
    let listed = if headers.len() <= MAX_SUMMARY_HEADERS {
        headers
    } else {
        headers.take(MAX_SUMMARY_HEADERS as int)
    };
    join(header_reports(listed), ", "@)
}

/// The characters of a header value that is text; nothing for a value that is
/// not.
pub fn header_text(value: &Vec<u8>) -> (text: Option<Vec<char>>)
    ensures
        match text {
            Some(chars) => is_header_text(value@) && chars@ == ascii_chars(value@),
            None => !is_header_text(value@),
        },
{
    let mut chars: Vec<char> = Vec::new();
    let mut i: usize = 0;
    while i < value.len()
        invariant
            i <= value.len(),
            chars@.len() == i,
            forall|k: int| 0 <= k < i ==> is_visible_ascii(#[trigger] value@[k]),
            forall|k: int| 0 <= k < i ==> chars@[k] == value@[k] as char,
        decreases value.len() - i,
    {
        let b: u8 = value[i];
        if !((32 <= b && b < 127) || b == 9) {
            return None;
        }
        chars.push(b as char);
        i = i + 1;
    }
    Some(chars)
}

/// The reason phrase that `http::StatusCode::canonical_reason` knows for a
/// status, as `reqwest` hands that type on; `None` for a status it has no
/// phrase for, and for a number that `StatusCode::from_u16` takes for no
/// status at all.
pub uninterp spec fn reason_phrase(status: u16) -> Option<Seq<char>>;

/// The text of the URL that `reqwest::Url::parse` reads `url` as; `None`
/// where it reports an error.
pub uninterp spec fn normalized_url(url: Seq<char>) -> Option<Seq<char>>;

/// `StatusCode::canonical_reason` of `reqwest`, on the status that
/// `StatusCode::from_u16` makes of the number. The result is given the name
/// [`reason_phrase`].
#[verifier::external_body]
fn canonical_reason(status: u16) -> (reason: Option<String>)
    ensures
        option_text(reason) == reason_phrase(status),
{
    reqwest::StatusCode::from_u16(status).ok().and_then(|s| s.canonical_reason()).map(str::to_owned)
}

/// `reqwest::Url::parse`: the text of the URL it reads, or nothing where it
/// reports an error. The result is given the name [`normalized_url`].
#[verifier::external_body]
fn parse_url(url: &str) -> (normal: Option<String>)
    ensures
        option_text(normal) == normalized_url(url@),
{
    reqwest::Url::parse(url).ok().map(String::from)
}

/// How a status reads in a report, given its reason phrase: its number, and
/// the phrase or a remark that it has none.
pub open spec fn status_text_with(status: u16, reason: Option<Seq<char>>) -> Seq<char> {
    decimal(status as nat) + " "@ + match reason {
        Some(reason) => reason,
        None => "<unknown status code>"@,
    }
}

/// How a status reads in a report: its number and its canonical reason
/// phrase.
pub open spec fn status_text(status: u16) -> Seq<char> {
    status_text_with(status, reason_phrase(status))
}

/// How a status reads in a report, given its reason phrase.
pub fn status_line_with(status: u16, reason: Option<&str>) -> (line: String)
    ensures
        line@ == status_text_with(
            status,
            match reason {
                Some(r) => Some(r@),
                None => None,
            },
        ),
{
    let mut line = decimal_string(status as u64);
    line.append(" ");
    match reason {
        Some(reason) => {
            line.append(reason);
        },
        None => {
            line.append("<unknown status code>");
        },
    }
    line
}

/// How a status reads in a report: its number and its canonical reason
/// phrase, as in `503 Service Unavailable`.
pub fn status_line(status: u16) -> (line: String)
    ensures
        line@ == status_text(status),
{
    match canonical_reason(status) {
        Some(reason) => status_line_with(status, Some(reason.as_str())),
        None => status_line_with(status, None),
    }
}

/// How a body is to be read, once status and headers are known.
#[derive(Debug, PartialEq, Eq, Clone, Copy)]
pub enum BodyPlan {
    /// The response succeeded and streams Server-Sent Events.
    EventStream,
    /// The response succeeded and its body is one JSON document.
    JsonDocument,
    /// The response did not succeed: its body goes into the report.
    Diagnostic,
}

/// How the body of a response with this status and these headers is read: a
/// success is an event stream if its main content type starts with
/// `text/event-stream` and a JSON document otherwise, and everything but a
/// success is material for the report.
pub open spec fn body_plan_of(status: u16, headers: Seq<HeaderLine>) -> BodyPlan {
    if !success_status(status) {
        BodyPlan::Diagnostic
    } else if EVENT_STREAM_CONTENT_TYPE@.is_prefix_of(main_content_type_of(headers)) {
        BodyPlan::EventStream
    } else {
        BodyPlan::JsonDocument
    }
}

/// The report on a documentation page that was answered with a status other
/// than success, given how the status reads.
pub open spec fn markdown_failure_report(status_text: Seq<char>, url: Seq<char>) -> Seq<char> {
    "Failed to fetch markdown: HTTP "@ + status_text + " for URL: "@ + url
}

/// What the check of a documentation page's status comes to, given how the
/// status reads: nothing to report for a success, and the report for every
/// other status.
pub open spec fn markdown_status_check(status: u16, status_text: Seq<char>, url: Seq<char>)
    -> Option<Seq<char>> {
    if success_status(status) {
        None
    } else {
        Some(markdown_failure_report(status_text, url))
    }
}

/// The client that the URL parser's answer gives: one for the address it
/// read, and none for an address it refused.
pub open spec fn client_for(parsed: Option<Seq<char>>) -> Result<Seq<char>, Seq<char>> {
    match parsed {
        Some(address) => Ok(address),
        None => Err("Invalid base URL"@),
    }
}

/// What a constructed client stands for.
pub open spec fn client_value(client: Result<BunDocsClient, String>) -> Result<
    Seq<char>,
    Seq<char>,
> {
    match client {
        Ok(c) => Ok(c@),
        Err(message) => Err(message@),
    }
}

/// What a check that reports by message stands for.
pub open spec fn check_value(checked: Result<(), String>) -> Option<Seq<char>> {
    match checked {
        Ok(_) => None,
        Err(message) => Some(message@),
    }
}

/// The client of the documentation backend, as far as it is plain data: the
/// address that requests go to. The policy of the forwarding engine hangs on
/// it as associated functions.
#[derive(Debug, PartialEq)]
pub struct BunDocsClient {
    base_url: String,
}

impl View for BunDocsClient {
    type V = Seq<char>;

    /// A client stands for the address it sends to.
    closed spec fn view(&self) -> Seq<char> {
        self.base_url@
    }
}

impl Default for BunDocsClient {
    fn default() -> (client: BunDocsClient)
        ensures
            client@ == BUN_DOCS_API@,
    {
        BunDocsClient::new()
    }
}

impl BunDocsClient {
    /// The client of the documentation backend at its usual address.
    pub fn new() -> (client: BunDocsClient)
        ensures
            client@ == BUN_DOCS_API@,
    {
        BunDocsClient { base_url: BUN_DOCS_API.to_owned() }
    }

    /// The client that the URL parser's answer gives: one that sends to the
    /// address it read, or the refusal of an address it could not read.
    pub fn with_parsed_url(parsed: Option<String>) -> (client: Result<BunDocsClient, String>)
        ensures
            client_value(client) == client_for(option_text(parsed)),
    {
        match parsed {
            Some(address) => Ok(BunDocsClient { base_url: address }),
            None => Err(String::from_str("Invalid base URL")),
        }
    }

    /// The client of a backend at `url`. The address is kept in the form that
    /// the URL parser gives it; what the parser refuses is refused here.
    pub fn with_base_url(url: &str) -> (client: Result<BunDocsClient, String>)
        ensures
            client_value(client) == client_for(normalized_url(url@)),
    {
        Self::with_parsed_url(parse_url(url))
    }

    /// The address that requests go to.
    pub fn base_url(&self) -> (url: &str)
        ensures
            url@ == self@,
    {
        self.base_url.as_str()
    }

    /// The delay in milliseconds before the retry that follows attempt number
    /// `attempt`, counted from 1.
    pub fn backoff_delay_ms(attempt: usize) -> (delay: u64)
        requires
            attempt >= 1,
        ensures
            delay == backoff_delay(attempt as nat),
    {
        let mut delay: u64 = BACKOFF_BASE_MS;
        let mut reached: usize = 1;
        proof {
            lemma2_to64();
        }
        while reached < attempt && delay < BACKOFF_MAX_MS
            invariant
                1 <= reached <= attempt,
                delay == BACKOFF_BASE_MS as nat * pow2((reached - 1) as nat),
                delay < 2 * BACKOFF_MAX_MS,
            decreases attempt - reached,
        {
            proof {
                lemma_pow2_unfold(reached as nat);
            }
            delay = delay * 2;
            reached = reached + 1;
        }
        proof {
            if reached < attempt {
                lemma_pow2_strictly_increases((reached - 1) as nat, (attempt - 1) as nat);
                assert(BACKOFF_BASE_MS as nat * pow2((reached - 1) as nat) <= BACKOFF_BASE_MS as nat
                    * pow2((attempt - 1) as nat)) by (nonlinear_arith)
                    requires
                        pow2((reached - 1) as nat) < pow2((attempt - 1) as nat),
                ;
            }
        }
        if delay < BACKOFF_MAX_MS {
            delay
        } else {
            BACKOFF_MAX_MS
        }
    }

    /// Whether a response with this status is worth a retry. This holds of
    /// 429, 500, 502, 503 and 504, and of no other status.
    pub fn is_transient_status(status: u16) -> (transient: bool)
        ensures
            transient == transient_status(status),
            transient <==> status == 429 || status == 500 || status == 502 || status == 503
                || status == 504,
    {
        status == 429 || status == 500 || status == 502 || status == 503 || status == 504
    }

    /// Whether this status reports success.
    pub fn is_success_status(status: u16) -> (success: bool)
        ensures
            success == success_status(status),
    {
        200 <= status && status < 300
    }

    /// Whether a failure to send is worth a retry, from what the HTTP library
    /// says of it: that no connection could be made, that time ran out, or that
    /// the request could not be put together.
    pub fn is_transient_network_error(connect: bool, timeout: bool, request: bool) -> (transient:
        bool)
        ensures
            transient == transient_network_error(connect, timeout, request),
    {
        connect || timeout || request
    }

    /// The main content type of a response, in lower case and without
    /// parameters such as `charset`; the empty string where the headers declare
    /// none that can be read.
    pub fn main_content_type(headers: &Vec<Header>) -> (content_type: String)
        ensures
            content_type@ == main_content_type_of(lines_of(headers@)),
    {
        let name = CONTENT_TYPE.to_owned();
        let ghost lines = lines_of(headers@);
        let mut i: usize = 0;
        assert(lines.skip(0) == lines);
        while i < headers.len()
            invariant
                i <= headers.len(),
                lines == lines_of(headers@),
                name@ == CONTENT_TYPE@,
                first_value(lines, CONTENT_TYPE@) == first_value(lines.skip(i as int), CONTENT_TYPE@),
            decreases headers.len() - i,
        {
            assert(lines.skip(i as int).drop_first() == lines.skip(i as int + 1));
            if headers[i].name == name {
                match header_text(&headers[i].value) {
                    Some(chars) => {
                        let end = find_char(&chars, ';');
                        proof {
                            lemma_index_of(chars@, ';');
                        }
                        let trimmed = trim_range(&chars, 0, end);
                        let lowered = lowercase(&trimmed);
                        return string_from_chars(lowered.as_slice());
                    },
                    None => {
                        return String::new();
                    },
                }
            }
            i = i + 1;
        }
        String::new()
    }

    /// A short account of a response's headers for a report: the first eight,
    /// each as `name: value`, separated by commas. A value that is not text
    /// reads `<binary>`.
    pub fn summarize_headers(headers: &Vec<Header>) -> (summary: String)
        ensures
            summary@ == header_summary(lines_of(headers@)),
    {
        let count: usize = if headers.len() <= MAX_SUMMARY_HEADERS {
            headers.len()
        } else {
            MAX_SUMMARY_HEADERS
        };
        let ghost lines = lines_of(headers@);
        let ghost listed = lines.take(count as int);
        let mut reports: Vec<String> = Vec::new();
        let mut i: usize = 0;
        while i < count
            invariant
                i <= count <= headers.len(),
                lines == lines_of(headers@),
                listed == lines.take(count as int),
                reports@.len() == i,
                forall|k: int| 0 <= k < i ==> reports@[k]@ == header_report(lines[k]),
            decreases count - i,
        {
            let mut report = headers[i].name.clone();
            report.append(": ");
            match header_text(&headers[i].value) {
                Some(chars) => {
                    let value = string_from_chars(chars.as_slice());
                    report.append(value.as_str());
                },
                None => {
                    report.append("<binary>");
                },
            }
            reports.push(report);
            i = i + 1;
        }
        assert(texts_of(reports@) =~= header_reports(listed));
        assert(headers@.len() <= MAX_SUMMARY_HEADERS ==> listed == lines);
        join_strings(&reports, ", ")
    }

    /// Cuts `text` to at most `max_len` bytes of UTF-8 without splitting a
    /// character: the result is the longest prefix of whole characters that
    /// fits.
    pub fn truncate_utf8(text: &str, max_len: usize) -> (cut: &str)
        ensures
            cut@ == truncated(text@, max_len as nat),
            cut@.is_prefix_of(text@),
            cut.spec_bytes().len() <= max_len,
            text.spec_bytes().len() <= max_len ==> cut@ == text@,
    {
        crate::text::truncate_utf8(text, max_len)
    }

    /// Decides how the body of a response is to be read, from its status and
    /// headers alone.
    pub fn body_plan(status: u16, headers: &Vec<Header>) -> (plan: BodyPlan)
        ensures
            plan == body_plan_of(status, lines_of(headers@)),
    {
        if !Self::is_success_status(status) {
            BodyPlan::Diagnostic
        } else {
            let content_type = Self::main_content_type(headers);
            let chars = chars_of(content_type.as_str());
            let prefix = chars_of(EVENT_STREAM_CONTENT_TYPE);
            if has_prefix(&chars, &prefix) {
                BodyPlan::EventStream
            } else {
                BodyPlan::JsonDocument
            }
        }
    }

    /// Checks the status that a documentation page was answered with, given
    /// how the status reads.
    pub fn check_markdown_status_with(status: u16, status_text: &str, url: &str) -> (checked:
        Result<(), String>)
        ensures
            check_value(checked) == markdown_status_check(status, status_text@, url@),
    {
        if Self::is_success_status(status) {
            Ok(())
        } else {
            let mut message = String::from_str("Failed to fetch markdown: HTTP ");
            message.append(status_text);
            message.append(" for URL: ");
            message.append(url);
            Err(message)
        }
    }

    /// Checks the status that a documentation page was answered with: a
    /// success passes, and every other status is reported with the address
    /// that was asked for.
    pub fn check_markdown_status(status: u16, url: &str) -> (checked: Result<(), String>)
        ensures
            check_value(checked) == markdown_status_check(status, status_text(status), url@),
    {
        if Self::is_success_status(status) {
            Ok(())
        } else {
            let status_text = status_line(status);
            Self::check_markdown_status_with(status, status_text.as_str(), url)
        }
    }
}

} // verus!
