//! The command-line search mode: one search, its result shown as JSON, as
//! plain text or as Markdown.

use crate::dispatch::{outcome_value, search_call, search_request, unwrapped_result};
use crate::json::{pretty_text_of, result_text, values_of, Json, JsonValue};
use crate::text::{
    chars_of, has_prefix, index_of, join, join_strings, lemma_index_of_unique, string_from_chars,
    texts_of, trim, trim_range,
};
use vstd::prelude::*;
use vstd::string::StringExecFns;

verus! {

/// Whether the path segment `..` starts at index `i` of `path`: two dots that
/// are bounded on each side by a `/` or by an end of the path.
pub open spec fn parent_segment_at(path: Seq<char>, i: int) -> bool {
    &&& 0 <= i
    &&& i + 2 <= path.len()
    &&& path[i] == '.'
    &&& path[i + 1] == '.'
    &&& (i == 0 || path[i - 1] == '/')
    &&& (i + 2 == path.len() || path[i + 2] == '/')
}

/// Whether one of the `/`-separated segments of `path` is `..`.
pub open spec fn has_parent_segment(path: Seq<char>) -> bool {
    exists|i: int| parent_segment_at(path, i)
}

/// Whether `path` starts at the root of the file system.
pub open spec fn is_rooted(path: Seq<char>) -> bool {
    path.len() > 0 && path[0] == '/'
}

/// The message for a path that starts at the root.
pub open spec fn rooted_path_message() -> Seq<char> {
    "Output path must be relative (absolute paths are not allowed)"@
}

/// The message for a path with a `..` segment.
pub open spec fn traversal_message() -> Seq<char> {
    "Output path cannot contain '..' (directory traversal)"@
}

/// Why `path` is refused as the place to write to, if it is: the message for
/// a rooted path, else the message for a `..` segment, else nothing.
pub open spec fn output_path_refusal(path: Seq<char>) -> Option<Seq<char>> {
    if is_rooted(path) {
        Some(rooted_path_message())
    } else if has_parent_segment(path) {
        Some(traversal_message())
    } else {
        None
    }
}

/// Accepts `path` as the place to write search results to.
///
/// A path is read with `/` as its separator. It is refused when it starts at
/// the root, and when one of its segments is `..`: either would let the output
/// leave the directory the program was started in. A rooted path is reported as
/// such even if it also holds a `..` segment.
pub fn validate_output_path(path: &str) -> (result: Result<(), String>)
    ensures
        match output_path_refusal(path@) {
            None => result is Ok,
            Some(message) => result matches Err(m) && m@ == message,
        },
{
    let chars = chars_of(path);
    let n = chars.len();
    if n > 0 && chars[0] == '/' {
        return Err(
            String::from_str("Output path must be relative (absolute paths are not allowed)"),
        );
    }
    let mut i: usize = 0;
    while i < n
        invariant
            n == chars.len(),
            chars@ == path@,
            i <= n,
            !is_rooted(path@),
            forall|k: int| 0 <= k < i ==> !parent_segment_at(path@, k),
        decreases n - i,
    {
        if chars[i] == '.' && n - i >= 2 && chars[i + 1] == '.' && (i == 0 || chars[i - 1] == '/')
            && (n - i == 2 || chars[i + 2] == '/') {
            assert(parent_segment_at(path@, i as int));
            return Err(String::from_str("Output path cannot contain '..' (directory traversal)"));
        }
        i = i + 1;
    }
    Ok(())
}

/// The message for an output path that is refused.
pub open spec fn invalid_output_path_message(reason: Seq<char>) -> Seq<char> {
    "Invalid output path: "@ + reason
}

/// Checks the output path of a search, if one was given.
pub fn check_output_path(path: Option<&str>) -> (checked: Result<(), String>)
    ensures
        match path {
            None => checked is Ok,
            Some(p) => match output_path_refusal(p@) {
                None => checked is Ok,
                Some(reason) => checked matches Err(m) && m@ == invalid_output_path_message(reason),
            },
        },
{
    match path {
        None => Ok(()),
        Some(p) => match validate_output_path(p) {
            Ok(()) => Ok(()),
            Err(reason) => {
                let mut message = String::from_str("Invalid output path: ");
                message.append(reason.as_str());
                Err(message)
            },
        },
    }
}

/// The identifier under which the search of the command-line mode is sent.
pub const SEARCH_REQUEST_ID: i64 = 1;

/// The request that the command-line mode sends for `query`.
pub fn direct_search_request(query: &str) -> (body: Json)
    ensures
        body@ == search_call(JsonValue::integer(SEARCH_REQUEST_ID as int), query@),
{
    search_request(Json::integer(SEARCH_REQUEST_ID), query)
}

/// The error that the backend's answer reports, if it reports one: the
/// `message` of its `error` member, or a general message where that member
/// names none.
pub open spec fn api_error(answer: JsonValue) -> Option<Seq<char>> {
    match answer.get("error"@) {
        None => None,
        Some(error) => Some(
            "API error: "@ + match error.get("message"@) {
                Some(message) => match message.as_str() {
                    Some(text) => text,
                    None => "Unknown error"@,
                },
                None => "Unknown error"@,
            },
        ),
    }
}

/// What a search found, from the backend's answer: the error that the answer
/// reports, or else its unwrapped result.
pub open spec fn search_result_of(answer: JsonValue) -> Result<JsonValue, Seq<char>> {
    match api_error(answer) {
        Some(message) => Err(message),
        None => Ok(unwrapped_result(answer)),
    }
}

/// Takes what the search found out of the backend's answer.
pub fn search_result(answer: &Json) -> (found: Result<Json, String>)
    ensures
        outcome_value(found) == search_result_of(answer@),
{
    match answer.get("error") {
        Some(error) => {
            let mut message = String::from_str("API error: ");
            let named = match error.get("message") {
                Some(text) => text.as_str(),
                None => None,
            };
            match named {
                Some(text) => {
                    message.append(text);
                },
                None => {
                    message.append("Unknown error");
                },
            }
            Err(message)
        },
        None => match answer.get("result") {
            Some(result) => Ok(result.clone()),
            None => Ok(answer.clone()),
        },
    }
}

/// The text of a content item: its `text` member, if that is a string.
pub open spec fn item_text(item: JsonValue) -> Option<Seq<char>> {
    match item.get("text"@) {
        Some(text) => text.as_str(),
        None => None,
    }
}

/// The texts of the content items that have one, in order.
pub open spec fn texts_in(items: Seq<JsonValue>) -> Seq<Seq<char>>
    decreases items.len(),
{
    if items.len() == 0 {
        Seq::empty()
    } else {
        match item_text(items.last()) {
            Some(text) => texts_in(items.drop_last()).push(text),
            None => texts_in(items.drop_last()),
        }
    }
}

/// The texts of a search result: those of the items of its `content` array.
/// A result without such an array has none.
pub open spec fn content_texts(result: JsonValue) -> Seq<Seq<char>> {
    match result.get("content"@) {
        Some(content) => match content.as_array() {
            Some(items) => texts_in(items),
            None => Seq::empty(),
        },
        None => Seq::empty(),
    }
}

/// The texts of a sequence of string slices.
pub open spec fn strs_of(slices: Seq<&str>) -> Seq<Seq<char>> {
    Seq::new(slices.len(), |i: int| slices[i]@)
}

/// The texts of a search result, in order. An item without a `text` member
/// that is a string is passed over.
pub fn extract_content_texts<'a>(result: &'a Json) -> (texts: Vec<&'a str>)
    ensures
        strs_of(texts@) == content_texts(result@),
{
    let mut texts: Vec<&'a str> = Vec::new();
    let items = match result.get("content") {
        Some(content) => content.as_array(),
        None => None,
    };
    match items {
        None => {},
        Some(items) => {
            let ghost values = values_of(items@);
            let mut i: usize = 0;
            while i < items.len()
                invariant
                    i <= items.len(),
                    values == values_of(items@),
                    strs_of(texts@) == texts_in(values.take(i as int)),
                decreases items.len() - i,
            {
                assert(values.take(i as int + 1).drop_last() == values.take(i as int));
                let text = match items[i].get("text") {
                    Some(text) => text.as_str(),
                    None => None,
                };
                match text {
                    Some(text) => {
                        texts.push(text);
                    },
                    None => {},
                }
                i = i + 1;
            }
            assert(values.take(items@.len() as int) == values);
        },
    }
    texts
}

/// The marker of the line that names a documentation page.
pub const LINK_MARKER: &'static str = "Link: ";

/// The address that a line names: what follows `Link: ` in the line, both
/// taken without the whitespace around them. A line that does not start so
/// names none.
pub open spec fn link_in_line(line: Seq<char>) -> Option<Seq<char>> {
    let content = trim(line);
    if LINK_MARKER@.is_prefix_of(content) {
        Some(trim(content.skip(LINK_MARKER@.len() as int)))
    } else {
        None
    }
}

/// The address that the first line of `text` with a `Link: ` marker names.
pub open spec fn first_link(text: Seq<char>) -> Option<Seq<char>>
    decreases text.len(),
{
    let end = index_of(text, '\n');
    match link_in_line(text.take(end)) {
        Some(url) => Some(url),
        None => if 0 <= end < text.len() {
            first_link(text.skip(end + 1))
        } else {
            None
        },
    }
}

/// One entry of a search result: its text, and the address of the page it
/// comes from where the text names one.
#[derive(Debug, PartialEq)]
pub struct DocEntry<'a> {
    pub url: Option<String>,
    pub text: &'a str,
}

/// What a [`DocEntry`] stands for.
pub struct EntryValue {
    pub url: Option<Seq<char>>,
    pub text: Seq<char>,
}

impl<'a> View for DocEntry<'a> {
    type V = EntryValue;

    open spec fn view(&self) -> EntryValue {
        EntryValue {
            url: match self.url {
                Some(url) => Some(url@),
                None => None,
            },
            text: self.text@,
        }
    }
}

/// The entry that a text of a search result makes.
pub open spec fn doc_entry_of(text: Seq<char>) -> EntryValue {
    EntryValue { url: first_link(text), text }
}

/// The entries of a search result: one for each of its texts.
pub open spec fn doc_entries(result: JsonValue) -> Seq<EntryValue> {
    Seq::new(content_texts(result).len(), |i: int| doc_entry_of(content_texts(result)[i]))
}

/// What a sequence of entries stands for.
pub open spec fn entry_values(entries: Seq<DocEntry>) -> Seq<EntryValue> {
    Seq::new(entries.len(), |i: int| entries[i]@)
}

/// The address of the page that `text` names, if it names one.
pub fn find_link(text: &str) -> (url: Option<String>)
    ensures
        match url {
            Some(u) => first_link(text@) == Some(u@),
            None => first_link(text@) is None,
        },
{
    let chars = chars_of(text);
    let marker = chars_of(LINK_MARKER);
    let mut start: usize = 0;
    let mut done: bool = false;
    assert(text@.skip(0) == text@);
    while !done
        invariant
            start <= chars.len(),
            chars@ == text@,
            marker@ == LINK_MARKER@,
            !done ==> first_link(text@) == first_link(text@.skip(start as int)),
            done ==> first_link(text@) is None,
        decreases chars.len() - start + if done { 0int } else { 1int },
    {
        let ghost rest = text@.skip(start as int);
        let mut end: usize = start;
        while end < chars.len() && chars[end] != '\n'
            invariant
                start <= end <= chars.len(),
                chars@ == text@,
                forall|k: int| start <= k < end ==> text@[k] != '\n',
            decreases chars.len() - end,
        {
            end = end + 1;
        }
        proof {
            lemma_index_of_unique(rest, '\n', end - start);
            assert(rest.take(end - start) == text@.subrange(start as int, end as int));
        }
        let line = trim_range(&chars, start, end);
        if has_prefix(&line, &marker) {
            let url = trim_range(&line, marker.len(), line.len());
            return Some(string_from_chars(url.as_slice()));
        }
        if end < chars.len() {
            assert(rest.skip(end - start + 1) == text@.skip(end as int + 1));
            start = end + 1;
        } else {
            done = true;
        }
    }
    None
}

/// The entries of a search result: each of its texts, with the address of the
/// page that the text names on a `Link: ` line.
pub fn extract_doc_entries<'a>(result: &'a Json) -> (entries: Vec<DocEntry<'a>>)
    ensures
        entry_values(entries@) == doc_entries(result@),
{
    let texts = extract_content_texts(result);
    let mut entries: Vec<DocEntry<'a>> = Vec::new();
    let mut i: usize = 0;
    while i < texts.len()
        invariant
            i <= texts.len(),
            strs_of(texts@) == content_texts(result@),
            entries@.len() == i,
            forall|k: int| 0 <= k < i ==> entries@[k]@ == doc_entry_of(texts@[k]@),
        decreases texts.len() - i,
    {
        let text: &'a str = texts[i];
        entries.push(DocEntry { url: find_link(text), text });
        i = i + 1;
    }
    assert(entry_values(entries@) =~= doc_entries(result@));
    entries
}

/// How a search result is shown.
#[derive(Debug, Clone, Copy, PartialEq, Eq)]
pub enum OutputFormat {
    /// As indented JSON.
    Json,
    /// As the texts it holds.
    Text,
    /// As the Markdown of the pages it names.
    Markdown,
}

/// The separator between the texts of a result shown as plain text.
pub const TEXT_SEPARATOR: &'static str = "\n\n";

/// The separator between the parts of a result shown as Markdown: a
/// horizontal rule.
pub const MARKDOWN_SEPARATOR: &'static str = "\n\n---\n\n";

/// A result shown as plain text, given its form as indented JSON: its texts,
/// separated by blank lines, and the JSON form where it holds no text.
pub open spec fn text_form(result: JsonValue, pretty: Result<Seq<char>, Seq<char>>) -> Result<
    Seq<char>,
    Seq<char>,
> {
    if content_texts(result).len() == 0 {
        pretty
    } else {
        Ok(join(content_texts(result), TEXT_SEPARATOR@))
    }
}

/// A result without texts shown as Markdown, given its form as indented
/// JSON: that form in a fenced block.
pub open spec fn fenced_json(pretty: Result<Seq<char>, Seq<char>>) -> Result<Seq<char>, Seq<char>> {
    match pretty {
        Ok(text) => Ok("```json\n"@ + text + "\n```\n"@),
        Err(report) => Err(report),
    }
}

/// One part of a result shown as Markdown. An entry that names a page is
/// shown as the page that was fetched, under a comment with its address;
/// where the page could not be fetched, as the entry's own text under a
/// comment with the error. An entry that names no page is its own text.
pub open spec fn markdown_part_of(
    entry: EntryValue,
    fetched: Option<Result<Seq<char>, Seq<char>>>,
) -> Seq<char> {
    match (entry.url, fetched) {
        (Some(url), Some(Ok(page))) => "<!-- Source: "@ + url + " -->\n\n"@ + page,
        (Some(url), Some(Err(report))) => "<!-- Error: "@ + report + " -->\n\n"@ + entry.text,
        _ => entry.text,
    }
}

/// The value of what a fetch came to.
pub open spec fn fetched_value(fetched: Option<Result<String, String>>) -> Option<
    Result<Seq<char>, Seq<char>>,
> {
    match fetched {
        Some(Ok(page)) => Some(Ok(page@)),
        Some(Err(report)) => Some(Err(report@)),
        None => None,
    }
}

/// Shows a result as indented JSON.
pub fn format_json(result: &Json) -> (shown: Result<String, String>)
    ensures
        result_text(shown) == pretty_text_of(result@),
{
    result.to_pretty_text()
}

/// The texts, separated by blank lines.
fn join_texts(texts: &Vec<&str>) -> (joined: String)
    ensures
        joined@ == join(strs_of(texts@), TEXT_SEPARATOR@),
{
    let mut owned: Vec<String> = Vec::new();
    let mut i: usize = 0;
    while i < texts.len()
        invariant
            i <= texts.len(),
            owned@.len() == i,
            forall|k: int| 0 <= k < i ==> owned@[k]@ == texts@[k]@,
        decreases texts.len() - i,
    {
        owned.push(String::from_str(texts[i]));
        i = i + 1;
    }
    assert(texts_of(owned@) =~= strs_of(texts@));
    join_strings(&owned, TEXT_SEPARATOR)
}

/// Shows a result as plain text, given its form as indented JSON.
pub fn text_from(result: &Json, pretty: Result<String, String>) -> (shown: Result<String, String>)
    ensures
        result_text(shown) == text_form(result@, result_text(pretty)),
{
    let texts = extract_content_texts(result);
    if texts.len() == 0 {
        pretty
    } else {
        Ok(join_texts(&texts))
    }
}

/// Shows a result as plain text: its texts, separated by blank lines, and
/// indented JSON where it holds no text.
pub fn format_text(result: &Json) -> (shown: Result<String, String>)
    ensures
        result_text(shown) == text_form(result@, pretty_text_of(result@)),
{
    let texts = extract_content_texts(result);
    if texts.len() == 0 {
        result.to_pretty_text()
    } else {
        Ok(join_texts(&texts))
    }
}

/// Shows a result without entries as Markdown, given its form as indented
/// JSON.
pub fn fence_json(pretty: Result<String, String>) -> (shown: Result<String, String>)
    ensures
        result_text(shown) == fenced_json(result_text(pretty)),
{
    match pretty {
        Ok(text) => {
            let mut shown = String::from_str("```json\n");
            shown.append(text.as_str());
            shown.append("\n```\n");
            Ok(shown)
        },
        Err(report) => Err(report),
    }
}

/// Shows a result without entries as Markdown: its indented JSON in a fenced
/// block.
pub fn markdown_fallback(result: &Json) -> (shown: Result<String, String>)
    ensures
        result_text(shown) == fenced_json(pretty_text_of(result@)),
{
    fence_json(result.to_pretty_text())
}

/// Shows one entry of a result as Markdown, given what fetching its page came
/// to; `None` where no page was fetched.
pub fn markdown_part(entry: &DocEntry, fetched: Option<Result<String, String>>) -> (part: String)
    ensures
        part@ == markdown_part_of(entry@, fetched_value(fetched)),
{
    match (&entry.url, fetched) {
        (Some(url), Some(Ok(page))) => {
            let mut part = String::from_str("<!-- Source: ");
            part.append(url.as_str());
            part.append(" -->\n\n");
            part.append(page.as_str());
            part
        },
        (Some(_), Some(Err(report))) => {
            let mut part = String::from_str("<!-- Error: ");
            part.append(report.as_str());
            part.append(" -->\n\n");
            part.append(entry.text);
            part
        },
        _ => String::from_str(entry.text),
    }
}

/// Puts the parts of a result shown as Markdown together, with a horizontal
/// rule between each two.
pub fn join_markdown(parts: &Vec<String>) -> (shown: String)
    ensures
        shown@ == join(texts_of(parts@), MARKDOWN_SEPARATOR@),
{
    join_strings(parts, MARKDOWN_SEPARATOR)
}

} // verus!
