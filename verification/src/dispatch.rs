//! The JSON-RPC method dispatcher: which method is answered how.
//!
//! `initialize`, `tools/list` and `resources/list` are answered on the spot.
//! `tools/call` and `resources/read` are answered by the backend: the
//! dispatcher says what to send there, and what to make of what comes back.

use crate::json::{result_text, text_of, Json, JsonValue, ObjectBuilder};
use crate::protocol::{JsonRpcRequest, JsonRpcResponse, RequestValue, ResponseValue, JSONRPC_VERSION};
use crate::text::{chars_of, has_prefix, str_eq, string_from_tail};
use vstd::prelude::*;
use vstd::string::StringExecFns;

verus! {

/// The code of a message that is no JSON-RPC request.
pub const JSONRPC_PARSE_ERROR: i32 = -32700;

/// The code of a request whose parameters cannot be used.
pub const JSONRPC_INVALID_PARAMS: i32 = -32602;

/// The code of a request that failed on the way to its answer.
pub const JSONRPC_INTERNAL_ERROR: i32 = -32603;

/// The code of a request for a method that does not exist.
pub const JSONRPC_METHOD_NOT_FOUND: i32 = -32601;

/// The version of the Model Context Protocol that is spoken.
pub const PROTOCOL_VERSION: &'static str = "2024-11-05";

/// The name under which the bridge introduces itself.
pub const SERVER_NAME: &'static str = "bun-docs-mcp-proxy";

/// The version under which the bridge introduces itself.
pub const SERVER_VERSION: &'static str = "0.1.0";

/// The name of the one tool of the backend.
pub const SEARCH_TOOL: &'static str = "SearchBun";

/// The URI of the documentation resource, which stands for the empty query.
pub const DOCS_URI: &'static str = "bun://docs";

/// The prefix of a documentation URI that carries a query.
pub const DOCS_QUERY_PREFIX: &'static str = "bun://docs?query=";

/// The content type of what a resource holds.
pub const RESOURCE_MIME_TYPE: &'static str = "application/json";

/// The query that a documentation URI stands for: everything after
/// `bun://docs?query=`, taken as it is, or the empty query for `bun://docs`
/// itself. Any other URI stands for none.
pub open spec fn uri_query(uri: Seq<char>) -> Option<Seq<char>> {
    if DOCS_QUERY_PREFIX@.is_prefix_of(uri) {
        Some(uri.skip(DOCS_QUERY_PREFIX@.len() as int))
    } else if uri == DOCS_URI@ {
        Some(Seq::empty())
    } else {
        None
    }
}

/// The message that rejects `uri` as a documentation URI.
pub open spec fn invalid_uri_message(uri: Seq<char>) -> Seq<char> {
    "Invalid URI format: "@ + uri
}

/// Reads the search query out of a documentation URI.
///
/// `bun://docs?query=<value>` gives `<value>` unchanged (nothing is unescaped),
/// `bun://docs` gives the empty query, and every other URI is rejected with a
/// message that quotes it.
pub fn parse_bun_docs_uri(uri: &str) -> (result: Result<String, String>)
    ensures
        match uri_query(uri@) {
            Some(query) => result matches Ok(q) && q@ == query,
            None => result matches Err(m) && m@ == invalid_uri_message(uri@),
        },
{
    let chars = chars_of(uri);
    let prefix = chars_of(DOCS_QUERY_PREFIX);
    if has_prefix(&chars, &prefix) {
        Ok(string_from_tail(&chars, prefix.len()))
    } else if str_eq(uri, DOCS_URI) {
        Ok(String::new())
    } else {
        let mut message = String::from_str("Invalid URI format: ");
        message.append(uri);
        Err(message)
    }
}

/// The message for a parameter that is missing or is no string.
pub open spec fn missing_param_message(key: Seq<char>) -> Seq<char> {
    "Missing or invalid "@ + key + " parameter"@
}

/// The string parameter `key` of `params`, or the message that says it is
/// missing or no string.
pub open spec fn string_param(params: JsonValue, key: Seq<char>) -> Result<Seq<char>, Seq<char>> {
    match params.get(key) {
        Some(value) => match value.as_str() {
            Some(text) => Ok(text),
            None => Err(missing_param_message(key)),
        },
        None => Err(missing_param_message(key)),
    }
}

/// Reads a parameter that has to be a string.
pub fn get_string_param<'a>(params: &'a Json, key: &str) -> (result: Result<&'a str, String>)
    ensures
        match string_param(params@, key@) {
            Ok(text) => result matches Ok(t) && t@ == text,
            Err(message) => result matches Err(m) && m@ == message,
        },
{
    match params.get(key) {
        Some(value) => match value.as_str() {
            Some(text) => {
                return Ok(text);
            },
            None => {},
        },
        None => {},
    }
    let mut message = String::from_str("Missing or invalid ");
    message.append(key);
    message.append(" parameter");
    Err(message)
}

/// What `initialize` is answered with: the protocol version, the two
/// capabilities, and the server's name and version.
pub open spec fn initialize_result() -> JsonValue {
    let capabilities = JsonValue::empty_object()
        .with("tools"@, JsonValue::empty_object())
        .with("resources"@, JsonValue::empty_object());
    let server = JsonValue::empty_object()
        .with("name"@, JsonValue::String(SERVER_NAME@))
        .with("version"@, JsonValue::String(SERVER_VERSION@));
    JsonValue::empty_object()
        .with("protocolVersion"@, JsonValue::String(PROTOCOL_VERSION@))
        .with("capabilities"@, capabilities)
        .with("serverInfo"@, server)
}

/// Answers `initialize`.
pub fn handle_initialize(request: &JsonRpcRequest) -> (response: JsonRpcResponse)
    ensures
        response@ == ResponseValue::success(request@.id, initialize_result()),
{
    let capabilities = ObjectBuilder::new()
        .with("tools", ObjectBuilder::new().build())
        .with("resources", ObjectBuilder::new().build())
        .build();
    let server = ObjectBuilder::new()
        .with("name", Json::string(SERVER_NAME))
        .with("version", Json::string(SERVER_VERSION))
        .build();
    let result = ObjectBuilder::new()
        .with("protocolVersion", Json::string(PROTOCOL_VERSION))
        .with("capabilities", capabilities)
        .with("serverInfo", server)
        .build();
    JsonRpcResponse::success(request.id.clone(), result)
}

/// What `tools/list` is answered with: the one tool of the backend, which
/// takes a `query` string.
pub open spec fn tools_list_result() -> JsonValue {
    let query = JsonValue::empty_object()
        .with("type"@, JsonValue::String("string"@))
        .with("description"@, JsonValue::String("Search query"@));
    let schema = JsonValue::empty_object()
        .with("type"@, JsonValue::String("object"@))
        .with("properties"@, JsonValue::empty_object().with("query"@, query))
        .with("required"@, JsonValue::Array(seq![JsonValue::String("query"@)]));
    let tool = JsonValue::empty_object()
        .with("name"@, JsonValue::String(SEARCH_TOOL@))
        .with("description"@, JsonValue::String("Search Bun documentation"@))
        .with("inputSchema"@, schema);
    JsonValue::empty_object().with("tools"@, JsonValue::Array(seq![tool]))
}

/// What `resources/list` is answered with: the one documentation resource.
pub open spec fn resources_list_result() -> JsonValue {
    let resource = JsonValue::empty_object()
        .with("uri"@, JsonValue::String(DOCS_URI@))
        .with("name"@, JsonValue::String("Bun Documentation"@))
        .with("description"@, JsonValue::String("Search and browse Bun documentation"@))
        .with("mimeType"@, JsonValue::String(RESOURCE_MIME_TYPE@));
    JsonValue::empty_object().with("resources"@, JsonValue::Array(seq![resource]))
}

/// Answers `tools/list`.
pub fn handle_tools_list(request: &JsonRpcRequest) -> (response: JsonRpcResponse)
    ensures
        response@ == ResponseValue::success(request@.id, tools_list_result()),
{
    let query = ObjectBuilder::new()
        .with("type", Json::string("string"))
        .with("description", Json::string("Search query"))
        .build();
    let schema = ObjectBuilder::new()
        .with("type", Json::string("object"))
        .with("properties", ObjectBuilder::new().with("query", query).build())
        .with("required", Json::array_of(Json::string("query")))
        .build();
    let tool = ObjectBuilder::new()
        .with("name", Json::string(SEARCH_TOOL))
        .with("description", Json::string("Search Bun documentation"))
        .with("inputSchema", schema)
        .build();
    let result = ObjectBuilder::new().with("tools", Json::array_of(tool)).build();
    JsonRpcResponse::success(request.id.clone(), result)
}

/// Answers `resources/list`.
pub fn handle_resources_list(request: &JsonRpcRequest) -> (response: JsonRpcResponse)
    ensures
        response@ == ResponseValue::success(request@.id, resources_list_result()),
{
    let resource = ObjectBuilder::new()
        .with("uri", Json::string(DOCS_URI))
        .with("name", Json::string("Bun Documentation"))
        .with("description", Json::string("Search and browse Bun documentation"))
        .with("mimeType", Json::string(RESOURCE_MIME_TYPE))
        .build();
    let result = ObjectBuilder::new().with("resources", Json::array_of(resource)).build();
    JsonRpcResponse::success(request.id.clone(), result)
}

/// What goes to the backend for a `tools/call`: the request as it came, with
/// its identifier, method and parameters unchanged. Parameters that were not
/// sent go as `null`.
pub open spec fn forwarded_call(request: RequestValue) -> JsonValue {
    let params = match request.params {
        Some(params) => params,
        None => JsonValue::Null,
    };
    JsonValue::empty_object()
        .with("jsonrpc"@, JsonValue::String(JSONRPC_VERSION@))
        .with("id"@, request.id)
        .with("method"@, JsonValue::String(request.method))
        .with("params"@, params)
}

/// What goes to the backend for a search: a `tools/call` of the search tool
/// with `query` as its argument, under the identifier `id`.
pub open spec fn search_call(id: JsonValue, query: Seq<char>) -> JsonValue {
    let arguments = JsonValue::empty_object().with("query"@, JsonValue::String(query));
    let params = JsonValue::empty_object()
        .with("name"@, JsonValue::String(SEARCH_TOOL@))
        .with("arguments"@, arguments);
    JsonValue::empty_object()
        .with("jsonrpc"@, JsonValue::String(JSONRPC_VERSION@))
        .with("id"@, id)
        .with("method"@, JsonValue::String("tools/call"@))
        .with("params"@, params)
}

/// The message of the error that a failed forward call is answered with.
pub open spec fn internal_error_message(report: Seq<char>) -> Seq<char> {
    "Internal error: "@ + report
}

/// What the backend's answer holds for the caller: its `result` member where
/// it has one, and all of it where it has none.
pub open spec fn unwrapped_result(answer: JsonValue) -> JsonValue {
    match answer.get("result"@) {
        Some(result) => result,
        None => answer,
    }
}

/// How a `tools/call` is answered, given what the forward call came to: the
/// unwrapped result of the backend's answer, or an internal error with the
/// report of the failure.
pub open spec fn tools_call_answer(id: JsonValue, outcome: Result<JsonValue, Seq<char>>)
    -> ResponseValue {
    match outcome {
        Ok(answer) => ResponseValue::success(id, unwrapped_result(answer)),
        Err(report) => ResponseValue::failure(
            id,
            JSONRPC_INTERNAL_ERROR as int,
            internal_error_message(report),
        ),
    }
}

/// What a resource that was read holds: one entry with the URI that was
/// asked for, the content type, and `text`.
pub open spec fn resource_contents(uri: Seq<char>, text: Seq<char>) -> JsonValue {
    let content = JsonValue::empty_object()
        .with("uri"@, JsonValue::String(uri))
        .with("mimeType"@, JsonValue::String(RESOURCE_MIME_TYPE@))
        .with("text"@, JsonValue::String(text));
    JsonValue::empty_object().with("contents"@, JsonValue::Array(seq![content]))
}

/// How a `resources/read` is answered once the backend's answer has been
/// written as text: with that text as the resource's content, or with an
/// internal error where writing it failed.
pub open spec fn resource_answer(
    id: JsonValue,
    uri: Seq<char>,
    written: Result<Seq<char>, Seq<char>>,
) -> ResponseValue {
    match written {
        Ok(text) => ResponseValue::success(id, resource_contents(uri, text)),
        Err(report) => ResponseValue::failure(
            id,
            JSONRPC_INTERNAL_ERROR as int,
            "Failed to serialize resource: "@ + report,
        ),
    }
}

/// How a `resources/read` of `uri` is answered, given what the forward call
/// came to: the backend's whole answer, written as text, is the content of
/// the resource; a failed call is an internal error.
pub open spec fn resources_read_answer(
    id: JsonValue,
    uri: Seq<char>,
    outcome: Result<JsonValue, Seq<char>>,
) -> ResponseValue {
    match outcome {
        Ok(answer) => resource_answer(id, uri, text_of(answer)),
        Err(report) => ResponseValue::failure(
            id,
            JSONRPC_INTERNAL_ERROR as int,
            internal_error_message(report),
        ),
    }
}

/// The URI that a `resources/read` asks for and the query it stands for, or
/// the message that says why the parameters cannot be used.
pub open spec fn resource_request(params: Option<JsonValue>) -> Result<
    (Seq<char>, Seq<char>),
    Seq<char>,
> {
    match params {
        None => Err("Missing params"@),
        Some(params) => match string_param(params, "uri"@) {
            Err(message) => Err(message),
            Ok(uri) => match uri_query(uri) {
                Some(query) => Ok((uri, query)),
                None => Err(invalid_uri_message(uri)),
            },
        },
    }
}

/// A call that the backend has to answer.
#[derive(Debug, PartialEq)]
pub struct ForwardCall {
    /// The JSON-RPC request to send to the backend.
    pub body: Json,
    /// The URI of the resource that is read; nothing for a `tools/call`.
    pub resource_uri: Option<String>,
}

/// What a [`ForwardCall`] stands for.
pub struct CallValue {
    pub body: JsonValue,
    pub resource_uri: Option<Seq<char>>,
}

impl View for ForwardCall {
    type V = CallValue;

    open spec fn view(&self) -> CallValue {
        CallValue {
            body: self.body@,
            resource_uri: match self.resource_uri {
                Some(uri) => Some(uri@),
                None => None,
            },
        }
    }
}

/// How a request is dealt with.
#[derive(Debug, PartialEq)]
pub enum Route {
    /// It is answered on the spot.
    Respond(JsonRpcResponse),
    /// The backend answers it.
    Forward(ForwardCall),
}

/// What a [`Route`] stands for.
pub enum RouteValue {
    Respond(ResponseValue),
    Forward(CallValue),
}

impl View for Route {
    type V = RouteValue;

    open spec fn view(&self) -> RouteValue {
        match self {
            Route::Respond(response) => RouteValue::Respond(response@),
            Route::Forward(call) => RouteValue::Forward(call@),
        }
    }
}

/// The message of the error that an unknown method is answered with.
pub open spec fn unknown_method_message(method: Seq<char>) -> Seq<char> {
    "Method not found: "@ + method
}

/// How a `resources/read` is dealt with: parameters that name a documentation
/// URI lead to a search for its query, and all others are refused as invalid.
pub open spec fn resources_read_route(request: RequestValue) -> RouteValue {
    match resource_request(request.params) {
        Ok((uri, query)) => RouteValue::Forward(
            CallValue { body: search_call(request.id, query), resource_uri: Some(uri) },
        ),
        Err(message) => RouteValue::Respond(
            ResponseValue::failure(request.id, JSONRPC_INVALID_PARAMS as int, message),
        ),
    }
}

/// How a request is dealt with, by its method. The method's name has to match
/// exactly.
pub open spec fn route_of(request: RequestValue) -> RouteValue {
    if request.method == "tools/call"@ {
        RouteValue::Forward(CallValue { body: forwarded_call(request), resource_uri: None })
    } else if request.method == "tools/list"@ {
        RouteValue::Respond(ResponseValue::success(request.id, tools_list_result()))
    } else if request.method == "resources/list"@ {
        RouteValue::Respond(ResponseValue::success(request.id, resources_list_result()))
    } else if request.method == "resources/read"@ {
        resources_read_route(request)
    } else if request.method == "initialize"@ {
        RouteValue::Respond(ResponseValue::success(request.id, initialize_result()))
    } else {
        RouteValue::Respond(
            ResponseValue::failure(
                request.id,
                JSONRPC_METHOD_NOT_FOUND as int,
                unknown_method_message(request.method),
            ),
        )
    }
}

/// How a forwarded call is answered, given what it came to.
pub open spec fn answer_of(id: JsonValue, call: CallValue, outcome: Result<JsonValue, Seq<char>>)
    -> ResponseValue {
    match call.resource_uri {
        Some(uri) => resources_read_answer(id, uri, outcome),
        None => tools_call_answer(id, outcome),
    }
}

/// The value of what a forward call came to.
pub open spec fn outcome_value(outcome: Result<Json, String>) -> Result<JsonValue, Seq<char>> {
    match outcome {
        Ok(answer) => Ok(answer@),
        Err(report) => Err(report@),
    }
}

/// The request that goes to the backend for a `tools/call`.
pub fn tools_call_request(request: &JsonRpcRequest) -> (body: Json)
    ensures
        body@ == forwarded_call(request@),
{
    let params = match &request.params {
        Some(params) => params.clone(),
        None => Json::Null,
    };
    ObjectBuilder::new()
        .with("jsonrpc", Json::string(JSONRPC_VERSION))
        .with("id", request.id.clone())
        .with("method", Json::string(request.method.as_str()))
        .with("params", params)
        .build()
}

/// The request that goes to the backend for a search.
pub fn search_request(id: Json, query: &str) -> (body: Json)
    ensures
        body@ == search_call(id@, query@),
{
    let arguments = ObjectBuilder::new().with("query", Json::string(query)).build();
    let params = ObjectBuilder::new()
        .with("name", Json::string(SEARCH_TOOL))
        .with("arguments", arguments)
        .build();
    ObjectBuilder::new()
        .with("jsonrpc", Json::string(JSONRPC_VERSION))
        .with("id", id)
        .with("method", Json::string("tools/call"))
        .with("params", params)
        .build()
}

/// The answer to a request whose forward call failed.
pub fn internal_error(id: Json, report: &str) -> (response: JsonRpcResponse)
    ensures
        response@ == ResponseValue::failure(
            id@,
            JSONRPC_INTERNAL_ERROR as int,
            internal_error_message(report@),
        ),
{
    let mut message = String::from_str("Internal error: ");
    message.append(report);
    JsonRpcResponse::error(id, JSONRPC_INTERNAL_ERROR, message)
}

/// Answers `tools/call`, given what the forward call came to.
///
/// The backend's answer is unwrapped: its `result` member is the result, and
/// an answer without such a member is the result as a whole. A failed call
/// is answered with an internal error that carries the engine's report.
pub fn handle_tools_call(request: &JsonRpcRequest, outcome: Result<Json, String>) -> (response:
    JsonRpcResponse)
    ensures
        response@ == tools_call_answer(request@.id, outcome_value(outcome)),
{
    match outcome {
        Ok(answer) => {
            let unwrapped = match answer.get("result") {
                Some(result) => Some(result.clone()),
                None => None,
            };
            match unwrapped {
                Some(result) => JsonRpcResponse::success(request.id.clone(), result),
                None => JsonRpcResponse::success(request.id.clone(), answer),
            }
        },
        Err(report) => internal_error(request.id.clone(), report.as_str()),
    }
}

/// Answers `resources/read` once the backend's answer has been written as
/// text, or could not be.
pub fn resource_response(id: Json, uri: &str, written: Result<String, String>) -> (response:
    JsonRpcResponse)
    ensures
        response@ == resource_answer(id@, uri@, result_text(written)),
{
    match written {
        Ok(text) => {
            let content = ObjectBuilder::new()
                .with("uri", Json::string(uri))
                .with("mimeType", Json::string(RESOURCE_MIME_TYPE))
                .with("text", Json::String(text))
                .build();
            let contents = ObjectBuilder::new().with("contents", Json::array_of(content)).build();
            JsonRpcResponse::success(id, contents)
        },
        Err(report) => {
            let mut message = String::from_str("Failed to serialize resource: ");
            message.append(report.as_str());
            JsonRpcResponse::error(id, JSONRPC_INTERNAL_ERROR, message)
        },
    }
}

/// Answers `resources/read` of `uri`, given what the forward call came to.
///
/// The backend's whole answer, envelope included, is written as text and
/// becomes the one content entry of the resource. A failed call is answered
/// with an internal error that carries the engine's report.
pub fn handle_resources_read(request: &JsonRpcRequest, uri: &str, outcome: Result<Json, String>)
    -> (response: JsonRpcResponse)
    ensures
        response@ == resources_read_answer(request@.id, uri@, outcome_value(outcome)),
{
    match outcome {
        Ok(answer) => resource_response(request.id.clone(), uri, answer.to_text()),
        Err(report) => internal_error(request.id.clone(), report.as_str()),
    }
}

/// The answer to a request whose parameters cannot be used.
pub fn invalid_params(id: Json, message: String) -> (response: JsonRpcResponse)
    ensures
        response@ == ResponseValue::failure(id@, JSONRPC_INVALID_PARAMS as int, message@),
{
    JsonRpcResponse::error(id, JSONRPC_INVALID_PARAMS, message)
}

/// Decides how a `resources/read` is dealt with: the search to forward, or
/// the refusal of parameters that name no documentation URI.
pub fn resources_read_request(request: &JsonRpcRequest) -> (route: Route)
    ensures
        route@ == resources_read_route(request@),
{
    match &request.params {
        None => Route::Respond(
            invalid_params(request.id.clone(), String::from_str("Missing params")),
        ),
        Some(params) => match get_string_param(params, "uri") {
            Err(message) => Route::Respond(invalid_params(request.id.clone(), message)),
            Ok(uri) => match parse_bun_docs_uri(uri) {
                Err(message) => Route::Respond(invalid_params(request.id.clone(), message)),
                Ok(query) => Route::Forward(
                    ForwardCall {
                        body: search_request(request.id.clone(), query.as_str()),
                        resource_uri: Some(uri.to_owned()),
                    },
                ),
            },
        },
    }
}

/// The answer to a request for a method that does not exist.
pub fn method_not_found(request: &JsonRpcRequest) -> (response: JsonRpcResponse)
    ensures
        response@ == ResponseValue::failure(
            request@.id,
            JSONRPC_METHOD_NOT_FOUND as int,
            unknown_method_message(request@.method),
        ),
{
    let mut message = String::from_str("Method not found: ");
    message.append(request.method.as_str());
    JsonRpcResponse::error(request.id.clone(), JSONRPC_METHOD_NOT_FOUND, message)
}

/// The answer to a message that could not be read as a request. It carries
/// the identifier `null`, as the message's own cannot be known.
pub fn parse_error_response(detail: &str) -> (response: JsonRpcResponse)
    ensures
        response@ == ResponseValue::failure(
            JsonValue::Null,
            JSONRPC_PARSE_ERROR as int,
            "Parse error: "@ + detail@,
        ),
{
    let mut message = String::from_str("Parse error: ");
    message.append(detail);
    JsonRpcResponse::error(Json::Null, JSONRPC_PARSE_ERROR, message)
}

/// Decides how a request is dealt with: answered on the spot, or forwarded.
pub fn dispatch(request: &JsonRpcRequest) -> (route: Route)
    ensures
        route@ == route_of(request@),
{
    let method = request.method.as_str();
    if str_eq(method, "tools/call") {
        Route::Forward(ForwardCall { body: tools_call_request(request), resource_uri: None })
    } else if str_eq(method, "tools/list") {
        Route::Respond(handle_tools_list(request))
    } else if str_eq(method, "resources/list") {
        Route::Respond(handle_resources_list(request))
    } else if str_eq(method, "resources/read") {
        resources_read_request(request)
    } else if str_eq(method, "initialize") {
        Route::Respond(handle_initialize(request))
    } else {
        Route::Respond(method_not_found(request))
    }
}

/// Answers a request that was forwarded, given what the forward call came to.
pub fn complete(request: &JsonRpcRequest, call: &ForwardCall, outcome: Result<Json, String>)
    -> (response: JsonRpcResponse)
    ensures
        response@ == answer_of(request@.id, call@, outcome_value(outcome)),
{
    match &call.resource_uri {
        Some(uri) => handle_resources_read(request, uri.as_str(), outcome),
        None => handle_tools_call(request, outcome),
    }
}

/// The set of methods is closed: only `tools/call` and `resources/read` ever
/// reach the backend, `tools/call` always does, and a method of any other
/// name than the five is answered as not found.
pub proof fn lemma_methods_are_a_closed_set(request: RequestValue)
    ensures
        route_of(request) is Forward ==> request.method == "tools/call"@ || request.method
            == "resources/read"@,
        request.method == "tools/call"@ ==> route_of(request) is Forward,
        request.method != "tools/call"@ && request.method != "tools/list"@ && request.method
            != "resources/list"@ && request.method != "resources/read"@ && request.method
            != "initialize"@ ==> route_of(request) == RouteValue::Respond(
            ResponseValue::failure(
                request.id,
                JSONRPC_METHOD_NOT_FOUND as int,
                unknown_method_message(request.method),
            ),
        ),
{
}

/// Every request is answered under its own identifier: on the spot, or after
/// the forward call, whatever that came to.
pub proof fn lemma_every_request_is_answered(
    request: RequestValue,
    outcome: Result<JsonValue, Seq<char>>,
)
    ensures
        match route_of(request) {
            RouteValue::Respond(response) => response.id == request.id,
            RouteValue::Forward(call) => answer_of(request.id, call, outcome).id == request.id,
        },
{
}

/// A forward call that failed is always answered with an internal error that
/// carries the engine's report, and never with a result.
pub proof fn lemma_failed_call_is_an_internal_error(
    id: JsonValue,
    call: CallValue,
    report: Seq<char>,
)
    ensures
        answer_of(id, call, Err(report)) == ResponseValue::failure(
            id,
            JSONRPC_INTERNAL_ERROR as int,
            internal_error_message(report),
        ),
{
}

} // verus!
