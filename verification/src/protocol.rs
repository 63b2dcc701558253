//! JSON-RPC 2.0 requests, responses and errors.

use crate::json::{
    entries_of, entry, lemma_lookup_push, lookup, option_value, Entry, Json, JsonMember, JsonValue,
};
use vstd::prelude::*;

verus! {

/// The protocol version that every message carries.
pub const JSONRPC_VERSION: &'static str = "2.0";

/// A request as it arrives.
#[derive(Debug, PartialEq)]
pub struct JsonRpcRequest {
    /// The protocol version, `"2.0"`.
    pub jsonrpc: String,
    /// The caller's identifier: a string, a number or null. It is echoed, never read.
    pub id: Json,
    /// The method to run.
    pub method: String,
    /// The method's parameters, if any were sent.
    pub params: Option<Json>,
}

/// The error of a response.
#[derive(Debug, PartialEq)]
pub struct JsonRpcError {
    /// The error code; the protocol's own codes are negative.
    pub code: i32,
    /// What went wrong, for a reader.
    pub message: String,
    /// Further data on the error.
    pub data: Option<Json>,
}

/// A response: the request's identifier with either a result or an error.
///
/// That a response carries exactly one of the two is a matter of its type. The
/// protocol version is no part of it: on the wire every response carries
/// `"2.0"`.
#[derive(Debug, PartialEq)]
pub struct JsonRpcResponse {
    /// The identifier of the request that is answered.
    pub id: Json,
    /// The result, where the request succeeded, or the error, where it failed.
    pub outcome: Result<Json, JsonRpcError>,
}

/// What a [`JsonRpcRequest`] stands for.
pub struct RequestValue {
    pub jsonrpc: Seq<char>,
    pub id: JsonValue,
    pub method: Seq<char>,
    pub params: Option<JsonValue>,
}

/// What a [`JsonRpcError`] stands for.
pub struct ErrorValue {
    pub code: int,
    pub message: Seq<char>,
    pub data: Option<JsonValue>,
}

/// What a [`JsonRpcResponse`] stands for.
pub struct ResponseValue {
    pub id: JsonValue,
    pub outcome: Result<JsonValue, ErrorValue>,
}

impl View for JsonRpcRequest {
    type V = RequestValue;

    open spec fn view(&self) -> RequestValue {
        RequestValue {
            jsonrpc: self.jsonrpc@,
            id: self.id@,
            method: self.method@,
            params: option_value(self.params),
        }
    }
}

impl View for JsonRpcError {
    type V = ErrorValue;

    open spec fn view(&self) -> ErrorValue {
        ErrorValue { code: self.code as int, message: self.message@, data: option_value(self.data) }
    }
}

impl View for JsonRpcResponse {
    type V = ResponseValue;

    open spec fn view(&self) -> ResponseValue {
        ResponseValue {
            id: self.id@,
            outcome: match self.outcome {
                Ok(result) => Ok(result@),
                Err(error) => Err(error@),
            },
        }
    }
}

impl ErrorValue {
    /// The error as a JSON object: `code`, `message`, and `data` where there
    /// is any.
    pub open spec fn encode(self) -> JsonValue {
        JsonValue::Object(
            seq![
                entry("code"@, JsonValue::integer(self.code)),
                entry("message"@, JsonValue::String(self.message)),
            ] + match self.data {
                Some(data) => seq![entry("data"@, data)],
                None => Seq::empty(),
            },
        )
    }
}

impl ResponseValue {
    /// The successful response to the request `id`.
    pub open spec fn success(id: JsonValue, result: JsonValue) -> ResponseValue {
        ResponseValue { id, outcome: Ok(result) }
    }

    /// The failed response to the request `id`, without further data.
    pub open spec fn failure(id: JsonValue, code: int, message: Seq<char>) -> ResponseValue {
        ResponseValue { id, outcome: Err(ErrorValue { code, message, data: None }) }
    }

    /// The failed response to the request `id`, with further data.
    pub open spec fn failure_with_data(
        id: JsonValue,
        code: int,
        message: Seq<char>,
        data: JsonValue,
    ) -> ResponseValue {
        ResponseValue { id, outcome: Err(ErrorValue { code, message, data: Some(data) }) }
    }

    /// The result, where the response carries one.
    pub open spec fn result(self) -> Option<JsonValue> {
        match self.outcome {
            Ok(result) => Some(result),
            Err(_) => None,
        }
    }

    /// The error, where the response carries one.
    pub open spec fn error(self) -> Option<ErrorValue> {
        match self.outcome {
            Ok(_) => None,
            Err(error) => Some(error),
        }
    }

    /// The response as a JSON object, as it goes on the wire: `jsonrpc`, `id`,
    /// and then `result` or `error`, whichever the response carries.
    pub open spec fn encode(self) -> JsonValue {
        JsonValue::Object(
            seq![entry("jsonrpc"@, JsonValue::String(JSONRPC_VERSION@)), entry("id"@, self.id)]
                + match self.outcome {
                Ok(result) => seq![entry("result"@, result)],
                Err(error) => seq![entry("error"@, error.encode())],
            },
        )
    }
}

impl JsonRpcError {
    /// An error without further data.
    pub fn new(code: i32, message: String) -> (error: JsonRpcError)
        ensures
            error@ == (ErrorValue { code: code as int, message: message@, data: None }),
    {
        JsonRpcError { code, message, data: None }
    }

    /// An error with further data.
    pub fn with_data(code: i32, message: String, data: Json) -> (error: JsonRpcError)
        ensures
            error@ == (ErrorValue { code: code as int, message: message@, data: Some(data@) }),
    {
        JsonRpcError { code, message, data: Some(data) }
    }

    /// The error as a JSON object.
    pub fn to_json(&self) -> (tree: Json)
        ensures
            tree@ == self@.encode(),
    {
        let mut members: Vec<JsonMember> = Vec::new();
        members.push(JsonMember::new("code", Json::integer(self.code as i64)));
        members.push(JsonMember::new("message", Json::string(self.message.as_str())));
        match &self.data {
            Some(data) => {
                members.push(JsonMember::new("data", data.clone()));
            },
            None => {},
        }
        assert(entries_of(members@) =~= self@.encode()->Object_0);
        Json::object(members)
    }
}

impl JsonRpcResponse {
    /// The successful response to the request `id`.
    pub fn success(id: Json, result: Json) -> (response: JsonRpcResponse)
        ensures
            response@ == ResponseValue::success(id@, result@),
    {
        JsonRpcResponse { id, outcome: Ok(result) }
    }

    /// The failed response to the request `id`.
    pub fn error(id: Json, code: i32, message: String) -> (response: JsonRpcResponse)
        ensures
            response@ == ResponseValue::failure(id@, code as int, message@),
    {
        JsonRpcResponse { id, outcome: Err(JsonRpcError::new(code, message)) }
    }

    /// The failed response to the request `id`, with further data on the error.
    pub fn error_with_data(id: Json, code: i32, message: String, data: Json) -> (response:
        JsonRpcResponse)
        ensures
            response@ == ResponseValue::failure_with_data(id@, code as int, message@, data@),
    {
        JsonRpcResponse { id, outcome: Err(JsonRpcError::with_data(code, message, data)) }
    }

    /// The result, where the response carries one.
    pub fn result(&self) -> (result: Option<&Json>)
        ensures
            match result {
                Some(r) => self@.result() == Some(r@),
                None => self@.result() is None,
            },
    {
        match &self.outcome {
            Ok(result) => Some(result),
            Err(_) => None,
        }
    }

    /// The error, where the response carries one.
    pub fn failure(&self) -> (error: Option<&JsonRpcError>)
        ensures
            match error {
                Some(e) => self@.error() == Some(e@),
                None => self@.error() is None,
            },
    {
        match &self.outcome {
            Ok(_) => None,
            Err(error) => Some(error),
        }
    }

    /// The response as a JSON object, as it goes on the wire. Of `result` and
    /// `error` only the one that the response carries is written; the other
    /// is left out, not written as `null`.
    pub fn to_json(&self) -> (tree: Json)
        ensures
            tree@ == self@.encode(),
    {
        let mut members: Vec<JsonMember> = Vec::new();
        members.push(JsonMember::new("jsonrpc", Json::string(JSONRPC_VERSION)));
        members.push(JsonMember::new("id", self.id.clone()));
        match &self.outcome {
            Ok(result) => {
                members.push(JsonMember::new("result", result.clone()));
            },
            Err(error) => {
                members.push(JsonMember::new("error", error.to_json()));
            },
        }
        assert(entries_of(members@) =~= self@.encode()->Object_0);
        Json::object(members)
    }
}

/// Writing a response as JSON and reading its members back gives the
/// identifier it was made with and the one part it carries: the result and no
/// error, or the error and no result.
pub proof fn lemma_response_round_trip(response: ResponseValue)
    ensures
        response.encode().get("jsonrpc"@) == Some(JsonValue::String(JSONRPC_VERSION@)),
        response.encode().get("id"@) == Some(response.id),
        response.encode().get("result"@) == response.result(),
        response.encode().get("error"@) == match response.error() {
            Some(error) => Some(error.encode()),
            None => None,
        },
        (response.encode().get("result"@) is Some) != (response.encode().get("error"@) is Some),
{
    reveal_strlit("jsonrpc");
    reveal_strlit("id");
    reveal_strlit("result");
    reveal_strlit("error");
    assert("jsonrpc"@.len() == 7 && "id"@.len() == 2 && "result"@.len() == 6 && "error"@.len() == 5);
    let version = entry("jsonrpc"@, JsonValue::String(JSONRPC_VERSION@));
    let id = entry("id"@, response.id);
    let part = match response.outcome {
        Ok(result) => entry("result"@, result),
        Err(error) => entry("error"@, error.encode()),
    };
    let none = Seq::<Entry>::empty();
    let all = none.push(version).push(id).push(part);
    assert(all =~= response.encode()->Object_0);
    assert forall|key: Seq<char>| #[trigger] lookup(all, key) == if key == part.key {
        Some(part.value)
    } else if key == "id"@ {
        Some(response.id)
    } else if key == "jsonrpc"@ {
        Some(JsonValue::String(JSONRPC_VERSION@))
    } else {
        None
    } by {
        lemma_lookup_push(none.push(version).push(id), part, key);
        lemma_lookup_push(none.push(version), id, key);
        lemma_lookup_push(none, version, key);
    }
}

} // verus!
