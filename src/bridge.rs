//! The request bridge: from the host's input bundle to the outbound request,
//! and from the host's reply to the completed response.
//!
//! The host performs the request itself; this module holds the decisions on
//! either side of that call.
use vstd::prelude::*;
use crate::json::{
    json_parse, json_string, new_object, object_entries, object_get, object_insert,
    parse_value, string_value, JsonObject,
};

verus! {

/// Where every outbound request is sent.
pub const ENDPOINT: &'static str = "https://httpbin.zapier-tooling.com/post";

/// The method of every outbound request.
pub const METHOD: &'static str = "POST";

/// The one key read from the input data and written to the request body.
pub const MESSAGE_KEY: &'static str = "message";

/// What the host hands over on each call.
#[derive(Debug, PartialEq)]
pub struct Bundle {
    pub input_data: JsonObject,
}

/// The request descriptor handed to the host.
#[derive(Debug, PartialEq)]
pub struct Request {
    pub url: String,
    pub method: String,
    pub body: JsonObject,
}

/// The host's reply as it arrives: a status and the raw body.
#[derive(Debug, PartialEq)]
pub struct RawResponse {
    pub status: i32,
    pub content: String,
}

/// The reply returned to the host, with its body parsed as JSON.
#[derive(Debug, PartialEq)]
pub struct Response {
    pub status: i32,
    pub content: String,
    pub parsed_content: serde_json::Value,
}

/// How the host's request settled.
#[derive(Debug, PartialEq)]
pub enum HostReply<E> {
    /// The promise resolved with a value of the reply's shape.
    Resolved(RawResponse),
    /// The promise resolved with a value of another shape.
    Malformed,
    /// The promise rejected with this error.
    Rejected(E),
}

/// Why a call failed. `E` is the host's own error type.
#[derive(Debug, PartialEq)]
pub enum BridgeError<E> {
    /// The input bundle or the host's reply does not have the expected shape.
    Decode,
    /// The reply's body is not well-formed JSON.
    Parse,
    /// The host's request failed with this error, handed on unchanged.
    Host(E),
}

/// The message that a bundle carries: the entry under `MESSAGE_KEY`, or the
/// empty JSON string where there is none.
pub open spec fn message_of(bundle: Bundle) -> serde_json::Value {
    let entries = object_entries(bundle.input_data);
    if entries.contains_key(MESSAGE_KEY@) {
        entries[MESSAGE_KEY@]
    } else {
        json_string(Seq::empty())
    }
}

/// Builds the request for a bundle: a POST to `ENDPOINT` whose body holds the
/// bundle's message and nothing else.
pub fn build_request(bundle: &Bundle) -> (r: Request)
    ensures
        r.url@ == ENDPOINT@,
        r.method@ == METHOD@,
        object_entries(r.body) == map![MESSAGE_KEY@ => message_of(*bundle)],
{
    let message = match object_get(&bundle.input_data, MESSAGE_KEY) {
        Some(v) => v,
        None => string_value(String::new()),
    };
    let mut body = new_object();
    object_insert(&mut body, MESSAGE_KEY.to_string(), message);
    proof {
        assert(object_entries(body) =~= map![MESSAGE_KEY@ => message_of(*bundle)]);
    }
    Request { url: ENDPOINT.to_string(), method: METHOD.to_string(), body }
}

/// The outcome for a resolved reply whose body parsed to `parsed`, or did not
/// parse where `parsed` is `None`.
pub open spec fn parsed_outcome<E>(raw: RawResponse, parsed: Option<serde_json::Value>) -> Result<
    Response,
    BridgeError<E>,
> {
    match parsed {
        Some(v) => Ok(Response { status: raw.status, content: raw.content, parsed_content: v }),
        None => Err(BridgeError::Parse),
    }
}

/// Completes a resolved reply with the result of parsing its body.
pub fn attach_parsed<E>(raw: RawResponse, parsed: Option<serde_json::Value>) -> (r: Result<
    Response,
    BridgeError<E>,
>)
    ensures
        r == parsed_outcome::<E>(raw, parsed),
{
    match parsed {
        Some(v) => Ok(Response { status: raw.status, content: raw.content, parsed_content: v }),
        None => Err(BridgeError::Parse),
    }
}

/// Completes the host's reply: a rejection is handed on unchanged, a reply of
/// the wrong shape is a decode error, and a resolved reply succeeds exactly
/// when its body is well-formed JSON, which it then carries parsed.
pub fn complete_response<E>(reply: HostReply<E>) -> (r: Result<Response, BridgeError<E>>)
    ensures
        match reply {
            HostReply::Resolved(raw) => r == parsed_outcome::<E>(raw, json_parse(raw.content@)),
            HostReply::Malformed => r == Err::<Response, BridgeError<E>>(BridgeError::Decode),
            HostReply::Rejected(e) => r == Err::<Response, BridgeError<E>>(BridgeError::Host(e)),
        },
{
    match reply {
        HostReply::Resolved(raw) => {
            let parsed = match parse_value(raw.content.as_str()) {
                Ok(v) => Some(v),
                Err(_) => None,
            };
            attach_parsed(raw, parsed)
        },
        HostReply::Malformed => Err(BridgeError::Decode),
        HostReply::Rejected(e) => Err(BridgeError::Host(e)),
    }
}

} // verus!
