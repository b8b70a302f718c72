//! The JSON-RPC forwarding bridge.
//!
//! A call is translated into a JSON-RPC request (method name, positional
//! argument array, the fixed request id, protocol-version field omitted),
//! sent as one synchronous HTTP request to the local endpoint of the
//! supervised program, and the response body is decoded as a JSON-RPC
//! response envelope and re-serialized into a generic value.  JSON-RPC
//! level error objects are not interpreted here; they pass through as-is.

use vstd::prelude::*;

use jsonrpc_core::{MethodCall, Response};
use serde_json::Value;

use crate::errors::Error;
use crate::supervisor::Process;

verus! {

/// Declares `serde_json::Value`, the generic JSON value.
#[verifier::external_type_specification]
#[verifier::external_body]
pub struct ExValue(Value);

/// Declares `jsonrpc_core::MethodCall`, the JSON-RPC request envelope.
#[verifier::external_type_specification]
#[verifier::external_body]
pub struct ExMethodCall(MethodCall);

/// Declares `jsonrpc_core::Response`, the JSON-RPC response envelope.
#[verifier::external_type_specification]
#[verifier::external_body]
pub struct ExResponse(Response);

/// Whether a body decodes as a JSON-RPC response envelope.  The exact
/// grammar belongs to `jsonrpc_core`'s deserializer; the decoding depends
/// on the characters of the body alone.
pub uninterp spec fn is_rpc_response(body: Seq<char>) -> bool;

/// The URL of the supervised program's RPC endpoint.  The port is a fixed
/// local constant; deriving it instead from the arguments the program was
/// launched with is a known open point of this design.
pub const RPC_URL: &'static str = "http://127.0.0.1:8080/";

/// The fixed id given to every forwarded JSON-RPC request.
pub const RPC_REQUEST_ID: u64 = 1;

/// Relies on `jsonrpc_core::MethodCall`: bundles the method name, the
/// positional arguments and the numeric id into a request envelope, with
/// the protocol-version field omitted.
#[verifier::external_body]
fn build_method_call(method: String, arguments: Vec<Value>, id: u64) -> (r: MethodCall) {
    MethodCall {
        jsonrpc: None,
        method,
        params: jsonrpc_core::Params::Array(arguments),
        id: jsonrpc_core::Id::Num(id),
    }
}

/// Relies on `reqwest::blocking`: performs one synchronous HTTP request to
/// `url` with `request` serialized as its JSON body, and returns the
/// response body text, or the description of the transport failure.
#[verifier::external_body]
fn http_send_json(url: &str, request: &MethodCall) -> (r: Result<String, String>) {
    let client = match reqwest::blocking::Client::builder().build() {
        Ok(c) => c,
        Err(err) => return Err(format!("{}", err)),
    };
    client
        .get(url)
        .json(request)
        .send()
        .and_then(|response| response.text())
        .map_err(|err| format!("{}", err))
}

/// Relies on `serde_json::from_str` for `jsonrpc_core::Response`: decodes
/// the body as a JSON-RPC response envelope; the outcome is a function of
/// the body alone, named [`is_rpc_response`].  On failure the description
/// of the decode error is returned.
#[verifier::external_body]
fn parse_response(body: &str) -> (r: Result<Response, String>)
    ensures
        r is Ok <==> is_rpc_response(body@),
{
    serde_json::from_str(body).map_err(|err| format!("JSON parse failed {}", err))
}

/// Relies on `serde_json::to_value`: re-serializes the decoded response
/// envelope into a generic JSON value.  This cannot fail: the envelope is
/// plain data with derived serializers, and every JSON object it can carry
/// is keyed by strings.
#[verifier::external_body]
fn response_to_value(response: Response) -> (r: Result<Value, String>)
    ensures
        r is Ok,
{
    serde_json::to_value(response).map_err(|err| format!("{}", err))
}

/// Decodes an HTTP response body as a JSON-RPC response envelope and
/// re-serializes it into the generic value handed back to the caller.
/// Exactly the bodies that do not decode are reported, as
/// `RpcParseFailure`.
pub fn decode_rpc_body(body: &str) -> (r: Result<Value, Error>)
    ensures
        r is Ok <==> is_rpc_response(body@),
        r matches Err(e) ==> e is RpcParseFailure,
{
    let response = match parse_response(body) {
        Ok(response) => response,
        Err(msg) => {
            return Err(Error::RpcParseFailure(msg));
        },
    };
    match response_to_value(response) {
        Ok(value) => Ok(value),
        Err(msg) => Err(Error::RpcParseFailure(msg)),
    }
}

impl Process {
    /// Forwards one JSON-RPC call to the supervised program's endpoint.
    ///
    /// A transport failure is reported as `RpcTransportFailure` and a body
    /// that does not decode as a JSON-RPC response envelope as
    /// `RpcParseFailure`, each preserving the underlying description; no
    /// other failure is possible, and the supervisor's state is untouched.
    pub fn call_rpc(&mut self, method: String, arguments: Vec<Value>) -> (r: Result<Value, Error>)
        ensures
            *final(self) == *old(self),
            r matches Err(e) ==> (e is RpcTransportFailure || e is RpcParseFailure),
    {
        let request = build_method_call(method, arguments, RPC_REQUEST_ID);
        let body = match http_send_json(RPC_URL, &request) {
            Ok(body) => body,
            Err(msg) => {
                return Err(Error::RpcTransportFailure(msg));
            },
        };
        decode_rpc_body(body.as_str())
    }
}

} // verus!
