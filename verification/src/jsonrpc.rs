//! JSON-RPC requests and their texts, as the crates `tdn_types` and `serde_json` read
//! and write them.

use vstd::prelude::*;

use tdn_types::rpc::RpcError;

use crate::peer::PeerId;

verus! {

/// A JSON value: the content of a request or of a response.
#[verifier::external_type_specification]
#[verifier::external_body]
pub struct ExValue(serde_json::Value);

/// Why a text is no JSON-RPC request.
#[verifier::external_type_specification]
#[verifier::external_body]
pub struct ExRpcError(tdn_types::rpc::RpcError);

/// The content of a request or of a response.
pub type RpcParam = serde_json::Value;

/// What a text is as a JSON-RPC request: the peer that it names and the request itself,
/// or why it is refused, with the request's number.
pub type Parsed = Result<(PeerId, RpcParam), (RpcError, u64)>;

/// What `tdn_types::rpc::parse_jsonrpc` makes of a text.
pub uninterp spec fn jsonrpc_parsed(text: Seq<char>) -> Result<(PeerId, RpcParam), (RpcError, u64)>;

/// The JSON-RPC error object that `tdn_types::rpc::RpcError::json` makes of an error.
pub uninterp spec fn error_object(error: RpcError, id: u64) -> RpcParam;

/// The text that `serde_json` writes a value as.
pub uninterp spec fn json_text(param: RpcParam) -> Seq<char>;

/// Calls `tdn_types::rpc::parse_jsonrpc`. Trusted: the result depends on the text alone.
/// What the result is on a given text is not stated.
#[verifier::external_body]
pub(crate) fn parse_jsonrpc(text: String) -> (r: Parsed)
    ensures
        r == jsonrpc_parsed(text@),
{
    match tdn_types::rpc::parse_jsonrpc(text) {
        Ok((peer, param)) => Ok((PeerId(peer.0), param)),
        Err(refusal) => Err(refusal),
    }
}

/// Calls `tdn_types::rpc::RpcError::json`. Trusted: the result depends on the error and
/// the request's number alone.
#[verifier::external_body]
fn error_json(error: &RpcError, id: u64) -> (r: RpcParam)
    ensures
        r == error_object(*error, id),
{
    error.json(id)
}

/// Calls `to_string` of `serde_json::Value`. Trusted: the text depends on the value alone.
#[verifier::external_body]
fn value_text(param: &RpcParam) -> (r: String)
    ensures
        r@ == json_text(*param),
{
    param.to_string()
}

/// Calls `serde_json::Value::default`. Trusted: the value is JSON's null, the one value
/// whose text is `null`.
#[verifier::external_body]
pub(crate) fn null_param() -> (r: RpcParam)
    ensures
        json_text(r) == "null"@,
{
    serde_json::Value::default()
}

/// Writes a value as JSON.
pub fn param_text(param: &RpcParam) -> (r: String)
    ensures
        r@ == json_text(*param),
{
    value_text(param)
}

/// The text of the answer to a refused request.
pub open spec fn refusal(error: RpcError, id: u64) -> Seq<char> {
    json_text(error_object(error, id))
}

/// Writes the answer to a refused request.
pub fn refusal_text(error: &RpcError, id: u64) -> (r: String)
    ensures
        r@ == refusal(*error, id),
{
    let object = error_json(error, id);
    value_text(&object)
}

} // verus!
