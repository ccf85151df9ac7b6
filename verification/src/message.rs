//! The messages of the Ateles protocol, as plain values.

use vstd::prelude::*;

verus! {

/// A request of the Ateles protocol.
///
/// `action` selects what the JavaScript worker does (0 rewrite, 1 eval,
/// 2 call, anything else exit), `script` is either a source text or the
/// name of a global function, `args` are the arguments of a call and
/// `timeout` is the time the client allows, in milliseconds.
#[derive(Debug, Clone)]
pub struct JsRequest {
    pub action: i32,
    pub script: String,
    pub args: Vec<String>,
    pub timeout: i32,
}

/// A reply of the Ateles protocol: a status (0 for success) and the JSON
/// text of the result.
#[derive(Debug, Clone)]
pub struct JsResponse {
    pub status: i32,
    pub result: String,
}

} // verus!
