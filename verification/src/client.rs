//! The requests of the benchmark client: rewrite a map function, load the
//! map library, install the map functions, and map a document.

use vstd::prelude::*;

use crate::js_server::{Ops, spec_ops_of_action};
use crate::message::JsRequest;

verus! {

/// The time, in milliseconds, that every benchmark request allows.
pub const REQUEST_TIMEOUT: i32 = 5000;

/// The document that the benchmark maps.
pub const DOC: &'static str = "{\"_id\":\"foo\",\"value\":1}";

/// The map functions that the benchmark installs, as a JSON array of
/// source texts.
pub const MAP_FUNS: &'static str = "
    [
        \"(function (doc) { emit(null, null);});\",
         \"(function (doc) {\
           let val = 0;\
           for(let i = 0; i < 1000; i++) {\
                val = i;\
            }\
            emit(doc._id, val);\
         });\"

    ]";

/// The map library that the benchmark loads into the worker.
pub const MAP_JS: &'static str = r#"
  let lib = {};
let map_funs = [];

function init(libJSON, mapFunsJSON) {
    try {
        lib = JSON.parse(libJSON);
    } catch (ex) {
        const ret = {"error": "invalid_library", "reason": ex.toString()};
        return JSON.stringify(ret);
    }

    try {
        mapFuns = Array.from(JSON.parse(mapFunsJSON), (source) => {
            return eval(source)
        })
    } catch (ex) {
        const ret = {"error": "invalid_map_functions", "reason": ex.toString()};
        return JSON.stringify(ret);
    }

    return true;
}

let doc_results = [];

function emit(key, value) {
    doc_results.push([key, value]);
}

function mapEach(mapFun, doc) {
    try {
        doc_results = [];
        mapFun(doc);
        return doc_results;
    } catch (ex) {
        return ex.toString();
    }
};

function mapDoc(docJSON) {
    const doc = JSON.parse(docJSON);
    const mapResults = Array.from(mapFuns, (mapFun) => {
        return mapEach(mapFun, doc);
    });

    return mapResults;
}
"#;

/// The map function that the benchmark asks the worker to rewrite.
pub const REWRITTEN_FUN: &'static str = "\"function(doc) {emit(doc._id, null);}\"";

/// The request that rewrites the map function `REWRITTEN_FUN` through the
/// worker's global `rewriteFun`.
pub fn rewrite_map_funs_request() -> (request: JsRequest)
    ensures
        request.action == 0,
        spec_ops_of_action(request.action) == Ops::REWRITE,
        request.script@ == "rewriteFun"@,
        request.args@.len() == 1,
        request.args@[0]@ == REWRITTEN_FUN@,
        request.timeout == REQUEST_TIMEOUT,
{
    let mut args: Vec<String> = Vec::new();
    args.push(REWRITTEN_FUN.to_owned());
    JsRequest { action: 0, script: "rewriteFun".to_owned(), args, timeout: REQUEST_TIMEOUT }
}

/// The request that evaluates the map library `MAP_JS`, naming its file
/// and first line.
pub fn add_map_js_request() -> (request: JsRequest)
    ensures
        request.action == 1,
        spec_ops_of_action(request.action) == Ops::EVAL,
        request.script@ == MAP_JS@,
        request.args@.len() == 2,
        request.args@[0]@ == "file=map.js"@,
        request.args@[1]@ == "line=1"@,
        request.timeout == REQUEST_TIMEOUT,
{
    let mut args: Vec<String> = Vec::new();
    args.push("file=map.js".to_owned());
    args.push("line=1".to_owned());
    JsRequest { action: 1, script: MAP_JS.to_owned(), args, timeout: REQUEST_TIMEOUT }
}

/// The request that calls the worker's global `init` with an empty library
/// and the map functions `MAP_FUNS`.
pub fn init_map_request() -> (request: JsRequest)
    ensures
        request.action == 2,
        spec_ops_of_action(request.action) == Ops::CALL,
        request.script@ == "init"@,
        request.args@.len() == 2,
        request.args@[0]@ == "{}"@,
        request.args@[1]@ == MAP_FUNS@,
        request.timeout == REQUEST_TIMEOUT,
{
    let mut args: Vec<String> = Vec::new();
    args.push("{}".to_owned());
    args.push(MAP_FUNS.to_owned());
    JsRequest { action: 2, script: "init".to_owned(), args, timeout: REQUEST_TIMEOUT }
}

/// The request that calls the worker's global `mapDoc` on the document
/// `DOC`.
pub fn map_doc_request() -> (request: JsRequest)
    ensures
        request.action == 2,
        spec_ops_of_action(request.action) == Ops::CALL,
        request.script@ == "mapDoc"@,
        request.args@.len() == 1,
        request.args@[0]@ == DOC@,
        request.timeout == REQUEST_TIMEOUT,
{
    let mut args: Vec<String> = Vec::new();
    args.push(DOC.to_owned());
    JsRequest { action: 2, script: "mapDoc".to_owned(), args, timeout: REQUEST_TIMEOUT }
}

} // verus!
