//! The HTTP service: which requests it answers with a fixed text, which one
//! runs JavaScript, and the Ateles reply that a run is answered with.

use vstd::prelude::*;

use crate::js_engine::JSEnv;
use crate::message::JsResponse;

verus! {

/// How the service answers one HTTP request: at once with a status and a
/// text body, or by running the Ateles request that the body holds.
#[derive(Debug)]
pub enum Plan {
    Respond { status: u16, body: String },
    Execute,
}

/// Whether a request with this method and path is an Ateles execution.
pub open spec fn spec_is_execute(method: Seq<char>, path: Seq<char>) -> bool {
    method == "POST"@ && path == "/Ateles/Execute"@
}

/// The status of the answer to a request that is not an Ateles execution:
/// 200 for `GET /` and `GET /Health`, 404 for anything else.
pub open spec fn spec_static_status(method: Seq<char>, path: Seq<char>) -> u16 {
    if method == "GET"@ && (path == "/"@ || path == "/Health"@) {
        200
    } else {
        404
    }
}

/// The body of the answer to a request that is not an Ateles execution:
/// a greeting for `GET /`, "OK" for `GET /Health`, and nothing otherwise.
pub open spec fn spec_static_body(method: Seq<char>, path: Seq<char>) -> Seq<char> {
    if method == "GET"@ && path == "/"@ {
        "HELLO Ateles on Rust with V8!!!!"@
    } else if method == "GET"@ && path == "/Health"@ {
        "OK"@
    } else {
        ""@
    }
}

/// Decides how to answer a request with this method and path.
pub fn plan_response(method: &str, path: &str) -> (plan: Plan)
    ensures
        (plan is Execute) <==> spec_is_execute(method@, path@),
        (plan is Execute) <==> (method@ == "POST"@ && path@ == "/Ateles/Execute"@),
        method@ == "GET"@ && path@ == "/"@ ==> (plan matches Plan::Respond { status, body }
            && status == 200 && body@ == "HELLO Ateles on Rust with V8!!!!"@),
        method@ == "GET"@ && path@ == "/Health"@ ==> (plan matches Plan::Respond { status, body }
            && status == 200 && body@ == "OK"@),
        !(method@ == "GET"@ && (path@ == "/"@ || path@ == "/Health"@)) && !(method@ == "POST"@
            && path@ == "/Ateles/Execute"@) ==> (plan matches Plan::Respond { status, body }
            && status == 404 && body@ == ""@),
        plan matches Plan::Respond { status, body } ==> status == spec_static_status(
            method@,
            path@,
        ) && body@ == spec_static_body(method@, path@),
{
    proof {
        reveal_strlit("GET");
        reveal_strlit("POST");
        assert("GET"@.len() != "POST"@.len());
        reveal_strlit("/");
        reveal_strlit("/Health");
        assert("/"@.len() != "/Health"@.len());
    }
    let m = method.to_owned();
    let p = path.to_owned();
    if m == "GET".to_owned() && p == "/".to_owned() {
        Plan::Respond { status: 200, body: "HELLO Ateles on Rust with V8!!!!".to_owned() }
    } else if m == "GET".to_owned() && p == "/Health".to_owned() {
        Plan::Respond { status: 200, body: "OK".to_owned() }
    } else if m == "POST".to_owned() && p == "/Ateles/Execute".to_owned() {
        Plan::Execute
    } else {
        Plan::Respond { status: 404, body: "".to_owned() }
    }
}

/// The Ateles reply to an executed request whose JavaScript answered
/// `result`: status 0 and the answer unchanged.
pub fn execute_reply(result: String) -> (reply: JsResponse)
    ensures
        reply.status == 0,
        reply.result@ == result@,
{
    JsResponse { status: 0, result }
}

/// The factory of the service's connections: each connection gets its own
/// JavaScript worker, made from this environment.
pub struct MakeService {
    pub js_env: JSEnv,
}

impl MakeService {
    /// A factory whose workers start from the snapshot `startup_data`.
    pub fn new(startup_data: Vec<u8>) -> (service: MakeService)
        ensures
            service.js_env.startup_data@ == startup_data@,
    {
        MakeService { js_env: JSEnv::new(startup_data) }
    }
}

/// The health check: `GET /Health` is always answered 200 "OK", and no
/// other request is answered "OK".
pub proof fn lemma_health_check(method: Seq<char>, path: Seq<char>)
    ensures
        method == "GET"@ && path == "/Health"@ ==> !spec_is_execute(method, path)
            && spec_static_status(method, path) == 200 && spec_static_body(method, path) == "OK"@,
        !spec_is_execute(method, path) && spec_static_body(method, path) == "OK"@ ==> method
            == "GET"@ && path == "/Health"@,
{
    reveal_strlit("GET");
    reveal_strlit("POST");
    reveal_strlit("OK");
    reveal_strlit("HELLO Ateles on Rust with V8!!!!");
    reveal_strlit("");
    reveal_strlit("/");
    reveal_strlit("/Health");
    assert("GET"@.len() != "POST"@.len());
    assert("/"@.len() != "/Health"@.len());
    assert("OK"@.len() != "HELLO Ateles on Rust with V8!!!!"@.len());
    assert("OK"@.len() != ""@.len());
}

/// Only a request that is answered at once can be a 404, and a 404 has an
/// empty body: every request is either executed, answered 200 with a text,
/// or answered 404 with nothing.
pub proof fn lemma_answers_partition(method: Seq<char>, path: Seq<char>)
    ensures
        !spec_is_execute(method, path) ==> (spec_static_status(method, path) == 200 <==> (method
            == "GET"@ && (path == "/"@ || path == "/Health"@))),
        !spec_is_execute(method, path) && spec_static_status(method, path) == 404 ==> spec_static_body(
            method,
            path,
        ) == ""@,
        spec_is_execute(method, path) ==> spec_static_status(method, path) == 404,
{
    reveal_strlit("GET");
    reveal_strlit("POST");
    assert("GET"@.len() != "POST"@.len());
}

/// A request runs JavaScript if and only if it is a POST to exactly
/// `/Ateles/Execute`; `GET /` answers 200 with the greeting, `GET /Health`
/// answers 200 "OK", and every other request answers 404 with no body.
pub proof fn lemma_routes(method: Seq<char>, path: Seq<char>)
    ensures
        spec_is_execute(method, path) <==> (method == "POST"@ && path == "/Ateles/Execute"@),
        method == "GET"@ && path == "/"@ ==> spec_static_status(method, path) == 200
            && spec_static_body(method, path) == "HELLO Ateles on Rust with V8!!!!"@,
        method == "GET"@ && path == "/Health"@ ==> spec_static_status(method, path) == 200
            && spec_static_body(method, path) == "OK"@,
        !(method == "GET"@ && (path == "/"@ || path == "/Health"@)) && !(method == "POST"@ && path
            == "/Ateles/Execute"@) ==> spec_static_status(method, path) == 404 && spec_static_body(
            method,
            path,
        ) == ""@,
{
    reveal_strlit("/");
    reveal_strlit("/Health");
    assert("/"@.len() != "/Health"@.len());
}

} // verus!
