//! The JavaScript environment: the startup snapshot that every isolate is
//! made from, and the rule by which a script's value becomes the JSON text
//! that an eval answers.

use vstd::prelude::*;

verus! {

/// The startup snapshot from which every JavaScript isolate of the server
/// is created.
pub struct JSEnv {
    pub startup_data: Vec<u8>,
}

impl JSEnv {
    /// An environment whose isolates start from the snapshot `startup_data`.
    pub fn new(startup_data: Vec<u8>) -> (env: JSEnv)
        ensures
            env.startup_data@ == startup_data@,
    {
        JSEnv { startup_data }
    }
}

/// The answer of an eval whose value has the JSON text `raw`: a value that
/// has no JSON text (JSON.stringify gives "undefined") answers "null", any
/// other value answers its JSON text unchanged.
pub open spec fn spec_eval_result(raw: Seq<char>) -> Seq<char> {
    if raw == "undefined"@ {
        "null"@
    } else {
        raw
    }
}

/// The answer of an eval whose value has the JSON text `raw`.
pub fn eval_result(raw: String) -> (res: String)
    ensures
        res@ == spec_eval_result(raw@),
        raw@ == "undefined"@ ==> res@ == "null"@,
        raw@ != "undefined"@ ==> res@ == raw@,
{
    if raw == "undefined".to_owned() {
        "null".to_owned()
    } else {
        raw
    }
}

/// An eval never answers "undefined": its answer is always JSON.
pub proof fn lemma_eval_result_never_undefined(raw: Seq<char>)
    ensures
        spec_eval_result(raw) != "undefined"@,
{
    reveal_strlit("undefined");
    reveal_strlit("null");
    assert("null"@.len() != "undefined"@.len());
}

/// Normalizing an eval's answer a second time changes nothing.
pub proof fn lemma_eval_result_idempotent(raw: Seq<char>)
    ensures
        spec_eval_result(spec_eval_result(raw)) == spec_eval_result(raw),
{
    lemma_eval_result_never_undefined(raw);
}

/// An eval answers "null" for a value whose JSON text is "undefined" and
/// the JSON text itself, unchanged, for every other value.
pub proof fn lemma_eval_result_unchanged_except_undefined(raw: Seq<char>)
    ensures
        raw == "undefined"@ ==> spec_eval_result(raw) == "null"@,
        raw != "undefined"@ ==> spec_eval_result(raw) == raw,
{
}

} // verus!
