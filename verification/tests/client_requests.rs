use fortuna::client::{DOC, MAP_FUNS, MAP_JS, REQUEST_TIMEOUT, REWRITTEN_FUN};
use fortuna::{
    add_map_js_request, init_map_request, map_doc_request, process, rewrite_map_funs_request,
    Command, Ops, ServerAction,
};

#[test]
fn rewrite_request() {
    let req = rewrite_map_funs_request();
    assert_eq!(req.action, 0);
    assert_eq!(req.script, "rewriteFun");
    assert_eq!(req.args, vec!["\"function(doc) {emit(doc._id, null);}\"".to_string()]);
    assert_eq!(req.args[0], REWRITTEN_FUN);
    assert_eq!(req.timeout, 5000);
    assert_eq!(Command::from(req).operation, Ops::REWRITE);
}

#[test]
fn add_map_js_request_evaluates_library() {
    let req = add_map_js_request();
    assert_eq!(req.action, 1);
    assert_eq!(req.script, MAP_JS);
    assert!(req.script.contains("function mapDoc(docJSON)"));
    assert_eq!(req.args, vec!["file=map.js".to_string(), "line=1".to_string()]);
    assert_eq!(req.timeout, REQUEST_TIMEOUT);
    assert_eq!(Command::from(req).operation, Ops::EVAL);
}

#[test]
fn init_map_request_calls_init() {
    let req = init_map_request();
    assert_eq!(req.action, 2);
    assert_eq!(req.script, "init");
    assert_eq!(req.args, vec!["{}".to_string(), MAP_FUNS.to_string()]);
    assert_eq!(req.timeout, 5000);
    match process(Command::from(req)) {
        ServerAction::Call { fun_name, args } => {
            assert_eq!(fun_name, "init");
            assert_eq!(args.len(), 2);
        }
        other => panic!("unexpected action {:?}", other),
    }
}

#[test]
fn map_doc_request_calls_map_doc() {
    let req = map_doc_request();
    assert_eq!(req.action, 2);
    assert_eq!(req.script, "mapDoc");
    assert_eq!(req.args, vec![DOC.to_string()]);
    assert_eq!(DOC, "{\"_id\":\"foo\",\"value\":1}");
    assert_eq!(req.timeout, 5000);
    assert_eq!(Command::from(req).operation, Ops::CALL);
}
