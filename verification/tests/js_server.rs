use fortuna::{process, serve_next, Command, JsRequest, Ops, ServerAction};

fn request(action: i32, script: &str, args: &[&str]) -> JsRequest {
    JsRequest {
        action,
        script: script.to_string(),
        args: args.iter().map(|a| a.to_string()).collect(),
        timeout: 5000,
    }
}

#[test]
fn action_codes_name_operations() {
    assert_eq!(Command::from(request(0, "f", &[])).operation, Ops::REWRITE);
    assert_eq!(Command::from(request(1, "f", &[])).operation, Ops::EVAL);
    assert_eq!(Command::from(request(2, "f", &[])).operation, Ops::CALL);
    assert_eq!(Command::from(request(3, "f", &[])).operation, Ops::EXIT);
    assert_eq!(Command::from(request(-1, "f", &[])).operation, Ops::EXIT);
    assert_eq!(Command::from(request(i32::MAX, "f", &[])).operation, Ops::EXIT);
}

#[test]
fn command_keeps_script_and_args() {
    let cmd = Command::from(request(2, "double", &["2", "x"]));
    assert_eq!(cmd.payload, "double");
    assert_eq!(cmd.args, vec!["2".to_string(), "x".to_string()]);
}

#[test]
fn eval_is_evaluated_without_args() {
    let cmd = Command::from(request(1, "var x = 2; x;", &["ignored"]));
    match process(cmd) {
        ServerAction::Eval { script } => assert_eq!(script, "var x = 2; x;"),
        other => panic!("unexpected action {:?}", other),
    }
}

#[test]
fn call_calls_the_named_function() {
    let cmd = Command::from(request(2, "double", &["2"]));
    match process(cmd) {
        ServerAction::Call { fun_name, args } => {
            assert_eq!(fun_name, "double");
            assert_eq!(args, vec!["2".to_string()]);
        }
        other => panic!("unexpected action {:?}", other),
    }
}

#[test]
fn rewrite_is_served_as_call() {
    let rewrite = process(Command::from(request(0, "rewriteFun", &["a"])));
    let call = process(Command::from(request(2, "rewriteFun", &["a"])));
    match (rewrite, call) {
        (
            ServerAction::Call { fun_name: f1, args: a1 },
            ServerAction::Call { fun_name: f2, args: a2 },
        ) => {
            assert_eq!(f1, f2);
            assert_eq!(a1, a2);
        }
        other => panic!("unexpected actions {:?}", other),
    }
}

#[test]
fn only_exit_stops_the_worker() {
    for action in [-5, 0, 1, 2, 3, 4, 100] {
        let served = process(Command::from(request(action, "f", &[]))).keeps_serving();
        assert_eq!(served, (0..=2).contains(&action));
    }
}

#[test]
fn closed_channel_stops_the_worker() {
    assert!(matches!(serve_next(None), ServerAction::Exit));
    assert!(!serve_next(None).keeps_serving());
    let cmd = Command { operation: Ops::EVAL, payload: "1".to_string(), args: vec![] };
    assert!(serve_next(Some(cmd)).keeps_serving());
}
