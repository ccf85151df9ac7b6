use fortuna::{execute_reply, plan_response, Plan};

fn respond(method: &str, path: &str) -> (u16, String) {
    match plan_response(method, path) {
        Plan::Respond { status, body } => (status, body),
        Plan::Execute => panic!("{} {} was executed", method, path),
    }
}

#[test]
fn root_greets() {
    assert_eq!(respond("GET", "/"), (200, "HELLO Ateles on Rust with V8!!!!".to_string()));
}

#[test]
fn health_is_ok() {
    assert_eq!(respond("GET", "/Health"), (200, "OK".to_string()));
}

#[test]
fn execute_runs_javascript() {
    assert!(matches!(plan_response("POST", "/Ateles/Execute"), Plan::Execute));
}

#[test]
fn anything_else_is_not_found() {
    assert_eq!(respond("GET", "/Ateles/Execute"), (404, String::new()));
    assert_eq!(respond("POST", "/"), (404, String::new()));
    assert_eq!(respond("POST", "/Health"), (404, String::new()));
    assert_eq!(respond("GET", "/health"), (404, String::new()));
    assert_eq!(respond("PUT", "/Ateles/Execute"), (404, String::new()));
    assert_eq!(respond("GET", ""), (404, String::new()));
    assert_eq!(respond("GET", "/Ateles/Execute/"), (404, String::new()));
}

#[test]
fn execute_reply_succeeds_with_result() {
    let reply = execute_reply("[[[\"foo\",1]]]".to_string());
    assert_eq!(reply.status, 0);
    assert_eq!(reply.result, "[[[\"foo\",1]]]");
}
