//! A JavaScript view engine for CouchDB that speaks the Ateles protocol:
//! the decisions of its HTTP service and of its JavaScript worker, as
//! verified functions on plain values.

pub mod message;
pub mod js_server;
pub mod js_engine;
pub mod http_service;
pub mod client;

pub use message::{JsRequest, JsResponse};
pub use js_server::{Command, Ops, ServerAction, process, serve_next};
pub use js_engine::{JSEnv, eval_result};
pub use http_service::{MakeService, Plan, execute_reply, plan_response};
pub use client::{add_map_js_request, init_map_request, map_doc_request, rewrite_map_funs_request};
