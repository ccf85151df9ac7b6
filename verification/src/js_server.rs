//! The JavaScript worker's protocol: which command an Ateles request is,
//! and what the worker does with each command it receives.

use vstd::prelude::*;

use crate::message::JsRequest;

verus! {

/// The operations a JavaScript worker understands.
#[allow(non_camel_case_types)]
#[derive(Debug, Clone, Copy, PartialEq, Eq, Structural)]
pub enum Ops {
    REWRITE,
    EVAL,
    CALL,
    EXIT,
}

/// A command sent to the JavaScript worker: the operation, its payload
/// (a source text for `EVAL`, a function name otherwise) and the arguments
/// of a call.
#[derive(Debug)]
pub struct Command {
    pub operation: Ops,
    pub payload: String,
    pub args: Vec<String>,
}

/// The operation that an Ateles action code names: 0 is a rewrite, 1 an
/// eval, 2 a call, and every other code asks the worker to exit.
pub open spec fn spec_ops_of_action(action: i32) -> Ops {
    if action == 0 {
        Ops::REWRITE
    } else if action == 1 {
        Ops::EVAL
    } else if action == 2 {
        Ops::CALL
    } else {
        Ops::EXIT
    }
}

/// The command that an Ateles request stands for.
pub open spec fn spec_command_of(request: JsRequest) -> Command {
    Command {
        operation: spec_ops_of_action(request.action),
        payload: request.script,
        args: request.args,
    }
}

impl From<JsRequest> for Command {
    fn from(js_request: JsRequest) -> (cmd: Self) {
        let op = match js_request.action {
            0 => Ops::REWRITE,
            1 => Ops::EVAL,
            2 => Ops::CALL,
            _ => Ops::EXIT,
        };
        Command { operation: op, payload: js_request.script, args: js_request.args }
    }
}

impl vstd::std_specs::convert::FromSpecImpl<JsRequest> for Command {
    open spec fn obeys_from_spec() -> bool {
        true
    }

    open spec fn from_spec(v: JsRequest) -> Self {
        spec_command_of(v)
    }
}

/// What the worker does with one command: evaluate a script, call a global
/// function with arguments, or stop serving.
#[derive(Debug)]
pub enum ServerAction {
    Eval { script: String },
    Call { fun_name: String, args: Vec<String> },
    Exit,
}

/// The worker's response to a command: `EXIT` stops it, `EVAL` evaluates
/// the payload with no arguments, and `CALL` and `REWRITE` both call the
/// function that the payload names with the command's arguments.
pub open spec fn spec_process(cmd: Command) -> ServerAction {
    match cmd.operation {
        Ops::EXIT => ServerAction::Exit,
        Ops::EVAL => ServerAction::Eval { script: cmd.payload },
        Ops::CALL => ServerAction::Call { fun_name: cmd.payload, args: cmd.args },
        Ops::REWRITE => ServerAction::Call { fun_name: cmd.payload, args: cmd.args },
    }
}

/// Decides what the worker does with `cmd`.
pub fn process(cmd: Command) -> (action: ServerAction)
    ensures
        action == spec_process(cmd),
        (action is Exit) <==> cmd.operation == Ops::EXIT,
        cmd.operation == Ops::EVAL ==> action == (ServerAction::Eval { script: cmd.payload }),
        (cmd.operation == Ops::CALL || cmd.operation == Ops::REWRITE) ==> action == (
        ServerAction::Call { fun_name: cmd.payload, args: cmd.args }),
{
    match cmd.operation {
        Ops::EXIT => ServerAction::Exit,
        Ops::EVAL => ServerAction::Eval { script: cmd.payload },
        Ops::CALL => ServerAction::Call { fun_name: cmd.payload, args: cmd.args },
        Ops::REWRITE => ServerAction::Call { fun_name: cmd.payload, args: cmd.args },
    }
}

/// What the worker does next in its receive loop: `received` is the
/// command that came in, or `None` when every client is gone, in which case
/// the worker stops.
pub open spec fn spec_serve_next(received: Option<Command>) -> ServerAction {
    match received {
        Some(cmd) => spec_process(cmd),
        None => ServerAction::Exit,
    }
}

/// Decides what the worker does next in its receive loop.
pub fn serve_next(received: Option<Command>) -> (action: ServerAction)
    ensures
        action == spec_serve_next(received),
        received is None ==> action is Exit,
        received matches Some(cmd) ==> action == spec_process(cmd),
        received matches Some(cmd) ==> ((action is Exit) <==> cmd.operation == Ops::EXIT),
{
    match received {
        Some(cmd) => process(cmd),
        None => ServerAction::Exit,
    }
}

impl ServerAction {
    /// Whether the worker goes on to the next command after this action.
    pub fn keeps_serving(&self) -> (b: bool)
        ensures
            b == !(*self is Exit),
    {
        match self {
            ServerAction::Exit => false,
            _ => true,
        }
    }
}

/// A rewrite is served exactly as a call of the same function with the
/// same arguments.
pub proof fn lemma_rewrite_served_as_call(payload: String, args: Vec<String>)
    ensures
        spec_process(Command { operation: Ops::REWRITE, payload, args }) == spec_process(
            Command { operation: Ops::CALL, payload, args },
        ),
{
}

/// The worker stops on a command if and only if the command is `EXIT`;
/// every other command is answered.
pub proof fn lemma_only_exit_stops(cmd: Command)
    ensures
        (spec_process(cmd) is Exit) <==> cmd.operation == Ops::EXIT,
{
}

/// A request stops the worker if and only if its action code is none of
/// 0, 1 and 2; otherwise the worker runs the request's script, with the
/// request's arguments unless it is an eval.
pub proof fn lemma_request_dispatch(request: JsRequest)
    ensures
        (spec_process(spec_command_of(request)) is Exit) <==> !(0 <= request.action <= 2),
        request.action == 1 ==> spec_process(spec_command_of(request)) == (ServerAction::Eval {
            script: request.script,
        }),
        (request.action == 0 || request.action == 2) ==> spec_process(spec_command_of(request))
            == (ServerAction::Call { fun_name: request.script, args: request.args }),
{
}

/// An action code names the operation the Ateles protocol gives it: 0 a
/// rewrite, 1 an eval, 2 a call, and every other code an exit.
pub proof fn lemma_action_codes(action: i32)
    ensures
        action == 0 ==> spec_command_of_action_is(action, Ops::REWRITE),
        action == 1 ==> spec_command_of_action_is(action, Ops::EVAL),
        action == 2 ==> spec_command_of_action_is(action, Ops::CALL),
        !(0 <= action <= 2) ==> spec_command_of_action_is(action, Ops::EXIT),
{
}

/// Whether a request with this action code becomes a command with
/// operation `op`, keeping the request's script and arguments, whatever the
/// script and arguments are.
pub open spec fn spec_command_of_action_is(action: i32, op: Ops) -> bool {
    forall|script: String, args: Vec<String>, timeout: i32|
        #![trigger spec_command_of(JsRequest { action, script, args, timeout })]
        spec_command_of(JsRequest { action, script, args, timeout }) == (Command {
            operation: op,
            payload: script,
            args,
        })
}

/// Each command is served by what its operation asks for: an eval
/// evaluates the payload, a call or a rewrite calls the function that the
/// payload names with the command's arguments, and only an exit stops the
/// worker.
pub proof fn lemma_commands_served(cmd: Command)
    ensures
        cmd.operation == Ops::EVAL ==> spec_process(cmd) == (ServerAction::Eval {
            script: cmd.payload,
        }),
        cmd.operation == Ops::CALL ==> spec_process(cmd) == (ServerAction::Call {
            fun_name: cmd.payload,
            args: cmd.args,
        }),
        cmd.operation == Ops::REWRITE ==> spec_process(cmd) == (ServerAction::Call {
            fun_name: cmd.payload,
            args: cmd.args,
        }),
        (spec_process(cmd) is Exit) <==> cmd.operation == Ops::EXIT,
{
}

/// The receive loop serves every received command exactly as `process`
/// does, so a received command stops the worker only if it is an exit; the
/// loop also stops when every client is gone.
pub proof fn lemma_receive_loop(received: Option<Command>)
    ensures
        received is None ==> spec_serve_next(received) is Exit,
        received matches Some(cmd) ==> spec_serve_next(received) == spec_process(cmd),
        received matches Some(cmd) ==> ((spec_serve_next(received) is Exit) <==> cmd.operation
            == Ops::EXIT),
        received matches Some(cmd) ==> (cmd.operation == Ops::CALL ==> spec_serve_next(received)
            == (ServerAction::Call { fun_name: cmd.payload, args: cmd.args })),
{
}

} // verus!
