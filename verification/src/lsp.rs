//! The language-server session manager: which servers run, which program a
//! server kind stands for, and what a request to a server leads to.
//!
//! A request whose method is `initialize` starts the server of its kind, if
//! none is registered; every request is then forwarded as one frame. As in
//! the shell manager, the caller starts processes and writes to them, and
//! reports how that went. A start under a kind that is registered is
//! refused.

use crate::bytes::same_text;
use crate::codec::{encode_payload, frame};
use crate::ipc::{HopEvent, HopNotificationMessage, HopResponse};
use crate::json::{json_text, method_of, method_tag};
use crate::registry::{has_session, map_contains_key, map_insert, map_new, sessions, with_session};
use crate::terminal::WriteOutcome;
use dashmap::DashMap;
use serde_json::Value;
use vstd::prelude::*;
use vstd::string::StringExecFns;
use vstd::utf8::encode_utf8;

verus! {

/// The registry of language servers, by server kind.
pub struct LspManager {
    servers: DashMap<String, u32>,
}

/// What a request to a language server leads to.
#[derive(Debug, Clone, PartialEq, Eq)]
pub enum DispatchPlan {
    /// Answer at once.
    Reply(HopResponse),
    /// Start this program with these arguments and its three streams
    /// captured, then report with `started`.
    Start { program: String, args: Vec<String> },
    /// Write this frame to the server's input and flush, under the server's
    /// lock, then report with `sent`.
    Send { frame: Vec<u8> },
}

/// The program and the arguments that a server kind stands for.
pub open spec fn server_table(server: Seq<char>, windows: bool) -> Option<
    (Seq<char>, Seq<Seq<char>>),
> {
    if server == "rust"@ {
        Some(("rust-analyzer"@, Seq::empty()))
    } else if server == "typescript"@ {
        Some(
            (
                if windows {
                    "npx.cmd"@
                } else {
                    "npx"@
                },
                seq!["typescript-language-server"@, "--stdio"@],
            ),
        )
    } else {
        None
    }
}

/// Whether a request makes the manager start the server first: its method is
/// `initialize`, and no server of the kind is registered.
pub open spec fn starts_server(registry: Map<Seq<char>, u32>, server: Seq<char>, payload: Value) -> bool {
    method_tag(payload) == Some("initialize"@) && !has_session(registry, server)
}

/// The text of the answer to a request whose server could not be started.
pub open spec fn start_failure(message: Seq<char>) -> Seq<char> {
    "Failed to start server: "@ + message
}

/// The text of the log notification for a line of a server's error output.
pub open spec fn log_text(server: Seq<char>, line: Seq<char>) -> Seq<char> {
    "[LSP:"@ + server + "] "@ + line
}

impl HopResponse {
    /// A response to a server request that reports a failure with this
    /// message.
    pub open spec fn is_lsp_failure(self, message: Seq<char>) -> bool {
        self matches HopResponse::LspRequest { ok, result, error } && !ok && result is None
            && error.deep_view() == Some(message)
    }

    /// The response to a server request that reports success. It carries no
    /// result: the server's reply comes as a notification.
    pub open spec fn is_lsp_success(self) -> bool {
        self matches HopResponse::LspRequest { ok, result, error } && ok && result is None
            && error is None
    }
}

impl DispatchPlan {
    /// The plan that forwards a payload to a server: the payload's frame where
    /// the server is registered, the answer `Server not found or stdin closed`
    /// where it is not.
    pub open spec fn forwards(self, registry: Map<Seq<char>, u32>, server: Seq<char>, payload: Value) -> bool {
        if has_session(registry, server) {
            self matches DispatchPlan::Send { frame: bytes } && bytes@ == frame(
                encode_utf8(json_text(payload)),
            )
        } else {
            self matches DispatchPlan::Reply(response) && response.is_lsp_failure(
                "Server not found or stdin closed"@,
            )
        }
    }
}

/// Looks a server kind up in the table.
pub fn server_command(server: &str, windows: bool) -> (command: Option<(String, Vec<String>)>)
    ensures
        command.deep_view() == server_table(server@, windows),
{
    if same_text(server, "rust") {
        let args: Vec<String> = Vec::new();
        Some(("rust-analyzer".to_owned(), args))
    } else if same_text(server, "typescript") {
        let program: String = if windows {
            "npx.cmd".to_owned()
        } else {
            "npx".to_owned()
        };
        let mut args: Vec<String> = Vec::new();
        args.push("typescript-language-server".to_owned());
        args.push("--stdio".to_owned());
        Some((program, args))
    } else {
        None
    }
}

impl LspManager {
    /// The servers that are registered: each kind with its process id.
    pub closed spec fn view(&self) -> Map<Seq<char>, u32> {
        sessions(self.servers)
    }

    /// A manager without servers.
    pub fn new() -> (manager: Self)
        ensures
            manager@ == (Map::<Seq<char>, u32>::empty()),
    {
        LspManager { servers: map_new() }
    }

    /// Whether a server of the kind is registered.
    pub fn contains(&self, server_id: &str) -> (known: bool)
        ensures
            known == has_session(self@, server_id@),
    {
        map_contains_key(&self.servers, server_id)
    }

    /// Takes the outcome of a server's launch: the process id, or the
    /// message of the failure, which is handed on. A server that was launched
    /// is registered under its kind, unless the kind is registered by now:
    /// then nothing changes, and the error is `Server already running`.
    pub fn start_server(&mut self, server_id: String, launched: Result<u32, String>) -> (started:
        Result<(), String>)
        ensures
            launched matches Err(message) ==> final(self)@ == old(self)@ && (started matches Err(
                text,
            ) && text@ == message@),
            launched is Ok && has_session(old(self)@, server_id@) ==> final(self)@ == old(self)@
                && (started matches Err(text) && text@ == "Server already running"@),
            launched matches Ok(pid) ==> (!has_session(old(self)@, server_id@) ==> final(self)@
                == with_session(old(self)@, server_id@, pid) && started is Ok),
    {
        match launched {
            Err(message) => Err(message),
            Ok(pid) => {
                if self.contains(server_id.as_str()) {
                    Err("Server already running".to_owned())
                } else {
                    let _ = map_insert(&mut self.servers, server_id, pid);
                    Ok(())
                }
            },
        }
    }

    /// Frames a payload for a server: the frame to write to the server's
    /// input, or `Server not found or stdin closed` where no server of the
    /// kind is registered.
    pub fn send_payload(&self, server_id: &str, payload: &Value) -> (framed: Result<Vec<u8>, String>)
        ensures
            has_session(self@, server_id@) ==> (framed matches Ok(bytes) && bytes@ == frame(
                encode_utf8(json_text(*payload)),
            )),
            !has_session(self@, server_id@) ==> (framed matches Err(text) && text@
                == "Server not found or stdin closed"@),
    {
        if self.contains(server_id) {
            Ok(encode_payload(payload))
        } else {
            Err("Server not found or stdin closed".to_owned())
        }
    }

    fn forward(&self, server: &str, payload: &Value) -> (plan: DispatchPlan)
        ensures
            plan.forwards(self@, server@, *payload),
    {
        match self.send_payload(server, payload) {
            Ok(bytes) => DispatchPlan::Send { frame: bytes },
            Err(text) => DispatchPlan::Reply(
                HopResponse::LspRequest { ok: false, result: None, error: Some(text) },
            ),
        }
    }
}

impl Default for LspManager {
    fn default() -> (manager: Self)
        ensures
            manager@ == (Map::<Seq<char>, u32>::empty()),
    {
        LspManager::new()
    }
}

/// Decides a request to a language server. A request that starts the server
/// leads to the launch of the program that the table gives for the kind, or,
/// for a kind that the table does not hold, to the answer `Unknown server
/// type`. Every other request is forwarded. The registry is not changed.
pub fn dispatch(manager: &LspManager, server: &str, payload: &Value, windows: bool) -> (plan:
    DispatchPlan)
    ensures
        starts_server(manager@, server@, *payload) ==> match server_table(server@, windows) {
            Some((program, args)) => plan matches DispatchPlan::Start { program: p, args: a }
                && p@ == program && a.deep_view() == args,
            None => plan matches DispatchPlan::Reply(response) && response.is_lsp_failure(
                "Unknown server type"@,
            ),
        },
        !starts_server(manager@, server@, *payload) ==> plan.forwards(manager@, server@, *payload),
{
    let initialize: bool = match method_of(payload) {
        Some(tag) => same_text(tag, "initialize"),
        None => false,
    };
    if initialize && !manager.contains(server) {
        match server_command(server, windows) {
            Some((program, args)) => DispatchPlan::Start { program, args },
            None => DispatchPlan::Reply(
                HopResponse::LspRequest {
                    ok: false,
                    result: None,
                    error: Some("Unknown server type".to_owned()),
                },
            ),
        }
    } else {
        manager.forward(server, payload)
    }
}

/// Takes the outcome of the launch that `dispatch` asked for. A server that
/// could not be started, or whose kind is registered by now, is answered with
/// the message after `Failed to start server: `, and the registry is left as
/// it was. A server that was started is registered, and the payload is
/// forwarded to it.
pub fn started(manager: &mut LspManager, server: &str, payload: &Value, launched: Result<u32, String>) -> (plan:
    DispatchPlan)
    ensures
        launched matches Err(message) ==> final(manager)@ == old(manager)@ && (
        plan matches DispatchPlan::Reply(response) && response.is_lsp_failure(
            start_failure(message@),
        )),
        launched is Ok && has_session(old(manager)@, server@) ==> final(manager)@ == old(manager)@
            && (plan matches DispatchPlan::Reply(response) && response.is_lsp_failure(
            start_failure("Server already running"@),
        )),
        launched matches Ok(pid) ==> (!has_session(old(manager)@, server@) ==> final(manager)@
            == with_session(old(manager)@, server@, pid) && plan.forwards(
            final(manager)@,
            server@,
            *payload,
        )),
{
    match manager.start_server(server.to_owned(), launched) {
        Err(message) => {
            let text: String = "Failed to start server: ".to_owned().concat(message.as_str());
            DispatchPlan::Reply(
                HopResponse::LspRequest { ok: false, result: None, error: Some(text) },
            )
        },
        Ok(_) => manager.forward(server, payload),
    }
}

/// The response to a request that was forwarded, from the outcome of the
/// write: success where the frame was written, the system's message where
/// the write failed, and `Server not found or stdin closed` where the input
/// was closed.
pub fn sent(outcome: WriteOutcome) -> (response: HopResponse)
    ensures
        outcome is Written ==> response.is_lsp_success(),
        outcome is Closed ==> response.is_lsp_failure("Server not found or stdin closed"@),
        outcome matches WriteOutcome::Failed(message) ==> response.is_lsp_failure(message@),
{
    match outcome {
        WriteOutcome::Written => HopResponse::LspRequest { ok: true, result: None, error: None },
        WriteOutcome::Closed => HopResponse::LspRequest {
            ok: false,
            result: None,
            error: Some("Server not found or stdin closed".to_owned()),
        },
        WriteOutcome::Failed(message) => HopResponse::LspRequest {
            ok: false,
            result: None,
            error: Some(message),
        },
    }
}

/// The notification for a message that a server sent.
pub fn server_message(server: &str, message: Value) -> (notification: HopNotificationMessage)
    ensures
        notification.v == crate::ipc::HOP_IPC_VERSION,
        notification.event matches HopEvent::LspMessage { server: kind, message: value } && kind@
            == server@ && value == message,
{
    HopNotificationMessage::new(HopEvent::LspMessage { server: server.to_owned(), message })
}

/// The notification for the end of a server's process: the exit notification
/// of a session, under the server kind, with the exit code where the system
/// gave one. The server stays registered, as a shell does whose process has
/// ended.
pub fn server_exited(server: &str, code: Option<i32>) -> (notification: HopNotificationMessage)
    ensures
        notification.v == crate::ipc::HOP_IPC_VERSION,
        notification.event matches HopEvent::TerminalExit { id, code: status, signal } && id@
            == server@ && status == code && signal is None,
{
    crate::terminal::exited(server, code)
}

/// The notification for a line of a server's error output: a log entry at
/// level `info` in the scope `lsp`, with the server kind in front of the line.
pub fn log_line(server: &str, line: &str) -> (notification: HopNotificationMessage)
    ensures
        notification.v == crate::ipc::HOP_IPC_VERSION,
        notification.event matches HopEvent::Log { level, message, scope } && level@ == "info"@
            && message@ == log_text(server@, line@) && scope.deep_view() == Some("lsp"@),
{
    let mut message: String = "[LSP:".to_owned();
    message.append(server);
    message.append("] ");
    message.append(line);
    HopNotificationMessage::new(
        HopEvent::Log { level: "info".to_owned(), message, scope: Some("lsp".to_owned()) },
    )
}

} // verus!
