//! The request dispatcher: the version test, and the routing of a request to
//! the operation of its kind.
//!
//! The dispatcher decides nothing of its own. It hands each request to the
//! manager that owns its kind and passes on what that manager plans: either
//! the response, or the work that the caller has to do before one of the
//! managers can say what the response is.

use crate::codec::frame;
use crate::fs_handlers::{path_fault, Access, SearchWalk};
use crate::ipc::{HopRequest, HopRequestMessage, HopResponse, HopResponseMessage, HOP_IPC_VERSION};
use crate::json::json_text;
use crate::lsp::{server_table, starts_server, DispatchPlan, LspManager};
use crate::registry::{has_session, without_session};
use crate::terminal::{shell_for, KillPlan, SpawnPlan, TerminalManager, WritePlan};
use serde_json::Value;
use vstd::prelude::*;
use vstd::string::StringSliceAdditionalSpecFns;
use vstd::utf8::encode_utf8;

verus! {

/// What a request leaves to do.
#[allow(inconsistent_fields)]
#[derive(Debug, Clone, PartialEq, Eq)]
pub enum Work {
    /// Nothing: this is the response.
    Reply(HopResponse),
    /// Read the file; `fs_handlers::read_done` gives the response.
    ReadFile { path: String },
    /// Write the content to the file; `fs_handlers::write_done` gives the
    /// response.
    WriteFile { path: String, content: String },
    /// Delete the file or the directory; `fs_handlers::delete_done` gives the
    /// response.
    DeleteFile { path: String },
    /// Walk the directories of the search; its `finish` gives the response.
    Search(SearchWalk),
    /// Look whether the root is a directory; `workspace::open` gives the
    /// response.
    OpenWorkspace { root: String },
    /// Read the directory; `workspace::list` gives the response.
    ListWorkspace { root: String },
    /// Start the shell; `terminal::spawned` gives the response.
    LaunchShell { id: String, program: String },
    /// Write to the session's input; `terminal::written` gives the response.
    WriteShell { id: String, bytes: Vec<u8> },
    /// Terminate the session's process; `terminal::killed` gives the
    /// response.
    KillShell { id: String, pid: u32 },
    /// Start the server; `lsp::started` says how to go on.
    StartServer { server: String, program: String, args: Vec<String>, payload: Value },
    /// Write the frame to the server's input; `lsp::sent` gives the response.
    SendFrame { server: String, frame: Vec<u8> },
}

/// What a request envelope leads to.
#[derive(Debug, Clone, PartialEq, Eq)]
pub enum Routed {
    /// The envelope is answered as it stands.
    Answer(HopResponseMessage),
    /// The request was routed: the work to do, and the correlation id for the
    /// response.
    Work { id: String, work: Work },
}

/// The work that each kind of request is routed to. `before` and `after` are
/// the shell sessions before and after the routing, `servers` the language
/// servers.
pub open spec fn routes(
    request: HopRequest,
    before: Map<Seq<char>, u32>,
    after: Map<Seq<char>, u32>,
    servers: Map<Seq<char>, u32>,
    windows: bool,
    work: Work,
) -> bool {
    match request {
        HopRequest::FsRead { path, root } => after == before && match path_fault(
            path@,
            root.deep_view(),
        ) {
            Some(message) => work matches Work::Reply(response) && response.is_read_failure(message),
            None => work matches Work::ReadFile { path: target } && target == path,
        },
        HopRequest::FsWrite { path, content, root } => after == before && match path_fault(
            path@,
            root.deep_view(),
        ) {
            Some(message) => work matches Work::Reply(response) && response.is_fs_write_failure(
                message,
            ),
            None => work matches Work::WriteFile { path: target, content: text } && target == path
                && text == content,
        },
        HopRequest::FsDelete { path, root } => after == before && match path_fault(
            path@,
            root.deep_view(),
        ) {
            Some(message) => work matches Work::Reply(response) && response.is_delete_failure(
                message,
            ),
            None => work matches Work::DeleteFile { path: target } && target == path,
        },
        HopRequest::FsSearch { query, root } => after == before && match root {
            None => work matches Work::Reply(response) && response.is_search_failure(
                "Root required"@,
            ),
            Some(dir) => match path_fault(dir@, Some(dir@)) {
                Some(message) => work matches Work::Reply(response) && response.is_search_failure(
                    message,
                ),
                None => work matches Work::Search(walk) && walk.query()
                    == crate::fs_handlers::lowercase(query@) && walk.found().len() == 0
                    && walk.pending() == seq![dir@] && walk.count() == 0,
            },
        },
        HopRequest::WorkspaceOpen { root } => after == before && (
        work matches Work::OpenWorkspace { root: dir } && dir == root),
        HopRequest::WorkspaceList { root } => after == before && (
        work matches Work::ListWorkspace { root: dir } && dir == root),
        HopRequest::TerminalSpawn { id, shell } => after == before && if has_session(before, id@) {
            work matches Work::Reply(response) && response.is_spawn_failure(
                "terminal already exists"@,
            )
        } else {
            work matches Work::LaunchShell { id: session, program } && session == id && program@
                == shell_for(shell.deep_view(), windows)
        },
        HopRequest::TerminalWrite { id, data } => after == before && if has_session(before, id@) {
            work matches Work::WriteShell { id: session, bytes } && session == id && bytes@
                == encode_utf8(data@)
        } else {
            work matches Work::Reply(response) && response.is_write_failure("terminal not found"@)
        },
        HopRequest::TerminalResize { id, cols, rows } => after == before && (
        work matches Work::Reply(response) && (
        response matches HopResponse::TerminalResize { ok, error } && ok && error is None)),
        HopRequest::TerminalKill { id, signal } => after == without_session(before, id@)
            && if has_session(before, id@) {
            work matches Work::KillShell { id: session, pid } && session == id && pid
                == before[id@]
        } else {
            work matches Work::Reply(response) && response.is_kill_failure("terminal not found"@)
        },
        HopRequest::LspRequest { server, payload } => after == before && if starts_server(
            servers,
            server@,
            payload,
        ) {
            match server_table(server@, windows) {
                Some((program, args)) => work matches Work::StartServer {
                    server: kind,
                    program: p,
                    args: a,
                    payload: value,
                } && kind == server && p@ == program && a.deep_view() == args && value == payload,
                None => work matches Work::Reply(response) && response.is_lsp_failure(
                    "Unknown server type"@,
                ),
            }
        } else if has_session(servers, server@) {
            work matches Work::SendFrame { server: kind, frame: bytes } && kind == server && bytes@
                == frame(encode_utf8(json_text(payload)))
        } else {
            work matches Work::Reply(response) && response.is_lsp_failure(
                "Server not found or stdin closed"@,
            )
        },
    }
}

/// Routes a request to the operation of its kind.
pub fn route(
    request: HopRequest,
    terminals: &mut TerminalManager,
    servers: &LspManager,
    windows: bool,
) -> (work: Work)
    ensures
        routes(request, old(terminals)@, final(terminals)@, servers@, windows, work),
{
    match request {
        HopRequest::FsRead { path, root } => {
            let root: Option<&str> = match &root {
                Some(r) => Some(r.as_str()),
                None => None,
            };
            match crate::fs_handlers::read(path.as_str(), root) {
                Access::Denied(response) => Work::Reply(response),
                Access::Granted => Work::ReadFile { path },
            }
        },
        HopRequest::FsWrite { path, content, root } => {
            let root: Option<&str> = match &root {
                Some(r) => Some(r.as_str()),
                None => None,
            };
            match crate::fs_handlers::write(path.as_str(), root) {
                Access::Denied(response) => Work::Reply(response),
                Access::Granted => Work::WriteFile { path, content },
            }
        },
        HopRequest::FsDelete { path, root } => {
            let root: Option<&str> = match &root {
                Some(r) => Some(r.as_str()),
                None => None,
            };
            match crate::fs_handlers::delete(path.as_str(), root) {
                Access::Denied(response) => Work::Reply(response),
                Access::Granted => Work::DeleteFile { path },
            }
        },
        HopRequest::FsSearch { query, root } => {
            let root: Option<&str> = match &root {
                Some(r) => Some(r.as_str()),
                None => None,
            };
            match crate::fs_handlers::search(query.as_str(), root) {
                Err(response) => Work::Reply(response),
                Ok(walk) => Work::Search(walk),
            }
        },
        HopRequest::WorkspaceOpen { root } => Work::OpenWorkspace { root },
        HopRequest::WorkspaceList { root } => Work::ListWorkspace { root },
        HopRequest::TerminalSpawn { id, shell } => {
            match crate::terminal::spawn(terminals, id.as_str(), shell, windows) {
                SpawnPlan::Reply(response) => Work::Reply(response),
                SpawnPlan::Launch { program } => Work::LaunchShell { id, program },
            }
        },
        HopRequest::TerminalWrite { id, data } => {
            match crate::terminal::write(terminals, id.as_str(), data.as_str()) {
                WritePlan::Reply(response) => Work::Reply(response),
                WritePlan::Deliver { bytes } => Work::WriteShell { id, bytes },
            }
        },
        HopRequest::TerminalResize { id, cols, rows } => Work::Reply(
            crate::terminal::resize(terminals, id.as_str(), cols, rows),
        ),
        HopRequest::TerminalKill { id, signal } => {
            match crate::terminal::kill(terminals, id.as_str(), signal) {
                KillPlan::Reply(response) => Work::Reply(response),
                KillPlan::Terminate { pid } => Work::KillShell { id, pid },
            }
        },
        HopRequest::LspRequest { server, payload } => {
            match crate::lsp::dispatch(servers, server.as_str(), &payload, windows) {
                DispatchPlan::Reply(response) => Work::Reply(response),
                DispatchPlan::Start { program, args } => Work::StartServer {
                    server,
                    program,
                    args,
                    payload,
                },
                DispatchPlan::Send { frame } => Work::SendFrame { server, frame },
            }
        },
    }
}

/// Takes a request envelope. An envelope of another version than the
/// supported one is answered at once with the `version_mismatch` error, under
/// its correlation id, and no session is touched. Any other envelope is
/// routed by the kind of its request.
pub fn hop_ipc(
    message: HopRequestMessage,
    terminals: &mut TerminalManager,
    servers: &LspManager,
    windows: bool,
) -> (routed: Routed)
    ensures
        message.v != HOP_IPC_VERSION ==> final(terminals)@ == old(terminals)@ && (
        routed matches Routed::Answer(reply) && reply.v == HOP_IPC_VERSION && reply.id == message.id
            && reply.response.is_version_mismatch()),
        message.v == HOP_IPC_VERSION ==> (routed matches Routed::Work { id, work } && id
            == message.id && routes(
            message.request,
            old(terminals)@,
            final(terminals)@,
            servers@,
            windows,
            work,
        )),
{
    match message.accept() {
        Err(reply) => Routed::Answer(reply),
        Ok((id, request)) => {
            let work = route(request, terminals, servers, windows);
            Routed::Work { id, work }
        },
    }
}

} // verus!
