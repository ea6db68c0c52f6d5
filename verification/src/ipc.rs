//! The control protocol: versioned envelopes around requests, responses and
//! notifications, and the test of a request's version that stands before
//! every operation.

use serde_json::Value;
use vstd::prelude::*;

verus! {

/// The one protocol version that the core speaks.
pub const HOP_IPC_VERSION: u8 = 1;

/// The name of the event stream on which every notification is delivered.
pub const HOP_EVENT_CHANNEL: &'static str = "hop://event";

#[derive(Debug, Clone, PartialEq, Eq)]
pub enum HopMessage {
    Request(HopRequestMessage),
    Response(HopResponseMessage),
    Notification(HopNotificationMessage),
}

#[derive(Debug, Clone, PartialEq, Eq)]
pub struct HopRequestMessage {
    pub v: u8,
    pub id: String,
    pub request: HopRequest,
}

#[derive(Debug, Clone, PartialEq, Eq)]
pub struct HopResponseMessage {
    pub v: u8,
    pub id: String,
    pub response: HopResponse,
}

#[derive(Debug, Clone, PartialEq, Eq)]
pub struct HopNotificationMessage {
    pub v: u8,
    pub event: HopEvent,
}

#[allow(inconsistent_fields)]
#[derive(Debug, Clone, PartialEq, Eq)]
pub enum HopRequest {
    FsRead { path: String, root: Option<String> },
    FsWrite { path: String, content: String, root: Option<String> },
    FsDelete { path: String, root: Option<String> },
    FsSearch { query: String, root: Option<String> },
    WorkspaceOpen { root: String },
    WorkspaceList { root: String },
    TerminalSpawn { id: String, shell: Option<String> },
    TerminalWrite { id: String, data: String },
    TerminalResize { id: String, cols: u32, rows: u32 },
    TerminalKill { id: String, signal: Option<String> },
    LspRequest { server: String, payload: Value },
}

#[allow(inconsistent_fields)]
#[derive(Debug, Clone, PartialEq, Eq)]
pub enum HopResponse {
    FsRead { ok: bool, content: Option<String>, error: Option<String> },
    FsWrite { ok: bool, error: Option<String> },
    FsDelete { ok: bool, error: Option<String> },
    FsSearch { ok: bool, matches: Option<Vec<String>>, error: Option<String> },
    WorkspaceOpen { ok: bool, workspace_root: Option<String>, error: Option<String> },
    WorkspaceList { ok: bool, entries: Option<Vec<WorkspaceEntry>>, error: Option<String> },
    TerminalSpawn { ok: bool, pid: Option<u32>, error: Option<String> },
    TerminalWrite { ok: bool, error: Option<String> },
    TerminalResize { ok: bool, error: Option<String> },
    TerminalKill { ok: bool, error: Option<String> },
    LspRequest { ok: bool, result: Option<Value>, error: Option<String> },
    Error { ok: bool, code: Option<String>, error: String },
}

/// One entry of a workspace listing. `kind` is `file`, `dir` or `symlink`.
#[derive(Debug, Clone, PartialEq, Eq)]
pub struct WorkspaceEntry {
    pub path: String,
    pub kind: String,
    pub size: Option<u64>,
    pub modified_ms: Option<i64>,
}

#[allow(inconsistent_fields)]
#[derive(Debug, Clone, PartialEq, Eq)]
pub enum HopEvent {
    TerminalData { id: String, data: String },
    TerminalExit { id: String, code: Option<i32>, signal: Option<String> },
    LspMessage { server: String, message: Value },
    Log { level: String, message: String, scope: Option<String> },
}

impl HopResponse {
    /// Whether this is the answer to a request of another version: not ok,
    /// with the code `version_mismatch`.
    pub open spec fn is_version_mismatch(self) -> bool {
        self matches HopResponse::Error { ok, code, error } && !ok && code.deep_view() == Some(
            "version_mismatch"@,
        ) && error@ == "IPC version mismatch"@
    }
}

impl HopRequestMessage {
    /// Tests the version. A request of the supported version passes, with its
    /// correlation id; any other version is answered at once with a
    /// `version_mismatch` error that echoes the id.
    pub fn accept(self) -> (passed: Result<(String, HopRequest), HopResponseMessage>)
        ensures
            self.v == HOP_IPC_VERSION ==> passed == Ok::<(String, HopRequest), HopResponseMessage>(
                (self.id, self.request),
            ),
            self.v != HOP_IPC_VERSION ==> (passed matches Err(reply) && reply.v == HOP_IPC_VERSION
                && reply.id == self.id && reply.response.is_version_mismatch()),
    {
        if self.v != HOP_IPC_VERSION {
            return Err(
                HopResponseMessage {
                    v: HOP_IPC_VERSION,
                    id: self.id,
                    response: HopResponse::Error {
                        ok: false,
                        code: Some("version_mismatch".to_owned()),
                        error: "IPC version mismatch".to_owned(),
                    },
                },
            );
        }
        Ok((self.id, self.request))
    }
}

impl HopResponseMessage {
    /// The envelope of a response: the supported version, and the correlation
    /// id of the request that it answers.
    pub fn reply(id: String, response: HopResponse) -> (message: Self)
        ensures
            message.v == HOP_IPC_VERSION,
            message.id == id,
            message.response == response,
    {
        HopResponseMessage { v: HOP_IPC_VERSION, id, response }
    }
}

impl HopNotificationMessage {
    /// The envelope of a notification: the supported version and the event.
    pub fn new(event: HopEvent) -> (message: Self)
        ensures
            message.v == HOP_IPC_VERSION,
            message.event == event,
    {
        HopNotificationMessage { v: HOP_IPC_VERSION, event }
    }
}

} // verus!
