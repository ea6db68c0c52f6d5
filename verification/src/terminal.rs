//! The shell session manager: which sessions exist, and what each request
//! does to them.
//!
//! Every operation comes in two halves. The first decides, from the registry
//! alone, either the response or the work to do on the process; the caller
//! does that work; the second turns its outcome into the response. The
//! registry holds the process id of each session; the handles of the processes
//! are the caller's, under the same identifiers. A spawn under an identifier
//! that is in use is rejected: no process is started and the session that
//! exists is left alone.

use crate::ipc::{HopEvent, HopNotificationMessage, HopResponse};
use crate::registry::{
    has_session, map_contains_key, map_get, map_insert, map_new, map_remove, sessions, with_session,
    without_session,
};
use dashmap::DashMap;
use vstd::prelude::*;
use vstd::string::{StringExecFns, StringSliceAdditionalSpecFns, StrSliceExecFns};

verus! {

/// The registry of shell sessions.
pub struct TerminalManager {
    processes: DashMap<String, u32>,
}

/// What a spawn request leads to.
#[derive(Debug, Clone, PartialEq, Eq)]
pub enum SpawnPlan {
    /// Answer at once.
    Reply(HopResponse),
    /// Start this program with its three streams captured, then report with
    /// `spawned`.
    Launch { program: String },
}

/// What a write request leads to.
#[derive(Debug, Clone, PartialEq, Eq)]
pub enum WritePlan {
    /// Answer at once.
    Reply(HopResponse),
    /// Write these bytes to the session's input and flush, under the
    /// session's lock, then report with `written`.
    Deliver { bytes: Vec<u8> },
}

/// What a kill request leads to.
#[derive(Debug, Clone, PartialEq, Eq)]
pub enum KillPlan {
    /// Answer at once.
    Reply(HopResponse),
    /// Terminate the process with this process id, then report with `killed`.
    Terminate { pid: u32 },
}

/// How a write to a session's input went.
#[derive(Debug, Clone, PartialEq, Eq)]
pub enum WriteOutcome {
    /// The session has no open input.
    Closed,
    /// The write failed, with the system's message.
    Failed(String),
    /// The bytes were written.
    Written,
}

/// The program that a spawn starts: the one that the request names, else the
/// platform's shell.
pub open spec fn shell_for(shell: Option<Seq<char>>, windows: bool) -> Seq<char> {
    match shell {
        Some(program) => program,
        None => if windows {
            "powershell.exe"@
        } else {
            "/bin/bash"@
        },
    }
}

impl HopResponse {
    /// A spawn response that reports a failure with this message.
    pub open spec fn is_spawn_failure(self, message: Seq<char>) -> bool {
        self matches HopResponse::TerminalSpawn { ok, pid, error } && !ok && pid is None
            && error.deep_view() == Some(message)
    }

    /// The spawn response that reports this process id.
    pub open spec fn is_spawn_success(self, id: u32) -> bool {
        self matches HopResponse::TerminalSpawn { ok, pid, error } && ok && pid == Some(id)
            && error is None
    }

    /// A write response that reports a failure with this message.
    pub open spec fn is_write_failure(self, message: Seq<char>) -> bool {
        self matches HopResponse::TerminalWrite { ok, error } && !ok && error.deep_view() == Some(
            message,
        )
    }

    /// The write response that reports success.
    pub open spec fn is_write_success(self) -> bool {
        self matches HopResponse::TerminalWrite { ok, error } && ok && error is None
    }

    /// A kill response that reports a failure with this message.
    pub open spec fn is_kill_failure(self, message: Seq<char>) -> bool {
        self matches HopResponse::TerminalKill { ok, error } && !ok && error.deep_view() == Some(
            message,
        )
    }

    /// The kill response that reports success.
    pub open spec fn is_kill_success(self) -> bool {
        self matches HopResponse::TerminalKill { ok, error } && ok && error is None
    }
}

impl TerminalManager {
    /// The sessions that are registered: each identifier with its process
    /// id.
    pub closed spec fn view(&self) -> Map<Seq<char>, u32> {
        sessions(self.processes)
    }

    /// A manager without sessions.
    pub fn new() -> (manager: Self)
        ensures
            manager@ == (Map::<Seq<char>, u32>::empty()),
    {
        TerminalManager { processes: map_new() }
    }

    /// Whether a session is registered under the identifier.
    pub fn contains(&self, id: &str) -> (known: bool)
        ensures
            known == has_session(self@, id@),
    {
        map_contains_key(&self.processes, id)
    }

    /// The process id of the session under the identifier.
    pub fn pid_of(&self, id: &str) -> (pid: Option<u32>)
        ensures
            pid == if has_session(self@, id@) {
                Some(self@[id@])
            } else {
                None
            },
    {
        map_get(&self.processes, id)
    }
}

impl Default for TerminalManager {
    fn default() -> (manager: Self)
        ensures
            manager@ == (Map::<Seq<char>, u32>::empty()),
    {
        TerminalManager::new()
    }
}

/// Decides a spawn request. An identifier that is in use is rejected with
/// `terminal already exists`; any other leads to the launch of the program
/// that `shell_for` gives. The registry is not changed.
pub fn spawn(manager: &TerminalManager, id: &str, shell: Option<String>, windows: bool) -> (plan:
    SpawnPlan)
    ensures
        has_session(manager@, id@) ==> (plan matches SpawnPlan::Reply(response)
            && response.is_spawn_failure("terminal already exists"@)),
        !has_session(manager@, id@) ==> (plan matches SpawnPlan::Launch { program } && program@
            == shell_for(shell.deep_view(), windows)),
{
    if manager.contains(id) {
        return SpawnPlan::Reply(
            HopResponse::TerminalSpawn {
                ok: false,
                pid: None,
                error: Some("terminal already exists".to_owned()),
            },
        );
    }
    let program: String = match shell {
        Some(program) => program,
        None => if windows {
            "powershell.exe".to_owned()
        } else {
            "/bin/bash".to_owned()
        },
    };
    SpawnPlan::Launch { program }
}

/// Takes the outcome of a launch: the process id, or the system's message.
/// A launch that failed registers nothing and is answered with the message.
/// A launch that succeeded registers the session and is answered with the
/// process id, unless the identifier is in use by now: then nothing is
/// registered, and the answer is `terminal already exists`.
pub fn spawned(manager: &mut TerminalManager, id: String, launched: Result<u32, String>) -> (response:
    HopResponse)
    ensures
        launched matches Err(message) ==> (final(manager)@ == old(manager)@
            && response.is_spawn_failure(message@)),
        launched is Ok && has_session(old(manager)@, id@) ==> (final(manager)@ == old(manager)@
            && response.is_spawn_failure("terminal already exists"@)),
        launched matches Ok(pid) ==> (!has_session(old(manager)@, id@) ==> final(manager)@
            == with_session(old(manager)@, id@, pid) && response.is_spawn_success(pid)),
{
    match launched {
        Err(message) => HopResponse::TerminalSpawn { ok: false, pid: None, error: Some(message) },
        Ok(pid) => {
            if manager.contains(id.as_str()) {
                HopResponse::TerminalSpawn {
                    ok: false,
                    pid: None,
                    error: Some("terminal already exists".to_owned()),
                }
            } else {
                let _ = map_insert(&mut manager.processes, id, pid);
                HopResponse::TerminalSpawn { ok: true, pid: Some(pid), error: None }
            }
        },
    }
}

/// Decides a write request. A session that is registered gets the bytes of
/// `data` as they are; an identifier without a session is answered with
/// `terminal not found`.
pub fn write(manager: &TerminalManager, id: &str, data: &str) -> (plan: WritePlan)
    ensures
        has_session(manager@, id@) ==> (plan matches WritePlan::Deliver { bytes } && bytes@
            == data.spec_bytes()),
        !has_session(manager@, id@) ==> (plan matches WritePlan::Reply(response)
            && response.is_write_failure("terminal not found"@)),
{
    if manager.contains(id) {
        WritePlan::Deliver { bytes: data.as_bytes_vec() }
    } else {
        WritePlan::Reply(
            HopResponse::TerminalWrite { ok: false, error: Some("terminal not found".to_owned()) },
        )
    }
}

/// The response to a write, from its outcome: success where the bytes were
/// written, the system's message where the write failed, and `terminal not
/// found` where the input was closed.
pub fn written(outcome: WriteOutcome) -> (response: HopResponse)
    ensures
        outcome is Written ==> response.is_write_success(),
        outcome is Closed ==> response.is_write_failure("terminal not found"@),
        outcome matches WriteOutcome::Failed(message) ==> response.is_write_failure(message@),
{
    match outcome {
        WriteOutcome::Written => HopResponse::TerminalWrite { ok: true, error: None },
        WriteOutcome::Closed => HopResponse::TerminalWrite {
            ok: false,
            error: Some("terminal not found".to_owned()),
        },
        WriteOutcome::Failed(message) => HopResponse::TerminalWrite {
            ok: false,
            error: Some(message),
        },
    }
}

/// Acknowledges a resize. Sessions have no terminal size to set, so the
/// request changes nothing and always succeeds.
pub fn resize(manager: &TerminalManager, id: &str, cols: u32, rows: u32) -> (response: HopResponse)
    ensures
        response matches HopResponse::TerminalResize { ok, error } && ok && error is None,
{
    HopResponse::TerminalResize { ok: true, error: None }
}

/// Decides a kill request. A session that is registered is removed, and its
/// process is to be terminated; an identifier without a session is answered
/// with `terminal not found`. The signal is accepted and not used.
pub fn kill(manager: &mut TerminalManager, id: &str, signal: Option<String>) -> (plan: KillPlan)
    ensures
        final(manager)@ == without_session(old(manager)@, id@),
        has_session(old(manager)@, id@) ==> plan == (KillPlan::Terminate {
            pid: old(manager)@[id@],
        }),
        !has_session(old(manager)@, id@) ==> (plan matches KillPlan::Reply(response)
            && response.is_kill_failure("terminal not found"@)),
{
    match map_remove(&mut manager.processes, id) {
        Some(pid) => KillPlan::Terminate { pid },
        None => KillPlan::Reply(
            HopResponse::TerminalKill { ok: false, error: Some("terminal not found".to_owned()) },
        ),
    }
}

/// The response to a kill, from the outcome of the termination.
pub fn killed(outcome: Result<(), String>) -> (response: HopResponse)
    ensures
        outcome is Ok ==> response.is_kill_success(),
        outcome matches Err(message) ==> response.is_kill_failure(message@),
{
    match outcome {
        Ok(_) => HopResponse::TerminalKill { ok: true, error: None },
        Err(message) => HopResponse::TerminalKill { ok: false, error: Some(message) },
    }
}

/// The notification for one line of a session's output: the line, which
/// comes without its line end, with a line feed after it.
pub fn output_line(id: &str, line: &str) -> (message: HopNotificationMessage)
    ensures
        message.v == crate::ipc::HOP_IPC_VERSION,
        message.event matches HopEvent::TerminalData { id: session, data } && session@ == id@
            && data@ == line@ + "\n"@,
{
    let mut data: String = line.to_owned();
    data.append("\n");
    HopNotificationMessage::new(HopEvent::TerminalData { id: id.to_owned(), data })
}

/// The notification for the end of a session's process, with its exit code
/// where the system gave one.
pub fn exited(id: &str, code: Option<i32>) -> (message: HopNotificationMessage)
    ensures
        message.v == crate::ipc::HOP_IPC_VERSION,
        message.event matches HopEvent::TerminalExit { id: session, code: status, signal }
            && session@ == id@ && status == code && signal is None,
{
    HopNotificationMessage::new(
        HopEvent::TerminalExit { id: id.to_owned(), code, signal: None },
    )
}

} // verus!
