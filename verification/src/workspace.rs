//! The workspace requests: opening a root, and listing what a directory
//! holds.
//!
//! The caller looks at the file system and hands over what it saw; this
//! module says what is answered.

use crate::ipc::{HopResponse, WorkspaceEntry};
use vstd::prelude::*;

verus! {

/// What the file system says of one entry of a directory.
#[derive(Debug, Clone, Copy, PartialEq, Eq)]
pub struct EntryFacts {
    pub is_dir: bool,
    pub is_symlink: bool,
    pub is_file: bool,
    /// The size in bytes.
    pub len: u64,
    /// The time of the last change in milliseconds since 1970, where the
    /// system gives one that is not earlier.
    pub modified_ms: Option<u128>,
}

/// The kind of an entry: `dir` for a directory, `symlink` for a link, `file`
/// for anything else and for an entry of which nothing is known.
pub open spec fn kind_of(facts: Option<EntryFacts>) -> Seq<char> {
    match facts {
        Some(f) => if f.is_dir {
            "dir"@
        } else if f.is_symlink {
            "symlink"@
        } else {
            "file"@
        },
        None => "file"@,
    }
}

/// The size of an entry: that of a regular file, and none for anything else.
pub open spec fn size_of(facts: Option<EntryFacts>) -> Option<u64> {
    match facts {
        Some(f) => if f.is_file {
            Some(f.len)
        } else {
            None
        },
        None => None,
    }
}

/// The time of an entry's last change, cut to 64 bits.
pub open spec fn modified_of(facts: Option<EntryFacts>) -> Option<i64> {
    match facts {
        Some(f) => match f.modified_ms {
            Some(ms) => Some(ms as i64),
            None => None,
        },
        None => None,
    }
}

impl HopResponse {
    pub open spec fn is_open_success(self, root: Seq<char>) -> bool {
        self matches HopResponse::WorkspaceOpen { ok, workspace_root, error } && ok
            && workspace_root.deep_view() == Some(root) && error is None
    }

    pub open spec fn is_open_failure(self, message: Seq<char>) -> bool {
        self matches HopResponse::WorkspaceOpen { ok, workspace_root, error } && !ok
            && workspace_root is None && error.deep_view() == Some(message)
    }

    pub open spec fn is_list_success(self, listed: Vec<WorkspaceEntry>) -> bool {
        self matches HopResponse::WorkspaceList { ok, entries, error } && ok && entries == Some(
            listed,
        ) && error is None
    }

    pub open spec fn is_list_failure(self, message: Seq<char>) -> bool {
        self matches HopResponse::WorkspaceList { ok, entries, error } && !ok && entries is None
            && error.deep_view() == Some(message)
    }
}

/// The response to an open request: the root, where it is a directory, and
/// `Invalid workspace` where it is not, or cannot be looked at.
pub fn open(root: &str, is_dir: bool) -> (response: HopResponse)
    ensures
        is_dir ==> response.is_open_success(root@),
        !is_dir ==> response.is_open_failure("Invalid workspace"@),
{
    if is_dir {
        HopResponse::WorkspaceOpen { ok: true, workspace_root: Some(root.to_owned()), error: None }
    } else {
        HopResponse::WorkspaceOpen {
            ok: false,
            workspace_root: None,
            error: Some("Invalid workspace".to_owned()),
        }
    }
}

/// The listing's entry for a path, from what the file system says of it.
pub fn entry(path: String, facts: Option<EntryFacts>) -> (listed: WorkspaceEntry)
    ensures
        listed.path == path,
        listed.kind@ == kind_of(facts),
        listed.size == size_of(facts),
        listed.modified_ms == modified_of(facts),
{
    match facts {
        Some(f) => {
            let kind: String = if f.is_dir {
                "dir".to_owned()
            } else if f.is_symlink {
                "symlink".to_owned()
            } else {
                "file".to_owned()
            };
            let size: Option<u64> = if f.is_file {
                Some(f.len)
            } else {
                None
            };
            let modified_ms: Option<i64> = match f.modified_ms {
                Some(ms) => Some(#[verifier::truncate] (ms as i64)),
                None => None,
            };
            WorkspaceEntry { path, kind, size, modified_ms }
        },
        None => WorkspaceEntry { path, kind: "file".to_owned(), size: None, modified_ms: None },
    }
}

/// The response to a list request: the entries, or the system's message
/// where the directory could not be read to its end.
pub fn list(outcome: Result<Vec<WorkspaceEntry>, String>) -> (response: HopResponse)
    ensures
        outcome matches Ok(entries) ==> response.is_list_success(entries),
        outcome matches Err(message) ==> response.is_list_failure(message@),
{
    match outcome {
        Ok(entries) => HopResponse::WorkspaceList { ok: true, entries: Some(entries), error: None },
        Err(message) => HopResponse::WorkspaceList {
            ok: false,
            entries: None,
            error: Some(message),
        },
    }
}

} // verus!
