//! The file requests: whether a path may be touched, the responses to the
//! three file operations, and the walk of a search.
//!
//! Reading and changing files is the caller's work; this module decides what
//! may be done and says what is answered.

use crate::bytes::{contains, contains_bytes, has_prefix, starts_with};
use crate::ipc::HopResponse;
use vstd::prelude::*;
use vstd::string::StringSliceAdditionalSpecFns;
use vstd::utf8::encode_utf8;

verus! {

/// The most entries that one search looks at.
pub const MAX_FILES: usize = 10000;

/// Whether a file operation may go on.
#[derive(Debug, Clone, PartialEq, Eq)]
pub enum Access {
    /// The path was refused; this is the answer.
    Denied(HopResponse),
    /// Do the operation, then report its outcome.
    Granted,
}

/// What is wrong with a path under a workspace root, if anything is: a path
/// that holds `..` is a traversal, and a path that does not begin with the
/// root lies outside of it. Both are compared as UTF-8 bytes. Without a root
/// every path passes.
pub open spec fn path_fault(path: Seq<char>, root: Option<Seq<char>>) -> Option<Seq<char>> {
    match root {
        None => None,
        Some(root) => if contains_bytes(encode_utf8(path), encode_utf8(".."@)) {
            Some("Path traversal detected"@)
        } else if !has_prefix(encode_utf8(path), encode_utf8(root)) {
            Some("Access denied: Path is outside workspace root"@)
        } else {
            None
        },
    }
}

/// Whether a search leaves an entry out, with all that lies below it: its
/// path names a dependency, version-control or build directory.
pub open spec fn is_skipped(path: Seq<char>) -> bool {
    ||| contains_bytes(encode_utf8(path), encode_utf8("node_modules"@))
    ||| contains_bytes(encode_utf8(path), encode_utf8(".git"@))
    ||| contains_bytes(encode_utf8(path), encode_utf8("target"@))
}

/// The lower-case form that `str::to_lowercase` gives a text.
pub uninterp spec fn lowercase(text: Seq<char>) -> Seq<char>;

/// Whether a file name matches a query: the lower-case form of the name holds
/// the lower-case form of the query.
pub open spec fn name_matches(file_name: Seq<char>, query: Seq<char>) -> bool {
    contains_bytes(encode_utf8(lowercase(file_name)), encode_utf8(lowercase(query)))
}

/// `str::to_lowercase`: the lower-case form of the text, which `lowercase`
/// names.
#[verifier::external_body]
fn to_lowercase(text: &str) -> (lower: String)
    ensures
        lower@ == lowercase(text@),
{
    text.to_lowercase()
}

impl HopResponse {
    pub open spec fn is_read_failure(self, message: Seq<char>) -> bool {
        self matches HopResponse::FsRead { ok, content, error } && !ok && content is None
            && error.deep_view() == Some(message)
    }

    pub open spec fn is_read_success(self, text: Seq<char>) -> bool {
        self matches HopResponse::FsRead { ok, content, error } && ok && content.deep_view()
            == Some(text) && error is None
    }

    pub open spec fn is_fs_write_failure(self, message: Seq<char>) -> bool {
        self matches HopResponse::FsWrite { ok, error } && !ok && error.deep_view() == Some(
            message,
        )
    }

    pub open spec fn is_fs_write_success(self) -> bool {
        self matches HopResponse::FsWrite { ok, error } && ok && error is None
    }

    pub open spec fn is_delete_failure(self, message: Seq<char>) -> bool {
        self matches HopResponse::FsDelete { ok, error } && !ok && error.deep_view() == Some(
            message,
        )
    }

    pub open spec fn is_delete_success(self) -> bool {
        self matches HopResponse::FsDelete { ok, error } && ok && error is None
    }

    pub open spec fn is_search_failure(self, message: Seq<char>) -> bool {
        self matches HopResponse::FsSearch { ok, matches, error } && !ok && matches is None
            && error.deep_view() == Some(message)
    }

    pub open spec fn is_search_success(self, found: Seq<Seq<char>>) -> bool {
        self matches HopResponse::FsSearch { ok, matches, error } && ok && matches.deep_view()
            == Some(found) && error is None
    }
}

/// Checks a path against a workspace root.
pub fn validate_path(path: &str, root: Option<&str>) -> (checked: Result<(), String>)
    ensures
        checked is Ok == path_fault(path@, root.deep_view()) is None,
        checked matches Err(message) ==> path_fault(path@, root.deep_view()) == Some(message@),
{
    if let Some(root) = root {
        if contains(path.as_bytes(), "..".as_bytes()) {
            return Err("Path traversal detected".to_owned());
        }
        if !starts_with(path.as_bytes(), root.as_bytes()) {
            return Err("Access denied: Path is outside workspace root".to_owned());
        }
    }
    Ok(())
}

/// Decides a read request: a path with a fault is refused with the fault as
/// the message.
pub fn read(path: &str, root: Option<&str>) -> (access: Access)
    ensures
        path_fault(path@, root.deep_view()) is None ==> access is Granted,
        path_fault(path@, root.deep_view()) matches Some(message) ==> (
        access matches Access::Denied(response) && response.is_read_failure(message)),
{
    match validate_path(path, root) {
        Ok(_) => Access::Granted,
        Err(message) => Access::Denied(
            HopResponse::FsRead { ok: false, content: None, error: Some(message) },
        ),
    }
}

/// The response to a read, from its outcome: the content, or the system's
/// message.
pub fn read_done(outcome: Result<String, String>) -> (response: HopResponse)
    ensures
        outcome matches Ok(content) ==> response.is_read_success(content@),
        outcome matches Err(message) ==> response.is_read_failure(message@),
{
    match outcome {
        Ok(content) => HopResponse::FsRead { ok: true, content: Some(content), error: None },
        Err(message) => HopResponse::FsRead { ok: false, content: None, error: Some(message) },
    }
}

/// Decides a write request: a path with a fault is refused with the fault as
/// the message.
pub fn write(path: &str, root: Option<&str>) -> (access: Access)
    ensures
        path_fault(path@, root.deep_view()) is None ==> access is Granted,
        path_fault(path@, root.deep_view()) matches Some(message) ==> (
        access matches Access::Denied(response) && response.is_fs_write_failure(message)),
{
    match validate_path(path, root) {
        Ok(_) => Access::Granted,
        Err(message) => Access::Denied(HopResponse::FsWrite { ok: false, error: Some(message) }),
    }
}

/// The response to a write, from its outcome.
pub fn write_done(outcome: Result<(), String>) -> (response: HopResponse)
    ensures
        outcome is Ok ==> response.is_fs_write_success(),
        outcome matches Err(message) ==> response.is_fs_write_failure(message@),
{
    match outcome {
        Ok(_) => HopResponse::FsWrite { ok: true, error: None },
        Err(message) => HopResponse::FsWrite { ok: false, error: Some(message) },
    }
}

/// Decides a delete request: a path with a fault is refused with the fault
/// as the message.
pub fn delete(path: &str, root: Option<&str>) -> (access: Access)
    ensures
        path_fault(path@, root.deep_view()) is None ==> access is Granted,
        path_fault(path@, root.deep_view()) matches Some(message) ==> (
        access matches Access::Denied(response) && response.is_delete_failure(message)),
{
    match validate_path(path, root) {
        Ok(_) => Access::Granted,
        Err(message) => Access::Denied(HopResponse::FsDelete { ok: false, error: Some(message) }),
    }
}

/// The response to a delete, from its outcome.
pub fn delete_done(outcome: Result<(), String>) -> (response: HopResponse)
    ensures
        outcome is Ok ==> response.is_delete_success(),
        outcome matches Err(message) ==> response.is_delete_failure(message@),
{
    match outcome {
        Ok(_) => HopResponse::FsDelete { ok: true, error: None },
        Err(message) => HopResponse::FsDelete { ok: false, error: Some(message) },
    }
}

/// A search under way: the query in lower case, the paths found, the
/// directories still to read, and the number of entries looked at.
#[derive(Debug, Clone, PartialEq, Eq)]
pub struct SearchWalk {
    query: String,
    matches: Vec<String>,
    dirs: Vec<String>,
    count: usize,
}

impl SearchWalk {
    /// The lower-case form of the query.
    pub closed spec fn query(&self) -> Seq<char> {
        self.query@
    }

    /// The paths found so far, in the order in which they were found.
    pub closed spec fn found(&self) -> Seq<Seq<char>> {
        self.matches.deep_view()
    }

    /// The directories still to read; the last is read next.
    pub closed spec fn pending(&self) -> Seq<Seq<char>> {
        self.dirs.deep_view()
    }

    /// The number of entries looked at, the one that went over the limit
    /// included.
    pub closed spec fn count(&self) -> nat {
        self.count as nat
    }

    /// Whether the search has looked at more entries than it may.
    pub open spec fn exhausted(&self) -> bool {
        self.count() > MAX_FILES
    }

    /// The directory to read next, or `None` where the search is over:
    /// nothing is left to read, or the limit was passed.
    pub fn next_dir(&mut self) -> (dir: Option<String>)
        ensures
            final(self).query() == old(self).query(),
            final(self).found() == old(self).found(),
            final(self).count() == old(self).count(),
            old(self).exhausted() || old(self).pending().len() == 0 ==> dir is None
                && final(self).pending() == old(self).pending(),
            !old(self).exhausted() && old(self).pending().len() > 0 ==> dir.deep_view() == Some(
                old(self).pending().last(),
            ) && final(self).pending() == old(self).pending().drop_last(),
    {
        if self.count > MAX_FILES {
            return None;
        }
        self.dirs.pop()
    }

    /// Looks at one entry of the directory that is being read, and says
    /// whether to go on with that directory. The entry that goes over the
    /// limit is counted and ends the search; after it nothing is counted. An
    /// entry that is skipped changes nothing else. Any other entry is added to
    /// the paths found if its name matches the query, and to the directories
    /// to read if it is one.
    pub fn visit(&mut self, path: &str, file_name: &str, is_dir: bool) -> (go_on: bool)
        ensures
            final(self).query() == old(self).query(),
            final(self).count() == if old(self).exhausted() {
                old(self).count()
            } else {
                old(self).count() + 1
            },
            go_on == !final(self).exhausted(),
            final(self).found() == if go_on && !is_skipped(path@) && contains_bytes(
                encode_utf8(lowercase(file_name@)),
                encode_utf8(old(self).query()),
            ) {
                old(self).found().push(path@)
            } else {
                old(self).found()
            },
            final(self).pending() == if go_on && !is_skipped(path@) && is_dir {
                old(self).pending().push(path@)
            } else {
                old(self).pending()
            },
    {
        if self.count > MAX_FILES {
            return false;
        }
        self.count = self.count + 1;
        if self.count > MAX_FILES {
            return false;
        }
        let bytes: &[u8] = path.as_bytes();
        if contains(bytes, "node_modules".as_bytes()) || contains(bytes, ".git".as_bytes())
            || contains(bytes, "target".as_bytes()) {
            return true;
        }
        let lower: String = to_lowercase(file_name);
        if contains(lower.as_str().as_bytes(), self.query.as_str().as_bytes()) {
            self.matches.push(path.to_owned());
        }
        if is_dir {
            self.dirs.push(path.to_owned());
        }
        true
    }

    /// The response to the search: the paths found.
    pub fn finish(self) -> (response: HopResponse)
        ensures
            response.is_search_success(self.found()),
    {
        HopResponse::FsSearch { ok: true, matches: Some(self.matches), error: None }
    }
}

/// Decides a search request. Without a root the answer is `Root required`,
/// and a root that holds `..` is refused as a traversal. Any other root
/// starts a walk with the root as the one directory to read.
pub fn search(query: &str, root: Option<&str>) -> (begun: Result<SearchWalk, HopResponse>)
    ensures
        root is None ==> (begun matches Err(response) && response.is_search_failure(
            "Root required"@,
        )),
        root matches Some(dir) ==> match path_fault(dir@, Some(dir@)) {
            Some(message) => begun matches Err(response) && response.is_search_failure(message),
            None => begun matches Ok(walk) && walk.query() == lowercase(query@)
                && walk.found().len() == 0 && walk.pending() == seq![dir@] && walk.count() == 0,
        },
{
    let dir: &str = match root {
        Some(dir) => dir,
        None => {
            return Err(
                HopResponse::FsSearch {
                    ok: false,
                    matches: None,
                    error: Some("Root required".to_owned()),
                },
            );
        },
    };
    if let Err(message) = validate_path(dir, Some(dir)) {
        return Err(HopResponse::FsSearch { ok: false, matches: None, error: Some(message) });
    }
    let matches: Vec<String> = Vec::new();
    let mut dirs: Vec<String> = Vec::new();
    dirs.push(dir.to_owned());
    Ok(SearchWalk { query: to_lowercase(query), matches, dirs, count: 0 })
}

} // verus!
