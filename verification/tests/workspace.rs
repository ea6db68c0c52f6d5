use hopcoder_shell::ipc::{HopResponse, WorkspaceEntry};
use hopcoder_shell::workspace::{entry, list, open, EntryFacts};

fn facts(is_dir: bool, is_symlink: bool, is_file: bool) -> EntryFacts {
    EntryFacts { is_dir, is_symlink, is_file, len: 512, modified_ms: Some(1_700_000_000_123) }
}

#[test]
fn open_answers_with_the_root() {
    assert_eq!(
        open("/work", true),
        HopResponse::WorkspaceOpen {
            ok: true,
            workspace_root: Some("/work".to_string()),
            error: None,
        }
    );
}

#[test]
fn open_refuses_what_is_no_directory() {
    assert_eq!(
        open("/work/file.txt", false),
        HopResponse::WorkspaceOpen {
            ok: false,
            workspace_root: None,
            error: Some("Invalid workspace".to_string()),
        }
    );
}

#[test]
fn entry_of_a_file_has_its_size() {
    assert_eq!(
        entry("/w/a.txt".to_string(), Some(facts(false, false, true))),
        WorkspaceEntry {
            path: "/w/a.txt".to_string(),
            kind: "file".to_string(),
            size: Some(512),
            modified_ms: Some(1_700_000_000_123),
        }
    );
}

#[test]
fn entry_of_a_directory_has_no_size() {
    assert_eq!(
        entry("/w/src".to_string(), Some(facts(true, false, false))),
        WorkspaceEntry {
            path: "/w/src".to_string(),
            kind: "dir".to_string(),
            size: None,
            modified_ms: Some(1_700_000_000_123),
        }
    );
}

#[test]
fn entry_of_a_link_is_a_symlink() {
    let listed = entry("/w/link".to_string(), Some(facts(false, true, false)));
    assert_eq!(listed.kind, "symlink");
    assert_eq!(listed.size, None);
}

#[test]
fn directory_comes_before_symlink() {
    let listed = entry("/w/x".to_string(), Some(facts(true, true, false)));
    assert_eq!(listed.kind, "dir");
}

#[test]
fn entry_of_something_else_is_a_file_without_size() {
    let listed = entry("/w/socket".to_string(), Some(facts(false, false, false)));
    assert_eq!(listed.kind, "file");
    assert_eq!(listed.size, None);
}

#[test]
fn entry_without_facts_is_a_bare_file() {
    assert_eq!(
        entry("/w/gone".to_string(), None),
        WorkspaceEntry {
            path: "/w/gone".to_string(),
            kind: "file".to_string(),
            size: None,
            modified_ms: None,
        }
    );
}

#[test]
fn entry_without_time_has_none() {
    let mut f = facts(false, false, true);
    f.modified_ms = None;
    assert_eq!(entry("/w/a".to_string(), Some(f)).modified_ms, None);
}

#[test]
fn entry_time_is_cut_to_64_bits() {
    let mut f = facts(false, false, true);
    f.modified_ms = Some(0);
    assert_eq!(entry("/w/a".to_string(), Some(f)).modified_ms, Some(0));
    f.modified_ms = Some(i64::MAX as u128);
    assert_eq!(entry("/w/a".to_string(), Some(f)).modified_ms, Some(i64::MAX));
    f.modified_ms = Some(i64::MAX as u128 + 1);
    assert_eq!(entry("/w/a".to_string(), Some(f)).modified_ms, Some(i64::MIN));
    f.modified_ms = Some((1u128 << 64) + 5);
    assert_eq!(entry("/w/a".to_string(), Some(f)).modified_ms, Some(5));
    f.modified_ms = Some(u128::MAX);
    assert_eq!(entry("/w/a".to_string(), Some(f)).modified_ms, Some(-1));
}

#[test]
fn list_answers_with_the_entries() {
    let entries = vec![
        entry("/w/a".to_string(), Some(facts(false, false, true))),
        entry("/w/b".to_string(), None),
    ];
    assert_eq!(
        list(Ok(entries.clone())),
        HopResponse::WorkspaceList { ok: true, entries: Some(entries), error: None }
    );
    assert_eq!(
        list(Ok(vec![])),
        HopResponse::WorkspaceList { ok: true, entries: Some(vec![]), error: None }
    );
}

#[test]
fn list_answers_with_the_message_of_a_failure() {
    assert_eq!(
        list(Err("Not a directory (os error 20)".to_string())),
        HopResponse::WorkspaceList {
            ok: false,
            entries: None,
            error: Some("Not a directory (os error 20)".to_string()),
        }
    );
}
