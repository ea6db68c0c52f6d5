use hopcoder_shell::fs_handlers::{
    delete, delete_done, read, read_done, search, validate_path, write_done, Access, MAX_FILES,
};
use hopcoder_shell::ipc::HopResponse;

const TRAVERSAL: &str = "Path traversal detected";
const OUTSIDE: &str = "Access denied: Path is outside workspace root";

#[test]
fn path_under_the_root_passes() {
    assert_eq!(validate_path("/work/src/main.rs", Some("/work")), Ok(()));
    assert_eq!(validate_path("/work", Some("/work")), Ok(()));
    assert_eq!(validate_path("/workspace2/x", Some("/work")), Ok(()));
    assert_eq!(validate_path("anything", Some("")), Ok(()));
}

#[test]
fn any_path_passes_without_a_root() {
    assert_eq!(validate_path("/etc/passwd", None), Ok(()));
    assert_eq!(validate_path("../../etc/passwd", None), Ok(()));
    assert_eq!(validate_path("", None), Ok(()));
}

#[test]
fn traversal_is_detected() {
    assert_eq!(validate_path("/work/../etc", Some("/work")), Err(TRAVERSAL.to_string()));
    assert_eq!(validate_path("/work/a..b", Some("/work")), Err(TRAVERSAL.to_string()));
    assert_eq!(validate_path("..", Some("/work")), Err(TRAVERSAL.to_string()));
    assert_eq!(validate_path("/other/..", Some("/work")), Err(TRAVERSAL.to_string()));
}

#[test]
fn path_outside_the_root_is_denied() {
    assert_eq!(validate_path("/etc/passwd", Some("/work")), Err(OUTSIDE.to_string()));
    assert_eq!(validate_path("/wor", Some("/work")), Err(OUTSIDE.to_string()));
    assert_eq!(validate_path("work/a", Some("/work")), Err(OUTSIDE.to_string()));
    assert_eq!(validate_path("/Work/a", Some("/work")), Err(OUTSIDE.to_string()));
    assert_eq!(validate_path("", Some("/work")), Err(OUTSIDE.to_string()));
}

#[test]
fn read_is_granted_or_denied() {
    assert_eq!(read("/work/a", Some("/work")), Access::Granted);
    assert_eq!(
        read("/work/../a", Some("/work")),
        Access::Denied(HopResponse::FsRead {
            ok: false,
            content: None,
            error: Some(TRAVERSAL.to_string()),
        })
    );
    assert_eq!(
        read("/a", Some("/work")),
        Access::Denied(HopResponse::FsRead {
            ok: false,
            content: None,
            error: Some(OUTSIDE.to_string()),
        })
    );
}

#[test]
fn read_done_maps_each_outcome() {
    assert_eq!(
        read_done(Ok("text".to_string())),
        HopResponse::FsRead { ok: true, content: Some("text".to_string()), error: None }
    );
    assert_eq!(
        read_done(Err("denied".to_string())),
        HopResponse::FsRead { ok: false, content: None, error: Some("denied".to_string()) }
    );
}

#[test]
fn fs_write_is_granted_or_denied() {
    assert_eq!(hopcoder_shell::fs_handlers::write("/work/a", Some("/work")), Access::Granted);
    assert_eq!(hopcoder_shell::fs_handlers::write("/x", None), Access::Granted);
    assert_eq!(
        hopcoder_shell::fs_handlers::write("/a", Some("/work")),
        Access::Denied(HopResponse::FsWrite { ok: false, error: Some(OUTSIDE.to_string()) })
    );
}

#[test]
fn write_done_maps_each_outcome() {
    assert_eq!(write_done(Ok(())), HopResponse::FsWrite { ok: true, error: None });
    assert_eq!(
        write_done(Err("disk full".to_string())),
        HopResponse::FsWrite { ok: false, error: Some("disk full".to_string()) }
    );
}

#[test]
fn delete_is_granted_or_denied() {
    assert_eq!(delete("/work/a", Some("/work")), Access::Granted);
    assert_eq!(
        delete("/work/..", Some("/work")),
        Access::Denied(HopResponse::FsDelete { ok: false, error: Some(TRAVERSAL.to_string()) })
    );
}

#[test]
fn delete_done_maps_each_outcome() {
    assert_eq!(delete_done(Ok(())), HopResponse::FsDelete { ok: true, error: None });
    assert_eq!(
        delete_done(Err("busy".to_string())),
        HopResponse::FsDelete { ok: false, error: Some("busy".to_string()) }
    );
}

#[test]
fn search_needs_a_root() {
    assert_eq!(
        search("x", None),
        Err(HopResponse::FsSearch {
            ok: false,
            matches: None,
            error: Some("Root required".to_string()),
        })
    );
}

#[test]
fn search_refuses_a_root_with_a_traversal() {
    assert_eq!(
        search("x", Some("/work/..")),
        Err(HopResponse::FsSearch { ok: false, matches: None, error: Some(TRAVERSAL.to_string()) })
    );
}

#[test]
fn search_walks_and_collects_matches() {
    let mut walk = search("MAIN", Some("/work")).unwrap();
    assert_eq!(walk.next_dir(), Some("/work".to_string()));
    assert!(walk.visit("/work/src", "src", true));
    assert!(walk.visit("/work/Main.rs", "Main.rs", false));
    assert!(walk.visit("/work/readme.md", "readme.md", false));
    assert!(walk.visit("/work/node_modules", "node_modules", true));
    assert!(walk.visit("/work/.gitignore", ".gitignore", false));
    assert!(walk.visit("/work/target", "target", true));
    assert_eq!(walk.next_dir(), Some("/work/src".to_string()));
    assert!(walk.visit("/work/src/domain", "domain", true));
    assert!(walk.visit("/work/src/remainder.txt", "remainder.txt", false));
    assert_eq!(walk.next_dir(), Some("/work/src/domain".to_string()));
    assert_eq!(walk.next_dir(), None);
    assert_eq!(
        walk.finish(),
        HopResponse::FsSearch {
            ok: true,
            matches: Some(vec![
                "/work/Main.rs".to_string(),
                "/work/src/domain".to_string(),
                "/work/src/remainder.txt".to_string(),
            ]),
            error: None,
        }
    );
}

#[test]
fn search_reads_the_last_directory_first() {
    let mut walk = search("", Some("r")).unwrap();
    assert_eq!(walk.next_dir(), Some("r".to_string()));
    assert!(walk.visit("r/a", "a", true));
    assert!(walk.visit("r/b", "b", true));
    assert_eq!(walk.next_dir(), Some("r/b".to_string()));
    assert_eq!(walk.next_dir(), Some("r/a".to_string()));
    assert_eq!(walk.next_dir(), None);
}

#[test]
fn search_lowers_names_beyond_ascii() {
    let mut walk = search("ÉCOLE", Some("/w")).unwrap();
    assert!(walk.visit("/w/école.txt", "école.txt", false));
    assert!(walk.visit("/w/Ecole.txt", "Ecole.txt", false));
    assert_eq!(
        walk.finish(),
        HopResponse::FsSearch {
            ok: true,
            matches: Some(vec!["/w/école.txt".to_string()]),
            error: None,
        }
    );
}

#[test]
fn search_with_no_entries_finds_nothing() {
    let walk = search("x", Some("/work")).unwrap();
    assert_eq!(walk.finish(), HopResponse::FsSearch { ok: true, matches: Some(vec![]), error: None });
}

#[test]
fn search_stops_after_the_limit() {
    assert_eq!(MAX_FILES, 10000);
    let mut walk = search("f", Some("/w")).unwrap();
    assert_eq!(walk.next_dir(), Some("/w".to_string()));
    assert!(walk.visit("/w/d", "d", true));
    for _ in 1..MAX_FILES {
        assert!(walk.visit("/w/f", "f", false));
    }
    assert!(!walk.visit("/w/f", "f", false));
    assert!(!walk.visit("/w/f", "f", false));
    assert_eq!(walk.next_dir(), None);
    match walk.finish() {
        HopResponse::FsSearch { ok: true, matches: Some(found), error: None } => {
            assert_eq!(found.len(), MAX_FILES - 1)
        }
        other => panic!("{:?}", other),
    }
}
