use crane::commands::status::connector;
use crane::commands::status::format_diff;
use crane::commands::status::format_status;
use crane::commands::status::is_owned_by_child;
use crane::commands::status::next_status_nodes;
use crane::commands::status::path_owned_by;
use crane::commands::status::render_node_header;
use crane::commands::status::render_repo_status;
use crane::commands::status::staged_entries;
use crane::commands::status::unstaged_entries;
use crane::commands::status::untracked_entries;
use crane::commands::status::write_with_depth;
use crane::commands::status::writeln_with_depth;
use crane::commands::status::ChangeKind;
use crane::commands::status::DiffPaths;
use crane::commands::status::StatusEntry;

fn entry(status: ChangeKind, head: Option<&str>, workdir: Option<&str>) -> StatusEntry {
    StatusEntry {
        status,
        head_to_index: head.map(|p| DiffPaths {
            old_path: Some(p.to_string()),
            new_path: Some(p.to_string()),
        }),
        index_to_workdir: workdir.map(|p| DiffPaths {
            old_path: Some(p.to_string()),
            new_path: Some(p.to_string()),
        }),
    }
}

#[test]
fn test_format_status_labels() {
    assert_eq!(format_status(ChangeKind::IndexNew), "new");
    assert_eq!(format_status(ChangeKind::WtNew), "new");
    assert_eq!(format_status(ChangeKind::IndexModified), "modified");
    assert_eq!(format_status(ChangeKind::WtModified), "modified");
    assert_eq!(format_status(ChangeKind::IndexDeleted), "deleted");
    assert_eq!(format_status(ChangeKind::WtDeleted), "deleted");
    assert_eq!(format_status(ChangeKind::IndexRenamed), "renamed");
    assert_eq!(format_status(ChangeKind::WtRenamed), "renamed");
    assert_eq!(format_status(ChangeKind::IndexTypechange), "typechanged");
    assert_eq!(format_status(ChangeKind::WtTypechange), "typechanged");
    assert_eq!(format_status(ChangeKind::Current), "unknown");
    assert_eq!(format_status(ChangeKind::Other), "unknown");
}

#[test]
fn test_format_diff_rename_and_plain() {
    let d = DiffPaths {
        old_path: Some("a.txt".to_string()),
        new_path: Some("b.txt".to_string()),
    };
    assert_eq!(format_diff(&d), "a.txt -> b.txt");
    let d = DiffPaths {
        old_path: Some("a.txt".to_string()),
        new_path: Some("a.txt".to_string()),
    };
    assert_eq!(format_diff(&d), "a.txt");
    let d = DiffPaths {
        old_path: None,
        new_path: Some("b.txt".to_string()),
    };
    assert_eq!(format_diff(&d), "b.txt");
    let d = DiffPaths {
        old_path: Some("a.txt".to_string()),
        new_path: None,
    };
    assert_eq!(format_diff(&d), "a.txt");
}

#[test]
fn test_path_owned_by_component_boundaries() {
    assert!(path_owned_by("sub1", "sub1"));
    assert!(path_owned_by("sub1/file.txt", "sub1"));
    assert!(path_owned_by("sub1/deep/file.txt", "sub1"));
    assert!(!path_owned_by("sub1x/file.txt", "sub1"));
    assert!(!path_owned_by("su", "sub1"));
    assert!(!path_owned_by("other/sub1", "sub1"));
}

#[test]
fn test_is_owned_by_child() {
    let names = vec!["sub1".to_string(), "sub2".to_string()];
    assert!(is_owned_by_child("sub1/x.txt", &names));
    assert!(is_owned_by_child("sub2", &names));
    assert!(!is_owned_by_child("sub3/x.txt", &names));
    assert!(!is_owned_by_child("x.txt", &Vec::new()));
}

#[test]
fn test_staged_and_unstaged_filters() {
    let entries = vec![
        entry(ChangeKind::IndexNew, Some("a.txt"), None),
        entry(ChangeKind::Current, Some("b.txt"), Some("b.txt")),
        entry(ChangeKind::WtModified, None, Some("c.txt")),
        entry(ChangeKind::WtNew, None, Some("d.txt")),
    ];
    let staged = staged_entries(&entries);
    assert_eq!(staged.len(), 1);
    assert!(matches!(staged[0].status, ChangeKind::IndexNew));
    let unstaged = unstaged_entries(&entries);
    assert_eq!(unstaged.len(), 2);
    assert!(matches!(unstaged[0].status, ChangeKind::Current));
    assert!(matches!(unstaged[1].status, ChangeKind::WtModified));
}

// An untracked path inside a subdirectory named like a known child never
// shows up in the parent's own untracked list.
#[test]
fn test_untracked_suppresses_child_paths() {
    let entries = vec![
        entry(ChangeKind::WtNew, None, Some("notes.txt")),
        entry(ChangeKind::WtNew, None, Some("sub1/inner.txt")),
        entry(ChangeKind::WtNew, None, Some("sub1")),
        entry(ChangeKind::WtNew, None, Some("sub1x.txt")),
        entry(ChangeKind::WtModified, None, Some("sub9.txt")),
    ];
    let names = vec!["sub1".to_string()];
    let untracked = untracked_entries(&entries, &names);
    let paths: Vec<String> = untracked
        .iter()
        .map(|e| {
            e.index_to_workdir
                .as_ref()
                .unwrap()
                .new_path
                .as_ref()
                .unwrap()
                .clone()
        })
        .collect();
    assert_eq!(paths, vec!["notes.txt".to_string(), "sub1x.txt".to_string()]);
}

#[test]
fn test_write_with_depth_indents() {
    let mut out = String::new();
    write_with_depth(&mut out, 0, "x");
    assert_eq!(out, "  x");
    let mut out = String::new();
    writeln_with_depth(&mut out, 1, "title:");
    assert_eq!(out, "    title:\n");
}

#[test]
fn test_render_repo_status_sections() {
    let entries = vec![
        entry(ChangeKind::IndexNew, Some("test.txt"), None),
        entry(ChangeKind::WtModified, None, Some("test2.txt")),
        entry(ChangeKind::WtNew, None, Some("test3.txt")),
        entry(ChangeKind::WtNew, None, Some("sub1/skip.txt")),
    ];
    let names = vec!["sub1".to_string()];
    let mut out = String::new();
    render_repo_status(&mut out, &entries, &names, 2);
    let expected = "      Changes to be committed:\n        \u{1b}[32mnew\u{1b}[0m: \u{1b}[32mtest.txt\u{1b}[0m\n\n      Changes not staged:\n        \u{1b}[31mmodified\u{1b}[0m: \u{1b}[31mtest2.txt\u{1b}[0m\n\n      Changes untracked:\n        \u{1b}[31mtest3.txt\u{1b}[0m\n\n";
    assert_eq!(out, expected);
}

#[test]
fn test_render_repo_status_empty() {
    let entries: Vec<StatusEntry> = Vec::new();
    let mut out = String::new();
    render_repo_status(&mut out, &entries, &Vec::new(), 1);
    assert_eq!(out, "");
}

#[test]
fn test_connector_shapes() {
    assert_eq!(connector(true, true), "");
    assert_eq!(connector(true, false), "");
    assert_eq!(connector(false, true), "└─ ");
    assert_eq!(connector(false, false), "├─ ");
}

#[test]
fn test_render_node_header() {
    let mut out = String::new();
    render_node_header(&mut out, 1, true, true, "(main)", "main");
    assert_eq!(out, "  (main) (main)\n");
    let mut out = String::new();
    render_node_header(&mut out, 2, false, false, "sub2", "main");
    assert_eq!(out, "    ├─ sub2 (main)\n");
}

#[test]
fn test_status_command_args() {
    let args = crane::commands::status::CommandArgs {
        dir: Some("proj".to_string()),
    };
    assert_eq!(args.dir.as_deref(), Some("proj"));
}

#[test]
fn test_next_status_nodes() {
    let children = vec![4usize, 7, 9];
    let nodes = next_status_nodes(&children, 1);
    assert_eq!(nodes, vec![(2, true, 4), (2, false, 7), (2, false, 9)]);
}
