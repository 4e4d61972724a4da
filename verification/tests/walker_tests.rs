use project_ctl::walker::{walk, AccessFault, WalkItem, WalkedEntry};

fn entry(path: &str) -> WalkedEntry {
    let (parent, file_name) = match path.rfind('/') {
        Some(at) => (Some(path[..at].to_string()), path[at + 1..].to_string()),
        None => (None, path.to_string()),
    };
    WalkedEntry { path: path.to_string(), file_name: Some(file_name), parent }
}

fn found(path: &str) -> WalkItem {
    WalkItem::Entry(entry(path))
}

#[test]
fn picks_the_entries_with_the_file_name_in_walk_order() {
    let items = vec![
        found("/r"),
        found("/r/b"),
        found("/r/b/Cargo.toml"),
        found("/r/b/src"),
        found("/r/a"),
        found("/r/a/Cargo.toml"),
        found("/r/a/Cargo.toml.orig"),
        found("/r/a/cargo.toml"),
    ];
    let picked = walk(&items, "Cargo.toml").unwrap();
    assert_eq!(picked, vec![&entry("/r/b/Cargo.toml"), &entry("/r/a/Cargo.toml")]);
}

#[test]
fn finds_hidden_marker_directories() {
    let items = vec![found("/r"), found("/r/x/.git"), found("/r/x/.gitignore"), found("/r/.git")];
    let picked = walk(&items, ".git").unwrap();
    assert_eq!(picked, vec![&entry("/r/x/.git"), &entry("/r/.git")]);
}

#[test]
fn walk_that_found_nothing_is_empty() {
    assert_eq!(walk(&vec![], "Cargo.toml"), Ok(vec![]));
    assert_eq!(walk(&vec![found("/r"), found("/r/a")], "Cargo.toml"), Ok(vec![]));
}

#[test]
fn unreadable_root_is_an_access_fault() {
    assert_eq!(walk(&vec![WalkItem::Fault { depth: 0 }], "Cargo.toml"), Err(AccessFault));
    let items = vec![found("/r"), WalkItem::Fault { depth: 0 }, found("/r/Cargo.toml")];
    assert_eq!(walk(&items, "Cargo.toml"), Err(AccessFault));
    let late = vec![found("/r/Cargo.toml"), WalkItem::Fault { depth: 0 }];
    assert_eq!(walk(&late, "Cargo.toml"), Err(AccessFault));
}

#[test]
fn faults_below_the_root_are_passed_over() {
    let items = vec![
        found("/r"),
        WalkItem::Fault { depth: 1 },
        found("/r/a/Cargo.toml"),
        WalkItem::Fault { depth: 3 },
        found("/r/b/Cargo.toml"),
    ];
    let picked = walk(&items, "Cargo.toml").unwrap();
    assert_eq!(picked, vec![&entry("/r/a/Cargo.toml"), &entry("/r/b/Cargo.toml")]);
}

#[test]
fn entry_without_a_readable_name_is_not_picked() {
    let nameless = WalkItem::Entry(WalkedEntry {
        path: "/r/\u{fffd}".to_string(),
        file_name: None,
        parent: Some("/r".to_string()),
    });
    assert_eq!(walk(&vec![nameless], "Cargo.toml"), Ok(vec![]));
}

#[test]
fn entry_without_parent_is_still_picked() {
    let items = vec![found("Cargo.toml")];
    let picked = walk(&items, "Cargo.toml").unwrap();
    assert_eq!(picked.len(), 1);
    assert_eq!(picked[0].parent, None);
}
