use clonedir_lib::{Action, CloneError, Entry, EntryKind, Event, TreeCloner};
use std::collections::BTreeMap;

/// A source tree held in memory: each directory's path maps to its entries.
struct FakeTree {
    dirs: BTreeMap<String, Vec<(String, EntryKind)>>,
}

impl FakeTree {
    fn new() -> FakeTree {
        FakeTree { dirs: BTreeMap::new() }
    }

    fn dir(mut self, path: &str, entries: &[(&str, EntryKind)]) -> FakeTree {
        let list = entries.iter().map(|(n, k)| (n.to_string(), *k)).collect();
        self.dirs.insert(path.to_string(), list);
        self
    }

    fn listing(&self, path: &str) -> Option<Vec<Entry<String>>> {
        let entries = self.dirs.get(path)?;
        Some(
            entries
                .iter()
                .map(|(n, k)| Entry {
                    path: format!("{}/{}", path, n),
                    name: Some(n.clone()),
                    kind: *k,
                })
                .collect(),
        )
    }
}

/// Drives a run to its end; every create and clone succeeds unless the
/// clone's source is named in `failing`. Returns the actions in order and
/// the destination's files: name -> the source path cloned last.
fn drive(
    tree: &FakeTree,
    source: &str,
    failing: &[&str],
) -> (Vec<Action<String>>, BTreeMap<String, String>) {
    let (mut cloner, mut action) = TreeCloner::start(source.to_string());
    let mut actions = Vec::new();
    let mut dest = BTreeMap::new();
    loop {
        let event = match &action {
            Action::CreateDestination => Event::Created(true),
            Action::List(dir) => Event::Listed(tree.listing(dir)),
            Action::CloneFile { source, name } => {
                if failing.contains(&source.as_str()) {
                    Event::Cloned(false)
                } else {
                    dest.insert(name.clone(), source.clone());
                    Event::Cloned(true)
                }
            }
            Action::Done | Action::Fail(_) => {
                actions.push(action);
                assert!(cloner.is_finished());
                return (actions, dest);
            }
        };
        assert!(cloner.accepts(&event));
        actions.push(action);
        action = cloner.step(event);
    }
}

fn clone_file(source: &str, name: &str) -> Action<String> {
    Action::CloneFile { source: source.to_string(), name: name.to_string() }
}

fn list(dir: &str) -> Action<String> {
    Action::List(dir.to_string())
}

#[test]
fn same_name_in_two_subdirectories_is_flattened() {
    let tree = FakeTree::new()
        .dir("src", &[("a", EntryKind::Directory), ("b", EntryKind::Directory)])
        .dir("src/a", &[("x.txt", EntryKind::RegularFile)])
        .dir("src/b", &[("x.txt", EntryKind::RegularFile)]);
    let (actions, dest) = drive(&tree, "src", &[]);
    assert_eq!(
        actions,
        vec![
            Action::CreateDestination,
            list("src"),
            Action::CreateDestination,
            list("src/a"),
            clone_file("src/a/x.txt", "x.txt"),
            Action::CreateDestination,
            list("src/b"),
            clone_file("src/b/x.txt", "x.txt"),
            Action::Done,
        ]
    );
    assert_eq!(dest.len(), 1);
    assert_eq!(dest.get("x.txt"), Some(&"src/b/x.txt".to_string()));
}

#[test]
fn links_and_pipes_are_skipped() {
    let tree = FakeTree::new().dir(
        "src",
        &[
            ("link", EntryKind::Other),
            ("one.txt", EntryKind::RegularFile),
            ("pipe", EntryKind::Other),
            ("two.txt", EntryKind::RegularFile),
        ],
    );
    let (actions, dest) = drive(&tree, "src", &[]);
    assert_eq!(
        actions,
        vec![
            Action::CreateDestination,
            list("src"),
            clone_file("src/one.txt", "one.txt"),
            clone_file("src/two.txt", "two.txt"),
            Action::Done,
        ]
    );
    assert_eq!(dest.len(), 2);
}

#[test]
fn only_other_entries_is_done() {
    let tree = FakeTree::new().dir("src", &[("link", EntryKind::Other)]);
    let (actions, dest) = drive(&tree, "src", &[]);
    assert_eq!(actions, vec![Action::CreateDestination, list("src"), Action::Done]);
    assert!(dest.is_empty());
}

#[test]
fn failed_clone_halts_the_walk() {
    let tree = FakeTree::new()
        .dir("src", &[("sub", EntryKind::Directory), ("late.txt", EntryKind::RegularFile)])
        .dir("src/sub", &[("bad.txt", EntryKind::RegularFile), ("ok.txt", EntryKind::RegularFile)]);
    let (actions, dest) = drive(&tree, "src", &["src/sub/bad.txt"]);
    assert_eq!(
        actions,
        vec![
            Action::CreateDestination,
            list("src"),
            Action::CreateDestination,
            list("src/sub"),
            clone_file("src/sub/bad.txt", "bad.txt"),
            Action::Fail(CloneError::CloneOrCopyFailed),
        ]
    );
    assert!(dest.is_empty());
}

#[test]
fn finished_machine_accepts_nothing() {
    let (mut cloner, _) = TreeCloner::start("src".to_string());
    assert_eq!(cloner.step(Event::Created(true)), list("src"));
    let files = vec![Entry {
        path: "src/f".to_string(),
        name: Some("f".to_string()),
        kind: EntryKind::RegularFile,
    }];
    assert_eq!(cloner.step(Event::Listed(Some(files))), clone_file("src/f", "f"));
    assert_eq!(cloner.step(Event::Cloned(false)), Action::Fail(CloneError::CloneOrCopyFailed));
    assert!(cloner.is_finished());
    assert!(!cloner.accepts(&Event::Created(true)));
    assert!(!cloner.accepts(&Event::Listed(None)));
    assert!(!cloner.accepts(&Event::Cloned(true)));
}

#[test]
fn missing_source_fails_unreadable() {
    let tree = FakeTree::new();
    let (actions, dest) = drive(&tree, "nowhere", &[]);
    assert_eq!(
        actions,
        vec![
            Action::CreateDestination,
            list("nowhere"),
            Action::Fail(CloneError::SourceUnreadable),
        ]
    );
    assert!(dest.is_empty());
}

#[test]
fn missing_subdirectory_fails_unreadable() {
    let tree = FakeTree::new().dir("src", &[("gone", EntryKind::Directory)]);
    let (actions, _) = drive(&tree, "src", &[]);
    assert_eq!(actions.last(), Some(&Action::Fail(CloneError::SourceUnreadable)));
}

#[test]
fn uncreatable_destination_fails_before_listing() {
    let (mut cloner, first) = TreeCloner::start("src".to_string());
    assert_eq!(first, Action::CreateDestination);
    assert_eq!(
        cloner.step(Event::Created(false)),
        Action::Fail(CloneError::DestinationUncreatable)
    );
    assert!(cloner.is_finished());
}

#[test]
fn file_without_name_fails() {
    let (mut cloner, _) = TreeCloner::start("/".to_string());
    cloner.step(Event::Created(true));
    let entries = vec![Entry { path: "/".to_string(), name: None, kind: EntryKind::RegularFile }];
    assert_eq!(
        cloner.step(Event::Listed(Some(entries))),
        Action::Fail(CloneError::UnresolvableName)
    );
    assert!(cloner.is_finished());
}

#[test]
fn flat_directory_files_cloned_in_listed_order() {
    let tree = FakeTree::new().dir(
        "src",
        &[
            ("c.txt", EntryKind::RegularFile),
            ("a.txt", EntryKind::RegularFile),
            ("b.txt", EntryKind::RegularFile),
        ],
    );
    let (actions, dest) = drive(&tree, "src", &[]);
    assert_eq!(
        actions,
        vec![
            Action::CreateDestination,
            list("src"),
            clone_file("src/c.txt", "c.txt"),
            clone_file("src/a.txt", "a.txt"),
            clone_file("src/b.txt", "b.txt"),
            Action::Done,
        ]
    );
    assert_eq!(dest.get("a.txt"), Some(&"src/a.txt".to_string()));
    assert_eq!(dest.get("b.txt"), Some(&"src/b.txt".to_string()));
    assert_eq!(dest.get("c.txt"), Some(&"src/c.txt".to_string()));
}

#[test]
fn depth_first_before_later_siblings() {
    let tree = FakeTree::new()
        .dir("src", &[("d", EntryKind::Directory), ("y", EntryKind::RegularFile)])
        .dir("src/d", &[("e", EntryKind::Directory), ("x", EntryKind::RegularFile)])
        .dir("src/d/e", &[("w", EntryKind::RegularFile)]);
    let (actions, _) = drive(&tree, "src", &[]);
    let clones: Vec<Action<String>> =
        actions.into_iter().filter(|a| matches!(a, Action::CloneFile { .. })).collect();
    assert_eq!(
        clones,
        vec![clone_file("src/d/e/w", "w"), clone_file("src/d/x", "x"), clone_file("src/y", "y")]
    );
}

#[test]
fn empty_source_creates_only_destination() {
    let tree = FakeTree::new().dir("src", &[]);
    let (actions, dest) = drive(&tree, "src", &[]);
    assert_eq!(actions, vec![Action::CreateDestination, list("src"), Action::Done]);
    assert!(dest.is_empty());
}

#[test]
fn second_run_into_same_destination_succeeds() {
    let tree = FakeTree::new().dir("src", &[("f", EntryKind::RegularFile)]);
    let (first, dest_one) = drive(&tree, "src", &[]);
    let (second, dest_two) = drive(&tree, "src", &[]);
    assert_eq!(first.last(), Some(&Action::Done));
    assert_eq!(first, second);
    assert_eq!(dest_one, dest_two);
}

#[test]
fn wrong_answer_is_not_accepted() {
    let (cloner, _) = TreeCloner::start("src".to_string());
    assert!(cloner.accepts(&Event::Created(true)));
    assert!(!cloner.accepts(&Event::Listed(None)));
    assert!(!cloner.accepts(&Event::Cloned(true)));
    assert!(!cloner.is_finished());
}
