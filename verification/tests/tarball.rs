use docker::tarball::{dir, relativize, with_trailing_separator, ArchiveEntry, FsNode};

fn file(path: &str) -> FsNode {
    FsNode::File { path: path.to_string() }
}

fn directory(path: &str, children: Vec<FsNode>) -> FsNode {
    FsNode::Directory { path: path.to_string(), children }
}

fn entry(name: &str, source: &str, is_dir: bool) -> ArchiveEntry {
    ArchiveEntry { name: name.to_string(), source: source.to_string(), is_dir }
}

#[test]
fn tree_of_two_files_and_a_directory() {
    let root = directory(
        "/work/root",
        vec![
            file("/work/root/a.txt"),
            directory("/work/root/sub", vec![file("/work/root/sub/b.txt")]),
        ],
    );
    assert_eq!(
        dir(&root),
        vec![
            entry("a.txt", "/work/root/a.txt", false),
            entry("sub", "/work/root/sub", true),
            entry("sub/b.txt", "/work/root/sub/b.txt", false),
        ]
    );
}

#[test]
fn no_name_is_absolute_below_the_root() {
    let root = directory(
        "/work/root",
        vec![
            directory(
                "/work/root/x",
                vec![directory("/work/root/x/y", vec![file("/work/root/x/y/z")])],
            ),
            file("/work/root/w"),
        ],
    );
    let entries = dir(&root);
    assert_eq!(entries.len(), 4);
    for entry in &entries {
        assert!(!entry.name.starts_with('/'));
        assert!(!entry.name.contains("/work/root"));
    }
}

#[test]
fn empty_directory_has_no_entries() {
    assert_eq!(dir(&directory("/work/empty", vec![])), vec![]);
}

#[test]
fn root_that_is_a_file_has_no_entries() {
    assert_eq!(dir(&file("/work/root.txt")), vec![]);
}

#[test]
fn listing_order_is_kept() {
    let root = directory("/r", vec![file("/r/z"), file("/r/a"), file("/r/m")]);
    assert_eq!(
        dir(&root),
        vec![entry("z", "/r/z", false), entry("a", "/r/a", false), entry("m", "/r/m", false)]
    );
}

#[test]
fn directory_comes_before_what_it_holds() {
    let root = directory(
        "/r",
        vec![
            directory("/r/d", vec![directory("/r/d/e", vec![]), file("/r/d/f")]),
            file("/r/g"),
        ],
    );
    assert_eq!(
        dir(&root),
        vec![
            entry("d", "/r/d", true),
            entry("d/e", "/r/d/e", true),
            entry("d/f", "/r/d/f", false),
            entry("g", "/r/g", false),
        ]
    );
}

#[test]
fn root_with_trailing_separator() {
    let root = directory("/", vec![file("/etc"), directory("/tmp", vec![file("/tmp/x")])]);
    assert_eq!(
        dir(&root),
        vec![entry("etc", "/etc", false), entry("tmp", "/tmp", true), entry("tmp/x", "/tmp/x", false)]
    );
}

#[test]
fn path_outside_the_root_keeps_its_name() {
    let root = directory("/work/root", vec![file("/etc/hosts"), file("/work/rootless")]);
    assert_eq!(
        dir(&root),
        vec![
            entry("/etc/hosts", "/etc/hosts", false),
            entry("/work/rootless", "/work/rootless", false),
        ]
    );
}

#[test]
fn trailing_separator_is_added_once() {
    assert_eq!(with_trailing_separator("/work/root"), "/work/root/");
    assert_eq!(with_trailing_separator("/work/root/"), "/work/root/");
    assert_eq!(with_trailing_separator("/"), "/");
    assert_eq!(with_trailing_separator(""), "/");
    assert_eq!(with_trailing_separator("/tmp/données"), "/tmp/données/");
}

#[test]
fn relativize_takes_the_prefix_off() {
    assert_eq!(relativize("/work/root/a.txt", "/work/root/"), "a.txt");
    assert_eq!(relativize("/work/root/sub/b.txt", "/work/root/"), "sub/b.txt");
    assert_eq!(relativize("/work/root/", "/work/root/"), "");
}

#[test]
fn relativize_takes_a_repeated_prefix_off() {
    assert_eq!(relativize("ababc", "ab"), "c");
    assert_eq!(relativize("/r//r/x", "/r/"), "x");
    assert_eq!(relativize("aaaa", "aa"), "");
    assert_eq!(relativize("aaa", "aa"), "a");
}

#[test]
fn relativize_leaves_other_paths_alone() {
    assert_eq!(relativize("/etc/hosts", "/work/root/"), "/etc/hosts");
    assert_eq!(relativize("/work/root", "/work/root/"), "/work/root");
    assert_eq!(relativize("x/work/root/a", "/work/root/"), "x/work/root/a");
    assert_eq!(relativize("", "/work/root/"), "");
    assert_eq!(relativize("/work/root/a", ""), "/work/root/a");
}

#[test]
fn relativize_counts_characters_not_bytes() {
    assert_eq!(relativize("/données/écrit/ü.txt", "/données/"), "écrit/ü.txt");
    assert_eq!(relativize("/d/é", "/d/"), "é");
}

#[test]
fn archive_is_written_to_a_fixed_name() {
    assert_eq!(docker::tarball::OUTPUT_FILE, "build.tgz");
}
