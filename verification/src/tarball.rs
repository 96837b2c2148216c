//! Packaging a directory tree as a build context.
//!
//! The caller reads the tree from the file system and hands it over as an
//! [`FsNode`]; [`dir`] answers with the entries of the archive, in the order
//! in which they are to be written.

use vstd::prelude::*;

verus! {

/// The character between the components of a path.
pub const SEPARATOR: char = '/';

/// The name of the file, in the working directory, that the archive is
/// written to.
pub const OUTPUT_FILE: &'static str = "build.tgz";

/// A file system object as the walk finds it, under its canonical path.
#[derive(Debug, PartialEq, Eq)]
pub enum FsNode {
    /// Anything that is not a directory.
    File { path: String },
    /// A directory, with its entries in the order of the directory listing.
    Directory { path: String, children: Vec<FsNode> },
}

impl FsNode {
    /// The canonical path of the object.
    pub open spec fn spec_path(self) -> Seq<char> {
        match self {
            FsNode::File { path } => path@,
            FsNode::Directory { path, .. } => path@,
        }
    }

    /// What the object holds: the entries of a directory, and nothing for a
    /// file.
    pub open spec fn spec_children(self) -> Seq<FsNode> {
        match self {
            FsNode::File { .. } => Seq::empty(),
            FsNode::Directory { children, .. } => children@,
        }
    }
}

/// One entry of the archive.
#[derive(Clone, Debug, PartialEq, Eq)]
pub struct ArchiveEntry {
    /// The name of the entry in the archive, relative to the root of the tree.
    pub name: String,
    /// The canonical path that the entry is made from: its metadata and, for
    /// a file, its content.
    pub source: String,
    /// Whether the entry is a directory, which has no content.
    pub is_dir: bool,
}

pub struct EntryView {
    pub name: Seq<char>,
    pub source: Seq<char>,
    pub is_dir: bool,
}

impl View for ArchiveEntry {
    type V = EntryView;

    open spec fn view(&self) -> EntryView {
        EntryView { name: self.name@, source: self.source@, is_dir: self.is_dir }
    }
}

/// The views of `entries`, one for one.
pub open spec fn entry_views(entries: Seq<ArchiveEntry>) -> Seq<EntryView> {
    entries.map_values(|entry: ArchiveEntry| entry@)
}

/// `path` with a separator at its end: as it stands where it ends in one, else
/// with one added.
pub open spec fn with_separator(path: Seq<char>) -> Seq<char> {
    if path.len() > 0 && path.last() == SEPARATOR {
        path
    } else {
        path.push(SEPARATOR)
    }
}

/// `path` without `prefix` at its start. The prefix is taken off as often as
/// it stands there; an empty prefix takes nothing off.
pub open spec fn relativized(path: Seq<char>, prefix: Seq<char>) -> Seq<char>
    decreases path.len(),
{
    if prefix.len() > 0 && prefix.is_prefix_of(path) {
        relativized(path.skip(prefix.len() as int), prefix)
    } else {
        path
    }
}

/// The entry for the object at the canonical path `path`.
pub open spec fn entry_for(path: Seq<char>, prefix: Seq<char>, is_dir: bool) -> EntryView {
    EntryView { name: relativized(path, prefix), source: path, is_dir }
}

/// The entries for `node` and all that lies below it: a file is one entry; a
/// directory is its own entry, followed by those of its children in their
/// order.
pub open spec fn emitted(node: FsNode, prefix: Seq<char>) -> Seq<EntryView>
    decreases node, 0nat,
{
    match node {
        FsNode::File { path } => seq![entry_for(path@, prefix, false)],
        FsNode::Directory { path, children } => seq![entry_for(path@, prefix, true)]
            + emitted_first(children@, children@.len(), prefix),
    }
}

/// The entries for the first `count` of `nodes`.
pub open spec fn emitted_first(nodes: Seq<FsNode>, count: nat, prefix: Seq<char>) -> Seq<
    EntryView,
>
    decreases nodes, count,
{
    if count == 0 || count > nodes.len() {
        Seq::empty()
    } else {
        emitted_first(nodes, (count - 1) as nat, prefix) + emitted(nodes[count - 1], prefix)
    }
}

/// The entries of the archive for the tree at `root`. The root itself has no
/// entry, and every name is relative to the root's path. A root that is no
/// directory gives an archive without entries.
pub open spec fn spec_dir(root: FsNode) -> Seq<EntryView> {
    match root {
        FsNode::File { .. } => Seq::empty(),
        FsNode::Directory { path, children } => emitted_first(
            children@,
            children@.len(),
            with_separator(path@),
        ),
    }
}

/// Gives `path` a separator at its end, unless it has one.
pub fn with_trailing_separator(path: &str) -> (out: String)
    ensures
        out@ == with_separator(path@),
{
    let len = path.unicode_len();
    let mut out = String::from_str(path);
    if len == 0 || path.get_char(len - 1) != SEPARATOR {
        proof {
            reveal_strlit("/");
        }
        out.append("/");
    }
    out
}

/// Whether `prefix` stands in `path` at the position `start`.
fn starts_at(path: &str, start: usize, prefix: &str) -> (found: bool)
    requires
        start <= path@.len(),
    ensures
        found == prefix@.is_prefix_of(path@.skip(start as int)),
{
    let len = path.unicode_len();
    let prefix_len = prefix.unicode_len();
    if len - start < prefix_len {
        return false;
    }
    let mut i: usize = 0;
    while i < prefix_len
        invariant
            i <= prefix_len,
            prefix_len == prefix@.len(),
            len == path@.len(),
            start + prefix_len <= len,
            forall|j: int| 0 <= j < i ==> path@[start + j] == prefix@[j],
        decreases prefix_len - i,
    {
        if path.get_char(start + i) != prefix.get_char(i) {
            return false;
        }
        i += 1;
    }
    true
}

/// Takes `prefix` off the start of `path`, as often as it stands there.
pub fn relativize(path: &str, prefix: &str) -> (out: String)
    ensures
        out@ == relativized(path@, prefix@),
{
    let len = path.unicode_len();
    let prefix_len = prefix.unicode_len();
    let mut start: usize = 0;
    if prefix_len > 0 {
        assert(path@.skip(0) =~= path@);
        while starts_at(path, start, prefix)
            invariant
                start <= len,
                len == path@.len(),
                prefix_len == prefix@.len(),
                prefix_len > 0,
                relativized(path@, prefix@) == relativized(path@.skip(start as int), prefix@),
            decreases len - start,
        {
            assert(path@.skip(start as int).skip(prefix_len as int) =~= path@.skip(
                start + prefix_len,
            ));
            start += prefix_len;
        }
    }
    String::from_str(path.substring_char(start, len))
}

/// The entry for the object at the canonical path `path`.
fn entry(path: &String, prefix: &str, is_dir: bool) -> (made: ArchiveEntry)
    ensures
        made@ == entry_for(path@, prefix@, is_dir),
{
    ArchiveEntry { name: relativize(path.as_str(), prefix), source: path.clone(), is_dir }
}

/// Appends the entries for `node` and all below it to `out`.
fn collect(node: &FsNode, prefix: &str, out: &mut Vec<ArchiveEntry>)
    ensures
        entry_views(final(out)@) == entry_views(old(out)@) + emitted(*node, prefix@),
    decreases node, 0nat,
{
    match node {
        FsNode::File { path } => {
            let made = entry(path, prefix, false);
            out.push(made);
        },
        FsNode::Directory { path, children } => {
            let made = entry(path, prefix, true);
            out.push(made);
            collect_all(children, prefix, out);
        },
    }
}

/// Appends the entries for each of `nodes`, in their order, to `out`.
fn collect_all(nodes: &Vec<FsNode>, prefix: &str, out: &mut Vec<ArchiveEntry>)
    ensures
        entry_views(final(out)@) == entry_views(old(out)@) + emitted_first(
            nodes@,
            nodes@.len(),
            prefix@,
        ),
    decreases nodes, 1nat,
{
    let mut i: usize = 0;
    while i < nodes.len()
        invariant
            i <= nodes.len(),
            entry_views(out@) == entry_views(old(out)@) + emitted_first(
                nodes@,
                i as nat,
                prefix@,
            ),
        decreases nodes.len() - i,
    {
        collect(&nodes[i], prefix, out);
        i += 1;
    }
}

/// Lists the entries of the archive for the tree at `root`, in the order of
/// the walk: depth first, a directory before what it holds.
pub fn dir(root: &FsNode) -> (entries: Vec<ArchiveEntry>)
    ensures
        entry_views(entries@) == spec_dir(*root),
        entries@.len() == spec_dir(*root).len(),
{
    let mut entries: Vec<ArchiveEntry> = Vec::new();
    match root {
        FsNode::File { .. } => {},
        FsNode::Directory { path, children } => {
            let prefix = with_trailing_separator(path.as_str());
            collect_all(children, prefix.as_str(), &mut entries);
        },
    }
    entries
}

/// The number of file system objects in the tree at `node`, itself included.
pub open spec fn node_count(node: FsNode) -> nat
    decreases node, 0nat,
{
    match node {
        FsNode::File { .. } => 1,
        FsNode::Directory { children, .. } => 1 + node_count_first(children@, children@.len()),
    }
}

/// The number of file system objects in the trees at the first `count` of
/// `nodes`.
pub open spec fn node_count_first(nodes: Seq<FsNode>, count: nat) -> nat
    decreases nodes, count,
{
    if count == 0 || count > nodes.len() {
        0
    } else {
        node_count_first(nodes, (count - 1) as nat) + node_count(nodes[count - 1])
    }
}

/// The result of `with_separator` ends in a separator and starts with the
/// path it was made from; a path that ends in a separator is left as it is.
pub proof fn lemma_with_separator(path: Seq<char>)
    ensures
        with_separator(path).len() > 0,
        with_separator(path).last() == SEPARATOR,
        path.is_prefix_of(with_separator(path)),
        with_separator(with_separator(path)) == with_separator(path),
{
}

/// What `relativized` returns is the end of the path, and does not start with
/// the prefix any more.
pub proof fn lemma_relativized_is_clean_suffix(path: Seq<char>, prefix: Seq<char>)
    requires
        prefix.len() > 0,
    ensures
        relativized(path, prefix).len() <= path.len(),
        relativized(path, prefix) == path.skip(path.len() - relativized(path, prefix).len()),
        !prefix.is_prefix_of(relativized(path, prefix)),
    decreases path.len(),
{
    if prefix.is_prefix_of(path) {
        lemma_relativized_is_clean_suffix(path.skip(prefix.len() as int), prefix);
    }
}

/// A path made of the prefix and a rest that does not itself start with the
/// prefix is relativized to that rest.
pub proof fn lemma_relativized_takes_prefix_off(prefix: Seq<char>, rest: Seq<char>)
    requires
        prefix.len() > 0,
        !prefix.is_prefix_of(rest),
    ensures
        relativized(prefix + rest, prefix) == rest,
{
    reveal_with_fuel(relativized, 2);
}

/// Every object in the tree at `node` has exactly one entry, and the entry of
/// `node` itself comes first.
pub proof fn lemma_emitted_covers_tree(node: FsNode, prefix: Seq<char>)
    ensures
        emitted(node, prefix).len() == node_count(node),
        emitted(node, prefix)[0] == entry_for(node.spec_path(), prefix, node is Directory),
    decreases node, 0nat,
{
    match node {
        FsNode::File { .. } => {},
        FsNode::Directory { children, .. } => {
            lemma_emitted_first_covers_trees(children@, children@.len(), prefix);
        },
    }
}

/// Every object in the trees at the first `count` of `nodes` has exactly one
/// entry.
pub proof fn lemma_emitted_first_covers_trees(nodes: Seq<FsNode>, count: nat, prefix: Seq<char>)
    ensures
        emitted_first(nodes, count, prefix).len() == node_count_first(nodes, count),
    decreases nodes, count,
{
    if !(count == 0 || count > nodes.len()) {
        lemma_emitted_first_covers_trees(nodes, (count - 1) as nat, prefix);
        lemma_emitted_covers_tree(nodes[count - 1], prefix);
    }
}

/// The root of the walk has no entry of its own: the archive of a directory
/// holds one entry for each object below it, and that of an empty directory
/// or of a root that is no directory holds none.
pub proof fn lemma_root_has_no_entry(root: FsNode)
    ensures
        spec_dir(root).len() == node_count(root) - 1,
        root is File ==> spec_dir(root).len() == 0,
        root is Directory && root.spec_children().len() == 0 ==> spec_dir(root).len() == 0,
{
    match root {
        FsNode::File { .. } => {},
        FsNode::Directory { path, children } => {
            lemma_emitted_first_covers_trees(children@, children@.len(), with_separator(path@));
        },
    }
}

/// Whether `path` lies below the directory that `prefix` names: it is the
/// prefix followed by something that does not start with a separator.
pub open spec fn lies_below(path: Seq<char>, prefix: Seq<char>) -> bool {
    prefix.is_prefix_of(path) && (path.len() == prefix.len() || path[prefix.len() as int]
        != SEPARATOR)
}

/// Whether every object in the tree at `node` lies below `prefix`.
pub open spec fn tree_lies_below(node: FsNode, prefix: Seq<char>) -> bool
    decreases node, 0nat,
{
    match node {
        FsNode::File { path } => lies_below(path@, prefix),
        FsNode::Directory { path, children } => lies_below(path@, prefix) && trees_lie_below(
            children@,
            children@.len(),
            prefix,
        ),
    }
}

/// Whether every object in the trees at the first `count` of `nodes` lies
/// below `prefix`.
pub open spec fn trees_lie_below(nodes: Seq<FsNode>, count: nat, prefix: Seq<char>) -> bool
    decreases nodes, count,
{
    count == 0 || count > nodes.len() || (trees_lie_below(nodes, (count - 1) as nat, prefix)
        && tree_lies_below(nodes[count - 1], prefix))
}

/// Whether `entry` is named relative to `prefix`: its name does not start
/// with a separator, and the prefix followed by the name is the path that the
/// entry is made from.
pub open spec fn named_relative_to(entry: EntryView, prefix: Seq<char>) -> bool {
    prefix + entry.name == entry.source && (entry.name.len() == 0 || entry.name[0] != SEPARATOR)
}

/// An object that lies below an absolute prefix is named relative to it.
pub proof fn lemma_entry_below_is_relative(path: Seq<char>, prefix: Seq<char>, is_dir: bool)
    requires
        prefix.len() > 0,
        prefix[0] == SEPARATOR,
        lies_below(path, prefix),
    ensures
        named_relative_to(entry_for(path, prefix, is_dir), prefix),
{
    let rest = path.skip(prefix.len() as int);
    assert(prefix + rest =~= path);
    lemma_relativized_takes_prefix_off(prefix, rest);
}

/// Where the whole tree at `node` lies below an absolute prefix, each of its
/// entries is named relative to that prefix.
pub proof fn lemma_emitted_names_are_relative(node: FsNode, prefix: Seq<char>)
    requires
        prefix.len() > 0,
        prefix[0] == SEPARATOR,
        tree_lies_below(node, prefix),
    ensures
        forall|i: int|
            0 <= i < emitted(node, prefix).len() ==> named_relative_to(
                #[trigger] emitted(node, prefix)[i],
                prefix,
            ),
    decreases node, 0nat,
{
    match node {
        FsNode::File { path } => {
            lemma_entry_below_is_relative(path@, prefix, false);
        },
        FsNode::Directory { path, children } => {
            lemma_entry_below_is_relative(path@, prefix, true);
            lemma_emitted_first_names_are_relative(children@, children@.len(), prefix);
            let below = emitted_first(children@, children@.len(), prefix);
            assert forall|i: int| 0 <= i < emitted(node, prefix).len() implies named_relative_to(
                #[trigger] emitted(node, prefix)[i],
                prefix,
            ) by {
                if i > 0 {
                    assert(emitted(node, prefix)[i] == below[i - 1]);
                }
            }
        },
    }
}

/// Where the trees at the first `count` of `nodes` lie below an absolute
/// prefix, each of their entries is named relative to that prefix.
pub proof fn lemma_emitted_first_names_are_relative(
    nodes: Seq<FsNode>,
    count: nat,
    prefix: Seq<char>,
)
    requires
        prefix.len() > 0,
        prefix[0] == SEPARATOR,
        trees_lie_below(nodes, count, prefix),
    ensures
        forall|i: int|
            0 <= i < emitted_first(nodes, count, prefix).len() ==> named_relative_to(
                #[trigger] emitted_first(nodes, count, prefix)[i],
                prefix,
            ),
    decreases nodes, count,
{
    if !(count == 0 || count > nodes.len()) {
        lemma_emitted_first_names_are_relative(nodes, (count - 1) as nat, prefix);
        lemma_emitted_names_are_relative(nodes[count - 1], prefix);
        let before = emitted_first(nodes, (count - 1) as nat, prefix);
        let last = emitted(nodes[count - 1], prefix);
        assert forall|i: int|
            0 <= i < emitted_first(nodes, count, prefix).len() implies named_relative_to(
            #[trigger] emitted_first(nodes, count, prefix)[i],
            prefix,
        ) by {
            if i < before.len() {
                assert(emitted_first(nodes, count, prefix)[i] == before[i]);
            } else {
                assert(emitted_first(nodes, count, prefix)[i] == last[i - before.len()]);
            }
        }
    }
}

/// No absolute path leaks into the archive: where the root is a directory
/// with an absolute path, and all that it holds lies below it, every entry of
/// the archive is named relative to the root.
pub proof fn lemma_archive_names_are_relative(root: FsNode)
    requires
        root is Directory,
        root.spec_path().len() > 0,
        root.spec_path()[0] == SEPARATOR,
        trees_lie_below(
            root.spec_children(),
            root.spec_children().len(),
            with_separator(root.spec_path()),
        ),
    ensures
        forall|i: int|
            0 <= i < spec_dir(root).len() ==> named_relative_to(
                #[trigger] spec_dir(root)[i],
                with_separator(root.spec_path()),
            ),
{
    match root {
        FsNode::File { .. } => {},
        FsNode::Directory { path, children } => {
            lemma_emitted_first_names_are_relative(
                children@,
                children@.len(),
                with_separator(path@),
            );
        },
    }
}

} // verus!
