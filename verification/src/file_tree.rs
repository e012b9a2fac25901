//! The browser's file tree: directories with their loaded children, and the
//! image files among them.

use crate::path::{chars_of, ends_with, file_name, spec_ends_with, spec_file_name};
use vstd::prelude::*;

verus! {

/// A node of the file tree.
#[derive(Debug)]
pub enum FileTreeEntry {
    Directory {
        name: String,
        path: String,
        children: Vec<FileTreeEntry>,
        expanded: bool,
        /// Whether `children` holds the directory's listing.
        children_loaded: bool,
    },
    File { name: String, path: String },
}

/// A node of the file tree as a mathematical value.
pub enum TreeView {
    Directory {
        name: Seq<char>,
        path: Seq<char>,
        children: Seq<TreeView>,
        expanded: bool,
        children_loaded: bool,
    },
    File { name: Seq<char>, path: Seq<char> },
}

impl TreeView {
    /// The path of the node.
    pub open spec fn path(self) -> Seq<char> {
        match self {
            TreeView::Directory { path, .. } => path,
            TreeView::File { path, .. } => path,
        }
    }

    /// The display name of the node.
    pub open spec fn name(self) -> Seq<char> {
        match self {
            TreeView::Directory { name, .. } => name,
            TreeView::File { name, .. } => name,
        }
    }
}

/// The tree under `entry` as a mathematical value.
pub open spec fn tree_view(entry: FileTreeEntry) -> TreeView
    decreases entry,
{
    match entry {
        FileTreeEntry::Directory { name, path, children, expanded, children_loaded } => {
            TreeView::Directory {
                name: name@,
                path: path@,
                children: views(children@),
                expanded,
                children_loaded,
            }
        },
        FileTreeEntry::File { name, path } => TreeView::File { name: name@, path: path@ },
    }
}

/// The trees under `nodes` as mathematical values, in order.
pub open spec fn views(nodes: Seq<FileTreeEntry>) -> Seq<TreeView>
    decreases nodes,
{
    if nodes.len() == 0 {
        Seq::empty()
    } else {
        views(nodes.drop_last()).push(tree_view(nodes.last()))
    }
}

impl View for FileTreeEntry {
    type V = TreeView;

    open spec fn view(&self) -> TreeView {
        tree_view(*self)
    }
}

/// `views` keeps the length and the order of the nodes.
pub proof fn lemma_views(nodes: Seq<FileTreeEntry>)
    ensures
        views(nodes).len() == nodes.len(),
        forall|i: int| 0 <= i < nodes.len() ==> #[trigger] views(nodes)[i] == nodes[i]@,
    decreases nodes.len(),
{
    if nodes.len() > 0 {
        lemma_views(nodes.drop_last());
        assert forall|i: int| 0 <= i < nodes.len() implies #[trigger] views(nodes)[i]
            == nodes[i]@ by {
            if i < nodes.len() - 1 {
                assert(nodes.drop_last()[i] == nodes[i]);
            }
        }
    }
}

impl Clone for FileTreeEntry {
    /// A copy of the whole tree under this node.
    fn clone(&self) -> (copy: FileTreeEntry)
        ensures
            copy@ == self@,
        decreases self,
    {
        match self {
            FileTreeEntry::Directory { name, path, children, expanded, children_loaded } => {
                let mut copies: Vec<FileTreeEntry> = Vec::new();
                let mut k: usize = 0;
                while k < children.len()
                    invariant
                        k <= children@.len(),
                        *self is Directory,
                        self->children == *children,
                        copies@.len() == k,
                        forall|j: int| 0 <= j < k ==> (#[trigger] copies@[j])@ == children@[j]@,
                    decreases children@.len() - k,
                {
                    copies.push(children[k].clone());
                    k += 1;
                }
                proof {
                    lemma_views(copies@);
                    lemma_views(children@);
                    assert(views(copies@) =~= views(children@));
                }
                FileTreeEntry::Directory {
                    name: name.clone(),
                    path: path.clone(),
                    children: copies,
                    expanded: *expanded,
                    children_loaded: *children_loaded,
                }
            },
            FileTreeEntry::File { name, path } => FileTreeEntry::File {
                name: name.clone(),
                path: path.clone(),
            },
        }
    }
}

/// The first node with the given path, the tree's root before its
/// children and each child's subtree before the next child.
pub open spec fn tree_find(tree: TreeView, path: Seq<char>) -> Option<TreeView>
    decreases tree,
{
    if tree.path() == path {
        Some(tree)
    } else {
        match tree {
            TreeView::Directory { children, .. } => forest_find(children, path),
            TreeView::File { .. } => None,
        }
    }
}

/// The first node with the given path among the subtrees of `nodes`, taken
/// in order.
pub open spec fn forest_find(nodes: Seq<TreeView>, path: Seq<char>) -> Option<TreeView>
    decreases nodes,
{
    if nodes.len() == 0 {
        None
    } else {
        match tree_find(nodes[0], path) {
            Some(found) => Some(found),
            None => forest_find(nodes.subrange(1, nodes.len() as int), path),
        }
    }
}

/// Where none of the first `k` subtrees holds the path, the search among
/// all of them is the search among the rest.
pub proof fn lemma_forest_find_skips(nodes: Seq<TreeView>, path: Seq<char>, k: int)
    requires
        0 <= k <= nodes.len(),
        forall|j: int| 0 <= j < k ==> tree_find(#[trigger] nodes[j], path) is None,
    ensures
        forest_find(nodes, path) == forest_find(nodes.subrange(k, nodes.len() as int), path),
    decreases k,
{
    if k == 0 {
        assert(nodes.subrange(0, nodes.len() as int) =~= nodes);
    } else {
        let rest = nodes.subrange(1, nodes.len() as int);
        assert forall|j: int| 0 <= j < k - 1 implies tree_find(#[trigger] rest[j], path)
            is None by {
            assert(rest[j] == nodes[j + 1]);
        }
        lemma_forest_find_skips(rest, path, k - 1);
        assert(rest.subrange(k - 1, rest.len() as int) =~= nodes.subrange(k, nodes.len() as int));
    }
}

impl FileTreeEntry {
    /// A fresh node for `path`: a collapsed directory without children where
    /// `is_dir`, a file otherwise, named by the final component of the path.
    pub fn default(path: String, is_dir: bool) -> (entry: FileTreeEntry)
        ensures
            entry@ == (if is_dir {
                TreeView::Directory {
                    name: spec_file_name(path@),
                    path: path@,
                    children: Seq::empty(),
                    expanded: false,
                    children_loaded: false,
                }
            } else {
                TreeView::File { name: spec_file_name(path@), path: path@ }
            }),
    {
        let name = file_name(path.as_str());
        if is_dir {
            FileTreeEntry::Directory {
                name,
                path,
                children: Vec::new(),
                expanded: false,
                children_loaded: false,
            }
        } else {
            FileTreeEntry::File { name, path }
        }
    }

    /// Whether the node is a directory.
    pub fn is_directory(&self) -> (b: bool)
        ensures
            b == (self@ is Directory),
    {
        match self {
            FileTreeEntry::Directory { .. } => true,
            FileTreeEntry::File { .. } => false,
        }
    }

    /// The path of the node.
    pub fn path(&self) -> (p: &String)
        ensures
            p@ == self@.path(),
    {
        match self {
            FileTreeEntry::Directory { path, .. } => path,
            FileTreeEntry::File { path, .. } => path,
        }
    }

    /// The display name of the node.
    pub fn name(&self) -> (n: &str)
        ensures
            n@ == self@.name(),
    {
        match self {
            FileTreeEntry::Directory { name, .. } => name.as_str(),
            FileTreeEntry::File { name, .. } => name.as_str(),
        }
    }
}

/// The first node of the tree under `entry` whose path is `path`: `entry`
/// itself, or else the first found in the subtrees of its children, in
/// order.
pub fn find_entry<'a>(entry: &'a FileTreeEntry, path: &String) -> (found: Option<
    &'a FileTreeEntry,
>)
    ensures
        match found {
            Some(node) => tree_find(entry@, path@) == Some(node@),
            None => tree_find(entry@, path@) is None,
        },
    decreases entry,
{
    if *entry.path() == *path {
        return Some(entry);
    }
    match entry {
        FileTreeEntry::Directory { children, .. } => {
            proof {
                lemma_views(children@);
            }
            let mut k: usize = 0;
            while k < children.len()
                invariant
                    k <= children@.len(),
                    *entry is Directory,
                    entry->children == *children,
                    entry@ is Directory,
                    entry@.path() != path@,
                    entry@->Directory_children == views(children@),
                    views(children@).len() == children@.len(),
                    forall|j: int|
                        0 <= j < children@.len() ==> #[trigger] views(children@)[j]
                            == children@[j]@,
                    forall|j: int|
                        0 <= j < k ==> tree_find(#[trigger] views(children@)[j], path@) is None,
                decreases children@.len() - k,
            {
                let child = &children[k];
                match find_entry(child, path) {
                    Some(node) => {
                        proof {
                            let nodes = views(children@);
                            let at = k as int;
                            lemma_forest_find_skips(nodes, path@, at);
                            assert(nodes.subrange(at, nodes.len() as int)[0] == nodes[at]);
                        }
                        return Some(node);
                    },
                    None => {},
                }
                k += 1;
            }
            proof {
                let nodes = views(children@);
                lemma_forest_find_skips(nodes, path@, nodes.len() as int);
            }
            None
        },
        FileTreeEntry::File { .. } => None,
    }
}

/// The tree with its first node of the given path, in the order of
/// `tree_find`, replaced by `node`; the tree itself where no node has the
/// path.
pub open spec fn tree_replace_first(tree: TreeView, path: Seq<char>, node: TreeView) -> TreeView
    decreases tree,
{
    if tree.path() == path {
        node
    } else {
        match tree {
            TreeView::Directory { name, path: own, children, expanded, children_loaded } => {
                TreeView::Directory {
                    name,
                    path: own,
                    children: forest_replace_first(children, path, node),
                    expanded,
                    children_loaded,
                }
            },
            TreeView::File { .. } => tree,
        }
    }
}

/// The trees with the first node of the given path replaced by `node`.
pub open spec fn forest_replace_first(
    nodes: Seq<TreeView>,
    path: Seq<char>,
    node: TreeView,
) -> Seq<TreeView>
    decreases nodes,
{
    if nodes.len() == 0 {
        nodes
    } else if tree_find(nodes[0], path) is Some {
        nodes.update(0, tree_replace_first(nodes[0], path, node))
    } else {
        seq![nodes[0]] + forest_replace_first(nodes.subrange(1, nodes.len() as int), path, node)
    }
}

/// Where the first `k` subtrees do not hold the path and subtree `k` does,
/// replacing among all of them replaces in subtree `k`.
pub proof fn lemma_forest_replace_at(nodes: Seq<TreeView>, path: Seq<char>, node: TreeView, k: int)
    requires
        0 <= k < nodes.len(),
        forall|j: int| 0 <= j < k ==> tree_find(#[trigger] nodes[j], path) is None,
        tree_find(nodes[k], path) is Some,
    ensures
        forest_replace_first(nodes, path, node) == nodes.update(
            k,
            tree_replace_first(nodes[k], path, node),
        ),
        forest_find(nodes, path) == tree_find(nodes[k], path),
    decreases k,
{
    if k > 0 {
        let rest = nodes.subrange(1, nodes.len() as int);
        assert forall|j: int| 0 <= j < k - 1 implies tree_find(#[trigger] rest[j], path)
            is None by {
            assert(rest[j] == nodes[j + 1]);
        }
        assert(rest[k - 1] == nodes[k]);
        lemma_forest_replace_at(rest, path, node, k - 1);
        assert(seq![nodes[0]] + rest.update(k - 1, tree_replace_first(nodes[k], path, node))
            =~= nodes.update(k, tree_replace_first(nodes[k], path, node)));
    }
}

/// A directory node after a click on it: expanded where it was collapsed,
/// and collapsed where it was expanded.  Collapsing forgets the children,
/// to be listed anew at the next expansion; only the directory of recent
/// images, whose children are given once, keeps them and counts as loaded
/// from its first expansion on.  A file node stays as it is.
pub open spec fn node_toggled(node: TreeView, is_recents: bool) -> TreeView {
    match node {
        TreeView::Directory { name, path, children, expanded, children_loaded } => {
            if !expanded {
                TreeView::Directory {
                    name,
                    path,
                    children,
                    expanded: true,
                    children_loaded: is_recents || children_loaded,
                }
            } else if is_recents {
                TreeView::Directory { name, path, children, expanded: false, children_loaded }
            } else {
                TreeView::Directory {
                    name,
                    path,
                    children: Seq::empty(),
                    expanded: false,
                    children_loaded: false,
                }
            }
        },
        TreeView::File { .. } => node,
    }
}

/// Whether a click on `node` asks for its children to be listed: it is a
/// directory other than that of recent images, was collapsed, and its
/// children are not loaded.
pub open spec fn toggle_needs_listing(node: TreeView, is_recents: bool) -> bool {
    node matches TreeView::Directory { expanded, children_loaded, .. } && !expanded && !is_recents
        && !children_loaded
}

/// A directory node with `children` in place of its own; a file node as it
/// is.
pub open spec fn node_with_children(node: TreeView, children: Seq<TreeView>) -> TreeView {
    match node {
        TreeView::Directory { name, path, expanded, children_loaded, .. } => {
            TreeView::Directory { name, path, children, expanded, children_loaded }
        },
        TreeView::File { .. } => node,
    }
}

/// A node after a click on it, with `listed` the children its directory
/// has on disk: toggled, and given those children where the click asks for
/// a listing.
pub open spec fn node_clicked(node: TreeView, is_recents: bool, listed: Seq<TreeView>) -> TreeView {
    if toggle_needs_listing(node, is_recents) {
        node_with_children(node_toggled(node, is_recents), listed)
    } else {
        node_toggled(node, is_recents)
    }
}

impl FileTreeEntry {
    /// Takes a click on this node, with `listed` the children its directory
    /// has on disk, and tells whether the listing was taken.
    pub fn click(&mut self, is_recents: bool, listed: Vec<FileTreeEntry>) -> (took_listing: bool)
        ensures
            final(self)@ == node_clicked(old(self)@, is_recents, views(listed@)),
            took_listing == toggle_needs_listing(old(self)@, is_recents),
    {
        match self {
            FileTreeEntry::Directory { children, expanded, children_loaded, .. } => {
                if !*expanded {
                    *expanded = true;
                    if is_recents {
                        *children_loaded = true;
                        false
                    } else if !*children_loaded {
                        *children = listed;
                        true
                    } else {
                        false
                    }
                } else {
                    *expanded = false;
                    if !is_recents {
                        children.clear();
                        *children_loaded = false;
                    }
                    false
                }
            },
            FileTreeEntry::File { .. } => false,
        }
    }

    /// Gives this node `fresh` children in place of its own; a file node
    /// stays as it is.
    pub fn set_children(&mut self, fresh: Vec<FileTreeEntry>)
        ensures
            final(self)@ == node_with_children(old(self)@, views(fresh@)),
    {
        match self {
            FileTreeEntry::Directory { children, .. } => {
                *children = fresh;
            },
            FileTreeEntry::File { .. } => {},
        }
    }
}

/// The first of `entries` whose tree holds a node with `path`.
fn first_holder(entries: &Vec<FileTreeEntry>, path: &String) -> (r: Option<usize>)
    ensures
        match r {
            Some(k) => {
                &&& k < entries@.len()
                &&& tree_find(entries@[k as int]@, path@) is Some
                &&& forall|j: int| 0 <= j < k ==> tree_find(#[trigger] entries@[j]@, path@) is None
            },
            None => forall|j: int|
                0 <= j < entries@.len() ==> tree_find(#[trigger] entries@[j]@, path@) is None,
        },
{
    let mut k: usize = 0;
    while k < entries.len()
        invariant
            k <= entries@.len(),
            forall|j: int| 0 <= j < k ==> tree_find(#[trigger] entries@[j]@, path@) is None,
        decreases entries@.len() - k,
    {
        if find_entry(&entries[k], path).is_some() {
            return Some(k);
        }
        k += 1;
    }
    None
}

/// What `first_holder` found, told of the views of the entries.
proof fn lemma_holder(entries: Seq<FileTreeEntry>, path: Seq<char>, holder: Option<usize>)
    requires
        match holder {
            Some(k) => {
                &&& k < entries.len()
                &&& tree_find(entries[k as int]@, path) is Some
                &&& forall|j: int| 0 <= j < k ==> tree_find(#[trigger] entries[j]@, path) is None
            },
            None => forall|j: int|
                0 <= j < entries.len() ==> tree_find(#[trigger] entries[j]@, path) is None,
        },
    ensures
        forest_find(views(entries), path) == (match holder {
            Some(k) => tree_find(entries[k as int]@, path),
            None => None,
        }),
{
    lemma_views(entries);
    let limit: int = match holder {
        Some(k) => k as int,
        None => entries.len() as int,
    };
    assert forall|j: int| 0 <= j < limit implies tree_find(#[trigger] views(entries)[j], path)
        is None by {
        assert(views(entries)[j] == entries[j]@);
    }
    match holder {
        Some(k) => {
            lemma_forest_replace_at(views(entries), path, entries[k as int]@, k as int);
        },
        None => {
            lemma_forest_find_skips(views(entries), path, limit);
        },
    }
}

/// The node with `path` in the tree under entry `k`, the first of
/// `entries` that holds one.
fn find_in_holder<'a>(entries: &'a mut Vec<FileTreeEntry>, k: usize, path: &String) -> (found:
    Option<&'a mut FileTreeEntry>)
    requires
        k < old(entries)@.len(),
        tree_find(old(entries)@[k as int]@, path@) is Some,
        forall|j: int| 0 <= j < k ==> tree_find(#[trigger] old(entries)@[j]@, path@) is None,
    ensures
        found matches Some(node) && tree_find(old(entries)@[k as int]@, path@) == Some(node@)
            && views(final(entries)@) == forest_replace_first(
            views(old(entries)@),
            path@,
            final(node)@,
        ),
    decreases *old(entries), 0nat,
{
    let ghost before = entries@;
    let ghost at = k as int;
    proof {
        lemma_views(before);
        assert forall|after: Seq<FileTreeEntry>, node: TreeView|
            after.len() == before.len() && (forall|j: int|
                0 <= j < before.len() && j != at ==> after[j] == before[j]) && after[at]@
                == #[trigger] tree_replace_first(before[at]@, path@, node) implies #[trigger] views(
            after,
        ) == forest_replace_first(views(before), path@, node) by {
            lemma_views(after);
            lemma_forest_replace_at(views(before), path@, node, at);
            assert(views(after) =~= views(before).update(
                at,
                tree_replace_first(before[at]@, path@, node),
            ));
        }
    }
    find_entry_by_path(&mut entries[k], path)
}

/// The first node of the tree under `entry` whose path is `path`, to be
/// changed in place: `entry` itself, or else the first found in the
/// subtrees of its children, in order.
///
/// The tree ends as it began but for that node, which ends as the caller
/// leaves it.
pub fn find_entry_by_path<'a>(entry: &'a mut FileTreeEntry, path: &String) -> (found: Option<
    &'a mut FileTreeEntry,
>)
    ensures
        match found {
            Some(node) => {
                &&& tree_find(old(entry)@, path@) == Some(node@)
                &&& final(entry)@ == tree_replace_first(old(entry)@, path@, final(node)@)
            },
            None => tree_find(old(entry)@, path@) is None && final(entry)@ == old(entry)@,
        },
    decreases *old(entry), 1nat,
{
    if *entry.path() == *path {
        return Some(entry);
    }
    let holder = match &*entry {
        FileTreeEntry::Directory { children, .. } => {
            let holder = first_holder(children, path);
            proof {
                lemma_holder(children@, path@, holder);
            }
            holder
        },
        FileTreeEntry::File { .. } => None,
    };
    match holder {
        None => None,
        Some(k) => match entry {
            FileTreeEntry::Directory { children, .. } => find_in_holder(children, k, path),
            FileTreeEntry::File { .. } => None,
        },
    }
}

/// The first node with `path` in the trees under `entries`, taken in
/// order, to be changed in place.
///
/// The trees end as they began but for that node, which ends as the caller
/// leaves it.
pub fn find_entry_among<'a>(entries: &'a mut Vec<FileTreeEntry>, path: &String) -> (found: Option<
    &'a mut FileTreeEntry,
>)
    ensures
        match found {
            Some(node) => {
                &&& forest_find(views(old(entries)@), path@) == Some(node@)
                &&& views(final(entries)@) == forest_replace_first(
                    views(old(entries)@),
                    path@,
                    final(node)@,
                )
            },
            None => forest_find(views(old(entries)@), path@) is None && views(final(entries)@)
                == views(old(entries)@),
        },
{
    let holder = first_holder(entries, path);
    proof {
        lemma_holder(entries@, path@, holder);
    }
    match holder {
        Some(k) => find_in_holder(entries, k, path),
        None => None,
    }
}

/// One entry of a directory's listing.
#[derive(Debug)]
pub struct DirEntry {
    pub path: String,
    pub is_dir: bool,
}

/// Whether a listed entry is shown in the tree: a directory unless its name
/// begins with `.`, a file where its name ends in one of the image
/// suffixes, as written.
pub open spec fn spec_is_listed(path: Seq<char>, is_dir: bool) -> bool {
    let name = spec_file_name(path);
    if is_dir {
        name.len() == 0 || name[0] != '.'
    } else {
        ||| spec_ends_with(name, ".png"@)
        ||| spec_ends_with(name, ".jpg"@)
        ||| spec_ends_with(name, ".jpeg"@)
        ||| spec_ends_with(name, ".gif"@)
        ||| spec_ends_with(name, ".svg"@)
    }
}

/// The fresh node for a listed entry.
pub open spec fn fresh_node(path: Seq<char>, is_dir: bool) -> TreeView {
    if is_dir {
        TreeView::Directory {
            name: spec_file_name(path),
            path,
            children: Seq::empty(),
            expanded: false,
            children_loaded: false,
        }
    } else {
        TreeView::File { name: spec_file_name(path), path }
    }
}

/// The children a directory gets from its listing: a fresh node for each
/// entry that is shown, in the order of the listing.
pub open spec fn spec_listed_children(listing: Seq<DirEntry>) -> Seq<TreeView>
    decreases listing.len(),
{
    if listing.len() == 0 {
        Seq::empty()
    } else {
        let rest = spec_listed_children(listing.drop_last());
        let last = listing.last();
        if spec_is_listed(last.path@, last.is_dir) {
            rest.push(fresh_node(last.path@, last.is_dir))
        } else {
            rest
        }
    }
}

/// Whether the entry is shown in the tree.
pub fn is_listed(entry: &DirEntry) -> (b: bool)
    ensures
        b == spec_is_listed(entry.path@, entry.is_dir),
{
    let name = file_name(entry.path.as_str());
    let letters = chars_of(name.as_str());
    if entry.is_dir {
        letters.len() == 0 || letters[0] != '.'
    } else {
        let png = chars_of(".png");
        let jpg = chars_of(".jpg");
        let jpeg = chars_of(".jpeg");
        let gif = chars_of(".gif");
        let svg = chars_of(".svg");
        ends_with(&letters, &png) || ends_with(&letters, &jpg) || ends_with(&letters, &jpeg)
            || ends_with(&letters, &gif) || ends_with(&letters, &svg)
    }
}

/// The children a directory gets from its listing.
pub fn listed_children(listing: &Vec<DirEntry>) -> (children: Vec<FileTreeEntry>)
    ensures
        views(children@) == spec_listed_children(listing@),
{
    let mut children: Vec<FileTreeEntry> = Vec::new();
    let mut i: usize = 0;
    while i < listing.len()
        invariant
            i <= listing@.len(),
            views(children@) == spec_listed_children(listing@.subrange(0, i as int)),
        decreases listing@.len() - i,
    {
        let entry = &listing[i];
        proof {
            let upto = listing@.subrange(0, i + 1);
            assert(upto.drop_last() =~= listing@.subrange(0, i as int));
            assert(upto.last() == listing@[i as int]);
        }
        if is_listed(entry) {
            let ghost before = children@;
            let node = FileTreeEntry::default(entry.path.clone(), entry.is_dir);
            children.push(node);
            proof {
                assert(children@.drop_last() =~= before);
            }
        }
        i += 1;
    }
    proof {
        assert(listing@.subrange(0, listing@.len() as int) =~= listing@);
    }
    children
}

/// Gives the first node with `target_path` in the tree under `root_entry`
/// the children of `listing`, in place of its own; no children where the
/// directory could not be listed.  A tree without such a node, and a file
/// node with that path, stay as they are.
pub fn load_directory_children(
    root_entry: &mut FileTreeEntry,
    target_path: &String,
    listing: Option<&Vec<DirEntry>>,
)
    ensures
        final(root_entry)@ == (match tree_find(old(root_entry)@, target_path@) {
            Some(found) => tree_replace_first(
                old(root_entry)@,
                target_path@,
                node_with_children(
                    found,
                    match listing {
                        Some(entries) => spec_listed_children(entries@),
                        None => Seq::empty(),
                    },
                ),
            ),
            None => old(root_entry)@,
        }),
{
    let children = match listing {
        Some(entries) => listed_children(entries),
        None => Vec::new(),
    };
    match find_entry_by_path(root_entry, target_path) {
        Some(target) => {
            target.set_children(children);
        },
        None => {},
    }
}

/// One line of the tree as it is shown.
#[derive(Debug)]
pub struct TreeRow {
    /// Depth of the node below the root that is shown.
    pub level: usize,
    pub name: String,
    pub path: String,
    pub is_directory: bool,
    pub expanded: bool,
}

/// One line of the tree as a mathematical value.
pub struct RowView {
    pub level: int,
    pub name: Seq<char>,
    pub path: Seq<char>,
    pub is_directory: bool,
    pub expanded: bool,
}

impl View for TreeRow {
    type V = RowView;

    open spec fn view(&self) -> RowView {
        RowView {
            level: self.level as int,
            name: self.name@,
            path: self.path@,
            is_directory: self.is_directory,
            expanded: self.expanded,
        }
    }
}

/// The views of a list of rows.
pub open spec fn row_views(rows: Seq<TreeRow>) -> Seq<RowView> {
    Seq::new(rows.len(), |i: int| rows[i]@)
}

/// The level below `level`, which stays where no deeper one can be
/// counted.
pub open spec fn deeper(level: int) -> int {
    if level < usize::MAX {
        level + 1
    } else {
        level
    }
}

/// The line of a node shown at `level`.
pub open spec fn row_of(node: TreeView, level: int) -> RowView {
    match node {
        TreeView::Directory { name, path, expanded, .. } => RowView {
            level,
            name,
            path,
            is_directory: true,
            expanded,
        },
        TreeView::File { name, path } => RowView {
            level,
            name,
            path,
            is_directory: false,
            expanded: false,
        },
    }
}

/// The lines of a tree shown from `level` on: the node itself and, below an
/// expanded directory, the lines of its children one level deeper.
pub open spec fn tree_rows(tree: TreeView, level: int) -> Seq<RowView>
    decreases tree,
{
    seq![row_of(tree, level)] + (match tree {
        TreeView::Directory { children, expanded, .. } => if expanded {
            forest_rows(children, deeper(level))
        } else {
            Seq::empty()
        },
        TreeView::File { .. } => Seq::empty(),
    })
}

/// The lines of the trees under `nodes`, one after another, all at
/// `level`.
pub open spec fn forest_rows(nodes: Seq<TreeView>, level: int) -> Seq<RowView>
    decreases nodes,
{
    if nodes.len() == 0 {
        Seq::empty()
    } else {
        forest_rows(nodes.subrange(0, nodes.len() - 1), level) + tree_rows(
            nodes[nodes.len() - 1],
            level,
        )
    }
}

/// Adds the lines of the tree under `entry`, shown from `level` on, to
/// `rows`.
pub fn visible_rows(entry: &FileTreeEntry, level: usize, rows: &mut Vec<TreeRow>)
    ensures
        row_views(final(rows)@) == row_views(old(rows)@) + tree_rows(entry@, level as int),
    decreases entry,
{
    let ghost before = row_views(rows@);
    match entry {
        FileTreeEntry::Directory { name, path, children, expanded, .. } => {
            rows.push(
                TreeRow {
                    level,
                    name: name.clone(),
                    path: path.clone(),
                    is_directory: true,
                    expanded: *expanded,
                },
            );
            proof {
                lemma_views(children@);
                assert(row_views(rows@) =~= before + seq![row_of(entry@, level as int)]);
            }
            if *expanded {
                let below: usize = if level < usize::MAX { level + 1 } else { level };
                let ghost first = row_views(rows@);
                let mut k: usize = 0;
                while k < children.len()
                    invariant
                        k <= children@.len(),
                        *entry is Directory,
                        entry->children == *children,
                        views(children@).len() == children@.len(),
                        forall|j: int|
                            0 <= j < children@.len() ==> #[trigger] views(children@)[j]
                                == children@[j]@,
                        row_views(rows@) == first + forest_rows(
                            views(children@).subrange(0, k as int),
                            below as int,
                        ),
                    decreases children@.len() - k,
                {
                    let ghost so_far = row_views(rows@);
                    visible_rows(&children[k], below, rows);
                    proof {
                        let upto = views(children@).subrange(0, k + 1);
                        assert(upto.subrange(0, upto.len() - 1) =~= views(children@).subrange(
                            0,
                            k as int,
                        ));
                        assert(upto[upto.len() - 1] == children@[k as int]@);
                        assert(row_views(rows@) =~= first + forest_rows(upto, below as int));
                    }
                    k += 1;
                }
                proof {
                    assert(views(children@).subrange(0, children@.len() as int) =~= views(
                        children@,
                    ));
                    assert(row_views(rows@) =~= before + tree_rows(entry@, level as int));
                }
            } else {
                proof {
                    assert(row_views(rows@) =~= before + tree_rows(entry@, level as int));
                }
            }
        },
        FileTreeEntry::File { name, path } => {
            rows.push(
                TreeRow {
                    level,
                    name: name.clone(),
                    path: path.clone(),
                    is_directory: false,
                    expanded: false,
                },
            );
            proof {
                assert(row_views(rows@) =~= before + tree_rows(entry@, level as int));
            }
        },
    }
}

} // verus!
