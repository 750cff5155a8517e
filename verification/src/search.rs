//! The upward search: from a directory through its ancestors to the
//! filesystem root, for the nearest directory that holds a marked entry.

use vstd::prelude::*;
use crate::marker::Marker;
use crate::path::{AbsPath, PathView};
use crate::tree::{children, DirTree};

verus! {

/// Whether one of the entries called `names`, all directly inside `dir`, is
/// accepted by the marker.
pub open spec fn holds_marker<M: Marker>(marker: &M, dir: PathView, names: Seq<Seq<char>>) -> bool {
    exists|i: int| 0 <= i < names.len() && #[trigger] marker.accepts(dir.child(names[i]))
}

/// Whether the directory `dir`, whose immediate children are called
/// `entries`, holds an entry that `matches` accepts. Entries further down
/// are not looked at.
pub fn find_file_in_dir<M: Marker>(dir: &AbsPath, entries: &Vec<String>, matches: &M) -> (found:
    bool)
    ensures
        found == holds_marker(matches, dir@, entries.deep_view()),
{
    let mut i: usize = 0;
    while i < entries.len()
        invariant
            i <= entries.len(),
            forall|j: int| 0 <= j < i ==> !#[trigger] matches.accepts(dir@.child(entries.deep_view()[j])),
        decreases entries.len() - i,
    {
        let entry = dir.child(entries[i].as_str());
        if matches.matches(&entry) {
            assert(matches.accepts(dir@.child(entries.deep_view()[i as int])));
            return true;
        }
        i = i + 1;
    }
    false
}

/// What the search does after it has looked into one directory.
#[derive(Debug, PartialEq, Eq)]
pub enum Walk {
    /// The directory holds a marked entry: the search ends with it.
    Found(AbsPath),
    /// The directory holds none: the search goes on in its parent.
    Ascend(AbsPath),
    /// The directory holds none and is the filesystem root: the search ends
    /// without a result.
    Exhausted,
}

/// One step of the upward search: decides, from the names of the immediate
/// children of `dir`, whether the search ends there, goes on in the parent,
/// or ends without a result. The caller lists each directory that `Ascend`
/// names and hands its entries to the next step.
pub fn walk_step<M: Marker>(dir: AbsPath, entries: &Vec<String>, matches: &M) -> (step: Walk)
    ensures
        match step {
            Walk::Found(at) => holds_marker(matches, dir@, entries.deep_view()) && at@ == dir@,
            Walk::Ascend(up) => !holds_marker(matches, dir@, entries.deep_view()) && dir@.parent()
                == Some(up@),
            Walk::Exhausted => !holds_marker(matches, dir@, entries.deep_view())
                && dir@.parent() is None,
        },
{
    if find_file_in_dir(&dir, entries, matches) {
        Walk::Found(dir)
    } else {
        match dir.parent() {
            Some(up) => Walk::Ascend(up),
            None => Walk::Exhausted,
        }
    }
}

/// Whether the directory `dir` of the tree holds an entry, directly inside
/// it, that the marker accepts.
pub open spec fn marked<M: Marker>(tree: Seq<PathView>, dir: PathView, marker: &M) -> bool {
    exists|i: int|
        0 <= i < tree.len() && (#[trigger] tree[i]).parent() == Some(dir) && marker.accepts(
            tree[i],
        )
}

/// Whether the ancestor `steps` above `origin` is the nearest marked one:
/// it is marked, and neither `origin` nor any directory between the two is.
pub open spec fn nearest_marked<M: Marker>(
    tree: Seq<PathView>,
    origin: PathView,
    marker: &M,
    steps: nat,
) -> bool {
    &&& steps <= origin.depth()
    &&& marked(tree, origin.ancestor(steps), marker)
    &&& forall|nearer: nat|
        nearer < steps ==> !marked(tree, #[trigger] origin.ancestor(nearer), marker)
}

/// The nearest marked directory among `origin` and its ancestors, up to the
/// filesystem root; `None` where none of them is marked.
pub open spec fn locate<M: Marker>(tree: Seq<PathView>, origin: PathView, marker: &M) -> Option<
    PathView,
> {
    if exists|steps: nat| nearest_marked(tree, origin, marker, steps) {
        Some(origin.ancestor(choose|steps: nat| nearest_marked(tree, origin, marker, steps)))
    } else {
        None
    }
}

/// A directory is marked exactly when the marker accepts one of the entries
/// that its listing names.
pub proof fn lemma_marked_by_listing<M: Marker>(tree: Seq<PathView>, dir: PathView, marker: &M)
    ensures
        holds_marker(marker, dir, children(tree, dir)) == marked(tree, dir, marker),
{
    let held = |p: PathView| p.parent() == Some(dir);
    let inside = tree.filter(held);
    let names = children(tree, dir);
    if holds_marker(marker, dir, names) {
        let j = choose|j: int| 0 <= j < names.len() && marker.accepts(dir.child(names[j]));
        tree.lemma_filter_pred(held, j);
        assert(inside[j].names.drop_last().push(inside[j].names.last()) =~= inside[j].names);
        tree.lemma_filter_contains_rev(held, inside[j]);
    }
    if marked(tree, dir, marker) {
        let i = choose|i: int|
            0 <= i < tree.len() && (#[trigger] tree[i]).parent() == Some(dir) && marker.accepts(
                tree[i],
            );
        tree.lemma_filter_contains(held, i);
        let j = choose|j: int| 0 <= j < inside.len() && inside[j] == tree[i];
        assert(tree[i].names.drop_last().push(tree[i].names.last()) =~= tree[i].names);
        assert(dir.child(names[j]) == tree[i]);
    }
}

/// The nearest marked directory is the only one: two counts of steps that
/// both lead to it are equal.
pub proof fn lemma_nearest_is_unique<M: Marker>(
    tree: Seq<PathView>,
    origin: PathView,
    marker: &M,
    first: nat,
    second: nat,
)
    requires
        nearest_marked(tree, origin, marker, first),
        nearest_marked(tree, origin, marker, second),
    ensures
        first == second,
{
}

/// Where `origin` or one of its ancestors is marked, one of them is the
/// nearest marked one, and it lies no further up.
pub proof fn lemma_marked_has_nearest<M: Marker>(
    tree: Seq<PathView>,
    origin: PathView,
    marker: &M,
    steps: nat,
) -> (nearest: nat)
    requires
        steps <= origin.depth(),
        marked(tree, origin.ancestor(steps), marker),
    ensures
        nearest <= steps,
        nearest_marked(tree, origin, marker, nearest),
    decreases steps,
{
    if exists|nearer: nat| nearer < steps && marked(tree, origin.ancestor(nearer), marker) {
        let nearer = choose|nearer: nat|
            nearer < steps && marked(tree, origin.ancestor(nearer), marker);
        lemma_marked_has_nearest(tree, origin, marker, nearer)
    } else {
        steps
    }
}

/// Where some ancestor of `origin`, or `origin` itself, is marked and no
/// nearer one is, the search finds exactly that directory.
pub proof fn lemma_locate_nearest<M: Marker>(
    tree: Seq<PathView>,
    origin: PathView,
    marker: &M,
    steps: nat,
)
    requires
        nearest_marked(tree, origin, marker, steps),
    ensures
        locate(tree, origin, marker) == Some(origin.ancestor(steps)),
{
    let chosen = choose|steps: nat| nearest_marked(tree, origin, marker, steps);
    lemma_nearest_is_unique(tree, origin, marker, steps, chosen);
}

/// Where neither `origin` nor any of its ancestors up to the filesystem root
/// is marked, the search finds nothing.
pub proof fn lemma_locate_none<M: Marker>(tree: Seq<PathView>, origin: PathView, marker: &M)
    requires
        forall|steps: nat|
            steps <= origin.depth() ==> !marked(tree, #[trigger] origin.ancestor(steps), marker),
    ensures
        locate(tree, origin, marker) is None,
{
}

/// The ancestors of a directory's parent are the directory's own, one step
/// further up.
pub proof fn lemma_ancestor_of_parent(dir: PathView, up: PathView, steps: nat)
    requires
        dir.parent() == Some(up),
        steps <= up.depth(),
    ensures
        up.ancestor(steps) == dir.ancestor(steps + 1),
{
    assert(up.ancestor(steps).names =~= dir.ancestor(steps + 1).names);
}

/// The search step by step: a marked directory is found at once; from an
/// unmarked one the search goes on exactly as from its parent; at an
/// unmarked filesystem root it ends without a result.
pub proof fn lemma_locate_step<M: Marker>(tree: Seq<PathView>, dir: PathView, marker: &M)
    ensures
        locate(tree, dir, marker) == if marked(tree, dir, marker) {
            Some(dir)
        } else {
            match dir.parent() {
                Some(up) => locate(tree, up, marker),
                None => None,
            }
        },
{
    assert(dir.ancestor(0).names =~= dir.names);
    if marked(tree, dir, marker) {
        lemma_locate_nearest(tree, dir, marker, 0);
    } else {
        match dir.parent() {
            None => {
                assert forall|steps: nat| !nearest_marked(tree, dir, marker, steps) by {}
            },
            Some(up) => {
                assert forall|steps: nat| steps <= up.depth() implies up.ancestor(steps)
                    == #[trigger] dir.ancestor(steps + 1) by {
                    lemma_ancestor_of_parent(dir, up, steps);
                }
                if exists|steps: nat| nearest_marked(tree, up, marker, steps) {
                    let steps = choose|steps: nat| nearest_marked(tree, up, marker, steps);
                    assert forall|nearer: nat| nearer < steps + 1 implies !marked(
                        tree,
                        #[trigger] dir.ancestor(nearer),
                        marker,
                    ) by {
                        if nearer > 0 {
                            let below = (nearer - 1) as nat;
                            lemma_ancestor_of_parent(dir, up, below);
                        }
                    }
                    lemma_ancestor_of_parent(dir, up, steps);
                    lemma_locate_nearest(tree, dir, marker, steps + 1);
                    lemma_locate_nearest(tree, up, marker, steps);
                } else {
                    assert forall|steps: nat| !nearest_marked(tree, dir, marker, steps) by {
                        if nearest_marked(tree, dir, marker, steps) {
                            let below = (steps - 1) as nat;
                            lemma_ancestor_of_parent(dir, up, below);
                            assert forall|nearer: nat| nearer < below implies !marked(
                                tree,
                                #[trigger] up.ancestor(nearer),
                                marker,
                            ) by {
                                lemma_ancestor_of_parent(dir, up, nearer);
                            }
                            assert(nearest_marked(tree, up, marker, below));
                        }
                    }
                }
            },
        }
    }
}

/// Searches `tree` upward from `dir` for the nearest directory that holds an
/// entry accepted by `matches`: first `dir` itself, then its parent, then
/// each further ancestor in turn up to the filesystem root.
pub fn find_path_containing_recursive<M: Marker>(dir: &AbsPath, tree: &DirTree, matches: &M) -> (found:
    Option<AbsPath>)
    ensures
        found.deep_view() == locate(tree@, dir@, matches),
        forall|steps: nat|
            nearest_marked(tree@, dir@, matches, steps) ==> found.deep_view() == Some(
                dir@.ancestor(steps),
            ),
        (forall|steps: nat|
            steps <= dir@.depth() ==> !marked(tree@, #[trigger] dir@.ancestor(steps), matches))
            ==> found is None,
{
    let mut found: Option<AbsPath> = None;
    let mut at = dir.clone();
    loop
        invariant_except_break
            locate(tree@, at@, matches) == locate(tree@, dir@, matches),
        ensures
            found.deep_view() == locate(tree@, dir@, matches),
        decreases at@.depth(),
    {
        let entries = tree.list(&at);
        proof {
            lemma_marked_by_listing(tree@, at@, matches);
            lemma_locate_step(tree@, at@, matches);
        }
        match walk_step(at, &entries, matches) {
            Walk::Found(here) => {
                found = Some(here);
                break;
            },
            Walk::Ascend(up) => {
                at = up;
            },
            Walk::Exhausted => {
                found = None;
                break;
            },
        }
    }
    proof {
        assert forall|steps: nat| nearest_marked(tree@, dir@, matches, steps) implies locate(
            tree@,
            dir@,
            matches,
        ) == Some(dir@.ancestor(steps)) by {
            lemma_locate_nearest(tree@, dir@, matches, steps);
        }
    }
    found
}

} // verus!
