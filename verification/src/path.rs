//! Absolute paths as the launcher sees them: the text of a filesystem root
//! followed by the names that lead down from it.

use vstd::prelude::*;
use vstd::string::StringExecFns;
use vstd::std_specs::cmp::PartialEqSpecImpl;
use crate::text::{join, joined};

verus! {

/// The mathematical value of an absolute path.
pub struct PathView {
    /// The filesystem root as the platform writes it, `/` or `C:\`.
    pub anchor: Seq<char>,
    /// The names that lead from the root down to the entry, outermost first.
    pub names: Seq<Seq<char>>,
}

impl PathView {
    /// The number of names below the filesystem root.
    pub open spec fn depth(self) -> nat {
        self.names.len()
    }

    /// The entry called `name` directly inside this directory.
    pub open spec fn child(self, name: Seq<char>) -> PathView {
        PathView { anchor: self.anchor, names: self.names.push(name) }
    }

    /// The directory that holds this entry; the filesystem root has none.
    pub open spec fn parent(self) -> Option<PathView> {
        if self.names.len() == 0 {
            None
        } else {
            Some(PathView { anchor: self.anchor, names: self.names.drop_last() })
        }
    }

    /// The last name of the path; the filesystem root has none.
    pub open spec fn file_name(self) -> Option<Seq<char>> {
        if self.names.len() == 0 {
            None
        } else {
            Some(self.names.last())
        }
    }

    /// The directory reached by taking the parent `steps` times: the path
    /// itself for 0, the filesystem root for `depth()`.
    pub open spec fn ancestor(self, steps: nat) -> PathView
        recommends
            steps <= self.depth(),
    {
        PathView { anchor: self.anchor, names: self.names.take(self.names.len() - steps) }
    }

    /// The path written out, with `sep` between its names.
    pub open spec fn text(self, sep: Seq<char>) -> Seq<char> {
        self.anchor + joined(self.names, sep)
    }
}

/// An entry is written as its directory, then the separator, then its own
/// name; directly below the filesystem root the root's text ends the
/// directory and no separator is added.
pub proof fn lemma_child_text(dir: PathView, name: Seq<char>, sep: Seq<char>)
    ensures
        dir.child(name).text(sep) == if dir.names.len() == 0 {
            dir.anchor + name
        } else {
            dir.text(sep) + sep + name
        },
{
    let entry = dir.child(name);
    assert(entry.names.drop_last() == dir.names);
    if dir.names.len() == 0 {
        assert(joined(entry.names, sep) == name);
    } else {
        assert(joined(entry.names, sep) == joined(dir.names, sep) + sep + name);
        assert(dir.anchor + (joined(dir.names, sep) + sep + name) == dir.anchor + joined(
            dir.names,
            sep,
        ) + sep + name);
    }
}

/// An absolute path: a filesystem root and the names below it.
#[derive(Debug)]
pub struct AbsPath {
    /// The filesystem root as the platform writes it, `/` or `C:\`.
    pub anchor: String,
    /// The names that lead from the root down to the entry, outermost first.
    pub names: Vec<String>,
}

impl View for AbsPath {
    type V = PathView;

    open spec fn view(&self) -> PathView {
        PathView { anchor: self.anchor@, names: self.names.deep_view() }
    }
}

impl DeepView for AbsPath {
    type V = PathView;

    open spec fn deep_view(&self) -> PathView {
        self@
    }
}

impl AbsPath {
    /// The filesystem root written as `anchor`.
    pub fn root(anchor: &str) -> (p: AbsPath)
        ensures
            p@ == (PathView { anchor: anchor@, names: Seq::empty() }),
    {
        let p = AbsPath { anchor: String::from_str(anchor), names: Vec::new() };
        assert(p@.names =~= Seq::empty());
        p
    }

    /// The entry called `name` directly inside this directory.
    pub fn child(&self, name: &str) -> (p: AbsPath)
        ensures
            p@ == self@.child(name@),
    {
        let mut p = self.clone();
        p.names.push(String::from_str(name));
        assert(p@.names =~= self@.names.push(name@));
        p
    }

    /// The directory that holds this entry, or `None` for the filesystem
    /// root.
    pub fn parent(&self) -> (p: Option<AbsPath>)
        ensures
            p.deep_view() == self@.parent(),
    {
        if self.names.len() == 0 {
            None
        } else {
            let mut p = self.clone();
            p.names.pop();
            assert(p@.names =~= self@.names.drop_last());
            Some(p)
        }
    }

    /// The last name of the path, or `None` for the filesystem root.
    pub fn file_name(&self) -> (name: Option<&String>)
        ensures
            match name {
                Some(n) => self@.file_name() == Some(n@),
                None => self@.file_name() is None,
            },
    {
        if self.names.len() == 0 {
            None
        } else {
            Some(&self.names[self.names.len() - 1])
        }
    }

    /// The path written out, with `sep` between its names.
    pub fn to_text(&self, sep: &str) -> (out: String)
        ensures
            out@ == self@.text(sep@),
    {
        let mut out = self.anchor.clone();
        let below = join(&self.names, sep);
        out.append(below.as_str());
        out
    }
}

impl Clone for AbsPath {
    fn clone(&self) -> (copy: AbsPath)
        ensures
            copy@ == self@,
    {
        let mut names: Vec<String> = Vec::new();
        let mut i: usize = 0;
        while i < self.names.len()
            invariant
                i <= self.names.len(),
                names.len() == i,
                forall|j: int| 0 <= j < i ==> names[j]@ == self.names[j]@,
            decreases self.names.len() - i,
        {
            names.push(self.names[i].clone());
            i = i + 1;
        }
        let copy = AbsPath { anchor: self.anchor.clone(), names };
        assert(copy@.names =~= self@.names);
        copy
    }
}

impl PartialEq for AbsPath {
    fn eq(&self, other: &AbsPath) -> (same: bool) {
        if self.anchor != other.anchor || self.names.len() != other.names.len() {
            assert(self@.names.len() == self.names.len());
            assert(other@.names.len() == other.names.len());
            return false;
        }
        let mut i: usize = 0;
        while i < self.names.len()
            invariant
                i <= self.names.len(),
                self.names.len() == other.names.len(),
                forall|j: int| 0 <= j < i ==> self.names[j]@ == other.names[j]@,
            decreases self.names.len() - i,
        {
            if self.names[i] != other.names[i] {
                assert(self@.names[i as int] != other@.names[i as int]);
                return false;
            }
            i = i + 1;
        }
        assert(self@.names =~= other@.names);
        true
    }
}

impl PartialEqSpecImpl for AbsPath {
    open spec fn obeys_eq_spec() -> bool {
        true
    }

    open spec fn eq_spec(&self, other: &AbsPath) -> bool {
        self@ == other@
    }
}

impl Eq for AbsPath {

}

} // verus!
