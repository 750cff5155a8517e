//! A directory tree held in memory: the paths of its files and directories.

use vstd::prelude::*;
use crate::path::{AbsPath, PathView};

verus! {

/// A directory tree as a list of the absolute paths of its entries, files
/// and directories alike. A directory of which the list holds no entry is
/// empty.
#[derive(Debug)]
pub struct DirTree {
    pub paths: Vec<AbsPath>,
}

impl View for DirTree {
    type V = Seq<PathView>;

    open spec fn view(&self) -> Seq<PathView> {
        self.paths.deep_view()
    }
}

/// The names of the immediate children of `dir` among `paths`, in the order
/// of `paths`.
pub open spec fn children(paths: Seq<PathView>, dir: PathView) -> Seq<Seq<char>> {
    paths.filter(|p: PathView| p.parent() == Some(dir)).map_values(|p: PathView| p.names.last())
}

impl DirTree {
    /// The names of the immediate children of `dir`, in the order in which
    /// the tree holds them. Entries further down are left out.
    pub fn list(&self, dir: &AbsPath) -> (names: Vec<String>)
        ensures
            names.deep_view() == children(self@, dir@),
    {
        let mut names: Vec<String> = Vec::new();
        let mut i: usize = 0;
        assert(names.deep_view() =~= children(self@.take(0), dir@)) by {
            reveal(Seq::filter);
        }
        while i < self.paths.len()
            invariant
                i <= self.paths.len(),
                names.deep_view() == children(self@.take(i as int), dir@),
            decreases self.paths.len() - i,
        {
            let ghost before = names.deep_view();
            let path = &self.paths[i];
            let inside = match path.parent() {
                Some(up) => up == *dir,
                None => false,
            };
            if inside {
                names.push(path.names[path.names.len() - 1].clone());
            }
            proof {
                let sofar = self@.take(i as int);
                let next = self@.take(i as int + 1);
                assert(next.drop_last() == sofar);
                reveal(Seq::filter);
                if inside {
                    assert(names.deep_view() =~= before.push(path@.names.last()));
                }
            }
            i = i + 1;
        }
        assert(self@.take(self.paths.len() as int) == self@);
        names
    }
}

} // verus!
