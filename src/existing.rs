//! The files that an earlier export left in the output tree.
//!
//! One value of [`ExistingFiles`] is filled once from a scan of the output root,
//! and is then read and shrunk by the reconciliation mappers, which get it by
//! `&mut` from the single owner that runs the pipeline. What remains at the end
//! is what no task of the new export targets.
use crate::task::{create_delete_tasks, ExportTask, ExportTaskView};
use vstd::prelude::*;

verus! {

pub struct ExistingFiles {
    files: Vec<String>,
}

/// The paths that a list of strings holds.
pub open spec fn path_set(v: Seq<String>) -> Set<Seq<char>> {
    Set::new(|p: Seq<char>| exists|i: int| 0 <= i < v.len() && #[trigger] v[i]@ == p)
}

proof fn lemma_path_set_empty(v: Seq<String>)
    requires
        v.len() == 0,
    ensures
        path_set(v) == Set::<Seq<char>>::empty(),
{
    assert(path_set(v) =~= Set::<Seq<char>>::empty());
}

proof fn lemma_path_set_push(v: Seq<String>, x: String)
    ensures
        path_set(v.push(x)) == path_set(v).insert(x@),
{
    let w = v.push(x);
    assert forall|p: Seq<char>| path_set(w).contains(p) == path_set(v).insert(x@).contains(p) by {
        if path_set(w).contains(p) {
            let i = choose|i: int| 0 <= i < w.len() && #[trigger] w[i]@ == p;
            if i < v.len() {
                assert(v[i]@ == p);
            }
        }
        if path_set(v).contains(p) {
            let i = choose|i: int| 0 <= i < v.len() && #[trigger] v[i]@ == p;
            assert(w[i]@ == p);
        }
        if p == x@ {
            assert(w[v.len() as int]@ == p);
        }
    }
    assert(path_set(w) =~= path_set(v).insert(x@));
}

impl View for ExistingFiles {
    type V = Set<Seq<char>>;

    closed spec fn view(&self) -> Set<Seq<char>> {
        path_set(self.files@)
    }
}

impl ExistingFiles {
    /// The set of the given paths.
    pub fn new(files: Vec<String>) -> (r: ExistingFiles)
        ensures
            r@ == path_set(files@),
    {
        ExistingFiles { files }
    }

    /// Tells whether `path` is in the set.
    pub fn contains(&self, path: &String) -> (r: bool)
        ensures
            r == self@.contains(path@),
    {
        let mut i: usize = 0;
        while i < self.files.len()
            invariant
                i <= self.files@.len(),
                forall|j: int| 0 <= j < i ==> #[trigger] self.files@[j]@ != path@,
            decreases self.files.len() - i,
        {
            if self.files[i] == *path {
                assert(self.files@[i as int]@ == path@);
                return true;
            }
            i = i + 1;
        }
        false
    }

    /// Takes `path` out of the set.
    pub fn remove(&mut self, path: &String)
        ensures
            final(self)@ == old(self)@.remove(path@),
    {
        let mut kept: Vec<String> = Vec::new();
        let mut i: usize = 0;
        let ghost old_files = self.files@;
        proof {
            lemma_path_set_empty(kept@);
            assert(old_files.subrange(0, 0).len() == 0);
            lemma_path_set_empty(old_files.subrange(0, 0));
        }
        while i < self.files.len()
            invariant
                i <= self.files@.len(),
                self.files@ == old_files,
                path_set(kept@) == path_set(old_files.subrange(0, i as int)).remove(path@),
            decreases self.files.len() - i,
        {
            let f = self.files[i].clone();
            let ghost before = kept@;
            proof {
                assert(old_files.subrange(0, i + 1) =~= old_files.subrange(0, i as int).push(f));
                lemma_path_set_push(old_files.subrange(0, i as int), f);
            }
            if f != *path {
                kept.push(f);
                proof {
                    lemma_path_set_push(before, f);
                }
            }
            assert(path_set(kept@) =~= path_set(old_files.subrange(0, i + 1)).remove(path@));
            i = i + 1;
        }
        assert(old_files.subrange(0, i as int) =~= old_files);
        self.files = kept;
    }

    /// The paths of the set, one string each.
    pub fn paths(&self) -> (r: Vec<String>)
        ensures
            path_set(r@) == self@,
    {
        let mut r: Vec<String> = Vec::new();
        let mut i: usize = 0;
        while i < self.files.len()
            invariant
                i <= self.files@.len(),
                r@.len() == i,
                forall|j: int| 0 <= j < i ==> #[trigger] r@[j]@ == self.files@[j]@,
            decreases self.files.len() - i,
        {
            r.push(self.files[i].clone());
            i = i + 1;
        }
        assert forall|p: Seq<char>| path_set(r@).contains(p) == self@.contains(p) by {
            if path_set(r@).contains(p) {
                let j = choose|j: int| 0 <= j < r@.len() && #[trigger] r@[j]@ == p;
                assert(self.files@[j]@ == p);
            }
            if self@.contains(p) {
                let j = choose|j: int| 0 <= j < self.files@.len() && #[trigger] self.files@[j]@ == p;
                assert(r@[j]@ == p);
            }
        }
        assert(path_set(r@) =~= self@);
        r
    }

    /// One deletion task for each file left in the set.
    pub fn into_delete_tasks(self) -> (r: Vec<ExportTask>)
        ensures
            forall|i: int| 0 <= i < r@.len() ==> (#[trigger] r@[i]@ is Delete),
            Set::new(|p: Seq<char>| exists|i: int| 0 <= i < r@.len() && #[trigger] r@[i]@ == ExportTaskView::Delete(p)) == self@,
    {
        let paths = self.paths();
        let r = create_delete_tasks(paths);
        assert forall|p: Seq<char>|
            (exists|i: int| 0 <= i < r@.len() && #[trigger] r@[i]@ == ExportTaskView::Delete(p)) == self@.contains(p) by {
            if exists|i: int| 0 <= i < r@.len() && #[trigger] r@[i]@ == ExportTaskView::Delete(p) {
                let i = choose|i: int| 0 <= i < r@.len() && #[trigger] r@[i]@ == ExportTaskView::Delete(p);
                assert(paths@[i]@ == p);
                assert(path_set(paths@).contains(p));
            }
            if self@.contains(p) {
                assert(path_set(paths@).contains(p));
                let i = choose|i: int| 0 <= i < paths@.len() && #[trigger] paths@[i]@ == p;
                assert(r@[i]@ == ExportTaskView::Delete(p));
            }
        }
        assert(Set::new(|p: Seq<char>| exists|i: int| 0 <= i < r@.len() && #[trigger] r@[i]@ == ExportTaskView::Delete(p)) =~= self@);
        r
    }
}

} // verus!
