//! The path registry: an ordered record of every settings file path touched
//! by a successful save or load. Saves append unconditionally, loads append
//! only paths not yet present, and deletes remove the matching entries.

use crate::paths::join_path;
use crate::paths::lemma_parent_of_join;
use crate::paths::parent_directory;
use crate::paths::parent_of;
use vstd::prelude::*;

verus! {

/// What recording a load leaves behind: the sequence unchanged when the path
/// is already present, and with the path appended otherwise.
pub open spec fn insert_unique(s: Seq<Seq<char>>, path: Seq<char>) -> Seq<Seq<char>> {
    if s.contains(path) {
        s
    } else {
        s.push(path)
    }
}

/// The sequence with every entry equal to `path` removed.
pub open spec fn without_file(s: Seq<Seq<char>>, path: Seq<char>) -> Seq<Seq<char>>
    decreases s.len(),
{
    if s.len() == 0 {
        Seq::empty()
    } else {
        let rest = without_file(s.drop_last(), path);
        if s.last() == path {
            rest
        } else {
            rest.push(s.last())
        }
    }
}

/// The sequence with every entry whose parent is `directory` removed.
pub open spec fn without_directory(s: Seq<Seq<char>>, directory: Seq<char>) -> Seq<Seq<char>>
    decreases s.len(),
{
    if s.len() == 0 {
        Seq::empty()
    } else {
        let rest = without_directory(s.drop_last(), directory);
        if parent_of(s.last()) == Some(directory) {
            rest
        } else {
            rest.push(s.last())
        }
    }
}

/// How many entries of the sequence equal `path`.
pub open spec fn occurrences(s: Seq<Seq<char>>, path: Seq<char>) -> nat
    decreases s.len(),
{
    if s.len() == 0 {
        0
    } else {
        occurrences(s.drop_last(), path) + (if s.last() == path {
            1nat
        } else {
            0nat
        })
    }
}

/// The record of settings file paths touched by successful operations. It is
/// owned by the host application and handed to each store operation.
pub struct PathRegistry {
    paths: Vec<String>,
}

impl View for PathRegistry {
    type V = Seq<Seq<char>>;

    closed spec fn view(&self) -> Seq<Seq<char>> {
        Seq::new(self.paths@.len(), |i: int| self.paths@[i]@)
    }
}

impl PathRegistry {
    /// Creates an empty registry; a process starts with no recorded paths.
    pub fn new() -> (r: PathRegistry)
        ensures
            r@ == Seq::<Seq<char>>::empty(),
    {
        let r = PathRegistry { paths: Vec::new() };
        proof {
            assert(r@ =~= Seq::<Seq<char>>::empty());
        }
        r
    }

    /// How many paths are recorded.
    pub fn len(&self) -> (n: usize)
        ensures
            n == self@.len(),
    {
        self.paths.len()
    }

    /// The recorded path at position `i`.
    pub fn path_at(&self, i: usize) -> (p: &String)
        requires
            i < self@.len(),
        ensures
            p@ == self@[i as int],
    {
        &self.paths[i]
    }

    /// Whether `path` is recorded.
    pub fn contains(&self, path: &String) -> (b: bool)
        ensures
            b == self@.contains(path@),
    {
        let mut i: usize = 0;
        while i < self.paths.len()
            invariant
                i <= self.paths.len(),
                self@.len() == self.paths@.len(),
                forall|j: int| 0 <= j < i ==> self@[j] != path@,
            decreases self.paths.len() - i,
        {
            if self.paths[i] == *path {
                assert(self@[i as int] == path@);
                return true;
            }
            i = i + 1;
        }
        false
    }

    /// Records a successful save: the path is appended whether or not it is
    /// already present, so repeated saves leave repeated entries.
    pub fn record_save(&mut self, path: String)
        ensures
            final(self)@ == old(self)@.push(path@),
    {
        self.paths.push(path);
        proof {
            assert(self@ =~= old(self)@.push(path@));
        }
    }

    /// Records a successful load: the path is appended only when it is not
    /// yet present.
    pub fn record_load(&mut self, path: String)
        ensures
            final(self)@ == insert_unique(old(self)@, path@),
    {
        if !self.contains(&path) {
            self.paths.push(path);
            proof {
                assert(self@ =~= old(self)@.push(path@));
            }
        }
    }

    /// Removes every entry equal to `path`.
    pub fn remove_file(&mut self, path: &String)
        ensures
            final(self)@ == without_file(old(self)@, path@),
    {
        let ghost before = self@;
        let mut kept: Vec<String> = Vec::new();
        let mut i: usize = 0;
        while i < self.paths.len()
            invariant
                i <= self.paths.len(),
                before == self@,
                before.len() == self.paths@.len(),
                kept.deep_view() == without_file(before.subrange(0, i as int), path@),
            decreases self.paths.len() - i,
        {
            proof {
                assert(before.subrange(0, i + 1).drop_last() =~= before.subrange(0, i as int));
                assert(before.subrange(0, i + 1).last() == before[i as int]);
            }
            if self.paths[i] != *path {
                kept.push(self.paths[i].clone());
                proof {
                    assert(kept.deep_view() =~= without_file(before.subrange(0, i + 1), path@));
                }
            }
            i = i + 1;
        }
        proof {
            assert(before.subrange(0, before.len() as int) =~= before);
        }
        self.paths = kept;
        proof {
            assert(self@ =~= self.paths.deep_view());
        }
    }

    /// Removes every entry whose parent directory is `directory`.
    pub fn remove_directory(&mut self, directory: &String)
        ensures
            final(self)@ == without_directory(old(self)@, directory@),
    {
        let ghost before = self@;
        let mut kept: Vec<String> = Vec::new();
        let mut i: usize = 0;
        while i < self.paths.len()
            invariant
                i <= self.paths.len(),
                before == self@,
                before.len() == self.paths@.len(),
                kept.deep_view() == without_directory(before.subrange(0, i as int), directory@),
            decreases self.paths.len() - i,
        {
            proof {
                assert(before.subrange(0, i + 1).drop_last() =~= before.subrange(0, i as int));
                assert(before.subrange(0, i + 1).last() == before[i as int]);
            }
            let keep = match parent_directory(self.paths[i].as_str()) {
                None => true,
                Some(parent) => parent != *directory,
            };
            if keep {
                kept.push(self.paths[i].clone());
                proof {
                    assert(kept.deep_view() =~= without_directory(before.subrange(0, i + 1), directory@));
                }
            }
            i = i + 1;
        }
        proof {
            assert(before.subrange(0, before.len() as int) =~= before);
        }
        self.paths = kept;
        proof {
            assert(self@ =~= self.paths.deep_view());
        }
    }
}

/// An entry occurs in a sequence exactly when it occurs there a positive
/// number of times.
proof fn lemma_occurrences_zero(s: Seq<Seq<char>>, path: Seq<char>)
    ensures
        (occurrences(s, path) == 0) <==> !s.contains(path),
    decreases s.len(),
{
    broadcast use vstd::seq_lib::group_seq_properties;

    if s.len() > 0 {
        lemma_occurrences_zero(s.drop_last(), path);
        assert(s =~= s.drop_last().push(s.last()));
    }
}

/// Law: saves do not deduplicate — recording the same path by two saves
/// leaves two more entries equal to it than before.
pub proof fn lemma_save_appends_duplicates(s: Seq<Seq<char>>, path: Seq<char>)
    ensures
        occurrences(s.push(path).push(path), path) == occurrences(s, path) + 2,
{
    assert(s.push(path).drop_last() =~= s);
    assert(s.push(path).push(path).drop_last() =~= s.push(path));
    assert(occurrences(s.push(path), path) == occurrences(s, path) + 1);
}

/// Law: loads deduplicate — recording a path by a second load changes
/// nothing, and recording a path that was never recorded leaves exactly one
/// entry equal to it.
pub proof fn lemma_load_deduplicates(s: Seq<Seq<char>>, path: Seq<char>)
    ensures
        insert_unique(insert_unique(s, path), path) == insert_unique(s, path),
        !s.contains(path) ==> occurrences(insert_unique(s, path), path) == 1,
{
    broadcast use vstd::seq_lib::group_seq_properties;

    if !s.contains(path) {
        assert(s.push(path).contains(path));
        lemma_occurrences_zero(s, path);
        assert(s.push(path).drop_last() =~= s);
    }
}

/// Law: removing a file's entries keeps exactly the entries that differ
/// from its path.
pub proof fn lemma_without_file_membership(s: Seq<Seq<char>>, path: Seq<char>, q: Seq<char>)
    ensures
        without_file(s, path).contains(q) <==> (s.contains(q) && q != path),
    decreases s.len(),
{
    broadcast use vstd::seq_lib::group_seq_properties;

    if s.len() > 0 {
        lemma_without_file_membership(s.drop_last(), path, q);
        assert(s =~= s.drop_last().push(s.last()));
    }
}

/// Law: removing a directory's entries keeps exactly the entries whose
/// parent is another directory.
pub proof fn lemma_without_directory_membership(
    s: Seq<Seq<char>>,
    directory: Seq<char>,
    q: Seq<char>,
)
    ensures
        without_directory(s, directory).contains(q) <==> (s.contains(q) && parent_of(q)
            != Some(directory)),
    decreases s.len(),
{
    broadcast use vstd::seq_lib::group_seq_properties;

    if s.len() > 0 {
        lemma_without_directory_membership(s.drop_last(), directory, q);
        assert(s =~= s.drop_last().push(s.last()));
    }
}

/// Law: deleting an application's directory is complete for the registry —
/// once its entries are removed, the entry of any file name stored directly
/// in that directory is gone.
pub proof fn lemma_delete_completeness(
    s: Seq<Seq<char>>,
    directory: Seq<char>,
    file_name: Seq<char>,
)
    requires
        !file_name.contains('/'),
    ensures
        !without_directory(s, directory).contains(join_path(directory, file_name)),
{
    lemma_parent_of_join(directory, file_name);
    lemma_without_directory_membership(s, directory, join_path(directory, file_name));
}

} // verus!
