//! The get-or-create material store: one named byte blob per path, with
//! first-write-wins idempotence. Once a blob is created it is never changed
//! or removed through this store.

use vstd::prelude::*;
use vstd::slice::slice_to_vec;

verus! {

/// The association map described by a sequence of (path, content) entries;
/// a later entry wins, though a well-formed store never repeats a path.
pub open spec fn map_of(entries: Seq<(String, Vec<u8>)>) -> Map<Seq<char>, Seq<u8>>
    decreases entries.len(),
{
    if entries.len() == 0 {
        Map::empty()
    } else {
        map_of(entries.drop_last()).insert(entries.last().0@, entries.last().1@)
    }
}

/// Every blob present before is still present, unchanged: no operation of the
/// store ever overwrites or deletes stored material.
pub open spec fn preserves_existing(
    before: Map<Seq<char>, Seq<u8>>,
    after: Map<Seq<char>, Seq<u8>>,
) -> bool {
    forall|p: Seq<char>| #[trigger]
        before.contains_key(p) ==> after.contains_key(p) && after[p] == before[p]
}

/// The store changed at most at the paths of `touched`: everything else keeps
/// its membership and content.
pub open spec fn touches_only(
    before: Map<Seq<char>, Seq<u8>>,
    after: Map<Seq<char>, Seq<u8>>,
    touched: Set<Seq<char>>,
) -> bool {
    forall|p: Seq<char>|
        !touched.contains(p) ==> (#[trigger] after.contains_key(p) <==> before.contains_key(p))
            && (after.contains_key(p) ==> after[p] == before[p])
}

/// No path outside `touched` was created: every path of the new store was
/// already present or belongs to `touched`.
pub open spec fn adds_at_most(
    before: Map<Seq<char>, Seq<u8>>,
    after: Map<Seq<char>, Seq<u8>>,
    touched: Set<Seq<char>>,
) -> bool {
    forall|p: Seq<char>| #[trigger]
        after.contains_key(p) ==> before.contains_key(p) || touched.contains(p)
}

/// An in-memory image of the filesystem subtree that holds key material:
/// a working directory and one immutable byte blob per absolute path.
pub struct MaterialStore {
    working_directory: String,
    entries: Vec<(String, Vec<u8>)>,
}

impl MaterialStore {
    /// The injected working directory that absolute paths are resolved under.
    pub closed spec fn working_dir(&self) -> Seq<char> {
        self.working_directory@
    }

    /// The stored material, path to content.
    pub closed spec fn contents(&self) -> Map<Seq<char>, Seq<u8>> {
        map_of(self.entries@)
    }

    /// No path occurs twice.
    pub closed spec fn wf(&self) -> bool {
        forall|i: int, j: int|
            0 <= i < j < self.entries@.len() ==> self.entries@[i].0@ != self.entries@[j].0@
    }

    /// How many blobs the store holds.
    pub closed spec fn entry_count(&self) -> nat {
        self.entries@.len()
    }

    /// An empty store rooted at the given working directory.
    pub fn new(working_directory: String) -> (r: Self)
        ensures
            r.wf(),
            r.working_dir() == working_directory@,
            r.contents() == Map::<Seq<char>, Seq<u8>>::empty(),
            r.entry_count() == 0,
    {
        MaterialStore { working_directory, entries: Vec::new() }
    }

    /// Resolves a path against the working directory by concatenation.
    pub fn get_static_filepath(&self, path: &str) -> (r: Result<String, String>)
        ensures
            r matches Ok(p) && p@ == self.working_dir() + path@,
    {
        let mut absolute = self.working_directory.clone();
        absolute.append(path);
        Ok(absolute)
    }

    fn index_of(&self, path: &String) -> (r: Option<usize>)
        ensures
            match r {
                Some(i) => i < self.entries@.len() && self.entries@[i as int].0@ == path@,
                None => forall|j: int|
                    0 <= j < self.entries@.len() ==> self.entries@[j].0@ != path@,
            },
    {
        let n = self.entries.len();
        let mut i: usize = 0;
        while i < n
            invariant
                i <= n,
                n == self.entries@.len(),
                forall|j: int| 0 <= j < i ==> self.entries@[j].0@ != path@,
            decreases n - i,
        {
            if self.entries[i].0 == *path {
                return Some(i);
            }
            i += 1;
        }
        None
    }

    /// Whether material exists at the given path.
    pub fn does_file_exist(&self, path: &str) -> (r: bool)
        ensures
            r == self.contents().contains_key(path@),
    {
        let key = String::from_str(path);
        let found = self.index_of(&key);
        proof {
            lemma_map_of_contains(self.entries@, path@);
        }
        found.is_some()
    }

    /// Reads the material at the given path; fails when none is stored there.
    pub fn read_file(&self, path: &str) -> (r: Result<Vec<u8>, String>)
        requires
            self.wf(),
        ensures
            r is Ok <==> self.contents().contains_key(path@),
            r matches Ok(v) ==> v@ == self.contents()[path@],
    {
        let key = String::from_str(path);
        proof {
            lemma_map_of_contains(self.entries@, path@);
        }
        match self.index_of(&key) {
            Some(i) => {
                proof {
                    lemma_map_of_at(self.entries@, i as int);
                }
                Ok(slice_to_vec(self.entries[i].1.as_slice()))
            },
            None => Err(String::from_str("unable to read from file: no such file")),
        }
    }

    /// The get-or-create primitive: content already stored at `path` is
    /// returned verbatim and `content` is ignored; otherwise `content` is
    /// stored and returned. Stored material is never overwritten.
    pub fn read_or_create_and_write(&mut self, path: &str, content: &[u8]) -> (r: Result<
        Vec<u8>,
        String,
    >)
        requires
            old(self).wf(),
        ensures
            final(self).wf(),
            final(self).working_dir() == old(self).working_dir(),
            preserves_existing(old(self).contents(), final(self).contents()),
            r matches Ok(v) && final(self).contents() == old(self).contents().insert(path@, v@),
            r matches Ok(v) ==> (if old(self).contents().contains_key(path@) {
                v@ == old(self).contents()[path@] && final(self).contents() == old(self).contents()
            } else {
                v@ == content@
            }),
    {
        let key = String::from_str(path);
        proof {
            lemma_map_of_contains(self.entries@, path@);
        }
        match self.index_of(&key) {
            Some(i) => {
                proof {
                    lemma_map_of_at(self.entries@, i as int);
                    assert(self.contents() =~= self.contents().insert(
                        path@,
                        self.entries@[i as int].1@,
                    ));
                }
                Ok(slice_to_vec(self.entries[i].1.as_slice()))
            },
            None => {
                let stored = slice_to_vec(content);
                let ghost pre = self.entries@;
                self.entries.push((key, stored));
                proof {
                    assert(self.entries@.drop_last() =~= pre);
                }
                Ok(slice_to_vec(content))
            },
        }
    }

    /// How many blobs the store holds.
    pub fn len(&self) -> (r: usize)
        ensures
            r == self.entry_count(),
    {
        self.entries.len()
    }

    /// The path and content of the entry at the given position, for callers
    /// that mirror the store onto some other medium.
    pub fn entry_at(&self, i: usize) -> (r: (&String, &Vec<u8>))
        requires
            i < self.entry_count(),
            self.wf(),
        ensures
            self.contents().contains_key(r.0@),
            self.contents()[r.0@] == r.1@,
    {
        proof {
            lemma_map_of_at(self.entries@, i as int);
        }
        (&self.entries[i].0, &self.entries[i].1)
    }
}

proof fn lemma_map_of_contains(entries: Seq<(String, Vec<u8>)>, k: Seq<char>)
    ensures
        map_of(entries).contains_key(k) <==> exists|i: int|
            0 <= i < entries.len() && entries[i].0@ == k,
    decreases entries.len(),
{
    if entries.len() > 0 {
        lemma_map_of_contains(entries.drop_last(), k);
        if entries.last().0@ == k {
            assert(entries[entries.len() - 1].0@ == k);
        } else if map_of(entries).contains_key(k) {
            let i = choose|i: int| 0 <= i < entries.drop_last().len() && entries.drop_last()[
                i
            ].0@ == k;
            assert(entries[i].0@ == k);
        } else {
            assert(forall|i: int|
                0 <= i < entries.drop_last().len() ==> entries.drop_last()[i].0@ != k);
            assert forall|i: int| 0 <= i < entries.len() implies entries[i].0@ != k by {
                if i < entries.len() - 1 {
                    assert(entries.drop_last()[i].0@ != k);
                }
            }
        }
    }
}

proof fn lemma_map_of_at(entries: Seq<(String, Vec<u8>)>, i: int)
    requires
        0 <= i < entries.len(),
        forall|a: int, b: int| 0 <= a < b < entries.len() ==> entries[a].0@ != entries[b].0@,
    ensures
        map_of(entries).contains_key(entries[i].0@),
        map_of(entries)[entries[i].0@] == entries[i].1@,
    decreases entries.len(),
{
    if i == entries.len() - 1 {
        assert(entries.last() == entries[i]);
    } else {
        lemma_map_of_at(entries.drop_last(), i);
        assert(entries.drop_last()[i] == entries[i]);
        assert(entries.last().0@ != entries[i].0@);
    }
}

} // verus!
