//! An in-crate model of the one filesystem operation the export handler
//! performs: create-or-truncate a file at a path and write bytes to it.
//! A store is a map from paths to file contents; writing the same path again
//! overwrites, never appends.

use vstd::prelude::*;

verus! {

/// The files written so far, each path holding the bytes last written to it.
pub struct FileStore {
    entries: Vec<(String, Vec<u8>)>,
}

/// The map described by a sequence of writes: a later write to a path
/// overwrites an earlier one.
spec fn entries_map(entries: Seq<(String, Vec<u8>)>) -> Map<Seq<char>, Seq<u8>>
    decreases entries.len(),
{
    if entries.len() == 0 {
        Map::empty()
    } else {
        entries_map(entries.drop_last()).insert(entries.last().0@, entries.last().1@)
    }
}

impl View for FileStore {
    type V = Map<Seq<char>, Seq<u8>>;

    closed spec fn view(&self) -> Map<Seq<char>, Seq<u8>> {
        entries_map(self.entries@)
    }
}

impl FileStore {
    /// A store with no files.
    pub fn new() -> (s: Self)
        ensures
            s@ == Map::<Seq<char>, Seq<u8>>::empty(),
    {
        FileStore { entries: Vec::new() }
    }

    /// Create or overwrite the file at `path` with exactly `contents`.
    pub fn write(&mut self, path: String, contents: Vec<u8>)
        ensures
            final(self)@ == old(self)@.insert(path@, contents@),
    {
        let ghost before = self.entries@;
        self.entries.push((path, contents));
        proof {
            assert(self.entries@.drop_last() =~= before);
        }
    }

    /// The contents of the file at `path`, if one has been written.
    pub fn read(&self, path: &String) -> (r: Option<&Vec<u8>>)
        ensures
            match r {
                Some(v) => self@.contains_key(path@) && v@ == self@[path@],
                None => !self@.contains_key(path@),
            },
    {
        let mut i: usize = self.entries.len();
        proof {
            assert(self.entries@.take(i as int) =~= self.entries@);
        }
        while i > 0
            invariant
                i <= self.entries@.len(),
                lookup(self.entries@, path@) == lookup(self.entries@.take(i as int), path@),
            decreases i,
        {
            i = i - 1;
            proof {
                let entries = self.entries@;
                let prefix = entries.take(i as int + 1);
                assert(prefix.drop_last() =~= entries.take(i as int));
                assert(prefix.last() == entries[i as int]);
                assert(entries_map(prefix) == entries_map(entries.take(i as int)).insert(
                    entries[i as int].0@,
                    entries[i as int].1@,
                ));
            }
            if self.entries[i].0.eq(path) {
                return Some(&self.entries[i].1);
            }
        }
        proof {
            assert(self.entries@.take(0).len() == 0);
            assert(!entries_map(self.entries@.take(0)).contains_key(path@));
        }
        None
    }
}

/// The file at `path` after the writes in `entries`, if any write named it.
spec fn lookup(entries: Seq<(String, Vec<u8>)>, path: Seq<char>) -> Option<Seq<u8>> {
    if entries_map(entries).contains_key(path) {
        Some(entries_map(entries)[path])
    } else {
        None
    }
}

} // verus!
