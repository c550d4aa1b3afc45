//! A verified model of the file staging and retrieval the pipeline performs:
//! a store of named text files, viewed as a map from path to contents.
//!
//! Staging overwrites the destination fully (creating it if absent, never
//! appending); retrieval fails exactly when the path is absent; deletion
//! removes the path. The binary around the library performs the same
//! operations on the real file system; this model is what the pipeline's
//! contracts and laws are stated over.

use crate::errors::AppError;
use vstd::prelude::*;

verus! {

/// A store of named text files. The view is the map from each path to the
/// contents most recently staged there.
pub struct FileStore {
    entries: Vec<(String, String)>,
}

/// The map an entry list denotes: later entries shadow earlier ones.
pub open spec fn entries_map(s: Seq<(String, String)>) -> Map<Seq<char>, Seq<char>>
    decreases s.len(),
{
    if s.len() == 0 {
        Map::<Seq<char>, Seq<char>>::empty()
    } else {
        entries_map(s.drop_last()).insert(s.last().0@, s.last().1@)
    }
}

/// The entry list with every entry for `key` removed.
pub open spec fn entries_without(s: Seq<(String, String)>, key: Seq<char>) -> Seq<
    (String, String),
>
    decreases s.len(),
{
    if s.len() == 0 {
        s
    } else if s.last().0@ == key {
        entries_without(s.drop_last(), key)
    } else {
        entries_without(s.drop_last(), key).push(s.last())
    }
}

/// Removing every entry for a key removes exactly that key from the denoted
/// map.
proof fn lemma_entries_without(s: Seq<(String, String)>, key: Seq<char>)
    ensures
        entries_map(entries_without(s, key)) == entries_map(s).remove(key),
    decreases s.len(),
{
    if s.len() == 0 {
        assert(entries_map(s).remove(key) =~= entries_map(s));
    } else {
        lemma_entries_without(s.drop_last(), key);
        let last = s.last();
        if last.0@ == key {
            assert(entries_map(s).remove(key) =~= entries_map(s.drop_last()).remove(key));
        } else {
            let w = entries_without(s.drop_last(), key);
            assert(w.push(last).drop_last() =~= w);
            assert(entries_map(s.drop_last()).remove(key).insert(last.0@, last.1@) =~= entries_map(
                s.drop_last(),
            ).insert(last.0@, last.1@).remove(key));
        }
    }
}

impl View for FileStore {
    type V = Map<Seq<char>, Seq<char>>;

    closed spec fn view(&self) -> Map<Seq<char>, Seq<char>> {
        entries_map(self.entries@)
    }
}

impl FileStore {
    /// An empty store: no file exists.
    pub fn new() -> (s: FileStore)
        ensures
            s@ == Map::<Seq<char>, Seq<char>>::empty(),
    {
        FileStore { entries: Vec::new() }
    }

    /// File staging: overwrites the file at `dest` with `content`, creating it
    /// if absent. Never appends: the destination holds exactly `content`
    /// afterwards.
    pub fn write_to_file(&mut self, content: &str, dest: &str)
        ensures
            final(self)@ == old(self)@.insert(dest@, content@),
    {
        self.entries.push((String::from_str(dest), String::from_str(content)));
        proof {
            assert(self.entries@.drop_last() =~= old(self).entries@);
        }
    }

    /// File retrieval: the contents of the file at `path`, failing exactly
    /// when no such file exists.
    pub fn read_from_file(&self, path: &str) -> (r: Result<String, AppError>)
        ensures
            r is Ok <==> self@.contains_key(path@),
            r matches Ok(c) ==> c@ == self@[path@],
            r matches Err(e) ==> e matches AppError::FileNotFound(m) && m@
                == "File not found in given path"@,
    {
        let key = String::from_str(path);
        let mut i = self.entries.len();
        proof {
            assert(self.entries@.subrange(0, i as int) =~= self.entries@);
        }
        while i > 0
            invariant
                i <= self.entries@.len(),
                key@ == path@,
                self@.contains_key(path@) == entries_map(
                    self.entries@.subrange(0, i as int),
                ).contains_key(path@),
                self@.contains_key(path@) ==> self@[path@] == entries_map(
                    self.entries@.subrange(0, i as int),
                )[path@],
            decreases i,
        {
            proof {
                assert(self.entries@.subrange(0, i as int).drop_last() =~= self.entries@.subrange(
                    0,
                    i - 1,
                ));
                assert(self.entries@.subrange(0, i as int).last() == self.entries@[i - 1]);
            }
            if self.entries[i - 1].0 == key {
                return Ok(self.entries[i - 1].1.clone());
            }
            i = i - 1;
        }
        proof {
            assert(self.entries@.subrange(0, 0) =~= Seq::<(String, String)>::empty());
        }
        Err(AppError::FileNotFound(String::from_str("File not found in given path")))
    }

    /// Whether a file exists at `path`.
    pub fn file_exists(&self, path: &str) -> (b: bool)
        ensures
            b == self@.contains_key(path@),
    {
        match self.read_from_file(path) {
            Ok(_) => true,
            Err(_) => false,
        }
    }

    /// Deletes the file at `path`, failing exactly when no such file exists.
    pub fn delete_file(&mut self, path: &str) -> (r: Result<(), AppError>)
        ensures
            final(self)@ == old(self)@.remove(path@),
            r is Ok <==> old(self)@.contains_key(path@),
            r matches Err(e) ==> e matches AppError::FileNotFound(m) && m@
                == "File not found in given path"@,
    {
        let found = self.file_exists(path);
        let key = String::from_str(path);
        let mut kept: Vec<(String, String)> = Vec::new();
        let mut j: usize = 0;
        while j < self.entries.len()
            invariant
                j <= self.entries@.len(),
                key@ == path@,
                self.entries@ == old(self).entries@,
                kept@ == entries_without(self.entries@.subrange(0, j as int), path@),
            decreases self.entries@.len() - j,
        {
            proof {
                assert(self.entries@.subrange(0, j + 1).drop_last() =~= self.entries@.subrange(
                    0,
                    j as int,
                ));
                assert(self.entries@.subrange(0, j + 1).last() == self.entries@[j as int]);
            }
            if !(self.entries[j].0 == key) {
                kept.push((self.entries[j].0.clone(), self.entries[j].1.clone()));
                proof {
                    assert(kept@.last() == self.entries@[j as int]);
                    assert(kept@ =~= entries_without(
                        self.entries@.subrange(0, j + 1),
                        path@,
                    ));
                }
            }
            j = j + 1;
        }
        proof {
            assert(self.entries@.subrange(0, self.entries@.len() as int) =~= self.entries@);
            lemma_entries_without(self.entries@, path@);
        }
        self.entries = kept;
        if found {
            Ok(())
        } else {
            Err(AppError::FileNotFound(String::from_str("File not found in given path")))
        }
    }
}

/// Idempotence of file staging: staging twice in succession to the same
/// destination leaves the destination holding exactly the second content — no
/// append, no residue of the first.
pub proof fn lemma_staging_idempotent(
    files: Map<Seq<char>, Seq<char>>,
    dest: Seq<char>,
    first: Seq<char>,
    second: Seq<char>,
)
    ensures
        files.insert(dest, first).insert(dest, second) == files.insert(dest, second),
{
    assert(files.insert(dest, first).insert(dest, second) =~= files.insert(dest, second));
}

/// Round trip: after staging a text to a path, retrieving that path yields
/// exactly the staged text.
pub proof fn lemma_stage_then_retrieve(
    files: Map<Seq<char>, Seq<char>>,
    path: Seq<char>,
    content: Seq<char>,
)
    ensures
        files.insert(path, content).contains_key(path),
        files.insert(path, content)[path] == content,
{
}

} // verus!
