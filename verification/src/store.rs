//! The shader source files as the supervisor observes them.
//!
//! The development-mode supervisor reads two things of a path: its current
//! modification time (a missing file observes as time 0, the "unknown" mark,
//! which is never taken for a change) and, when a reload is due, its whole
//! contents (which may fail). A [`SourceStore`] holds those observations as
//! plain values: the process hands the library a snapshot of the tracked
//! files, and a test rewrites an entry to play an edit.
//!
//! The empty path is "not file-backed", not a file name: it always observes
//! as absent, whatever entries a store holds. An entity that tracks no files
//! therefore never sees a time advance and never reloads.

use vstd::prelude::*;

verus! {

/// One observed file: its path, its modification time, and its contents
/// (`None` when the file cannot be read).
#[derive(Clone, PartialEq, Eq, Debug)]
pub struct SourceFile {
    pub path: String,
    pub mtime: u64,
    pub contents: Option<String>,
}

/// A snapshot of the observable files, earliest entry for a path governing.
#[derive(Clone, PartialEq, Eq, Debug)]
pub struct SourceStore {
    pub files: Vec<SourceFile>,
}

/// The governing entry of `list` for `path`, if any. The empty path names
/// no file and never has one.
pub open spec fn find_file(list: Seq<SourceFile>, path: Seq<char>) -> Option<SourceFile>
    decreases list.len(),
{
    if path.len() == 0 || list.len() == 0 {
        None
    } else if list[0].path@ == path {
        Some(list[0])
    } else {
        find_file(list.subrange(1, list.len() as int), path)
    }
}

impl SourceStore {
    /// The modification time observed for `path`; 0 when the file is absent.
    pub open spec fn spec_mtime(self, path: Seq<char>) -> u64 {
        match find_file(self.files@, path) {
            Some(f) => f.mtime,
            None => 0,
        }
    }

    /// The contents observed for `path`; `None` when absent or unreadable.
    pub open spec fn spec_contents(self, path: Seq<char>) -> Option<Seq<char>> {
        match find_file(self.files@, path) {
            Some(f) => match f.contents {
                Some(c) => Some(c@),
                None => None,
            },
            None => None,
        }
    }

    /// A store with nothing observable.
    pub fn new() -> (s: SourceStore)
        ensures
            s.files@.len() == 0,
    {
        SourceStore { files: Vec::new() }
    }

    /// The governing entry for `path`, if any.
    fn find(&self, path: &str) -> (r: Option<&SourceFile>)
        ensures
            match r {
                Some(f) => find_file(self.files@, path@) == Some(*f),
                None => find_file(self.files@, path@) is None,
            },
    {
        if path.is_empty() {
            return None;
        }
        let p: String = path.to_owned();
        let n: usize = self.files.len();
        let mut i: usize = 0;
        proof {
            assert(self.files@.subrange(0, n as int) =~= self.files@);
        }
        while i < n
            invariant
                n == self.files@.len(),
                i <= n,
                p@ == path@,
                path@.len() > 0,
                find_file(self.files@, path@) == find_file(
                    self.files@.subrange(i as int, n as int),
                    path@,
                ),
            decreases n - i,
        {
            let f = &self.files[i];
            if f.path == p {
                proof {
                    assert(self.files@.subrange(i as int, n as int)[0] == self.files@[i as int]);
                }
                return Some(f);
            }
            proof {
                assert(self.files@.subrange(i as int, n as int).subrange(
                    1,
                    (n - i) as int,
                ) =~= self.files@.subrange(i as int + 1, n as int));
            }
            i += 1;
        }
        None
    }

    /// Stat `path`: its modification time, 0 when the file is absent.
    pub fn stat(&self, path: &str) -> (t: u64)
        ensures
            t == self.spec_mtime(path@),
    {
        match self.find(path) {
            Some(f) => f.mtime,
            None => 0,
        }
    }

    /// Read the whole of `path`; `None` when absent or unreadable.
    pub fn read(&self, path: &str) -> (r: Option<String>)
        ensures
            match r {
                Some(c) => self.spec_contents(path@) == Some(c@),
                None => self.spec_contents(path@) is None,
            },
    {
        match self.find(path) {
            Some(f) => match &f.contents {
                Some(c) => Some(c.clone()),
                None => None,
            },
            None => None,
        }
    }

    /// Record a fresh observation of `path`, shadowing any earlier one;
    /// observations of every other path are untouched. The empty path names
    /// no file, so there is nothing it could record.
    pub fn set_file(&mut self, path: &str, mtime: u64, contents: Option<String>)
        requires
            path@.len() > 0,
        ensures
            final(self).spec_mtime(path@) == mtime,
            final(self).spec_contents(path@) == match contents {
                Some(c) => Some(c@),
                None => None::<Seq<char>>,
            },
            forall|p: Seq<char>|
                p != path@ ==> final(self).spec_mtime(p) == old(self).spec_mtime(p)
                    && final(self).spec_contents(p) == old(self).spec_contents(p),
    {
        let entry = SourceFile { path: path.to_owned(), mtime, contents };
        self.files.insert(0, entry);
        proof {
            assert forall|p: Seq<char>| p != path@ implies find_file(self.files@, p) == find_file(
                old(self).files@,
                p,
            ) by {
                assert(self.files@[0].path@ == path@);
                assert(self.files@.subrange(1, self.files@.len() as int) =~= old(self).files@);
            }
        }
    }
}

} // verus!
