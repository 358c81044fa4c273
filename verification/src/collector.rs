//! File collection: a breadth-first walk over files and directories, kept
//! as a queue of paths still to be looked at and a list of images found.
//!
//! The collector decides; its caller looks at the file system. The caller
//! takes the next path, finds out what it is, and reports a file or the
//! entries of a directory. Before it lists a directory it asks
//! `enter_directory` whether the directory, named by its canonical path, is
//! new: a directory reached a second time, as through a link that leads back
//! to an ancestor, is not listed again. Anything else, and a directory that
//! cannot be read, is simply not reported.

use std::collections::VecDeque;
use vstd::prelude::*;
use vstd::string::*;
use crate::order::names;
use crate::order::sort_paths;
use crate::order::sorted_paths;
use crate::paths::format_of_name;
use crate::paths::source_format;

verus! {

/// The state of a walk.
#[derive(Debug)]
pub struct FileCollector {
    queue: VecDeque<String>,
    files: Vec<String>,
    entered: Vec<String>,
}

impl FileCollector {
    /// The paths still to be looked at, next first.
    pub closed spec fn pending(&self) -> Seq<Seq<char>> {
        names(self.queue@)
    }

    /// The image files found so far, in the order they were found.
    pub closed spec fn found(&self) -> Seq<Seq<char>> {
        names(self.files@)
    }

    /// The directories entered so far, by their canonical paths.
    pub closed spec fn entered(&self) -> Seq<Seq<char>> {
        names(self.entered@)
    }

    /// Starts a walk over the given files and directories.
    pub fn new(paths: Vec<String>) -> (collector: FileCollector)
        ensures
            collector.pending() == names(paths@),
            collector.found() == Seq::<Seq<char>>::empty(),
            collector.entered() == Seq::<Seq<char>>::empty(),
            collector.entered().no_duplicates(),
    {
        let ghost all = names(paths@);
        let mut rest = paths;
        let mut queue: VecDeque<String> = VecDeque::new();
        assert(names(queue@) =~= all.skip(all.len() as int));
        loop
            invariant
                rest@.len() <= all.len(),
                names(rest@) == all.take(rest@.len() as int),
                names(queue@) == all.skip(rest@.len() as int),
            ensures
                rest@.len() == 0,
            decreases rest@.len(),
        {
            let ghost k = rest@.len() as int;
            let ghost before = names(queue@);
            let x = match rest.pop() {
                Some(x) => x,
                None => {
                    break ;
                },
            };
            proof {
                assert(all.take(k)[k - 1] == x@);
                assert(names(rest@) =~= all.take(k - 1)) by {
                    assert forall|j: int| 0 <= j < k - 1 implies names(rest@)[j] == all.take(
                        k - 1,
                    )[j] by {
                        assert(all.take(k)[j] == all[j]);
                    }
                }
            }
            queue.push_front(x);
            assert(names(queue@) =~= seq![x@] + before);
            assert(names(queue@) =~= all.skip(k - 1));
        }
        assert(all.skip(0) =~= all);
        let collector = FileCollector { queue, files: Vec::new(), entered: Vec::new() };
        assert(names(collector.files@) =~= Seq::<Seq<char>>::empty());
        assert(names(collector.entered@) =~= Seq::<Seq<char>>::empty());
        collector
    }

    /// Takes the next path off the queue; `None` when the walk is over.
    pub fn next_path(&mut self) -> (path: Option<String>)
        ensures
            final(self).found() == old(self).found(),
            final(self).entered() == old(self).entered(),
            match path {
                Some(p) => {
                    &&& old(self).pending().len() > 0
                    &&& p@ == old(self).pending()[0]
                    &&& final(self).pending() == old(self).pending().drop_first()
                },
                None => {
                    &&& old(self).pending().len() == 0
                    &&& final(self).pending() == old(self).pending()
                },
            },
    {
        let ghost before = names(self.queue@);
        let path = self.queue.pop_front();
        proof {
            if path is Some {
                assert(names(self.queue@) =~= before.drop_first());
            }
        }
        path
    }

    /// Reports that `path` is a regular file named `file_name`. It is kept
    /// if its extension is one of an image format that is read.
    pub fn record_file(&mut self, path: String, file_name: &str)
        ensures
            final(self).pending() == old(self).pending(),
            final(self).entered() == old(self).entered(),
            final(self).found() == if format_of_name(file_name@) is Some {
                old(self).found().push(path@)
            } else {
                old(self).found()
            },
    {
        if source_format(file_name).is_some() {
            let ghost before = names(self.files@);
            self.files.push(path);
            assert(names(self.files@) =~= before.push(path@));
        }
    }

    /// Asks to enter the directory with the canonical path `identity`.
    /// The answer is `true` the first time a directory is asked for, and
    /// the directory then counts as entered; it is `false` every time after,
    /// and the caller leaves the directory alone.
    pub fn enter_directory(&mut self, identity: String) -> (fresh: bool)
        ensures
            fresh == !old(self).entered().contains(identity@),
            final(self).entered() == if fresh {
                old(self).entered().push(identity@)
            } else {
                old(self).entered()
            },
            final(self).pending() == old(self).pending(),
            final(self).found() == old(self).found(),
            old(self).entered().no_duplicates() ==> final(self).entered().no_duplicates(),
    {
        let ghost seen = names(self.entered@);
        let n: usize = self.entered.len();
        let mut i: usize = 0;
        while i < n
            invariant
                i <= n,
                n == self.entered@.len(),
                seen == names(self.entered@),
                self.entered == old(self).entered,
                self.queue == old(self).queue,
                self.files == old(self).files,
                forall|j: int| 0 <= j < i ==> seen[j] != identity@,
            decreases n - i,
        {
            assert(seen[i as int] == self.entered@[i as int]@);
            if self.entered[i] == identity {
                assert(seen.contains(identity@));
                return false;
            }
            i = i + 1;
        }
        assert(!seen.contains(identity@));
        self.entered.push(identity);
        assert(names(self.entered@) =~= seen.push(identity@));
        true
    }

    /// Reports the entries of a directory. They join the queue in ascending
    /// order, behind what is already waiting.
    pub fn record_directory(&mut self, entries: Vec<String>)
        ensures
            final(self).found() == old(self).found(),
            final(self).entered() == old(self).entered(),
            final(self).pending() == old(self).pending() + sorted_paths(names(entries@)),
    {
        let sorted = sort_paths(entries);
        let ghost start = names(self.queue@);
        let ghost added = names(sorted@);
        let n: usize = sorted.len();
        let mut i: usize = 0;
        assert(start + added.take(0) =~= start);
        while i < n
            invariant
                i <= n,
                n == sorted@.len(),
                added == names(sorted@),
                self.files == old(self).files,
                self.entered == old(self).entered,
                names(self.queue@) == start + added.take(i as int),
            decreases n - i,
        {
            let ghost before = names(self.queue@);
            let entry = sorted[i].clone();
            self.queue.push_back(entry);
            assert(names(self.queue@) =~= before.push(entry@));
            assert(added.take(i + 1) =~= added.take(i as int).push(added[i as int]));
            i = i + 1;
        }
        assert(added.take(n as int) =~= added);
    }

    /// Ends the walk: the images found, in ascending order of their paths.
    pub fn finish(self) -> (files: Vec<String>)
        ensures
            names(files@) == sorted_paths(self.found()),
            files@.len() == self.found().len(),
    {
        sort_paths(self.files)
    }
}

} // verus!
