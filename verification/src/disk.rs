//! An in-memory disk: the platform filesystem as the worker pool observes
//! it, reduced to a mapping from path to content.
//!
//! The blocking syscalls the workers run are outside this crate; this model
//! gives their observable behaviour an exact statement — what a read returns
//! after a write, after a remove, and for a path that was never written — so
//! the whole dispatch/complete/settle pipeline can be exercised and its
//! end-to-end promises proved and tested without touching the real disk.

use vstd::prelude::*;
use crate::fs::FsRequest;
use crate::fs::FsResponse;

verus! {

/// The textual rendering of the platform's not-found error.
pub open spec fn not_found_text() -> Seq<char> {
    "no such file or directory"@
}

/// A mapping from path to file content, with each path held at most once.
pub struct MemDisk {
    entries: Vec<(String, String)>,
}

/// All paths other than `p` read the same on `post` as on `pre`.
pub open spec fn preserves_others(pre: MemDisk, post: MemDisk, p: Seq<char>) -> bool {
    forall|q: Seq<char>|
        #![trigger pre.contains_path(q)]
        #![trigger post.contains_path(q)]
        q != p ==> ((post.contains_path(q) <==> pre.contains_path(q)) && (pre.contains_path(q)
            ==> post.content_at(q) == pre.content_at(q)))
}

/// What a read returns: the stored content for a present path, the not-found
/// error for an absent one.
pub open spec fn read_result(d: MemDisk, p: Seq<char>, r: Result<String, String>) -> bool {
    match r {
        Ok(content) => d.contains_path(p) && content@ == d.content_at(p),
        Err(message) => !d.contains_path(p) && message@ == not_found_text(),
    }
}

/// What a write does: the path now holds exactly the written content, and no
/// other path changed.
pub open spec fn write_result(pre: MemDisk, post: MemDisk, p: Seq<char>, c: Seq<char>) -> bool {
    &&& post.contains_path(p)
    &&& post.content_at(p) == c
    &&& preserves_others(pre, post, p)
}

/// What a remove does: a present path is erased and everything else is kept;
/// an absent path leaves the disk unchanged and yields the not-found error.
pub open spec fn remove_result(pre: MemDisk, post: MemDisk, p: Seq<char>, r: Result<
    (),
    String,
>) -> bool {
    match r {
        Ok(unit) => pre.contains_path(p) && !post.contains_path(p) && preserves_others(
            pre,
            post,
            p,
        ),
        Err(message) => !pre.contains_path(p) && post == pre && message@ == not_found_text(),
    }
}

/// What one unit of worker work does to the disk and how its outcome is
/// classified, for each kind of request.
pub open spec fn perform_result(
    pre: MemDisk,
    post: MemDisk,
    request: FsRequest,
    r: FsResponse,
) -> bool {
    match request {
        FsRequest::Read(path) => post == pre && (match r {
            FsResponse::Read(content) => pre.contains_path(path@) && content@ == pre.content_at(
                path@,
            ),
            FsResponse::Error(message) => !pre.contains_path(path@) && message@
                == not_found_text(),
            FsResponse::Success => false,
        }),
        FsRequest::Write(path, contents) => write_result(pre, post, path@, contents@) && r
            is Success,
        FsRequest::Remove(path) => match r {
            FsResponse::Success => pre.contains_path(path@) && !post.contains_path(path@)
                && preserves_others(pre, post, path@),
            FsResponse::Error(message) => !pre.contains_path(path@) && post == pre && message@
                == not_found_text(),
            FsResponse::Read(content) => false,
        },
    }
}

impl MemDisk {
    /// The stored entries, in insertion order.
    pub closed spec fn entry_seq(&self) -> Seq<(String, String)> {
        self.entries@
    }

    /// Whether some entry holds path `p`.
    pub open spec fn contains_path(&self, p: Seq<char>) -> bool {
        exists|i: int|
            0 <= i < self.entry_seq().len() && #[trigger] self.entry_seq()[i].0@ == p
    }

    /// The index of the entry holding path `p`, if any.
    pub open spec fn index_of(&self, p: Seq<char>) -> int {
        choose|i: int| 0 <= i < self.entry_seq().len() && #[trigger] self.entry_seq()[i].0@ == p
    }

    /// The content stored for path `p`.
    pub open spec fn content_at(&self, p: Seq<char>) -> Seq<char> {
        self.entry_seq()[self.index_of(p)].1@
    }

    /// Well-formedness: no path occurs twice.
    pub closed spec fn wf(&self) -> bool {
        forall|a: int, b: int|
            0 <= a < b < self.entries@.len() ==> #[trigger] self.entries@[a].0@
                != #[trigger] self.entries@[b].0@
    }

    /// An empty disk: nothing can be read.
    pub fn new() -> (disk: Self)
        ensures
            disk.wf(),
            forall|p: Seq<char>| !disk.contains_path(p),
    {
        MemDisk { entries: Vec::new() }
    }

    /// With distinct paths, the entry found at `i` is the entry every path
    /// lookup for its path resolves to.
    proof fn lemma_at_index(&self, p: Seq<char>, i: int)
        requires
            self.wf(),
            0 <= i < self.entry_seq().len(),
            self.entry_seq()[i].0@ == p,
        ensures
            self.contains_path(p),
            self.index_of(p) == i,
            self.content_at(p) == self.entry_seq()[i].1@,
    {
        assert(self.contains_path(p));
        let j = self.index_of(p);
        assert(0 <= j < self.entry_seq().len() && self.entry_seq()[j].0@ == p);
        if j < i {
            assert(self.entries@[j].0@ != self.entries@[i].0@);
        } else if i < j {
            assert(self.entries@[i].0@ != self.entries@[j].0@);
        }
    }

    /// Finds the entry for `path`, if one exists.
    fn find_index(&self, path: &String) -> (r: Option<usize>)
        requires
            self.wf(),
        ensures
            r matches Some(i) ==> 0 <= i < self.entry_seq().len() && self.entry_seq()[
                i as int
            ].0@ == path@ && self.contains_path(path@) && self.index_of(path@) == i,
            r is None ==> !self.contains_path(path@),
    {
        let n = self.entries.len();
        let mut i: usize = 0;
        while i < n
            invariant
                i <= n,
                n == self.entry_seq().len(),
                self.wf(),
                forall|j: int| 0 <= j < i ==> #[trigger] self.entry_seq()[j].0@ != path@,
            decreases n - i,
        {
            if self.entries[i].0 == *path {
                proof {
                    self.lemma_at_index(path@, i as int);
                }
                return Some(i);
            }
            i = i + 1;
        }
        None
    }

    /// Reads the file at `path`: its content, or the not-found error.
    pub fn read(&self, path: &String) -> (r: Result<String, String>)
        requires
            self.wf(),
        ensures
            read_result(*self, path@, r),
    {
        match self.find_index(path) {
            Some(i) => Ok(self.entries[i].1.clone()),
            None => Err("no such file or directory".to_owned()),
        }
    }

    /// Removing the entry at index `i` erases its path and keeps every other
    /// path and its content.
    proof fn lemma_remove_effect(pre: Self, post: Self, p: Seq<char>, i: int)
        requires
            pre.wf(),
            0 <= i < pre.entry_seq().len(),
            pre.entry_seq()[i].0@ == p,
            post.entry_seq() == pre.entry_seq().remove(i),
        ensures
            post.wf(),
            !post.contains_path(p),
            preserves_others(pre, post, p),
    {
        pre.entry_seq().remove_ensures(i);
        assert forall|a: int, b: int| 0 <= a < b < post.entries@.len() implies post.entries@[a].0@
            != post.entries@[b].0@ by {
            let a0 = if a < i { a } else { a + 1 };
            let b0 = if b < i { b } else { b + 1 };
            assert(post.entries@[a] == pre.entries@[a0]);
            assert(post.entries@[b] == pre.entries@[b0]);
        }
        assert forall|j: int| 0 <= j < post.entry_seq().len() implies post.entry_seq()[j].0@
            != p by {
            let j0 = if j < i { j } else { j + 1 };
            assert(post.entries@[j] == pre.entries@[j0]);
            if j0 < i {
                assert(pre.entries@[j0].0@ != pre.entries@[i].0@);
            } else {
                assert(pre.entries@[i].0@ != pre.entries@[j0].0@);
            }
        }
        assert(!post.contains_path(p));
        assert forall|q: Seq<char>| q != p implies ((post.contains_path(q)
            <==> pre.contains_path(q)) && (pre.contains_path(q) ==> post.content_at(q)
            == pre.content_at(q))) by {
            if post.contains_path(q) {
                let j = choose|j: int|
                    0 <= j < post.entry_seq().len() && #[trigger] post.entry_seq()[j].0@ == q;
                let j0 = if j < i { j } else { j + 1 };
                assert(post.entries@[j] == pre.entries@[j0]);
                pre.lemma_at_index(q, j0);
            }
            if pre.contains_path(q) {
                let k = choose|k: int|
                    0 <= k < pre.entry_seq().len() && #[trigger] pre.entry_seq()[k].0@ == q;
                assert(k != i);
                let j = if k < i { k } else { k - 1 };
                assert(post.entries@[j] == pre.entries@[k]);
                post.lemma_at_index(q, j);
                pre.lemma_at_index(q, k);
            }
        }
    }

    /// Appending an entry for a path the disk does not hold makes that path
    /// readable with the appended content and keeps every other path.
    proof fn lemma_push_effect(pre: Self, post: Self, p: Seq<char>, c: Seq<char>, e: (String, String))
        requires
            pre.wf(),
            !pre.contains_path(p),
            e.0@ == p,
            e.1@ == c,
            post.entry_seq() == pre.entry_seq().push(e),
        ensures
            post.wf(),
            post.contains_path(p),
            post.content_at(p) == c,
            preserves_others(pre, post, p),
    {
        let n = pre.entry_seq().len();
        assert forall|a: int, b: int| 0 <= a < b < post.entries@.len() implies post.entries@[a].0@
            != post.entries@[b].0@ by {
            if b < n {
                assert(post.entries@[a] == pre.entries@[a]);
                assert(post.entries@[b] == pre.entries@[b]);
            } else {
                assert(post.entries@[b] == e);
                assert(post.entries@[a] == pre.entries@[a]);
                if pre.entries@[a].0@ == p {
                    assert(pre.contains_path(p));
                }
            }
        }
        assert(post.entry_seq()[n as int] == e);
        post.lemma_at_index(p, n as int);
        assert forall|q: Seq<char>| q != p implies ((post.contains_path(q)
            <==> pre.contains_path(q)) && (pre.contains_path(q) ==> post.content_at(q)
            == pre.content_at(q))) by {
            if post.contains_path(q) {
                let j = choose|j: int|
                    0 <= j < post.entry_seq().len() && #[trigger] post.entry_seq()[j].0@ == q;
                if j == n {
                    assert(q == p);
                } else {
                    assert(post.entries@[j] == pre.entries@[j]);
                    pre.lemma_at_index(q, j);
                }
            }
            if pre.contains_path(q) {
                let k = choose|k: int|
                    0 <= k < pre.entry_seq().len() && #[trigger] pre.entry_seq()[k].0@ == q;
                assert(post.entries@[k] == pre.entries@[k]);
                post.lemma_at_index(q, k);
                pre.lemma_at_index(q, k);
            }
        }
    }

    /// Writes `contents` at `path`, creating or replacing the file.
    pub fn write(&mut self, path: &String, contents: &String)
        requires
            old(self).wf(),
        ensures
            final(self).wf(),
            write_result(*old(self), *final(self), path@, contents@),
    {
        match self.find_index(path) {
            Some(i) => {
                self.entries.remove(i);
                proof {
                    Self::lemma_remove_effect(*old(self), *self, path@, i as int);
                }
            },
            None => {},
        }
        let ghost mid = *self;
        let entry = (path.clone(), contents.clone());
        proof {
            assert(entry.0@ == path@);
        }
        self.entries.push(entry);
        proof {
            Self::lemma_push_effect(mid, *self, path@, contents@, entry);
        }
    }

    /// Removes the file at `path`: `Ok` erases it, an absent path yields the
    /// not-found error and changes nothing.
    pub fn remove(&mut self, path: &String) -> (r: Result<(), String>)
        requires
            old(self).wf(),
        ensures
            final(self).wf(),
            remove_result(*old(self), *final(self), path@, r),
    {
        match self.find_index(path) {
            Some(i) => {
                self.entries.remove(i);
                proof {
                    Self::lemma_remove_effect(*old(self), *self, path@, i as int);
                }
                Ok(())
            },
            None => Err("no such file or directory".to_owned()),
        }
    }

    /// Runs one unit of worker work against this disk and classifies the
    /// outcome exactly as the platform worker classifies the blocking call.
    pub fn perform(&mut self, request: &FsRequest) -> (r: FsResponse)
        requires
            old(self).wf(),
        ensures
            final(self).wf(),
            perform_result(*old(self), *final(self), *request, r),
    {
        match request {
            FsRequest::Read(path) => {
                match self.read(path) {
                    Ok(content) => FsResponse::Read(content),
                    Err(message) => FsResponse::Error(message),
                }
            },
            FsRequest::Write(path, contents) => {
                self.write(path, contents);
                FsResponse::Success
            },
            FsRequest::Remove(path) => {
                match self.remove(path) {
                    Ok(unit) => FsResponse::Success,
                    Err(message) => FsResponse::Error(message),
                }
            },
        }
    }
}

} // verus!
