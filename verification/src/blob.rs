//! The blob store model: durable byte storage addressed by a derived path.
//!
//! The store is a set of entries, each a path with the bytes written under
//! it. A write or a delete may fault; the disposition of the underlying
//! storage for one call is passed in as the `fault` argument, and every
//! contract states the outcome for either disposition.

use crate::models::BlobPath;
use crate::models::ServiceError;
use vstd::prelude::*;

verus! {

/// One stored blob: the path it was written under and its bytes.
pub struct BlobEntry {
    pub path: BlobPath,
    pub data: Vec<u8>,
}

/// The mathematical value of a [`BlobEntry`].
pub ghost struct BlobView {
    pub path: BlobPath,
    pub data: Seq<u8>,
}

impl View for BlobEntry {
    type V = BlobView;

    open spec fn view(&self) -> BlobView {
        BlobView { path: self.path, data: self.data@ }
    }
}

impl DeepView for BlobEntry {
    type V = BlobView;

    open spec fn deep_view(&self) -> BlobView {
        self.view()
    }
}

/// Some entry of `blobs` lies under `path`.
pub open spec fn has_path(blobs: Seq<BlobView>, path: BlobPath) -> bool {
    exists|i: int| 0 <= i < blobs.len() && blobs[i].path == path
}

/// No two entries of `blobs` share a path.
pub open spec fn unique_paths(blobs: Seq<BlobView>) -> bool {
    forall|i: int, j: int|
        0 <= i < j < blobs.len() ==> blobs[i].path != blobs[j].path
}

/// The blob store: every byte sequence written and not yet deleted, each
/// under the path of its write.
pub struct BlobStore {
    entries: Vec<BlobEntry>,
}

impl View for BlobStore {
    type V = Seq<BlobView>;

    closed spec fn view(&self) -> Seq<BlobView> {
        self.entries.deep_view()
    }
}

impl BlobStore {
    /// Each path holds at most one blob.
    pub open spec fn wf(self) -> bool {
        unique_paths(self@)
    }

    /// An empty blob store.
    pub fn new() -> (r: BlobStore)
        ensures
            r@ == Seq::<BlobView>::empty(),
            r.wf(),
    {
        BlobStore { entries: Vec::new() }
    }

    /// Writes `data` under `path`. On a storage fault nothing is stored;
    /// otherwise the store gains exactly the new entry.
    pub fn write(&mut self, path: BlobPath, data: Vec<u8>, fault: bool) -> (r: Result<
        (),
        ServiceError,
    >)
        requires
            old(self).wf(),
            !has_path(old(self)@, path),
        ensures
            final(self).wf(),
            fault ==> r == Err::<(), ServiceError>(ServiceError::Storage) && final(self)@ == old(
                self,
            )@,
            !fault ==> r == Ok::<(), ServiceError>(()) && final(self)@ == old(self)@.push(
                BlobView { path, data: data@ },
            ),
    {
        if fault {
            Err(ServiceError::Storage)
        } else {
            self.entries.push(BlobEntry { path, data });
            proof {
                assert(self@ =~= old(self)@.push(BlobView { path, data: data@ }));
            }
            Ok(())
        }
    }

    /// Deletes the blob under `path`. On a storage fault, and likewise when
    /// no blob lies under `path`, nothing changes and the fault is
    /// reported; otherwise exactly that entry is gone.
    pub fn delete(&mut self, path: BlobPath, fault: bool) -> (r: Result<(), ServiceError>)
        requires
            old(self).wf(),
        ensures
            final(self).wf(),
            fault || !has_path(old(self)@, path) ==> r == Err::<(), ServiceError>(
                ServiceError::Storage,
            ) && final(self)@ == old(self)@,
            !fault && has_path(old(self)@, path) ==> r == Ok::<(), ServiceError>(()) && (exists|
                i: int,
            |
                0 <= i < old(self)@.len() && old(self)@[i].path == path && final(self)@ == old(
                    self,
                )@.remove(i)),
            !fault && has_path(old(self)@, path) ==> !has_path(final(self)@, path),
    {
        if fault {
            return Err(ServiceError::Storage);
        }
        let n = self.entries.len();
        let mut i: usize = 0;
        while i < n
            invariant
                n == self.entries.len(),
                i <= n,
                *self == *old(self),
                old(self).wf(),
                !fault,
                forall|k: int| 0 <= k < i ==> self@[k].path != path,
            decreases n - i,
        {
            if self.entries[i].path == path {
                self.entries.remove(i);
                proof {
                    let pre = old(self)@;
                    let j = i as int;
                    assert(self@ =~= pre.remove(j));
                    assert(0 <= j < pre.len() && pre[j].path == path && self@ == pre.remove(j));
                    assert(has_path(pre, path));
                    assert forall|k: int| 0 <= k < self@.len() implies self@[k].path != path by {
                        if k < j {
                            assert(self@[k] == pre[k]);
                        } else {
                            assert(self@[k] == pre[k + 1]);
                            assert(j < k + 1 < pre.len());
                            assert(pre[j].path != pre[k + 1].path);
                        }
                    }
                }
                return Ok(());
            }
            i += 1;
        }
        Err(ServiceError::Storage)
    }

    /// Reads the bytes under `path`, or `None` when no blob lies there.
    pub fn read(&self, path: BlobPath) -> (r: Option<&Vec<u8>>)
        requires
            self.wf(),
        ensures
            match r {
                Some(d) => exists|i: int|
                    0 <= i < self@.len() && self@[i].path == path && d@ == self@[i].data,
                None => !has_path(self@, path),
            },
    {
        let n = self.entries.len();
        let mut i: usize = 0;
        while i < n
            invariant
                n == self.entries.len(),
                i <= n,
                forall|k: int| 0 <= k < i ==> self@[k].path != path,
            decreases n - i,
        {
            if self.entries[i].path == path {
                let d = &self.entries[i].data;
                proof {
                    let j = i as int;
                    assert(0 <= j < self@.len() && self@[j].path == path && d@ == self@[j].data);
                }
                return Some(d);
            }
            i += 1;
        }
        None
    }
}

} // verus!
