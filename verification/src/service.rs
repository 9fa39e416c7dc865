//! The post lifecycle over the two stores, with its partial-failure
//! policy.
//!
//! Creation writes the blob before it inserts the metadata row, so a
//! failed write leaves no row behind; a failed insert after a successful
//! write leaves an orphan blob, which is the accepted policy, not rolled
//! back. Deletion removes the metadata row before the blob, and a failed
//! blob deletion after a successful row removal is swallowed: the delete
//! still reports success, at the price of an orphan file.
//!
//! The dispositions of the underlying stores for the calls one operation
//! makes are passed in as the `..._fault` arguments; every contract states
//! the outcome for each combination.

use crate::blob::has_path;
use crate::blob::unique_paths;
use crate::blob::BlobStore;
use crate::blob::BlobView;
use crate::models::ext_of_media_type;
use crate::models::file_extension;
use crate::models::BlobPath;
use crate::models::Ext;
use crate::models::FeedFollowing;
use crate::models::Post;
use crate::models::PostCreate;
use crate::models::PostID;
use crate::models::PostView;
use crate::models::ServiceError;
use crate::models::valid_caption;
use crate::store::has_id;
use crate::store::of_user;
use crate::store::of_users;
use crate::store::ordered_by_creation;
use crate::store::page_slice;
use crate::store::unique_ids;
use crate::store::MetadataStore;
use crate::models::wf_post;
use vstd::pervasive::cloned;
use vstd::prelude::*;

verus! {

/// The mathematical value of a [`PostService`]: the blobs, the metadata
/// rows in creation order, and the metadata clock.
pub ghost struct ServiceView {
    pub blobs: Seq<BlobView>,
    pub rows: Seq<PostView>,
    pub clock: u64,
}

/// Both stores are well formed, and every metadata row points at a blob
/// that is present: a row exists only if its blob was written, and no
/// operation removes a blob while a row still points at it.
pub open spec fn service_inv(v: ServiceView) -> bool {
    &&& unique_paths(v.blobs)
    &&& ordered_by_creation(v.rows)
    &&& unique_ids(v.rows)
    &&& forall|i: int| 0 <= i < v.rows.len() ==> (#[trigger] v.rows[i]).created_at < v.clock
    &&& forall|i: int| 0 <= i < v.rows.len() ==> wf_post(#[trigger] v.rows[i])
    &&& forall|i: int| 0 <= i < v.rows.len() ==> has_path(v.blobs, (#[trigger] v.rows[i]).blob_path)
}

/// The post service: the sole owner of the write path to the blob store
/// and the metadata store.
pub struct PostService {
    blobs: BlobStore,
    meta: MetadataStore,
}

impl View for PostService {
    type V = ServiceView;

    closed spec fn view(&self) -> ServiceView {
        ServiceView { blobs: self.blobs@, rows: self.meta@.rows, clock: self.meta@.clock }
    }
}

/// Copies the raw bytes of an upload.
fn clone_bytes(data: &Vec<u8>) -> (r: Vec<u8>)
    ensures
        r@ == data@,
{
    let r = data.clone();
    proof {
        assert forall|i: int| 0 <= i < data@.len() implies r@[i] == data@[i] by {
            assert(cloned::<u8>(data[i], r[i]));
        }
        assert(r@ =~= data@);
    }
    r
}

impl PostService {
    /// The service invariant holds of the current state.
    pub open spec fn wf(self) -> bool {
        service_inv(self@)
    }

    /// A service over empty stores.
    pub fn new() -> (r: PostService)
        ensures
            r@.blobs == Seq::<BlobView>::empty(),
            r@.rows == Seq::<PostView>::empty(),
            r@.clock == 0,
            r.wf(),
    {
        PostService { blobs: BlobStore::new(), meta: MetadataStore::new() }
    }

    /// Creates a post from an upload: judges the declared media type
    /// against the allow-list, validates the handle and caption lengths,
    /// writes the image bytes under the path derived from `id`, and only
    /// then inserts the metadata row.
    ///
    /// A refused input performs no side effect. A failed blob write
    /// leaves no row and no blob. A failed insert after a successful
    /// write leaves the written blob behind as an orphan — the accepted
    /// policy — but still no row.
    pub fn create(
        &mut self,
        req: &PostCreate,
        id: u128,
        write_fault: bool,
        insert_fault: bool,
    ) -> (r: Result<PostID, ServiceError>)
        requires
            old(self).wf(),
            !has_id(old(self)@.rows, id),
            !has_path(old(self)@.blobs, (BlobPath { id, ext: Ext::Png })),
            !has_path(old(self)@.blobs, (BlobPath { id, ext: Ext::Jpg })),
            old(self)@.clock < u64::MAX,
        ensures
            final(self).wf(),
            match ext_of_media_type(req@.img_file.file_type) {
                None => r == Err::<PostID, ServiceError>(ServiceError::UnsupportedMediaType)
                    && final(self)@ == old(self)@,
                Some(ext) => {
                    let path = (BlobPath { id, ext });
                    let blob = (BlobView { path, data: req@.img_file.data });
                    let row = (PostView {
                        id,
                        username: req@.username,
                        blob_path: path,
                        caption: req@.caption,
                        likes: 0,
                        created_at: old(self)@.clock,
                    });
                    &&& !req.is_valid() ==> r == Err::<PostID, ServiceError>(
                        ServiceError::Validation,
                    ) && final(self)@ == old(self)@
                    &&& req.is_valid() && write_fault ==> r == Err::<PostID, ServiceError>(
                        ServiceError::Storage,
                    ) && final(self)@ == old(self)@
                    &&& req.is_valid() && !write_fault && insert_fault ==> r == Err::<
                        PostID,
                        ServiceError,
                    >(ServiceError::Storage) && final(self)@.blobs == old(self)@.blobs.push(blob)
                        && final(self)@.rows == old(self)@.rows && final(self)@.clock == old(
                        self,
                    )@.clock
                    &&& req.is_valid() && !write_fault && !insert_fault ==> r == Ok::<
                        PostID,
                        ServiceError,
                    >((PostID { id })) && final(self)@.blobs == old(self)@.blobs.push(blob)
                        && final(self)@.rows == old(self)@.rows.push(row) && final(self)@.clock
                        == old(self)@.clock + 1
                },
            },
    {
        let ext = match file_extension(&req.img_file.file_type) {
            Some(e) => e,
            None => {
                return Err(ServiceError::UnsupportedMediaType);
            },
        };
        if let Err(e) = req.validate() {
            return Err(e);
        }
        let path = BlobPath { id, ext };
        let data = clone_bytes(&req.img_file.data);
        if let Err(e) = self.blobs.write(path, data, write_fault) {
            return Err(e);
        }
        if let Err(e) = self.meta.insert(id, &req.username, path, &req.caption, insert_fault) {
            proof {
                assert forall|i: int|
                    0 <= i < self@.rows.len() implies has_path(
                    self@.blobs,
                    (#[trigger] self@.rows[i]).blob_path,
                ) by {
                    let p = self@.rows[i].blob_path;
                    let k = choose|k: int|
                        0 <= k < old(self)@.blobs.len() && old(self)@.blobs[k].path == p;
                    assert(self@.blobs[k].path == p);
                }
            }
            return Err(e);
        }
        proof {
            let pre = old(self)@;
            let row = (PostView {
                id,
                username: req@.username,
                blob_path: path,
                caption: req@.caption,
                likes: 0,
                created_at: pre.clock,
            });
            assert(self@.rows == pre.rows.push(row));
            assert forall|i: int|
                0 <= i < self@.rows.len() implies has_path(
                self@.blobs,
                (#[trigger] self@.rows[i]).blob_path,
            ) by {
                if i < pre.rows.len() {
                    let p = pre.rows[i].blob_path;
                    let k = choose|k: int| 0 <= k < pre.blobs.len() && pre.blobs[k].path == p;
                    assert(self@.blobs[k].path == p);
                } else {
                    assert(self@.rows[i] == row);
                    assert(self@.blobs[pre.blobs.len() as int].path == path);
                }
            }
        }
        Ok(PostID { id })
    }

    /// Deletes a post: removes the metadata row first, handing back its
    /// blob path, then attempts to delete the blob. A fault of the blob
    /// deletion is swallowed: once the row is gone the operation reports
    /// success either way, at the price of an orphan blob.
    pub fn delete(&mut self, id: u128, meta_fault: bool, blob_fault: bool) -> (r: Result<
        (),
        ServiceError,
    >)
        requires
            old(self).wf(),
        ensures
            final(self).wf(),
            final(self)@.clock == old(self)@.clock,
            meta_fault ==> r == Err::<(), ServiceError>(ServiceError::Storage) && final(self)@
                == old(self)@,
            !meta_fault && !has_id(old(self)@.rows, id) ==> r == Err::<(), ServiceError>(
                ServiceError::NotFound,
            ) && final(self)@ == old(self)@,
            !meta_fault && has_id(old(self)@.rows, id) ==> r == Ok::<(), ServiceError>(())
                && !has_id(final(self)@.rows, id) && (exists|i: int|
                0 <= i < old(self)@.rows.len() && old(self)@.rows[i].id == id
                    && final(self)@.rows == old(self)@.rows.remove(i)
                    && (blob_fault ==> final(self)@.blobs == old(self)@.blobs)
                    && (!blob_fault ==> (exists|j: int|
                        0 <= j < old(self)@.blobs.len()
                        && old(self)@.blobs[j].path == old(self)@.rows[i].blob_path
                        && final(self)@.blobs == old(self)@.blobs.remove(j)))),
    {
        let path = match self.meta.delete_by_id(id, meta_fault) {
            Ok(p) => p,
            Err(e) => {
                return Err(e);
            },
        };
        let ghost mid = self@;
        let ghost pre = old(self)@;
        let ghost i = choose|i: int|
            0 <= i < pre.rows.len() && pre.rows[i].id == id && mid.rows == pre.rows.remove(i);
        proof {
            assert(path == pre.rows[i].blob_path);
            assert(has_path(pre.blobs, path));
        }
        let rr = self.blobs.delete(path, blob_fault);
        proof {
            if rr is Ok {
                let j = choose|j: int|
                    0 <= j < pre.blobs.len() && pre.blobs[j].path == path && self@.blobs
                        == pre.blobs.remove(j);
                assert forall|a: int|
                    0 <= a < self@.rows.len() implies has_path(
                    self@.blobs,
                    (#[trigger] self@.rows[a]).blob_path,
                ) by {
                    let a0 = if a < i {
                        a
                    } else {
                        a + 1
                    };
                    assert(self@.rows[a] == pre.rows[a0]);
                    let p = pre.rows[a0].blob_path;
                    assert(wf_post(pre.rows[a0]) && wf_post(pre.rows[i]));
                    assert(pre.rows[a0].id != pre.rows[i].id);
                    assert(p != path);
                    let k = choose|k: int| 0 <= k < pre.blobs.len() && pre.blobs[k].path == p;
                    assert(k != j);
                    if k < j {
                        assert(self@.blobs[k].path == p);
                    } else {
                        assert(self@.blobs[k - 1].path == p);
                    }
                }
            } else {
                assert(self@.blobs == pre.blobs);
                assert forall|a: int|
                    0 <= a < self@.rows.len() implies has_path(
                    self@.blobs,
                    (#[trigger] self@.rows[a]).blob_path,
                ) by {
                    let a0 = if a < i {
                        a
                    } else {
                        a + 1
                    };
                    assert(self@.rows[a] == pre.rows[a0]);
                }
            }
        }
        Ok(())
    }

    /// Reads one post by id.
    pub fn get(&self, id: u128, fault: bool) -> (r: Result<Post, ServiceError>)
        requires
            self.wf(),
        ensures
            match r {
                Ok(p) => !fault && exists|i: int|
                    0 <= i < self@.rows.len() && self@.rows[i].id == id && p@ == self@.rows[i],
                Err(e) => (e == ServiceError::Storage && fault) || (e == ServiceError::NotFound
                    && !fault && !has_id(self@.rows, id)),
            },
    {
        self.meta.select_by_id(id, fault)
    }

    /// Reads all posts of one author, in `created_at` order; an author
    /// with no posts gets the empty sequence, not an error.
    pub fn get_by_username(&self, username: &String, fault: bool) -> (r: Result<
        Vec<Post>,
        ServiceError,
    >)
        requires
            self.wf(),
        ensures
            match r {
                Ok(posts) => !fault && posts.deep_view() == of_user(self@.rows, username@),
                Err(e) => fault && e == ServiceError::Storage,
            },
    {
        self.meta.select_by_username(username, fault)
    }

    /// Rewrites the caption of one post, and nothing else. An id with no
    /// row is a silent no-op that still reports success.
    pub fn update_caption(&mut self, id: u128, caption: &Option<String>, fault: bool) -> (r: Result<
        (),
        ServiceError,
    >)
        requires
            old(self).wf(),
            valid_caption(caption.deep_view()),
        ensures
            final(self).wf(),
            final(self)@.blobs == old(self)@.blobs,
            final(self)@.clock == old(self)@.clock,
            fault ==> r == Err::<(), ServiceError>(ServiceError::Storage) && final(self)@ == old(
                self,
            )@,
            !fault ==> r == Ok::<(), ServiceError>(()),
            !fault && !has_id(old(self)@.rows, id) ==> final(self)@ == old(self)@,
            !fault && has_id(old(self)@.rows, id) ==> (exists|i: int|
                0 <= i < old(self)@.rows.len() && old(self)@.rows[i].id == id && final(self)@.rows
                    == old(self)@.rows.update(
                    i,
                    (PostView { caption: caption.deep_view(), ..old(self)@.rows[i] }),
                )),
    {
        let r = self.meta.update_caption(id, caption, fault);
        proof {
            let pre = old(self)@;
            if self@.rows != pre.rows {
                let i = choose|i: int|
                    0 <= i < pre.rows.len() && pre.rows[i].id == id && self@.rows
                        == pre.rows.update(
                        i,
                        (PostView { caption: caption.deep_view(), ..pre.rows[i] }),
                    );
                assert forall|a: int|
                    0 <= a < self@.rows.len() implies has_path(
                    self@.blobs,
                    (#[trigger] self@.rows[a]).blob_path,
                ) by {
                    assert(self@.rows[a].blob_path == pre.rows[a].blob_path);
                }
            }
        }
        r
    }

    /// Page `page` of the posts whose author is one of the followed
    /// handles, in `created_at` order: up to ten posts, starting at
    /// offset `page * 10`. An empty following list yields an empty page.
    pub fn feed_by_following(&self, feed: &FeedFollowing, fault: bool) -> (r: Result<
        Vec<Post>,
        ServiceError,
    >)
        requires
            self.wf(),
            feed.page >= 0,
        ensures
            match r {
                Ok(posts) => !fault && posts.deep_view() == page_slice(
                    of_users(self@.rows, feed.followings.deep_view()),
                    feed.page as int,
                ),
                Err(e) => fault && e == ServiceError::Storage,
            },
    {
        self.meta.select_by_usernames_paged(&feed.followings, feed.page, fault)
    }

    /// The metadata clock's current value.
    pub fn clock(&self) -> (c: u64)
        ensures
            c == self@.clock,
    {
        self.meta.clock()
    }

    /// Reads the bytes stored under `path`, or `None` when no blob lies
    /// there.
    pub fn read_blob(&self, path: BlobPath) -> (r: Option<&Vec<u8>>)
        requires
            self.wf(),
        ensures
            match r {
                Some(d) => exists|i: int|
                    0 <= i < self@.blobs.len() && self@.blobs[i].path == path && d@
                        == self@.blobs[i].data,
                None => !has_path(self@.blobs, path),
            },
    {
        self.blobs.read(path)
    }
}

} // verus!

