//! The metadata store model: relational storage of post records.
//!
//! Rows are held in creation order; the store stamps each new row with the
//! value of a logical clock that it then advances, so `created_at` is
//! strictly increasing along the rows and every query that answers in
//! `created_at` order can answer in row order. A query may fault; the
//! disposition of the underlying engine for one call is passed in as the
//! `fault` argument, and every contract states the outcome for either
//! disposition.

use crate::models::valid_caption;
use crate::models::valid_username;
use crate::models::wf_post;
use crate::models::BlobPath;
use crate::models::Post;
use crate::models::PostView;
use crate::models::ServiceError;
use crate::models::clone_caption;
use vstd::prelude::*;

verus! {

/// Some row of `rows` carries `id`.
pub open spec fn has_id(rows: Seq<PostView>, id: u128) -> bool {
    exists|i: int| 0 <= i < rows.len() && rows[i].id == id
}

/// No two rows of `rows` share an id.
pub open spec fn unique_ids(rows: Seq<PostView>) -> bool {
    forall|i: int, j: int| 0 <= i < j < rows.len() ==> rows[i].id != rows[j].id
}

/// The rows stand in strictly increasing `created_at` order.
pub open spec fn ordered_by_creation(rows: Seq<PostView>) -> bool {
    forall|i: int, j: int|
        0 <= i < j < rows.len() ==> rows[i].created_at < rows[j].created_at
}

/// The rows of `rows` whose author is `name`, in row order.
pub open spec fn of_user(rows: Seq<PostView>, name: Seq<char>) -> Seq<PostView>
    decreases rows.len(),
{
    if rows.len() == 0 {
        Seq::empty()
    } else if rows.last().username == name {
        of_user(rows.drop_last(), name).push(rows.last())
    } else {
        of_user(rows.drop_last(), name)
    }
}

/// The rows of `rows` whose author is one of `names`, in row order.
pub open spec fn of_users(rows: Seq<PostView>, names: Seq<Seq<char>>) -> Seq<PostView>
    decreases rows.len(),
{
    if rows.len() == 0 {
        Seq::empty()
    } else if names.contains(rows.last().username) {
        of_users(rows.drop_last(), names).push(rows.last())
    } else {
        of_users(rows.drop_last(), names)
    }
}

/// The fixed page size of a feed read.
pub const PAGE_SIZE: usize = 10;

/// Page `page` of `s`: the window of up to ten entries starting at offset
/// `page * 10`.
pub open spec fn page_slice(s: Seq<PostView>, page: int) -> Seq<PostView>
    recommends
        page >= 0,
{
    let off = page * 10;
    if off >= s.len() {
        Seq::empty()
    } else if off + 10 <= s.len() {
        s.subrange(off, off + 10)
    } else {
        s.subrange(off, s.len() as int)
    }
}

/// The mathematical value of a [`MetadataStore`]: its rows, in creation
/// order, and its clock.
pub ghost struct StoreView {
    pub rows: Seq<PostView>,
    pub clock: u64,
}

/// The metadata store: the persisted post records and the logical clock
/// that stamps `created_at`.
pub struct MetadataStore {
    rows: Vec<Post>,
    clock: u64,
}

impl View for MetadataStore {
    type V = StoreView;

    closed spec fn view(&self) -> StoreView {
        StoreView { rows: self.rows.deep_view(), clock: self.clock }
    }
}

impl MetadataStore {
    /// Every row is well formed and uniquely identified, rows stand in
    /// strictly increasing `created_at` order, and all stamps lie below
    /// the clock.
    pub open spec fn wf(self) -> bool {
        &&& ordered_by_creation(self@.rows)
        &&& unique_ids(self@.rows)
        &&& forall|i: int|
            0 <= i < self@.rows.len() ==> (#[trigger] self@.rows[i]).created_at < self@.clock
        &&& forall|i: int| 0 <= i < self@.rows.len() ==> wf_post(#[trigger] self@.rows[i])
    }

    /// The clock's current value.
    pub fn clock(&self) -> (c: u64)
        ensures
            c == self@.clock,
    {
        self.clock
    }

    /// An empty store.
    pub fn new() -> (r: MetadataStore)
        ensures
            r@.rows == Seq::<PostView>::empty(),
            r@.clock == 0,
            r.wf(),
    {
        MetadataStore { rows: Vec::new(), clock: 0 }
    }

    /// Inserts the row of a new post: likes at their default of zero,
    /// `created_at` stamped with the clock, which then advances. On a
    /// fault the engine reports `Storage` and inserts nothing.
    pub fn insert(
        &mut self,
        id: u128,
        username: &String,
        blob_path: BlobPath,
        caption: &Option<String>,
        fault: bool,
    ) -> (r: Result<(), ServiceError>)
        requires
            old(self).wf(),
            !has_id(old(self)@.rows, id),
            valid_username(username@),
            valid_caption(caption.deep_view()),
            blob_path.id == id,
            old(self)@.clock < u64::MAX,
        ensures
            final(self).wf(),
            fault ==> r == Err::<(), ServiceError>(ServiceError::Storage) && final(self)@ == old(
                self,
            )@,
            !fault ==> r == Ok::<(), ServiceError>(()) && final(self)@.rows == old(self)@.rows.push(
                PostView {
                    id,
                    username: username@,
                    blob_path,
                    caption: caption.deep_view(),
                    likes: 0,
                    created_at: old(self)@.clock,
                },
            ) && final(self)@.clock == old(self)@.clock + 1,
    {
        if fault {
            return Err(ServiceError::Storage);
        }
        let created_at = self.clock;
        let post = Post {
            id,
            username: username.clone(),
            blob_path,
            caption: clone_caption(caption),
            likes: 0,
            created_at,
        };
        self.rows.push(post);
        self.clock = self.clock + 1;
        proof {
            let pre = old(self)@.rows;
            let row = PostView {
                id,
                username: username@,
                blob_path,
                caption: caption.deep_view(),
                likes: 0,
                created_at: old(self)@.clock,
            };
            assert(self@.rows =~= pre.push(row));
            assert forall|i: int, j: int|
                0 <= i < j < self@.rows.len() implies self@.rows[i].created_at
                < self@.rows[j].created_at && self@.rows[i].id != self@.rows[j].id by {
                if j < pre.len() {
                    assert(self@.rows[i] == pre[i] && self@.rows[j] == pre[j]);
                } else {
                    assert(self@.rows[j] == row && self@.rows[i] == pre[i]);
                    assert(has_id(pre, id) || pre[i].id != id);
                }
            }
        }
        Ok(())
    }

    /// Looks a row up by id. On a fault the engine reports `Storage`;
    /// otherwise the row comes back, or `NotFound` when none carries `id`.
    pub fn select_by_id(&self, id: u128, fault: bool) -> (r: Result<Post, ServiceError>)
        requires
            self.wf(),
        ensures
            match r {
                Ok(p) => !fault && exists|i: int|
                    0 <= i < self@.rows.len() && self@.rows[i].id == id && p@ == self@.rows[i],
                Err(e) => (e == ServiceError::Storage && fault) || (e == ServiceError::NotFound
                    && !fault && !has_id(self@.rows, id)),
            },
    {
        if fault {
            return Err(ServiceError::Storage);
        }
        let n = self.rows.len();
        let mut i: usize = 0;
        while i < n
            invariant
                n == self.rows.len(),
                i <= n,
                !fault,
                forall|k: int| 0 <= k < i ==> self@.rows[k].id != id,
            decreases n - i,
        {
            if self.rows[i].id == id {
                let p = self.rows[i].clone();
                proof {
                    let j = i as int;
                    assert(0 <= j < self@.rows.len() && self@.rows[j].id == id && p@
                        == self@.rows[j]);
                }
                return Ok(p);
            }
            i += 1;
        }
        Err(ServiceError::NotFound)
    }

    /// Deletes the row carrying `id` and hands back its blob path. On a
    /// fault the engine reports `Storage` and deletes nothing; with no
    /// matching row it reports `NotFound`; otherwise exactly that row is
    /// gone.
    pub fn delete_by_id(&mut self, id: u128, fault: bool) -> (r: Result<BlobPath, ServiceError>)
        requires
            old(self).wf(),
        ensures
            final(self).wf(),
            final(self)@.clock == old(self)@.clock,
            fault ==> r == Err::<BlobPath, ServiceError>(ServiceError::Storage) && final(self)@
                == old(self)@,
            !fault && !has_id(old(self)@.rows, id) ==> r == Err::<BlobPath, ServiceError>(
                ServiceError::NotFound,
            ) && final(self)@ == old(self)@,
            !fault && has_id(old(self)@.rows, id) ==> (exists|i: int|
                0 <= i < old(self)@.rows.len() && old(self)@.rows[i].id == id && r == Ok::<
                    BlobPath,
                    ServiceError,
                >(old(self)@.rows[i].blob_path) && final(self)@.rows == old(self)@.rows.remove(i)),
            !fault && has_id(old(self)@.rows, id) ==> !has_id(final(self)@.rows, id),
    {
        if fault {
            return Err(ServiceError::Storage);
        }
        let n = self.rows.len();
        let mut i: usize = 0;
        while i < n
            invariant
                n == self.rows.len(),
                i <= n,
                *self == *old(self),
                old(self).wf(),
                !fault,
                forall|k: int| 0 <= k < i ==> self@.rows[k].id != id,
            decreases n - i,
        {
            if self.rows[i].id == id {
                let path = self.rows[i].blob_path;
                self.rows.remove(i);
                proof {
                    let pre = old(self)@.rows;
                    let j = i as int;
                    assert(self@.rows =~= pre.remove(j));
                    assert(0 <= j < pre.len() && pre[j].id == id && path == pre[j].blob_path);
                    assert(has_id(pre, id));
                    assert forall|k: int| 0 <= k < self@.rows.len() implies self@.rows[k].id
                        != id by {
                        if k < j {
                            assert(self@.rows[k] == pre[k]);
                        } else {
                            assert(self@.rows[k] == pre[k + 1]);
                            assert(j < k + 1 < pre.len());
                            assert(pre[j].id != pre[k + 1].id);
                        }
                    }
                    assert forall|a: int, b: int|
                        0 <= a < b < self@.rows.len() implies self@.rows[a].created_at
                        < self@.rows[b].created_at && self@.rows[a].id != self@.rows[b].id by {
                        let a0 = if a < j { a } else { a + 1 };
                        let b0 = if b < j { b } else { b + 1 };
                        assert(self@.rows[a] == pre[a0] && self@.rows[b] == pre[b0]);
                        assert(0 <= a0 < b0 < pre.len());
                    }
                }
                return Ok(path);
            }
            i += 1;
        }
        Err(ServiceError::NotFound)
    }

    /// Rewrites the caption of the row carrying `id`. On a fault the
    /// engine reports `Storage` and changes nothing. With no matching row
    /// the update is a silent no-op that still reports success; otherwise
    /// only the caption of that row changes.
    pub fn update_caption(&mut self, id: u128, caption: &Option<String>, fault: bool) -> (r: Result<
        (),
        ServiceError,
    >)
        requires
            old(self).wf(),
            valid_caption(caption.deep_view()),
        ensures
            final(self).wf(),
            final(self)@.clock == old(self)@.clock,
            fault ==> r == Err::<(), ServiceError>(ServiceError::Storage) && final(self)@ == old(
                self,
            )@,
            !fault ==> r == Ok::<(), ServiceError>(()),
            !fault && !has_id(old(self)@.rows, id) ==> final(self)@ == old(self)@,
            !fault && has_id(old(self)@.rows, id) ==> (exists|i: int|
                0 <= i < old(self)@.rows.len() && old(self)@.rows[i].id == id && final(self)@.rows
                    == old(self)@.rows.update(
                    i,
                    PostView { caption: caption.deep_view(), ..old(self)@.rows[i] },
                )),
    {
        if fault {
            return Err(ServiceError::Storage);
        }
        let n = self.rows.len();
        let mut i: usize = 0;
        while i < n
            invariant
                n == self.rows.len(),
                i <= n,
                *self == *old(self),
                old(self).wf(),
                !fault,
                valid_caption(caption.deep_view()),
                forall|k: int| 0 <= k < i ==> self@.rows[k].id != id,
            decreases n - i,
        {
            if self.rows[i].id == id {
                let row = &self.rows[i];
                let updated = Post {
                    id: row.id,
                    username: row.username.clone(),
                    blob_path: row.blob_path,
                    caption: clone_caption(caption),
                    likes: row.likes,
                    created_at: row.created_at,
                };
                self.rows[i] = updated;
                proof {
                    let pre = old(self)@.rows;
                    let j = i as int;
                    assert(has_id(pre, id));
                    assert(self@.rows =~= pre.update(
                        j,
                        PostView { caption: caption.deep_view(), ..pre[j] },
                    ));
                    assert forall|a: int, b: int|
                        0 <= a < b < self@.rows.len() implies self@.rows[a].created_at
                        < self@.rows[b].created_at && self@.rows[a].id != self@.rows[b].id by {
                        assert(self@.rows[a].created_at == pre[a].created_at && self@.rows[a].id
                            == pre[a].id);
                        assert(self@.rows[b].created_at == pre[b].created_at && self@.rows[b].id
                            == pre[b].id);
                    }
                }
                return Ok(());
            }
            i += 1;
        }
        Ok(())
    }

    /// All rows of one author, in `created_at` order. On a fault the
    /// engine reports `Storage`; an author with no rows gets the empty
    /// sequence, not an error.
    pub fn select_by_username(&self, username: &String, fault: bool) -> (r: Result<
        Vec<Post>,
        ServiceError,
    >)
        requires
            self.wf(),
        ensures
            match r {
                Ok(posts) => !fault && posts.deep_view() == of_user(self@.rows, username@),
                Err(e) => fault && e == ServiceError::Storage,
            },
    {
        if fault {
            return Err(ServiceError::Storage);
        }
        let n = self.rows.len();
        let mut out: Vec<Post> = Vec::new();
        let mut i: usize = 0;
        while i < n
            invariant
                n == self.rows.len(),
                i <= n,
                out.deep_view() == of_user(self@.rows.take(i as int), username@),
            decreases n - i,
        {
            proof {
                assert(self@.rows.take(i as int + 1).drop_last() =~= self@.rows.take(i as int));
                assert(self@.rows.take(i as int + 1).last() == self@.rows[i as int]);
            }
            if self.rows[i].username == *username {
                out.push(self.rows[i].clone());
            }
            proof {
                assert(out.deep_view() =~= of_user(self@.rows.take(i as int + 1), username@));
            }
            i += 1;
        }
        proof {
            assert(self@.rows.take(n as int) =~= self@.rows);
        }
        Ok(out)
    }

    /// Page `page` of the rows whose author is one of `usernames`, in
    /// `created_at` order: up to ten rows, starting at offset `page * 10`.
    pub fn select_by_usernames_paged(
        &self,
        usernames: &Vec<String>,
        page: i32,
        fault: bool,
    ) -> (r: Result<Vec<Post>, ServiceError>)
        requires
            self.wf(),
            page >= 0,
        ensures
            match r {
                Ok(posts) => !fault && posts.deep_view() == page_slice(
                    of_users(self@.rows, usernames.deep_view()),
                    page as int,
                ),
                Err(e) => fault && e == ServiceError::Storage,
            },
    {
        if fault {
            return Err(ServiceError::Storage);
        }
        let n = self.rows.len();
        let mut matched: Vec<Post> = Vec::new();
        let mut i: usize = 0;
        while i < n
            invariant
                n == self.rows.len(),
                i <= n,
                matched.deep_view() == of_users(self@.rows.take(i as int), usernames.deep_view()),
            decreases n - i,
        {
            proof {
                assert(self@.rows.take(i as int + 1).drop_last() =~= self@.rows.take(i as int));
                assert(self@.rows.take(i as int + 1).last() == self@.rows[i as int]);
            }
            if contains_name(usernames, &self.rows[i].username) {
                matched.push(self.rows[i].clone());
            }
            proof {
                assert(matched.deep_view() =~= of_users(
                    self@.rows.take(i as int + 1),
                    usernames.deep_view(),
                ));
            }
            i += 1;
        }
        proof {
            assert(self@.rows.take(n as int) =~= self@.rows);
        }
        let m = matched.len();
        let off64: u64 = (page as u64) * 10;
        if off64 >= m as u64 {
            let empty: Vec<Post> = Vec::new();
            proof {
                assert(empty.deep_view() =~= page_slice(
                    of_users(self@.rows, usernames.deep_view()),
                    page as int,
                ));
            }
            return Ok(empty);
        }
        let off = off64 as usize;
        let end = if m - off > PAGE_SIZE {
            off + PAGE_SIZE
        } else {
            m
        };
        let mut out: Vec<Post> = Vec::new();
        let mut k = off;
        while k < end
            invariant
                off <= k <= end <= matched.len(),
                out.deep_view() == matched.deep_view().subrange(off as int, k as int),
            decreases end - k,
        {
            out.push(matched[k].clone());
            proof {
                assert(matched.deep_view().subrange(off as int, k as int + 1)
                    =~= matched.deep_view().subrange(off as int, k as int).push(
                    matched.deep_view()[k as int],
                ));
                assert(out.deep_view() =~= matched.deep_view().subrange(off as int, k as int + 1));
            }
            k += 1;
        }
        proof {
            assert(out.deep_view() =~= page_slice(
                of_users(self@.rows, usernames.deep_view()),
                page as int,
            ));
        }
        Ok(out)
    }
}

/// Whether `name` is one of `names`.
pub fn contains_name(names: &Vec<String>, name: &String) -> (r: bool)
    ensures
        r == names.deep_view().contains(name@),
{
    let n = names.len();
    let mut i: usize = 0;
    while i < n
        invariant
            n == names.len(),
            i <= n,
            forall|k: int| 0 <= k < i ==> names.deep_view()[k] != name@,
        decreases n - i,
    {
        if names[i] == *name {
            proof {
                assert(names.deep_view()[i as int] == name@);
            }
            return true;
        }
        i += 1;
    }
    false
}

} // verus!
