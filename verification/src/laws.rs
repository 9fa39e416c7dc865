//! The cross-operation laws of the posting core, each proved over the
//! views that the operations' own contracts speak of.

use crate::blob::has_path;
use crate::blob::BlobView;
use crate::models::wf_post;
use crate::models::BlobPath;
use crate::models::Ext;
use crate::models::PostView;
use crate::service::service_inv;
use crate::service::ServiceView;
use crate::store::has_id;
use crate::store::of_user;
use crate::store::of_users;
use crate::store::ordered_by_creation;
use crate::store::page_slice;
use crate::store::unique_ids;
use vstd::prelude::*;

verus! {

/// Once a creation has succeeded — the fresh row pushed onto the rows
/// and the uploaded bytes stored under the row's path, as `create`'s
/// contract states — the new id is visible, the only row carrying it is
/// the new row (so that is the row a read returns), and its blob path
/// resolves to exactly the uploaded bytes.
pub proof fn lemma_create_then_get(
    rows: Seq<PostView>,
    blobs: Seq<BlobView>,
    row: PostView,
    data: Seq<u8>,
)
    requires
        !has_id(rows, row.id),
        !has_path(blobs, row.blob_path),
    ensures
        has_id(rows.push(row), row.id),
        forall|i: int|
            0 <= i < rows.push(row).len() && (#[trigger] rows.push(row)[i]).id == row.id
                ==> rows.push(row)[i] == row,
        has_path(blobs.push((BlobView { path: row.blob_path, data })), row.blob_path),
        forall|j: int|
            0 <= j < blobs.push((BlobView { path: row.blob_path, data })).len() && (#[trigger] blobs.push(
                (BlobView { path: row.blob_path, data }),
            )[j]).path == row.blob_path ==> blobs.push(
                (BlobView { path: row.blob_path, data }),
            )[j].data == data,
{
    let rows2 = rows.push(row);
    assert(rows2[rows.len() as int] == row);
    assert forall|i: int|
        0 <= i < rows2.len() && (#[trigger] rows2[i]).id == row.id implies rows2[i] == row by {
        if i < rows.len() {
            assert(rows2[i] == rows[i]);
            assert(has_id(rows, row.id));
        }
    }
    let entry = (BlobView { path: row.blob_path, data });
    let blobs2 = blobs.push(entry);
    assert(blobs2[blobs.len() as int] == entry);
    assert forall|j: int|
        0 <= j < blobs2.len() && (#[trigger] blobs2[j]).path == row.blob_path implies blobs2[j].data
        == data by {
        if j < blobs.len() {
            assert(blobs2[j] == blobs[j]);
            assert(has_path(blobs, row.blob_path));
        }
    }
}

/// When the blob write fails, a creation leaves the state unchanged, as
/// `create`'s contract states; and in such a state no row of any id
/// references the attempted path, since every row's path carries the
/// row's own id and the generated id was fresh. A read of any id can
/// therefore never return a row referencing the attempted path.
pub proof fn lemma_failed_write_leaves_no_row(v: ServiceView, id: u128, ext: Ext)
    requires
        service_inv(v),
        !has_id(v.rows, id),
    ensures
        forall|i: int|
            0 <= i < v.rows.len() ==> (#[trigger] v.rows[i]).blob_path != (BlobPath { id, ext }),
{
    assert forall|i: int|
        0 <= i < v.rows.len() implies (#[trigger] v.rows[i]).blob_path != (BlobPath {
        id,
        ext,
    }) by {
        assert(wf_post(v.rows[i]));
        if v.rows[i].blob_path == (BlobPath { id, ext }) {
            assert(v.rows[i].id == id);
            assert(has_id(v.rows, id));
        }
    }
}

/// A successful delete removes exactly the matched row, as `delete`'s
/// contract states; with uniquely identified rows no remaining row
/// carries the id, so a subsequent read of it reports `NotFound` by the
/// read's contract.
pub proof fn lemma_delete_removes_visibility(rows: Seq<PostView>, i: int, id: u128)
    requires
        unique_ids(rows),
        0 <= i < rows.len(),
        rows[i].id == id,
    ensures
        !has_id(rows.remove(i), id),
{
    let rest = rows.remove(i);
    assert forall|k: int| 0 <= k < rest.len() implies (#[trigger] rest[k]).id != id by {
        if k < i {
            assert(rest[k] == rows[k]);
        } else {
            assert(rest[k] == rows[k + 1]);
            assert(i < k + 1 < rows.len());
            assert(rows[i].id != rows[k + 1].id);
        }
    }
}

/// Every post of one author's sequence, as `get_by_username` returns it,
/// carries that author's handle, appears among the rows, and the
/// sequence keeps the rows' creation order — ascending `created_at`.
pub proof fn lemma_of_user_props(rows: Seq<PostView>, name: Seq<char>)
    requires
        ordered_by_creation(rows),
    ensures
        ordered_by_creation(of_user(rows, name)),
        forall|k: int|
            0 <= k < of_user(rows, name).len() ==> (#[trigger] of_user(rows, name)[k]).username
                == name,
        forall|k: int|
            0 <= k < of_user(rows, name).len() ==> (exists|t: int|
                0 <= t < rows.len() && (#[trigger] of_user(rows, name)[k]) == #[trigger] rows[t]),
    decreases rows.len(),
{
    if rows.len() == 0 {
    } else {
        let head = rows.drop_last();
        assert(ordered_by_creation(head));
        lemma_of_user_props(head, name);
        let s0 = of_user(head, name);
        let s = of_user(rows, name);
        assert forall|k: int|
            0 <= k < s0.len() implies (exists|t: int|
            0 <= t < rows.len() && (#[trigger] s0[k]) == #[trigger] rows[t]) by {
            let t = choose|t: int| 0 <= t < head.len() && s0[k] == head[t];
            assert(head[t] == rows[t]);
        }
        if rows.last().username == name {
            assert(s == s0.push(rows.last()));
            assert(rows.last() == rows[rows.len() - 1]);
            assert forall|k: int|
                0 <= k < s.len() implies (exists|t: int|
                0 <= t < rows.len() && (#[trigger] s[k]) == #[trigger] rows[t]) by {
                if k < s0.len() {
                    assert(s[k] == s0[k]);
                } else {
                    assert(s[k] == rows[rows.len() - 1]);
                }
            }
            assert forall|a: int, b: int|
                0 <= a < b < s.len() implies s[a].created_at < s[b].created_at by {
                if b < s0.len() {
                    assert(s[a] == s0[a] && s[b] == s0[b]);
                } else {
                    assert(s[b] == rows[rows.len() - 1]);
                    let t = choose|t: int| 0 <= t < head.len() && s0[a] == head[t];
                    assert(s[a] == head[t] && head[t] == rows[t]);
                    assert(rows[t].created_at < rows[rows.len() - 1].created_at);
                }
            }
        } else {
            assert(s == s0);
        }
    }
}

/// Every post of a feed's filtered sequence belongs to one of the
/// followed authors, appears among the rows, and the sequence keeps the
/// rows' creation order — ascending `created_at`.
pub proof fn lemma_of_users_props(rows: Seq<PostView>, names: Seq<Seq<char>>)
    requires
        ordered_by_creation(rows),
    ensures
        ordered_by_creation(of_users(rows, names)),
        forall|k: int|
            0 <= k < of_users(rows, names).len() ==> names.contains(
                (#[trigger] of_users(rows, names)[k]).username,
            ),
        forall|k: int|
            0 <= k < of_users(rows, names).len() ==> (exists|t: int|
                0 <= t < rows.len() && (#[trigger] of_users(rows, names)[k]) == #[trigger] rows[t]),
    decreases rows.len(),
{
    if rows.len() == 0 {
    } else {
        let head = rows.drop_last();
        assert(ordered_by_creation(head));
        lemma_of_users_props(head, names);
        let s0 = of_users(head, names);
        let s = of_users(rows, names);
        assert forall|k: int|
            0 <= k < s0.len() implies (exists|t: int|
            0 <= t < rows.len() && (#[trigger] s0[k]) == #[trigger] rows[t]) by {
            let t = choose|t: int| 0 <= t < head.len() && s0[k] == head[t];
            assert(head[t] == rows[t]);
        }
        if names.contains(rows.last().username) {
            assert(s == s0.push(rows.last()));
            assert(rows.last() == rows[rows.len() - 1]);
            assert forall|k: int|
                0 <= k < s.len() implies (exists|t: int|
                0 <= t < rows.len() && (#[trigger] s[k]) == #[trigger] rows[t]) by {
                if k < s0.len() {
                    assert(s[k] == s0[k]);
                } else {
                    assert(s[k] == rows[rows.len() - 1]);
                }
            }
            assert forall|a: int, b: int|
                0 <= a < b < s.len() implies s[a].created_at < s[b].created_at by {
                if b < s0.len() {
                    assert(s[a] == s0[a] && s[b] == s0[b]);
                } else {
                    assert(s[b] == rows[rows.len() - 1]);
                    let t = choose|t: int| 0 <= t < head.len() && s0[a] == head[t];
                    assert(s[a] == head[t] && head[t] == rows[t]);
                    assert(rows[t].created_at < rows[rows.len() - 1].created_at);
                }
            }
        } else {
            assert(s == s0);
        }
    }
}

/// A feed page, as `feed_by_following` returns it, holds at most ten
/// posts, only posts of followed authors, in ascending `created_at`
/// order; and page `p` is the window of the filtered sequence starting
/// at offset `10·p`, so consecutive pages cut consecutive windows.
pub proof fn lemma_feed_page(rows: Seq<PostView>, names: Seq<Seq<char>>, page: int)
    requires
        ordered_by_creation(rows),
        page >= 0,
    ensures
        page_slice(of_users(rows, names), page).len() <= 10,
        ordered_by_creation(page_slice(of_users(rows, names), page)),
        forall|k: int|
            0 <= k < page_slice(of_users(rows, names), page).len() ==> names.contains(
                (#[trigger] page_slice(of_users(rows, names), page)[k]).username,
            ),
{
    lemma_of_users_props(rows, names);
    let s = of_users(rows, names);
    let p = page_slice(s, page);
    let off = page * 10;
    assert(off >= 0);
    if off >= s.len() {
    } else {
        assert(forall|k: int| 0 <= k < p.len() ==> p[k] == s[off + k]);
        assert forall|k: int|
            0 <= k < p.len() implies names.contains((#[trigger] p[k]).username) by {
            assert(p[k] == s[off + k]);
        }
        assert forall|a: int, b: int|
            0 <= a < b < p.len() implies p[a].created_at < p[b].created_at by {
            assert(p[a] == s[off + a] && p[b] == s[off + b]);
        }
    }
}

/// Consecutive feed pages cut consecutive windows: every post of page
/// `p` was created before every post of page `p + 1`, so the next page
/// holds exactly the next posts in `created_at` order.
pub proof fn lemma_feed_pages_consecutive(rows: Seq<PostView>, names: Seq<Seq<char>>, page: int)
    requires
        ordered_by_creation(rows),
        page >= 0,
    ensures
        forall|a: int, b: int|
            0 <= a < page_slice(of_users(rows, names), page).len() && 0 <= b < page_slice(
                of_users(rows, names),
                page + 1,
            ).len() ==> (#[trigger] page_slice(of_users(rows, names), page)[a]).created_at < (
            #[trigger] page_slice(of_users(rows, names), page + 1)[b]).created_at,
{
    lemma_of_users_props(rows, names);
    lemma_feed_page(rows, names, page);
    let s = of_users(rows, names);
    let p0 = page_slice(s, page);
    let p1 = page_slice(s, page + 1);
    let off = page * 10;
    assert((page + 1) * 10 == off + 10);
    assert forall|a: int, b: int|
        0 <= a < p0.len() && 0 <= b < p1.len() implies p0[a].created_at < p1[b].created_at by {
        assert(p0.len() <= 10);
        assert(p0[a] == s[off + a]);
        assert(p1[b] == s[off + 10 + b]);
        assert(off + a < off + 10 + b < s.len());
    }
}

} // verus!
