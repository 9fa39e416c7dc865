//! Tests of the post lifecycle: creation, reads, caption updates,
//! deletion, and the feed, with every partial-failure policy exercised.

use poster::models::BlobPath;
use poster::models::Ext;
use poster::models::FeedFollowing;
use poster::models::ImageFile;
use poster::models::PostCreate;
use poster::models::LatestPosts;
use poster::models::PostID;
use poster::models::PostUpdate;
use poster::models::ServiceError;
use poster::models::UserPosts;
use poster::service::PostService;

fn req(username: &str, file_type: &str, caption: Option<&str>, data: &[u8]) -> PostCreate {
    PostCreate {
        username: username.to_string(),
        img_file: ImageFile { file_type: file_type.to_string(), data: data.to_vec() },
        caption: caption.map(|c| c.to_string()),
    }
}

#[test]
fn create_then_get_returns_upload() {
    let mut s = PostService::new();
    let r = s.create(&req("alice", "image/png", None, b"PNGDATA"), 1, false, false);
    assert_eq!(r, Ok(PostID { id: 1 }));
    let p = s.get(1, false).unwrap();
    assert_eq!(p.id, 1);
    assert_eq!(p.username, "alice");
    assert_eq!(p.caption, None);
    assert_eq!(p.likes, 0);
    assert_eq!(p.blob_path, BlobPath { id: 1, ext: Ext::Png });
    let bytes = s.read_blob(p.blob_path).unwrap();
    assert_eq!(bytes.as_slice(), b"PNGDATA");
}

#[test]
fn create_jpeg_gets_jpg_extension() {
    let mut s = PostService::new();
    let r = s.create(&req("alice", "image/jpeg", None, b"JPG"), 9, false, false);
    assert_eq!(r, Ok(PostID { id: 9 }));
    let p = s.get(9, false).unwrap();
    assert_eq!(p.blob_path, BlobPath { id: 9, ext: Ext::Jpg });
}

#[test]
fn create_rejects_unsupported_media_type() {
    let mut s = PostService::new();
    let r = s.create(&req("alice", "image/gif", None, b"GIF"), 1, false, false);
    assert_eq!(r, Err(ServiceError::UnsupportedMediaType));
    assert_eq!(s.get(1, false).err(), Some(ServiceError::NotFound));
    assert!(s.read_blob(BlobPath { id: 1, ext: Ext::Png }).is_none());
    assert!(s.read_blob(BlobPath { id: 1, ext: Ext::Jpg }).is_none());
}

#[test]
fn create_rejects_short_username() {
    let mut s = PostService::new();
    let r = s.create(&req("al", "image/png", None, b"X"), 1, false, false);
    assert_eq!(r, Err(ServiceError::Validation));
    assert_eq!(s.get(1, false).err(), Some(ServiceError::NotFound));
}

#[test]
fn create_rejects_long_username() {
    let mut s = PostService::new();
    let name = "a".repeat(21);
    let r = s.create(&req(&name, "image/png", None, b"X"), 1, false, false);
    assert_eq!(r, Err(ServiceError::Validation));
}

#[test]
fn create_rejects_long_caption() {
    let mut s = PostService::new();
    let caption = "x".repeat(257);
    let r = s.create(&req("alice", "image/png", Some(&caption), b"X"), 1, false, false);
    assert_eq!(r, Err(ServiceError::Validation));
}

#[test]
fn create_accepts_boundary_lengths() {
    let mut s = PostService::new();
    let name = "a".repeat(20);
    let caption = "x".repeat(256);
    let r = s.create(&req(&name, "image/png", Some(&caption), b"X"), 1, false, false);
    assert_eq!(r, Ok(PostID { id: 1 }));
    let r2 = s.create(&req("bob", "image/png", None, b"X"), 2, false, false);
    assert_eq!(r2, Ok(PostID { id: 2 }));
}

#[test]
fn create_write_fault_leaves_no_row() {
    let mut s = PostService::new();
    let r = s.create(&req("alice", "image/png", None, b"DATA"), 4, true, false);
    assert_eq!(r, Err(ServiceError::Storage));
    assert_eq!(s.get(4, false).err(), Some(ServiceError::NotFound));
    assert!(s.read_blob(BlobPath { id: 4, ext: Ext::Png }).is_none());
}

#[test]
fn create_insert_fault_leaves_orphan_blob_but_no_row() {
    let mut s = PostService::new();
    let r = s.create(&req("alice", "image/png", None, b"DATA"), 4, false, true);
    assert_eq!(r, Err(ServiceError::Storage));
    assert_eq!(s.get(4, false).err(), Some(ServiceError::NotFound));
    let orphan = s.read_blob(BlobPath { id: 4, ext: Ext::Png }).unwrap();
    assert_eq!(orphan.as_slice(), b"DATA");
}

#[test]
fn delete_reports_success_despite_blob_fault() {
    let mut s = PostService::new();
    s.create(&req("alice", "image/png", None, b"DATA"), 1, false, false).unwrap();
    let r = s.delete(1, false, true);
    assert_eq!(r, Ok(()));
    assert_eq!(s.get(1, false).err(), Some(ServiceError::NotFound));
    let orphan = s.read_blob(BlobPath { id: 1, ext: Ext::Png }).unwrap();
    assert_eq!(orphan.as_slice(), b"DATA");
}

#[test]
fn delete_removes_row_and_blob() {
    let mut s = PostService::new();
    s.create(&req("alice", "image/png", None, b"DATA"), 1, false, false).unwrap();
    assert_eq!(s.delete(1, false, false), Ok(()));
    assert_eq!(s.get(1, false).err(), Some(ServiceError::NotFound));
    assert!(s.read_blob(BlobPath { id: 1, ext: Ext::Png }).is_none());
}

#[test]
fn delete_unknown_id_is_not_found() {
    let mut s = PostService::new();
    assert_eq!(s.delete(77, false, false), Err(ServiceError::NotFound));
}

#[test]
fn delete_meta_fault_is_storage_error_and_keeps_row() {
    let mut s = PostService::new();
    s.create(&req("alice", "image/png", None, b"DATA"), 1, false, false).unwrap();
    assert_eq!(s.delete(1, true, false), Err(ServiceError::Storage));
    assert!(s.get(1, false).is_ok());
}

#[test]
fn update_caption_changes_only_caption() {
    let mut s = PostService::new();
    s.create(&req("alice", "image/png", None, b"DATA"), 1, false, false).unwrap();
    let update = PostUpdate { id: 1, caption: Some("hi".to_string()) };
    assert_eq!(s.update_caption(update.id, &update.caption, false), Ok(()));
    let p = s.get(1, false).unwrap();
    assert_eq!(p.caption, Some("hi".to_string()));
    assert_eq!(p.username, "alice");
    assert_eq!(p.blob_path, BlobPath { id: 1, ext: Ext::Png });
    assert_eq!(s.update_caption(1, &None, false), Ok(()));
    assert_eq!(s.get(1, false).unwrap().caption, None);
}

#[test]
fn update_caption_unknown_id_silently_succeeds() {
    let mut s = PostService::new();
    assert_eq!(s.update_caption(42, &Some("hi".to_string()), false), Ok(()));
}

#[test]
fn update_caption_fault_is_storage_error() {
    let mut s = PostService::new();
    s.create(&req("alice", "image/png", None, b"DATA"), 1, false, false).unwrap();
    assert_eq!(s.update_caption(1, &Some("hi".to_string()), true), Err(ServiceError::Storage));
    assert_eq!(s.get(1, false).unwrap().caption, None);
}

#[test]
fn get_fault_is_storage_error() {
    let mut s = PostService::new();
    s.create(&req("alice", "image/png", None, b"DATA"), 1, false, false).unwrap();
    assert_eq!(s.get(1, true).err(), Some(ServiceError::Storage));
}

#[test]
fn get_by_username_returns_creation_order() {
    let mut s = PostService::new();
    s.create(&req("alice", "image/png", None, b"1"), 1, false, false).unwrap();
    s.create(&req("bobby", "image/png", None, b"2"), 2, false, false).unwrap();
    s.create(&req("alice", "image/jpeg", None, b"3"), 3, false, false).unwrap();
    let body = UserPosts { posts: s.get_by_username(&"alice".to_string(), false).unwrap() };
    assert_eq!(body.posts.len(), 2);
    assert_eq!(body.posts[0].id, 1);
    assert_eq!(body.posts[1].id, 3);
    assert!(body.posts[0].created_at < body.posts[1].created_at);
}

#[test]
fn get_by_username_without_posts_is_empty_not_error() {
    let s = PostService::new();
    let posts = s.get_by_username(&"nobody".to_string(), false).unwrap();
    assert!(posts.is_empty());
}

#[test]
fn get_by_username_fault_is_storage_error() {
    let s = PostService::new();
    assert!(s.get_by_username(&"alice".to_string(), true).is_err());
}

#[test]
fn feed_pages_follow_creation_order_and_exclude_unfollowed() {
    let mut s = PostService::new();
    let names = ["alice", "bobby", "carol"];
    for i in 0..18u128 {
        let name = names[(i as usize) % 3];
        s.create(&req(name, "image/png", None, b"D"), i + 1, false, false).unwrap();
    }
    let feed = FeedFollowing {
        page: 0,
        followings: vec!["alice".to_string(), "bobby".to_string()],
    };
    let page0 = LatestPosts { posts: s.feed_by_following(&feed, false).unwrap() }.posts;
    assert_eq!(page0.len(), 10);
    for w in page0.windows(2) {
        assert!(w[0].created_at < w[1].created_at);
    }
    for p in &page0 {
        assert!(p.username == "alice" || p.username == "bobby");
    }
    let feed1 = FeedFollowing {
        page: 1,
        followings: vec!["alice".to_string(), "bobby".to_string()],
    };
    let page1 = s.feed_by_following(&feed1, false).unwrap();
    assert_eq!(page1.len(), 2);
    assert!(page0[9].created_at < page1[0].created_at);
    let feed2 = FeedFollowing {
        page: 2,
        followings: vec!["alice".to_string(), "bobby".to_string()],
    };
    assert!(s.feed_by_following(&feed2, false).unwrap().is_empty());
}

#[test]
fn feed_with_empty_followings_is_empty() {
    let mut s = PostService::new();
    s.create(&req("alice", "image/png", None, b"D"), 1, false, false).unwrap();
    let feed = FeedFollowing { page: 0, followings: vec![] };
    assert!(s.feed_by_following(&feed, false).unwrap().is_empty());
}

#[test]
fn feed_fault_is_storage_error() {
    let s = PostService::new();
    let feed = FeedFollowing { page: 0, followings: vec!["alice".to_string()] };
    assert!(s.feed_by_following(&feed, true).is_err());
}

#[test]
fn scenario_upload_update_delete() {
    let mut s = PostService::new();
    let r = s.create(&req("alice", "image/png", None, b"PNGBYTES"), 5, false, false);
    let id = r.unwrap().id;
    assert_eq!(id, 5);
    let p = s.get(id, false).unwrap();
    assert_eq!(p.username, "alice");
    assert_eq!(p.caption, None);
    assert_eq!(s.update_caption(id, &Some("hi".to_string()), false), Ok(()));
    assert_eq!(s.get(id, false).unwrap().caption, Some("hi".to_string()));
    assert_eq!(s.delete(id, false, false), Ok(()));
    assert_eq!(s.get(id, false).err(), Some(ServiceError::NotFound));
}
