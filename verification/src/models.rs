//! Data types of the posting core, their mathematical views, and the
//! validation rules on inbound input.

use vstd::prelude::*;
use vstd::string::StrSliceExecFns;

verus! {

/// The failure kinds a post operation can report.
///
/// `UnsupportedMediaType` is the validation failure reserved for a declared
/// media type outside the allow-list; `Validation` covers the other
/// malformed or oversized inputs (username length out of range, caption too
/// long). `NotFound` means no metadata row matched the requested id.
/// `Storage` is any other fault of the underlying blob or metadata store.
#[derive(Clone, Copy, PartialEq, Eq, Structural, Debug)]
pub enum ServiceError {
    UnsupportedMediaType,
    Validation,
    NotFound,
    Storage,
}

/// The failure kinds the authorization gateway can report.
///
/// `BadRequest`: a required credential could not be extracted.
/// `Unauthorized`: the external verifier rejected the credentials.
/// `ServiceUnavailable`: the call to the verifier failed at the transport
/// level, as opposed to a normal rejection.
#[derive(Clone, Copy, PartialEq, Eq, Structural, Debug)]
pub enum GatewayError {
    BadRequest,
    Unauthorized,
    ServiceUnavailable,
}

/// The image formats of the allow-list, named by the file extension a blob
/// path carries.
#[derive(Clone, Copy, PartialEq, Eq, Structural, Debug)]
pub enum Ext {
    Png,
    Jpg,
}

/// The location of an image in the blob store: the path derived at creation
/// from the generated post id and the extension of the declared media type.
#[derive(Clone, Copy, PartialEq, Eq, Structural, Debug)]
pub struct BlobPath {
    pub id: u128,
    pub ext: Ext,
}

/// The extension the allow-list maps a declared media type to:
/// `image/png` to png, `image/jpeg` to jpg, everything else refused.
pub open spec fn ext_of_media_type(m: Seq<char>) -> Option<Ext> {
    if m == "image/png"@ {
        Some(Ext::Png)
    } else if m == "image/jpeg"@ {
        Some(Ext::Jpg)
    } else {
        None
    }
}

/// Maps a declared media type to its extension, or `None` for a type
/// outside the allow-list.
pub fn file_extension(media_type: &String) -> (r: Option<Ext>)
    ensures
        r == ext_of_media_type(media_type@),
{
    if *media_type == "image/png".to_owned() {
        Some(Ext::Png)
    } else if *media_type == "image/jpeg".to_owned() {
        Some(Ext::Jpg)
    } else {
        None
    }
}

/// An author handle is 3 to 20 characters long.
pub open spec fn valid_username(u: Seq<char>) -> bool {
    3 <= u.len() <= 20
}

/// A caption, when present, is at most 256 characters long.
pub open spec fn valid_caption(c: Option<Seq<char>>) -> bool {
    match c {
        Some(s) => s.len() <= 256,
        None => true,
    }
}

/// Checks the author-handle length rule.
pub fn check_username(u: &String) -> (r: bool)
    ensures
        r == valid_username(u@),
{
    let n = u.as_str().unicode_len();
    3 <= n && n <= 20
}

/// Checks the caption length rule.
pub fn check_caption(c: &Option<String>) -> (r: bool)
    ensures
        r == valid_caption(c.deep_view()),
{
    match c {
        Some(s) => s.as_str().unicode_len() <= 256,
        None => true,
    }
}

/// A persisted content item, as the metadata store records it.
pub struct Post {
    pub id: u128,
    pub username: String,
    pub blob_path: BlobPath,
    pub caption: Option<String>,
    pub likes: i32,
    pub created_at: u64,
}

/// The mathematical value of a [`Post`].
pub ghost struct PostView {
    pub id: u128,
    pub username: Seq<char>,
    pub blob_path: BlobPath,
    pub caption: Option<Seq<char>>,
    pub likes: i32,
    pub created_at: u64,
}

impl View for Post {
    type V = PostView;

    open spec fn view(&self) -> PostView {
        PostView {
            id: self.id,
            username: self.username@,
            blob_path: self.blob_path,
            caption: self.caption.deep_view(),
            likes: self.likes,
            created_at: self.created_at,
        }
    }
}

impl DeepView for Post {
    type V = PostView;

    open spec fn deep_view(&self) -> PostView {
        self.view()
    }
}

/// Copies an optional caption.
pub fn clone_caption(c: &Option<String>) -> (r: Option<String>)
    ensures
        r.deep_view() == c.deep_view(),
{
    match c {
        Some(s) => Some(s.clone()),
        None => None,
    }
}

impl Clone for Post {
    fn clone(&self) -> (res: Self)
        ensures
            res@ == self@,
    {
        Post {
            id: self.id,
            username: self.username.clone(),
            blob_path: self.blob_path,
            caption: clone_caption(&self.caption),
            likes: self.likes,
            created_at: self.created_at,
        }
    }
}

/// A record is well formed when its author handle and caption obey the
/// length rules and its blob path carries its own id.
pub open spec fn wf_post(p: PostView) -> bool {
    &&& valid_username(p.username)
    &&& valid_caption(p.caption)
    &&& p.blob_path.id == p.id
}

/// The raw image of an upload: its declared media type and its bytes.
pub struct ImageFile {
    pub file_type: String,
    pub data: Vec<u8>,
}

/// The mathematical value of an [`ImageFile`].
pub ghost struct ImageFileView {
    pub file_type: Seq<char>,
    pub data: Seq<u8>,
}

impl View for ImageFile {
    type V = ImageFileView;

    open spec fn view(&self) -> ImageFileView {
        ImageFileView { file_type: self.file_type@, data: self.data@ }
    }
}

/// The transient input of a creation: author handle, raw image with its
/// declared media type, and an optional caption.
pub struct PostCreate {
    pub username: String,
    pub img_file: ImageFile,
    pub caption: Option<String>,
}

/// The mathematical value of a [`PostCreate`].
pub ghost struct PostCreateView {
    pub username: Seq<char>,
    pub img_file: ImageFileView,
    pub caption: Option<Seq<char>>,
}

impl View for PostCreate {
    type V = PostCreateView;

    open spec fn view(&self) -> PostCreateView {
        PostCreateView {
            username: self.username@,
            img_file: self.img_file@,
            caption: self.caption.deep_view(),
        }
    }
}

impl PostCreate {
    /// The upload passes validation: handle and caption lengths in range.
    /// The media type is judged separately, against the allow-list.
    pub open spec fn is_valid(self) -> bool {
        valid_username(self@.username) && valid_caption(self@.caption)
    }

    /// Checks handle and caption lengths, reporting `Validation` on the
    /// first rule broken.
    pub fn validate(&self) -> (r: Result<(), ServiceError>)
        ensures
            r matches Ok(_) <==> self.is_valid(),
            r matches Err(e) ==> e == ServiceError::Validation,
    {
        if !check_username(&self.username) {
            Err(ServiceError::Validation)
        } else if !check_caption(&self.caption) {
            Err(ServiceError::Validation)
        } else {
            Ok(())
        }
    }
}

/// A post id, alone: the body of a delete, read or create response.
#[derive(Clone, Copy, PartialEq, Eq, Structural, Debug)]
pub struct PostID {
    pub id: u128,
}

/// The input of a caption update: the id of the post and the new caption.
pub struct PostUpdate {
    pub id: u128,
    pub caption: Option<String>,
}

/// The input of a feed read: the page number and the followed author
/// handles.
pub struct FeedFollowing {
    pub page: i32,
    pub followings: Vec<String>,
}

/// The body of a feed response.
pub struct LatestPosts {
    pub posts: Vec<Post>,
}

/// The body of a read of all posts of one author.
pub struct UserPosts {
    pub posts: Vec<Post>,
}

} // verus!
