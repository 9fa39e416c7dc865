//! Post identifiers read from request paths.
//!
//! An id travels as its canonical text form in a path segment; here it
//! is parsed back into its 128-bit value, and a segment in no uuid text
//! form is refused as malformed input.

use crate::models::PostID;
use crate::models::ServiceError;
use core::str::FromStr;
use vstd::prelude::*;

verus! {

/// What uuid's parser makes of a string: the 128-bit value of the
/// identifier the string denotes, or nothing when the string is in no
/// uuid text form.
pub uninterp spec fn parsed_uuid(s: Seq<char>) -> Option<u128>;

/// Relies on uuid::Uuid::from_str, which reads an identifier from
/// hexadecimal digits with optional hyphens, and uuid::Uuid::as_u128,
/// which returns its big-endian value: the result depends on the
/// characters of the input alone.
#[verifier::external_body]
fn uuid_from_str(s: &str) -> (r: Option<u128>)
    ensures
        r == parsed_uuid(s@),
{
    match uuid::Uuid::from_str(s) {
        Ok(u) => Some(u.as_u128()),
        Err(_) => None,
    }
}

/// Reads a post id from a path segment; a segment in no uuid text form
/// is malformed input.
pub fn parse_post_id(s: &str) -> (r: Result<PostID, ServiceError>)
    ensures
        match r {
            Ok(p) => parsed_uuid(s@) == Some(p.id),
            Err(e) => e == ServiceError::Validation && parsed_uuid(s@) is None,
        },
{
    match uuid_from_str(s) {
        Some(id) => Ok(PostID { id }),
        None => Err(ServiceError::Validation),
    }
}

} // verus!
