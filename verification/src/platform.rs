//! What the library takes on trust from the platform: how a path falls
//! into segments, and which byte strings are text.
//!
//! Paths are byte strings here. They are handed to `std::path::Path`
//! through the conversions of `bstr`, which cost nothing where a path may
//! hold any bytes and refuse bytes that are not UTF-8 where it may not.
//! Nothing in this module is proved: each function states what the function
//! it calls is documented to do.

use bstr::ByteSlice;
use bstr::Utf8Error;
use vstd::prelude::*;
use vstd::utf8::valid_utf8;

verus! {

/// `bstr::Utf8Error`: why a byte string is not UTF-8. The library only
/// passes such a value on.
#[verifier::external_type_specification]
#[verifier::external_body]
pub struct ExUtf8Error(Utf8Error);

/// Whether the platform that the library is built for takes the bytes as a
/// path: whether `bstr::ByteSlice::to_path` succeeds on them. Where a path
/// may hold any bytes it always does.
pub uninterp spec fn path_is_taken(path: Seq<u8>) -> bool;

/// The final segment of a path, as `std::path::Path::file_name` reads it on
/// the platform that the library is built for; `None` where the path has
/// none.
pub uninterp spec fn path_file_name(path: Seq<u8>) -> Option<Seq<u8>>;

/// A path without its final segment, as `std::path::Path::parent` reads it
/// on the platform that the library is built for; `None` where the path
/// ends in a root or is empty.
pub uninterp spec fn path_parent(path: Seq<u8>) -> Option<Seq<u8>>;

/// The bytes that an optional byte string holds.
pub open spec fn bytes_of(value: Option<Vec<u8>>) -> Option<Seq<u8>> {
    match value {
        Some(bytes) => Some(bytes@),
        None => None,
    }
}

/// Calls `std::path::Path::file_name` on the path that
/// `bstr::ByteSlice::to_path` makes of the bytes, and hands the segment
/// back as bytes, through `bstr::ByteSlice::from_os_str`.
///
/// Claimed: whether the conversion succeeds and what is found are
/// functions of the bytes alone, and the conversion fails on no byte string
/// that is UTF-8.
#[verifier::external_body]
pub(crate) fn file_name(path: &[u8]) -> (found: Result<Option<Vec<u8>>, Utf8Error>)
    ensures
        found is Ok <==> path_is_taken(path@),
        found matches Ok(name) ==> bytes_of(name) == path_file_name(path@),
        found is Err ==> !valid_utf8(path@),
{
    let name = path.to_path()?.file_name();
    Ok(name.and_then(<[u8]>::from_os_str).map(<[u8]>::to_vec))
}

/// Calls `std::path::Path::parent` on the path that
/// `bstr::ByteSlice::to_path` makes of the bytes, and hands the parent back
/// as bytes, through `bstr::ByteSlice::from_path`.
///
/// Claimed: whether the conversion succeeds and what is found are
/// functions of the bytes alone, and the conversion fails on no byte string
/// that is UTF-8.
#[verifier::external_body]
pub(crate) fn parent(path: &[u8]) -> (found: Result<Option<Vec<u8>>, Utf8Error>)
    ensures
        found is Ok <==> path_is_taken(path@),
        found matches Ok(directory) ==> bytes_of(directory) == path_parent(path@),
        found is Err ==> !valid_utf8(path@),
{
    let directory = path.to_path()?.parent();
    Ok(directory.and_then(<[u8]>::from_path).map(<[u8]>::to_vec))
}

/// Calls `bstr::ByteSlice::is_utf8`.
///
/// Claimed: the result is true if and only if the bytes are valid UTF-8.
#[verifier::external_body]
pub(crate) fn is_utf8(bytes: &[u8]) -> (valid: bool)
    ensures
        valid == valid_utf8(bytes@),
{
    bytes.is_utf8()
}

} // verus!
