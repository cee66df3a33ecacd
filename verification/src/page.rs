//! The static page at the root path.
//!
//! Where the bundled document comes from is not decided here: the functions take
//! its bytes, or `None` where no document was found.

use crate::reply::server_error;
use crate::reply::success_with;
use crate::reply::Reply;
use vstd::prelude::*;
use vstd::utf8::decode_utf8;
use vstd::utf8::valid_utf8;

verus! {

/// Why the bundled document cannot be served.
#[derive(Debug, Clone, Copy, PartialEq, Eq, Structural)]
pub enum PageError {
    /// No document was found.
    Missing,
    /// The document's bytes are not valid UTF-8.
    InvalidEncoding,
}

/// The page that a bundled document yields: its bytes read as UTF-8.
pub open spec fn page_of(asset: Option<Seq<u8>>) -> Result<Seq<char>, PageError> {
    match asset {
        None => Err(PageError::Missing),
        Some(bytes) => if valid_utf8(bytes) {
            Ok(decode_utf8(bytes))
        } else {
            Err(PageError::InvalidEncoding)
        },
    }
}

/// The bytes of an asset as a mathematical value.
pub open spec fn asset_bytes(asset: Option<Vec<u8>>) -> Option<Seq<u8>> {
    match asset {
        Some(bytes) => Some(bytes@),
        None => None,
    }
}

/// A loaded page with its text taken as a sequence of characters.
pub open spec fn loaded(result: Result<String, PageError>) -> Result<Seq<char>, PageError> {
    match result {
        Ok(text) => Ok(text@),
        Err(error) => Err(error),
    }
}

/// The reply at the root path for a bundled document.
pub open spec fn index_reply(asset: Option<Seq<u8>>) -> crate::reply::ReplyView {
    match page_of(asset) {
        Ok(text) => success_with(text),
        Err(_) => server_error(),
    }
}

/// Calls `String::from_utf8` and drops the error, if there is one.
///
/// Believed, as the standard library documents it: the call succeeds exactly on
/// valid UTF-8, and the string then holds the characters that the bytes encode.
#[verifier::external_body]
fn string_from_utf8(bytes: Vec<u8>) -> (decoded: Option<String>)
    ensures
        decoded is Some <==> valid_utf8(bytes@),
        decoded matches Some(text) ==> text@ == decode_utf8(bytes@),
{
    match String::from_utf8(bytes) {
        Ok(text) => Some(text),
        Err(_) => None,
    }
}

/// Validates the bundled document and turns it into the page's text.
pub fn load_page(asset: Option<Vec<u8>>) -> (result: Result<String, PageError>)
    ensures
        loaded(result) == page_of(asset_bytes(asset)),
{
    match asset {
        None => Err(PageError::Missing),
        Some(bytes) => match string_from_utf8(bytes) {
            Some(text) => Ok(text),
            None => Err(PageError::InvalidEncoding),
        },
    }
}

/// Answers a request for the root path: the document with a success status, or
/// the generic server error where the document is missing or is not text.
pub fn index(asset: Option<Vec<u8>>) -> (reply: Reply)
    ensures
        reply@ == index_reply(asset_bytes(asset)),
{
    match load_page(asset) {
        Ok(text) => Reply::success(text),
        Err(_) => Reply::failure(),
    }
}

} // verus!
