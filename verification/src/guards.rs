//! Request guards: the content-length ceiling and the multipart
//! content-type test that stand before the upload endpoint.

use vstd::prelude::*;
use crate::text::{contains_seq, contains_str, parse_usize, parses_as_usize};

verus! {

/// The request size ceiling, in megabytes.
pub const MAX_CONTENT_LENGTH: usize = 10;

/// Admits a request by its declared size: reads (`GET`) always pass;
/// anything else passes exactly when it declares a `content-length` that
/// parses as a number strictly below `max_size`.
pub fn check_content_length(is_get: bool, content_length: Option<&str>, max_size: usize) -> (r:
    bool)
    ensures
        is_get ==> r,
        !is_get ==> r == (content_length matches Some(h) && exists|n: nat|
            #[trigger] parses_as_usize(h@, n) && n < max_size),
{
    if is_get {
        return true;
    }
    match content_length {
        None => false,
        Some(h) => match parse_usize(h) {
            Some(n) => n < max_size,
            None => false,
        },
    }
}

/// Whether the declared content type announces a multipart form upload.
pub fn is_multipart(content_type: Option<&str>) -> (r: bool)
    ensures
        r == (content_type matches Some(h) && contains_seq(h@, "multipart/form-data"@)),
{
    match content_type {
        None => false,
        Some(h) => contains_str(h, "multipart/form-data"),
    }
}

} // verus!
