//! Shared rules of the route handlers.

use vstd::prelude::*;

use crate::text::chars_of;

verus! {

/// The `Accept-Query` value every answer of a `QUERY` route carries: the
/// routes answer whatever the request content is.
pub const ACCEPT_QUERY_MEDIA_TYPE: &'static str = "*/*";

/// What a `QUERY` route does with a request: `405` for any other method,
/// `400` for a request without a `Content-Type` header, otherwise the
/// handler answers (`None`).
pub open spec fn query_status(method: Seq<char>, has_content_type: bool) -> Option<u16> {
    if method != "QUERY"@ {
        Some(405)
    } else if !has_content_type {
        Some(400)
    } else {
        None
    }
}

/// What a `QUERY` route does with a request of this method, with or without
/// a `Content-Type` header: the status it is refused with, or `None` when
/// the handler answers it.
pub fn query_gate(method: &str, has_content_type: bool) -> (r: Option<u16>)
    ensures
        r == query_status(method@, has_content_type),
{
    if !crate::text::chars_eq_str(&chars_of(method), "QUERY") {
        Some(405)
    } else if !has_content_type {
        Some(400)
    } else {
        None
    }
}

} // verus!
