//! The REST routes of an in-memory collection: what each request does to the
//! collection and what it is answered.

use vstd::prelude::*;

use crate::in_memory_collection::{add_outcome, items_of, InMemoryCollection};
use crate::json_value::{field_index, field_value, fields_with, merged, with_field, Json, JsonView};
use crate::text::{chars_of, push_str, string_of};

verus! {

/// A request to the REST routes of a collection.
#[derive(Debug)]
pub enum RestRequest {
    /// `GET /resource`: every item.
    List,
    /// `POST /resource`: store a new item.
    Create(Json),
    /// `GET /resource/{id}`: one item.
    Get(String),
    /// `PUT /resource/{id}`: replace an item.
    Replace(String, Json),
    /// `PATCH /resource/{id}`: merge into an item.
    Patch(String, Json),
    /// `DELETE /resource/{id}`: remove an item.
    Delete(String),
}

/// The answer to a request: a status code and an optional JSON body.
#[derive(Debug)]
pub struct RestResponse {
    /// HTTP status code.
    pub status: u16,
    /// JSON body, if any.
    pub body: Option<Json>,
}

/// The body of a response as a plain value.
pub open spec fn body_view(r: RestResponse) -> Option<JsonView> {
    match r.body {
        Some(b) => Some(b@),
        None => None,
    }
}

/// `200` with a body, or `404` without one.
pub open spec fn found_or_missing(r: RestResponse, item: Option<JsonView>) -> bool {
    match item {
        Some(v) => r.status == 200 && body_view(r) == Some(v),
        None => r.status == 404 && r.body is None,
    }
}

/// The route of one item: the collection's route and the id field in braces.
pub open spec fn item_route(route: Seq<char>, id_key: Seq<char>) -> Seq<char> {
    route + "/{"@ + id_key + "}"@
}

/// The route of one item of the collection routed at `route_path`.
pub fn build_item_route(route_path: &str, id_key: &str) -> (r: String)
    ensures
        r@ == item_route(route_path@, id_key@),
{
    let mut out = chars_of(route_path);
    push_str(&mut out, "/{");
    push_str(&mut out, id_key);
    push_str(&mut out, "}");
    string_of(&out)
}

/// Answers a request, changing the collection as the request asks: the list
/// is `200` with every item; a created item is `201` with the stored item, or
/// `400` when the item has no identifier to be stored under; reading,
/// replacing, merging and deleting answer `200` with the item concerned, or
/// `404` when no item has the identifier.
pub fn handle_rest(collection: &mut InMemoryCollection, request: RestRequest) -> (r: RestResponse)
    requires
        old(collection).wf(),
    ensures
        final(collection).wf(),
        final(collection).id_type() == old(collection).id_type(),
        final(collection).key() == old(collection).key(),
        final(collection).label() == old(collection).label(),
        match request {
            RestRequest::List => {
                &&& final(collection).entries() == old(collection).entries()
                &&& r.status == 200
                &&& body_view(r) == Some(JsonView::Array(items_of(old(collection).entries())))
            },
            RestRequest::Create(item) => {
                &&& add_outcome(*old(collection), *final(collection), item@, body_view(r))
                &&& r.status == (if r.body is Some {
                    201u16
                } else {
                    400u16
                })
            },
            RestRequest::Get(id) => {
                &&& final(collection).entries() == old(collection).entries()
                &&& found_or_missing(r, field_value(old(collection).entries(), id@))
            },
            RestRequest::Replace(id, item) => {
                let stored = with_field(item@, old(collection).key(), JsonView::Str(id@));
                &&& found_or_missing(
                    r,
                    if field_index(old(collection).entries(), id@) is Some {
                        Some(stored)
                    } else {
                        None
                    },
                )
                &&& final(collection).entries() == if field_index(old(collection).entries(), id@) is Some {
                    fields_with(old(collection).entries(), id@, stored)
                } else {
                    old(collection).entries()
                }
            },
            RestRequest::Patch(id, partial) => match field_value(old(collection).entries(), id@) {
                Some(existing) => {
                    let stored = with_field(
                        merged(existing, partial@),
                        old(collection).key(),
                        JsonView::Str(id@),
                    );
                    &&& found_or_missing(r, Some(stored))
                    &&& final(collection).entries() == fields_with(old(collection).entries(), id@, stored)
                },
                None => found_or_missing(r, None) && final(collection).entries() == old(collection).entries(),
            },
            RestRequest::Delete(id) => match field_index(old(collection).entries(), id@) {
                Some(i) => {
                    &&& found_or_missing(r, Some(old(collection).entries()[i].1))
                    &&& final(collection).entries() == old(collection).entries().remove(i)
                },
                None => found_or_missing(r, None) && final(collection).entries() == old(collection).entries(),
            },
        },
{
    match request {
        RestRequest::List => {
            let items = collection.get_all();
            proof {
                crate::json_value::lemma_array_view(items);
            }
            let body = Json::Array(items);
            RestResponse { status: 200, body: Some(body) }
        },
        RestRequest::Create(item) => match collection.add(item) {
            Some(stored) => RestResponse { status: 201, body: Some(stored) },
            None => RestResponse { status: 400, body: None },
        },
        RestRequest::Get(id) => match collection.get(id.as_str()) {
            Some(item) => RestResponse { status: 200, body: Some(item) },
            None => RestResponse { status: 404, body: None },
        },
        RestRequest::Replace(id, item) => match collection.update(id.as_str(), item) {
            Some(stored) => RestResponse { status: 200, body: Some(stored) },
            None => RestResponse { status: 404, body: None },
        },
        RestRequest::Patch(id, partial) => match collection.update_partial(id.as_str(), partial) {
            Some(stored) => RestResponse { status: 200, body: Some(stored) },
            None => RestResponse { status: 404, body: None },
        },
        RestRequest::Delete(id) => match collection.delete(id.as_str()) {
            Some(item) => RestResponse { status: 200, body: Some(item) },
            None => RestResponse { status: 404, body: None },
        },
    }
}

} // verus!
