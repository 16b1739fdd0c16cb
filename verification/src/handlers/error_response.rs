//! Error answers of the collection routes.
//!
//! Every answer has the same JSON shape:
//! `{"error": "<machine_code>", "message": "<human readable message>"}`.

use vstd::prelude::*;

use crate::json_value::{Json, JsonView};
use crate::text::{chars_of, decimal, decimal_chars, push_all, push_str, string_of};

verus! {

/// An error answer: HTTP status, machine-readable code and message.
#[derive(Debug, Clone, PartialEq, Eq)]
pub struct ErrorResponse {
    /// HTTP status code.
    pub status: u16,
    /// Machine-readable error code.
    pub error: String,
    /// Human-readable message.
    pub message: String,
}

/// Failure to read a collection.
#[derive(Debug, Clone, PartialEq, Eq)]
pub enum CollectionReadError {
    /// The collection lock is poisoned.
    LockPoisoned,
}

/// Failure to write a collection.
#[derive(Debug, Clone, PartialEq, Eq)]
pub enum CollectionWriteError {
    /// The collection lock is poisoned.
    LockPoisoned,
}

/// Failure to add one item.
#[derive(Debug, Clone, PartialEq, Eq)]
pub enum AddError {
    /// The collection lock is poisoned.
    LockPoisoned,
    /// The item is not a JSON object.
    NonObjectItem,
    /// The item lacks the id field.
    MissingId {
        /// Name of the id field.
        id_key: String,
    },
    /// An item with the same id exists.
    DuplicateId {
        /// The id.
        id: String,
    },
}

/// Failure to add a batch of items.
#[derive(Debug, Clone, PartialEq, Eq)]
pub enum AddBatchError {
    /// The collection lock is poisoned.
    LockPoisoned,
    /// The input is not a JSON array.
    NonArrayInput,
    /// An item is not a JSON object.
    NonObjectItem {
        /// Position of the item.
        index: usize,
    },
    /// An item lacks the id field.
    MissingId {
        /// Position of the item.
        index: usize,
        /// Name of the id field.
        id_key: String,
    },
    /// An item repeats an existing id.
    DuplicateId {
        /// Position of the item.
        index: usize,
        /// The id.
        id: String,
    },
    /// An item has an integer id that is not valid.
    InvalidIntId {
        /// Position of the item.
        index: usize,
    },
}

/// Failure to load a collection.
#[derive(Debug, Clone, PartialEq, Eq)]
pub enum LoadCollectionError {
    /// The collection lock is poisoned.
    LockPoisoned,
    /// The loaded JSON is not an array.
    NonArrayInput,
    /// The file could not be read.
    FileRead {
        /// The file.
        path: String,
    },
    /// The file is not valid JSON.
    InvalidJson {
        /// The file.
        path: String,
    },
    /// The items could not be added.
    Batch(AddBatchError),
}

/// `500 Internal Server Error`.
pub const INTERNAL_SERVER_ERROR: u16 = 500;

/// `400 Bad Request`.
pub const BAD_REQUEST: u16 = 400;

/// `409 Conflict`.
pub const CONFLICT: u16 = 409;

/// The message of a poisoned lock.
pub open spec fn poisoned_message() -> Seq<char> {
    "The collection lock is poisoned and the operation could not complete"@
}

/// `r` is the answer with the given status, code and message.
pub open spec fn answers(r: ErrorResponse, status: u16, error: Seq<char>, message: Seq<char>) -> bool {
    r.status == status && r.error@ == error && r.message@ == message
}

/// The answer to a poisoned lock.
pub open spec fn is_internal_error(r: ErrorResponse) -> bool {
    answers(r, INTERNAL_SERVER_ERROR, "internal_error"@, poisoned_message())
}

/// The answer with the given status, code and message.
pub fn error_response(status: u16, error: &str, message: String) -> (r: ErrorResponse)
    ensures
        answers(r, status, error@, message@),
{
    ErrorResponse { status, error: error.to_string(), message }
}

/// The JSON body of an answer: `{"error": code, "message": message}`.
pub fn error_body(r: &ErrorResponse) -> (body: Json)
    ensures
        body@ == JsonView::Object(
            seq![("error"@, JsonView::Str(r.error@)), ("message"@, JsonView::Str(r.message@))],
        ),
{
    let mut fields: Vec<(String, Json)> = Vec::new();
    fields.push(("error".to_string(), Json::Str(r.error.clone())));
    fields.push(("message".to_string(), Json::Str(r.message.clone())));
    proof {
        crate::json_value::lemma_object_view(fields);
    }
    let body = Json::Object(fields);
    assert(body@ == JsonView::Object(
        seq![("error"@, JsonView::Str(r.error@)), ("message"@, JsonView::Str(r.message@))],
    )) by {
        crate::json_value::lemma_object_view(fields);
        assert(crate::json_value::fields_view(fields@) =~= seq![
            ("error"@, JsonView::Str(r.error@)),
            ("message"@, JsonView::Str(r.message@)),
        ]);
    }
    body
}

fn internal_error() -> (r: ErrorResponse)
    ensures
        is_internal_error(r),
{
    error_response(
        INTERNAL_SERVER_ERROR,
        "internal_error",
        "The collection lock is poisoned and the operation could not complete".to_string(),
    )
}

/// `prefix`, the text, then `suffix`, as a string.
fn framed(prefix: &str, text: &Vec<char>, suffix: &str) -> (s: String)
    ensures
        s@ == prefix@ + text@ + suffix@,
{
    let mut out = chars_of(prefix);
    push_all(&mut out, text);
    push_str(&mut out, suffix);
    string_of(&out)
}

/// The answer to a failed read.
pub fn read_error_response(err: CollectionReadError) -> (r: ErrorResponse)
    ensures
        is_internal_error(r),
{
    match err {
        CollectionReadError::LockPoisoned => internal_error(),
    }
}

/// The answer to a failed write.
pub fn write_error_response(err: CollectionWriteError) -> (r: ErrorResponse)
    ensures
        is_internal_error(r),
{
    match err {
        CollectionWriteError::LockPoisoned => internal_error(),
    }
}

/// The answer to a failed addition of one item.
pub fn add_error_response(err: AddError) -> (r: ErrorResponse)
    ensures
        match err {
            AddError::LockPoisoned => is_internal_error(r),
            AddError::NonObjectItem => answers(
                r,
                BAD_REQUEST,
                "invalid_payload"@,
                "The request body must be a JSON object"@,
            ),
            AddError::MissingId { id_key } => answers(
                r,
                BAD_REQUEST,
                "missing_id"@,
                "The request body is missing the required id field '"@ + id_key@ + "'"@,
            ),
            AddError::DuplicateId { id } => answers(
                r,
                CONFLICT,
                "duplicate_id"@,
                "An item with id '"@ + id@ + "' already exists"@,
            ),
        },
{
    match err {
        AddError::LockPoisoned => internal_error(),
        AddError::NonObjectItem => error_response(
            BAD_REQUEST,
            "invalid_payload",
            "The request body must be a JSON object".to_string(),
        ),
        AddError::MissingId { id_key } => {
            let m = framed(
                "The request body is missing the required id field '",
                &chars_of(id_key.as_str()),
                "'",
            );
            error_response(BAD_REQUEST, "missing_id", m)
        },
        AddError::DuplicateId { id } => {
            let m = framed("An item with id '", &chars_of(id.as_str()), "' already exists");
            error_response(CONFLICT, "duplicate_id", m)
        },
    }
}

/// `"Item at index "` followed by the index.
pub open spec fn at_index(index: usize) -> Seq<char> {
    "Item at index "@ + decimal(index as nat)
}

/// `r` is the answer to the batch failure `err`.
pub open spec fn add_batch_error_answer(err: AddBatchError, r: ErrorResponse) -> bool {
    match err {
        AddBatchError::LockPoisoned => is_internal_error(r),
        AddBatchError::NonArrayInput => answers(
            r,
            BAD_REQUEST,
            "invalid_payload"@,
            "The request body must be a JSON array"@,
        ),
        AddBatchError::NonObjectItem { index } => answers(
            r,
            BAD_REQUEST,
            "invalid_payload"@,
            at_index(index) + " must be a JSON object"@,
        ),
        AddBatchError::MissingId { index, id_key } => answers(
            r,
            BAD_REQUEST,
            "missing_id"@,
            at_index(index) + " is missing the required id field '"@ + id_key@ + "'"@,
        ),
        AddBatchError::DuplicateId { index, id } => answers(
            r,
            CONFLICT,
            "duplicate_id"@,
            at_index(index) + " duplicates existing id '"@ + id@ + "'"@,
        ),
        AddBatchError::InvalidIntId { index } => answers(
            r,
            BAD_REQUEST,
            "invalid_id"@,
            at_index(index) + " has an invalid integer id"@,
        ),
    }
}

/// The answer to a failed addition of a batch.
pub fn add_batch_error_response(err: AddBatchError) -> (r: ErrorResponse)
    ensures
        add_batch_error_answer(err, r),

{
    match err {
        AddBatchError::LockPoisoned => internal_error(),
        AddBatchError::NonArrayInput => error_response(
            BAD_REQUEST,
            "invalid_payload",
            "The request body must be a JSON array".to_string(),
        ),
        AddBatchError::NonObjectItem { index } => {
            let m = framed("Item at index ", &decimal_chars(index as u64), " must be a JSON object");
            error_response(BAD_REQUEST, "invalid_payload", m)
        },
        AddBatchError::MissingId { index, id_key } => {
            let mut text = decimal_chars(index as u64);
            push_str(&mut text, " is missing the required id field '");
            push_str(&mut text, id_key.as_str());
            let m = framed("Item at index ", &text, "'");
            proof {
                assert(m@ =~= at_index(index) + " is missing the required id field '"@ + id_key@
                    + "'"@);
            }
            error_response(BAD_REQUEST, "missing_id", m)
        },
        AddBatchError::DuplicateId { index, id } => {
            let mut text = decimal_chars(index as u64);
            push_str(&mut text, " duplicates existing id '");
            push_str(&mut text, id.as_str());
            let m = framed("Item at index ", &text, "'");
            proof {
                assert(m@ =~= at_index(index) + " duplicates existing id '"@ + id@ + "'"@);
            }
            error_response(CONFLICT, "duplicate_id", m)
        },
        AddBatchError::InvalidIntId { index } => {
            let m = framed(
                "Item at index ",
                &decimal_chars(index as u64),
                " has an invalid integer id",
            );
            error_response(BAD_REQUEST, "invalid_id", m)
        },
    }
}

/// The answer to a failed load of a collection.
pub fn load_collection_error_response(err: LoadCollectionError) -> (r: ErrorResponse)
    ensures
        match err {
            LoadCollectionError::LockPoisoned => is_internal_error(r),
            LoadCollectionError::NonArrayInput => answers(
                r,
                BAD_REQUEST,
                "invalid_payload"@,
                "The loaded JSON must contain an array at the root"@,
            ),
            LoadCollectionError::FileRead { path } => answers(
                r,
                INTERNAL_SERVER_ERROR,
                "file_read_error"@,
                "Could not read file '"@ + path@ + "'"@,
            ),
            LoadCollectionError::InvalidJson { path } => answers(
                r,
                BAD_REQUEST,
                "invalid_payload"@,
                "File '"@ + path@ + "' does not contain valid JSON"@,
            ),
            LoadCollectionError::Batch(inner) => add_batch_error_answer(inner, r),
        },
{
    match err {
        LoadCollectionError::LockPoisoned => internal_error(),
        LoadCollectionError::NonArrayInput => error_response(
            BAD_REQUEST,
            "invalid_payload",
            "The loaded JSON must contain an array at the root".to_string(),
        ),
        LoadCollectionError::FileRead { path } => {
            let m = framed("Could not read file '", &chars_of(path.as_str()), "'");
            error_response(INTERNAL_SERVER_ERROR, "file_read_error", m)
        },
        LoadCollectionError::InvalidJson { path } => {
            let m = framed("File '", &chars_of(path.as_str()), "' does not contain valid JSON");
            error_response(BAD_REQUEST, "invalid_payload", m)
        },
        LoadCollectionError::Batch(inner) => add_batch_error_response(inner),
    }
}

} // verus!
