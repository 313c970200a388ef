//! The uniform shape of a reply: a status, a reason, the route that was
//! asked for, and the content.

use vstd::prelude::*;
use vstd::string::*;

use crate::errors::{ApiError, ApiErrorType, STATUS_BAD_REQUEST, STATUS_INTERNAL_ERROR, STATUS_OK};
use crate::json::{as_json, json_of, json_quoted, object_text, quoted, serialize_all_entries};
use crate::mapping::Mapping;

verus! {

/// The status of a reply that carries what was asked for.
pub const STATUS_SUCCESS: &'static str = "Success";

/// The status of a reply that carries an error.
pub const STATUS_ERROR: &'static str = "Error";

/// The content of a reply that has nothing to carry.
pub const CONTENT_NULL: &'static str = "null";

/// The reason of a reply to a rejection that is not one of this crate's.
pub const REASON_INTERNAL: &'static str = "Internal Server Error";

/// A reply as it goes over the wire. `content` is JSON text.
#[derive(Debug, Clone, PartialEq, Eq)]
pub struct JsonReply {
    /// HTTP status.
    pub code: u16,
    /// `Success` or `Error`.
    pub status: String,
    /// What happened, for a human reader.
    pub reason: String,
    /// The operation that was asked for.
    pub route: String,
    /// The payload as JSON text, or `null`.
    pub content: String,
}

/// A reply by what it holds.
pub struct ReplyView {
    pub code: u16,
    pub status: Seq<char>,
    pub reason: Seq<char>,
    pub route: Seq<char>,
    pub content: Seq<char>,
}

impl View for JsonReply {
    type V = ReplyView;

    open spec fn view(&self) -> ReplyView {
        ReplyView {
            code: self.code,
            status: self.status@,
            reason: self.reason@,
            route: self.route@,
            content: self.content@,
        }
    }
}

/// The reply that carries `content`.
pub open spec fn ok_reply(route: Seq<char>, reason: Seq<char>, content: Seq<char>) -> ReplyView {
    ReplyView { code: STATUS_OK, status: STATUS_SUCCESS@, reason, route, content }
}

/// The reply that carries an error: its text as the reason, its status,
/// and no content.
pub open spec fn err_reply(route: Seq<char>, error: ApiErrorType) -> ReplyView {
    ReplyView {
        code: error.status_spec(),
        status: STATUS_ERROR@,
        reason: error.message_spec(),
        route,
        content: CONTENT_NULL@,
    }
}

/// The route of a request, from which its replies are made.
#[derive(Debug, Clone, PartialEq, Eq)]
pub struct CallResponse {
    pub route: String,
}

impl CallResponse {
    /// Replies for the route `route`.
    pub fn new(route: &str) -> (response: Self)
        ensures
            response.route@ == route@,
    {
        CallResponse { route: String::from_str(route) }
    }

    /// The reply that carries `content`, which is JSON text.
    pub fn into_ok(&self, reason: &str, content: String) -> (reply: JsonReply)
        ensures
            reply@ == ok_reply(self.route@, reason@, content@),
    {
        JsonReply {
            code: STATUS_OK,
            status: String::from_str(STATUS_SUCCESS),
            reason: String::from_str(reason),
            route: self.route.clone(),
            content,
        }
    }

    /// The reply that carries `error`: status 400 for a rejected envelope,
    /// 500 for every other error.
    pub fn into_err(&self, error: &ApiErrorType) -> (reply: JsonReply)
        ensures
            reply@ == err_reply(self.route@, *error),
    {
        JsonReply {
            code: error.status(),
            status: String::from_str(STATUS_ERROR),
            reason: error.message(),
            route: self.route.clone(),
            content: String::from_str(CONTENT_NULL),
        }
    }
}

/// The reply to a request that was turned away before it was handled. A
/// rejection of this crate's is reported with its own status and text; any
/// other as an internal error.
pub fn handle_rejection(rejection: Option<&ApiError>) -> (reply: JsonReply)
    ensures
        reply@ == match rejection {
            Some(error) => ReplyView {
                code: error.code,
                status: STATUS_ERROR@,
                reason: error.message.message_spec(),
                route: error.route@,
                content: CONTENT_NULL@,
            },
            None => ReplyView {
                code: STATUS_INTERNAL_ERROR,
                status: STATUS_ERROR@,
                reason: REASON_INTERNAL@,
                route: Seq::<char>::empty(),
                content: CONTENT_NULL@,
            },
        },
{
    match rejection {
        Some(error) => JsonReply {
            code: error.code,
            status: String::from_str(STATUS_ERROR),
            reason: error.message.message(),
            route: error.route.clone(),
            content: String::from_str(CONTENT_NULL),
        },
        None => JsonReply {
            code: STATUS_INTERNAL_ERROR,
            status: String::from_str(STATUS_ERROR),
            reason: String::from_str(REASON_INTERNAL),
            route: String::new(),
            content: String::from_str(CONTENT_NULL),
        },
    }
}

/// The rejection of a request whose envelope was not admitted.
pub fn invalid_signature(id: &str, route: &str) -> (error: ApiError)
    ensures
        error.code == STATUS_BAD_REQUEST,
        error.message == ApiErrorType::InvalidSignature,
        error.id@ == id@,
        error.route@ == route@,
{
    ApiError::new(
        STATUS_BAD_REQUEST,
        ApiErrorType::InvalidSignature,
        String::from_str(id),
        String::from_str(route),
    )
}

/// The content of the reply to a read: the record of the sub-id that was
/// asked for, or else every entry as one object.
pub open spec fn read_content(value_id: Option<Seq<char>>, found: Mapping) -> Seq<char> {
    match value_id {
        Some(sub_id) if found@.dom().contains(sub_id) => as_json(found@[sub_id]),
        _ => object_text(found.listing()),
    }
}

/// Writes the content of the reply to a read.
pub fn content_of_read(value_id: Option<&str>, found: &Mapping) -> (content: String)
    ensures
        content@ == read_content(
            match value_id {
                Some(sub_id) => Some(sub_id@),
                None => None,
            },
            *found,
        ),
{
    match value_id {
        Some(sub_id) => match found.get(sub_id) {
            Some(record) => json_of(record.as_str()),
            None => serialize_all_entries(found),
        },
        None => serialize_all_entries(found),
    }
}

/// Writes the content of a reply that echoes an address.
pub fn content_of_address(address: &str) -> (content: String)
    ensures
        content@ == json_quoted(address@),
{
    quoted(address)
}

} // verus!
