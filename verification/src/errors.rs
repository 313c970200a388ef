//! Error kinds that a request can end in, and their wire form.

use vstd::prelude::*;
use vstd::string::*;

verus! {

/// HTTP status of a reply that carries a payload.
pub const STATUS_OK: u16 = 200;

/// HTTP status of a reply to a request whose envelope was rejected.
pub const STATUS_BAD_REQUEST: u16 = 400;

/// HTTP status of a reply to a request that a tier refused.
pub const STATUS_INTERNAL_ERROR: u16 = 500;

/// Why a request failed.
#[derive(Debug, Clone, PartialEq, Eq)]
pub enum ApiErrorType {
    /// An unclassified failure, with its description.
    Generic(String),
    /// The envelope did not decode or its signature did not verify.
    InvalidSignature,
    /// The durable tier refused a write.
    DBInsertionFailed,
    /// The cache tier refused a write.
    CacheInsertionFailed,
    /// The existence filter had no room for a new address.
    CuckooFilterInsertionFailed,
    /// The existence filter does not know the address.
    CuckooFilterLookupFailed,
    /// The filter knows the address but no tier holds data for it.
    DataNotFound,
    /// The durable tier failed while it was read.
    DBQueryFailed,
    /// The cache tier refused a deletion.
    CacheDeletionFailed,
    /// The durable tier refused a deletion.
    DBDeletionFailed,
}

impl ApiErrorType {
    /// The text shown to a caller.
    pub open spec fn message_spec(self) -> Seq<char> {
        match self {
            ApiErrorType::Generic(message) => "Generic error: "@ + message@,
            ApiErrorType::InvalidSignature => "Invalid signature"@,
            ApiErrorType::DBInsertionFailed => "DB insertion failed"@,
            ApiErrorType::CacheInsertionFailed => "Cache insertion failed"@,
            ApiErrorType::CuckooFilterInsertionFailed => "Cuckoo filter insertion failed"@,
            ApiErrorType::CuckooFilterLookupFailed =>
                "Cuckoo filter lookup failed, data for address not found on this Valence"@,
            ApiErrorType::DataNotFound => "Data not found"@,
            ApiErrorType::DBQueryFailed => "DB query failed"@,
            ApiErrorType::CacheDeletionFailed => "Cache deletion failed"@,
            ApiErrorType::DBDeletionFailed => "DB deletion failed"@,
        }
    }

    /// The HTTP status that goes with this error: 400 for a rejected
    /// envelope, 500 for everything a tier refused.
    pub open spec fn status_spec(self) -> u16 {
        if self is InvalidSignature {
            STATUS_BAD_REQUEST
        } else {
            STATUS_INTERNAL_ERROR
        }
    }

    /// Renders the error for a caller.
    pub fn message(&self) -> (text: String)
        ensures
            text@ == self.message_spec(),
    {
        match self {
            ApiErrorType::Generic(message) => {
                String::from_str("Generic error: ").concat(message.as_str())
            },
            ApiErrorType::InvalidSignature => String::from_str("Invalid signature"),
            ApiErrorType::DBInsertionFailed => String::from_str("DB insertion failed"),
            ApiErrorType::CacheInsertionFailed => String::from_str("Cache insertion failed"),
            ApiErrorType::CuckooFilterInsertionFailed => String::from_str(
                "Cuckoo filter insertion failed",
            ),
            ApiErrorType::CuckooFilterLookupFailed => String::from_str(
                "Cuckoo filter lookup failed, data for address not found on this Valence",
            ),
            ApiErrorType::DataNotFound => String::from_str("Data not found"),
            ApiErrorType::DBQueryFailed => String::from_str("DB query failed"),
            ApiErrorType::CacheDeletionFailed => String::from_str("Cache deletion failed"),
            ApiErrorType::DBDeletionFailed => String::from_str("DB deletion failed"),
        }
    }

    /// The HTTP status that goes with this error.
    pub fn status(&self) -> (code: u16)
        ensures
            code == self.status_spec(),
    {
        match self {
            ApiErrorType::InvalidSignature => STATUS_BAD_REQUEST,
            _ => STATUS_INTERNAL_ERROR,
        }
    }

    /// A copy that is known to equal the error it was made from.
    pub fn duplicate(&self) -> (copy: ApiErrorType)
        ensures
            copy == *self,
    {
        match self {
            ApiErrorType::Generic(message) => ApiErrorType::Generic(message.clone()),
            ApiErrorType::InvalidSignature => ApiErrorType::InvalidSignature,
            ApiErrorType::DBInsertionFailed => ApiErrorType::DBInsertionFailed,
            ApiErrorType::CacheInsertionFailed => ApiErrorType::CacheInsertionFailed,
            ApiErrorType::CuckooFilterInsertionFailed => ApiErrorType::CuckooFilterInsertionFailed,
            ApiErrorType::CuckooFilterLookupFailed => ApiErrorType::CuckooFilterLookupFailed,
            ApiErrorType::DataNotFound => ApiErrorType::DataNotFound,
            ApiErrorType::DBQueryFailed => ApiErrorType::DBQueryFailed,
            ApiErrorType::CacheDeletionFailed => ApiErrorType::CacheDeletionFailed,
            ApiErrorType::DBDeletionFailed => ApiErrorType::DBDeletionFailed,
        }
    }
}

/// A failed request as the transport reports it.
#[derive(Debug, Clone, PartialEq, Eq)]
pub struct ApiError {
    /// HTTP status.
    pub code: u16,
    /// What went wrong.
    pub message: ApiErrorType,
    /// Identifier of the request.
    pub id: String,
    /// The operation that was asked for.
    pub route: String,
}

impl ApiError {
    /// Puts the four parts together.
    pub fn new(code: u16, message: ApiErrorType, id: String, route: String) -> (error: Self)
        ensures
            error.code == code,
            error.message == message,
            error.id == id,
            error.route == route,
    {
        ApiError { code, message, id, route }
    }

    /// The text shown to a caller: that of the error kind.
    pub fn text(&self) -> (text: String)
        ensures
            text@ == self.message.message_spec(),
    {
        self.message.message()
    }
}

} // verus!
