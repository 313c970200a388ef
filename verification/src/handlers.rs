//! The three requests that a node serves: how each is started once its
//! envelope was admitted, and the reply that its end is reported with.
//!
//! A handler only starts a request: what follows is the session that it
//! returns. Each takes the admitted envelope, so that none is reached by a
//! request whose signature did not verify.

use vstd::prelude::*;
use vstd::string::*;

use crate::delete::{delete_begin, released, DeleteSession, DeleteStep};
use crate::envelope::{envelope_valid, Admitted};
use crate::errors::ApiErrorType;
use crate::filter::ExistenceFilter;
use crate::interfaces::SetRequestData;
use crate::json::json_quoted;
use crate::mapping::Mapping;
use crate::read::{read_begin, settle_at_durable, ReadSession, ReadStep};
use crate::responses::{
    content_of_address, content_of_read, err_reply, ok_reply, read_content, CallResponse,
    JsonReply,
};
use crate::tier::{ReadReply, Scope, WriteReply};
use crate::write::{write_begin, WriteSession, WriteStep};

verus! {

/// The route of a read.
pub const ROUTE_GET: &'static str = "get_data";

/// The route of a write.
pub const ROUTE_SET: &'static str = "set_data";

/// The route of a deletion.
pub const ROUTE_DEL: &'static str = "del_data";

/// The reason of the reply to a read that found its data.
pub const REASON_RETRIEVED: &'static str = "Data retrieved successfully";

/// The reason of the reply to a write that was carried out.
pub const REASON_SET: &'static str = "Data set successfully";

/// The reason of the reply to a deletion that was carried out.
pub const REASON_DELETED: &'static str = "Data deleted successfully";

/// The scope that an optional sub-id stands for.
pub open spec fn scope_of(value_id: Option<&str>) -> Option<Seq<char>> {
    match value_id {
        Some(sub_id) => Some(sub_id@),
        None => None,
    }
}

/// Starts the read of the address that the envelope signs: all of its
/// entries, or the one of `value_id`.
pub fn get_data_handler(admitted: &Admitted, value_id: Option<&str>, c_filter: &ExistenceFilter) -> (step:
    ReadStep)
    ensures
        envelope_valid(admitted.key_text(), admitted.address_text(), admitted.signature_text()),
        step@ == read_begin(
            c_filter.tally(admitted.address_text()) > 0,
            admitted.address_text(),
            scope_of(value_id),
        ),
{
    ReadSession::begin(c_filter, admitted.address(), Scope::from_sub_id(value_id))
}

/// The reply to a read that ended with `outcome`.
pub fn get_data_reply(value_id: Option<&str>, outcome: &Result<Mapping, ApiErrorType>) -> (reply:
    JsonReply)
    ensures
        reply@ == match outcome {
            Ok(found) => ok_reply(
                ROUTE_GET@,
                REASON_RETRIEVED@,
                read_content(scope_of(value_id), *found),
            ),
            Err(error) => err_reply(ROUTE_GET@, *error),
        },
{
    let r = CallResponse::new(ROUTE_GET);
    match outcome {
        Ok(found) => r.into_ok(REASON_RETRIEVED, content_of_read(value_id, found)),
        Err(error) => r.into_err(error),
    }
}

/// The reply to a read that had to go to the durable tier, by the answer
/// of that tier.
pub fn retrieve_from_db(value_id: Option<&str>, db_result: ReadReply) -> (reply: JsonReply)
    ensures
        reply@ == match db_result {
            ReadReply::Found(found) => if found@.dom() == Set::<Seq<char>>::empty() {
                err_reply(ROUTE_GET@, ApiErrorType::DataNotFound)
            } else {
                ok_reply(ROUTE_GET@, REASON_RETRIEVED@, read_content(scope_of(value_id), found))
            },
            ReadReply::Absent => err_reply(ROUTE_GET@, ApiErrorType::DataNotFound),
            ReadReply::Failed => err_reply(ROUTE_GET@, ApiErrorType::DBQueryFailed),
        },
{
    let outcome = settle_at_durable(db_result);
    get_data_reply(value_id, &outcome)
}

/// The reply to a deletion that reached the durable tier, by the answer of
/// that tier.
pub fn delete_from_db(address: &str, db_result: WriteReply) -> (reply: JsonReply)
    ensures
        reply@ == match db_result {
            WriteReply::Done => ok_reply(ROUTE_DEL@, REASON_DELETED@, json_quoted(address@)),
            WriteReply::Failed => err_reply(ROUTE_DEL@, ApiErrorType::DBDeletionFailed),
        },
{
    let outcome = match db_result {
        WriteReply::Done => Ok(String::from_str(address)),
        WriteReply::Failed => Err(ApiErrorType::DBDeletionFailed),
    };
    del_data_reply(&outcome)
}

/// Starts the write of the record in `payload` under its address and its
/// sub-id. The cache is to keep the address for `cache_ttl` seconds.
pub fn set_data_handler(admitted: &Admitted, payload: &SetRequestData, cache_ttl: usize) -> (step:
    WriteStep)
    ensures
        envelope_valid(admitted.key_text(), admitted.address_text(), admitted.signature_text()),
        step@ == write_begin(
            payload.address@,
            payload.sub_id_spec(),
            payload.data@,
            cache_ttl as nat,
        ),
{
    let _ = admitted.address();
    let sub_id = payload.sub_id();
    WriteSession::begin(
        payload.address.as_str(),
        sub_id.as_str(),
        payload.data.as_str(),
        cache_ttl,
    )
}

/// The reply to a write that ended with `outcome`.
pub fn set_data_reply(outcome: &Result<String, ApiErrorType>) -> (reply: JsonReply)
    ensures
        reply@ == match outcome {
            Ok(address) => ok_reply(ROUTE_SET@, REASON_SET@, json_quoted(address@)),
            Err(error) => err_reply(ROUTE_SET@, *error),
        },
{
    let r = CallResponse::new(ROUTE_SET);
    match outcome {
        Ok(address) => r.into_ok(REASON_SET, content_of_address(address.as_str())),
        Err(error) => r.into_err(error),
    }
}

/// Starts the deletion of the address that the envelope signs, or of its
/// entry under `value_id`. Only the deletion of the whole address touches
/// the filter.
pub fn del_data_handler(
    admitted: &Admitted,
    value_id: Option<&str>,
    c_filter: &mut ExistenceFilter,
) -> (step: DeleteStep)
    ensures
        envelope_valid(admitted.key_text(), admitted.address_text(), admitted.signature_text()),
        step@ == delete_begin(
            old(c_filter).tally(admitted.address_text()) > 0,
            admitted.address_text(),
            scope_of(value_id),
        ),
        value_id is Some || old(c_filter).tally(admitted.address_text()) == 0 ==> {
            &&& final(c_filter).cells() == old(c_filter).cells()
            &&& final(c_filter).held() == old(c_filter).held()
            &&& final(c_filter).unsaved() == old(c_filter).unsaved()
        },
        value_id is None && old(c_filter).tally(admitted.address_text()) > 0 ==> {
            &&& released(
                old(c_filter).tallies(),
                final(c_filter).tallies(),
                admitted.address_text(),
            )
            &&& final(c_filter).unsaved()
        },
{
    DeleteSession::begin(c_filter, admitted.address(), Scope::from_sub_id(value_id))
}

/// The reply to a deletion that ended with `outcome`.
pub fn del_data_reply(outcome: &Result<String, ApiErrorType>) -> (reply: JsonReply)
    ensures
        reply@ == match outcome {
            Ok(address) => ok_reply(ROUTE_DEL@, REASON_DELETED@, json_quoted(address@)),
            Err(error) => err_reply(ROUTE_DEL@, *error),
        },
{
    let r = CallResponse::new(ROUTE_DEL);
    match outcome {
        Ok(address) => r.into_ok(REASON_DELETED, content_of_address(address.as_str())),
        Err(error) => r.into_err(error),
    }
}

} // verus!
