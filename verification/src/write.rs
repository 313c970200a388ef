//! Writing a record: cache first, then the durable tier, and the filter
//! last.
//!
//! The cache goes first because a stale cache entry lapses by itself. The
//! filter goes last because an address that it knows without a record behind
//! it would send every read to the durable tier for nothing. Where the
//! durable tier refuses after the cache accepted, the cache keeps the record
//! until it lapses: nothing is undone.

use vstd::prelude::*;
use vstd::string::*;

use crate::errors::ApiErrorType;
use crate::filter::{lemma_tallies, ExistenceFilter};
use crate::tier::{RequestView, Tier, TierRequest, WriteReply};

verus! {

/// Which answer a write is waiting for.
#[derive(Debug, Clone, Copy, PartialEq, Eq, Structural)]
pub enum WriteStage {
    /// The cache was asked to file the record.
    CacheFiled,
    /// The cache was asked to let the address lapse.
    CacheTimed,
    /// The durable tier was asked to file the record.
    DurableFiled,
}

/// A write that is under way.
#[derive(Debug, PartialEq, Eq)]
pub struct WriteSession {
    address: String,
    sub_id: String,
    record: String,
    cache_ttl: usize,
    stage: WriteStage,
}

/// A write under way by what it holds.
pub struct WriteSessionView {
    pub address: Seq<char>,
    pub sub_id: Seq<char>,
    pub record: Seq<char>,
    pub cache_ttl: nat,
    pub stage: WriteStage,
}

impl View for WriteSession {
    type V = WriteSessionView;

    closed spec fn view(&self) -> WriteSessionView {
        WriteSessionView {
            address: self.address@,
            sub_id: self.sub_id@,
            record: self.record@,
            cache_ttl: self.cache_ttl as nat,
            stage: self.stage,
        }
    }
}

/// What a write does next.
#[derive(Debug, PartialEq, Eq)]
pub enum WriteStep {
    /// Hand the request to the tier and come back with its answer.
    Ask(WriteSession, Tier, TierRequest),
    /// Both tiers hold the record: enter the address into the filter.
    Commit(String),
    /// The write was given up.
    Failed(ApiErrorType),
}

/// A step of a write by what it holds.
pub enum WriteStepView {
    Ask(WriteSessionView, Tier, RequestView),
    Commit(Seq<char>),
    Failed(ApiErrorType),
}

impl View for WriteStep {
    type V = WriteStepView;

    open spec fn view(&self) -> WriteStepView {
        match self {
            WriteStep::Ask(session, tier, request) => WriteStepView::Ask(
                session@,
                *tier,
                request@,
            ),
            WriteStep::Commit(address) => WriteStepView::Commit(address@),
            WriteStep::Failed(error) => WriteStepView::Failed(*error),
        }
    }
}

/// The request that files the record of a write.
pub open spec fn file_request(session: WriteSessionView) -> RequestView {
    RequestView::Put {
        address: session.address,
        sub_id: session.sub_id,
        record: session.record,
    }
}

/// The session of a write at a later stage.
pub open spec fn at_stage(session: WriteSessionView, stage: WriteStage) -> WriteSessionView {
    WriteSessionView {
        address: session.address,
        sub_id: session.sub_id,
        record: session.record,
        cache_ttl: session.cache_ttl,
        stage,
    }
}

/// The first step of a write: the cache is asked to file the record.
pub open spec fn write_begin(
    address: Seq<char>,
    sub_id: Seq<char>,
    record: Seq<char>,
    cache_ttl: nat,
) -> WriteStepView {
    let session = WriteSessionView {
        address,
        sub_id,
        record,
        cache_ttl,
        stage: WriteStage::CacheFiled,
    };
    WriteStepView::Ask(session, Tier::Cache, file_request(session))
}

/// The step that follows a tier's answer. A refusal to file ends the
/// write. A refusal to set the lapse does not: the write goes on.
pub open spec fn write_next(session: WriteSessionView, reply: WriteReply) -> WriteStepView {
    match session.stage {
        WriteStage::CacheFiled => match reply {
            WriteReply::Failed => WriteStepView::Failed(ApiErrorType::CacheInsertionFailed),
            WriteReply::Done => WriteStepView::Ask(
                at_stage(session, WriteStage::CacheTimed),
                Tier::Cache,
                RequestView::Expire { address: session.address, seconds: session.cache_ttl },
            ),
        },
        WriteStage::CacheTimed => WriteStepView::Ask(
            at_stage(session, WriteStage::DurableFiled),
            Tier::Durable,
            file_request(session),
        ),
        WriteStage::DurableFiled => match reply {
            WriteReply::Failed => WriteStepView::Failed(ApiErrorType::DBInsertionFailed),
            WriteReply::Done => WriteStepView::Commit(session.address),
        },
    }
}

/// What a write leaves in the filter when it ends well: an address that was
/// known is left alone; one that was not takes one cell, which also stands
/// for the unknown addresses that the filter cannot tell from it, and every
/// other address is held as often as before.
pub open spec fn entered(before: Map<Seq<char>, nat>, after: Map<Seq<char>, nat>, address: Seq<char>) -> bool {
    if before[address] > 0 {
        after == before
    } else {
        &&& after[address] == 1
        &&& forall|other: Seq<char>|
            after[other] == before[other] || (before[other] == 0 && after[other] == 1)
    }
}

/// A write asks in a fixed order: the cache to file the record, the cache
/// to let the address lapse, the durable tier to file the record, and only
/// then the filter to take the address. A refusal to file ends it at once;
/// a refusal to set the lapse does not.
pub proof fn lemma_write_steps(
    address: Seq<char>,
    sub_id: Seq<char>,
    record: Seq<char>,
    cache_ttl: nat,
    cache_timed: WriteReply,
)
    ensures
        write_begin(address, sub_id, record, cache_ttl) matches WriteStepView::Ask(
            first,
            Tier::Cache,
            RequestView::Put { address: a1, sub_id: s1, record: r1 },
        ) && a1 == address && s1 == sub_id && r1 == record && write_next(
            first,
            WriteReply::Failed,
        ) == WriteStepView::Failed(ApiErrorType::CacheInsertionFailed) && (write_next(
            first,
            WriteReply::Done,
        ) matches WriteStepView::Ask(
            second,
            Tier::Cache,
            RequestView::Expire { address: a2, seconds },
        ) && a2 == address && seconds == cache_ttl && (write_next(
            second,
            cache_timed,
        ) matches WriteStepView::Ask(
            third,
            Tier::Durable,
            RequestView::Put { address: a3, sub_id: s3, record: r3 },
        ) && a3 == address && s3 == sub_id && r3 == record && write_next(
            third,
            WriteReply::Failed,
        ) == WriteStepView::Failed(ApiErrorType::DBInsertionFailed) && write_next(
            third,
            WriteReply::Done,
        ) == WriteStepView::Commit(address))),
{
}

impl WriteSession {
    /// Starts a write of `record` under `address` and `sub_id`. The cache is
    /// to keep the address for `cache_ttl` seconds.
    pub fn begin(address: &str, sub_id: &str, record: &str, cache_ttl: usize) -> (step: WriteStep)
        ensures
            step@ == write_begin(address@, sub_id@, record@, cache_ttl as nat),
    {
        let session = WriteSession {
            address: String::from_str(address),
            sub_id: String::from_str(sub_id),
            record: String::from_str(record),
            cache_ttl,
            stage: WriteStage::CacheFiled,
        };
        let request = session.filing();
        WriteStep::Ask(session, Tier::Cache, request)
    }

    /// The request that files the record.
    fn filing(&self) -> (request: TierRequest)
        ensures
            request@ == file_request(self@),
    {
        TierRequest::Put {
            address: self.address.clone(),
            sub_id: self.sub_id.clone(),
            record: self.record.clone(),
        }
    }

    /// Goes on with the answer of the tier that was asked last.
    pub fn resume(self, reply: WriteReply) -> (step: WriteStep)
        ensures
            step@ == write_next(self@, reply),
    {
        match self.stage {
            WriteStage::CacheFiled => match reply {
                WriteReply::Failed => WriteStep::Failed(ApiErrorType::CacheInsertionFailed),
                WriteReply::Done => {
                    let request = TierRequest::Expire {
                        address: self.address.clone(),
                        seconds: self.cache_ttl,
                    };
                    let session = WriteSession {
                        address: self.address,
                        sub_id: self.sub_id,
                        record: self.record,
                        cache_ttl: self.cache_ttl,
                        stage: WriteStage::CacheTimed,
                    };
                    WriteStep::Ask(session, Tier::Cache, request)
                },
            },
            WriteStage::CacheTimed => {
                let request = self.filing();
                let session = WriteSession {
                    address: self.address,
                    sub_id: self.sub_id,
                    record: self.record,
                    cache_ttl: self.cache_ttl,
                    stage: WriteStage::DurableFiled,
                };
                WriteStep::Ask(session, Tier::Durable, request)
            },
            WriteStage::DurableFiled => match reply {
                WriteReply::Failed => WriteStep::Failed(ApiErrorType::DBInsertionFailed),
                WriteReply::Done => WriteStep::Commit(self.address),
            },
        }
    }

    /// The address that is written.
    pub fn address(&self) -> (address: &str)
        ensures
            address@ == self@.address,
    {
        self.address.as_str()
    }
}

/// The last step of a write: the filter takes the address unless it knows
/// it already, and the address is echoed. A filter without room ends the
/// write with `CuckooFilterInsertionFailed`. A filter that was reached for
/// has a snapshot to save.
pub fn commit_write(filter: &mut ExistenceFilter, address: &str) -> (outcome: Result<
    String,
    ApiErrorType,
>)
    ensures
        old(filter).tally(address@) > 0 ==> outcome is Ok,
        match outcome {
            Ok(echoed) => {
                &&& echoed@ == address@
                &&& entered(old(filter).tallies(), final(filter).tallies(), address@)
                &&& final(filter).tally(address@) > 0
            },
            Err(error) => error == ApiErrorType::CuckooFilterInsertionFailed,
        },
        old(filter).tally(address@) > 0 ==> {
            &&& final(filter).cells() == old(filter).cells()
            &&& final(filter).held() == old(filter).held()
            &&& final(filter).unsaved() == old(filter).unsaved()
        },
        old(filter).tally(address@) == 0 ==> final(filter).unsaved(),
        final(filter).cells().len() == old(filter).cells().len(),
{
    proof {
        lemma_tallies(filter.cells());
    }
    if filter.contains(address) {
        return Ok(String::from_str(address));
    }
    let done = filter.insert(address);
    proof {
        lemma_tallies(filter.cells());
    }
    match done {
        Ok(_) => Ok(String::from_str(address)),
        Err(error) => Err(error),
    }
}

} // verus!
