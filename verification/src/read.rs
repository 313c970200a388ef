//! Reading an address: the filter admits, the cache is probed, the durable
//! tier decides.
//!
//! A read that misses the cache does not fill it. The cache is filled by
//! writes only, so that the two paths stay independent.

use vstd::prelude::*;
use vstd::string::*;

use crate::errors::ApiErrorType;
use crate::filter::ExistenceFilter;
use crate::mapping::Mapping;
use crate::tier::{Entries, ReadReply, ReadView, RequestView, Scope, Tier, TierRequest};

verus! {

/// Which answer a read is waiting for.
#[derive(Debug, Clone, Copy, PartialEq, Eq, Structural)]
pub enum ReadStage {
    /// The cache was asked.
    AtCache,
    /// The durable tier was asked.
    AtDurable,
}

/// A read that is under way.
#[derive(Debug, PartialEq, Eq)]
pub struct ReadSession {
    address: String,
    scope: Scope,
    stage: ReadStage,
}

/// A read under way by what it holds.
pub struct ReadSessionView {
    pub address: Seq<char>,
    pub scope: Option<Seq<char>>,
    pub stage: ReadStage,
}

impl View for ReadSession {
    type V = ReadSessionView;

    closed spec fn view(&self) -> ReadSessionView {
        ReadSessionView { address: self.address@, scope: self.scope@, stage: self.stage }
    }
}

/// What a read does next.
#[derive(Debug, PartialEq, Eq)]
pub enum ReadStep {
    /// Hand the request to the tier and come back with its answer.
    Ask(ReadSession, Tier, TierRequest),
    /// The read is over.
    Done(Result<Mapping, ApiErrorType>),
}

/// A step of a read by what it holds.
pub enum ReadStepView {
    Ask(ReadSessionView, Tier, RequestView),
    Done(Result<Entries, ApiErrorType>),
}

impl View for ReadStep {
    type V = ReadStepView;

    open spec fn view(&self) -> ReadStepView {
        match self {
            ReadStep::Ask(session, tier, request) => ReadStepView::Ask(session@, *tier, request@),
            ReadStep::Done(Ok(mapping)) => ReadStepView::Done(Ok(mapping@)),
            ReadStep::Done(Err(error)) => ReadStepView::Done(Err(*error)),
        }
    }
}

/// The request that a read sends to either tier.
pub open spec fn read_request(address: Seq<char>, scope: Option<Seq<char>>) -> RequestView {
    RequestView::Get { address, scope }
}

/// What the cache's answer settles: the entries to return, or nothing, in
/// which case the durable tier is asked. Only entries that were found and
/// hold what was asked for settle a read; a cache that fails is passed over.
pub open spec fn cache_hit(scope: Option<Seq<char>>, reply: ReadView) -> Option<Entries> {
    match reply {
        ReadView::Found(entries) => match scope {
            None => if entries.dom() == Set::<Seq<char>>::empty() {
                None
            } else {
                Some(entries)
            },
            Some(sub_id) => if entries.dom().contains(sub_id) {
                Some(Map::<Seq<char>, Seq<char>>::empty().insert(sub_id, entries[sub_id]))
            } else {
                None
            },
        },
        _ => None,
    }
}

/// How a read ends on the durable tier's answer.
pub open spec fn durable_verdict(reply: ReadView) -> Result<Entries, ApiErrorType> {
    match reply {
        ReadView::Found(entries) => if entries.dom() == Set::<Seq<char>>::empty() {
            Err(ApiErrorType::DataNotFound)
        } else {
            Ok(entries)
        },
        ReadView::Absent => Err(ApiErrorType::DataNotFound),
        ReadView::Failed => Err(ApiErrorType::DBQueryFailed),
    }
}

/// The first step of a read. An address that the filter does not know is
/// turned away before any tier is asked.
pub open spec fn read_begin(known: bool, address: Seq<char>, scope: Option<Seq<char>>) -> ReadStepView {
    if known {
        ReadStepView::Ask(
            ReadSessionView { address, scope, stage: ReadStage::AtCache },
            Tier::Cache,
            read_request(address, scope),
        )
    } else {
        ReadStepView::Done(Err(ApiErrorType::CuckooFilterLookupFailed))
    }
}

/// The step that follows a tier's answer.
pub open spec fn read_next(session: ReadSessionView, reply: ReadView) -> ReadStepView {
    match session.stage {
        ReadStage::AtCache => match cache_hit(session.scope, reply) {
            Some(entries) => ReadStepView::Done(Ok(entries)),
            None => ReadStepView::Ask(
                ReadSessionView {
                    address: session.address,
                    scope: session.scope,
                    stage: ReadStage::AtDurable,
                },
                Tier::Durable,
                read_request(session.address, session.scope),
            ),
        },
        ReadStage::AtDurable => ReadStepView::Done(durable_verdict(reply)),
    }
}

/// How a read ends, given what the filter says and what the two tiers
/// answer when they are asked.
pub open spec fn read_outcome(
    known: bool,
    scope: Option<Seq<char>>,
    cache: ReadView,
    durable: ReadView,
) -> Result<Entries, ApiErrorType> {
    if !known {
        Err(ApiErrorType::CuckooFilterLookupFailed)
    } else {
        match cache_hit(scope, cache) {
            Some(entries) => Ok(entries),
            None => durable_verdict(durable),
        }
    }
}

/// A read that is driven step by step ends as `read_outcome` says, and asks
/// the cache first and the durable tier only after a miss.
pub proof fn lemma_read_steps(
    known: bool,
    address: Seq<char>,
    scope: Option<Seq<char>>,
    cache: ReadView,
    durable: ReadView,
)
    ensures
        match read_begin(known, address, scope) {
            ReadStepView::Done(outcome) => outcome == read_outcome(known, scope, cache, durable),
            ReadStepView::Ask(first, tier, request) => tier == Tier::Cache && request
                == read_request(address, scope) && match read_next(first, cache) {
                ReadStepView::Done(outcome) => outcome == read_outcome(
                    known,
                    scope,
                    cache,
                    durable,
                ),
                ReadStepView::Ask(second, tier, request) => tier == Tier::Durable && request
                    == read_request(address, scope) && read_next(second, durable)
                    == ReadStepView::Done(read_outcome(known, scope, cache, durable)),
            },
        },
{
}

impl ReadSession {
    /// Starts a read of `address`.
    pub fn begin(filter: &ExistenceFilter, address: &str, scope: Scope) -> (step: ReadStep)
        ensures
            step@ == read_begin(filter.tally(address@) > 0, address@, scope@),
    {
        if filter.contains(address) {
            let request = TierRequest::Get {
                address: String::from_str(address),
                scope: scope.clone(),
            };
            let session = ReadSession {
                address: String::from_str(address),
                scope,
                stage: ReadStage::AtCache,
            };
            ReadStep::Ask(session, Tier::Cache, request)
        } else {
            ReadStep::Done(Err(ApiErrorType::CuckooFilterLookupFailed))
        }
    }

    /// Goes on with the answer of the tier that was asked last.
    ///
    /// Where the entries that the tier found are returned whole, they are
    /// returned as they came, in their order.
    pub fn resume(self, reply: ReadReply) -> (step: ReadStep)
        ensures
            step@ == read_next(self@, reply@),
            (self@.scope is None || self@.stage == ReadStage::AtDurable) ==> (step matches ReadStep::Done(
                Ok(mapping),
            ) ==> reply == ReadReply::Found(mapping)),
    {
        match self.stage {
            ReadStage::AtCache => {
                match settle_at_cache(&self.scope, reply) {
                    Some(mapping) => ReadStep::Done(Ok(mapping)),
                    None => {
                        let request = TierRequest::Get {
                            address: self.address.clone(),
                            scope: self.scope.clone(),
                        };
                        let session = ReadSession {
                            address: self.address,
                            scope: self.scope,
                            stage: ReadStage::AtDurable,
                        };
                        ReadStep::Ask(session, Tier::Durable, request)
                    },
                }
            },
            ReadStage::AtDurable => ReadStep::Done(settle_at_durable(reply)),
        }
    }

    /// The address that is read.
    pub fn address(&self) -> (address: &str)
        ensures
            address@ == self@.address,
    {
        self.address.as_str()
    }
}

/// What the cache's answer settles.
pub fn settle_at_cache(scope: &Scope, reply: ReadReply) -> (hit: Option<Mapping>)
    ensures
        match hit {
            Some(mapping) => cache_hit(scope@, reply@) == Some(mapping@),
            None => cache_hit(scope@, reply@) is None,
        },
        scope@ is None ==> (hit matches Some(mapping) ==> reply == ReadReply::Found(mapping)),
{
    match reply {
        ReadReply::Found(mapping) => match scope {
            Scope::Whole => if mapping.is_empty() {
                None
            } else {
                Some(mapping)
            },
            Scope::One(sub_id) => match mapping.get(sub_id.as_str()) {
                Some(record) => Some(Mapping::single(sub_id.as_str(), record.as_str())),
                None => None,
            },
        },
        _ => None,
    }
}

/// How a read ends on the durable tier's answer.
pub fn settle_at_durable(reply: ReadReply) -> (verdict: Result<Mapping, ApiErrorType>)
    ensures
        match verdict {
            Ok(mapping) => durable_verdict(reply@) == Ok::<Entries, ApiErrorType>(mapping@)
                && reply == ReadReply::Found(mapping),
            Err(error) => durable_verdict(reply@) == Err::<Entries, ApiErrorType>(error),
        },
{
    match reply {
        ReadReply::Found(mapping) => if mapping.is_empty() {
            Err(ApiErrorType::DataNotFound)
        } else {
            Ok(mapping)
        },
        ReadReply::Absent => Err(ApiErrorType::DataNotFound),
        ReadReply::Failed => Err(ApiErrorType::DBQueryFailed),
    }
}

} // verus!
