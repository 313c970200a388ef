//! Deleting an address or one of its entries.
//!
//! Deleting a whole address starts at the filter, so that no reader goes
//! on to the slower tiers for an address that is on its way out. Deleting
//! one entry leaves the filter alone: the address goes on existing.

use vstd::prelude::*;
use vstd::string::*;

use crate::errors::ApiErrorType;
use crate::filter::{lemma_tallies, ExistenceFilter};
use crate::tier::{RequestView, Scope, Tier, TierRequest, WriteReply};

verus! {

/// Which answer a deletion is waiting for.
#[derive(Debug, Clone, Copy, PartialEq, Eq, Structural)]
pub enum DeleteStage {
    /// The cache was asked.
    AtCache,
    /// The durable tier was asked.
    AtDurable,
}

/// A deletion that is under way.
#[derive(Debug, PartialEq, Eq)]
pub struct DeleteSession {
    address: String,
    scope: Scope,
    stage: DeleteStage,
}

/// A deletion under way by what it holds.
pub struct DeleteSessionView {
    pub address: Seq<char>,
    pub scope: Option<Seq<char>>,
    pub stage: DeleteStage,
}

impl View for DeleteSession {
    type V = DeleteSessionView;

    closed spec fn view(&self) -> DeleteSessionView {
        DeleteSessionView { address: self.address@, scope: self.scope@, stage: self.stage }
    }
}

/// What a deletion does next.
#[derive(Debug, PartialEq, Eq)]
pub enum DeleteStep {
    /// Hand the request to the tier and come back with its answer.
    Ask(DeleteSession, Tier, TierRequest),
    /// The deletion is over.
    Done(Result<String, ApiErrorType>),
}

/// A step of a deletion by what it holds.
pub enum DeleteStepView {
    Ask(DeleteSessionView, Tier, RequestView),
    Done(Result<Seq<char>, ApiErrorType>),
}

impl View for DeleteStep {
    type V = DeleteStepView;

    open spec fn view(&self) -> DeleteStepView {
        match self {
            DeleteStep::Ask(session, tier, request) => DeleteStepView::Ask(
                session@,
                *tier,
                request@,
            ),
            DeleteStep::Done(Ok(address)) => DeleteStepView::Done(Ok(address@)),
            DeleteStep::Done(Err(error)) => DeleteStepView::Done(Err(*error)),
        }
    }
}

/// The request that a deletion sends to either tier.
pub open spec fn delete_request(address: Seq<char>, scope: Option<Seq<char>>) -> RequestView {
    RequestView::Delete { address, scope }
}

/// The first step of a deletion. A whole address that the filter does not
/// know is turned away; one entry is deleted whatever the filter says.
pub open spec fn delete_begin(known: bool, address: Seq<char>, scope: Option<Seq<char>>) -> DeleteStepView {
    if scope is None && !known {
        DeleteStepView::Done(Err(ApiErrorType::CuckooFilterLookupFailed))
    } else {
        DeleteStepView::Ask(
            DeleteSessionView { address, scope, stage: DeleteStage::AtCache },
            Tier::Cache,
            delete_request(address, scope),
        )
    }
}

/// The step that follows a tier's answer: either tier's refusal ends the
/// deletion.
pub open spec fn delete_next(session: DeleteSessionView, reply: WriteReply) -> DeleteStepView {
    match session.stage {
        DeleteStage::AtCache => match reply {
            WriteReply::Failed => DeleteStepView::Done(Err(ApiErrorType::CacheDeletionFailed)),
            WriteReply::Done => DeleteStepView::Ask(
                DeleteSessionView {
                    address: session.address,
                    scope: session.scope,
                    stage: DeleteStage::AtDurable,
                },
                Tier::Durable,
                delete_request(session.address, session.scope),
            ),
        },
        DeleteStage::AtDurable => match reply {
            WriteReply::Failed => DeleteStepView::Done(Err(ApiErrorType::DBDeletionFailed)),
            WriteReply::Done => DeleteStepView::Done(Ok(session.address)),
        },
    }
}

/// What the deletion of a whole address takes from the filter: one cell of
/// the address, and from no other address more than it had.
pub open spec fn released(before: Map<Seq<char>, nat>, after: Map<Seq<char>, nat>, address: Seq<char>) -> bool {
    &&& before[address] > 0
    &&& after[address] == before[address] - 1
    &&& forall|other: Seq<char>| after[other] <= before[other]
}

/// A deletion that the filter lets start asks the cache first and the
/// durable tier second, each for what the deletion asks. Either refusal ends
/// it at once, and the address is echoed when both did as they were asked.
pub proof fn lemma_delete_steps(known: bool, address: Seq<char>, scope: Option<Seq<char>>)
    requires
        scope is Some || known,
    ensures
        delete_begin(known, address, scope) matches DeleteStepView::Ask(
            first,
            Tier::Cache,
            request_1,
        ) && request_1 == delete_request(address, scope) && delete_next(first, WriteReply::Failed)
            == DeleteStepView::Done(Err(ApiErrorType::CacheDeletionFailed)) && (delete_next(
            first,
            WriteReply::Done,
        ) matches DeleteStepView::Ask(second, Tier::Durable, request_2) && request_2
            == delete_request(address, scope) && delete_next(second, WriteReply::Failed)
            == DeleteStepView::Done(Err(ApiErrorType::DBDeletionFailed)) && delete_next(
            second,
            WriteReply::Done,
        ) == DeleteStepView::Done(Ok(address))),
{
}

impl DeleteSession {
    /// Starts a deletion. For a whole address the filter gives up one cell
    /// of it first, and an address that it does not know ends the deletion
    /// at once. For one entry the filter is not touched.
    pub fn begin(filter: &mut ExistenceFilter, address: &str, scope: Scope) -> (step: DeleteStep)
        ensures
            step@ == delete_begin(old(filter).tally(address@) > 0, address@, scope@),
            scope@ is Some || old(filter).tally(address@) == 0 ==> {
                &&& final(filter).cells() == old(filter).cells()
                &&& final(filter).held() == old(filter).held()
                &&& final(filter).unsaved() == old(filter).unsaved()
            },
            scope@ is None && old(filter).tally(address@) > 0 ==> {
                &&& released(old(filter).tallies(), final(filter).tallies(), address@)
                &&& final(filter).unsaved()
            },
            final(filter).cells().len() == old(filter).cells().len(),
    {
        proof {
            lemma_tallies(filter.cells());
        }
        let admitted = match scope {
            Scope::Whole => filter.delete(address),
            Scope::One(_) => true,
        };
        proof {
            lemma_tallies(filter.cells());
        }
        if admitted {
            let request = TierRequest::Delete {
                address: String::from_str(address),
                scope: scope.clone(),
            };
            let session = DeleteSession {
                address: String::from_str(address),
                scope,
                stage: DeleteStage::AtCache,
            };
            DeleteStep::Ask(session, Tier::Cache, request)
        } else {
            DeleteStep::Done(Err(ApiErrorType::CuckooFilterLookupFailed))
        }
    }

    /// Goes on with the answer of the tier that was asked last.
    pub fn resume(self, reply: WriteReply) -> (step: DeleteStep)
        ensures
            step@ == delete_next(self@, reply),
    {
        match self.stage {
            DeleteStage::AtCache => match reply {
                WriteReply::Failed => DeleteStep::Done(Err(ApiErrorType::CacheDeletionFailed)),
                WriteReply::Done => {
                    let request = TierRequest::Delete {
                        address: self.address.clone(),
                        scope: self.scope.clone(),
                    };
                    let session = DeleteSession {
                        address: self.address,
                        scope: self.scope,
                        stage: DeleteStage::AtDurable,
                    };
                    DeleteStep::Ask(session, Tier::Durable, request)
                },
            },
            DeleteStage::AtDurable => match reply {
                WriteReply::Failed => DeleteStep::Done(Err(ApiErrorType::DBDeletionFailed)),
                WriteReply::Done => DeleteStep::Done(Ok(self.address)),
            },
        }
    }

    /// The address that is deleted from.
    pub fn address(&self) -> (address: &str)
        ensures
            address@ == self@.address,
    {
        self.address.as_str()
    }
}

} // verus!
