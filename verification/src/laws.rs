//! What holds of requests that follow one another, proved of the sessions
//! as they run against tiers that keep their word.
//!
//! The tiers are taken by what they hold: for the filter the tally of each
//! address, for the cache and the durable tier their entries by address. A
//! tier that is reached carries a request out as the key-value interface
//! says; a tier that is not reached answers `Failed`.

use vstd::prelude::*;

use crate::delete::{delete_begin, delete_next, released, DeleteStepView};
use crate::errors::ApiErrorType;
use crate::read::{read_begin, read_next, read_outcome, ReadStepView};
use crate::tier::{
    kv_delete, kv_get, kv_reply, kv_set, Entries, ReadView, RequestView, Store, Tier, WriteReply,
};
use crate::write::{entered, write_begin, write_next, WriteStepView};

verus! {

/// The three tiers by what they hold.
pub struct Tiers {
    /// For each address, the number of cells of the filter that stand for
    /// it.
    pub filter: Map<Seq<char>, nat>,
    /// The entries of the cache.
    pub cache: Store,
    /// The entries of the durable tier.
    pub durable: Store,
}

/// The filter knows `address`.
pub open spec fn known(tiers: Tiers, address: Seq<char>) -> bool {
    tiers.filter[address] > 0
}

/// The entries of one of the two stores.
pub open spec fn store_of(tiers: Tiers, tier: Tier) -> Store {
    match tier {
        Tier::Cache => tiers.cache,
        Tier::Durable => tiers.durable,
    }
}

/// A store after it carried a request out.
pub open spec fn carried_out(store: Store, request: RequestView) -> Store {
    match request {
        RequestView::Put { address, sub_id, record } => kv_set(store, address, sub_id, record),
        RequestView::Delete { address, scope } => kv_delete(store, address, scope),
        _ => store,
    }
}

/// The tiers after one of the two stores carried a request out.
pub open spec fn served(tiers: Tiers, tier: Tier, request: RequestView) -> Tiers {
    match tier {
        Tier::Cache => Tiers {
            filter: tiers.filter,
            cache: carried_out(tiers.cache, request),
            durable: tiers.durable,
        },
        Tier::Durable => Tiers {
            filter: tiers.filter,
            cache: tiers.cache,
            durable: carried_out(tiers.durable, request),
        },
    }
}

/// The answer of a store to a request to read: what it holds where it is
/// reached, and `Failed` where it is not.
pub open spec fn answered(store: Store, reached: bool, request: RequestView) -> ReadView {
    if !reached {
        ReadView::Failed
    } else {
        match request {
            RequestView::Get { address, scope } => kv_reply(store, address, scope),
            _ => ReadView::Absent,
        }
    }
}

/// How the read of `address` ends against these tiers, each of the two
/// stores being reached or not.
pub open spec fn read_run(
    tiers: Tiers,
    address: Seq<char>,
    scope: Option<Seq<char>>,
    cache_reached: bool,
    durable_reached: bool,
) -> Result<Entries, ApiErrorType> {
    match read_begin(known(tiers, address), address, scope) {
        ReadStepView::Done(outcome) => outcome,
        ReadStepView::Ask(first, tier, request) => match read_next(
            first,
            answered(store_of(tiers, tier), cache_reached, request),
        ) {
            ReadStepView::Done(outcome) => outcome,
            ReadStepView::Ask(second, tier, request) => match read_next(
                second,
                answered(store_of(tiers, tier), durable_reached, request),
            ) {
                ReadStepView::Done(outcome) => outcome,
                ReadStepView::Ask(_, _, _) => Err(ApiErrorType::DBQueryFailed),
            },
        },
    }
}

/// A read that runs against the tiers ends as its two answers settle it:
/// the cache is asked for what the read asks, and the durable tier for the
/// same after a miss.
pub proof fn lemma_read_run(
    tiers: Tiers,
    address: Seq<char>,
    scope: Option<Seq<char>>,
    cache_reached: bool,
    durable_reached: bool,
)
    ensures
        read_run(tiers, address, scope, cache_reached, durable_reached) == read_outcome(
            known(tiers, address),
            scope,
            if cache_reached {
                kv_reply(tiers.cache, address, scope)
            } else {
                ReadView::Failed
            },
            if durable_reached {
                kv_reply(tiers.durable, address, scope)
            } else {
                ReadView::Failed
            },
        ),
{
}

/// The tiers after a store answered a request: it carried the request
/// out where it answers `Done`, and did nothing where it answers `Failed`.
pub open spec fn applied(tiers: Tiers, tier: Tier, request: RequestView, reply: WriteReply) -> Tiers {
    match reply {
        WriteReply::Done => served(tiers, tier, request),
        WriteReply::Failed => tiers,
    }
}

/// Where the requests of a write end: the tiers after them, and the step
/// that follows the last answer.
pub struct WriteEnd {
    pub tiers: Tiers,
    pub step: WriteStepView,
}

/// A write as it runs against these tiers, by the answers to its three
/// requests: the cache is asked to file the record, then to set the lapse,
/// and the durable tier to file the record. The filter is not reached
/// before the last step.
pub open spec fn write_run(
    tiers: Tiers,
    address: Seq<char>,
    sub_id: Seq<char>,
    record: Seq<char>,
    cache_ttl: nat,
    cache_filed: WriteReply,
    cache_timed: WriteReply,
    durable_filed: WriteReply,
) -> WriteEnd {
    match write_begin(address, sub_id, record, cache_ttl) {
        WriteStepView::Ask(first, tier, request) => {
            let filed = applied(tiers, tier, request, cache_filed);
            match write_next(first, cache_filed) {
                WriteStepView::Ask(second, tier, request) => {
                    let timed = applied(filed, tier, request, cache_timed);
                    match write_next(second, cache_timed) {
                        WriteStepView::Ask(third, tier, request) => WriteEnd {
                            tiers: applied(timed, tier, request, durable_filed),
                            step: write_next(third, durable_filed),
                        },
                        other => WriteEnd { tiers: timed, step: other },
                    }
                },
                other => WriteEnd { tiers: filed, step: other },
            }
        },
        other => WriteEnd { tiers, step: other },
    }
}

/// A write that ended well led from `before` to `after`: both stores filed
/// the record, and the filter entered the address.
pub open spec fn written(
    before: Tiers,
    after: Tiers,
    address: Seq<char>,
    sub_id: Seq<char>,
    record: Seq<char>,
) -> bool {
    exists|cache_ttl: nat, cache_timed: WriteReply|
        {
            let end = #[trigger] write_run(
                before,
                address,
                sub_id,
                record,
                cache_ttl,
                WriteReply::Done,
                cache_timed,
                WriteReply::Done,
            );
            &&& end.step matches WriteStepView::Commit(echoed)
            &&& after.cache == end.tiers.cache
            &&& after.durable == end.tiers.durable
            &&& entered(before.filter, after.filter, echoed)
        }
}

/// Where the requests of a deletion end: the tiers after them, and the
/// step that follows the last answer.
pub struct DeleteEnd {
    pub tiers: Tiers,
    pub step: DeleteStepView,
}

/// A deletion as it runs against these tiers once the filter let it
/// start, by the answers to its two requests: first the cache is asked, then
/// the durable tier.
pub open spec fn delete_run(
    tiers: Tiers,
    address: Seq<char>,
    scope: Option<Seq<char>>,
    cache_cleared: WriteReply,
    durable_cleared: WriteReply,
) -> DeleteEnd {
    match delete_begin(known(tiers, address), address, scope) {
        DeleteStepView::Ask(first, tier, request) => {
            let cleared = applied(tiers, tier, request, cache_cleared);
            match delete_next(first, cache_cleared) {
                DeleteStepView::Ask(second, tier, request) => DeleteEnd {
                    tiers: applied(cleared, tier, request, durable_cleared),
                    step: delete_next(second, durable_cleared),
                },
                other => DeleteEnd { tiers: cleared, step: other },
            }
        },
        other => DeleteEnd { tiers, step: other },
    }
}

/// What the start of a deletion does to the filter: the deletion of a
/// whole address takes one cell of it, and the deletion of one entry takes
/// nothing.
pub open spec fn filter_after_delete(
    before: Map<Seq<char>, nat>,
    after: Map<Seq<char>, nat>,
    address: Seq<char>,
    scope: Option<Seq<char>>,
) -> bool {
    match scope {
        None => released(before, after, address),
        Some(_) => after == before,
    }
}

/// A deletion that ended well led from `before` to `after`.
pub open spec fn deleted(
    before: Tiers,
    after: Tiers,
    address: Seq<char>,
    scope: Option<Seq<char>>,
) -> bool {
    let end = delete_run(before, address, scope, WriteReply::Done, WriteReply::Done);
    &&& end.step matches DeleteStepView::Done(Ok(echoed))
    &&& echoed == address
    &&& after.cache == end.tiers.cache
    &&& after.durable == end.tiers.durable
    &&& filter_after_delete(before.filter, after.filter, address, scope)
}

/// How the filter sees an address, together with what the stores hold.
pub enum AddressState {
    /// The filter does not know the address, and no store holds it.
    Absent,
    /// The filter knows the address.
    Present,
    /// The filter does not know the address any more, but a store still
    /// holds it: its deletion is under way, or was cut short.
    Draining,
}

/// The state of an address.
pub open spec fn state_of(tiers: Tiers, address: Seq<char>) -> AddressState {
    if known(tiers, address) {
        AddressState::Present
    } else if tiers.cache.dom().contains(address) || tiers.durable.dom().contains(address) {
        AddressState::Draining
    } else {
        AddressState::Absent
    }
}

/// The cache lost `address`, or nothing: all that it may do by itself.
pub open spec fn lapsed(before: Tiers, after: Tiers, address: Seq<char>) -> bool {
    &&& after.filter == before.filter
    &&& after.durable == before.durable
    &&& after.cache == before.cache || after.cache == before.cache.remove(address)
}

/// The filter holds no address more than once. A filter starts so, and
/// writes and deletions keep it so.
pub open spec fn spare(filter: Map<Seq<char>, nat>) -> bool {
    forall|address: Seq<char>| filter[address] <= 1
}

/// The record of `sub_id` under `address` is kept: the filter knows the
/// address, the durable tier holds the record, and the cache holds the same
/// record or none for that sub-id.
pub open spec fn kept(tiers: Tiers, address: Seq<char>, sub_id: Seq<char>, record: Seq<char>) -> bool {
    &&& known(tiers, address)
    &&& kv_get(tiers.durable, address, Some(sub_id)) == Some(
        Map::<Seq<char>, Seq<char>>::empty().insert(sub_id, record),
    )
    &&& kv_get(tiers.cache, address, Some(sub_id)) is None || kv_get(
        tiers.cache,
        address,
        Some(sub_id),
    ) == Some(Map::<Seq<char>, Seq<char>>::empty().insert(sub_id, record))
}

/// A write that ended well filed its record in both stores, and left the
/// filter knowing the address.
pub proof fn lemma_written(
    before: Tiers,
    after: Tiers,
    address: Seq<char>,
    sub_id: Seq<char>,
    record: Seq<char>,
)
    requires
        written(before, after, address, sub_id, record),
    ensures
        after.cache == kv_set(before.cache, address, sub_id, record),
        after.durable == kv_set(before.durable, address, sub_id, record),
        entered(before.filter, after.filter, address),
        known(after, address),
{
}

/// After a write that ended well, reading its sub-id returns its record
/// and nothing else: from the cache while the cache holds the address, and
/// from the durable tier once the cache lost it or cannot be reached.
pub proof fn law_write_then_read_one(
    before: Tiers,
    wrote: Tiers,
    after: Tiers,
    address: Seq<char>,
    sub_id: Seq<char>,
    record: Seq<char>,
    cache_reached: bool,
    durable_reached: bool,
)
    requires
        written(before, wrote, address, sub_id, record),
        lapsed(wrote, after, address),
        durable_reached || (cache_reached && after.cache == wrote.cache),
    ensures
        read_run(after, address, Some(sub_id), cache_reached, durable_reached) == Ok::<
            Entries,
            ApiErrorType,
        >(Map::<Seq<char>, Seq<char>>::empty().insert(sub_id, record)),
{
    lemma_written(before, wrote, address, sub_id, record);
    assert(kv_get(wrote.durable, address, Some(sub_id)) == Some(
        Map::<Seq<char>, Seq<char>>::empty().insert(sub_id, record),
    ));
    assert(kv_get(wrote.cache, address, Some(sub_id)) == Some(
        Map::<Seq<char>, Seq<char>>::empty().insert(sub_id, record),
    ));
}

/// A filter that holds nothing holds no address more than once.
pub proof fn law_blank_filter_is_spare(filter: Map<Seq<char>, nat>)
    requires
        forall|address: Seq<char>| filter[address] == 0,
    ensures
        spare(filter),
{
}

/// A write that ended well leaves a filter that held no address more than
/// once as such a filter.
pub proof fn law_write_keeps_filter_spare(
    before: Tiers,
    after: Tiers,
    address: Seq<char>,
    sub_id: Seq<char>,
    record: Seq<char>,
)
    requires
        written(before, after, address, sub_id, record),
        spare(before.filter),
    ensures
        spare(after.filter),
{
    lemma_written(before, after, address, sub_id, record);
    assert forall|other: Seq<char>| after.filter[other] <= 1 by {
        assert(before.filter[other] <= 1);
    }
}

/// A deletion that ended well leaves a filter that held no address more than
/// once as such a filter.
pub proof fn law_delete_keeps_filter_spare(
    before: Tiers,
    after: Tiers,
    address: Seq<char>,
    scope: Option<Seq<char>>,
)
    requires
        deleted(before, after, address, scope),
        spare(before.filter),
    ensures
        spare(after.filter),
{
    assert forall|other: Seq<char>| after.filter[other] <= 1 by {
        assert(before.filter[other] <= 1);
    }
}

/// A record that is kept is what a read of its sub-id returns, and nothing
/// else: from the cache where the cache holds it, and from the durable tier
/// where the cache has lost it or cannot be reached.
pub proof fn law_kept_record_is_read(
    tiers: Tiers,
    address: Seq<char>,
    sub_id: Seq<char>,
    record: Seq<char>,
    cache_reached: bool,
    durable_reached: bool,
)
    requires
        kept(tiers, address, sub_id, record),
        durable_reached || (cache_reached && kv_get(tiers.cache, address, Some(sub_id)) is Some),
    ensures
        read_run(tiers, address, Some(sub_id), cache_reached, durable_reached) == Ok::<
            Entries,
            ApiErrorType,
        >(Map::<Seq<char>, Seq<char>>::empty().insert(sub_id, record)),
{
}

/// A write that ended well keeps its record.
pub proof fn law_write_keeps_its_record(
    before: Tiers,
    after: Tiers,
    address: Seq<char>,
    sub_id: Seq<char>,
    record: Seq<char>,
)
    requires
        written(before, after, address, sub_id, record),
    ensures
        kept(after, address, sub_id, record),
        kv_get(after.cache, address, Some(sub_id)) is Some,
{
    lemma_written(before, after, address, sub_id, record);
    assert(kv_get(after.durable, address, Some(sub_id)) == Some(
        Map::<Seq<char>, Seq<char>>::empty().insert(sub_id, record),
    ));
    assert(kv_get(after.cache, address, Some(sub_id)) == Some(
        Map::<Seq<char>, Seq<char>>::empty().insert(sub_id, record),
    ));
}

/// A record stays kept while the cache loses addresses by itself.
pub proof fn law_lapse_keeps_record(
    before: Tiers,
    after: Tiers,
    lost: Seq<char>,
    address: Seq<char>,
    sub_id: Seq<char>,
    record: Seq<char>,
)
    requires
        kept(before, address, sub_id, record),
        lapsed(before, after, lost),
    ensures
        kept(after, address, sub_id, record),
{
}

/// A record stays kept through a write that ended well under another
/// address or another sub-id.
pub proof fn law_other_write_keeps_record(
    before: Tiers,
    after: Tiers,
    other_address: Seq<char>,
    other_sub_id: Seq<char>,
    other_record: Seq<char>,
    address: Seq<char>,
    sub_id: Seq<char>,
    record: Seq<char>,
)
    requires
        kept(before, address, sub_id, record),
        written(before, after, other_address, other_sub_id, other_record),
        other_address != address || other_sub_id != sub_id,
    ensures
        kept(after, address, sub_id, record),
{
    lemma_written(before, after, other_address, other_sub_id, other_record);
}

/// A record stays kept through the deletion of another sub-id, of its
/// address or of any other.
pub proof fn law_other_delete_one_keeps_record(
    before: Tiers,
    after: Tiers,
    other_address: Seq<char>,
    other_sub_id: Seq<char>,
    address: Seq<char>,
    sub_id: Seq<char>,
    record: Seq<char>,
)
    requires
        kept(before, address, sub_id, record),
        deleted(before, after, other_address, Some(other_sub_id)),
        other_address != address || other_sub_id != sub_id,
    ensures
        kept(after, address, sub_id, record),
{
    if other_address == address {
        let held = before.durable[address];
        assert(held.remove(other_sub_id).dom().contains(sub_id));
        if before.cache.dom().contains(address) {
            let cached = before.cache[address];
            if cached.dom().contains(sub_id) {
                assert(cached.remove(other_sub_id).dom().contains(sub_id));
            }
        }
    }
}

/// A record stays kept through the deletion of another whole address, as
/// long as the filter still knows the record's address afterwards. It may
/// not: the filter cannot tell every two addresses apart, and gives up the
/// cell of one when the other is deleted.
pub proof fn law_other_delete_all_keeps_record(
    before: Tiers,
    after: Tiers,
    other_address: Seq<char>,
    address: Seq<char>,
    sub_id: Seq<char>,
    record: Seq<char>,
)
    requires
        kept(before, address, sub_id, record),
        deleted(before, after, other_address, None),
        other_address != address,
        known(after, address),
    ensures
        kept(after, address, sub_id, record),
{
}

/// After the deletion of a whole address from a filter that held no
/// address more than once, the address is unknown: every read of it is
/// turned away at the filter, whatever the stores hold and whether they are
/// reached or not.
pub proof fn law_delete_all_then_read(
    before: Tiers,
    after: Tiers,
    address: Seq<char>,
    scope: Option<Seq<char>>,
    cache_reached: bool,
    durable_reached: bool,
)
    requires
        deleted(before, after, address, None),
        spare(before.filter),
    ensures
        !known(after, address),
        read_run(after, address, scope, cache_reached, durable_reached) == Err::<
            Entries,
            ApiErrorType,
        >(ApiErrorType::CuckooFilterLookupFailed),
{
}

/// After the deletion of a whole address no read of it finds data, however
/// often the filter held the address: the read is turned away at the filter
/// or ends without data at the durable tier.
pub proof fn law_delete_all_leaves_no_data(
    before: Tiers,
    after: Tiers,
    address: Seq<char>,
    scope: Option<Seq<char>>,
    cache_reached: bool,
    durable_reached: bool,
)
    requires
        deleted(before, after, address, None),
    ensures
        read_run(after, address, scope, cache_reached, durable_reached) is Err,
        !after.cache.dom().contains(address),
        !after.durable.dom().contains(address),
{
}

/// Two writes to one address under different sub-ids leave both records
/// to be read together.
pub proof fn law_two_writes_then_read_all(
    before: Tiers,
    first: Tiers,
    second: Tiers,
    address: Seq<char>,
    sub_id_1: Seq<char>,
    record_1: Seq<char>,
    sub_id_2: Seq<char>,
    record_2: Seq<char>,
    cache_reached: bool,
    durable_reached: bool,
)
    requires
        sub_id_1 != sub_id_2,
        written(before, first, address, sub_id_1, record_1),
        written(first, second, address, sub_id_2, record_2),
        cache_reached || durable_reached,
    ensures
        read_run(second, address, None, cache_reached, durable_reached) matches Ok(entries) && {
            &&& entries.dom().contains(sub_id_1)
            &&& entries[sub_id_1] == record_1
            &&& entries.dom().contains(sub_id_2)
            &&& entries[sub_id_2] == record_2
        },
{
    lemma_written(before, first, address, sub_id_1, record_1);
    lemma_written(first, second, address, sub_id_2, record_2);
    let cached = second.cache[address];
    let kept = second.durable[address];
    assert(cached.dom().contains(sub_id_1) && cached.dom().contains(sub_id_2));
    assert(kept.dom().contains(sub_id_1) && kept.dom().contains(sub_id_2));
    assert(cached.dom() != Set::<Seq<char>>::empty());
    assert(kept.dom() != Set::<Seq<char>>::empty());
}

/// A write under one sub-id leaves the records of the other sub-ids of the
/// address where they were, in both stores.
pub proof fn law_write_keeps_other_entries(
    before: Tiers,
    after: Tiers,
    address: Seq<char>,
    sub_id: Seq<char>,
    record: Seq<char>,
    other: Seq<char>,
)
    requires
        written(before, after, address, sub_id, record),
        other != sub_id,
    ensures
        kv_get(after.durable, address, Some(other)) == kv_get(before.durable, address, Some(other)),
        kv_get(after.cache, address, Some(other)) == kv_get(before.cache, address, Some(other)),
{
    lemma_written(before, after, address, sub_id, record);
}

/// The deletion of one entry does not change what the filter answers, for
/// any address.
pub proof fn law_delete_one_keeps_filter(
    before: Tiers,
    after: Tiers,
    address: Seq<char>,
    sub_id: Seq<char>,
    asked: Seq<char>,
)
    requires
        deleted(before, after, address, Some(sub_id)),
    ensures
        known(after, asked) == known(before, asked),
{
}

/// The deletion of a whole address from a filter that held no address
/// more than once changes what the filter answers for it: it knew the
/// address, and knows it no more.
pub proof fn law_delete_all_changes_filter(before: Tiers, after: Tiers, address: Seq<char>)
    requires
        deleted(before, after, address, None),
        spare(before.filter),
    ensures
        known(before, address),
        !known(after, address),
{
}

/// The deletion of a sub-id that the address does not have succeeds and
/// changes nothing in the stores.
pub proof fn law_delete_missing_entry(
    before: Tiers,
    after: Tiers,
    address: Seq<char>,
    sub_id: Seq<char>,
)
    requires
        deleted(before, after, address, Some(sub_id)),
        kv_get(before.durable, address, Some(sub_id)) is None,
        before.durable.dom().contains(address) ==> before.durable[address].dom() != Set::<
            Seq<char>,
        >::empty(),
    ensures
        after.durable == before.durable,
{
    if before.durable.dom().contains(address) {
        let entries = before.durable[address];
        assert(entries.remove(sub_id) =~= entries);
        assert(after.durable =~= before.durable);
    } else {
        assert(after.durable =~= before.durable);
    }
}


/// Only an address that is present is read: one that is absent or
/// draining is turned away at the filter, before any store is asked.
pub proof fn law_only_present_addresses_are_read(
    tiers: Tiers,
    address: Seq<char>,
    scope: Option<Seq<char>>,
    cache_reached: bool,
    durable_reached: bool,
)
    ensures
        state_of(tiers, address) != AddressState::Present ==> read_run(
            tiers,
            address,
            scope,
            cache_reached,
            durable_reached,
        ) == Err::<Entries, ApiErrorType>(ApiErrorType::CuckooFilterLookupFailed),
        state_of(tiers, address) == AddressState::Present ==> read_run(
            tiers,
            address,
            scope,
            cache_reached,
            durable_reached,
        ) != Err::<Entries, ApiErrorType>(ApiErrorType::CuckooFilterLookupFailed),
{
}

/// A write that ended well makes its address present.
pub proof fn law_write_makes_present(
    before: Tiers,
    after: Tiers,
    address: Seq<char>,
    sub_id: Seq<char>,
    record: Seq<char>,
)
    requires
        written(before, after, address, sub_id, record),
    ensures
        state_of(after, address) == AddressState::Present,
{
    lemma_written(before, after, address, sub_id, record);
}

/// The deletion of a whole address from a filter that held no address more
/// than once drains the address as soon as it starts, and leaves it absent
/// when it ended well.
pub proof fn law_delete_all_drains(
    before: Tiers,
    started: Tiers,
    after: Tiers,
    address: Seq<char>,
)
    requires
        spare(before.filter),
        released(before.filter, started.filter, address),
        deleted(before, after, address, None),
    ensures
        state_of(before, address) == AddressState::Present,
        state_of(started, address) != AddressState::Present,
        state_of(after, address) == AddressState::Absent,
{
}

/// A write that the cache refuses ends there: no store is changed, and the
/// filter is not reached.
pub proof fn law_write_refused_by_cache(
    tiers: Tiers,
    address: Seq<char>,
    sub_id: Seq<char>,
    record: Seq<char>,
    cache_ttl: nat,
    cache_timed: WriteReply,
    durable_filed: WriteReply,
)
    ensures
        write_run(
            tiers,
            address,
            sub_id,
            record,
            cache_ttl,
            WriteReply::Failed,
            cache_timed,
            durable_filed,
        ) == (WriteEnd {
            tiers,
            step: WriteStepView::Failed(ApiErrorType::CacheInsertionFailed),
        }),
{
}

/// A write that the durable tier refuses leaves the record in the cache
/// alone: the durable tier and the filter are as they were. Nothing is
/// undone; the cache keeps the record until the address lapses.
pub proof fn law_write_refused_by_durable(
    tiers: Tiers,
    address: Seq<char>,
    sub_id: Seq<char>,
    record: Seq<char>,
    cache_ttl: nat,
    cache_timed: WriteReply,
)
    ensures
        write_run(
            tiers,
            address,
            sub_id,
            record,
            cache_ttl,
            WriteReply::Done,
            cache_timed,
            WriteReply::Failed,
        ) == (WriteEnd {
            tiers: Tiers {
                filter: tiers.filter,
                cache: kv_set(tiers.cache, address, sub_id, record),
                durable: tiers.durable,
            },
            step: WriteStepView::Failed(ApiErrorType::DBInsertionFailed),
        }),
{
}

/// A refusal to set the lapse does not stop a write: it goes on to the
/// durable tier as if the lapse had been set.
pub proof fn law_write_survives_refused_lapse(
    tiers: Tiers,
    address: Seq<char>,
    sub_id: Seq<char>,
    record: Seq<char>,
    cache_ttl: nat,
    durable_filed: WriteReply,
)
    ensures
        write_run(
            tiers,
            address,
            sub_id,
            record,
            cache_ttl,
            WriteReply::Done,
            WriteReply::Failed,
            durable_filed,
        ) == write_run(
            tiers,
            address,
            sub_id,
            record,
            cache_ttl,
            WriteReply::Done,
            WriteReply::Done,
            durable_filed,
        ),
{
}

/// A deletion that the cache refuses ends there, with the stores as they
/// were; one that the durable tier refuses has cleared the cache only.
pub proof fn law_delete_refused(
    tiers: Tiers,
    address: Seq<char>,
    scope: Option<Seq<char>>,
    durable_cleared: WriteReply,
)
    requires
        scope is Some || known(tiers, address),
    ensures
        delete_run(tiers, address, scope, WriteReply::Failed, durable_cleared) == (DeleteEnd {
            tiers,
            step: DeleteStepView::Done(Err(ApiErrorType::CacheDeletionFailed)),
        }),
        delete_run(tiers, address, scope, WriteReply::Done, WriteReply::Failed) == (DeleteEnd {
            tiers: Tiers {
                filter: tiers.filter,
                cache: kv_delete(tiers.cache, address, scope),
                durable: tiers.durable,
            },
            step: DeleteStepView::Done(Err(ApiErrorType::DBDeletionFailed)),
        }),
{
}

/// The deletion of a whole address that the filter does not know is turned
/// away before any store is asked.
pub proof fn law_delete_all_of_unknown_address(
    tiers: Tiers,
    address: Seq<char>,
    cache_cleared: WriteReply,
    durable_cleared: WriteReply,
)
    requires
        !known(tiers, address),
    ensures
        delete_run(tiers, address, None, cache_cleared, durable_cleared) == (DeleteEnd {
            tiers,
            step: DeleteStepView::Done(Err(ApiErrorType::CuckooFilterLookupFailed)),
        }),
{
}

} // verus!
