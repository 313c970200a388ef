//! The existence filter: a cuckoo filter over addresses, with the snapshot
//! that carries it across restarts.
//!
//! A filter has buckets of four cells, and a cell holds a fingerprint of one
//! byte. An address can be found in two buckets, so that up to eight cells
//! are compared for it, each with one of 255 fingerprints. An address that
//! was never inserted is therefore found with a probability of about
//! 8 * load / 255, where load is the share of the cells in use: below 3 % as
//! long as no more than 95 % of the cells are in use. A new filter has 2^18
//! buckets, that is 2^20 cells.
//!
//! The filter itself is `cuckoofilter::CuckooFilter`. Verus does not read
//! that crate; what this module assumes of it is stated on the private
//! functions at the end of the file.

use std::collections::hash_map::DefaultHasher;
use vstd::prelude::*;

use crate::errors::ApiErrorType;

verus! {

/// The byte that marks an unused cell of the filter.
pub const EMPTY_CELL: u8 = 100;

/// Cells in one bucket of the filter.
pub const BUCKET_CELLS: usize = 4;

/// Cells of a filter built by [`ExistenceFilter::new`].
pub const NEW_FILTER_CELLS: usize = 1048576;

/// `n` is 1, 2, 4, 8, ...
pub open spec fn is_power_of_two(n: nat) -> bool
    decreases n,
{
    if n == 0 {
        false
    } else if n == 1 {
        true
    } else {
        n % 2 == 0 && is_power_of_two(n / 2)
    }
}

/// How many of `cells` are in use.
pub open spec fn occupied(cells: Seq<u8>) -> nat
    decreases cells.len(),
{
    if cells.len() == 0 {
        0
    } else {
        occupied(cells.drop_last()) + if cells.last() != EMPTY_CELL {
            1nat
        } else {
            0nat
        }
    }
}

/// The cells and the count belong to a filter that can be used: whole
/// buckets, a power of two of them, and a count that agrees with the cells.
pub open spec fn cells_valid(cells: Seq<u8>, count: nat) -> bool {
    &&& cells.len() % (BUCKET_CELLS as nat) == 0
    &&& is_power_of_two(cells.len() / (BUCKET_CELLS as nat))
    &&& count == occupied(cells)
}

/// The cells of a filter that holds nothing.
pub open spec fn blank_cells() -> Seq<u8> {
    Seq::new(NEW_FILTER_CELLS as nat, |i: int| EMPTY_CELL)
}

/// The filter as it is stored: every cell in bucket order, and the number
/// of cells in use.
#[derive(Debug, Clone, PartialEq, Eq)]
pub struct StorageReadyCuckooFilter {
    /// One byte per cell.
    pub values: Vec<u8>,
    /// Cells in use.
    pub length: usize,
}

impl StorageReadyCuckooFilter {
    /// A filter can be rebuilt from this snapshot.
    pub open spec fn sound(&self) -> bool {
        cells_valid(self.values@, self.length as nat)
    }

    /// Tests whether a filter can be rebuilt from this snapshot.
    pub fn is_sound(&self) -> (sound: bool)
        ensures
            sound == self.sound(),
    {
        let cells: usize = self.values.len();
        if cells % BUCKET_CELLS != 0 {
            return false;
        }
        if !power_of_two(cells / BUCKET_CELLS) {
            return false;
        }
        count_occupied(&self.values) == self.length
    }
}

/// Tests whether `n` is a power of two.
pub fn power_of_two(n: usize) -> (yes: bool)
    ensures
        yes == is_power_of_two(n as nat),
{
    if n == 0 {
        return false;
    }
    let mut rest: usize = n;
    while rest % 2 == 0
        invariant
            rest > 0,
            is_power_of_two(rest as nat) == is_power_of_two(n as nat),
        decreases rest,
    {
        rest = rest / 2;
    }
    rest == 1
}

/// Counts the cells in use.
pub fn count_occupied(cells: &Vec<u8>) -> (count: usize)
    ensures
        count == occupied(cells@),
{
    let mut count: usize = 0;
    let mut at: usize = 0;
    while at < cells.len()
        invariant
            at <= cells.len(),
            count <= at,
            count == occupied(cells@.take(at as int)),
        decreases cells.len() - at,
    {
        proof {
            assert(cells@.take(at + 1).drop_last() == cells@.take(at as int));
        }
        if cells[at] != EMPTY_CELL {
            count = count + 1;
        }
        at = at + 1;
    }
    proof {
        assert(cells@.take(at as int) == cells@);
    }
    count
}

/// No cell of a blank filter is in use.
pub proof fn lemma_blank_cells_valid()
    ensures
        cells_valid(blank_cells(), 0),
{
    lemma_all_empty(blank_cells());
    assert(blank_cells().len() / 4 == 262144);
    reveal_with_fuel(is_power_of_two, 20);
}

proof fn lemma_all_empty(cells: Seq<u8>)
    requires
        forall|i: int| 0 <= i < cells.len() ==> cells[i] == EMPTY_CELL,
    ensures
        occupied(cells) == 0,
    decreases cells.len(),
{
    if cells.len() > 0 {
        lemma_all_empty(cells.drop_last());
    }
}

/// For every address, how many of `cells` stand for it.
pub open spec fn tallies_of(cells: Seq<u8>) -> Map<Seq<char>, nat> {
    Map::total(|address: Seq<char>| cell_tally(cells, address))
}

/// One more cell stands for `key` in `after` than in `before`: the key is
/// found once more, and so is every key that is found through the same
/// cells, which was found as often as `key` before. Every other key is found
/// as often as before.
pub open spec fn one_more(before: Seq<u8>, after: Seq<u8>, key: Seq<char>) -> bool {
    &&& cell_tally(after, key) == cell_tally(before, key) + 1
    &&& forall|other: Seq<char>|
        #![trigger cell_tally(after, other)]
        cell_tally(after, other) == cell_tally(before, other) || (cell_tally(before, other)
            == cell_tally(before, key) && cell_tally(after, other) == cell_tally(before, other)
            + 1)
}

/// One cell less stands for `key` in `after` than in `before`: the key is
/// found once less, and no key is found more often than before.
pub open spec fn one_less(before: Seq<u8>, after: Seq<u8>, key: Seq<char>) -> bool {
    &&& cell_tally(before, key) > 0
    &&& cell_tally(after, key) == cell_tally(before, key) - 1
    &&& forall|other: Seq<char>|
        #![trigger cell_tally(after, other)]
        cell_tally(after, other) <= cell_tally(before, other)
}

/// The map of tallies shows for each address the tally of its cells.
pub proof fn lemma_tallies(cells: Seq<u8>)
    ensures
        forall|address: Seq<char>| #[trigger]
            tallies_of(cells)[address] == cell_tally(cells, address),
{
}

/// The existence filter over addresses.
///
/// It may answer yes for an address that was never inserted; it answers no
/// only for an address that no cell stands for. An address can be held more
/// than once: each insertion takes a cell and each deletion frees one.
pub struct ExistenceFilter {
    inner: cuckoofilter::CuckooFilter<DefaultHasher>,
    dirty: bool,
}

impl ExistenceFilter {
    #[verifier::type_invariant]
    spec fn usable(&self) -> bool {
        cells_valid(filter_cells(self.inner), filter_count(self.inner))
    }

    /// Every cell of the filter, in bucket order.
    pub closed spec fn cells(&self) -> Seq<u8> {
        filter_cells(self.inner)
    }

    /// The number of cells in use.
    pub closed spec fn held(&self) -> nat {
        filter_count(self.inner)
    }

    /// How many cells stand for `address`.
    #[verifier::inline]
    pub open spec fn tally(&self, address: Seq<char>) -> nat {
        cell_tally(self.cells(), address)
    }

    /// For every address, how many cells stand for it.
    #[verifier::inline]
    pub open spec fn tallies(&self) -> Map<Seq<char>, nat> {
        tallies_of(self.cells())
    }

    /// The filter changed since the last snapshot was taken.
    pub closed spec fn unsaved(&self) -> bool {
        self.dirty
    }

    /// A filter that holds nothing, with nothing to save.
    pub fn new() -> (filter: Self)
        ensures
            filter.cells() == blank_cells(),
            filter.held() == 0,
            forall|address: Seq<char>| filter.tally(address) == 0,
            !filter.unsaved(),
    {
        proof {
            lemma_blank_cells_valid();
        }
        ExistenceFilter { inner: filter_new(), dirty: false }
    }

    /// Does the filter know `address`?
    pub fn contains(&self, address: &str) -> (known: bool)
        ensures
            known == (self.tally(address@) > 0),
    {
        proof {
            use_type_invariant(self);
        }
        filter_contains(&self.inner, address)
    }

    /// Takes one more cell for `address`.
    ///
    /// On success `address` is held once more, and so is every address that
    /// the filter cannot tell from it, which was held as often as `address`
    /// before; every other address is held as often as before. A filter
    /// without room answers `CuckooFilterInsertionFailed`; it may then have
    /// lost some other address.
    pub fn insert(&mut self, address: &str) -> (done: Result<(), ApiErrorType>)
        ensures
            done is Ok ==> one_more(old(self).cells(), final(self).cells(), address@),
            done is Ok ==> final(self).held() == old(self).held() + 1,
            done is Err ==> done == Err::<(), ApiErrorType>(
                ApiErrorType::CuckooFilterInsertionFailed,
            ),
            final(self).cells().len() == old(self).cells().len(),
            final(self).unsaved(),
    {
        proof {
            use_type_invariant(&*self);
        }
        let outcome = filter_add(&mut self.inner, address);
        self.dirty = true;
        match outcome {
            Ok(_) => Ok(()),
            Err(_) => Err(ApiErrorType::CuckooFilterInsertionFailed),
        }
    }

    /// Frees one cell that stands for `address`, and says whether there was one.
    ///
    /// No address is held more often afterwards. Where none stood for
    /// `address` the filter is unchanged.
    pub fn delete(&mut self, address: &str) -> (removed: bool)
        ensures
            removed == (old(self).tally(address@) > 0),
            removed ==> one_less(old(self).cells(), final(self).cells(), address@),
            removed ==> final(self).held() == old(self).held() - 1,
            removed ==> final(self).unsaved(),
            !removed ==> final(self).cells() == old(self).cells(),
            !removed ==> final(self).held() == old(self).held(),
            !removed ==> final(self).unsaved() == old(self).unsaved(),
            final(self).cells().len() == old(self).cells().len(),
    {
        proof {
            use_type_invariant(&*self);
        }
        let removed = filter_delete(&mut self.inner, address);
        if removed {
            self.dirty = true;
        }
        removed
    }

    /// The filter as it is stored.
    pub fn export(&self) -> (snapshot: StorageReadyCuckooFilter)
        ensures
            snapshot.values@ == self.cells(),
            snapshot.length == self.held(),
            snapshot.sound(),
    {
        proof {
            use_type_invariant(self);
        }
        filter_export(&self.inner)
    }

    /// Rebuilds a filter from a snapshot, if the snapshot is sound.
    pub fn import(snapshot: StorageReadyCuckooFilter) -> (filter: Option<Self>)
        ensures
            filter is Some <==> snapshot.sound(),
            filter matches Some(rebuilt) ==> {
                &&& rebuilt.cells() == snapshot.values@
                &&& rebuilt.held() == snapshot.length
                &&& !rebuilt.unsaved()
            },
    {
        if snapshot.is_sound() {
            Some(ExistenceFilter { inner: filter_import(snapshot), dirty: false })
        } else {
            None
        }
    }

    /// Has the filter changed since the last snapshot was taken?
    pub fn is_dirty(&self) -> (dirty: bool)
        ensures
            dirty == self.unsaved(),
    {
        self.dirty
    }

    /// Hands out a snapshot if the filter changed since the last one, and
    /// marks the filter as saved.
    pub fn take_snapshot(&mut self) -> (snapshot: Option<StorageReadyCuckooFilter>)
        ensures
            final(self).cells() == old(self).cells(),
            final(self).held() == old(self).held(),
            !final(self).unsaved(),
            snapshot is Some <==> old(self).unsaved(),
            snapshot matches Some(taken) ==> {
                &&& taken.values@ == old(self).cells()
                &&& taken.length == old(self).held()
                &&& taken.sound()
            },
    {
        if self.dirty {
            let taken = self.export();
            self.dirty = false;
            Some(taken)
        } else {
            None
        }
    }
}

// ---------------------------------------------------------------------------
// What is assumed of the `cuckoofilter` crate.
// ---------------------------------------------------------------------------

#[verifier::external_type_specification]
#[verifier::external_body]
#[verifier::reject_recursive_types(H)]
pub struct ExCuckooFilter<H>(cuckoofilter::CuckooFilter<H>);

#[verifier::external_type_specification]
#[verifier::external_body]
pub struct ExCuckooError(cuckoofilter::CuckooError);

/// The fingerprint bytes of every bucket of the filter, chained in bucket
/// order: what `CuckooFilter::export` returns as `values`.
pub uninterp spec fn filter_cells(filter: cuckoofilter::CuckooFilter<DefaultHasher>) -> Seq<u8>;

/// The number of items that the filter says it holds: `CuckooFilter::len`.
pub uninterp spec fn filter_count(filter: cuckoofilter::CuckooFilter<DefaultHasher>) -> nat;

/// In a filter with these cells, the number of cells that hold the
/// fingerprint of `key` and lie in one of the two buckets of `key`. It is
/// the number of cells that `CuckooFilter::contains` would accept for `key`.
pub uninterp spec fn cell_tally(cells: Seq<u8>, key: Seq<char>) -> nat;

/// `CuckooFilter::new`: 2^18 buckets of four cells, all of them unused, so
/// that no key is found.
#[verifier::external_body]
fn filter_new() -> (filter: cuckoofilter::CuckooFilter<DefaultHasher>)
    ensures
        filter_cells(filter) == blank_cells(),
        filter_count(filter) == 0,
        forall|key: Seq<char>| cell_tally(filter_cells(filter), key) == 0,
{
    cuckoofilter::CuckooFilter::new()
}

/// `CuckooFilter::contains` on a string: true where a cell of one of the
/// key's two buckets holds the key's fingerprint. It divides by the number
/// of buckets, so there must be one.
#[verifier::external_body]
fn filter_contains(filter: &cuckoofilter::CuckooFilter<DefaultHasher>, key: &str) -> (found: bool)
    requires
        cells_valid(filter_cells(*filter), filter_count(*filter)),
    ensures
        found == (cell_tally(filter_cells(*filter), key@) > 0),
{
    filter.contains(key)
}

/// `CuckooFilter::add` on a string. On `Ok` the key's fingerprint took one
/// unused cell of one of its two buckets; fingerprints that had to give way
/// moved to their other bucket, which with a power of two of buckets is again
/// one of their own two. So the new cell is found for the key and for every
/// key that shares its fingerprint and its two buckets, which were all found
/// as often as the key before, and every other key is found as often as
/// before. On `Err` one fingerprint was dropped and nothing is claimed of
/// what is found. The number of cells never changes, and the count follows
/// the cells in use.
#[verifier::external_body]
fn filter_add(filter: &mut cuckoofilter::CuckooFilter<DefaultHasher>, key: &str) -> (done: Result<
    (),
    cuckoofilter::CuckooError,
>)
    requires
        cells_valid(filter_cells(*old(filter)), filter_count(*old(filter))),
    ensures
        cells_valid(filter_cells(*final(filter)), filter_count(*final(filter))),
        filter_cells(*final(filter)).len() == filter_cells(*old(filter)).len(),
        done is Ok ==> one_more(filter_cells(*old(filter)), filter_cells(*final(filter)), key@),
        done is Ok ==> filter_count(*final(filter)) == filter_count(*old(filter)) + 1,
    no_unwind
{
    filter.add(key)
}

/// `CuckooFilter::delete` on a string: frees the first cell of the key's two
/// buckets that holds its fingerprint and returns true, or finds none,
/// changes nothing and returns false. The count goes down with the cell, so
/// it must agree with the cells beforehand.
#[verifier::external_body]
fn filter_delete(filter: &mut cuckoofilter::CuckooFilter<DefaultHasher>, key: &str) -> (removed:
    bool)
    requires
        cells_valid(filter_cells(*old(filter)), filter_count(*old(filter))),
    ensures
        cells_valid(filter_cells(*final(filter)), filter_count(*final(filter))),
        filter_cells(*final(filter)).len() == filter_cells(*old(filter)).len(),
        removed == (cell_tally(filter_cells(*old(filter)), key@) > 0),
        removed ==> one_less(filter_cells(*old(filter)), filter_cells(*final(filter)), key@),
        removed ==> filter_count(*final(filter)) == filter_count(*old(filter)) - 1,
        !removed ==> filter_cells(*final(filter)) == filter_cells(*old(filter)),
        !removed ==> filter_count(*final(filter)) == filter_count(*old(filter)),
    no_unwind
{
    filter.delete(key)
}

/// `CuckooFilter::export`: the cells and the count, as they are.
#[verifier::external_body]
fn filter_export(filter: &cuckoofilter::CuckooFilter<DefaultHasher>) -> (snapshot:
    StorageReadyCuckooFilter)
    ensures
        snapshot.values@ == filter_cells(*filter),
        snapshot.length == filter_count(*filter),
{
    let exported = filter.export();
    StorageReadyCuckooFilter { values: exported.values, length: exported.length }
}

/// `CuckooFilter::from` on an exported filter: cuts the bytes into buckets
/// of four cells and takes the count as it is given.
#[verifier::external_body]
fn filter_import(snapshot: StorageReadyCuckooFilter) -> (filter: cuckoofilter::CuckooFilter<
    DefaultHasher,
>)
    requires
        snapshot.values@.len() % (BUCKET_CELLS as nat) == 0,
    ensures
        filter_cells(filter) == snapshot.values@,
        filter_count(filter) == snapshot.length,
{
    cuckoofilter::CuckooFilter::from(cuckoofilter::ExportedCuckooFilter {
        values: snapshot.values,
        length: snapshot.length,
    })
}

} // verus!
