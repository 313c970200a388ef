//! Unique identifiers.
//!
//! The random numbers come from the `rand` crate; what this module assumes
//! of it is stated on the private function at the end of the file.

use vstd::prelude::*;
use vstd::string::*;

use crate::constants::{DRUID_CHARSET, DRUID_CHARSET_LENGTH, DRUID_LENGTH};

verus! {

/// Every character of `text` is a letter without accent or a digit.
pub open spec fn alphanumeric(text: Seq<char>) -> bool {
    forall|i: int|
        0 <= i < text.len() ==> {
            let c = #[trigger] text[i];
            ('A' <= c <= 'Z') || ('a' <= c <= 'z') || ('0' <= c <= '9')
        }
}

/// The identifier that the picks spell: for each pick the character that
/// stands at its place in the character set.
pub open spec fn druid_of(picks: Seq<usize>) -> Seq<char> {
    Seq::new(picks.len(), |i: int| DRUID_CHARSET@[picks[i] as int])
}

/// Spells the identifier of the picks.
pub fn druid_from_picks(picks: &Vec<usize>) -> (druid: String)
    requires
        forall|i: int| 0 <= i < picks@.len() ==> picks@[i] < DRUID_CHARSET_LENGTH,
    ensures
        druid@ == druid_of(picks@),
        alphanumeric(druid@),
{
    proof {
        reveal_strlit("ABCDEFGHIJKLMNOPQRSTUVWXYZabcdefghijklmnopqrstuvwxyz0123456789");
    }
    let mut druid = String::new();
    let mut at: usize = 0;
    while at < picks.len()
        invariant
            at <= picks@.len(),
            DRUID_CHARSET@.len() == DRUID_CHARSET_LENGTH,
            vstd::string::is_ascii(DRUID_CHARSET),
            forall|i: int| 0 <= i < picks@.len() ==> picks@[i] < DRUID_CHARSET_LENGTH,
            druid@ == druid_of(picks@.take(at as int)),
        decreases picks@.len() - at,
    {
        let pick = picks[at];
        let letter = DRUID_CHARSET.substring_ascii(pick, pick + 1);
        druid.append(letter);
        proof {
            assert(letter@ =~= seq![DRUID_CHARSET@[pick as int]]);
            assert(druid@ =~= druid_of(picks@.take(at + 1)));
        }
        at = at + 1;
    }
    assert(picks@.take(at as int) == picks@);
    assert(alphanumeric(druid@)) by {
        assert forall|i: int| 0 <= i < druid@.len() implies {
            let c = #[trigger] druid@[i];
            ('A' <= c <= 'Z') || ('a' <= c <= 'z') || ('0' <= c <= '9')
        } by {
            let pick = picks@[i];
            assert(druid@[i] == DRUID_CHARSET@[pick as int]);
        }
    }
    druid
}

/// Makes a unique identifier: sixteen characters, each drawn at random
/// from the letters without accent and the digits.
pub fn construct_druid() -> (druid: String)
    ensures
        druid@.len() == DRUID_LENGTH,
        alphanumeric(druid@),
{
    let mut picks: Vec<usize> = Vec::new();
    let mut at: usize = 0;
    while at < DRUID_LENGTH
        invariant
            at <= DRUID_LENGTH,
            picks@.len() == at,
            forall|i: int| 0 <= i < picks@.len() ==> picks@[i] < DRUID_CHARSET_LENGTH,
        decreases DRUID_LENGTH - at,
    {
        let pick = random_below(DRUID_CHARSET_LENGTH);
        picks.push(pick);
        at = at + 1;
    }
    druid_from_picks(&picks)
}

// ---------------------------------------------------------------------------
// What is assumed of the `rand` crate.
// ---------------------------------------------------------------------------

/// `Rng::gen_range` on the thread's generator, over the numbers below
/// `bound`. Every call may return another number of that range. An empty
/// range makes it panic.
#[verifier::external_body]
fn random_below(bound: usize) -> (pick: usize)
    requires
        bound > 0,
    ensures
        pick < bound,
{
    rand::Rng::gen_range(&mut rand::thread_rng(), 0..bound)
}

} // verus!
