//! The bot's sources of chance, each behind a contract that holds of every
//! outcome.
//!
//! All draws come from `rand::thread_rng`, which panics if the operating
//! system cannot seed it.

use rand::seq::SliceRandom;
use rand::Rng;
use vstd::prelude::*;

verus! {

/// `picked` lists items of `items` taken from pairwise different positions.
pub open spec fn is_selection_of<T>(picked: Seq<T>, items: Seq<T>) -> bool {
    exists|at: Seq<int>|
        #![trigger at.len()]
        at.len() == picked.len() && at.no_duplicates() && forall|k: int|
            0 <= k < picked.len() ==> 0 <= #[trigger] at[k] < items.len() && picked[k]
                == items[at[k]]
}

/// Calls `rand::Rng::gen_range` on the inclusive range from `low` to `high`.
///
/// Trusted: the draw lies within the range. The call panics on an empty
/// range, which the precondition excludes.
#[verifier::external_body]
pub(crate) fn roll_between(low: i64, high: i64) -> (roll: i64)
    requires
        low <= high,
    ensures
        low <= roll <= high,
{
    rand::thread_rng().gen_range(low..=high)
}

/// Calls `rand::seq::SliceRandom::choose`.
///
/// Trusted: an empty slice gives `None`; any other gives one of its items.
#[verifier::external_body]
pub(crate) fn choose_one<'a, T>(items: &'a Vec<T>) -> (pick: Option<&'a T>)
    ensures
        items@.len() == 0 ==> pick is None,
        items@.len() > 0 ==> pick is Some && items@.contains(*pick.unwrap()),
{
    items.choose(&mut rand::thread_rng())
}

/// Calls `rand::seq::SliceRandom::choose_multiple` and collects what it
/// yields.
///
/// Trusted: the method samples `amount` distinct positions, or all of them if
/// the slice is shorter, and yields the items at those positions.
#[verifier::external_body]
pub(crate) fn choose_several<T: Copy>(items: &Vec<T>, amount: usize) -> (picked: Vec<T>)
    ensures
        picked@.len() == if amount <= items@.len() { amount as nat } else { items@.len() },
        is_selection_of(picked@, items@),
{
    items.choose_multiple(&mut rand::thread_rng(), amount).copied().collect()
}

/// Calls `rand::seq::SliceRandom::shuffle`.
///
/// Trusted: the method only swaps items, so the same items are there
/// afterwards, each as often as before.
#[verifier::external_body]
pub(crate) fn shuffle_in_place<T>(items: &mut Vec<T>)
    ensures
        final(items)@.to_multiset() == old(items)@.to_multiset(),
{
    items.shuffle(&mut rand::thread_rng())
}

} // verus!
