//! Random draws, taken from `rand`'s thread-local generator.

use rand::seq::{IteratorRandom, SliceRandom};
use rand::Rng;
use vstd::prelude::*;

verus! {

/// `rand::Rng::gen_range(low..=high)` on `rand::thread_rng()`: some number
/// between `low` and `high`, both included. Which one is left to chance.
#[verifier::external_body]
pub(crate) fn random_u8_inclusive(low: u8, high: u8) -> (r: u8)
    requires
        low <= high,
    ensures
        low <= r <= high,
{
    rand::thread_rng().gen_range(low..=high)
}

/// `rand::seq::SliceRandom::choose` on `rand::thread_rng()`: `None` for an empty list,
/// else one of its items. Which one is left to chance.
#[verifier::external_body]
pub(crate) fn choose_item<T>(items: &Vec<T>) -> (r: Option<&T>)
    ensures
        items.len() == 0 <==> r is None,
        r is Some ==> items@.contains(*r->0),
{
    items.as_slice().choose(&mut rand::thread_rng())
}

/// The texts of a list of strings.
pub open spec fn string_views(v: Seq<String>) -> Seq<Seq<char>> {
    v.map_values(|s: String| s@)
}

/// `rand::seq::IteratorRandom::choose_multiple` on `rand::thread_rng()`: as many items as
/// asked for, or all of them if there are fewer, each item at most as often as the
/// list holds it. Which ones, and their order, are left to chance.
#[verifier::external_body]
pub(crate) fn choose_multiple_strings(items: Vec<String>, amount: usize) -> (r: Vec<String>)
    ensures
        r.len() == if items.len() < amount { items.len() } else { amount },
        string_views(r@).to_multiset().subset_of(string_views(items@).to_multiset()),
{
    items.into_iter().choose_multiple(&mut rand::thread_rng(), amount)
}

} // verus!
