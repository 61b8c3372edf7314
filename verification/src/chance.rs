//! The one place where chance enters: drawing a line of text from a pool.

use rand::rngs::StdRng;
use rand::seq::IndexedRandom;
use vstd::prelude::*;

verus! {

/// The seedable generator of the `rand` crate. Nothing is known of its state.
#[verifier::external_type_specification]
#[verifier::external_body]
pub struct ExStdRng(StdRng);

/// Draws one entry of `pool` with `rand::seq::IndexedRandom::choose`.
///
/// Trusted, not proved: from an empty pool nothing is drawn, and from any
/// other pool one of its entries is. Which entry comes is left open; that
/// each is as likely as any other is the outside crate's promise and is not
/// stated here.
#[verifier::external_body]
pub(crate) fn draw(pool: &Vec<&'static str>, rng: &mut StdRng) -> (picked: Option<&'static str>)
    ensures
        pool@.len() == 0 ==> picked is None,
        pool@.len() > 0 ==> picked is Some && pool@.contains(picked->0),
{
    pool.choose(rng).copied()
}

} // verus!
