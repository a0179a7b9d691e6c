//! The engines' one source of chance.

use vstd::prelude::*;

verus! {

/// A fair coin, used for card reversals and coin tosses.
///
/// Relies on `rand::Rng::gen_ratio` (with `rand::thread_rng` as its source)
/// with numerator 1 and denominator 2: a draw that is `true` half the time.
/// No contract can pin a random draw, so nothing is promised of the result.
#[verifier::external_body]
pub(crate) fn random_bool() -> bool {
    let mut rng = rand::thread_rng();
    rand::Rng::gen_ratio(&mut rng, 1, 2)
}

} // verus!
