//! The random source used to generate fresh puzzles.

use vstd::prelude::*;

verus! {

/// Relies on rand::random::<bool>: a draw from rand's standard distribution,
/// which for bool is a fair coin from the thread-local generator. The result
/// is random, so nothing is promised of it: callers hold for either outcome.
#[verifier::external_body]
pub(crate) fn coin_flip() -> bool {
    rand::random::<bool>()
}

} // verus!
