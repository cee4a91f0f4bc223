//! The growth machine's source of randomness.

use vstd::prelude::*;

verus! {

/// Relies on rand::random_range over `0..n`: the sample is uniform over the
/// range and always lies below `n`; the call panics only on an empty range,
/// which the precondition rules out.
#[verifier::external_body]
pub(crate) fn random_below(n: usize) -> (r: usize)
    requires
        1 <= n,
    ensures
        r < n,
{
    rand::random_range(0..n)
}

} // verus!
