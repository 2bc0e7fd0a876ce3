//! The one place where chance comes in.

use rand::Rng;
use vstd::prelude::*;

verus! {

/// A position below `count`, drawn at random.
///
/// Trusted: `rand::thread_rng` and `Rng::gen_range` on the range from 0 up
/// to and without `count`. The range must not be empty; the value lies in
/// it. Which value comes is left open.
#[verifier::external_body]
pub(crate) fn random_index(count: usize) -> (index: usize)
    requires
        count > 0,
    ensures
        index < count,
{
    rand::thread_rng().gen_range(0..count)
}

} // verus!
