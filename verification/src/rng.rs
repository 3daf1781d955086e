use vstd::prelude::*;
use rand::Rng;

verus! {

/// Relies on `rand::thread_rng` and `rand::Rng::gen` at type `bool` (one
/// sign test on the generator's next word): a freshly drawn boolean. Nothing
/// holds of the value itself, so the contract claims nothing; callers take
/// the result as an argument and are verified for both values.
#[verifier::external_body]
pub(crate) fn random_bool() -> bool {
    rand::thread_rng().gen()
}

} // verus!
