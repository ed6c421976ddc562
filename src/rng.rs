use vstd::prelude::*;

verus! {

/// A random byte for `CXNN`.
///
/// Relies on `rand::random::<u8>`, which draws from the thread-local
/// generator; nothing is promised of the value. It panics only when the
/// operating system's random source cannot seed that generator.
#[verifier::external_body]
pub(crate) fn random_byte() -> (r: u8) {
    rand::random::<u8>()
}

} // verus!
