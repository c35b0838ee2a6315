//! Random values, drawn from the thread-local generator of the `rand` crate.

use vstd::prelude::*;

verus! {

/// Calls `Rng::gen_range` with the half-open range `low..high`. Nothing is
/// known of the value but that it lies in the range; an empty range would
/// make the call panic.
#[verifier::external_body]
pub(crate) fn random_in_range(low: u32, high: u32) -> (value: u32)
    requires
        low < high,
    ensures
        low <= value < high,
{
    rand::Rng::gen_range(&mut rand::thread_rng(), low..high)
}

/// Calls `RngCore::fill_bytes` on a buffer of `len` bytes. Nothing is known
/// of the bytes but how many they are.
#[verifier::external_body]
pub(crate) fn random_bytes(len: usize) -> (bytes: Vec<u8>)
    ensures
        bytes@.len() == len,
{
    let mut bytes = vec![0u8; len];
    rand::RngCore::fill_bytes(&mut rand::thread_rng(), &mut bytes);
    bytes
}

} // verus!
