use vstd::prelude::*;
use rand::rngs::ThreadRng;
use rand::Rng;

verus! {

#[verifier::external_type_specification]
#[verifier::external_body]
pub struct ExThreadRng(ThreadRng);

/// `rand::thread_rng` hands out a handle to the random number generator of
/// the calling thread, which the operating system seeds on first use.
/// Nothing is claimed of the handle.
pub assume_specification[ rand::thread_rng ]() -> ThreadRng;

/// `ThreadRng::clone` makes another handle to the same generator. Nothing is
/// claimed of the handle.
pub assume_specification[ <ThreadRng as Clone>::clone ](rng: &ThreadRng) -> ThreadRng;

/// `Rng::gen` for a double draws from `rand`'s standard distribution, which
/// yields a multiple of 2^-53 that is at least zero and less than one. The
/// result is the bit pattern of the number drawn, so it is below the bit
/// pattern of one.
#[verifier::external_body]
pub(crate) fn draw_float(rng: &mut ThreadRng) -> (bits: u64)
    ensures
        bits < 0x3ff0_0000_0000_0000,
{
    rng.gen::<rhai::FLOAT>().to_bits()
}

/// `Rng::gen` for a 64-bit integer draws from all of its values. Nothing is
/// claimed of the number drawn.
#[verifier::external_body]
pub(crate) fn draw_int(rng: &mut ThreadRng) -> (number: i64)
{
    rng.gen::<rhai::INT>()
}

} // verus!
