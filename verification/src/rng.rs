//! The random generator that the spawner owns. Nothing is known of the
//! words it hands out: whatever is built on them is proved for every word.

use vstd::prelude::*;

verus! {

/// `rand::rngs::ThreadRng`, the handle to a thread's generator. It is
/// carried through; nothing is known of what it holds.
#[verifier::external_type_specification]
#[verifier::external_body]
pub struct ExThreadRng(rand::rngs::ThreadRng);

/// Calls `rand::thread_rng`, which hands out a handle to the generator of
/// the calling thread. Nothing is claimed of the handle.
#[verifier::external_body]
pub(crate) fn thread_generator() -> rand::rngs::ThreadRng {
    rand::thread_rng()
}

/// Calls `rand::Rng::gen` for a `u32`, which takes the generator's next
/// 32-bit word. Nothing is claimed of the word: any value may come.
#[verifier::external_body]
pub(crate) fn next_word(rng: &mut rand::rngs::ThreadRng) -> u32 {
    rand::Rng::gen::<u32>(rng)
}

} // verus!
