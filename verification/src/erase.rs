//! Secure erasure of pad buffers.
//!
//! Key-derived bytes are overwritten with zeros as soon as their owner is
//! done with them, on every exit path: the one-shot MAC wipes its
//! temporary buffer before returning, and the streaming handle wipes its
//! buffer when it is dropped.

use vstd::prelude::*;

verus! {

/// Relies on `clear_on_drop`'s `Clear` for `[u8]`: overwrites every byte
/// of the buffer with zero, in place, keeping its length.
#[verifier::external_body]
pub(crate) fn wipe_bytes(buffer: &mut Vec<u8>)
    ensures
        final(buffer)@.len() == old(buffer)@.len(),
        forall|i: int| 0 <= i < final(buffer)@.len() ==> final(buffer)@[i] == 0u8,
    opens_invariants none
    no_unwind
{
    clear_on_drop::clear::Clear::clear(buffer.as_mut_slice())
}

} // verus!
