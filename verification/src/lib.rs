//! HMAC-SHA512: a message authentication code built from the SHA-512 hash
//! function, in one-shot and streaming forms, with constant-time tag
//! verification.
//!
//! The SHA-512 compression itself is done by the `orion` crate; tag
//! comparison goes through `subtle`; pad buffers are erased with
//! `clear_on_drop`.

use vstd::prelude::*;

mod erase;
mod errors;
mod hash;
mod laws;
mod mac;
mod pad;
mod stream;

pub use errors::MacError;
pub use laws::{
    lemma_oneshot_matches_streaming, lemma_verify_accepts, lemma_verify_rejects_flipped_tag,
    lemma_verify_rejects_wrong_tag,
};
pub use mac::{hmac_of, hmac_sha512, verify, verify_ok};
pub use pad::{flip_pad, ipad_of, lemma_flip_pad_involutive, opad_of};
pub use stream::{init, HmacSha512};

verus! {

/// The blocksize in bytes of the hash function SHA-512.
pub const SHA2_BLOCKSIZE: usize = 128;

/// The output size in bytes of the hash function SHA-512.
pub const HLEN: usize = 64;

} // verus!
