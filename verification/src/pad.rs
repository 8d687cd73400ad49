//! Key-pad derivation and the pad flip.
//!
//! One 128-byte buffer serves as both HMAC pads: it is derived in inner-pad
//! form from the key, and XOR-ing every byte with `0x36 ^ 0x5c = 0x6a`
//! toggles it between the inner and the outer form.

use vstd::prelude::*;

use crate::hash::{sha512_finalize, sha512_new, sha512_of, sha512_update};
use crate::{HLEN, SHA2_BLOCKSIZE};

verus! {

/// The byte the inner pad is built from.
pub const IPAD_BYTE: u8 = 0x36;

/// The byte the outer pad is built from.
pub const OPAD_BYTE: u8 = 0x5c;

/// XOR-ing a pad byte with this delta turns an inner-pad byte into the
/// corresponding outer-pad byte and back.
pub const PAD_DELTA: u8 = IPAD_BYTE ^ OPAD_BYTE;

/// A block-sized buffer holding `IPAD_BYTE` in every position: the inner
/// pad of the empty key, and the starting point of every key-pad
/// derivation.
pub open spec fn fresh_pad() -> Seq<u8> {
    Seq::new(SHA2_BLOCKSIZE as nat, |i: int| IPAD_BYTE)
}

/// Every byte of `pad` XOR-ed with `PAD_DELTA`: the other pad form.
pub open spec fn flip_pad(pad: Seq<u8>) -> Seq<u8> {
    Seq::new(pad.len(), |i: int| pad[i] ^ PAD_DELTA)
}

/// The inner-pad buffer derived from `key`: a key longer than the
/// blocksize is first hashed down to `HLEN` bytes; the key (or its digest)
/// is XOR-ed byte-wise into a buffer of `IPAD_BYTE`s, and positions beyond
/// it keep the plain `IPAD_BYTE`.
pub open spec fn ipad_of(key: Seq<u8>) -> Seq<u8> {
    let base = if key.len() > SHA2_BLOCKSIZE { sha512_of(key) } else { key };
    Seq::new(
        SHA2_BLOCKSIZE as nat,
        |i: int| if i < base.len() { IPAD_BYTE ^ base[i] } else { IPAD_BYTE },
    )
}

/// The outer-pad buffer derived from `key`: the flipped inner pad.
pub open spec fn opad_of(key: Seq<u8>) -> Seq<u8> {
    flip_pad(ipad_of(key))
}

/// Flipping a pad twice is the identity: the same buffer serves as inner
/// and outer pad, toggled back and forth by `reverse_pad`.
pub proof fn lemma_flip_pad_involutive(pad: Seq<u8>)
    ensures
        flip_pad(flip_pad(pad)) == pad,
{
    assert forall|i: int| 0 <= i < pad.len() implies flip_pad(flip_pad(pad))[i] == pad[i] by {
        let b = pad[i];
        assert((b ^ PAD_DELTA) ^ PAD_DELTA == b) by (bit_vector);
    }
    assert(flip_pad(flip_pad(pad)) =~= pad);
}

/// Build the starting buffer for a key-pad derivation: `SHA2_BLOCKSIZE`
/// bytes of `IPAD_BYTE`.
pub(crate) fn fresh_pad_buffer() -> (buffer: Vec<u8>)
    ensures
        buffer@ == fresh_pad(),
{
    let mut buffer: Vec<u8> = Vec::new();
    let mut i: usize = 0;
    while i < SHA2_BLOCKSIZE
        invariant
            i <= SHA2_BLOCKSIZE,
            buffer@.len() == i,
            forall|j: int| 0 <= j < i ==> buffer@[j] == IPAD_BYTE,
        decreases SHA2_BLOCKSIZE - i,
    {
        buffer.push(IPAD_BYTE);
        i += 1;
    }
    proof {
        assert(buffer@ =~= fresh_pad());
    }
    buffer
}

/// Invert the buffer from opad to ipad or vice versa.
pub(crate) fn reverse_pad(buffer: &mut Vec<u8>)
    ensures
        final(buffer)@ == flip_pad(old(buffer)@),
{
    let n = buffer.len();
    let mut i: usize = 0;
    while i < n
        invariant
            i <= n,
            buffer@.len() == n,
            n == old(buffer)@.len(),
            forall|j: int| 0 <= j < i ==> buffer@[j] == (old(buffer)@[j] ^ PAD_DELTA),
            forall|j: int| i <= j < n ==> buffer@[j] == old(buffer)@[j],
        decreases n - i,
    {
        let b = buffer[i];
        buffer[i] = b ^ PAD_DELTA;
        i += 1;
    }
    proof {
        assert(buffer@ =~= flip_pad(old(buffer)@));
    }
}

/// Pad key and construct the inner pad in `buffer`, which must hold the
/// fresh all-`IPAD_BYTE` buffer.
pub(crate) fn pad_key_to_ipad(key: &[u8], buffer: &mut Vec<u8>)
    requires
        old(buffer)@ == fresh_pad(),
    ensures
        final(buffer)@ == ipad_of(key@),
{
    if key.len() > SHA2_BLOCKSIZE {
        let mut ctx = sha512_new();
        sha512_update(&mut ctx, key);
        let digest = sha512_finalize(ctx);
        proof {
            assert(Seq::<u8>::empty() + key@ =~= key@);
            assert(digest@ == sha512_of(key@));
        }
        let mut i: usize = 0;
        while i < HLEN
            invariant
                i <= HLEN,
                digest@.len() == HLEN,
                digest@ == sha512_of(key@),
                buffer@.len() == SHA2_BLOCKSIZE,
                forall|j: int| 0 <= j < i ==> buffer@[j] == (IPAD_BYTE ^ digest@[j]),
                forall|j: int| i <= j < SHA2_BLOCKSIZE ==> buffer@[j] == IPAD_BYTE,
            decreases HLEN - i,
        {
            buffer[i] = IPAD_BYTE ^ digest[i];
            i += 1;
        }
        proof {
            assert(buffer@ =~= ipad_of(key@));
        }
    } else {
        let n = key.len();
        let mut i: usize = 0;
        while i < n
            invariant
                i <= n,
                n == key@.len(),
                n <= SHA2_BLOCKSIZE,
                buffer@.len() == SHA2_BLOCKSIZE,
                forall|j: int| 0 <= j < i ==> buffer@[j] == (IPAD_BYTE ^ key@[j]),
                forall|j: int| i <= j < SHA2_BLOCKSIZE ==> buffer@[j] == IPAD_BYTE,
            decreases n - i,
        {
            let b = buffer[i];
            buffer[i] = b ^ key[i];
            i += 1;
        }
        proof {
            assert(buffer@ =~= ipad_of(key@));
        }
    }
}

} // verus!
