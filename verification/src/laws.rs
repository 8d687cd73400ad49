//! Properties relating the public operations, stated over the same spec
//! functions their contracts use.

use vstd::prelude::*;

use crate::mac::{hmac_of, verify_ok};

verus! {

/// One-shot and streaming paths agree: the tag `finalize` promises after
/// `init(key)` followed by `update(msg)` — whose fed message is the empty
/// sequence extended by `msg` — is the tag `hmac_sha512` promises for
/// `key` and `msg`.
pub proof fn lemma_oneshot_matches_streaming(key: Seq<u8>, msg: Seq<u8>)
    ensures
        hmac_of(key, Seq::<u8>::empty() + msg) == hmac_of(key, msg),
{
    assert(Seq::<u8>::empty() + msg =~= msg);
}

/// A genuine tag always verifies: `verify` accepts exactly the tag that
/// `hmac_sha512` produces for the same key and message.
pub proof fn lemma_verify_accepts(key: Seq<u8>, msg: Seq<u8>)
    ensures
        verify_ok(hmac_of(key, msg), key, msg),
{
}

/// Any tag other than the genuine one is refused by `verify`.
pub proof fn lemma_verify_rejects_wrong_tag(tag: Seq<u8>, key: Seq<u8>, msg: Seq<u8>)
    requires
        tag != hmac_of(key, msg),
    ensures
        !verify_ok(tag, key, msg),
{
}

/// Flipping any bits of one byte of the genuine tag makes `verify` refuse
/// it: `mask` selects the flipped bits of the byte at `i`.
pub proof fn lemma_verify_rejects_flipped_tag(key: Seq<u8>, msg: Seq<u8>, i: int, mask: u8)
    requires
        0 <= i < hmac_of(key, msg).len(),
        mask != 0,
    ensures
        !verify_ok(hmac_of(key, msg).update(i, hmac_of(key, msg)[i] ^ mask), key, msg),
{
    let tag = hmac_of(key, msg);
    let b = tag[i];
    assert(b ^ mask != b) by (bit_vector)
        requires
            mask != 0u8,
    ;
    assert(tag.update(i, b ^ mask)[i] != tag[i]);
}

} // verus!
