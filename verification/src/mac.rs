//! The one-shot MAC and constant-time verification.

use vstd::prelude::*;

use crate::erase::wipe_bytes;
use crate::hash::{sha512_finalize, sha512_new, sha512_of, sha512_update};
use crate::pad::{ipad_of, opad_of, fresh_pad_buffer, pad_key_to_ipad, reverse_pad};
use crate::HLEN;

use subtle::ConstantTimeEq;

verus! {

/// The HMAC-SHA512 tag of `message` under `key`: the outer hash of the
/// outer pad followed by the inner hash of the inner pad and the message.
pub open spec fn hmac_of(key: Seq<u8>, message: Seq<u8>) -> Seq<u8> {
    sha512_of(opad_of(key) + sha512_of(ipad_of(key) + message))
}

/// What a successful verification means: the presented tag is exactly the
/// HMAC-SHA512 tag of `message` under `key`.
pub open spec fn verify_ok(tag: Seq<u8>, key: Seq<u8>, message: Seq<u8>) -> bool {
    tag == hmac_of(key, message)
}

/// Relies on `subtle`'s `ConstantTimeEq` for `[u8]`: the comparison
/// returns 1 exactly when the two slices have equal length and equal
/// bytes, and inspects every byte pair without an early exit on a
/// mismatch.
#[verifier::external_body]
fn ct_eq_bytes(a: &[u8], b: &[u8]) -> (r: bool)
    ensures
        r <==> a@ == b@,
{
    a.ct_eq(b).unwrap_u8() == 1
}

/// HMAC-SHA512 one-shot function. Returns a MAC.
pub fn hmac_sha512(key: &[u8], message: &[u8]) -> (mac: Vec<u8>)
    ensures
        mac@ == hmac_of(key@, message@),
        mac@.len() == HLEN,
{
    let mut hash_ires = sha512_new();
    let mut buffer = fresh_pad_buffer();
    pad_key_to_ipad(key, &mut buffer);
    sha512_update(&mut hash_ires, buffer.as_slice());
    sha512_update(&mut hash_ires, message);

    reverse_pad(&mut buffer);

    let mut hash_ores = sha512_new();
    sha512_update(&mut hash_ores, buffer.as_slice());
    let inner_digest = sha512_finalize(hash_ires);
    proof {
        assert(Seq::<u8>::empty() + ipad_of(key@) + message@ =~= ipad_of(key@) + message@);
    }
    sha512_update(&mut hash_ores, inner_digest.as_slice());
    proof {
        assert(Seq::<u8>::empty() + opad_of(key@) + sha512_of(ipad_of(key@) + message@)
            =~= opad_of(key@) + sha512_of(ipad_of(key@) + message@));
    }
    let mac = sha512_finalize(hash_ores);

    wipe_bytes(&mut buffer);

    mac
}

/// Verify a HMAC-SHA512 MAC in constant time.
pub fn verify(expected_hmac: &[u8], key: &[u8], message: &[u8]) -> (r: bool)
    ensures
        r == verify_ok(expected_hmac@, key@, message@),
{
    let mac = hmac_sha512(key, message);

    ct_eq_bytes(mac.as_slice(), expected_hmac)
}

} // verus!
