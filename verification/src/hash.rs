//! Bindings to the SHA-512 hash collaborator (the `orion` crate).
//!
//! The hash itself is not verified here: its digest is given the
//! uninterpreted name `sha512_of`, and a running hash context is described
//! by the bytes it has absorbed so far (`sha512_absorbed`) together with a
//! liveness flag (`sha512_live`). Everything the rest of the library proves
//! about tags is stated over those names.

use vstd::prelude::*;

use orion::hazardous::hash::sha2::sha512;

verus! {

#[verifier::external_type_specification]
#[verifier::external_body]
pub struct ExSha512(sha512::Sha512);

/// The SHA-512 digest of `data`: 64 bytes determined by `data` alone.
pub uninterp spec fn sha512_of(data: Seq<u8>) -> Seq<u8>;

/// The bytes a running hash context has absorbed since it was created.
pub uninterp spec fn sha512_absorbed(h: sha512::Sha512) -> Seq<u8>;

/// Whether a running hash context can still absorb data and produce a
/// digest. Contexts handed out by `sha512_new` are live; `orion` refuses
/// `update` and `finalize` on a context whose digest was already taken,
/// and `sha512_finalize` consumes its context, so no such context survives
/// in this crate.
pub uninterp spec fn sha512_live(h: sha512::Sha512) -> bool;

/// Relies on `orion`'s `Sha512::new`: a fresh context that has absorbed
/// nothing.
#[verifier::external_body]
pub(crate) fn sha512_new() -> (h: sha512::Sha512)
    ensures
        sha512_live(h),
        sha512_absorbed(h) == Seq::<u8>::empty(),
{
    sha512::Sha512::new()
}

/// Relies on `orion`'s `Sha512::update`: appends `data` to the absorbed
/// input. It returns `Ok` on every context that is not finalized, which
/// `sha512_live` guarantees, so the `unwrap` cannot panic. (Its only other
/// abort is the overflow of a 128-bit bit-length counter, which no input
/// that fits in memory can reach.)
#[verifier::external_body]
pub(crate) fn sha512_update(h: &mut sha512::Sha512, data: &[u8])
    requires
        sha512_live(*old(h)),
    ensures
        sha512_live(*final(h)),
        sha512_absorbed(*final(h)) == sha512_absorbed(*old(h)) + data@,
{
    h.update(data).unwrap()
}

/// Relies on `orion`'s `Sha512::finalize`: the 64-byte SHA-512 digest of
/// everything the context absorbed. It returns `Ok` on every context that
/// is not finalized, which `sha512_live` guarantees, so the `unwrap`
/// cannot panic. The context is consumed.
#[verifier::external_body]
pub(crate) fn sha512_finalize(h: sha512::Sha512) -> (digest: Vec<u8>)
    requires
        sha512_live(h),
    ensures
        digest@ == sha512_of(sha512_absorbed(h)),
        digest@.len() == 64,
{
    let mut ctx = h;
    ctx.finalize().unwrap().as_ref().to_vec()
}

} // verus!
