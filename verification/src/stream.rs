//! The streaming MAC handle and its state machine.
//!
//! A handle is either open or finalized. While open, its buffer holds the
//! inner pad and its hash context has absorbed the inner pad followed by
//! the message fed so far. `finalize` flips the buffer to the outer pad
//! and marks the handle finalized; `reset` flips it back (when needed) and
//! restores exactly the state `init` produced, so one key-pad derivation
//! serves many messages.

use vstd::prelude::*;

use crate::erase::wipe_bytes;
use crate::errors::MacError;
use crate::hash::{
    sha512_absorbed, sha512_finalize, sha512_live, sha512_new, sha512_of, sha512_update,
};
use crate::mac::hmac_of;
use crate::pad::{ipad_of, opad_of, fresh_pad_buffer, pad_key_to_ipad, reverse_pad};
use crate::HLEN;

use orion::hazardous::hash::sha2::sha512;

verus! {

/// Struct for using HMAC with streaming messages.
pub struct HmacSha512 {
    buffer: Vec<u8>,
    hasher: sha512::Sha512,
    is_finalized: bool,
    key_g: Ghost<Seq<u8>>,
    msg_g: Ghost<Seq<u8>>,
}

impl Drop for HmacSha512 {
    /// The pad buffer is zeroed when the handle goes out of scope, on
    /// every exit path.
    fn drop(&mut self)
        opens_invariants none
        no_unwind
    {
        wipe_bytes(&mut self.buffer)
    }
}

impl HmacSha512 {
    /// The key this handle was initialized with.
    pub closed spec fn key(self) -> Seq<u8> {
        self.key_g@
    }

    /// The message fed into this handle since it was initialized or last
    /// reset.
    pub closed spec fn msg(self) -> Seq<u8> {
        self.msg_g@
    }

    /// Whether the handle is in the finalized state, in which `update`
    /// and `finalize` are refused until `reset` is called.
    pub closed spec fn finalized(self) -> bool {
        self.is_finalized
    }

    /// The handle's invariant: while open, the buffer holds the inner pad
    /// and the hash context has absorbed the inner pad followed by the
    /// message so far; once finalized, the buffer holds the outer pad.
    pub closed spec fn wf(self) -> bool {
        if self.is_finalized {
            self.buffer@ == opad_of(self.key_g@)
        } else {
            &&& self.buffer@ == ipad_of(self.key_g@)
            &&& sha512_live(self.hasher)
            &&& sha512_absorbed(self.hasher) == ipad_of(self.key_g@) + self.msg_g@
        }
    }

    /// The state `init(key)` produces: open, well formed, no message fed
    /// yet.
    pub open spec fn fresh_for(self, key: Seq<u8>) -> bool {
        &&& self.wf()
        &&& self.key() == key
        &&& self.msg() == Seq::<u8>::empty()
        &&& !self.finalized()
    }

    /// Call the core finalization steps: capture the running inner hash,
    /// flip the buffer to the outer pad, and seed `hash_ores` with the
    /// outer pad followed by the inner digest.
    fn core_finalize(&mut self, hash_ores: &mut sha512::Sha512) -> (res: Result<(), MacError>)
        requires
            old(self).wf(),
            sha512_live(*old(hash_ores)),
            sha512_absorbed(*old(hash_ores)) == Seq::<u8>::empty(),
        ensures
            final(self).key() == old(self).key(),
            old(self).finalized() ==> res == Err::<(), MacError>(MacError::ProtocolMisuse)
                && *final(self) == *old(self) && *final(hash_ores) == *old(hash_ores),
            !old(self).finalized() ==> {
                &&& res == Ok::<(), MacError>(())
                &&& final(self).wf()
                &&& final(self).finalized()
                &&& final(self).msg() == old(self).msg()
                &&& sha512_live(*final(hash_ores))
                &&& sha512_absorbed(*final(hash_ores)) == opad_of(old(self).key())
                    + sha512_of(ipad_of(old(self).key()) + old(self).msg())
            },
    {
        if self.is_finalized {
            return Err(MacError::ProtocolMisuse);
        }

        self.is_finalized = true;

        let mut hash_ires = sha512_new();
        core::mem::swap(&mut self.hasher, &mut hash_ires);

        reverse_pad(&mut self.buffer);

        sha512_update(hash_ores, self.buffer.as_slice());
        let inner_digest = sha512_finalize(hash_ires);
        sha512_update(hash_ores, inner_digest.as_slice());
        proof {
            assert(Seq::<u8>::empty() + opad_of(self.key_g@)
                + sha512_of(ipad_of(self.key_g@) + self.msg_g@)
                =~= opad_of(self.key_g@) + sha512_of(ipad_of(self.key_g@) + self.msg_g@));
        }

        Ok(())
    }

    /// Reset to the `init()` state, so that the same key can authenticate
    /// another, independent message. Legal in any state.
    pub fn reset(&mut self)
        requires
            old(self).wf(),
        ensures
            final(self).fresh_for(old(self).key()),
    {
        if self.is_finalized {
            reverse_pad(&mut self.buffer);
            proof {
                crate::pad::lemma_flip_pad_involutive(ipad_of(self.key_g@));
            }
        }
        self.hasher = sha512_new();
        sha512_update(&mut self.hasher, self.buffer.as_slice());
        self.is_finalized = false;
        self.msg_g = Ghost(Seq::<u8>::empty());
        proof {
            assert(Seq::<u8>::empty() + ipad_of(self.key_g@)
                =~= ipad_of(self.key_g@) + Seq::<u8>::empty());
        }
    }

    /// Feed a chunk of the message. This can be called multiple times for
    /// streaming messages; a finalized handle refuses it, since a
    /// finalized tag must never be silently extended.
    pub fn update(&mut self, message: &[u8]) -> (res: Result<(), MacError>)
        requires
            old(self).wf(),
        ensures
            final(self).key() == old(self).key(),
            old(self).finalized() ==> res == Err::<(), MacError>(MacError::ProtocolMisuse)
                && *final(self) == *old(self),
            !old(self).finalized() ==> {
                &&& res == Ok::<(), MacError>(())
                &&& final(self).wf()
                &&& !final(self).finalized()
                &&& final(self).msg() == old(self).msg() + message@
            },
    {
        if self.is_finalized {
            return Err(MacError::ProtocolMisuse);
        }
        sha512_update(&mut self.hasher, message);
        self.msg_g = Ghost(self.msg_g@ + message@);
        proof {
            assert(ipad_of(self.key_g@) + old(self).msg_g@ + message@
                =~= ipad_of(self.key_g@) + (old(self).msg_g@ + message@));
        }
        Ok(())
    }

    /// Retrieve the 64-byte MAC of everything fed so far, and move the
    /// handle to the finalized state. A second `finalize` without an
    /// intervening `reset` is refused.
    pub fn finalize(&mut self) -> (res: Result<Vec<u8>, MacError>)
        requires
            old(self).wf(),
        ensures
            final(self).key() == old(self).key(),
            old(self).finalized() ==> res == Err::<Vec<u8>, MacError>(MacError::ProtocolMisuse)
                && *final(self) == *old(self),
            !old(self).finalized() ==> {
                &&& final(self).wf()
                &&& final(self).finalized()
                &&& final(self).msg() == old(self).msg()
                &&& res matches Ok(mac) && mac@ == hmac_of(old(self).key(), old(self).msg())
                    && mac@.len() == HLEN
            },
    {
        let mut hash_ores = sha512_new();
        match self.core_finalize(&mut hash_ores) {
            Ok(()) => Ok(sha512_finalize(hash_ores)),
            Err(e) => Err(e),
        }
    }

    /// Retrieve the leading `dst.len()` bytes of the MAC and copy them
    /// into `dst`: the full 64-byte tag when `dst` is tag-sized, a
    /// truncated tag when it is shorter. A longer destination is refused,
    /// as is a finalized handle.
    pub fn finalize_with_dst(&mut self, dst: &mut Vec<u8>) -> (res: Result<(), MacError>)
        requires
            old(self).wf(),
        ensures
            final(self).key() == old(self).key(),
            old(self).finalized() ==> res == Err::<(), MacError>(MacError::ProtocolMisuse)
                && *final(self) == *old(self) && *final(dst) == *old(dst),
            !old(self).finalized() && old(dst)@.len() > HLEN ==> res == Err::<(), MacError>(
                MacError::Length,
            ) && *final(self) == *old(self) && *final(dst) == *old(dst),
            !old(self).finalized() && old(dst)@.len() <= HLEN ==> {
                &&& res == Ok::<(), MacError>(())
                &&& final(self).wf()
                &&& final(self).finalized()
                &&& final(self).msg() == old(self).msg()
                &&& final(dst)@ == hmac_of(old(self).key(), old(self).msg()).take(
                    old(dst)@.len() as int,
                )
            },
    {
        if !self.is_finalized && dst.len() > HLEN {
            return Err(MacError::Length);
        }
        let mut hash_ores = sha512_new();
        match self.core_finalize(&mut hash_ores) {
            Ok(()) => {
                let mac = sha512_finalize(hash_ores);
                let dst_len = dst.len();
                let mut i: usize = 0;
                while i < dst_len
                    invariant
                        i <= dst_len,
                        dst_len <= HLEN,
                        dst@.len() == dst_len,
                        mac@.len() == HLEN,
                        forall|j: int| 0 <= j < i ==> dst@[j] == mac@[j],
                    decreases dst_len - i,
                {
                    dst[i] = mac[i];
                    i += 1;
                }
                proof {
                    assert(dst@ =~= mac@.take(dst_len as int));
                }
                Ok(())
            },
            Err(e) => Err(e),
        }
    }

    /// Whether the handle is currently finalized.
    pub fn is_finalized(&self) -> (r: bool)
        ensures
            r == self.finalized(),
    {
        self.is_finalized
    }

    /// A copy of the pad buffer's current form: the inner pad while the
    /// handle is open, the outer pad once it is finalized.
    pub fn pad(&self) -> (pad: Vec<u8>)
        requires
            self.wf(),
        ensures
            pad@ == if self.finalized() {
                opad_of(self.key())
            } else {
                ipad_of(self.key())
            },
    {
        let mut pad: Vec<u8> = Vec::new();
        let n = self.buffer.len();
        let mut i: usize = 0;
        while i < n
            invariant
                i <= n,
                n == self.buffer@.len(),
                pad@ == self.buffer@.take(i as int),
            decreases n - i,
        {
            pad.push(self.buffer[i]);
            proof {
                assert(pad@ =~= self.buffer@.take(i as int + 1));
            }
            i += 1;
        }
        proof {
            assert(pad@ =~= self.buffer@);
        }
        pad
    }
}

/// Initialize an `HmacSha512` struct with a given key, for use with
/// streaming messages.
pub fn init(secret_key: &[u8]) -> (mac: HmacSha512)
    ensures
        mac.fresh_for(secret_key@),
{
    let mut buffer = fresh_pad_buffer();
    pad_key_to_ipad(secret_key, &mut buffer);
    let mut hasher = sha512_new();
    sha512_update(&mut hasher, buffer.as_slice());
    proof {
        assert(Seq::<u8>::empty() + ipad_of(secret_key@)
            =~= ipad_of(secret_key@) + Seq::<u8>::empty());
    }
    HmacSha512 {
        buffer,
        hasher,
        is_finalized: false,
        key_g: Ghost(secret_key@),
        msg_g: Ghost(Seq::<u8>::empty()),
    }
}

} // verus!
