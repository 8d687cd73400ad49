use vstd::prelude::*;

verus! {

/// Errors a streaming MAC handle can report.
///
/// A verification mismatch is never an error: `verify` reports it as a plain
/// `false`, so no control flow branches on secret-derived bytes.
#[derive(Clone, Copy, Debug, PartialEq, Eq, Structural)]
pub enum MacError {
    /// `update` or `finalize` was called on an already finalized handle
    /// without an intervening `reset`.
    ProtocolMisuse,
    /// The destination passed to `finalize_with_dst` is longer than the
    /// 64-byte tag.
    Length,
}

} // verus!
