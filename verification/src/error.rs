//! The failure outcomes of a verification transition.

use vstd::prelude::*;

verus! {

/// Every way one verification transition can fail. Each error is terminal:
/// the transition aborts and surfaces exactly one of these to the caller.
#[derive(Clone, Copy, Debug, PartialEq, Eq, Structural)]
pub enum VerificationError {
    /// The inbound payload does not decode to a known instruction.
    InstructionUnpackError,
    /// Fewer participant records were supplied than the protocol requires.
    MissingParticipant,
    /// A stored record is shorter than its fixed layout requires.
    MalformedRecord,
    /// The decoded verifier record has a zero liveness counter.
    UninitializedVerifier,
    /// The track metadata could not be encoded into a verification message.
    InvalidTrackData,
    /// The external verification service failed; carries its error code.
    ExternalVerificationFailed(u64),
}

} // verus!
