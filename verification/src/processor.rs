//! The verification processor: ordered participant validation, the
//! initialization gate, message construction, and the single forwarding
//! call to the external verification service.

use vstd::prelude::*;

use crate::error::VerificationError;
use crate::instruction::{
    parsed_args, payload_well_formed, InstructionArgs, InstructionArgsView, TemplateInstruction,
};
use crate::service::{call_view, CallView, SignatureData, VerificationService};
use crate::state::{encodable, message_of, record_of_bytes, VerifierInfo, RECORD_LEN};

verus! {

/// The number of participant records a request must supply, in order:
/// the asserted signer, the signer group, the verifier record, the external
/// service, and the ambient sysvar context.
pub const PARTICIPANT_COUNT: usize = 5;

/// Position of the asserted signer's handle.
pub const SIGNER_INDEX: usize = 0;

/// Position of the signer group's handle.
pub const SIGNER_GROUP_INDEX: usize = 1;

/// Position of the handle whose stored bytes must decode to the verifier
/// record.
pub const VERIFIER_INDEX: usize = 2;

/// Position of the external verification service's handle.
pub const SERVICE_INDEX: usize = 3;

/// Position of the ambient sysvar context handle.
pub const SYSVAR_INDEX: usize = 4;

/// A participant record supplied positionally with a request: its key and
/// its stored bytes. The processor reads only the verifier participant's
/// bytes; every other participant is forwarded untouched.
#[derive(Debug)]
pub struct AccountHandle {
    /// The participant's public key (32 bytes on the ledger).
    pub key: Vec<u8>,
    /// The participant's stored bytes.
    pub data: Vec<u8>,
}

/// Program state handler.
pub struct Processor {}

/// How the external outcome becomes the transition's outcome: success is
/// passed through unchanged; a failure is tagged and carries the service's
/// error code.
pub open spec fn outcome_result(outcome: Result<(), u64>) -> Result<(), VerificationError> {
    match outcome {
        Ok(()) => Ok(()),
        Err(code) => Err(VerificationError::ExternalVerificationFailed(code)),
    }
}

impl Processor {
    /// The validation outcome decided by the participants and the request
    /// alone: `None` when the request may be forwarded, otherwise the error
    /// that aborts the transition. The conditions are evaluated in order:
    /// participant count, record layout, initialization, message encoding.
    pub open spec fn gate_error(
        accounts: Seq<AccountHandle>,
        args: InstructionArgsView,
    ) -> Option<VerificationError> {
        if accounts.len() < PARTICIPANT_COUNT {
            Some(VerificationError::MissingParticipant)
        } else if accounts[VERIFIER_INDEX as int].data@.len() < RECORD_LEN {
            Some(VerificationError::MalformedRecord)
        } else if record_of_bytes(accounts[VERIFIER_INDEX as int].data@).nonce == 0 {
            Some(VerificationError::UninitializedVerifier)
        } else if !encodable(args.track_data) {
            Some(VerificationError::InvalidTrackData)
        } else {
            None
        }
    }

    /// The one call forwarded to the external service once validation
    /// succeeds: the signer, signer group and sysvar keys, and the request
    /// bundle whose message is the track metadata's deterministic encoding.
    pub open spec fn forwarded_call(
        accounts: Seq<AccountHandle>,
        args: InstructionArgsView,
    ) -> CallView
        recommends
            accounts.len() >= PARTICIPANT_COUNT,
    {
        CallView {
            signer: accounts[SIGNER_INDEX as int].key@,
            signer_group: accounts[SIGNER_GROUP_INDEX as int].key@,
            sysvar: accounts[SYSVAR_INDEX as int].key@,
            signature: args.signature,
            recovery_id: args.recovery_id,
            message: message_of(args.track_data),
        }
    }

    /// What one transition promises, given the service's call history
    /// before and after and the request's content: if validation stops the
    /// request, that error comes back and the service was never invoked; otherwise
    /// exactly one call — the forwarded call — was made, and the service's
    /// own judgement of it comes back unchanged.
    pub open spec fn transition_ensures<S: VerificationService>(
        pre: S,
        post: S,
        accounts: Seq<AccountHandle>,
        args: InstructionArgsView,
        r: Result<(), VerificationError>,
    ) -> bool {
        match Self::gate_error(accounts, args) {
            Some(e) => r == Err::<(), VerificationError>(e) && post.calls() == pre.calls(),
            None => {
                let call = Self::forwarded_call(accounts, args);
                &&& post.calls() == pre.calls().push(call)
                &&& r == outcome_result(pre.decision(call))
            },
        }
    }

    /// Process one verification request against the ordered participant
    /// list: extract the five participants, decode and gate the verifier
    /// record, build the verification message, and forward exactly one call
    /// to the external service, propagating its outcome unchanged. Any
    /// failure aborts the transition before the external call is made.
    pub fn verify_signature_track_data<S: VerificationService>(
        service: &mut S,
        _program_id: &Vec<u8>,
        accounts: &Vec<AccountHandle>,
        instruction_data: InstructionArgs,
    ) -> (r: Result<(), VerificationError>)
        ensures
            Self::transition_ensures(
                *old(service),
                *final(service),
                accounts@,
                instruction_data@,
                r,
            ),
    {
        if accounts.len() < PARTICIPANT_COUNT {
            return Err(VerificationError::MissingParticipant);
        }
        // initialized valid signer account
        let valid_signer_info = &accounts[SIGNER_INDEX];
        // signer group account
        let signer_group_info = &accounts[SIGNER_GROUP_INDEX];
        // verifier account
        let verifier_account_info = &accounts[VERIFIER_INDEX];
        // external verification service account; checked for presence,
        // forwarded by the service implementation itself
        let _service_account_info = &accounts[SERVICE_INDEX];
        // sysvar instruction context
        let sysvar_instruction = &accounts[SYSVAR_INDEX];

        let verifier_info = match VerifierInfo::deserialize(verifier_account_info.data.as_slice()) {
            Ok(record) => record,
            Err(e) => {
                return Err(e);
            },
        };
        if !verifier_info.is_initialized() {
            return Err(VerificationError::UninitializedVerifier);
        }

        let message = match instruction_data.track_data.encode() {
            Ok(message) => message,
            Err(e) => {
                return Err(e);
            },
        };
        let signature_data = SignatureData {
            signature: instruction_data.signature,
            recovery_id: instruction_data.recovery_id,
            message,
        };
        let outcome = service.verify(
            &valid_signer_info.key,
            &signer_group_info.key,
            &sysvar_instruction.key,
            &signature_data,
        );
        proof {
            assert(call_view(
                valid_signer_info.key@,
                signer_group_info.key@,
                sysvar_instruction.key@,
                signature_data,
            ) == Self::forwarded_call(accounts@, instruction_data@));
        }
        match outcome {
            Ok(()) => Ok(()),
            Err(code) => Err(VerificationError::ExternalVerificationFailed(code)),
        }
    }

    /// Decode an inbound payload and dispatch it: an unrecognized or
    /// malformed payload fails with the unpack error before anything else
    /// happens; the one known instruction is processed as one verification
    /// transition.
    pub fn process_instruction<S: VerificationService>(
        service: &mut S,
        program_id: &Vec<u8>,
        accounts: &Vec<AccountHandle>,
        input: &[u8],
    ) -> (r: Result<(), VerificationError>)
        ensures
            payload_well_formed(input@) ==> Self::transition_ensures(
                *old(service),
                *final(service),
                accounts@,
                parsed_args(input@),
                r,
            ),
            !payload_well_formed(input@) ==> r == Err::<(), VerificationError>(
                VerificationError::InstructionUnpackError,
            ) && final(service).calls() == old(service).calls(),
    {
        let instruction = match TemplateInstruction::unpack(input) {
            Ok(instruction) => instruction,
            Err(e) => {
                return Err(e);
            },
        };
        match instruction {
            TemplateInstruction::ExampleInstruction(signature_data) => {
                Self::verify_signature_track_data(service, program_id, accounts, signature_data)
            },
        }
    }
}

/// Law: a request with fewer than the required participants fails with
/// `MissingParticipant`, and the external service is never invoked.
pub proof fn lemma_participant_count_gate<S: VerificationService>(
    pre: S,
    post: S,
    accounts: Seq<AccountHandle>,
    args: InstructionArgsView,
    r: Result<(), VerificationError>,
)
    requires
        Processor::transition_ensures(pre, post, accounts, args, r),
        accounts.len() < PARTICIPANT_COUNT,
    ensures
        r == Err::<(), VerificationError>(VerificationError::MissingParticipant),
        post.calls() == pre.calls(),
{
}

/// Law: a verifier record that decodes with a zero liveness counter fails
/// the transition with `UninitializedVerifier`, and the external service is
/// never invoked.
pub proof fn lemma_initialization_gate<S: VerificationService>(
    pre: S,
    post: S,
    accounts: Seq<AccountHandle>,
    args: InstructionArgsView,
    r: Result<(), VerificationError>,
)
    requires
        Processor::transition_ensures(pre, post, accounts, args, r),
        accounts.len() >= PARTICIPANT_COUNT,
        accounts[VERIFIER_INDEX as int].data@.len() >= RECORD_LEN,
        record_of_bytes(accounts[VERIFIER_INDEX as int].data@).nonce == 0,
    ensures
        r == Err::<(), VerificationError>(VerificationError::UninitializedVerifier),
        post.calls() == pre.calls(),
{
}

/// Law: when validation admits the request and the service accepts, the transition
/// succeeds and the service observed exactly one more call — the forwarded
/// call, whose message is the track metadata's deterministic encoding.
pub proof fn lemma_success_path<S: VerificationService>(
    pre: S,
    post: S,
    accounts: Seq<AccountHandle>,
    args: InstructionArgsView,
    r: Result<(), VerificationError>,
)
    requires
        Processor::transition_ensures(pre, post, accounts, args, r),
        Processor::gate_error(accounts, args) is None,
        pre.decision(Processor::forwarded_call(accounts, args)) == Ok::<(), u64>(()),
    ensures
        r == Ok::<(), VerificationError>(()),
        post.calls() == pre.calls().push(Processor::forwarded_call(accounts, args)),
        Processor::forwarded_call(accounts, args).message == message_of(args.track_data),
{
}

/// Law: when validation admits the request and the service rejects it, its error code is
/// propagated unchanged, tagged as an external verification failure.
pub proof fn lemma_failure_propagation<S: VerificationService>(
    pre: S,
    post: S,
    accounts: Seq<AccountHandle>,
    args: InstructionArgsView,
    r: Result<(), VerificationError>,
    code: u64,
)
    requires
        Processor::transition_ensures(pre, post, accounts, args, r),
        Processor::gate_error(accounts, args) is None,
        pre.decision(Processor::forwarded_call(accounts, args)) == Err::<(), u64>(code),
    ensures
        r == Err::<(), VerificationError>(VerificationError::ExternalVerificationFailed(code)),
        post.calls() == pre.calls().push(Processor::forwarded_call(accounts, args)),
{
}

} // verus!
