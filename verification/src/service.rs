//! The external verification service, abstracted as a synchronous,
//! single-call capability, together with a scripted in-memory service for
//! exercising the processor without a live environment.

use vstd::prelude::*;
use vstd::slice::slice_to_vec;

verus! {

/// The request bundle forwarded to the external verification service.
#[derive(Debug)]
pub struct SignatureData {
    /// Raw signature bytes, forwarded untouched.
    pub signature: Vec<u8>,
    /// Which public key the signature recovers to.
    pub recovery_id: u8,
    /// The deterministic verification message the signature is checked over.
    pub message: Vec<u8>,
}

/// One forwarded call as the service observes it: the keys of the three
/// handles passed through, and the request bundle's content.
pub struct CallView {
    pub signer: Seq<u8>,
    pub signer_group: Seq<u8>,
    pub sysvar: Seq<u8>,
    pub signature: Seq<u8>,
    pub recovery_id: u8,
    pub message: Seq<u8>,
}

/// The call observed when the given handles and bundle are forwarded.
pub open spec fn call_view(
    signer: Seq<u8>,
    signer_group: Seq<u8>,
    sysvar: Seq<u8>,
    data: SignatureData,
) -> CallView {
    CallView {
        signer,
        signer_group,
        sysvar,
        signature: data.signature@,
        recovery_id: data.recovery_id,
        message: data.message@,
    }
}

/// The external verification service as the processor sees it: one
/// synchronous call that either succeeds or fails with an error code.
///
/// `calls` is the history of requests the service has observed, and
/// `decision` is how it judges a request; `verify` appends exactly one call
/// to the history and returns the service's own judgement of it. What a
/// service decides is its own affair: the processor relies only on this
/// bookkeeping.
pub trait VerificationService {
    /// The history of forwarded calls this service has observed.
    spec fn calls(&self) -> Seq<CallView>;

    /// How this service judges a forwarded call.
    spec fn decision(&self, call: CallView) -> Result<(), u64>;

    /// Forward one verification request and return the service's outcome.
    fn verify(
        &mut self,
        signer_key: &Vec<u8>,
        signer_group_key: &Vec<u8>,
        sysvar_key: &Vec<u8>,
        data: &SignatureData,
    ) -> (r: Result<(), u64>)
        ensures
            final(self).calls() == old(self).calls().push(
                call_view(signer_key@, signer_group_key@, sysvar_key@, *data),
            ),
            r == old(self).decision(
                call_view(signer_key@, signer_group_key@, sysvar_key@, *data),
            ),
    ;
}

/// One recorded forwarding call of the scripted service.
#[derive(Debug)]
pub struct RecordedCall {
    pub signer: Vec<u8>,
    pub signer_group: Vec<u8>,
    pub sysvar: Vec<u8>,
    pub data: SignatureData,
}

impl View for RecordedCall {
    type V = CallView;

    open spec fn view(&self) -> CallView {
        call_view(self.signer@, self.signer_group@, self.sysvar@, self.data)
    }
}

/// The calls a log of records stands for.
pub open spec fn call_views_of(log: Seq<RecordedCall>) -> Seq<CallView> {
    log.map_values(|record: RecordedCall| record@)
}

/// A scripted service: it records every forwarded call and answers each one
/// with a fixed outcome set up in advance.
#[derive(Debug)]
pub struct ScriptedService {
    /// The outcome this service returns for every call.
    pub outcome: Result<(), u64>,
    /// Every call observed so far, oldest first.
    pub log: Vec<RecordedCall>,
}

impl ScriptedService {
    /// A service that accepts every forwarded call.
    pub fn accepting() -> (r: ScriptedService)
        ensures
            r.calls() == Seq::<CallView>::empty(),
            forall|call: CallView| r.decision(call) == Ok::<(), u64>(()),
    {
        let r = ScriptedService { outcome: Ok(()), log: Vec::new() };
        proof {
            assert(r.calls() =~= Seq::<CallView>::empty());
        }
        r
    }

    /// A service that rejects every forwarded call with the given code.
    pub fn rejecting(code: u64) -> (r: ScriptedService)
        ensures
            r.calls() == Seq::<CallView>::empty(),
            forall|call: CallView| r.decision(call) == Err::<(), u64>(code),
    {
        let r = ScriptedService { outcome: Err(code), log: Vec::new() };
        proof {
            assert(r.calls() =~= Seq::<CallView>::empty());
        }
        r
    }
}

impl VerificationService for ScriptedService {
    open spec fn calls(&self) -> Seq<CallView> {
        call_views_of(self.log@)
    }

    open spec fn decision(&self, call: CallView) -> Result<(), u64> {
        self.outcome
    }

    fn verify(
        &mut self,
        signer_key: &Vec<u8>,
        signer_group_key: &Vec<u8>,
        sysvar_key: &Vec<u8>,
        data: &SignatureData,
    ) -> (r: Result<(), u64>) {
        let record = RecordedCall {
            signer: slice_to_vec(signer_key.as_slice()),
            signer_group: slice_to_vec(signer_group_key.as_slice()),
            sysvar: slice_to_vec(sysvar_key.as_slice()),
            data: SignatureData {
                signature: slice_to_vec(data.signature.as_slice()),
                recovery_id: data.recovery_id,
                message: slice_to_vec(data.message.as_slice()),
            },
        };
        proof {
            assert(record@ == call_view(signer_key@, signer_group_key@, sysvar_key@, *data));
        }
        self.log.push(record);
        proof {
            assert(call_views_of(self.log@) =~= call_views_of(old(self).log@).push(
                call_view(signer_key@, signer_group_key@, sysvar_key@, *data),
            ));
        }
        self.outcome
    }
}

} // verus!
