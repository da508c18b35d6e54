//! End-to-end tests of the verification gate: record codec, message
//! encoding, participant and initialization gates, and outcome propagation
//! through a scripted service.

use create_and_verify::error::VerificationError;
use create_and_verify::instruction::{InstructionArgs, TemplateInstruction};
use create_and_verify::processor::{AccountHandle, Processor};
use create_and_verify::service::ScriptedService;
use create_and_verify::state::{TrackData, VerifierInfo};

fn record_bytes(owner_byte: u8, nonce: u64) -> Vec<u8> {
    let mut bytes = vec![owner_byte; 32];
    bytes.extend_from_slice(&nonce.to_le_bytes());
    bytes
}

fn handles(count: usize, verifier_data: Vec<u8>) -> Vec<AccountHandle> {
    let mut list = Vec::new();
    for i in 0..count {
        let data = if i == 2 { verifier_data.clone() } else { Vec::new() };
        list.push(AccountHandle {
            key: vec![i as u8 + 1; 32],
            data,
        });
    }
    list
}

fn sample_track_data() -> TrackData {
    TrackData {
        user_id: String::from("u1"),
        track_id: String::from("t1"),
        source: String::from("src"),
    }
}

fn sample_args() -> InstructionArgs {
    InstructionArgs {
        signature: vec![9u8; 64],
        recovery_id: 3,
        track_data: sample_track_data(),
    }
}

/// The deterministic message for `sample_track_data`, written out by hand:
/// three length-prefixed UTF-8 fields.
fn sample_message() -> Vec<u8> {
    let mut message = Vec::new();
    for field in ["u1", "t1", "src"] {
        message.extend_from_slice(&(field.len() as u32).to_le_bytes());
        message.extend_from_slice(field.as_bytes());
    }
    message
}

fn build_payload(tag: u8, signature: &[u8], recovery_id: u8, fields: &[&[u8]]) -> Vec<u8> {
    let mut payload = vec![tag];
    payload.extend_from_slice(signature);
    payload.push(recovery_id);
    for field in fields {
        payload.extend_from_slice(&(field.len() as u32).to_le_bytes());
        payload.extend_from_slice(field);
    }
    payload
}

#[test]
fn record_decode_rejects_short_buffers() {
    for len in 0..40usize {
        let buffer = vec![7u8; len];
        let decoded = VerifierInfo::deserialize(&buffer);
        assert!(matches!(decoded, Err(VerificationError::MalformedRecord)));
    }
}

#[test]
fn record_decode_reads_fields() {
    assert_eq!(VerifierInfo::LEN, 40);
    let decoded = VerifierInfo::deserialize(&record_bytes(5, 7)).unwrap();
    assert_eq!(decoded.owner, vec![5u8; 32]);
    assert_eq!(decoded.nonce, 7);
}

#[test]
fn record_round_trip_reproduces_bytes() {
    let mut buffer = record_bytes(0xAB, 0x0102030405060708);
    buffer.push(0xFF);
    let decoded = VerifierInfo::deserialize(&buffer).unwrap();

    let mut output = vec![0xEEu8; 45];
    decoded.serialize(&mut output).unwrap();
    assert_eq!(output[..40], buffer[..40]);
    assert_eq!(output[40..], [0xEEu8; 5]);
}

#[test]
fn record_serialize_rejects_short_buffer() {
    let record = VerifierInfo {
        owner: vec![1u8; 32],
        nonce: 1,
    };
    let mut output = vec![0u8; 39];
    let written = record.serialize(&mut output);
    assert!(matches!(written, Err(VerificationError::MalformedRecord)));
    assert_eq!(output, vec![0u8; 39]);
}

#[test]
fn record_initialization_predicate() {
    let uninitialized = VerifierInfo {
        owner: vec![0u8; 32],
        nonce: 0,
    };
    assert!(!uninitialized.is_initialized());
    let initialized = VerifierInfo {
        owner: vec![0u8; 32],
        nonce: 7,
    };
    assert!(initialized.is_initialized());
}

#[test]
fn message_encoding_matches_borsh() {
    let encoded = sample_track_data().encode().unwrap();
    let reference = borsh::to_vec(&(
        String::from("u1"),
        String::from("t1"),
        String::from("src"),
    ))
    .unwrap();
    assert_eq!(encoded, reference);
    assert_eq!(encoded, sample_message());
}

#[test]
fn message_encoding_deterministic() {
    let first = sample_track_data().encode().unwrap();
    let second = sample_track_data().encode().unwrap();
    assert_eq!(first, second);
}

#[test]
fn message_encoding_distinct_for_distinct_fields() {
    let base = sample_track_data().encode().unwrap();
    let changed_source = TrackData {
        user_id: String::from("u1"),
        track_id: String::from("t1"),
        source: String::from("srd"),
    };
    assert_ne!(base, changed_source.encode().unwrap());
    let shifted_fields = TrackData {
        user_id: String::from("u1t"),
        track_id: String::from("1"),
        source: String::from("src"),
    };
    assert_ne!(base, shifted_fields.encode().unwrap());
}

#[test]
fn message_encoding_handles_non_ascii() {
    let track = TrackData {
        user_id: String::from("u\u{00e9}"),
        track_id: String::from(""),
        source: String::from("s"),
    };
    let encoded = track.encode().unwrap();
    let reference = borsh::to_vec(&(
        String::from("u\u{00e9}"),
        String::from(""),
        String::from("s"),
    ))
    .unwrap();
    assert_eq!(encoded, reference);
}

#[test]
fn participant_count_gate() {
    for count in 0..5usize {
        let mut service = ScriptedService::accepting();
        let accounts = handles(count, record_bytes(1, 1));
        let result = Processor::verify_signature_track_data(
            &mut service,
            &vec![0u8; 32],
            &accounts,
            sample_args(),
        );
        assert!(matches!(result, Err(VerificationError::MissingParticipant)));
        assert_eq!(service.log.len(), 0);
    }
}

#[test]
fn five_participants_proceed_to_decode() {
    let mut service = ScriptedService::accepting();
    let accounts = handles(5, vec![0u8; 39]);
    let result = Processor::verify_signature_track_data(
        &mut service,
        &vec![0u8; 32],
        &accounts,
        sample_args(),
    );
    assert!(matches!(result, Err(VerificationError::MalformedRecord)));
    assert_eq!(service.log.len(), 0);
}

#[test]
fn uninitialized_verifier_is_rejected_before_any_call() {
    let mut service = ScriptedService::accepting();
    let accounts = handles(5, record_bytes(9, 0));
    let result = Processor::verify_signature_track_data(
        &mut service,
        &vec![0u8; 32],
        &accounts,
        sample_args(),
    );
    assert!(matches!(
        result,
        Err(VerificationError::UninitializedVerifier)
    ));
    assert_eq!(service.log.len(), 0);
}

#[test]
fn success_path_forwards_exactly_one_call() {
    let mut service = ScriptedService::accepting();
    let accounts = handles(5, record_bytes(9, 7));
    let result = Processor::verify_signature_track_data(
        &mut service,
        &vec![0u8; 32],
        &accounts,
        sample_args(),
    );
    assert_eq!(result, Ok(()));
    assert_eq!(service.log.len(), 1);
    let call = &service.log[0];
    assert_eq!(call.signer, vec![1u8; 32]);
    assert_eq!(call.signer_group, vec![2u8; 32]);
    assert_eq!(call.sysvar, vec![5u8; 32]);
    assert_eq!(call.data.signature, vec![9u8; 64]);
    assert_eq!(call.data.recovery_id, 3);
    assert_eq!(call.data.message, sample_message());
}

#[test]
fn rejection_propagates_the_error_code_unchanged() {
    let mut service = ScriptedService::rejecting(42);
    let accounts = handles(5, record_bytes(9, 7));
    let result = Processor::verify_signature_track_data(
        &mut service,
        &vec![0u8; 32],
        &accounts,
        sample_args(),
    );
    assert_eq!(
        result,
        Err(VerificationError::ExternalVerificationFailed(42))
    );
    assert_eq!(service.log.len(), 1);
}

#[test]
fn scenario_counter_one_accepting_service() {
    let mut service = ScriptedService::accepting();
    let accounts = handles(5, record_bytes(4, 1));
    let result = Processor::verify_signature_track_data(
        &mut service,
        &vec![0u8; 32],
        &accounts,
        sample_args(),
    );
    assert_eq!(result, Ok(()));
    assert_eq!(service.log.len(), 1);
    assert_eq!(service.log[0].data.message, sample_message());
}

#[test]
fn unpack_accepts_a_well_formed_payload() {
    let payload = build_payload(0, &[9u8; 64], 3, &[b"u1", b"t1", b"src"]);
    let TemplateInstruction::ExampleInstruction(args) =
        TemplateInstruction::unpack(&payload).unwrap();
    assert_eq!(args.signature, vec![9u8; 64]);
    assert_eq!(args.recovery_id, 3);
    assert_eq!(args.track_data.user_id, "u1");
    assert_eq!(args.track_data.track_id, "t1");
    assert_eq!(args.track_data.source, "src");
}

#[test]
fn unpack_rejects_unknown_tag() {
    let payload = build_payload(1, &[9u8; 64], 3, &[b"u1", b"t1", b"src"]);
    let unpacked = TemplateInstruction::unpack(&payload);
    assert!(matches!(
        unpacked,
        Err(VerificationError::InstructionUnpackError)
    ));
}

#[test]
fn unpack_rejects_truncated_payloads() {
    let payload = build_payload(0, &[9u8; 64], 3, &[b"u1", b"t1", b"src"]);
    for len in 0..payload.len() {
        let unpacked = TemplateInstruction::unpack(&payload[..len]);
        assert!(matches!(
            unpacked,
            Err(VerificationError::InstructionUnpackError)
        ));
    }
}

#[test]
fn unpack_rejects_trailing_bytes() {
    let mut payload = build_payload(0, &[9u8; 64], 3, &[b"u1", b"t1", b"src"]);
    payload.push(0);
    let unpacked = TemplateInstruction::unpack(&payload);
    assert!(matches!(
        unpacked,
        Err(VerificationError::InstructionUnpackError)
    ));
}

#[test]
fn unpack_rejects_an_overlong_length_prefix() {
    let mut payload = build_payload(0, &[9u8; 64], 3, &[b"u1", b"t1"]);
    payload.extend_from_slice(&100u32.to_le_bytes());
    payload.extend_from_slice(b"src");
    let unpacked = TemplateInstruction::unpack(&payload);
    assert!(matches!(
        unpacked,
        Err(VerificationError::InstructionUnpackError)
    ));
}

#[test]
fn unpack_rejects_invalid_utf8() {
    let payload = build_payload(0, &[9u8; 64], 3, &[b"u1", &[0xFFu8], b"src"]);
    let unpacked = TemplateInstruction::unpack(&payload);
    assert!(matches!(
        unpacked,
        Err(VerificationError::InstructionUnpackError)
    ));
}

#[test]
fn process_instruction_end_to_end() {
    let payload = build_payload(0, &[9u8; 64], 3, &[b"u1", b"t1", b"src"]);
    let mut service = ScriptedService::accepting();
    let accounts = handles(5, record_bytes(9, 7));
    let result =
        Processor::process_instruction(&mut service, &vec![0u8; 32], &accounts, &payload);
    assert_eq!(result, Ok(()));
    assert_eq!(service.log.len(), 1);
    assert_eq!(service.log[0].data.message, sample_message());
    assert_eq!(service.log[0].data.signature, vec![9u8; 64]);
    assert_eq!(service.log[0].data.recovery_id, 3);
}

#[test]
fn process_instruction_rejects_a_bad_payload() {
    let mut service = ScriptedService::accepting();
    let accounts = handles(5, record_bytes(9, 7));
    let result = Processor::process_instruction(&mut service, &vec![0u8; 32], &accounts, &[1, 2]);
    assert!(matches!(
        result,
        Err(VerificationError::InstructionUnpackError)
    ));
    assert_eq!(service.log.len(), 0);
}
