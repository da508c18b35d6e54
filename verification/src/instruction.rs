//! The inbound instruction payload: a tagged union with one variant today,
//! wrapping a verification request, and its bounds-checked decoder.

use vstd::prelude::*;
use vstd::bytes::{
    lemma_auto_spec_u32_to_from_le_bytes, spec_u32_from_le_bytes, spec_u32_to_le_bytes,
    u32_from_le_bytes,
};
use vstd::slice::{slice_index_get, slice_subrange, slice_to_vec};
use vstd::utf8::{decode_utf8, decode_utf8_encode_utf8, encode_utf8, valid_utf8};

use crate::error::VerificationError;
use crate::state::{encodable, field_fits, framed, message_of, TrackData, TrackDataView};

verus! {

/// Byte width of a raw signature.
pub const SIGNATURE_LEN: usize = 64;

/// Tag byte that selects the one instruction variant.
pub const EXAMPLE_INSTRUCTION_TAG: u8 = 0;

/// Byte length of the payload's fixed front: the tag, the signature and the
/// recovery id.
pub const PAYLOAD_HEADER_LEN: usize = 2 + SIGNATURE_LEN;

/// The decoded verification request: the raw signature bytes, the recovery
/// id that disambiguates the recovered key, and the track metadata.
#[derive(Clone, Debug)]
pub struct InstructionArgs {
    /// Raw signature bytes (64 bytes), opaque to this module.
    pub signature: Vec<u8>,
    /// Which public key the signature recovers to.
    pub recovery_id: u8,
    /// The attested content descriptor.
    pub track_data: TrackData,
}

/// The mathematical content of a verification request.
pub struct InstructionArgsView {
    pub signature: Seq<u8>,
    pub recovery_id: u8,
    pub track_data: TrackDataView,
}

impl View for InstructionArgs {
    type V = InstructionArgsView;

    open spec fn view(&self) -> InstructionArgsView {
        InstructionArgsView {
            signature: self.signature@,
            recovery_id: self.recovery_id,
            track_data: self.track_data@,
        }
    }
}

/// The instruction set this module accepts; one variant today.
#[derive(Clone, Debug)]
pub enum TemplateInstruction {
    /// Verify a signature over the track metadata's message bytes.
    ExampleInstruction(InstructionArgs),
}

/// The length of the text field framed at `off`: the four prefix bytes read
/// as a little-endian number.
pub open spec fn text_len_at(input: Seq<u8>, off: int) -> int
    recommends
        0 <= off,
        off + 4 <= input.len(),
{
    spec_u32_from_le_bytes(input.subrange(off, off + 4)) as int
}

/// Where the text field framed at `off` ends.
pub open spec fn text_end(input: Seq<u8>, off: int) -> int
    recommends
        0 <= off,
        off + 4 <= input.len(),
{
    off + 4 + text_len_at(input, off)
}

/// The content bytes of the text field framed at `off`.
pub open spec fn text_bytes_at(input: Seq<u8>, off: int) -> Seq<u8>
    recommends
        0 <= off,
        off + 4 <= input.len(),
        text_end(input, off) <= input.len(),
{
    input.subrange(off + 4, text_end(input, off))
}

/// Whether a well-formed text field sits at `off`: four length bytes, that
/// many content bytes inside the input, and the content valid UTF-8.
pub open spec fn text_at_ok(input: Seq<u8>, off: int) -> bool
    recommends
        0 <= off,
{
    &&& off + 4 <= input.len()
    &&& text_end(input, off) <= input.len()
    &&& valid_utf8(text_bytes_at(input, off))
}

/// Whether a payload decodes: the tag selects the known variant, the fixed
/// front fits, three well-formed text fields follow, and nothing trails.
pub open spec fn payload_well_formed(input: Seq<u8>) -> bool {
    let off1 = PAYLOAD_HEADER_LEN as int;
    &&& input.len() >= PAYLOAD_HEADER_LEN
    &&& input[0] == EXAMPLE_INSTRUCTION_TAG
    &&& text_at_ok(input, off1)
    &&& text_at_ok(input, text_end(input, off1))
    &&& text_at_ok(input, text_end(input, text_end(input, off1)))
    &&& text_end(input, text_end(input, text_end(input, off1))) == input.len()
}

/// The request a well-formed payload decodes to.
pub open spec fn parsed_args(input: Seq<u8>) -> InstructionArgsView
    recommends
        payload_well_formed(input),
{
    let off1 = PAYLOAD_HEADER_LEN as int;
    let off2 = text_end(input, off1);
    let off3 = text_end(input, off2);
    InstructionArgsView {
        signature: input.subrange(1, 1 + SIGNATURE_LEN as int),
        recovery_id: input[1 + SIGNATURE_LEN as int],
        track_data: TrackDataView {
            user_id: decode_utf8(text_bytes_at(input, off1)),
            track_id: decode_utf8(text_bytes_at(input, off2)),
            source: decode_utf8(text_bytes_at(input, off3)),
        },
    }
}

/// A well-formed text field re-frames to its own payload bytes: decoding
/// the field's characters and re-encoding them, length prefix included,
/// reproduces the field as it stands in the payload.
proof fn lemma_framed_text(input: Seq<u8>, off: int)
    requires
        0 <= off,
        text_at_ok(input, off),
    ensures
        field_fits(decode_utf8(text_bytes_at(input, off))),
        framed(encode_utf8(decode_utf8(text_bytes_at(input, off)))) == input.subrange(
            off,
            text_end(input, off),
        ),
{
    lemma_auto_spec_u32_to_from_le_bytes();
    let seg = text_bytes_at(input, off);
    decode_utf8_encode_utf8(seg);
    let prefix = input.subrange(off, off + 4);
    assert(prefix.len() == 4);
    assert(spec_u32_to_le_bytes(seg.len() as u32) == prefix);
    assert(framed(encode_utf8(decode_utf8(seg))) =~= input.subrange(off, text_end(input, off)));
}

/// Law: for a well-formed payload, the verification message built from the
/// decoded request is exactly the payload's track-metadata segment: the
/// external service observes the same bytes the request carried.
pub proof fn lemma_message_matches_payload(input: Seq<u8>)
    requires
        payload_well_formed(input),
    ensures
        encodable(parsed_args(input).track_data),
        message_of(parsed_args(input).track_data) == input.subrange(
            PAYLOAD_HEADER_LEN as int,
            input.len() as int,
        ),
{
    let off1 = PAYLOAD_HEADER_LEN as int;
    let off2 = text_end(input, off1);
    let off3 = text_end(input, off2);
    lemma_framed_text(input, off1);
    lemma_framed_text(input, off2);
    lemma_framed_text(input, off3);
    assert(message_of(parsed_args(input).track_data) =~= input.subrange(
        off1,
        input.len() as int,
    ));
}

/// Relies on `String::from_utf8`: it returns the string exactly when the
/// bytes are valid UTF-8, and the string's characters are the decoding of
/// those bytes.
#[verifier::external_body]
fn vec_to_string(bytes: Vec<u8>) -> (r: Option<String>)
    ensures
        match r {
            Some(text) => valid_utf8(bytes@) && text@ == decode_utf8(bytes@),
            None => !valid_utf8(bytes@),
        },
{
    String::from_utf8(bytes).ok()
}

/// Read the length-prefixed text field at `off`, returning the text and the
/// offset just past it.
fn read_text(input: &[u8], off: usize) -> (r: Result<(String, usize), VerificationError>)
    requires
        off <= input@.len(),
    ensures
        match r {
            Ok(parsed) => {
                &&& text_at_ok(input@, off as int)
                &&& parsed.0@ == decode_utf8(text_bytes_at(input@, off as int))
                &&& parsed.1 == text_end(input@, off as int)
            },
            Err(e) => {
                &&& e == VerificationError::InstructionUnpackError
                &&& !text_at_ok(input@, off as int)
            },
        },
{
    let n: usize = input.len();
    if n - off < 4 {
        return Err(VerificationError::InstructionUnpackError);
    }
    let prefix = u32_from_le_bytes(slice_subrange(input, off, off + 4));
    let len: usize = prefix as usize;
    if len > n - (off + 4) {
        return Err(VerificationError::InstructionUnpackError);
    }
    let content = slice_to_vec(slice_subrange(input, off + 4, off + 4 + len));
    match vec_to_string(content) {
        Some(text) => Ok((text, off + 4 + len)),
        None => Err(VerificationError::InstructionUnpackError),
    }
}

impl TemplateInstruction {
    /// Decode an instruction payload. The whole input must be consumed:
    /// a wrong tag, a truncated field or trailing bytes fail the decode.
    pub fn unpack(input: &[u8]) -> (r: Result<TemplateInstruction, VerificationError>)
        ensures
            match r {
                Ok(TemplateInstruction::ExampleInstruction(args)) => {
                    &&& payload_well_formed(input@)
                    &&& args@ == parsed_args(input@)
                },
                Err(e) => {
                    &&& e == VerificationError::InstructionUnpackError
                    &&& !payload_well_formed(input@)
                },
            },
    {
        let n: usize = input.len();
        if n < PAYLOAD_HEADER_LEN {
            return Err(VerificationError::InstructionUnpackError);
        }
        let tag = *slice_index_get(input, 0);
        if tag != EXAMPLE_INSTRUCTION_TAG {
            return Err(VerificationError::InstructionUnpackError);
        }
        let signature = slice_to_vec(slice_subrange(input, 1, 1 + SIGNATURE_LEN));
        let recovery_id = *slice_index_get(input, 1 + SIGNATURE_LEN);
        let first = match read_text(input, PAYLOAD_HEADER_LEN) {
            Ok(parsed) => parsed,
            Err(e) => {
                return Err(e);
            },
        };
        let user_id = first.0;
        let off2: usize = first.1;
        let second = match read_text(input, off2) {
            Ok(parsed) => parsed,
            Err(e) => {
                return Err(e);
            },
        };
        let track_id = second.0;
        let off3: usize = second.1;
        let third = match read_text(input, off3) {
            Ok(parsed) => parsed,
            Err(e) => {
                return Err(e);
            },
        };
        let source = third.0;
        let end: usize = third.1;
        if end != n {
            return Err(VerificationError::InstructionUnpackError);
        }
        Ok(
            TemplateInstruction::ExampleInstruction(
                InstructionArgs {
                    signature,
                    recovery_id,
                    track_data: TrackData { user_id, track_id, source },
                },
            ),
        )
    }
}

} // verus!
