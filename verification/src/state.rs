//! State record types: the fixed-layout verifier record and the track
//! metadata carried inside a request, with their byte encodings.

use vstd::prelude::*;
use vstd::bytes::{
    lemma_auto_spec_u32_to_from_le_bytes, lemma_auto_spec_u64_to_from_le_bytes,
    spec_u32_to_le_bytes, spec_u64_from_le_bytes, spec_u64_to_le_bytes, u32_to_le_bytes,
    u64_from_le_bytes, u64_to_le_bytes,
};
use vstd::slice::{slice_subrange, slice_to_vec};
use vstd::string::StrSliceExecFns;
use vstd::utf8::{decode_utf8, encode_utf8, encode_utf8_decode_utf8};

use crate::error::VerificationError;

verus! {

/// Byte width of the record's owner key.
pub const OWNER_LEN: usize = 32;

/// Byte width of the record's liveness counter.
pub const NONCE_LEN: usize = 8;

/// Fixed encoded length of a verifier record: the owner key followed
/// immediately by the liveness counter, with no framing.
pub const RECORD_LEN: usize = OWNER_LEN + NONCE_LEN;

/// The verifier state record: the public key permitted to authorize
/// verification requests, and a liveness counter whose nonzero value marks
/// the record as initialized.
#[derive(Clone, Debug)]
pub struct VerifierInfo {
    /// Public key of the account authorized to back this record (32 bytes).
    pub owner: Vec<u8>,
    /// Liveness counter; zero means the record is uninitialized.
    pub nonce: u64,
}

/// The mathematical content of a verifier record.
pub struct VerifierInfoView {
    pub owner: Seq<u8>,
    pub nonce: u64,
}

impl View for VerifierInfo {
    type V = VerifierInfoView;

    open spec fn view(&self) -> VerifierInfoView {
        VerifierInfoView { owner: self.owner@, nonce: self.nonce }
    }
}

/// The record read off the first `RECORD_LEN` bytes of a buffer: the owner
/// key, then the counter in little-endian order.
pub open spec fn record_of_bytes(bytes: Seq<u8>) -> VerifierInfoView
    recommends
        bytes.len() >= RECORD_LEN,
{
    VerifierInfoView {
        owner: bytes.subrange(0, OWNER_LEN as int),
        nonce: spec_u64_from_le_bytes(bytes.subrange(OWNER_LEN as int, RECORD_LEN as int)),
    }
}

/// The fixed `RECORD_LEN`-byte layout of a record.
pub open spec fn bytes_of_record(record: VerifierInfoView) -> Seq<u8>
    recommends
        record.owner.len() == OWNER_LEN,
{
    record.owner + spec_u64_to_le_bytes(record.nonce)
}

impl VerifierInfo {
    /// Length of a record when serialized.
    pub const LEN: usize = OWNER_LEN + NONCE_LEN;

    /// The record's layout invariant: the owner key has its fixed width.
    pub open spec fn wf(&self) -> bool {
        self.owner@.len() == OWNER_LEN
    }

    /// Decode a byte buffer into a record. Any buffer shorter than the
    /// fixed layout is rejected; otherwise the first `RECORD_LEN` bytes are
    /// read as the record, whatever they hold.
    pub fn deserialize(input: &[u8]) -> (r: Result<VerifierInfo, VerificationError>)
        ensures
            match r {
                Ok(record) => {
                    &&& input@.len() >= RECORD_LEN
                    &&& record@ == record_of_bytes(input@)
                    &&& record.wf()
                },
                Err(e) => {
                    &&& e == VerificationError::MalformedRecord
                    &&& input@.len() < RECORD_LEN
                },
            },
    {
        if input.len() < RECORD_LEN {
            return Err(VerificationError::MalformedRecord);
        }
        let owner = slice_to_vec(slice_subrange(input, 0, OWNER_LEN));
        let nonce = u64_from_le_bytes(slice_subrange(input, OWNER_LEN, RECORD_LEN));
        Ok(VerifierInfo { owner, nonce })
    }

    /// Encode the record into the first `RECORD_LEN` bytes of `output`,
    /// leaving the rest of the buffer unchanged. A buffer shorter than the
    /// fixed layout is rejected and left untouched.
    pub fn serialize(&self, output: &mut Vec<u8>) -> (r: Result<(), VerificationError>)
        requires
            self.wf(),
        ensures
            match r {
                Ok(()) => {
                    &&& old(output)@.len() >= RECORD_LEN
                    &&& final(output)@.len() == old(output)@.len()
                    &&& final(output)@.subrange(0, RECORD_LEN as int) == bytes_of_record(self@)
                    &&& final(output)@.skip(RECORD_LEN as int) == old(output)@.skip(
                        RECORD_LEN as int,
                    )
                },
                Err(e) => {
                    &&& e == VerificationError::MalformedRecord
                    &&& old(output)@.len() < RECORD_LEN
                    &&& final(output)@ == old(output)@
                },
            },
    {
        if output.len() < RECORD_LEN {
            return Err(VerificationError::MalformedRecord);
        }
        let mut encoded = self.owner.clone();
        let mut tail = u64_to_le_bytes(self.nonce);
        encoded.append(&mut tail);
        assert(encoded@ == bytes_of_record(self@));
        let mut i: usize = 0;
        while i < RECORD_LEN
            invariant
                i <= RECORD_LEN,
                encoded@ == bytes_of_record(self@),
                encoded@.len() == RECORD_LEN,
                output@.len() == old(output)@.len(),
                old(output)@.len() >= RECORD_LEN,
                forall|j: int| 0 <= j < i ==> output@[j] == encoded@[j],
                forall|j: int| i <= j < output@.len() ==> output@[j] == old(output)@[j],
            decreases RECORD_LEN - i,
        {
            output[i] = encoded[i];
            i = i + 1;
        }
        assert(output@.subrange(0, RECORD_LEN as int) =~= bytes_of_record(self@));
        assert(output@.skip(RECORD_LEN as int) =~= old(output)@.skip(RECORD_LEN as int));
        Ok(())
    }

    /// Whether the record is initialized: exactly when the liveness counter
    /// is nonzero. No other field is consulted.
    pub fn is_initialized(&self) -> (r: bool)
        ensures
            r == (self.nonce != 0),
    {
        self.nonce != 0
    }
}

/// Law: decoding a buffer of at least `RECORD_LEN` bytes and re-encoding the
/// decoded record reproduces the buffer's first `RECORD_LEN` bytes.
pub proof fn lemma_record_round_trip(bytes: Seq<u8>)
    requires
        bytes.len() >= RECORD_LEN,
    ensures
        bytes_of_record(record_of_bytes(bytes)) == bytes.subrange(0, RECORD_LEN as int),
{
    lemma_auto_spec_u64_to_from_le_bytes();
    let tail = bytes.subrange(OWNER_LEN as int, RECORD_LEN as int);
    assert(spec_u64_to_le_bytes(spec_u64_from_le_bytes(tail)) == tail);
    assert(bytes_of_record(record_of_bytes(bytes)) =~= bytes.subrange(0, RECORD_LEN as int));
}

/// Law: encoding a well-formed record and decoding the bytes gives the
/// record back.
pub proof fn lemma_record_encode_decode(record: VerifierInfoView)
    requires
        record.owner.len() == OWNER_LEN,
    ensures
        bytes_of_record(record).len() == RECORD_LEN,
        record_of_bytes(bytes_of_record(record)) == record,
{
    lemma_auto_spec_u64_to_from_le_bytes();
    let bytes = bytes_of_record(record);
    assert(bytes.subrange(0, OWNER_LEN as int) =~= record.owner);
    assert(bytes.subrange(OWNER_LEN as int, RECORD_LEN as int) =~= spec_u64_to_le_bytes(
        record.nonce,
    ));
}

/// The attested content descriptor carried inside a request. The fields are
/// opaque payload; they are only serialized into the verification message.
#[derive(Clone, Debug)]
pub struct TrackData {
    /// user ID
    pub user_id: String,
    /// track ID
    pub track_id: String,
    /// track source
    pub source: String,
}

/// The mathematical content of a track descriptor: its three texts.
pub struct TrackDataView {
    pub user_id: Seq<char>,
    pub track_id: Seq<char>,
    pub source: Seq<char>,
}

impl View for TrackData {
    type V = TrackDataView;

    open spec fn view(&self) -> TrackDataView {
        TrackDataView { user_id: self.user_id@, track_id: self.track_id@, source: self.source@ }
    }
}

/// One length-prefixed field of the verification message: the byte length
/// as four little-endian bytes, then the field's UTF-8 bytes.
pub open spec fn framed(bytes: Seq<u8>) -> Seq<u8>
    recommends
        bytes.len() <= u32::MAX,
{
    spec_u32_to_le_bytes(bytes.len() as u32) + bytes
}

/// Whether a text fits the encoding scheme: its UTF-8 byte length must fit
/// the four-byte length prefix.
pub open spec fn field_fits(text: Seq<char>) -> bool {
    encode_utf8(text).len() <= u32::MAX
}

/// Whether a track descriptor can be encoded into a message.
pub open spec fn encodable(track: TrackDataView) -> bool {
    &&& field_fits(track.user_id)
    &&& field_fits(track.track_id)
    &&& field_fits(track.source)
}

/// The deterministic verification message for a track descriptor: the three
/// fields in order, each length-prefixed.
pub open spec fn message_of(track: TrackDataView) -> Seq<u8>
    recommends
        encodable(track),
{
    framed(encode_utf8(track.user_id)) + framed(encode_utf8(track.track_id)) + framed(
        encode_utf8(track.source),
    )
}

impl TrackData {
    /// Encode this descriptor into the verification message bytes. The only
    /// failure is a field whose UTF-8 length overflows the length prefix.
    pub fn encode(&self) -> (r: Result<Vec<u8>, VerificationError>)
        ensures
            match r {
                Ok(message) => {
                    &&& encodable(self@)
                    &&& message@ == message_of(self@)
                },
                Err(e) => {
                    &&& e == VerificationError::InvalidTrackData
                    &&& !encodable(self@)
                },
            },
    {
        let user_bytes = self.user_id.as_str().as_bytes_vec();
        let track_bytes = self.track_id.as_str().as_bytes_vec();
        let source_bytes = self.source.as_str().as_bytes_vec();
        if user_bytes.len() > u32::MAX as usize || track_bytes.len() > u32::MAX as usize
            || source_bytes.len() > u32::MAX as usize {
            return Err(VerificationError::InvalidTrackData);
        }
        let mut message: Vec<u8> = Vec::new();
        let prefix = u32_to_le_bytes(user_bytes.len() as u32);
        message.extend_from_slice(prefix.as_slice());
        message.extend_from_slice(user_bytes.as_slice());
        let prefix = u32_to_le_bytes(track_bytes.len() as u32);
        message.extend_from_slice(prefix.as_slice());
        message.extend_from_slice(track_bytes.as_slice());
        let prefix = u32_to_le_bytes(source_bytes.len() as u32);
        message.extend_from_slice(prefix.as_slice());
        message.extend_from_slice(source_bytes.as_slice());
        assert(message@ =~= message_of(self@));
        Ok(message)
    }
}

/// Law: the verification message is a function of the track texts alone:
/// descriptors with equal fields encode to equal bytes.
pub proof fn lemma_message_deterministic(track1: TrackDataView, track2: TrackDataView)
    requires
        track1.user_id == track2.user_id,
        track1.track_id == track2.track_id,
        track1.source == track2.source,
    ensures
        message_of(track1) == message_of(track2),
{
}

/// A framed field determines its contents: if two framed fields with
/// in-range lengths open two equal byte strings, the fields agree and so do
/// the remainders.
proof fn lemma_framed_prefix(field1: Seq<u8>, rest1: Seq<u8>, field2: Seq<u8>, rest2: Seq<u8>)
    requires
        field1.len() <= u32::MAX,
        field2.len() <= u32::MAX,
        framed(field1) + rest1 == framed(field2) + rest2,
    ensures
        field1 == field2,
        rest1 == rest2,
{
    lemma_auto_spec_u32_to_from_le_bytes();
    let whole = framed(field1) + rest1;
    assert(spec_u32_to_le_bytes(field1.len() as u32) =~= whole.subrange(0, 4));
    assert(spec_u32_to_le_bytes(field2.len() as u32) =~= whole.subrange(0, 4));
    assert(field1.len() as u32 == field2.len() as u32);
    let n = field1.len() as int;
    assert(field1 =~= whole.subrange(4, 4 + n));
    assert(field2 =~= whole.subrange(4, 4 + n));
    assert(rest1 =~= whole.subrange(4 + n, whole.len() as int));
    assert(rest2 =~= whole.subrange(4 + n, whole.len() as int));
}

/// Law: the verification message determines the track metadata: two
/// encodable descriptors that differ in some field encode to different
/// message bytes.
pub proof fn lemma_message_injective(track1: TrackDataView, track2: TrackDataView)
    requires
        encodable(track1),
        encodable(track2),
        track1 != track2,
    ensures
        message_of(track1) != message_of(track2),
{
    if message_of(track1) == message_of(track2) {
        let user1 = encode_utf8(track1.user_id);
        let track_id1 = encode_utf8(track1.track_id);
        let source1 = encode_utf8(track1.source);
        let user2 = encode_utf8(track2.user_id);
        let track_id2 = encode_utf8(track2.track_id);
        let source2 = encode_utf8(track2.source);
        assert(framed(user1) + (framed(track_id1) + framed(source1)) =~= message_of(track1));
        assert(framed(user2) + (framed(track_id2) + framed(source2)) =~= message_of(track2));
        lemma_framed_prefix(user1, framed(track_id1) + framed(source1), user2, framed(track_id2)
            + framed(source2));
        lemma_framed_prefix(track_id1, framed(source1), track_id2, framed(source2));
        lemma_framed_prefix(source1, Seq::<u8>::empty(), source2, Seq::<u8>::empty());
        encode_utf8_decode_utf8(track1.user_id);
        encode_utf8_decode_utf8(track2.user_id);
        encode_utf8_decode_utf8(track1.track_id);
        encode_utf8_decode_utf8(track2.track_id);
        encode_utf8_decode_utf8(track1.source);
        encode_utf8_decode_utf8(track2.source);
        assert(track1.user_id == track2.user_id);
        assert(track1.track_id == track2.track_id);
        assert(track1.source == track2.source);
        assert(false);
    }
}

} // verus!
