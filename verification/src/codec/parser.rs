//! Reading and writing frames: the header in the clear, the payload through
//! the cipher.

use vstd::prelude::*;
use vstd::slice::slice_subrange;
use vstd::slice::slice_to_vec;
use crate::codec::errors::EncodeError;
use crate::codec::errors::FrameError;
use crate::codec::frame::frame_type_of;
use crate::codec::frame::DataFrame;
use crate::codec::frame::FrameType;
use crate::codec::frame::HDR_LEN;
use crate::codec::frame::MAGIC;
use crate::codec::frame::MAX_PAYLOAD_LEN;
use crate::codec::frame::VERSION;
use crate::crypto::Block;

verus! {

/// A frame as the codec sees it: its type and its payload in the clear. For
/// a data frame the payload is the IP packet; for every other frame it is
/// the JSON text of the frame's fields.
#[derive(Debug, Clone)]
pub struct RawFrame {
    pub frame_type: FrameType,
    pub payload: Vec<u8>,
}

impl RawFrame {
    /// The raw form of a data frame: its payload is the packet.
    pub fn from_data(data: DataFrame) -> (r: RawFrame)
        ensures
            r.frame_type == FrameType::Data,
            r.payload@ == data.payload@,
    {
        RawFrame { frame_type: FrameType::Data, payload: data.payload }
    }

    /// The data frame that this raw frame is, if it is one.
    pub fn into_data(self) -> (r: Option<DataFrame>)
        ensures
            match r {
                Some(data) => self.frame_type == FrameType::Data && data.payload@
                    == self.payload@,
                None => self.frame_type != FrameType::Data,
            },
    {
        match self.frame_type {
            FrameType::Data => Some(DataFrame { payload: self.payload }),
            _ => None,
        }
    }
}

/// What reading a buffer comes to.
pub ghost enum Decoded {
    /// A whole frame, and the number of bytes it took from the buffer.
    Frame { frame_type: FrameType, payload: Seq<u8>, consumed: nat },
    /// The buffer ends before the frame does.
    TooShort,
    /// The header is not one of this protocol.
    Invalid,
    /// The cipher rejected the payload.
    DecryptionFailed,
}

/// The magic number that the first four bytes of `buf` state.
pub open spec fn magic_of(buf: Seq<u8>) -> int {
    buf[0] as int * 16777216 + buf[1] as int * 65536 + buf[2] as int * 256 + buf[3] as int
}

/// The payload length that bytes 6 and 7 of `buf` state.
pub open spec fn payload_len_of(buf: Seq<u8>) -> nat {
    (buf[6] as int * 256 + buf[7] as int) as nat
}

/// Whether the first eight bytes of `buf` are a header of this protocol:
/// the magic number, the version and a known frame type.
pub open spec fn header_valid(buf: Seq<u8>) -> bool {
    &&& buf.len() >= HDR_LEN
    &&& magic_of(buf) == MAGIC
    &&& buf[4] == VERSION
    &&& frame_type_of(buf[5]) is Some
}

/// The encrypted payload that follows the header in `buf`.
pub open spec fn sealed_payload(buf: Seq<u8>) -> Seq<u8> {
    buf.subrange(HDR_LEN as int, HDR_LEN + payload_len_of(buf))
}

/// What reading `buf` with the cipher `block` comes to.
pub open spec fn decoded<B: Block>(buf: Seq<u8>, block: &B) -> Decoded {
    if buf.len() < HDR_LEN {
        Decoded::TooShort
    } else if !header_valid(buf) {
        Decoded::Invalid
    } else if buf.len() < HDR_LEN + payload_len_of(buf) {
        Decoded::TooShort
    } else {
        match block.opened(sealed_payload(buf)) {
            Some(payload) => Decoded::Frame {
                frame_type: frame_type_of(buf[5])->0,
                payload,
                consumed: HDR_LEN as nat + payload_len_of(buf),
            },
            None => Decoded::DecryptionFailed,
        }
    }
}

/// The outcome that a result of [`Parser::unmarshal`] stands for.
pub open spec fn outcome(r: Result<(RawFrame, usize), FrameError>) -> Decoded {
    match r {
        Ok((frame, consumed)) => Decoded::Frame {
            frame_type: frame.frame_type,
            payload: frame.payload@,
            consumed: consumed as nat,
        },
        Err(FrameError::TooShort) => Decoded::TooShort,
        Err(FrameError::Invalid) => Decoded::Invalid,
        Err(FrameError::DecryptionFailed(_)) => Decoded::DecryptionFailed,
    }
}

/// The header of a frame of type `frame_type` with `len` bytes of payload.
pub open spec fn header(frame_type: FrameType, len: nat) -> Seq<u8> {
    seq![
        0x91u8,
        0x92u8,
        0x93u8,
        0x94u8,
        VERSION,
        frame_type.spec_code(),
        (len / 256) as u8,
        (len % 256) as u8,
    ]
}

/// Whether `bytes` is a frame that carries `payload` under `block`: a
/// header for the type and the length, then a sealed payload of at most
/// 65535 bytes that the cipher opens to `payload`.
pub open spec fn encodes<B: Block>(
    bytes: Seq<u8>,
    frame_type: FrameType,
    payload: Seq<u8>,
    block: &B,
) -> bool {
    &&& bytes.len() >= HDR_LEN
    &&& bytes.len() - HDR_LEN <= MAX_PAYLOAD_LEN
    &&& bytes.subrange(0, HDR_LEN as int) == header(frame_type, (bytes.len() - HDR_LEN) as nat)
    &&& block.opened(bytes.subrange(HDR_LEN as int, bytes.len() as int)) == Some(payload)
}

/// Reading what was written gives the frame back, and takes every byte:
/// for each cipher, frame type and payload, a buffer that [`Parser::marshal`]
/// may return decodes to that type and payload, with the whole buffer
/// consumed.
pub proof fn lemma_round_trip<B: Block>(
    bytes: Seq<u8>,
    frame_type: FrameType,
    payload: Seq<u8>,
    block: &B,
)
    requires
        encodes(bytes, frame_type, payload, block),
    ensures
        decoded(bytes, block) == (Decoded::Frame { frame_type, payload, consumed: bytes.len() }),
{
    let n = (bytes.len() - HDR_LEN) as nat;
    let h = header(frame_type, n);
    assert(bytes.subrange(0, HDR_LEN as int) == h);
    assert forall|i: int| 0 <= i < 8 implies bytes[i] == h[i] by {
        assert(bytes.subrange(0, HDR_LEN as int)[i] == bytes[i]);
    }
    assert(magic_of(bytes) == MAGIC);
    assert(frame_type_of(frame_type.spec_code()) == Some(frame_type));
    assert(payload_len_of(bytes) == n);
    assert(sealed_payload(bytes) == bytes.subrange(HDR_LEN as int, bytes.len() as int));
}

/// A buffer that holds a valid header and all the payload that the header
/// announces is never read in part: it gives a frame that takes the header
/// and the whole payload, or the cipher rejects it.
pub proof fn lemma_whole_frame_or_error<B: Block>(buf: Seq<u8>, block: &B)
    requires
        header_valid(buf),
        payload_len_of(buf) <= buf.len() - HDR_LEN,
    ensures
        decoded(buf, block) is DecryptionFailed || (decoded(buf, block) matches Decoded::Frame {
            consumed,
            ..
        } && consumed == HDR_LEN + payload_len_of(buf)),
{
}

/// Reading does not look behind the frame: whatever is decided of a buffer
/// that is not too short stays decided when more bytes follow it. So a
/// stream can be read as it arrives, and a frame is the same frame whatever
/// comes after it.
pub proof fn lemma_decoding_ignores_what_follows<B: Block>(
    buf: Seq<u8>,
    more: Seq<u8>,
    block: &B,
)
    requires
        !(decoded(buf, block) is TooShort),
    ensures
        decoded(buf + more, block) == decoded(buf, block),
{
    let longer = buf + more;
    assert forall|i: int| 0 <= i < buf.len() implies longer[i] == buf[i] by {
    }
    assert(magic_of(longer) == magic_of(buf));
    assert(payload_len_of(longer) == payload_len_of(buf));
    if header_valid(buf) {
        assert(sealed_payload(longer) =~= sealed_payload(buf));
    }
}

/// The frame codec.
pub struct Parser;

impl Parser {
    /// Whether a header with these fields opens a frame of this protocol
    /// that `buf` holds in full.
    pub fn validate(magic: u32, version: u8, payload_size: u16, buf: &[u8]) -> (r: bool)
        ensures
            r == (magic == MAGIC && version == VERSION && payload_size as int + HDR_LEN
                <= buf@.len()),
    {
        if magic != MAGIC {
            return false;
        }
        if version != VERSION {
            return false;
        }
        payload_size as usize <= buf.len() && HDR_LEN <= buf.len() - payload_size as usize
    }

    /// Reads one frame from the front of `buf`.
    ///
    /// Fewer than 8 bytes are `TooShort`. A wrong magic number or version,
    /// or an unknown type, is `Invalid`. A header that announces more
    /// payload than `buf` holds is `TooShort`. Then the payload goes through
    /// the cipher, whose refusal is `DecryptionFailed`. Else the frame comes
    /// back with the number of bytes it took: the header and the payload.
    pub fn unmarshal<B: Block>(buf: &[u8], block: &B) -> (r: Result<(RawFrame, usize), FrameError>)
        ensures
            outcome(r) == decoded(buf@, block),
    {
        if buf.len() < HDR_LEN {
            return Err(FrameError::TooShort);
        }
        let magic: u32 = (buf[0] as u32) * 16777216 + (buf[1] as u32) * 65536 + (buf[2] as u32)
            * 256 + (buf[3] as u32);
        let version = buf[4];
        let cmd = buf[5];
        let payload_size: u16 = (buf[6] as u16) * 256 + (buf[7] as u16);
        if magic != MAGIC || version != VERSION {
            return Err(FrameError::Invalid);
        }
        let frame_type = match FrameType::try_from(cmd) {
            Ok(t) => t,
            Err(e) => {
                return Err(FrameError::Invalid);
            },
        };
        if !Parser::validate(magic, version, payload_size, buf) {
            return Err(FrameError::TooShort);
        }
        let total_len: usize = HDR_LEN + payload_size as usize;
        let mut payload = slice_to_vec(slice_subrange(buf, HDR_LEN, total_len));
        assert(payload@ == sealed_payload(buf@));
        match block.decrypt(&mut payload) {
            Ok(()) => Ok((RawFrame { frame_type, payload }, total_len)),
            Err(e) => Err(FrameError::DecryptionFailed(e)),
        }
    }

    /// Writes a frame: the payload goes through the cipher, and the header
    /// states the type and the length of what came out.
    ///
    /// Fails when the cipher does not encrypt the payload, and when the
    /// encrypted payload is longer than 65535 bytes; nothing is written
    /// then. A cipher that draws no random numbers encrypts every payload
    /// that it accepts.
    pub fn marshal<B: Block>(frame: RawFrame, block: &B) -> (r: Result<Vec<u8>, EncodeError>)
        ensures
            match r {
                Ok(bytes) => {
                    &&& block.accepts(frame.payload@)
                    &&& bytes@.len() == HDR_LEN + block.sealed_len(frame.payload@.len())
                    &&& encodes(bytes@, frame.frame_type, frame.payload@, block)
                },
                Err(EncodeError::EncryptionFailed(_)) => !block.accepts(frame.payload@)
                    || !block.deterministic(),
                Err(EncodeError::PayloadTooLarge) => {
                    &&& block.accepts(frame.payload@)
                    &&& block.sealed_len(frame.payload@.len()) > MAX_PAYLOAD_LEN
                },
            },
            block.deterministic() && block.accepts(frame.payload@) && block.sealed_len(
                frame.payload@.len(),
            ) <= MAX_PAYLOAD_LEN ==> r is Ok,
    {
        let frame_type = frame.frame_type;
        let mut payload = frame.payload;
        match block.encrypt(&mut payload) {
            Ok(()) => {},
            Err(e) => {
                return Err(EncodeError::EncryptionFailed(e));
            },
        }
        if payload.len() > MAX_PAYLOAD_LEN {
            return Err(EncodeError::PayloadTooLarge);
        }
        let len: usize = payload.len();
        let mut buf: Vec<u8> = Vec::with_capacity(HDR_LEN);
        buf.push(0x91);
        buf.push(0x92);
        buf.push(0x93);
        buf.push(0x94);
        buf.push(VERSION);
        buf.push(frame_type.code());
        buf.push((len / 256) as u8);
        buf.push((len % 256) as u8);
        assert(buf@ =~= header(frame_type, len as nat));
        buf.extend_from_slice(payload.as_slice());
        proof {
            assert(buf@.subrange(0, HDR_LEN as int) =~= header(frame_type, len as nat));
            assert(buf@.subrange(HDR_LEN as int, buf@.len() as int) =~= payload@);
        }
        Ok(buf)
    }
}

} // verus!
