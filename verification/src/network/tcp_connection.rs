//! The receiving side of a framed TCP stream: bytes come in as the socket
//! delivers them, frames go out one by one.

use vstd::prelude::*;
use bytes::Buf;
use crate::codec::errors::FrameError;
use crate::codec::parser::decoded;
use crate::codec::parser::Decoded;
use crate::codec::parser::Parser;
use crate::codec::parser::RawFrame;
use crate::crypto::Block;

verus! {

/// Seconds that a read may wait for bytes.
pub const DEFAULT_READ_TIMEOUT_SECS: u64 = 20;

/// Seconds that a write may take.
pub const DEFAULT_WRITE_TIMEOUT_SECS: u64 = 10;

/// Seconds that a connection attempt may take.
pub const DEFAULT_CONNECT_TIMEOUT_SECS: u64 = 10;

/// The capacity that an input buffer starts with.
pub const INPUT_CAPACITY: usize = 4096;

/// `bytes::BytesMut`, a growable buffer of bytes whose front can be cut
/// off. Nothing inside it is visible here; what it holds is `buffered`.
#[verifier::external_type_specification]
#[verifier::external_body]
pub struct ExBytesMut(bytes::BytesMut);

/// The bytes that a `BytesMut` holds, first to last.
pub uninterp spec fn buffered(buf: bytes::BytesMut) -> Seq<u8>;

/// Calls `BytesMut::with_capacity`, which gives a buffer of length 0.
#[verifier::external_body]
fn bytes_with_capacity(capacity: usize) -> (buf: bytes::BytesMut)
    ensures
        buffered(buf) == Seq::<u8>::empty(),
{
    bytes::BytesMut::with_capacity(capacity)
}

/// Calls `BytesMut::len`, the number of bytes held.
#[verifier::external_body]
fn bytes_len(buf: &bytes::BytesMut) -> (n: usize)
    ensures
        n == buffered(*buf).len(),
{
    buf.len()
}

/// Calls `as_ref` of `BytesMut`, which lends the bytes held.
#[verifier::external_body]
fn bytes_as_slice(buf: &bytes::BytesMut) -> (s: &[u8])
    ensures
        s@ == buffered(*buf),
{
    buf.as_ref()
}

/// Calls `BytesMut::extend_from_slice`, which appends `chunk` to the bytes
/// held.
#[verifier::external_body]
fn bytes_extend(buf: &mut bytes::BytesMut, chunk: &[u8])
    ensures
        buffered(*final(buf)) == buffered(*old(buf)) + chunk@,
{
    buf.extend_from_slice(chunk)
}

/// Calls `advance` of `BytesMut`, which drops the first `cnt` bytes. It
/// panics when fewer are held, so `requires` leaves that out.
#[verifier::external_body]
fn bytes_advance(buf: &mut bytes::BytesMut, cnt: usize)
    requires
        cnt <= buffered(*old(buf)).len(),
    ensures
        buffered(*final(buf)) == buffered(*old(buf)).subrange(
            cnt as int,
            buffered(*old(buf)).len() as int,
        ),
{
    buf.advance(cnt)
}

/// How a connection ended or failed.
#[derive(Clone, Copy, Debug, PartialEq, Eq, Structural)]
pub enum TransportError {
    /// The peer closed the stream between two frames.
    Eof,
    /// The peer closed the stream in the middle of a frame.
    ConnectionReset,
    /// A read, a write or a connection attempt took too long.
    Timeout,
    /// The stream holds bytes that are no frame; its frame boundaries are
    /// lost.
    Frame(FrameError),
}

/// The bytes received on a stream and not yet read as frames.
pub struct FrameBuffer {
    input: bytes::BytesMut,
}

impl View for FrameBuffer {
    type V = Seq<u8>;

    closed spec fn view(&self) -> Seq<u8> {
        buffered(self.input)
    }
}

impl FrameBuffer {
    /// An empty buffer.
    pub fn new() -> (r: Self)
        ensures
            r@ == Seq::<u8>::empty(),
    {
        FrameBuffer { input: bytes_with_capacity(INPUT_CAPACITY) }
    }

    /// The number of bytes waiting.
    pub fn len(&self) -> (n: usize)
        ensures
            n == self@.len(),
    {
        bytes_len(&self.input)
    }

    /// Whether no bytes are waiting.
    pub fn is_empty(&self) -> (r: bool)
        ensures
            r == (self@.len() == 0),
    {
        bytes_len(&self.input) == 0
    }

    /// Appends what a read delivered.
    pub fn feed(&mut self, chunk: &[u8])
        ensures
            final(self)@ == old(self)@ + chunk@,
    {
        bytes_extend(&mut self.input, chunk);
    }

    /// Takes the next frame off the front of the buffer.
    ///
    /// A whole frame is taken out, and the bytes behind it stay. A frame
    /// that is not complete yet gives `Ok(None)`: read more and try again.
    /// Bytes that are no frame, and a payload that the cipher rejects, are
    /// errors that end the connection. In both cases the buffer is left as
    /// it was.
    pub fn parse_frame<B: Block>(&mut self, block: &B) -> (r: Result<Option<RawFrame>, FrameError>)
        ensures
            match decoded(old(self)@, block) {
                Decoded::Frame { frame_type, payload, consumed } => {
                    &&& r matches Ok(Some(frame))
                    &&& frame.frame_type == frame_type
                    &&& frame.payload@ == payload
                    &&& consumed <= old(self)@.len()
                    &&& final(self)@ == old(self)@.subrange(
                        consumed as int,
                        old(self)@.len() as int,
                    )
                },
                Decoded::TooShort => r matches Ok(None) && final(self)@ == old(self)@,
                Decoded::Invalid => r == Err::<Option<RawFrame>, FrameError>(FrameError::Invalid)
                    && final(self)@ == old(self)@,
                Decoded::DecryptionFailed => r matches Err(FrameError::DecryptionFailed(_))
                    && final(self)@ == old(self)@,
            },
    {
        match Parser::unmarshal(bytes_as_slice(&self.input), block) {
            Ok((frame, total_len)) => {
                bytes_advance(&mut self.input, total_len);
                Ok(Some(frame))
            },
            Err(FrameError::TooShort) => Ok(None),
            Err(e) => Err(e),
        }
    }

    /// What the end of the stream means: a clean end when no bytes are
    /// waiting, a reset when the stream stopped inside a frame.
    pub fn end_of_stream(&self) -> (r: TransportError)
        ensures
            r == (if self@.len() == 0 {
                TransportError::Eof
            } else {
                TransportError::ConnectionReset
            }),
    {
        if self.is_empty() {
            TransportError::Eof
        } else {
            TransportError::ConnectionReset
        }
    }
}

} // verus!
