//! `BitTorrent` peer-wire protocol adapter for the generic session runtime.
//!
//! TCP may split or combine frames, so decoding consumes only complete messages
//! and leaves incomplete bytes caller-owned. Declared frame bodies are bounded by
//! an inclusive byte limit, but the codec never reserves receive capacity: the
//! session runtime owns buffer allocation and accounting policy.
//!
//! ```text
//! ┌──── 4-byte length ────┬─ 1-byte ID ─┬──── payload ────┐
//! │ 00 00 00 0d           │ 06          │ index/begin/len │
//! └───────────────────────┴─────────────┴─────────────────┘
//! ```
//!
//! This module converts peer-wire values at the protocol boundary. It does not
//! own sockets, connection lifecycle, scheduling, torrent discovery, or storage.

use crate::transport::wire::{buffer_advance, buffer_bytes, buffer_extend, bytes_mut_contents};
use bytes::BytesMut;
use crate::transport::report::ErrorKind;
use vstd::prelude::*;

verus! {

/// Length of the fixed peer handshake in bytes.
pub const HANDSHAKE_LEN: usize = 68;

/// The protocol marker `BitTorrent protocol` that follows the marker length.
pub open spec fn protocol_name() -> Seq<u8> {
    seq![66, 105, 116, 84, 111, 114, 114, 101, 110, 116, 32, 112, 114, 111, 116, 111, 99, 111, 108]
}

/// The protocol marker as bytes.
pub fn protocol_marker() -> (marker: [u8; 19])
    ensures
        marker@ == protocol_name(),
{
    let marker: [u8; 19] = [
        66, 105, 116, 84, 111, 114, 114, 101, 110, 116, 32, 112, 114, 111, 116, 111, 99, 111, 108,
    ];
    assert(marker@ =~= protocol_name());
    marker
}

/// Stable peer-wire framing failures.
#[derive(Debug, Clone, Copy, PartialEq, Eq, Structural)]
pub enum PeerWireError {
    /// The input is not one 68-byte handshake with the protocol marker.
    InvalidHandshake,
    /// A declared frame body exceeds the codec's configured limit.
    FrameExceedsLimit,
    /// A complete frame has an unknown ID or a payload of the wrong size.
    InvalidMessage,
    /// An outbound message is too large for the 32-bit length prefix.
    FrameTooLarge,
}

/// The I/O category each peer-wire failure is reported under: an encoding too
/// large to frame is invalid input, every other failure is invalid data.
pub open spec fn wire_failure_kind(failure: PeerWireError) -> ErrorKind {
    match failure {
        PeerWireError::FrameTooLarge => ErrorKind::InvalidInput,
        _ => ErrorKind::InvalidData,
    }
}

/// The diagnostic text of each peer-wire failure.
pub open spec fn wire_failure_text(failure: PeerWireError) -> Seq<char> {
    match failure {
        PeerWireError::InvalidHandshake => "invalid BitTorrent handshake"@,
        PeerWireError::FrameExceedsLimit => "peer frame exceeds configured limit"@,
        PeerWireError::InvalidMessage => "invalid peer message"@,
        PeerWireError::FrameTooLarge => "frame is too large"@,
    }
}

/// Classifies a peer-wire failure for the session runtime: its I/O category
/// and its diagnostic text.
pub fn classify_wire_failure(failure: PeerWireError) -> (classified: (ErrorKind, &'static str))
    ensures
        classified.0 == wire_failure_kind(failure),
        classified.1@ == wire_failure_text(failure),
{
    match failure {
        PeerWireError::InvalidHandshake => (ErrorKind::InvalidData, "invalid BitTorrent handshake"),
        PeerWireError::FrameExceedsLimit => (
            ErrorKind::InvalidData,
            "peer frame exceeds configured limit",
        ),
        PeerWireError::InvalidMessage => (ErrorKind::InvalidData, "invalid peer message"),
        PeerWireError::FrameTooLarge => (ErrorKind::InvalidInput, "frame is too large"),
    }
}

/// The fixed-size opening exchange of a peer connection.
#[derive(Debug, Clone, PartialEq, Eq)]
pub struct Handshake {
    pub reserved: [u8; 8],
    pub info_hash: [u8; 20],
    pub peer_id: [u8; 20],
}

/// The 68 bytes of a handshake on the wire.
pub open spec fn handshake_wire(handshake: Handshake) -> Seq<u8> {
    seq![19u8] + protocol_name() + handshake.reserved@ + handshake.info_hash@
        + handshake.peer_id@
}

/// Whether `input` is exactly one handshake: 68 bytes, marker length 19, marker.
pub open spec fn is_handshake(input: Seq<u8>) -> bool {
    &&& input.len() == HANDSHAKE_LEN
    &&& input[0] == 19
    &&& input.subrange(1, 20) == protocol_name()
}

/// Copies `N` bytes of `input` starting at `start` into an array.
fn copy_array<const N: usize>(input: &[u8], start: usize) -> (out: [u8; N])
    requires
        start + N <= input@.len(),
    ensures
        out@ == input@.subrange(start as int, start + N),
{
    let mut out = [0u8; N];
    let len = input.len();
    let mut i: usize = 0;
    while i < N
        invariant
            i <= N,
            len == input@.len(),
            start + N <= input@.len(),
            out@.len() == N,
            forall|k: int| 0 <= k < i ==> out@[k] == input@[start + k],
        decreases N - i,
    {
        out[i] = input[start + i];
        i = i + 1;
    }
    assert(out@ =~= input@.subrange(start as int, start + N));
    out
}

impl Handshake {
    /// Encodes the handshake: marker length, marker, then the three fields at
    /// their fixed offsets.
    pub fn encode(&self) -> (out: [u8; 68])
        ensures
            out@ == handshake_wire(*self),
    {
        let mut out = [0u8; 68];
        out[0] = 19;
        let marker = protocol_marker();
        let mut i: usize = 0;
        while i < 19
            invariant
                i <= 19,
                out@.len() == 68,
                marker@ == protocol_name(),
                out@[0] == 19,
                forall|k: int| 0 <= k < i ==> out@[1 + k] == marker@[k],
            decreases 19 - i,
        {
            out[1 + i] = marker[i];
            i = i + 1;
        }
        let mut i: usize = 0;
        while i < 8
            invariant
                i <= 8,
                out@.len() == 68,
                out@[0] == 19,
                forall|k: int| 0 <= k < 19 ==> out@[1 + k] == marker@[k],
                forall|k: int| 0 <= k < i ==> out@[20 + k] == self.reserved@[k],
            decreases 8 - i,
        {
            out[20 + i] = self.reserved[i];
            i = i + 1;
        }
        let mut i: usize = 0;
        while i < 20
            invariant
                i <= 20,
                out@.len() == 68,
                out@[0] == 19,
                forall|k: int| 0 <= k < 19 ==> out@[1 + k] == marker@[k],
                forall|k: int| 0 <= k < 8 ==> out@[20 + k] == self.reserved@[k],
                forall|k: int| 0 <= k < i ==> out@[28 + k] == self.info_hash@[k],
            decreases 20 - i,
        {
            out[28 + i] = self.info_hash[i];
            i = i + 1;
        }
        let mut i: usize = 0;
        while i < 20
            invariant
                i <= 20,
                out@.len() == 68,
                out@[0] == 19,
                forall|k: int| 0 <= k < 19 ==> out@[1 + k] == marker@[k],
                forall|k: int| 0 <= k < 8 ==> out@[20 + k] == self.reserved@[k],
                forall|k: int| 0 <= k < 20 ==> out@[28 + k] == self.info_hash@[k],
                forall|k: int| 0 <= k < i ==> out@[48 + k] == self.peer_id@[k],
            decreases 20 - i,
        {
            out[48 + i] = self.peer_id[i];
            i = i + 1;
        }
        assert(out@ =~= handshake_wire(*self));
        out
    }

    /// Decodes exactly one handshake, validating its size and protocol marker
    /// before reading any identity field.
    pub fn decode(input: &[u8]) -> (handshake: Result<Self, PeerWireError>)
        ensures
            is_handshake(input@) <==> handshake is Ok,
            handshake matches Ok(h) ==> handshake_wire(h) == input@,
            !is_handshake(input@) ==> handshake == Err::<Self, PeerWireError>(
                PeerWireError::InvalidHandshake,
            ),
    {
        if input.len() != HANDSHAKE_LEN || input[0] != 19 {
            return Err(PeerWireError::InvalidHandshake);
        }
        let marker = protocol_marker();
        let mut i: usize = 0;
        while i < 19
            invariant
                i <= 19,
                input@.len() == 68,
                marker@ == protocol_name(),
                forall|k: int| 0 <= k < i ==> input@[1 + k] == marker@[k],
            decreases 19 - i,
        {
            if input[1 + i] != marker[i] {
                proof {
                    assert(input@.subrange(1, 20)[i as int] != protocol_name()[i as int]);
                }
                return Err(PeerWireError::InvalidHandshake);
            }
            i = i + 1;
        }
        assert(input@.subrange(1, 20) =~= protocol_name());
        let reserved: [u8; 8] = copy_array(input, 20);
        let info_hash: [u8; 20] = copy_array(input, 28);
        let peer_id: [u8; 20] = copy_array(input, 48);
        let handshake = Handshake { reserved, info_hash, peer_id };
        assert(handshake_wire(handshake) =~= input@);
        Ok(handshake)
    }
}

/// Encoding a handshake and decoding the bytes gives the handshake back: the
/// wire form is valid, and no other handshake has the same bytes.
pub proof fn lemma_handshake_round_trip(handshake: Handshake, other: Handshake)
    ensures
        is_handshake(handshake_wire(handshake)),
        handshake_wire(other) == handshake_wire(handshake) ==> other == handshake,
{
    let wire = handshake_wire(handshake);
    assert(wire.subrange(1, 20) =~= protocol_name());
    if handshake_wire(other) == wire {
        let o = handshake_wire(other);
        assert(other.reserved@ =~= o.subrange(20, 28));
        assert(handshake.reserved@ =~= wire.subrange(20, 28));
        assert(other.info_hash@ =~= o.subrange(28, 48));
        assert(handshake.info_hash@ =~= wire.subrange(28, 48));
        assert(other.peer_id@ =~= o.subrange(48, 68));
        assert(handshake.peer_id@ =~= wire.subrange(48, 68));
        assert(other.reserved =~= handshake.reserved);
        assert(other.info_hash =~= handshake.info_hash);
        assert(other.peer_id =~= handshake.peer_id);
    }
}

} // verus!

verus! {

/// One peer-wire message.
#[derive(Debug, Clone, PartialEq, Eq)]
pub enum Message {
    KeepAlive,
    Choke,
    Unchoke,
    Interested,
    NotInterested,
    Have(u32),
    Bitfield(Vec<u8>),
    Request { index: u32, begin: u32, length: u32 },
    Piece { index: u32, begin: u32, block: Vec<u8> },
    Cancel { index: u32, begin: u32, length: u32 },
}

/// Mathematical value of a [`Message`], with payload bytes as sequences.
pub enum MessageView {
    KeepAlive,
    Choke,
    Unchoke,
    Interested,
    NotInterested,
    Have(u32),
    Bitfield(Seq<u8>),
    Request { index: u32, begin: u32, length: u32 },
    Piece { index: u32, begin: u32, block: Seq<u8> },
    Cancel { index: u32, begin: u32, length: u32 },
}

impl View for Message {
    type V = MessageView;

    open spec fn view(&self) -> MessageView {
        match self {
            Message::KeepAlive => MessageView::KeepAlive,
            Message::Choke => MessageView::Choke,
            Message::Unchoke => MessageView::Unchoke,
            Message::Interested => MessageView::Interested,
            Message::NotInterested => MessageView::NotInterested,
            Message::Have(index) => MessageView::Have(*index),
            Message::Bitfield(bits) => MessageView::Bitfield(bits@),
            Message::Request { index, begin, length } => MessageView::Request {
                index: *index,
                begin: *begin,
                length: *length,
            },
            Message::Piece { index, begin, block } => MessageView::Piece {
                index: *index,
                begin: *begin,
                block: block@,
            },
            Message::Cancel { index, begin, length } => MessageView::Cancel {
                index: *index,
                begin: *begin,
                length: *length,
            },
        }
    }
}

/// The four big-endian bytes of a 32-bit value.
pub open spec fn be32(value: u32) -> Seq<u8> {
    seq![
        (value / 0x1000000) as u8,
        ((value / 0x10000) % 0x100) as u8,
        ((value / 0x100) % 0x100) as u8,
        (value % 0x100) as u8,
    ]
}

/// The value of the first four bytes read big-endian.
pub open spec fn be32_value(bytes: Seq<u8>) -> nat {
    (bytes[0] * 0x1000000 + bytes[1] * 0x10000 + bytes[2] * 0x100 + bytes[3]) as nat
}

/// Reading the big-endian bytes of a value gives the value back.
pub proof fn lemma_be32_round_trip(value: u32)
    ensures
        be32(value).len() == 4,
        be32_value(be32(value)) == value,
{
    let b = be32(value);
    assert(b[0] == value / 0x1000000);
    assert(b[1] == (value / 0x10000) % 0x100);
    assert(b[2] == (value / 0x100) % 0x100);
    assert(b[3] == value % 0x100);
    assert((value / 0x1000000) * 0x1000000 + ((value / 0x10000) % 0x100) * 0x10000 + ((value
        / 0x100) % 0x100) * 0x100 + value % 0x100 == value) by (nonlinear_arith);
}

/// The message ID byte followed by the message body, for every message other
/// than keep-alive.
pub open spec fn message_payload(message: MessageView) -> Seq<u8> {
    match message {
        MessageView::KeepAlive => seq![],
        MessageView::Choke => seq![0u8],
        MessageView::Unchoke => seq![1u8],
        MessageView::Interested => seq![2u8],
        MessageView::NotInterested => seq![3u8],
        MessageView::Have(index) => seq![4u8] + be32(index),
        MessageView::Bitfield(bits) => seq![5u8] + bits,
        MessageView::Request { index, begin, length } => seq![6u8] + be32(index) + be32(begin)
            + be32(length),
        MessageView::Piece { index, begin, block } => seq![7u8] + be32(index) + be32(begin)
            + block,
        MessageView::Cancel { index, begin, length } => seq![8u8] + be32(index) + be32(begin)
            + be32(length),
    }
}

/// Whether a message fits the 32-bit length prefix.
pub open spec fn encodable(message: MessageView) -> bool {
    message is KeepAlive || message_payload(message).len() <= u32::MAX
}

/// The complete frame of a message: big-endian payload length, then payload.
pub open spec fn frame_wire(message: MessageView) -> Seq<u8> {
    match message {
        MessageView::KeepAlive => be32(0),
        _ => be32(message_payload(message).len() as u32) + message_payload(message),
    }
}

/// The message a non-empty frame payload (ID byte and body) denotes, if any.
pub open spec fn parse_payload(payload: Seq<u8>) -> Option<MessageView> {
    let id = payload[0];
    let body = payload.skip(1);
    if id == 0 && body.len() == 0 {
        Some(MessageView::Choke)
    } else if id == 1 && body.len() == 0 {
        Some(MessageView::Unchoke)
    } else if id == 2 && body.len() == 0 {
        Some(MessageView::Interested)
    } else if id == 3 && body.len() == 0 {
        Some(MessageView::NotInterested)
    } else if id == 4 && body.len() == 4 {
        Some(MessageView::Have(be32_value(body) as u32))
    } else if id == 5 {
        Some(MessageView::Bitfield(body))
    } else if id == 6 && body.len() == 12 {
        Some(
            MessageView::Request {
                index: be32_value(body.subrange(0, 4)) as u32,
                begin: be32_value(body.subrange(4, 8)) as u32,
                length: be32_value(body.subrange(8, 12)) as u32,
            },
        )
    } else if id == 7 && body.len() >= 8 {
        Some(
            MessageView::Piece {
                index: be32_value(body.subrange(0, 4)) as u32,
                begin: be32_value(body.subrange(4, 8)) as u32,
                block: body.skip(8),
            },
        )
    } else if id == 8 && body.len() == 12 {
        Some(
            MessageView::Cancel {
                index: be32_value(body.subrange(0, 4)) as u32,
                begin: be32_value(body.subrange(4, 8)) as u32,
                length: be32_value(body.subrange(8, 12)) as u32,
            },
        )
    } else {
        None
    }
}

/// What decoding the front of a receive buffer yields.
pub enum DecodeStep {
    /// The buffer does not yet hold a complete frame; nothing is consumed.
    Incomplete,
    /// One message decoded from the first `consumed` bytes.
    Decoded(MessageView, nat),
    /// The declared frame body exceeds the limit; nothing is consumed.
    ExceedsLimit,
    /// A complete frame of `consumed` bytes holds no valid message.
    Malformed(nat),
}

/// Decoding of the front of `source` under an inclusive frame-body limit.
pub open spec fn decode_step(source: Seq<u8>, max_frame: nat) -> DecodeStep {
    if source.len() < 4 {
        DecodeStep::Incomplete
    } else {
        let len = be32_value(source);
        if len > max_frame {
            DecodeStep::ExceedsLimit
        } else if source.len() < 4 + len {
            DecodeStep::Incomplete
        } else if len == 0 {
            DecodeStep::Decoded(MessageView::KeepAlive, 4)
        } else {
            match parse_payload(source.subrange(4, (4 + len) as int)) {
                Some(message) => DecodeStep::Decoded(message, 4 + len),
                None => DecodeStep::Malformed(4 + len),
            }
        }
    }
}

/// Reads four big-endian bytes of `bytes` starting at `at`.
fn read_be32(bytes: &[u8], at: usize) -> (value: u32)
    requires
        at + 4 <= bytes@.len(),
    ensures
        value == be32_value(bytes@.subrange(at as int, at + 4)),
{
    let b0 = bytes[at] as u32;
    let b1 = bytes[at + 1] as u32;
    let b2 = bytes[at + 2] as u32;
    let b3 = bytes[at + 3] as u32;
    b0 * 0x1000000 + b1 * 0x10000 + b2 * 0x100 + b3
}

/// Appends the big-endian bytes of `value`.
fn push_be32(out: &mut Vec<u8>, value: u32)
    ensures
        final(out)@ == old(out)@ + be32(value),
{
    out.push((value / 0x1000000) as u8);
    out.push(((value / 0x10000) % 0x100) as u8);
    out.push(((value / 0x100) % 0x100) as u8);
    out.push((value % 0x100) as u8);
    assert(final(out)@ =~= old(out)@ + be32(value));
}

/// Appends every byte of `bytes`.
fn push_all(out: &mut Vec<u8>, bytes: &[u8])
    ensures
        final(out)@ == old(out)@ + bytes@,
{
    let ghost start = out@;
    let mut i: usize = 0;
    while i < bytes.len()
        invariant
            i <= bytes@.len(),
            out@ == start + bytes@.subrange(0, i as int),
        decreases bytes@.len() - i,
    {
        out.push(bytes[i]);
        i = i + 1;
        assert(out@ =~= start + bytes@.subrange(0, i as int));
    }
    assert(bytes@.subrange(0, bytes@.len() as int) =~= bytes@);
}

/// Copies `bytes[start..end]` into a new vector.
fn copy_range(bytes: &[u8], start: usize, end: usize) -> (out: Vec<u8>)
    requires
        start <= end <= bytes@.len(),
    ensures
        out@ == bytes@.subrange(start as int, end as int),
{
    let mut out: Vec<u8> = Vec::new();
    let mut i = start;
    while i < end
        invariant
            start <= i <= end <= bytes@.len(),
            out@ == bytes@.subrange(start as int, i as int),
        decreases end - i,
    {
        out.push(bytes[i]);
        i = i + 1;
        assert(out@ =~= bytes@.subrange(start as int, i as int));
    }
    out
}

/// Stateless peer-wire codec with an inclusive frame-body limit.
#[derive(Debug, Clone, Copy, PartialEq, Eq, Structural)]
pub struct PeerCodec {
    max_frame: usize,
}

impl Default for PeerCodec {
    /// A codec that accepts only empty (keep-alive) frames.
    fn default() -> (codec: Self)
        ensures
            codec.spec_max_frame() == 0,
    {
        PeerCodec { max_frame: 0 }
    }
}

/// Decodes the message in a complete frame payload (ID byte and body).
fn parse_frame(frame: &[u8], start: usize, len: usize) -> (message: Option<Message>)
    requires
        len >= 1,
        start + len <= frame@.len(),
    ensures
        parse_payload(frame@.subrange(start as int, start + len)) matches Some(m) ==> (
        message matches Some(msg) && msg@ == m),
        parse_payload(frame@.subrange(start as int, start + len)) is None ==> message is None,
{
    let ghost payload = frame@.subrange(start as int, start + len);
    let ghost body = payload.skip(1);
    let id = frame[start];
    let body_len = len - 1;
    let at = start + 1;
    proof {
        assert(payload[0] == id);
        assert(body.len() == body_len);
        assert(body =~= frame@.subrange(at as int, at + body_len));
    }
    if id <= 3 && body_len == 0 {
        if id == 0 {
            Some(Message::Choke)
        } else if id == 1 {
            Some(Message::Unchoke)
        } else if id == 2 {
            Some(Message::Interested)
        } else {
            Some(Message::NotInterested)
        }
    } else if id == 4 && body_len == 4 {
        let index = read_be32(frame, at);
        proof {
            assert(body.subrange(0, 4) =~= body);
        }
        Some(Message::Have(index))
    } else if id == 5 {
        Some(Message::Bitfield(copy_range(frame, at, at + body_len)))
    } else if (id == 6 || id == 8) && body_len == 12 {
        let index = read_be32(frame, at);
        let begin = read_be32(frame, at + 4);
        let length = read_be32(frame, at + 8);
        proof {
            assert(body.subrange(0, 4) =~= frame@.subrange(at as int, at + 4));
            assert(body.subrange(4, 8) =~= frame@.subrange(at + 4, at + 8));
            assert(body.subrange(8, 12) =~= frame@.subrange(at + 8, at + 12));
        }
        if id == 6 {
            Some(Message::Request { index, begin, length })
        } else {
            Some(Message::Cancel { index, begin, length })
        }
    } else if id == 7 && body_len >= 8 {
        let index = read_be32(frame, at);
        let begin = read_be32(frame, at + 4);
        let block = copy_range(frame, at + 8, at + body_len);
        proof {
            assert(body.subrange(0, 4) =~= frame@.subrange(at as int, at + 4));
            assert(body.subrange(4, 8) =~= frame@.subrange(at + 4, at + 8));
            assert(body.skip(8) =~= frame@.subrange(at + 8, at + body_len));
        }
        Some(Message::Piece { index, begin, block })
    } else {
        None
    }
}

impl PeerCodec {
    /// The inclusive largest accepted frame body in bytes.
    pub closed spec fn spec_max_frame(self) -> nat {
        self.max_frame as nat
    }

    /// Creates a state-free codec with an inclusive frame-body limit; nothing
    /// is allocated.
    pub fn new(max_frame: usize) -> (codec: Self)
        ensures
            codec.spec_max_frame() == max_frame,
    {
        PeerCodec { max_frame }
    }

    /// Decodes at most one frame from the front of a receive buffer.
    ///
    /// Incomplete input and over-limit prefixes consume nothing; a complete
    /// frame is consumed whole, whether it holds a message or not.
    pub fn decode(&mut self, source: &mut BytesMut) -> (result: Result<Option<Message>, PeerWireError>)
        ensures
            *final(self) == *old(self),
            match decode_step(bytes_mut_contents(*old(source)), old(self).spec_max_frame()) {
                DecodeStep::Incomplete => result == Ok::<Option<Message>, PeerWireError>(None)
                    && bytes_mut_contents(*final(source)) == bytes_mut_contents(*old(source)),
                DecodeStep::ExceedsLimit => result == Err::<Option<Message>, PeerWireError>(
                    PeerWireError::FrameExceedsLimit,
                ) && bytes_mut_contents(*final(source)) == bytes_mut_contents(*old(source)),
                DecodeStep::Decoded(message, consumed) => (result matches Ok(Some(m)) && m@
                    == message) && bytes_mut_contents(*final(source)) == bytes_mut_contents(
                    *old(source),
                ).skip(consumed as int),
                DecodeStep::Malformed(consumed) => result == Err::<Option<Message>, PeerWireError>(
                    PeerWireError::InvalidMessage,
                ) && bytes_mut_contents(*final(source)) == bytes_mut_contents(*old(source)).skip(
                    consumed as int,
                ),
            },
    {
        let bytes = buffer_bytes(source);
        let available = bytes.len();
        if available < 4 {
            return Ok(None);
        }
        let len = read_be32(bytes, 0);
        proof {
            assert(bytes@.subrange(0, 4)[0] == bytes@[0]);
            assert(bytes@.subrange(0, 4)[1] == bytes@[1]);
            assert(bytes@.subrange(0, 4)[2] == bytes@[2]);
            assert(bytes@.subrange(0, 4)[3] == bytes@[3]);
        }
        if len as usize > self.max_frame {
            return Err(PeerWireError::FrameExceedsLimit);
        }
        let len = len as usize;
        if available - 4 < len {
            return Ok(None);
        }
        if len == 0 {
            buffer_advance(source, 4);
            return Ok(Some(Message::KeepAlive));
        }
        let parsed = parse_frame(bytes, 4, len);
        buffer_advance(source, 4 + len);
        match parsed {
            Some(message) => Ok(Some(message)),
            None => Err(PeerWireError::InvalidMessage),
        }
    }

    /// Appends one message's complete frame to a transmit buffer.
    ///
    /// A message whose payload does not fit the 32-bit length prefix is refused
    /// before anything is written.
    pub fn encode(&mut self, item: Message, destination: &mut BytesMut) -> (result: Result<
        (),
        PeerWireError,
    >)
        requires
            bytes_mut_contents(*old(destination)).len() + frame_wire(item@).len() <= isize::MAX,
        ensures
            *final(self) == *old(self),
            encodable(item@) ==> result is Ok && bytes_mut_contents(*final(destination))
                == bytes_mut_contents(*old(destination)) + frame_wire(item@),
            !encodable(item@) ==> result == Err::<(), PeerWireError>(PeerWireError::FrameTooLarge)
                && bytes_mut_contents(*final(destination)) == bytes_mut_contents(*old(destination)),
    {
        let mut frame: Vec<u8> = Vec::new();
        match item {
            Message::KeepAlive => {
                push_be32(&mut frame, 0);
            },
            Message::Bitfield(bits) => {
                if bits.len() as u64 >= u32::MAX as u64 {
                    return Err(PeerWireError::FrameTooLarge);
                }
                push_be32(&mut frame, (bits.len() + 1) as u32);
                frame.push(5);
                push_all(&mut frame, bits.as_slice());
                assert(frame@ =~= frame_wire(item@));
            },
            Message::Piece { index, begin, block } => {
                if block.len() as u64 >= (u32::MAX - 8) as u64 {
                    return Err(PeerWireError::FrameTooLarge);
                }
                push_be32(&mut frame, (block.len() + 9) as u32);
                frame.push(7);
                push_be32(&mut frame, index);
                push_be32(&mut frame, begin);
                push_all(&mut frame, block.as_slice());
                assert(frame@ =~= frame_wire(item@));
            },
            Message::Have(index) => {
                push_be32(&mut frame, 5);
                frame.push(4);
                push_be32(&mut frame, index);
                assert(frame@ =~= frame_wire(item@));
            },
            Message::Request { index, begin, length } => {
                push_be32(&mut frame, 13);
                frame.push(6);
                push_be32(&mut frame, index);
                push_be32(&mut frame, begin);
                push_be32(&mut frame, length);
                assert(frame@ =~= frame_wire(item@));
            },
            Message::Cancel { index, begin, length } => {
                push_be32(&mut frame, 13);
                frame.push(8);
                push_be32(&mut frame, index);
                push_be32(&mut frame, begin);
                push_be32(&mut frame, length);
                assert(frame@ =~= frame_wire(item@));
            },
            Message::Choke => {
                push_be32(&mut frame, 1);
                frame.push(0);
                assert(frame@ =~= frame_wire(item@));
            },
            Message::Unchoke => {
                push_be32(&mut frame, 1);
                frame.push(1);
                assert(frame@ =~= frame_wire(item@));
            },
            Message::Interested => {
                push_be32(&mut frame, 1);
                frame.push(2);
                assert(frame@ =~= frame_wire(item@));
            },
            Message::NotInterested => {
                push_be32(&mut frame, 1);
                frame.push(3);
                assert(frame@ =~= frame_wire(item@));
            },
        }
        buffer_extend(destination, frame.as_slice());
        Ok(())
    }
}

/// Decoding the frame of any encodable message, followed by any further bytes,
/// yields that message and consumes exactly its frame, provided the frame body
/// is within the codec's limit.
pub proof fn lemma_codec_round_trip(message: MessageView, rest: Seq<u8>, max_frame: nat)
    requires
        encodable(message),
        frame_wire(message).len() <= max_frame + 4,
    ensures
        decode_step(frame_wire(message) + rest, max_frame) == DecodeStep::Decoded(
            message,
            frame_wire(message).len(),
        ),
{
    let wire = frame_wire(message);
    let source = wire + rest;
    let payload = message_payload(message);
    if message is KeepAlive {
        lemma_be32_round_trip(0);
        assert(source.subrange(0, 4) =~= be32(0));
        assert(be32_value(source) == be32_value(be32(0)));
    } else {
        let len = payload.len() as u32;
        lemma_be32_round_trip(len);
        assert(be32_value(source) == be32_value(be32(len)));
        assert(source.subrange(4, (4 + payload.len()) as int) =~= payload);
        assert(payload[0] == payload[0]);
        match message {
            MessageView::Have(index) => {
                lemma_be32_round_trip(index);
                assert(payload.skip(1) =~= be32(index));
            },
            MessageView::Bitfield(bits) => {
                assert(payload.skip(1) =~= bits);
            },
            MessageView::Request { index, begin, length } => {
                lemma_be32_round_trip(index);
                lemma_be32_round_trip(begin);
                lemma_be32_round_trip(length);
                let body = payload.skip(1);
                assert(body.subrange(0, 4) =~= be32(index));
                assert(body.subrange(4, 8) =~= be32(begin));
                assert(body.subrange(8, 12) =~= be32(length));
            },
            MessageView::Cancel { index, begin, length } => {
                lemma_be32_round_trip(index);
                lemma_be32_round_trip(begin);
                lemma_be32_round_trip(length);
                let body = payload.skip(1);
                assert(body.subrange(0, 4) =~= be32(index));
                assert(body.subrange(4, 8) =~= be32(begin));
                assert(body.subrange(8, 12) =~= be32(length));
            },
            MessageView::Piece { index, begin, block } => {
                lemma_be32_round_trip(index);
                lemma_be32_round_trip(begin);
                let body = payload.skip(1);
                assert(body.subrange(0, 4) =~= be32(index));
                assert(body.subrange(4, 8) =~= be32(begin));
                assert(body.skip(8) =~= block);
            },
            _ => {
                assert(payload.skip(1) =~= Seq::<u8>::empty());
            },
        }
    }
}

} // verus!

verus! {

/// Every 32-bit value goes on the wire as four bytes, most significant first:
/// the bytes are the value's base-256 digits.
pub proof fn lemma_be32_is_big_endian(value: u32)
    ensures
        be32(value).len() == 4,
        be32(value)[0] as int * 16777216 + be32(value)[1] as int * 65536 + be32(value)[2] as int
            * 256 + be32(value)[3] as int == value as int,
        be32(value)[3] as int == value as int % 256,
{
    lemma_be32_round_trip(value);
}

/// Each message's frame on the wire, byte for byte: the four-byte big-endian
/// length of what follows, the message ID (choke 0, unchoke 1, interested 2,
/// not interested 3, have 4, bitfield 5, request 6, piece 7, cancel 8), then
/// the fields in order; keep-alive is a bare zero length.
pub proof fn lemma_frame_bytes(message: MessageView)
    ensures
        message is KeepAlive ==> frame_wire(message) == seq![0u8, 0u8, 0u8, 0u8],
        message is Choke ==> frame_wire(message) == seq![0u8, 0u8, 0u8, 1u8, 0u8],
        message is Unchoke ==> frame_wire(message) == seq![0u8, 0u8, 0u8, 1u8, 1u8],
        message is Interested ==> frame_wire(message) == seq![0u8, 0u8, 0u8, 1u8, 2u8],
        message is NotInterested ==> frame_wire(message) == seq![0u8, 0u8, 0u8, 1u8, 3u8],
        message matches MessageView::Have(index) ==> frame_wire(message) == seq![
            0u8,
            0u8,
            0u8,
            5u8,
            4u8,
        ] + be32(index),
        message matches MessageView::Bitfield(bits) ==> (bits.len() < u32::MAX ==> frame_wire(
            message,
        ) == be32((bits.len() + 1) as u32) + seq![5u8] + bits),
        message matches MessageView::Request { index, begin, length } ==> frame_wire(message)
            == seq![0u8, 0u8, 0u8, 13u8, 6u8] + be32(index) + be32(begin) + be32(length),
        message matches MessageView::Piece { index, begin, block } ==> (block.len() + 9
            <= u32::MAX ==> frame_wire(message) == be32((block.len() + 9) as u32) + seq![7u8]
            + be32(index) + be32(begin) + block),
        message matches MessageView::Cancel { index, begin, length } ==> frame_wire(message)
            == seq![0u8, 0u8, 0u8, 13u8, 8u8] + be32(index) + be32(begin) + be32(length),
{
    assert(be32(0) =~= seq![0u8, 0u8, 0u8, 0u8]);
    assert(be32(1) =~= seq![0u8, 0u8, 0u8, 1u8]);
    assert(be32(5) =~= seq![0u8, 0u8, 0u8, 5u8]);
    assert(be32(13) =~= seq![0u8, 0u8, 0u8, 13u8]);
    match message {
        MessageView::Have(index) => {
            assert(message_payload(message).len() == 5);
            assert(frame_wire(message) =~= seq![0u8, 0u8, 0u8, 5u8, 4u8] + be32(index));
        },
        MessageView::Bitfield(bits) => {
            assert(message_payload(message).len() == bits.len() + 1);
            assert(frame_wire(message) =~= be32((bits.len() + 1) as u32) + seq![5u8] + bits);
        },
        MessageView::Request { index, begin, length } => {
            assert(message_payload(message).len() == 13);
            assert(frame_wire(message) =~= seq![0u8, 0u8, 0u8, 13u8, 6u8] + be32(index) + be32(
                begin,
            ) + be32(length));
        },
        MessageView::Piece { index, begin, block } => {
            assert(message_payload(message).len() == block.len() + 9);
            assert(frame_wire(message) =~= be32((block.len() + 9) as u32) + seq![7u8] + be32(
                index,
            ) + be32(begin) + block);
        },
        MessageView::Cancel { index, begin, length } => {
            assert(message_payload(message).len() == 13);
            assert(frame_wire(message) =~= seq![0u8, 0u8, 0u8, 13u8, 8u8] + be32(index) + be32(
                begin,
            ) + be32(length));
        },
        MessageView::KeepAlive => {},
        _ => {
            assert(frame_wire(message) =~= seq![0u8, 0u8, 0u8, 1u8] + message_payload(message));
        },
    }
}

/// A complete one-byte frame at the front of a receive buffer, whatever
/// follows it, decodes by its ID: 0 choke, 1 unchoke, 2 interested, 3 not
/// interested, 5 an empty bitfield; every other ID, as a bare byte, is a
/// malformed frame. Either way the five frame bytes are consumed, once the
/// limit admits a one-byte body; an empty frame is a keep-alive.
pub proof fn lemma_decode_one_byte_frames(id: u8, rest: Seq<u8>, max_frame: nat)
    ensures
        decode_step(seq![0u8, 0u8, 0u8, 0u8] + rest, max_frame) == DecodeStep::Decoded(
            MessageView::KeepAlive,
            4,
        ),
        max_frame == 0 ==> decode_step(seq![0u8, 0u8, 0u8, 1u8, id] + rest, max_frame)
            == DecodeStep::ExceedsLimit,
        max_frame >= 1 && id == 0 ==> decode_step(seq![0u8, 0u8, 0u8, 1u8, id] + rest, max_frame)
            == DecodeStep::Decoded(MessageView::Choke, 5),
        max_frame >= 1 && id == 1 ==> decode_step(seq![0u8, 0u8, 0u8, 1u8, id] + rest, max_frame)
            == DecodeStep::Decoded(MessageView::Unchoke, 5),
        max_frame >= 1 && id == 2 ==> decode_step(seq![0u8, 0u8, 0u8, 1u8, id] + rest, max_frame)
            == DecodeStep::Decoded(MessageView::Interested, 5),
        max_frame >= 1 && id == 3 ==> decode_step(seq![0u8, 0u8, 0u8, 1u8, id] + rest, max_frame)
            == DecodeStep::Decoded(MessageView::NotInterested, 5),
        max_frame >= 1 && id == 5 ==> decode_step(seq![0u8, 0u8, 0u8, 1u8, id] + rest, max_frame)
            == DecodeStep::Decoded(MessageView::Bitfield(Seq::<u8>::empty()), 5),
        max_frame >= 1 && (id == 4 || id >= 6) ==> decode_step(
            seq![0u8, 0u8, 0u8, 1u8, id] + rest,
            max_frame,
        ) == DecodeStep::Malformed(5),
{
    let empty = seq![0u8, 0u8, 0u8, 0u8] + rest;
    assert(empty[0] == 0 && empty[1] == 0 && empty[2] == 0 && empty[3] == 0);
    assert(be32_value(empty) == 0);
    let source = seq![0u8, 0u8, 0u8, 1u8, id] + rest;
    assert(source[0] == 0 && source[1] == 0 && source[2] == 0 && source[3] == 1);
    assert(be32_value(source) == 1);
    let payload = source.subrange(4, 5);
    assert(payload =~= seq![id]);
    assert(payload[0] == id);
    assert(payload.skip(1) =~= Seq::<u8>::empty());
}

} // verus!

verus! {

/// The handshake marker is the ASCII text `BitTorrent protocol`: an input is a
/// handshake exactly when it is 68 bytes long and starts with the byte 19
/// followed by the character codes of that text, one byte each.
pub proof fn lemma_handshake_marker_text(input: Seq<u8>)
    ensures
        protocol_name().len() == "BitTorrent protocol"@.len(),
        forall|i: int|
            0 <= i < 19 ==> protocol_name()[i] as u32 == (#[trigger] "BitTorrent protocol"@[i])
                as u32,
        is_handshake(input) <==> (input.len() == 68 && input[0] == 19 && forall|i: int|
            0 <= i < 19 ==> input[1 + i] as u32 == (#[trigger] "BitTorrent protocol"@[i]) as u32),
{
    reveal_strlit("BitTorrent protocol");
    let text = "BitTorrent protocol"@;
    assert(text.len() == 19);
    assert forall|i: int| 0 <= i < 19 implies protocol_name()[i] as u32 == (#[trigger] text[i])
        as u32 by {
        assert(text =~= seq![
            'B', 'i', 't', 'T', 'o', 'r', 'r', 'e', 'n', 't', ' ', 'p', 'r', 'o', 't', 'o', 'c', 'o',
            'l',
        ]);
    }
    if input.len() == 68 && input[0] == 19 && forall|i: int|
        0 <= i < 19 ==> input[1 + i] as u32 == (#[trigger] text[i]) as u32 {
        assert forall|i: int| 0 <= i < 19 implies #[trigger] input.subrange(1, 20)[i]
            == protocol_name()[i] by {
            assert(input[1 + i] as u32 == text[i] as u32);
            assert(protocol_name()[i] as u32 == text[i] as u32);
        }
        assert(input.subrange(1, 20) =~= protocol_name());
    }
    if is_handshake(input) {
        assert forall|i: int| 0 <= i < 19 implies input[1 + i] as u32 == (#[trigger] text[i])
            as u32 by {
            assert(input.subrange(1, 20)[i] == input[1 + i]);
        }
    }
}

} // verus!

verus! {

/// The handshake's fixed layout: byte 0 is 19, bytes 1 to 19 the marker,
/// bytes 20 to 27 the reserved bits, bytes 28 to 47 the info hash and bytes
/// 48 to 67 the peer id.
pub proof fn lemma_handshake_layout(handshake: Handshake)
    ensures
        handshake_wire(handshake).len() == 68,
        handshake_wire(handshake)[0] == 19,
        handshake_wire(handshake).subrange(1, 20) == protocol_name(),
        handshake_wire(handshake).subrange(20, 28) == handshake.reserved@,
        handshake_wire(handshake).subrange(28, 48) == handshake.info_hash@,
        handshake_wire(handshake).subrange(48, 68) == handshake.peer_id@,
{
    let wire = handshake_wire(handshake);
    assert(wire.subrange(1, 20) =~= protocol_name());
    assert(wire.subrange(20, 28) =~= handshake.reserved@);
    assert(wire.subrange(28, 48) =~= handshake.info_hash@);
    assert(wire.subrange(48, 68) =~= handshake.peer_id@);
}

} // verus!
