//! The wire codec: an 8-byte header (little-endian opcode, little-endian
//! payload length) followed by the payload bytes.
use vstd::bytes::*;
use vstd::prelude::*;
use vstd::slice::slice_subrange;
use vstd::slice::slice_to_vec;

verus! {

pub const OP_HANDSHAKE: u32 = 0;

pub const OP_FRAME: u32 = 1;

pub const OP_CLOSE: u32 = 2;

pub const OP_PING: u32 = 3;

pub const OP_PONG: u32 = 4;

/// Length of a frame header in bytes.
pub const HEADER_LEN: usize = 8;

/// One frame of the protocol.
#[derive(Debug)]
pub enum Packet {
    HANDSHAKE(Vec<u8>),
    FRAME(Vec<u8>),
    CLOSE,
    PING(Vec<u8>),
    PONG(Vec<u8>),
}

/// Why a byte buffer is not a frame.
#[derive(Debug, Clone, Copy, PartialEq, Eq, Structural)]
pub enum ProtocolError {
    /// Fewer bytes than a header.
    TooShort,
    /// The header declares more payload bytes than follow it.
    Truncated,
    /// The opcode names no kind of frame.
    UnknownOpcode,
}

/// The opcode of a packet.
pub open spec fn opcode_of(p: &Packet) -> u32 {
    match p {
        Packet::HANDSHAKE(_) => OP_HANDSHAKE,
        Packet::FRAME(_) => OP_FRAME,
        Packet::CLOSE => OP_CLOSE,
        Packet::PING(_) => OP_PING,
        Packet::PONG(_) => OP_PONG,
    }
}

/// The payload bytes of a packet.
pub open spec fn payload_of(p: &Packet) -> Seq<u8> {
    match p {
        Packet::HANDSHAKE(b) => b@,
        Packet::FRAME(b) => b@,
        Packet::CLOSE => Seq::empty(),
        Packet::PING(b) => b@,
        Packet::PONG(b) => b@,
    }
}

/// A packet whose payload length fits the header's length field.
pub open spec fn encodable(p: &Packet) -> bool {
    payload_of(p).len() <= u32::MAX
}

/// The header of a frame with this opcode and payload length.
pub open spec fn header_bytes(op: u32, len: u32) -> Seq<u8> {
    spec_u32_to_le_bytes(op) + spec_u32_to_le_bytes(len)
}

/// A frame on the wire: header, then exactly the payload.
pub open spec fn frame_bytes(op: u32, payload: Seq<u8>) -> Seq<u8> {
    header_bytes(op, payload.len() as u32) + payload
}

/// The opcode a buffer's header declares.
pub open spec fn declared_opcode(b: Seq<u8>) -> u32 {
    spec_u32_from_le_bytes(b.subrange(0, 4))
}

/// The payload length a buffer's header declares.
pub open spec fn declared_len(b: Seq<u8>) -> nat {
    spec_u32_from_le_bytes(b.subrange(4, 8)) as nat
}

/// What parsing a buffer yields: its opcode and exactly the declared payload
/// bytes, or why it is not a frame.
pub open spec fn parse_spec(b: Seq<u8>) -> Result<(u32, Seq<u8>), ProtocolError> {
    if b.len() < 8 {
        Err(ProtocolError::TooShort)
    } else if b.len() - 8 < declared_len(b) {
        Err(ProtocolError::Truncated)
    } else {
        Ok((declared_opcode(b), b.subrange(8, 8 + declared_len(b) as int)))
    }
}

/// Whether an opcode names a kind of frame.
pub open spec fn known_opcode(op: u32) -> bool {
    op <= OP_PONG
}

/// A packet matches an opcode and payload: the close frame's payload is
/// not kept.
pub open spec fn packet_is(p: &Packet, op: u32, payload: Seq<u8>) -> bool {
    &&& opcode_of(p) == op
    &&& op != OP_CLOSE ==> payload_of(p) == payload
}

impl Packet {
    /// The whole frame: header, then payload.
    pub fn as_bytes(self) -> (r: Vec<u8>)
        requires
            encodable(&self),
        ensures
            r@ == frame_bytes(opcode_of(&self), payload_of(&self)),
            r@.len() == HEADER_LEN + payload_of(&self).len(),
    {
        let mut bytes = self.header();
        let mut payload = self.payload();
        bytes.append(&mut payload);
        bytes
    }

    /// The 8-byte header: opcode, then payload length, both little-endian.
    pub fn header(&self) -> (r: Vec<u8>)
        requires
            encodable(self),
        ensures
            r@ == header_bytes(opcode_of(self), payload_of(self).len() as u32),
            r@.len() == HEADER_LEN,
    {
        proof {
            lemma_auto_spec_u32_to_from_le_bytes();
        }
        let len = self.payload_len();
        let mut bytes = u32_to_le_bytes(self.op_code() as u32);
        let mut len_bytes = u32_to_le_bytes(len as u32);
        bytes.append(&mut len_bytes);
        bytes
    }

    /// Number of payload bytes.
    pub fn payload_len(&self) -> (r: usize)
        ensures
            r == payload_of(self).len(),
    {
        match self {
            Packet::HANDSHAKE(b) => b.len(),
            Packet::FRAME(b) => b.len(),
            Packet::CLOSE => 0,
            Packet::PING(b) => b.len(),
            Packet::PONG(b) => b.len(),
        }
    }

    /// A copy of the payload bytes.
    pub fn payload(&self) -> (r: Vec<u8>)
        ensures
            r@ == payload_of(self),
    {
        match self {
            Packet::HANDSHAKE(b) => slice_to_vec(b.as_slice()),
            Packet::FRAME(b) => slice_to_vec(b.as_slice()),
            Packet::CLOSE => Vec::new(),
            Packet::PING(b) => slice_to_vec(b.as_slice()),
            Packet::PONG(b) => slice_to_vec(b.as_slice()),
        }
    }

    /// The opcode that the header carries.
    pub fn op_code(&self) -> (r: usize)
        ensures
            r == opcode_of(self),
    {
        match self {
            Packet::HANDSHAKE(_) => 0,
            Packet::FRAME(_) => 1,
            Packet::CLOSE => 2,
            Packet::PING(_) => 3,
            Packet::PONG(_) => 4,
        }
    }

    /// Splits a buffer into opcode, declared length and payload. Bytes after
    /// the declared payload are dropped.
    pub fn parse(value: &[u8]) -> (r: Result<(u32, usize, Vec<u8>), ProtocolError>)
        ensures
            match (r, parse_spec(value@)) {
                (Ok((op, len, payload)), Ok((sop, spayload))) => {
                    &&& op == sop
                    &&& payload@ == spayload
                    &&& len == spayload.len()
                },
                (Err(e), Err(se)) => e == se,
                _ => false,
            },
    {
        if value.len() < HEADER_LEN {
            return Err(ProtocolError::TooShort);
        }
        let op = u32_from_le_bytes(slice_subrange(value, 0, 4));
        let declared = u32_from_le_bytes(slice_subrange(value, 4, 8));
        let len = declared as usize;
        if value.len() - HEADER_LEN < len {
            return Err(ProtocolError::Truncated);
        }
        let payload = slice_to_vec(slice_subrange(value, HEADER_LEN, HEADER_LEN + len));
        Ok((op, len, payload))
    }

    /// Reads one frame from the start of a buffer.
    pub fn decode(value: &[u8]) -> (r: Result<Packet, ProtocolError>)
        ensures
            match parse_spec(value@) {
                Err(e) => r == Err::<Packet, ProtocolError>(e),
                Ok((op, payload)) => if known_opcode(op) {
                    r matches Ok(p) && packet_is(&p, op, payload)
                } else {
                    r == Err::<Packet, ProtocolError>(ProtocolError::UnknownOpcode)
                },
            },
    {
        match Self::parse(value) {
            Err(e) => Err(e),
            Ok((op, _len, payload)) => {
                if op == OP_HANDSHAKE {
                    Ok(Packet::HANDSHAKE(payload))
                } else if op == OP_FRAME {
                    Ok(Packet::FRAME(payload))
                } else if op == OP_CLOSE {
                    Ok(Packet::CLOSE)
                } else if op == OP_PING {
                    Ok(Packet::PING(payload))
                } else if op == OP_PONG {
                    Ok(Packet::PONG(payload))
                } else {
                    Err(ProtocolError::UnknownOpcode)
                }
            },
        }
    }
}

/// Decoding an encoded frame gives back its opcode and exactly its payload.
pub proof fn lemma_round_trip(op: u32, payload: Seq<u8>)
    requires
        payload.len() <= u32::MAX,
    ensures
        parse_spec(frame_bytes(op, payload)) == Ok::<(u32, Seq<u8>), ProtocolError>((op, payload)),
{
    lemma_header_declares_payload_len(op, payload);
    let b = frame_bytes(op, payload);
    assert(b.subrange(8, 8 + payload.len() as int) =~= payload);
}

/// Every packet encodes under a known opcode, and decodes to an equal packet.
pub proof fn lemma_packet_round_trip(p: &Packet)
    requires
        encodable(p),
    ensures
        known_opcode(opcode_of(p)),
        parse_spec(frame_bytes(opcode_of(p), payload_of(p))) matches Ok((op, payload))
            && packet_is(p, op, payload),
{
    lemma_round_trip(opcode_of(p), payload_of(p));
}

/// The length field of an encoded frame equals the number of payload bytes
/// that follow the header, and its opcode field is the frame's opcode.
pub proof fn lemma_header_declares_payload_len(op: u32, payload: Seq<u8>)
    requires
        payload.len() <= u32::MAX,
    ensures
        frame_bytes(op, payload).len() == HEADER_LEN + payload.len(),
        declared_len(frame_bytes(op, payload)) == payload.len(),
        declared_opcode(frame_bytes(op, payload)) == op,
        frame_bytes(op, payload).subrange(HEADER_LEN as int, frame_bytes(op, payload).len() as int)
            == payload,
{
    lemma_auto_spec_u32_to_from_le_bytes();
    let b = frame_bytes(op, payload);
    let len = payload.len() as u32;
    assert(b.subrange(0, 4) =~= spec_u32_to_le_bytes(op));
    assert(b.subrange(4, 8) =~= spec_u32_to_le_bytes(len));
    assert(b.subrange(8, b.len() as int) =~= payload);
}

/// A buffer shorter than a header is rejected as too short.
pub proof fn lemma_short_buffer_rejected(b: Seq<u8>)
    requires
        b.len() < HEADER_LEN,
    ensures
        parse_spec(b) == Err::<(u32, Seq<u8>), ProtocolError>(ProtocolError::TooShort),
{
}

/// A buffer whose header declares more payload than follows is rejected as
/// truncated.
pub proof fn lemma_truncated_payload_rejected(b: Seq<u8>)
    requires
        b.len() >= HEADER_LEN,
        b.len() - HEADER_LEN < declared_len(b),
    ensures
        parse_spec(b) == Err::<(u32, Seq<u8>), ProtocolError>(ProtocolError::Truncated),
{
}

/// A buffer with more bytes than its header declares decodes to exactly the
/// first declared-length payload bytes.
pub proof fn lemma_oversized_buffer_truncated(b: Seq<u8>)
    requires
        b.len() >= HEADER_LEN,
        b.len() - HEADER_LEN > declared_len(b),
    ensures
        parse_spec(b) matches Ok((op, payload)) && op == declared_opcode(b) && payload.len()
            == declared_len(b) && payload == b.subrange(
            HEADER_LEN as int,
            HEADER_LEN + declared_len(b),
        ),
{
}

} // verus!
