use vstd::prelude::*;
use vstd::bytes::{
    lemma_auto_spec_u32_to_from_le_bytes, spec_u32_from_le_bytes, spec_u32_to_le_bytes,
    u32_from_le_bytes, u32_to_le_bytes,
};

use crate::checksum::{checksum_spec, Checksum};
use crate::errors::ProtocolError;
use crate::header::{header_byte, header_from_byte, HeaderType};

verus! {

/// Bytes of the fixed packet header: one type byte, four length bytes and
/// four checksum bytes.
pub const HEADER_SIZE: usize = 9;

/// The fixed-size packet header: type tag, payload length and the checksum
/// the sender claims for the payload.
#[derive(Clone, Copy, Debug, PartialEq, Eq, Structural)]
pub struct PacketHeader {
    pub header_type: HeaderType,
    pub payload_length: u32,
    pub checksum: u32,
}

/// One framed protocol message: header plus payload bytes.  A packet built
/// by `new` satisfies `wf`; a packet built by `parse` merely repeats what
/// the wire claimed, and the checksum is checked in a separate step.
#[derive(Debug)]
pub struct Packet {
    pub header: PacketHeader,
    pub payload: Vec<u8>,
}

impl Packet {
    /// The framing invariant: the header states the payload's true length
    /// and checksum.
    pub open spec fn wf(self) -> bool {
        &&& self.header.payload_length == self.payload@.len()
        &&& self.header.checksum == checksum_spec(self.payload@)
    }

    /// Same header and same payload bytes; what a faithful copy preserves.
    pub open spec fn equiv(self, other: Packet) -> bool {
        self.header == other.header && self.payload@ == other.payload@
    }

    /// Builds a well-formed packet for a payload: length and checksum are
    /// computed, never taken on faith.
    pub fn new(header_type: HeaderType, payload: Vec<u8>) -> (r: Packet)
        requires
            payload@.len() <= u32::MAX,
        ensures
            r.header.header_type == header_type,
            r.header.payload_length == payload@.len(),
            r.header.checksum == checksum_spec(payload@),
            r.payload@ == payload@,
            r.wf(),
    {
        let checksum: u32 = Checksum::compute(payload.as_slice());
        let payload_length: u32 = payload.len() as u32;
        Packet { header: PacketHeader { header_type, payload_length, checksum }, payload }
    }

    /// A fresh packet equal to this one in header and payload bytes.
    pub fn duplicate(&self) -> (r: Packet)
        ensures
            r.equiv(*self),
    {
        let mut payload: Vec<u8> = Vec::new();
        let n: usize = self.payload.len();
        for i in 0..n
            invariant
                n == self.payload@.len(),
                payload@ == self.payload@.take(i as int),
        {
            payload.push(self.payload[i]);
            proof {
                assert(payload@ =~= self.payload@.take(i + 1));
            }
        }
        proof {
            assert(self.payload@.take(n as int) =~= self.payload@);
        }
        Packet { header: self.header, payload }
    }

    /// Encodes the packet for the wire: header byte, length, checksum,
    /// payload.  The length prefix tells a reader exactly how many bytes
    /// follow.
    pub fn wrap_packet(&self) -> (r: Vec<u8>)
        ensures
            r@ == wrap_spec(*self),
            r@.len() == HEADER_SIZE + self.payload@.len(),
    {
        let mut out: Vec<u8> = Vec::new();
        out.push(self.header.header_type.to_byte());
        let mut length_bytes: Vec<u8> = u32_to_le_bytes(self.header.payload_length);
        out.append(&mut length_bytes);
        let mut checksum_bytes: Vec<u8> = u32_to_le_bytes(self.header.checksum);
        out.append(&mut checksum_bytes);
        let n: usize = self.payload.len();
        let ghost prefix: Seq<u8> = out@;
        for i in 0..n
            invariant
                n == self.payload@.len(),
                out@ == prefix + self.payload@.take(i as int),
        {
            out.push(self.payload[i]);
            proof {
                assert(out@ =~= prefix + self.payload@.take(i + 1));
            }
        }
        proof {
            assert(self.payload@.take(n as int) =~= self.payload@);
            assert(out@ =~= wrap_spec(*self));
        }
        out
    }

    /// Decodes a received buffer.  Fails with `InvalidHeaderError` when
    /// fewer bytes than a header arrived or the type byte is unknown, and
    /// with `InvalidPacketError` when the declared payload length exceeds
    /// what arrived.  Bytes after the declared payload are ignored, and the
    /// checksum is not checked here.
    pub fn parse(bytes: &[u8]) -> (r: Result<Packet, ProtocolError>)
        ensures
            r is Ok <==> parse_ok(bytes@),
            r matches Ok(p) ==> {
                &&& Some(p.header.header_type) == header_from_byte(bytes@[0])
                &&& p.header.payload_length == declared_length(bytes@)
                &&& p.header.checksum == declared_checksum(bytes@)
                &&& p.payload@ == parsed_payload(bytes@)
            },
            bytes@.len() < HEADER_SIZE ==> (r matches Err(
                ProtocolError::InvalidHeaderError(_),
            )),
            bytes@.len() >= HEADER_SIZE && header_from_byte(bytes@[0]) is None ==> (r matches Err(
                ProtocolError::InvalidHeaderError(_),
            )),
            header_well_formed(bytes@) && !parse_ok(bytes@) ==> (r matches Err(
                ProtocolError::InvalidPacketError(_),
            )),
    {
        if bytes.len() < HEADER_SIZE {
            return Err(
                ProtocolError::InvalidHeaderError(
                    String::from_str("buffer shorter than the fixed header"),
                ),
            );
        }
        let header_type: HeaderType = match HeaderType::from_byte(bytes[0]) {
            Some(h) => h,
            None => {
                return Err(
                    ProtocolError::InvalidHeaderError(String::from_str("unknown header type byte")),
                );
            },
        };
        let payload_length: u32 = u32_from_le_bytes(&bytes[1..5]);
        let checksum: u32 = u32_from_le_bytes(&bytes[5..9]);
        if payload_length as u64 + HEADER_SIZE as u64 > bytes.len() as u64 {
            return Err(
                ProtocolError::InvalidPacketError(
                    String::from_str("declared payload length exceeds the bytes available"),
                ),
            );
        }
        let end: usize = HEADER_SIZE + payload_length as usize;
        let mut payload: Vec<u8> = Vec::new();
        for i in HEADER_SIZE..end
            invariant
                HEADER_SIZE <= end <= bytes@.len(),
                payload@ == bytes@.subrange(HEADER_SIZE as int, i as int),
        {
            payload.push(bytes[i]);
            proof {
                assert(payload@ =~= bytes@.subrange(HEADER_SIZE as int, i + 1));
            }
        }
        proof {
            assert(payload@ =~= parsed_payload(bytes@));
        }
        Ok(Packet { header: PacketHeader { header_type, payload_length, checksum }, payload })
    }
}

/// The byte sequence `wrap_packet` produces for a packet.
pub open spec fn wrap_spec(p: Packet) -> Seq<u8> {
    seq![header_byte(p.header.header_type)] + spec_u32_to_le_bytes(p.header.payload_length)
        + spec_u32_to_le_bytes(p.header.checksum) + p.payload@
}

/// The byte sequence that encodes `payload` under header type `h`.
pub open spec fn encode_spec(h: HeaderType, payload: Seq<u8>) -> Seq<u8> {
    seq![header_byte(h)] + spec_u32_to_le_bytes(payload.len() as u32)
        + spec_u32_to_le_bytes(checksum_spec(payload)) + payload
}

/// Enough bytes for a header, and a known type byte.
pub open spec fn header_well_formed(bytes: Seq<u8>) -> bool {
    bytes.len() >= HEADER_SIZE && header_from_byte(bytes[0]) is Some
}

/// The payload length the header declares.
pub open spec fn declared_length(bytes: Seq<u8>) -> u32 {
    spec_u32_from_le_bytes(bytes.subrange(1, 5))
}

/// The checksum the header claims for the payload.
pub open spec fn declared_checksum(bytes: Seq<u8>) -> u32 {
    spec_u32_from_le_bytes(bytes.subrange(5, 9))
}

/// The buffer decodes to a packet: well-formed header, and the declared
/// payload fits in the bytes that arrived.
pub open spec fn parse_ok(bytes: Seq<u8>) -> bool {
    header_well_formed(bytes) && HEADER_SIZE + declared_length(bytes) <= bytes.len()
}

/// The payload bytes the buffer carries.
pub open spec fn parsed_payload(bytes: Seq<u8>) -> Seq<u8> {
    bytes.subrange(HEADER_SIZE as int, HEADER_SIZE + declared_length(bytes))
}

/// Round trip: the encoding of any payload under any header type decodes
/// again, to the same header type, the payload's true length and checksum,
/// and the same payload bytes.
pub proof fn lemma_encode_decode_round_trip(h: HeaderType, payload: Seq<u8>)
    requires
        payload.len() <= u32::MAX,
    ensures
        parse_ok(encode_spec(h, payload)),
        header_from_byte(encode_spec(h, payload)[0]) == Some(h),
        declared_length(encode_spec(h, payload)) == payload.len(),
        declared_checksum(encode_spec(h, payload)) == checksum_spec(payload),
        parsed_payload(encode_spec(h, payload)) == payload,
{
    let s = encode_spec(h, payload);
    lemma_auto_spec_u32_to_from_le_bytes();
    crate::header::lemma_header_byte_round_trip(h);
    assert(s[0] == header_byte(h));
    assert(s.subrange(1, 5) =~= spec_u32_to_le_bytes(payload.len() as u32));
    assert(s.subrange(5, 9) =~= spec_u32_to_le_bytes(checksum_spec(payload)));
    assert(declared_length(s) == payload.len() as u32);
    assert(parsed_payload(s) =~= payload);
}

/// The same round trip for a built packet: wrapping and parsing give the
/// packet's own header fields and payload back.
pub proof fn lemma_wrap_parse_round_trip(p: Packet)
    requires
        p.header.payload_length == p.payload@.len(),
    ensures
        parse_ok(wrap_spec(p)),
        header_from_byte(wrap_spec(p)[0]) == Some(p.header.header_type),
        declared_length(wrap_spec(p)) == p.header.payload_length,
        declared_checksum(wrap_spec(p)) == p.header.checksum,
        parsed_payload(wrap_spec(p)) == p.payload@,
{
    let s = wrap_spec(p);
    lemma_auto_spec_u32_to_from_le_bytes();
    crate::header::lemma_header_byte_round_trip(p.header.header_type);
    assert(s[0] == header_byte(p.header.header_type));
    assert(s.subrange(1, 5) =~= spec_u32_to_le_bytes(p.header.payload_length));
    assert(s.subrange(5, 9) =~= spec_u32_to_le_bytes(p.header.checksum));
    assert(parsed_payload(s) =~= p.payload@);
}

} // verus!
