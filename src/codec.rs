//! Decoding of the raw network-layer fields that accompany a received message:
//! source and destination addresses, and the opcode that prefixes a payload.
use vstd::prelude::*;

verus! {

/// Why a raw wire field could not be decoded.
#[derive(Debug, Clone, Copy, PartialEq, Eq, Structural)]
pub enum DecodeError {
    /// Fewer bytes than the field needs.
    Truncated,
    /// The destination arrived in a wire shape that is neither bytes nor a 16-bit integer.
    UnsupportedFieldType,
    /// The value lies outside the address range it was expected in.
    InvalidAddress,
}

/// An address in the unicast range `1..=0x7FFF`.
#[derive(Debug, Clone, Copy, PartialEq, Eq, Structural)]
pub struct UnicastAddress {
    raw: u16,
}

/// A mesh address, classified by the bit pattern of its 16-bit value.
#[derive(Debug, Clone, Copy, PartialEq, Eq, Structural)]
pub enum Address {
    Unassigned,
    Unicast(UnicastAddress),
    /// A virtual address, given by the 16-bit hash of its label.
    Virtual(u16),
    Group(u16),
}

/// An opcode of one, two or three octets.
#[derive(Debug, Clone, Copy, PartialEq, Eq, Structural)]
pub enum Opcode {
    OneOctet(u8),
    TwoOctet(u8, u8),
    ThreeOctet(u8, u8, u8),
}

/// The destination field as it arrives from the daemon: either a byte
/// sequence or a 16-bit integer; anything else is kept as `Other`.
#[derive(Debug, Clone, PartialEq, Eq)]
pub enum DestinationField {
    Bytes(Vec<u8>),
    U16(u16),
    Other,
}

pub open spec fn is_unicast(raw: u16) -> bool {
    1 <= raw <= 0x7FFF
}

impl UnicastAddress {
    pub closed spec fn raw_spec(self) -> u16 {
        self.raw
    }

    #[verifier::type_invariant]
    spec fn inv(self) -> bool {
        is_unicast(self.raw)
    }

    /// The 16-bit value of the address, always in the unicast range.
    pub fn raw(&self) -> (r: u16)
        ensures
            r == self.raw_spec(),
            is_unicast(r),
    {
        proof {
            use_type_invariant(self);
        }
        self.raw
    }
}

/// The address that a 16-bit value denotes.
pub open spec fn address_of(raw: u16) -> Address {
    if raw == 0 {
        Address::Unassigned
    } else if raw < 0x8000 {
        Address::Unicast(unicast_spec(raw))
    } else if raw < 0xC000 {
        Address::Virtual(raw)
    } else {
        Address::Group(raw)
    }
}

pub closed spec fn unicast_spec(raw: u16) -> UnicastAddress {
    UnicastAddress { raw }
}

/// The value of two bytes read big-endian.
pub open spec fn be_value(hi: u8, lo: u8) -> u16 {
    (hi as int * 256 + lo as int) as u16
}

/// Decodes a unicast address from its raw 16-bit value.
pub fn unicast_from_raw(raw: u16) -> (r: Result<UnicastAddress, DecodeError>)
    ensures
        is_unicast(raw) <==> r is Ok,
        r is Ok ==> r->Ok_0 == unicast_spec(raw) && r->Ok_0.raw_spec() == raw,
        !is_unicast(raw) ==> r == Err::<UnicastAddress, DecodeError>(DecodeError::InvalidAddress),
{
    if raw != 0 && raw <= 0x7FFF {
        Ok(UnicastAddress { raw })
    } else {
        Err(DecodeError::InvalidAddress)
    }
}

/// Classifies a 16-bit address value.
pub fn address_from_raw(raw: u16) -> (r: Address)
    ensures
        r == address_of(raw),
{
    if raw == 0 {
        Address::Unassigned
    } else if raw < 0x8000 {
        Address::Unicast(UnicastAddress { raw })
    } else if raw < 0xC000 {
        Address::Virtual(raw)
    } else {
        Address::Group(raw)
    }
}

/// Decodes an address from two bytes in network (big-endian) order.
pub fn parse_address(bytes: [u8; 2]) -> (r: Address)
    ensures
        r == address_of(be_value(bytes@[0], bytes@[1])),
{
    let raw: u16 = bytes[0] as u16 * 256 + bytes[1] as u16;
    address_from_raw(raw)
}

/// What the destination field decodes to.
pub open spec fn destination_spec(field: DestinationField) -> Result<Address, DecodeError> {
    match field {
        DestinationField::Bytes(b) => if b@.len() >= 2 {
            Ok(address_of(be_value(b@[0], b@[1])))
        } else {
            Err(DecodeError::Truncated)
        },
        DestinationField::U16(v) => Ok(address_of(v)),
        DestinationField::Other => Err(DecodeError::UnsupportedFieldType),
    }
}

/// Decodes the destination field of a received message. A byte sequence is
/// read from its first two bytes, big-endian; a 16-bit integer is taken as is.
pub fn parse_destination(field: &DestinationField) -> (r: Result<Address, DecodeError>)
    ensures
        r == destination_spec(*field),
{
    match field {
        DestinationField::Bytes(b) => {
            if b.len() >= 2 {
                Ok(parse_address([b[0], b[1]]))
            } else {
                Err(DecodeError::Truncated)
            }
        },
        DestinationField::U16(v) => Ok(address_from_raw(*v)),
        DestinationField::Other => Err(DecodeError::UnsupportedFieldType),
    }
}

/// The number of octets of an opcode whose first octet is `b`.
pub open spec fn opcode_width(b: u8) -> nat {
    if b < 0x80 {
        1
    } else if b < 0xC0 {
        2
    } else {
        3
    }
}

/// The octets of an opcode, in wire order.
pub open spec fn opcode_bytes(op: Opcode) -> Seq<u8> {
    match op {
        Opcode::OneOctet(a) => seq![a],
        Opcode::TwoOctet(a, b) => seq![a, b],
        Opcode::ThreeOctet(a, b, c) => seq![a, b, c],
    }
}

/// The opcode made of the first octets of `data`, whose width the first octet gives.
pub open spec fn opcode_of(data: Seq<u8>) -> Opcode {
    let w = opcode_width(data[0]);
    if w == 1 {
        Opcode::OneOctet(data[0])
    } else if w == 2 {
        Opcode::TwoOctet(data[0], data[1])
    } else {
        Opcode::ThreeOctet(data[0], data[1], data[2])
    }
}

/// Whether `data` holds a whole opcode.
pub open spec fn holds_opcode(data: Seq<u8>) -> bool {
    data.len() >= 1 && data.len() >= opcode_width(data[0])
}

/// The octets of an opcode.
pub fn emit_opcode(op: Opcode) -> (r: Vec<u8>)
    ensures
        r@ == opcode_bytes(op),
{
    match op {
        Opcode::OneOctet(a) => vec![a],
        Opcode::TwoOctet(a, b) => vec![a, b],
        Opcode::ThreeOctet(a, b, c) => vec![a, b, c],
    }
}

/// Splits a payload into its opcode and the parameters that follow it.
pub fn split_opcode(data: &[u8]) -> (r: Result<(Opcode, Vec<u8>), DecodeError>)
    ensures
        holds_opcode(data@) <==> r is Ok,
        !holds_opcode(data@) ==> r == Err::<(Opcode, Vec<u8>), DecodeError>(DecodeError::Truncated),
        r is Ok ==> r->Ok_0.0 == opcode_of(data@)
            && r->Ok_0.1@ == data@.subrange(opcode_width(data@[0]) as int, data@.len() as int),
{
    if data.len() == 0 {
        return Err(DecodeError::Truncated);
    }
    let first = data[0];
    let width: usize = if first < 0x80 {
        1
    } else if first < 0xC0 {
        2
    } else {
        3
    };
    if data.len() < width {
        return Err(DecodeError::Truncated);
    }
    let op = if width == 1 {
        Opcode::OneOctet(first)
    } else if width == 2 {
        Opcode::TwoOctet(first, data[1])
    } else {
        Opcode::ThreeOctet(first, data[1], data[2])
    };
    let mut params: Vec<u8> = Vec::new();
    let mut i: usize = width;
    while i < data.len()
        invariant
            width <= i <= data.len(),
            params@ == data@.subrange(width as int, i as int),
        decreases data.len() - i,
    {
        params.push(data[i]);
        i = i + 1;
        assert(params@ =~= data@.subrange(width as int, i as int));
    }
    Ok((op, params))
}

/// Both encodings of a destination, two big-endian bytes and a 16-bit integer,
/// decode to the same address when they carry the same value.
pub proof fn lemma_destination_encodings_agree(b: Vec<u8>, v: u16)
    requires
        b@.len() == 2,
        be_value(b@[0], b@[1]) == v,
    ensures
        destination_spec(DestinationField::Bytes(b)) == destination_spec(DestinationField::U16(v)),
        destination_spec(DestinationField::U16(v)) is Ok,
{
}

/// A payload shorter than the width its first octet announces is refused as
/// truncated; a longer one splits into an opcode and parameters whose octets,
/// put back together, are the payload.
pub proof fn lemma_split_opcode_round_trip(data: Seq<u8>)
    ensures
        holds_opcode(data) ==> opcode_bytes(opcode_of(data)) + data.subrange(
            opcode_width(data[0]) as int,
            data.len() as int,
        ) == data,
{
    if holds_opcode(data) {
        let w = opcode_width(data[0]);
        let rest = data.subrange(w as int, data.len() as int);
        assert(opcode_bytes(opcode_of(data)) =~= data.subrange(0, w as int));
        assert(data.subrange(0, w as int) + rest =~= data);
    }
}

/// Every value in the unicast range is accepted and keeps its raw value;
/// every other value is refused.
pub proof fn lemma_unicast_range(raw: u16)
    ensures
        is_unicast(raw) ==> address_of(raw) == Address::Unicast(unicast_spec(raw))
            && unicast_spec(raw).raw_spec() == raw,
        !is_unicast(raw) ==> !(address_of(raw) is Unicast),
{
}

} // verus!
