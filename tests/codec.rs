use bluer_mesh::codec::{
    address_from_raw, emit_opcode, parse_address, parse_destination, split_opcode,
    unicast_from_raw, Address, DecodeError, DestinationField, Opcode,
};

#[test]
fn destination_encodings_agree() {
    for raw in [0u16, 1, 3, 0x7FFF, 0x8000, 0xABCD, 0xC000, 0xFFFF] {
        let bytes = raw.to_be_bytes();
        let a = parse_destination(&DestinationField::Bytes(vec![bytes[0], bytes[1]])).unwrap();
        let b = parse_destination(&DestinationField::U16(raw)).unwrap();
        assert_eq!(a, b);
    }
}

#[test]
fn destination_classification() {
    assert_eq!(parse_destination(&DestinationField::U16(0)), Ok(Address::Unassigned));
    let u = parse_destination(&DestinationField::U16(0x0003)).unwrap();
    assert_eq!(u, Address::Unicast(unicast_from_raw(3).unwrap()));
    assert_eq!(parse_destination(&DestinationField::U16(0x8001)), Ok(Address::Virtual(0x8001)));
    assert_eq!(parse_destination(&DestinationField::U16(0xC001)), Ok(Address::Group(0xC001)));
    assert_eq!(parse_destination(&DestinationField::U16(0xFFFF)), Ok(Address::Group(0xFFFF)));
    assert_eq!(parse_address([0x12, 0x34]), address_from_raw(0x1234));
}

#[test]
fn destination_malformed() {
    assert_eq!(parse_destination(&DestinationField::Other), Err(DecodeError::UnsupportedFieldType));
    assert_eq!(parse_destination(&DestinationField::Bytes(vec![0x01])), Err(DecodeError::Truncated));
    assert_eq!(parse_destination(&DestinationField::Bytes(vec![])), Err(DecodeError::Truncated));
    assert_eq!(
        parse_destination(&DestinationField::Bytes(vec![0x00, 0x05, 0x99])),
        Ok(Address::Unicast(unicast_from_raw(5).unwrap()))
    );
}

#[test]
fn unicast_range() {
    assert_eq!(unicast_from_raw(0), Err(DecodeError::InvalidAddress));
    assert_eq!(unicast_from_raw(0x8000), Err(DecodeError::InvalidAddress));
    assert_eq!(unicast_from_raw(0xFFFF), Err(DecodeError::InvalidAddress));
    for raw in [1u16, 2, 0x00BD, 0x1234, 0x7FFF] {
        assert_eq!(unicast_from_raw(raw).unwrap().raw(), raw);
    }
}

#[test]
fn split_opcode_widths() {
    assert_eq!(split_opcode(&[0x01, 0xAA, 0xBB]), Ok((Opcode::OneOctet(0x01), vec![0xAA, 0xBB])));
    assert_eq!(split_opcode(&[0x82, 0x01]), Ok((Opcode::TwoOctet(0x82, 0x01), vec![])));
    assert_eq!(split_opcode(&[0x82, 0x04, 0x07]), Ok((Opcode::TwoOctet(0x82, 0x04), vec![0x07])));
    assert_eq!(
        split_opcode(&[0xC1, 0x02, 0x03, 0x04]),
        Ok((Opcode::ThreeOctet(0xC1, 0x02, 0x03), vec![0x04]))
    );
}

#[test]
fn split_opcode_truncated() {
    assert_eq!(split_opcode(&[]), Err(DecodeError::Truncated));
    assert_eq!(split_opcode(&[0x82]), Err(DecodeError::Truncated));
    assert_eq!(split_opcode(&[0xC1, 0x02]), Err(DecodeError::Truncated));
}

#[test]
fn split_opcode_round_trip() {
    let payloads: Vec<Vec<u8>> = vec![vec![0x00], vec![0x7F, 1, 2, 3], vec![0x80, 0x00], vec![0xBF, 9, 8], vec![0xFF, 1, 2, 3, 4]];
    for p in payloads {
        let (op, params) = split_opcode(&p).unwrap();
        let mut back = emit_opcode(op);
        back.extend_from_slice(&params);
        assert_eq!(back, p);
    }
}
