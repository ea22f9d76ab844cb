use bluer_mesh::application::{Application, ApplicationMessage};
use bluer_mesh::bridge::{EventBridge, SendFailure};
use bluer_mesh::codec::{unicast_from_raw, Address, DecodeError, DestinationField, Opcode};
use bluer_mesh::element::{
    element_control, register_elements, Element, ModelIdentifier, NotRegistered, ReceiveError,
    RegisteredElement,
};

fn element(control: bool) -> Element {
    Element {
        path: String::from("/mesh/app/ele00"),
        location: Some(7),
        models: vec![
            ModelIdentifier::SIG(0x1000),
            ModelIdentifier::Vendor(0x05F1, 0x0001),
            ModelIdentifier::SIG(0x1100),
            ModelIdentifier::SIG(0x1000),
        ],
        control_handle: if control { Some(element_control()) } else { None },
    }
}

#[test]
fn second_message_refused_without_consumer() {
    let mut reg = RegisteredElement::new(element(true), 0);
    let dest = DestinationField::U16(0x0003);
    assert_eq!(reg.message_received(3, 0, &dest, &[0x82, 0x01]), Ok(()));
    assert_eq!(
        reg.message_received(3, 0, &dest, &[0x82, 0x02]),
        Err(ReceiveError::Delivery(SendFailure::Full))
    );
    let m = reg.poll_message().unwrap();
    assert_eq!(m.opcode, Opcode::TwoOctet(0x82, 0x01));
    assert!(reg.poll_message().is_none());
}

#[test]
fn polling_consumer_observes_each_message() {
    let mut reg = RegisteredElement::new(element(true), 2);
    let dest = DestinationField::Bytes(vec![0xC0, 0x10]);
    for i in 0u8..3 {
        assert_eq!(reg.message_received(0x0042, 0x0105, &dest, &[0x05, i, 0xEE]), Ok(()));
        let m = reg.poll_message().unwrap();
        assert_eq!(m.index, 2);
        assert_eq!(m.location, Some(7));
        assert_eq!(m.key, 0x05);
        assert_eq!(m.src.raw(), 0x0042);
        assert_eq!(m.dest, Address::Group(0xC010));
        assert_eq!(m.opcode, Opcode::OneOctet(0x05));
        assert_eq!(m.parameters, vec![i, 0xEE]);
    }
}

#[test]
fn one_element_scenario() {
    let app = Application {
        path: String::from("/mesh/app"),
        elements: vec![element(true)],
        provisioner: None,
    };
    let mut reg = app.register();
    assert_eq!(reg.elements.len(), 1);
    let e = &mut reg.elements[0];
    assert_eq!(e.index(), 0);
    assert_eq!(e.message_received(0x0003, 0, &DestinationField::U16(0x0003), &[0x82, 0x01]), Ok(()));
    let m = e.poll_message().unwrap();
    assert_eq!(m.src, unicast_from_raw(3).unwrap());
    assert_eq!(m.dest, Address::Unicast(unicast_from_raw(3).unwrap()));
    assert_eq!(m.opcode, Opcode::TwoOctet(0x82, 0x01));
    assert!(m.parameters.is_empty());
}

#[test]
fn message_without_control_is_dropped() {
    let mut reg = RegisteredElement::new(element(false), 0);
    assert_eq!(reg.message_received(3, 0, &DestinationField::U16(1), &[0x01]), Ok(()));
    assert!(reg.poll_message().is_none());
}

#[test]
fn message_decode_errors() {
    let mut reg = RegisteredElement::new(element(true), 0);
    let ok_dest = DestinationField::U16(1);
    assert_eq!(
        reg.message_received(0x8000, 0, &ok_dest, &[0x01]),
        Err(ReceiveError::Decode(DecodeError::InvalidAddress))
    );
    assert_eq!(
        reg.message_received(0, 0, &DestinationField::Other, &[0x01]),
        Err(ReceiveError::Decode(DecodeError::InvalidAddress))
    );
    assert_eq!(
        reg.message_received(1, 0, &DestinationField::Other, &[0x01]),
        Err(ReceiveError::Decode(DecodeError::UnsupportedFieldType))
    );
    assert_eq!(
        reg.message_received(1, 0, &DestinationField::Bytes(vec![1]), &[0x01]),
        Err(ReceiveError::Decode(DecodeError::Truncated))
    );
    assert_eq!(
        reg.message_received(1, 0, &ok_dest, &[0xC0, 0x01]),
        Err(ReceiveError::Decode(DecodeError::Truncated))
    );
    assert_eq!(reg.message_received(1, 0, &ok_dest, &[]), Err(ReceiveError::Decode(DecodeError::Truncated)));
    assert!(reg.poll_message().is_none());
}

#[test]
fn closed_consumer_refuses() {
    let mut control = element_control();
    control.close();
    let mut e = element(false);
    e.control_handle = Some(control);
    let mut reg = RegisteredElement::new(e, 0);
    assert_eq!(
        reg.message_received(1, 0, &DestinationField::U16(1), &[0x01]),
        Err(ReceiveError::Delivery(SendFailure::Closed))
    );
}

#[test]
fn assigned_address_reads() {
    let mut control = element_control();
    assert_eq!(control.handle(), Err(NotRegistered));
    assert_eq!(control.handle(), Err(NotRegistered));
    let a = unicast_from_raw(0x0100).unwrap();
    control.assign(a);
    assert_eq!(control.handle(), Ok(a));
    assert_eq!(control.handle(), Ok(a));
    assert!(control.poll_next().is_none());
    assert_eq!(control.handle().unwrap().raw(), 0x0100);
}

#[test]
fn model_properties_partition() {
    let reg = RegisteredElement::new(element(false), 0);
    assert_eq!(reg.models(), vec![0x1000, 0x1100, 0x1000]);
    assert_eq!(reg.vendor_models(), vec![(0x05F1, 0x0001)]);
    assert_eq!(reg.location(), Some(7));
}

#[test]
fn elements_indexed_in_order() {
    let mut a = element(false);
    a.path = String::from("/a");
    let mut b = element(false);
    b.path = String::from("/b");
    b.location = None;
    let regs = register_elements(vec![a, b]);
    assert_eq!(regs.len(), 2);
    assert_eq!(regs[0].index(), 0);
    assert_eq!(regs[0].element().path, "/a");
    assert_eq!(regs[1].index(), 1);
    assert_eq!(regs[1].element().path, "/b");
    assert_eq!(regs[1].location(), None);
}

#[test]
fn bridge_capacity_one() {
    let mut b: EventBridge<u32> = EventBridge::new();
    assert_eq!(b.try_send(1), Ok(()));
    assert_eq!(b.try_send(2), Err(SendFailure::Full));
    assert_eq!(b.poll_next(), Some(1));
    assert_eq!(b.poll_next(), None);
    assert_eq!(b.try_send(3), Ok(()));
    b.close();
    assert!(!b.is_open());
    assert_eq!(b.poll_next(), None);
    assert_eq!(b.try_send(4), Err(SendFailure::Closed));
}

#[test]
fn application_join_events() {
    let app = Application { path: String::from("/mesh/app"), elements: vec![], provisioner: None };
    let mut reg = app.register();
    assert_eq!(reg.join_complete(0xDEAD_BEEF), Ok(()));
    assert_eq!(reg.join_failed(String::from("timeout")), Err(SendFailure::Full));
    match reg.next_event() {
        Some(ApplicationMessage::JoinComplete(t)) => assert_eq!(t, 0xDEAD_BEEF),
        other => panic!("unexpected event {:?}", other),
    }
    assert_eq!(reg.join_failed(String::from("timeout")), Ok(()));
    match reg.next_event() {
        Some(ApplicationMessage::JoinFailed(r)) => assert_eq!(r, "timeout"),
        other => panic!("unexpected event {:?}", other),
    }
    assert!(reg.next_event().is_none());
}
