//! Elements: their registration under a daemon-assigned index, the properties
//! they expose, and the dispatch of inbound messages to their control channel.
use vstd::prelude::*;

use crate::bridge::{offer_spec, take_spec, BridgeState, EventBridge, SendFailure};
use crate::codec::{
    destination_spec, holds_opcode, is_unicast, opcode_of, opcode_width, parse_destination,
    split_opcode, unicast_from_raw, unicast_spec, Address, DecodeError, DestinationField, Opcode,
    UnicastAddress,
};

verus! {

/// The element's address was read before the daemon assigned one.
#[derive(Debug, Clone, Copy, PartialEq, Eq, Structural)]
pub struct NotRegistered;

/// The identifier of a model: a SIG model number, or a vendor's company
/// identifier and model number.
#[derive(Debug, Clone, Copy, PartialEq, Eq, Structural)]
pub enum ModelIdentifier {
    SIG(u16),
    Vendor(u16, u16),
}

/// A message received for an element, decoded from its wire fields.
#[derive(Debug, Clone)]
pub struct ElementMessage {
    /// Index of the element that received it.
    pub index: u8,
    /// Location of that element.
    pub location: Option<u16>,
    /// Application key identifier: the low byte of the key index.
    pub key: u8,
    /// Message source.
    pub src: UnicastAddress,
    /// Message destination.
    pub dest: Address,
    /// Message opcode.
    pub opcode: Opcode,
    /// Parameters that follow the opcode.
    pub parameters: Vec<u8>,
}

/// Why a received message was not delivered.
#[derive(Debug, Clone, Copy, PartialEq, Eq, Structural)]
pub enum ReceiveError {
    /// A wire field was malformed.
    Decode(DecodeError),
    /// The consumer's slot was full, or the consumer has gone away.
    Delivery(SendFailure),
}

/// The abstract state of an element's control channel.
pub struct ControlState {
    pub assigned: Option<UnicastAddress>,
    pub messages: BridgeState<ElementMessage>,
}

/// The control channel of an element: the address the daemon assigned to it,
/// once it has, and a single-slot bridge of the messages it receives.
pub struct ElementControl {
    assigned: Option<UnicastAddress>,
    messages: EventBridge<ElementMessage>,
}

impl View for ElementControl {
    type V = ControlState;

    closed spec fn view(&self) -> ControlState {
        ControlState { assigned: self.assigned, messages: self.messages@ }
    }
}

/// What reading the assigned address gives in state `s`.
pub open spec fn handle_spec(s: ControlState) -> Result<UnicastAddress, NotRegistered> {
    match s.assigned {
        Some(a) => Ok(a),
        None => Err(NotRegistered),
    }
}

/// The state after the daemon assigns `a`.
pub open spec fn assign_spec(s: ControlState, a: UnicastAddress) -> ControlState {
    ControlState { assigned: Some(a), messages: s.messages }
}

/// The state after a message is offered.
pub open spec fn control_offer_spec(s: ControlState, m: ElementMessage) -> ControlState {
    ControlState { assigned: s.assigned, messages: offer_spec(s.messages, m).0 }
}

/// The state after the consumer takes a message.
pub open spec fn control_take_spec(s: ControlState) -> ControlState {
    ControlState { assigned: s.assigned, messages: take_spec(s.messages).0 }
}

/// Creates the control channel of an element: no address yet, nothing pending.
pub fn element_control() -> (r: ElementControl)
    ensures
        r@.assigned is None,
        r@.messages.pending is None,
        r@.messages.open,
{
    ElementControl { assigned: None, messages: EventBridge::new() }
}

impl ElementControl {
    /// The address assigned to the element, or `NotRegistered` before any
    /// assignment. Never waits.
    pub fn handle(&self) -> (r: Result<UnicastAddress, NotRegistered>)
        ensures
            r == handle_spec(self@),
    {
        match self.assigned {
            Some(a) => Ok(a),
            None => Err(NotRegistered),
        }
    }

    /// Records the address the daemon assigned to the element.
    pub fn assign(&mut self, address: UnicastAddress)
        ensures
            final(self)@ == assign_spec(old(self)@, address),
    {
        self.assigned = Some(address);
    }

    /// Offers a message to the consumer without waiting.
    pub fn try_send(&mut self, message: ElementMessage) -> (r: Result<(), SendFailure>)
        ensures
            final(self)@ == control_offer_spec(old(self)@, message),
            r == offer_spec(old(self)@.messages, message).1,
    {
        self.messages.try_send(message)
    }

    /// Takes the pending message, if any.
    pub fn poll_next(&mut self) -> (r: Option<ElementMessage>)
        ensures
            final(self)@ == control_take_spec(old(self)@),
            r == take_spec(old(self)@.messages).1,
    {
        self.messages.poll_next()
    }

    /// The consumer goes away; later messages are refused.
    pub fn close(&mut self)
        ensures
            final(self)@.assigned == old(self)@.assigned,
            final(self)@.messages.pending is None,
            !final(self)@.messages.open,
    {
        self.messages.close()
    }
}

/// Reading the address before any assignment gives `NotRegistered`; after an
/// assignment it gives the assigned value, also after any later traffic of
/// messages through the channel.
pub proof fn lemma_assigned_address_reads(s: ControlState, a: UnicastAddress, m: ElementMessage)
    requires
        s.assigned is None,
    ensures
        handle_spec(s) == Err::<UnicastAddress, NotRegistered>(NotRegistered),
        handle_spec(assign_spec(s, a)) == Ok::<UnicastAddress, NotRegistered>(a),
        handle_spec(control_offer_spec(assign_spec(s, a), m)) == Ok::<UnicastAddress, NotRegistered>(a),
        handle_spec(control_take_spec(assign_spec(s, a))) == Ok::<UnicastAddress, NotRegistered>(a),
{
}

/// A mesh element: its object path, optional location, the models it hosts in
/// declaration order, and its control channel if the application wants its
/// messages.
pub struct Element {
    pub path: String,
    pub location: Option<u16>,
    pub models: Vec<ModelIdentifier>,
    pub control_handle: Option<ElementControl>,
}

/// The SIG model numbers among `models`, in order.
pub open spec fn sig_ids(models: Seq<ModelIdentifier>) -> Seq<u16>
    decreases models.len(),
{
    if models.len() == 0 {
        Seq::empty()
    } else {
        let rest = sig_ids(models.drop_last());
        match models.last() {
            ModelIdentifier::SIG(id) => rest.push(id),
            ModelIdentifier::Vendor(_, _) => rest,
        }
    }
}

/// The (company, model) pairs of the vendor models among `models`, in order.
pub open spec fn vendor_ids(models: Seq<ModelIdentifier>) -> Seq<(u16, u16)>
    decreases models.len(),
{
    if models.len() == 0 {
        Seq::empty()
    } else {
        let rest = vendor_ids(models.drop_last());
        match models.last() {
            ModelIdentifier::SIG(_) => rest,
            ModelIdentifier::Vendor(vid, id) => rest.push((vid, id)),
        }
    }
}

/// The first decoding failure among the fields of a received message, taken
/// in the order source, destination, payload.
pub open spec fn receive_error_spec(source: u16, destination: DestinationField, data: Seq<u8>) -> Option<DecodeError> {
    if !is_unicast(source) {
        Some(DecodeError::InvalidAddress)
    } else if destination_spec(destination) is Err {
        Some(destination_spec(destination)->Err_0)
    } else if !holds_opcode(data) {
        Some(DecodeError::Truncated)
    } else {
        None
    }
}

/// Whether `m` is the message decoded from these fields for the element with
/// this index and location.
pub open spec fn is_decoded_message(
    m: ElementMessage,
    index: u8,
    location: Option<u16>,
    source: u16,
    key_index: u16,
    destination: DestinationField,
    data: Seq<u8>,
) -> bool {
    &&& m.index == index
    &&& m.location == location
    &&& m.key == (key_index % 256) as u8
    &&& m.src == unicast_spec(source)
    &&& destination_spec(destination) == Ok::<Address, DecodeError>(m.dest)
    &&& m.opcode == opcode_of(data)
    &&& m.parameters@ == data.subrange(opcode_width(data[0]) as int, data.len() as int)
}

/// An element that has been registered with the daemon under an index.
pub struct RegisteredElement {
    element: Element,
    index: u8,
}

impl RegisteredElement {
    pub closed spec fn element_spec(&self) -> Element {
        self.element
    }

    pub closed spec fn index_spec(&self) -> u8 {
        self.index
    }

    pub fn new(element: Element, index: u8) -> (r: Self)
        ensures
            r.element_spec() == element,
            r.index_spec() == index,
    {
        RegisteredElement { element, index }
    }

    /// The element's index.
    pub fn index(&self) -> (r: u8)
        ensures
            r == self.index_spec(),
    {
        self.index
    }

    /// The element's location.
    pub fn location(&self) -> (r: Option<u16>)
        ensures
            r == self.element_spec().location,
    {
        self.element.location
    }

    /// The element as it was registered.
    pub fn element(&self) -> (r: &Element)
        ensures
            *r == self.element_spec(),
    {
        &self.element
    }

    /// The SIG models of the element, in declaration order, duplicates kept.
    pub fn models(&self) -> (r: Vec<u16>)
        ensures
            r@ == sig_ids(self.element_spec().models@),
    {
        let models = &self.element.models;
        let mut r: Vec<u16> = Vec::new();
        let mut i: usize = 0;
        while i < models.len()
            invariant
                i <= models@.len(),
                r@ == sig_ids(models@.subrange(0, i as int)),
            decreases models.len() - i,
        {
            assert(models@.subrange(0, i + 1).drop_last() =~= models@.subrange(0, i as int));
            match models[i] {
                ModelIdentifier::SIG(id) => r.push(id),
                ModelIdentifier::Vendor(_, _) => {},
            }
            i = i + 1;
        }
        assert(models@.subrange(0, i as int) =~= models@);
        r
    }

    /// The vendor models of the element, in declaration order, duplicates kept.
    pub fn vendor_models(&self) -> (r: Vec<(u16, u16)>)
        ensures
            r@ == vendor_ids(self.element_spec().models@),
    {
        let models = &self.element.models;
        let mut r: Vec<(u16, u16)> = Vec::new();
        let mut i: usize = 0;
        while i < models.len()
            invariant
                i <= models@.len(),
                r@ == vendor_ids(models@.subrange(0, i as int)),
            decreases models.len() - i,
        {
            assert(models@.subrange(0, i + 1).drop_last() =~= models@.subrange(0, i as int));
            match models[i] {
                ModelIdentifier::SIG(_) => {},
                ModelIdentifier::Vendor(vid, id) => r.push((vid, id)),
            }
            i = i + 1;
        }
        assert(models@.subrange(0, i as int) =~= models@);
        r
    }

    /// Takes the message pending on the element's control channel, if the
    /// element has one and a message waits.
    pub fn poll_message(&mut self) -> (r: Option<ElementMessage>)
        ensures
            final(self).index_spec() == old(self).index_spec(),
            final(self).element_spec().path == old(self).element_spec().path,
            final(self).element_spec().location == old(self).element_spec().location,
            final(self).element_spec().models == old(self).element_spec().models,
            match old(self).element_spec().control_handle {
                None => r is None && final(self).element_spec().control_handle is None,
                Some(c) => final(self).element_spec().control_handle is Some
                    && final(self).element_spec().control_handle->Some_0@ == control_take_spec(c@)
                    && r == take_spec(c@.messages).1,
            },
    {
        match &mut self.element.control_handle {
            Some(c) => c.poll_next(),
            None => None,
        }
    }

    /// Handles a message the daemon delivers to this element. The source must
    /// be a unicast address, the destination must decode, and the payload must
    /// hold a whole opcode; otherwise the decoding error is returned and
    /// nothing changes. A decoded message is dropped when the element has no
    /// control channel, and otherwise offered to it without waiting: a full
    /// slot or a departed consumer is reported as a delivery error.
    pub fn message_received(
        &mut self,
        source: u16,
        key_index: u16,
        destination: &DestinationField,
        data: &[u8],
    ) -> (r: Result<(), ReceiveError>)
        ensures
            final(self).index_spec() == old(self).index_spec(),
            final(self).element_spec().path == old(self).element_spec().path,
            final(self).element_spec().location == old(self).element_spec().location,
            final(self).element_spec().models == old(self).element_spec().models,
            match receive_error_spec(source, *destination, data@) {
                Some(e) => r == Err::<(), ReceiveError>(ReceiveError::Decode(e))
                    && final(self).element_spec().control_handle == old(self).element_spec().control_handle,
                None => match old(self).element_spec().control_handle {
                    None => r is Ok && final(self).element_spec().control_handle is None,
                    Some(c) => final(self).element_spec().control_handle is Some && {
                        let n = final(self).element_spec().control_handle->Some_0@;
                        &&& n.assigned == c@.assigned
                        &&& !c@.messages.open ==> r == Err::<(), ReceiveError>(ReceiveError::Delivery(SendFailure::Closed))
                            && n.messages == c@.messages
                        &&& c@.messages.open && c@.messages.pending is Some ==> r == Err::<(), ReceiveError>(
                            ReceiveError::Delivery(SendFailure::Full),
                        ) && n.messages == c@.messages
                        &&& c@.messages.open && c@.messages.pending is None ==> r is Ok && n.messages.open
                            && n.messages.pending is Some && is_decoded_message(
                            n.messages.pending->Some_0,
                            old(self).index_spec(),
                            old(self).element_spec().location,
                            source,
                            key_index,
                            *destination,
                            data@,
                        )
                    },
                },
            },
    {
        let key: u8 = (key_index % 256) as u8;
        let src = match unicast_from_raw(source) {
            Ok(a) => a,
            Err(e) => return Err(ReceiveError::Decode(e)),
        };
        let dest = match parse_destination(destination) {
            Ok(d) => d,
            Err(e) => return Err(ReceiveError::Decode(e)),
        };
        let (opcode, parameters) = match split_opcode(data) {
            Ok(p) => p,
            Err(e) => return Err(ReceiveError::Decode(e)),
        };
        let msg = ElementMessage {
            index: self.index,
            location: self.element.location,
            key,
            src,
            dest,
            opcode,
            parameters,
        };
        match &mut self.element.control_handle {
            Some(c) => match c.try_send(msg) {
                Ok(()) => Ok(()),
                Err(e) => Err(ReceiveError::Delivery(e)),
            },
            None => Ok(()),
        }
    }
}

/// Registers elements in declaration order: each gets its position in the
/// list as its index.
pub fn register_elements(elements: Vec<Element>) -> (r: Vec<RegisteredElement>)
    requires
        elements@.len() <= 256,
    ensures
        r@.len() == elements@.len(),
        forall|i: int|
            0 <= i < r@.len() ==> (#[trigger] r@[i]).index_spec() == i && r@[i].element_spec()
                == elements@[i],
{
    let mut rest = elements;
    let ghost orig = rest@;
    let mut r: Vec<RegisteredElement> = Vec::new();
    let mut i: usize = 0;
    while rest.len() > 0
        invariant
            i + rest@.len() == orig.len(),
            orig.len() <= 256,
            rest@ == orig.subrange(i as int, orig.len() as int),
            r@.len() == i,
            forall|j: int|
                0 <= j < i ==> (#[trigger] r@[j]).index_spec() == j && r@[j].element_spec()
                    == orig[j],
        decreases rest.len(),
    {
        let e = rest.remove(0);
        r.push(RegisteredElement::new(e, i as u8));
        i = i + 1;
        assert(rest@ =~= orig.subrange(i as int, orig.len() as int));
    }
    r
}

} // verus!
