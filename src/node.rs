//! The node handle: framing of outbound messages into a bounded buffer, and
//! the arguments of the daemon's "Publish" and "Send" calls.
use vstd::prelude::*;

use crate::codec::{emit_opcode, opcode_bytes, Opcode};
use crate::element::ModelIdentifier;

verus! {

/// The capacity of the buffer an outbound message is framed in.
pub const FRAME_CAPACITY: usize = 384;

#[verifier::external_type_specification]
#[verifier::external_body]
#[verifier::reject_recursive_types(T)]
pub struct ExBoundedVec<T, const N: usize>(heapless::Vec<T, N>);

/// The bytes held by a bounded frame buffer.
pub uninterp spec fn frame_contents(v: heapless::Vec<u8, 384>) -> Seq<u8>;

/// Relies on `heapless::Vec::new`: an empty buffer.
#[verifier::external_body]
fn frame_new() -> (r: heapless::Vec<u8, 384>)
    ensures
        frame_contents(r) == Seq::<u8>::empty(),
{
    heapless::Vec::new()
}

/// Relies on `heapless::Vec::extend_from_slice`: when the bytes fit in the
/// capacity they are appended; otherwise the buffer is left as it was and an
/// error returned.
#[verifier::external_body]
fn frame_extend(buf: &mut heapless::Vec<u8, 384>, bytes: &[u8]) -> (r: Result<(), ()>)
    ensures
        frame_contents(*old(buf)).len() + bytes@.len() <= 384 ==> r is Ok && frame_contents(
            *final(buf),
        ) == frame_contents(*old(buf)) + bytes@,
        frame_contents(*old(buf)).len() + bytes@.len() > 384 ==> r is Err && frame_contents(
            *final(buf),
        ) == frame_contents(*old(buf)),
{
    buf.extend_from_slice(bytes)
}

/// Relies on `heapless::Vec::as_slice`: the bytes held, in order.
#[verifier::external_body]
fn frame_bytes(buf: &heapless::Vec<u8, 384>) -> (r: Vec<u8>)
    ensures
        r@ == frame_contents(*buf),
{
    buf.as_slice().to_vec()
}

/// Why an outbound message could not be prepared.
#[derive(Debug, Clone, Copy, PartialEq, Eq, Structural)]
pub enum SendError {
    /// The opcode and parameters do not fit in the frame buffer.
    TooLarge,
}

/// Whether a message with this opcode and parameters fits in a frame.
pub open spec fn fits_frame(opcode: Opcode, parameters: Seq<u8>) -> bool {
    opcode_bytes(opcode).len() + parameters.len() <= FRAME_CAPACITY
}

/// Frames a message: its opcode octets followed by its parameters, refused
/// when that exceeds the frame capacity.
pub fn encode_message(opcode: Opcode, parameters: &[u8]) -> (r: Result<Vec<u8>, SendError>)
    ensures
        r is Ok <==> fits_frame(opcode, parameters@),
        r is Ok ==> r->Ok_0@ == opcode_bytes(opcode) + parameters@,
        r is Err ==> r == Err::<Vec<u8>, SendError>(SendError::TooLarge),
{
    let mut buf = frame_new();
    let op = emit_opcode(opcode);
    match frame_extend(&mut buf, op.as_slice()) {
        Ok(()) => {},
        Err(()) => return Err(SendError::TooLarge),
    }
    match frame_extend(&mut buf, parameters) {
        Ok(()) => {},
        Err(()) => return Err(SendError::TooLarge),
    }
    Ok(frame_bytes(&buf))
}

/// The numeric identifier under which the daemon knows a model: the SIG
/// model number, or a vendor model's own number.
pub open spec fn model_number(model: ModelIdentifier) -> u16 {
    match model {
        ModelIdentifier::SIG(id) => id,
        ModelIdentifier::Vendor(_, id) => id,
    }
}

pub fn model_id(model: ModelIdentifier) -> (r: u16)
    ensures
        r == model_number(model),
{
    match model {
        ModelIdentifier::SIG(id) => id,
        ModelIdentifier::Vendor(_, id) => id,
    }
}

/// The arguments of a "Publish" call: the daemon picks the destination and
/// application key from the model's publication settings.
#[derive(Debug, Clone)]
pub struct PublishRequest {
    pub element_path: String,
    pub model_id: u16,
    pub data: Vec<u8>,
}

/// The arguments of a "Send" call, with an explicit destination and
/// application key index.
#[derive(Debug, Clone)]
pub struct SendRequest {
    pub element_path: String,
    pub destination: u16,
    pub app_key: u16,
    pub data: Vec<u8>,
}

/// A node of the mesh network, known to the daemon by its object path.
pub struct Node {
    path: String,
}

impl Node {
    pub closed spec fn path_spec(&self) -> Seq<char> {
        self.path@
    }

    pub fn new(path: String) -> (r: Self)
        ensures
            r.path_spec() == path@,
    {
        Node { path }
    }

    /// The node's object path.
    pub fn path(&self) -> (r: &String)
        ensures
            r@ == self.path_spec(),
    {
        &self.path
    }

    /// Prepares the publication of a message by a model of the element at
    /// `element_path`.
    pub fn publish(
        &self,
        model: ModelIdentifier,
        opcode: Opcode,
        parameters: &[u8],
        element_path: String,
    ) -> (r: Result<PublishRequest, SendError>)
        ensures
            r is Ok <==> fits_frame(opcode, parameters@),
            r is Ok ==> r->Ok_0.element_path@ == element_path@ && r->Ok_0.model_id == model_number(
                model,
            ) && r->Ok_0.data@ == opcode_bytes(opcode) + parameters@,
            r is Err ==> r == Err::<PublishRequest, SendError>(SendError::TooLarge),
    {
        let data = match encode_message(opcode, parameters) {
            Ok(d) => d,
            Err(e) => return Err(e),
        };
        Ok(PublishRequest { element_path, model_id: model_id(model), data })
    }

    /// Prepares sending a message from the element at `element_path` to
    /// `destination` under application key index `app_key`.
    pub fn send(
        &self,
        opcode: Opcode,
        parameters: &[u8],
        element_path: String,
        destination: u16,
        app_key: u16,
    ) -> (r: Result<SendRequest, SendError>)
        ensures
            r is Ok <==> fits_frame(opcode, parameters@),
            r is Ok ==> r->Ok_0.element_path@ == element_path@ && r->Ok_0.destination == destination
                && r->Ok_0.app_key == app_key && r->Ok_0.data@ == opcode_bytes(opcode) + parameters@,
            r is Err ==> r == Err::<SendRequest, SendError>(SendError::TooLarge),
    {
        let data = match encode_message(opcode, parameters) {
            Ok(d) => d,
            Err(e) => return Err(e),
        };
        Ok(SendRequest { element_path, destination, app_key, data })
    }
}

} // verus!
