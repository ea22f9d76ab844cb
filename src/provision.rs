//! The provisioning bridge: an "add node" request is recorded as outstanding,
//! and the daemon's later outcome for that device is handed to the
//! application through a single-slot bridge.
use vstd::prelude::*;

use crate::bridge::{offer_spec, take_spec, BridgeState, EventBridge, SendFailure};
use crate::codec::{is_unicast, unicast_from_raw, unicast_spec, DecodeError, UnicastAddress};

verus! {

/// An outcome of adding a node, for the device it names.
#[derive(Debug, Clone)]
pub enum ProvisionerMessage {
    AddNodeComplete { uuid: u128, unicast: UnicastAddress, element_count: u8 },
    AddNodeFailed { uuid: u128, reason: String },
}

/// Whether an "add node" request is outstanding, and for which device.
#[derive(Debug, Clone, Copy, PartialEq, Eq, Structural)]
pub enum ProvisionState {
    Idle,
    AwaitingOutcome(u128),
}

/// Why a provisioning request or outcome was refused.
#[derive(Debug, Clone, Copy, PartialEq, Eq, Structural)]
pub enum RequestError {
    /// The request failed.
    Failed,
    /// Another "add node" request is still outstanding.
    Busy,
    /// An outcome arrived for a device whose addition is not outstanding.
    Unexpected,
    /// A field of the outcome was malformed.
    Decode(DecodeError),
    /// The outcome could not be handed to the application.
    Delivery(SendFailure),
}

/// The abstract state of a provisioner.
pub struct ProvisionerState {
    pub state: ProvisionState,
    pub events: BridgeState<ProvisionerMessage>,
}

pub open spec fn delivery_result(r: Result<(), SendFailure>) -> Result<(), RequestError> {
    match r {
        Ok(()) => Ok(()),
        Err(e) => Err(RequestError::Delivery(e)),
    }
}

/// The state after asking to add device `uuid`, and the answer.
pub open spec fn add_node_spec(s: ProvisionerState, uuid: u128) -> (ProvisionerState, Result<(), RequestError>) {
    if s.state is Idle {
        (ProvisionerState { state: ProvisionState::AwaitingOutcome(uuid), events: s.events }, Ok(()))
    } else {
        (s, Err(RequestError::Busy))
    }
}

/// The state after the daemon reports that device `uuid` was added.
pub open spec fn complete_spec(s: ProvisionerState, uuid: u128, unicast: u16, element_count: u8) -> (
    ProvisionerState,
    Result<(), RequestError>,
) {
    if s.state != ProvisionState::AwaitingOutcome(uuid) {
        (s, Err(RequestError::Unexpected))
    } else if !is_unicast(unicast) {
        (
            ProvisionerState { state: ProvisionState::Idle, events: s.events },
            Err(RequestError::Decode(DecodeError::InvalidAddress)),
        )
    } else {
        let o = offer_spec(
            s.events,
            ProvisionerMessage::AddNodeComplete { uuid, unicast: unicast_spec(unicast), element_count },
        );
        (ProvisionerState { state: ProvisionState::Idle, events: o.0 }, delivery_result(o.1))
    }
}

/// The state after the daemon reports that adding device `uuid` failed.
pub open spec fn failed_spec(s: ProvisionerState, uuid: u128, reason: String) -> (
    ProvisionerState,
    Result<(), RequestError>,
) {
    if s.state != ProvisionState::AwaitingOutcome(uuid) {
        (s, Err(RequestError::Unexpected))
    } else {
        let o = offer_spec(s.events, ProvisionerMessage::AddNodeFailed { uuid, reason });
        (ProvisionerState { state: ProvisionState::Idle, events: o.0 }, delivery_result(o.1))
    }
}

/// The provisioner side of the bridge: at most one "add node" request
/// outstanding, and the outcomes waiting for the application.
pub struct Provisioner {
    state: ProvisionState,
    events: EventBridge<ProvisionerMessage>,
}

impl View for Provisioner {
    type V = ProvisionerState;

    closed spec fn view(&self) -> ProvisionerState {
        ProvisionerState { state: self.state, events: self.events@ }
    }
}

impl Provisioner {
    /// An idle provisioner with no outcome waiting.
    pub fn new() -> (r: Self)
        ensures
            r@.state is Idle,
            r@.events.pending is None,
            r@.events.open,
    {
        Provisioner { state: ProvisionState::Idle, events: EventBridge::new() }
    }

    /// Whether a request is outstanding.
    pub fn state(&self) -> (r: ProvisionState)
        ensures
            r == self@.state,
    {
        self.state
    }

    /// Records a request to add device `uuid`; refused while another is
    /// outstanding.
    pub fn add_node(&mut self, uuid: u128) -> (r: Result<(), RequestError>)
        ensures
            (final(self)@, r) == add_node_spec(old(self)@, uuid),
    {
        match self.state {
            ProvisionState::Idle => {
                self.state = ProvisionState::AwaitingOutcome(uuid);
                Ok(())
            },
            ProvisionState::AwaitingOutcome(_) => Err(RequestError::Busy),
        }
    }

    /// The daemon refused the outstanding request outright: no outcome will
    /// come, and the provisioner is idle again.
    pub fn request_rejected(&mut self)
        ensures
            final(self)@.state is Idle,
            final(self)@.events == old(self)@.events,
    {
        self.state = ProvisionState::Idle;
    }

    /// The daemon reports that device `uuid` joined with the given primary
    /// address and number of elements.
    pub fn add_node_complete(&mut self, uuid: u128, unicast: u16, element_count: u8) -> (r: Result<
        (),
        RequestError,
    >)
        ensures
            (final(self)@, r) == complete_spec(old(self)@, uuid, unicast, element_count),
    {
        if self.state != ProvisionState::AwaitingOutcome(uuid) {
            return Err(RequestError::Unexpected);
        }
        self.state = ProvisionState::Idle;
        let address = match unicast_from_raw(unicast) {
            Ok(a) => a,
            Err(e) => return Err(RequestError::Decode(e)),
        };
        match self.events.try_send(
            ProvisionerMessage::AddNodeComplete { uuid, unicast: address, element_count },
        ) {
            Ok(()) => Ok(()),
            Err(e) => Err(RequestError::Delivery(e)),
        }
    }

    /// The daemon reports that adding device `uuid` failed, and why.
    pub fn add_node_failed(&mut self, uuid: u128, reason: String) -> (r: Result<(), RequestError>)
        ensures
            (final(self)@, r) == failed_spec(old(self)@, uuid, reason),
    {
        if self.state != ProvisionState::AwaitingOutcome(uuid) {
            return Err(RequestError::Unexpected);
        }
        self.state = ProvisionState::Idle;
        match self.events.try_send(ProvisionerMessage::AddNodeFailed { uuid, reason }) {
            Ok(()) => Ok(()),
            Err(e) => Err(RequestError::Delivery(e)),
        }
    }

    /// Takes the waiting outcome, if any.
    pub fn next_event(&mut self) -> (r: Option<ProvisionerMessage>)
        ensures
            final(self)@.state == old(self)@.state,
            (final(self)@.events, r) == take_spec(old(self)@.events),
    {
        self.events.poll_next()
    }

    /// The application stops listening; later outcomes are refused.
    pub fn close(&mut self)
        ensures
            final(self)@.state == old(self)@.state,
            final(self)@.events.pending is None,
            !final(self)@.events.open,
    {
        self.events.close()
    }
}

/// From an idle provisioner with nothing waiting, a request to add a device
/// followed by the daemon's report that it was added yields that outcome
/// exactly once, and the provisioner is idle again.
pub proof fn lemma_add_node_outcome_once(s: ProvisionerState, uuid: u128, unicast: u16, element_count: u8)
    requires
        s.state is Idle,
        s.events.pending is None,
        s.events.open,
        is_unicast(unicast),
    ensures
        ({
            let s1 = add_node_spec(s, uuid);
            let s2 = complete_spec(s1.0, uuid, unicast, element_count);
            let t1 = take_spec(s2.0.events);
            &&& s1.1 is Ok
            &&& s2.1 is Ok
            &&& s2.0.state is Idle
            &&& t1.1 == Some(
                ProvisionerMessage::AddNodeComplete { uuid, unicast: unicast_spec(unicast), element_count },
            )
            &&& take_spec(t1.0).1 is None
        }),
{
}

/// While one request is outstanding, a second is refused and nothing changes.
pub proof fn lemma_one_request_outstanding(s: ProvisionerState, first: u128, second: u128)
    requires
        s.state is Idle,
    ensures
        add_node_spec(add_node_spec(s, first).0, second).1 == Err::<(), RequestError>(RequestError::Busy),
        add_node_spec(add_node_spec(s, first).0, second).0 == add_node_spec(s, first).0,
{
}

} // verus!
