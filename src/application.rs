//! The application object: its elements, its optional provisioner, and the
//! lifecycle events (join outcomes) handed to application code.
use vstd::prelude::*;

use crate::bridge::{offer_spec, take_spec, BridgeState, EventBridge, SendFailure};
use crate::element::{register_elements, Element, RegisteredElement};
use crate::provision::Provisioner;

verus! {

/// A lifecycle event of the application.
#[derive(Debug, Clone)]
pub enum ApplicationMessage {
    /// The join finished; the token lets the node attach later.
    JoinComplete(u64),
    /// The join failed, for the reason given.
    JoinFailed(String),
}

/// An application before registration.
pub struct Application {
    pub path: String,
    pub elements: Vec<Element>,
    pub provisioner: Option<Provisioner>,
}

/// An application registered with the daemon: each element bound to its
/// index, and the bridge of lifecycle events.
pub struct RegisteredApplication {
    pub path: String,
    pub elements: Vec<RegisteredElement>,
    pub provisioner: Option<Provisioner>,
    pub events: EventBridge<ApplicationMessage>,
}

impl Application {
    /// Binds each element to its position in the list, and opens the bridge
    /// of lifecycle events.
    pub fn register(self) -> (r: RegisteredApplication)
        requires
            self.elements@.len() <= 256,
        ensures
            r.path == self.path,
            r.provisioner == self.provisioner,
            r.elements@.len() == self.elements@.len(),
            forall|i: int|
                0 <= i < r.elements@.len() ==> (#[trigger] r.elements@[i]).index_spec() == i
                    && r.elements@[i].element_spec() == self.elements@[i],
            r.events_spec().pending is None,
            r.events_spec().open,
    {
        let Application { path, elements, provisioner } = self;
        let registered = register_elements(elements);
        RegisteredApplication { path, elements: registered, provisioner, events: EventBridge::new() }
    }
}

impl RegisteredApplication {
    pub open spec fn events_spec(&self) -> BridgeState<ApplicationMessage> {
        self.events@
    }

    /// The daemon reports that the join finished with this token.
    pub fn join_complete(&mut self, token: u64) -> (r: Result<(), SendFailure>)
        ensures
            (final(self).events_spec(), r) == offer_spec(
                old(self).events_spec(),
                ApplicationMessage::JoinComplete(token),
            ),
            final(self).path == old(self).path,
            final(self).elements == old(self).elements,
            final(self).provisioner == old(self).provisioner,
    {
        self.events.try_send(ApplicationMessage::JoinComplete(token))
    }

    /// The daemon reports that the join failed.
    pub fn join_failed(&mut self, reason: String) -> (r: Result<(), SendFailure>)
        ensures
            (final(self).events_spec(), r) == offer_spec(
                old(self).events_spec(),
                ApplicationMessage::JoinFailed(reason),
            ),
            final(self).path == old(self).path,
            final(self).elements == old(self).elements,
            final(self).provisioner == old(self).provisioner,
    {
        self.events.try_send(ApplicationMessage::JoinFailed(reason))
    }

    /// Takes the waiting lifecycle event, if any.
    pub fn next_event(&mut self) -> (r: Option<ApplicationMessage>)
        ensures
            (final(self).events_spec(), r) == take_spec(old(self).events_spec()),
            final(self).path == old(self).path,
            final(self).elements == old(self).elements,
            final(self).provisioner == old(self).provisioner,
    {
        self.events.poll_next()
    }
}

} // verus!
