//! A bounded event bridge with room for one pending item: the producer never
//! waits, and a full or abandoned bridge refuses the item instead.
use vstd::prelude::*;

verus! {

/// Why an item could not be handed to the consumer.
#[derive(Debug, Clone, Copy, PartialEq, Eq, Structural)]
pub enum SendFailure {
    /// An earlier item is still waiting to be taken.
    Full,
    /// The consumer has gone away.
    Closed,
}

/// The abstract state of a bridge: the item waiting, if any, and whether the
/// consumer is still there.
pub struct BridgeState<T> {
    pub pending: Option<T>,
    pub open: bool,
}

/// The state after offering `item`, and the outcome of the offer.
pub open spec fn offer_spec<T>(s: BridgeState<T>, item: T) -> (BridgeState<T>, Result<(), SendFailure>) {
    if !s.open {
        (s, Err(SendFailure::Closed))
    } else if s.pending is Some {
        (s, Err(SendFailure::Full))
    } else {
        (BridgeState { pending: Some(item), open: true }, Ok(()))
    }
}

/// The state after the consumer takes what is pending, and what it gets.
pub open spec fn take_spec<T>(s: BridgeState<T>) -> (BridgeState<T>, Option<T>) {
    (BridgeState { pending: None, open: s.open }, s.pending)
}

/// A bridge with capacity one.
pub struct EventBridge<T> {
    pending: Option<T>,
    open: bool,
}

impl<T> View for EventBridge<T> {
    type V = BridgeState<T>;

    closed spec fn view(&self) -> BridgeState<T> {
        BridgeState { pending: self.pending, open: self.open }
    }
}

impl<T> EventBridge<T> {
    /// An empty bridge whose consumer is present.
    pub fn new() -> (r: Self)
        ensures
            r@.pending is None,
            r@.open,
    {
        EventBridge { pending: None, open: true }
    }

    /// Offers an item without waiting: it is kept if the slot is free and the
    /// consumer is there, and refused otherwise.
    pub fn try_send(&mut self, item: T) -> (r: Result<(), SendFailure>)
        ensures
            (final(self)@, r) == offer_spec(old(self)@, item),
    {
        if !self.open {
            Err(SendFailure::Closed)
        } else if self.pending.is_some() {
            Err(SendFailure::Full)
        } else {
            self.pending = Some(item);
            Ok(())
        }
    }

    /// Takes the pending item, if there is one.
    pub fn poll_next(&mut self) -> (r: Option<T>)
        ensures
            (final(self)@, r) == take_spec(old(self)@),
    {
        self.pending.take()
    }

    /// Whether an item is waiting.
    pub fn has_pending(&self) -> (r: bool)
        ensures
            r == self@.pending is Some,
    {
        self.pending.is_some()
    }

    /// Whether the consumer is still there.
    pub fn is_open(&self) -> (r: bool)
        ensures
            r == self@.open,
    {
        self.open
    }

    /// The consumer goes away: what is pending is dropped, and every later
    /// offer is refused.
    pub fn close(&mut self)
        ensures
            final(self)@.pending is None,
            !final(self)@.open,
    {
        self.pending = None;
        self.open = false;
    }
}

/// With no consumer draining the bridge, of two offers in a row the first is
/// accepted and the second refused as full.
pub proof fn lemma_second_offer_refused<T>(s: BridgeState<T>, a: T, b: T)
    requires
        s.open,
        s.pending is None,
    ensures
        offer_spec(s, a).1 == Ok::<(), SendFailure>(()),
        offer_spec(offer_spec(s, a).0, b).1 == Err::<(), SendFailure>(SendFailure::Full),
        offer_spec(offer_spec(s, a).0, b).0 == offer_spec(s, a).0,
{
}

/// An item accepted by the bridge is the very item that the consumer takes
/// next, and the bridge is then free again.
pub proof fn lemma_accepted_item_delivered<T>(s: BridgeState<T>, item: T)
    requires
        offer_spec(s, item).1 is Ok,
    ensures
        take_spec(offer_spec(s, item).0).1 == Some(item),
        take_spec(offer_spec(s, item).0).0.pending is None,
        take_spec(offer_spec(s, item).0).0.open,
{
}

} // verus!
