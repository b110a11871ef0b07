//! The two channels that the store reader fills: replies to the one
//! outstanding request, and watch events. Each is a FIFO of its own, locked on
//! its own by the program around the library, so neither waits on the other.
use vstd::prelude::*;
use std::collections::VecDeque;
use crate::store::{StoreError, XenStoreMessage};

verus! {

/// What the reader hands to a channel: a message, or why none could be made.
pub type Delivery = Result<XenStoreMessage, StoreError>;

/// The most watch events that may wait at once: one below what a counting
/// event descriptor can hold.
pub const MAX_PENDING_EVENTS: u64 = 0xffff_ffff_ffff_fffd;

/// Replies in the order they arrived.
pub struct ReplyQueue {
    items: VecDeque<Delivery>,
}

impl View for ReplyQueue {
    type V = Seq<Delivery>;

    closed spec fn view(&self) -> Seq<Delivery> {
        self.items@
    }
}

impl ReplyQueue {
    /// An empty queue.
    pub fn new() -> (r: ReplyQueue)
        ensures
            r@ == Seq::<Delivery>::empty(),
    {
        ReplyQueue { items: VecDeque::new() }
    }

    /// Whether no reply waits.
    pub fn is_empty(&self) -> (r: bool)
        ensures
            r == (self@.len() == 0),
    {
        self.items.len() == 0
    }

    /// Appends a reply.
    pub fn push(&mut self, m: Delivery)
        ensures
            final(self)@ == old(self)@.push(m),
    {
        self.items.push_back(m);
    }

    /// Takes the oldest reply, if any.
    pub fn pop(&mut self) -> (r: Option<Delivery>)
        ensures
            old(self)@.len() == 0 ==> r is None && final(self)@ == old(self)@,
            old(self)@.len() > 0 ==> r == Some(old(self)@[0]) && final(self)@ == old(
                self,
            )@.subrange(1, old(self)@.len() as int),
    {
        self.items.pop_front()
    }
}

/// Watch events in the order they arrived, with the count of notifications
/// signalled for them and not yet consumed. The count is what the embedder's
/// counting event descriptor holds: one is signalled with each event queued
/// and consumed with each event taken, so the two always agree.
pub struct WatchQueue {
    items: VecDeque<Delivery>,
    signalled: u64,
}

impl View for WatchQueue {
    type V = Seq<Delivery>;

    closed spec fn view(&self) -> Seq<Delivery> {
        self.items@
    }
}

impl WatchQueue {
    /// The count matches the queue, and stays below what the descriptor holds.
    pub closed spec fn wf(&self) -> bool {
        &&& self.signalled == self.items@.len()
        &&& self.signalled <= MAX_PENDING_EVENTS
    }

    /// The notifications signalled and not yet consumed.
    pub closed spec fn pending_spec(&self) -> nat {
        self.signalled as nat
    }

    /// An empty queue with no notification pending.
    pub fn new() -> (r: WatchQueue)
        ensures
            r@ == Seq::<Delivery>::empty(),
            r.pending_spec() == 0,
            r.wf(),
    {
        WatchQueue { items: VecDeque::new(), signalled: 0 }
    }

    /// The notifications signalled and not yet consumed; always the number
    /// of queued events.
    pub fn pending(&self) -> (r: u64)
        requires
            self.wf(),
        ensures
            r == self.pending_spec(),
            r == self@.len(),
    {
        self.signalled
    }

    /// Whether no event waits.
    pub fn is_empty(&self) -> (r: bool)
        requires
            self.wf(),
        ensures
            r == (self@.len() == 0),
    {
        self.signalled == 0
    }

    /// Whether another event may be queued.
    pub fn has_room(&self) -> (r: bool)
        requires
            self.wf(),
        ensures
            r == (self@.len() < MAX_PENDING_EVENTS),
    {
        self.signalled < MAX_PENDING_EVENTS
    }

    /// Queues an event and counts the notification signalled for it.
    pub fn push(&mut self, m: Delivery)
        requires
            old(self).wf(),
            old(self)@.len() < MAX_PENDING_EVENTS,
        ensures
            final(self).wf(),
            final(self)@ == old(self)@.push(m),
            final(self).pending_spec() == old(self).pending_spec() + 1,
            final(self).pending_spec() == final(self)@.len(),
    {
        self.items.push_back(m);
        self.signalled = self.signalled + 1;
    }

    /// Takes the oldest event, if any, and counts its notification as
    /// consumed.
    pub fn pop(&mut self) -> (r: Option<Delivery>)
        requires
            old(self).wf(),
        ensures
            final(self).wf(),
            old(self)@.len() == 0 ==> r is None && final(self)@ == old(self)@
                && final(self).pending_spec() == 0,
            old(self)@.len() > 0 ==> r == Some(old(self)@[0]) && final(self)@ == old(
                self,
            )@.subrange(1, old(self)@.len() as int) && final(self).pending_spec() == old(
                self,
            ).pending_spec() - 1,
            final(self).pending_spec() == final(self)@.len(),
    {
        let r = self.items.pop_front();
        if r.is_some() {
            self.signalled = self.signalled - 1;
        }
        r
    }
}

} // verus!
