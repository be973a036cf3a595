//! A bounded first-in first-out mailbox between interrupt context and the
//! consumer. Posting never blocks and never grows the storage: a full
//! mailbox refuses the message.
use std::collections::VecDeque;
use vstd::prelude::*;
use crate::error::BridgeError;
use crate::message::EventLoopMessage;

verus! {

/// The abstract state of a mailbox: the queued messages, oldest first, and
/// the most it may hold.
pub struct MailboxView {
    pub pending: Seq<EventLoopMessage>,
    pub capacity: nat,
}

impl MailboxView {
    pub open spec fn wf(self) -> bool {
        self.pending.len() <= self.capacity
    }

    pub open spec fn is_full(self) -> bool {
        self.pending.len() >= self.capacity
    }

    /// The state after posting `m`: appended at the back, or unchanged when full.
    pub open spec fn post(self, m: EventLoopMessage) -> MailboxView {
        if self.is_full() {
            self
        } else {
            MailboxView { pending: self.pending.push(m), ..self }
        }
    }

    /// The state after posting each of `ms` in turn.
    pub open spec fn post_all(self, ms: Seq<EventLoopMessage>) -> MailboxView
        decreases ms.len(),
    {
        if ms.len() == 0 {
            self
        } else {
            self.post(ms[0]).post_all(ms.drop_first())
        }
    }

    /// The state after the consumer takes the oldest message, if any.
    pub open spec fn fetch(self) -> MailboxView {
        if self.pending.len() == 0 {
            self
        } else {
            MailboxView { pending: self.pending.drop_first(), ..self }
        }
    }
}

pub struct Mailbox {
    items: VecDeque<EventLoopMessage>,
    capacity: usize,
}

impl View for Mailbox {
    type V = MailboxView;

    closed spec fn view(&self) -> MailboxView {
        MailboxView { pending: self.items@, capacity: self.capacity as nat }
    }
}

impl Mailbox {
    /// An empty mailbox that holds at most `capacity` messages. The storage
    /// is reserved here, once.
    pub fn new(capacity: usize) -> (r: Mailbox)
        ensures
            r@.pending == Seq::<EventLoopMessage>::empty(),
            r@.capacity == capacity,
            r@.wf(),
    {
        Mailbox { items: VecDeque::with_capacity(capacity), capacity }
    }

    pub fn len(&self) -> (r: usize)
        ensures
            r == self@.pending.len(),
    {
        self.items.len()
    }

    pub fn capacity(&self) -> (r: usize)
        ensures
            r == self@.capacity,
    {
        self.capacity
    }

    pub fn is_full(&self) -> (r: bool)
        ensures
            r == self@.is_full(),
    {
        self.items.len() >= self.capacity
    }

    /// Queues `m` behind the pending messages, or refuses it at once with
    /// `BridgeError::Post` when the mailbox is full, leaving it unchanged.
    pub fn post(&mut self, m: EventLoopMessage) -> (r: Result<(), BridgeError>)
        requires
            old(self)@.wf(),
        ensures
            final(self)@ == old(self)@.post(m),
            final(self)@.wf(),
            old(self)@.is_full() ==> r == Err::<(), BridgeError>(BridgeError::Post),
            !old(self)@.is_full() ==> r is Ok,
    {
        if self.items.len() >= self.capacity {
            Err(BridgeError::Post)
        } else {
            self.items.push_back(m);
            Ok(())
        }
    }

    /// Takes the oldest pending message, if there is one.
    pub fn fetch(&mut self) -> (r: Option<EventLoopMessage>)
        requires
            old(self)@.wf(),
        ensures
            final(self)@ == old(self)@.fetch(),
            final(self)@.wf(),
            old(self)@.pending.len() == 0 ==> r is None,
            old(self)@.pending.len() > 0 ==> r == Some(old(self)@.pending[0]),
    {
        let r = self.items.pop_front();
        proof {
            if old(self)@.pending.len() > 0 {
                assert(self.items@ =~= old(self)@.pending.drop_first());
            }
        }
        r
    }
}

} // verus!
