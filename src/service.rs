//! The interrupt service: a registry of callback cells indexed by pin, the
//! trampoline that the interrupt reaches, and the mailbox it posts into.
//!
//! Unsubscribing takes the cell out of the registry before handing it back,
//! so once a pin is detached no interrupt can reach its cell: the cell is
//! released only after detach.
use vstd::prelude::*;
use crate::error::{BridgeError, RegistrationFault};
use crate::mailbox::{Mailbox, MailboxView};
use crate::message::EventLoopMessage;
use crate::pin::{check_config, config_fault, Pull, TriggerEdge, GPIO_COUNT};

verus! {

/// The callback cell of an armed pin: the trigger it was armed with and the
/// message its callback posts on each interrupt.
#[derive(Clone, Copy, Debug, PartialEq, Eq, Structural)]
pub struct Binding {
    pub edge: TriggerEdge,
    pub message: EventLoopMessage,
}

/// What one run of the trampoline did.
#[derive(Clone, Copy, Debug, PartialEq, Eq, Structural)]
pub enum IsrOutcome {
    /// No armed cell on the pin, or its trigger did not fire: nothing ran.
    Idle,
    /// The callback ran and its message was queued.
    Posted,
    /// The callback ran and the full mailbox refused its message, which was dropped.
    Dropped,
}

/// The receipt for an armed pin. It cannot be copied, and unsubscribing
/// consumes it, so a subscription is torn down at most once.
#[derive(Debug)]
pub struct PinSubscription {
    pin: u8,
    pull: Pull,
    edge: TriggerEdge,
}

impl PinSubscription {
    pub closed spec fn spec_pin(&self) -> u8 {
        self.pin
    }

    pub closed spec fn spec_pull(&self) -> Pull {
        self.pull
    }

    pub closed spec fn spec_edge(&self) -> TriggerEdge {
        self.edge
    }

    pub fn pin(&self) -> (r: u8)
        ensures
            r == self.spec_pin(),
    {
        self.pin
    }

    pub fn pull(&self) -> (r: Pull)
        ensures
            r == self.spec_pull(),
    {
        self.pull
    }

    pub fn edge(&self) -> (r: TriggerEdge)
        ensures
            r == self.spec_edge(),
    {
        self.edge
    }
}

/// The abstract state of the service.
pub struct ServiceView {
    pub installed: bool,
    pub slots: Seq<Option<Binding>>,
    pub mailbox: MailboxView,
}

impl ServiceView {
    pub open spec fn wf(self) -> bool {
        &&& self.slots.len() == GPIO_COUNT
        &&& self.mailbox.wf()
    }

    /// A fresh service: not installed, no pin armed, an empty mailbox.
    pub open spec fn initial(capacity: nat) -> ServiceView {
        ServiceView {
            installed: false,
            slots: Seq::new(GPIO_COUNT as nat, |i: int| None),
            mailbox: MailboxView { pending: Seq::empty(), capacity },
        }
    }

    /// The cell armed on `pin`, if any.
    pub open spec fn binding(self, pin: u8) -> Option<Binding> {
        if pin < self.slots.len() {
            self.slots[pin as int]
        } else {
            None
        }
    }

    pub open spec fn is_armed(self, pin: u8) -> bool {
        self.binding(pin) is Some
    }

    /// Why subscribing `pin` with `pull` fails, if it does: configuration is
    /// checked first, then registration.
    pub open spec fn subscribe_error(self, pin: u8, pull: Pull) -> Option<BridgeError> {
        match config_fault(pin, pull) {
            Some(f) => Some(BridgeError::Configuration(f)),
            None => if !self.installed {
                Some(BridgeError::Registration(RegistrationFault::ServiceNotInstalled))
            } else if self.is_armed(pin) {
                Some(BridgeError::Registration(RegistrationFault::AlreadyArmed))
            } else {
                None
            },
        }
    }

    /// The state with cell `b` in the slot of `pin` (a pin without a slot
    /// changes nothing).
    pub open spec fn arm(self, pin: u8, b: Binding) -> ServiceView {
        if pin < self.slots.len() {
            ServiceView { slots: self.slots.update(pin as int, Some(b)), ..self }
        } else {
            self
        }
    }

    /// The state with the slot of `pin` emptied.
    pub open spec fn disarm(self, pin: u8) -> ServiceView {
        if pin < self.slots.len() {
            ServiceView { slots: self.slots.update(pin as int, None), ..self }
        } else {
            self
        }
    }

    /// Whether a transition of `pin` from `before` to `after` runs a callback.
    pub open spec fn triggers(self, pin: u8, before: bool, after: bool) -> bool {
        match self.binding(pin) {
            Some(b) => b.edge.spec_fires(before, after),
            None => false,
        }
    }

    /// The state after the trampoline runs for that transition.
    pub open spec fn fire(self, pin: u8, before: bool, after: bool) -> ServiceView {
        if self.triggers(pin, before, after) {
            ServiceView { mailbox: self.mailbox.post(self.binding(pin)->Some_0.message), ..self }
        } else {
            self
        }
    }

    pub open spec fn fire_outcome(self, pin: u8, before: bool, after: bool) -> IsrOutcome {
        if !self.triggers(pin, before, after) {
            IsrOutcome::Idle
        } else if self.mailbox.is_full() {
            IsrOutcome::Dropped
        } else {
            IsrOutcome::Posted
        }
    }

    /// The state after the trampoline runs for each `(pin, before, after)`
    /// of `events`, in order.
    pub open spec fn fire_all(self, events: Seq<(u8, bool, bool)>) -> ServiceView
        decreases events.len(),
    {
        if events.len() == 0 {
            self
        } else {
            self.fire(events[0].0, events[0].1, events[0].2).fire_all(events.drop_first())
        }
    }

    pub open spec fn fetch(self) -> ServiceView {
        ServiceView { mailbox: self.mailbox.fetch(), ..self }
    }
}

pub struct IsrService {
    installed: bool,
    slots: Vec<Option<Binding>>,
    mailbox: Mailbox,
}

impl View for IsrService {
    type V = ServiceView;

    closed spec fn view(&self) -> ServiceView {
        ServiceView { installed: self.installed, slots: self.slots@, mailbox: self.mailbox@ }
    }
}

impl IsrService {
    /// A service whose mailbox holds at most `capacity` messages; the
    /// interrupt subsystem is not yet installed and no pin is armed.
    pub fn new(capacity: usize) -> (r: IsrService)
        ensures
            r@ == ServiceView::initial(capacity as nat),
            r@.wf(),
    {
        let mut slots: Vec<Option<Binding>> = Vec::with_capacity(GPIO_COUNT as usize);
        let mut i: u8 = 0;
        while i < GPIO_COUNT
            invariant
                i <= GPIO_COUNT,
                slots@ == Seq::new(i as nat, |j: int| None::<Binding>),
            decreases GPIO_COUNT - i,
        {
            slots.push(None);
            i = i + 1;
            assert(slots@ =~= Seq::new(i as nat, |j: int| None::<Binding>));
        }
        let r = IsrService { installed: false, slots, mailbox: Mailbox::new(capacity) };
        assert(r@.mailbox.pending =~= Seq::<EventLoopMessage>::empty());
        r
    }

    /// Installs the interrupt subsystem. Installing again is a no-op; the
    /// result says whether this call did the installing.
    pub fn install(&mut self) -> (newly: bool)
        ensures
            newly == !old(self)@.installed,
            final(self)@ == (ServiceView { installed: true, ..old(self)@ }),
    {
        let newly = !self.installed;
        self.installed = true;
        newly
    }

    pub fn is_installed(&self) -> (r: bool)
        ensures
            r == self@.installed,
    {
        self.installed
    }

    /// The cell armed on `pin`, if any.
    pub fn binding(&self, pin: u8) -> (r: Option<Binding>)
        requires
            self@.wf(),
        ensures
            r == self@.binding(pin),
    {
        if pin < GPIO_COUNT {
            self.slots[pin as usize]
        } else {
            None
        }
    }

    pub fn is_armed(&self, pin: u8) -> (r: bool)
        requires
            self@.wf(),
        ensures
            r == self@.is_armed(pin),
    {
        self.binding(pin).is_some()
    }

    /// Number of messages waiting for the consumer.
    pub fn pending(&self) -> (r: usize)
        ensures
            r == self@.mailbox.pending.len(),
    {
        self.mailbox.len()
    }

    /// Configures `pin` as an input with `pull`, then arms it with `edge` and a
    /// callback that posts `message`. On any failure nothing is armed and the
    /// service is unchanged.
    pub fn subscribe(&mut self, pin: u8, pull: Pull, edge: TriggerEdge, message: EventLoopMessage) -> (r: Result<PinSubscription, BridgeError>)
        requires
            old(self)@.wf(),
        ensures
            final(self)@.wf(),
            match old(self)@.subscribe_error(pin, pull) {
                Some(e) => r matches Err(e2) && e2 == e && final(self)@ == old(self)@,
                None => r matches Ok(s) && s.spec_pin() == pin && s.spec_pull() == pull
                    && s.spec_edge() == edge
                    && final(self)@ == old(self)@.arm(pin, Binding { edge, message }),
            },
    {
        match check_config(pin, pull) {
            Err(e) => return Err(e),
            Ok(()) => {},
        }
        if !self.installed {
            return Err(BridgeError::Registration(RegistrationFault::ServiceNotInstalled));
        }
        if self.slots[pin as usize].is_some() {
            return Err(BridgeError::Registration(RegistrationFault::AlreadyArmed));
        }
        self.slots.set(pin as usize, Some(Binding { edge, message }));
        Ok(PinSubscription { pin, pull, edge })
    }

    /// Detaches the pin of `sub` from the interrupt table, then hands back its
    /// cell. Fails with `BridgeError::Teardown`, changing nothing, when that pin
    /// has no active registration.
    pub fn unsubscribe(&mut self, sub: PinSubscription) -> (r: Result<Binding, BridgeError>)
        requires
            old(self)@.wf(),
        ensures
            final(self)@.wf(),
            match old(self)@.binding(sub.spec_pin()) {
                Some(b) => r == Ok::<Binding, BridgeError>(b)
                    && final(self)@ == old(self)@.disarm(sub.spec_pin()),
                None => r == Err::<Binding, BridgeError>(BridgeError::Teardown)
                    && final(self)@ == old(self)@,
            },
    {
        let pin = sub.pin;
        if pin >= GPIO_COUNT {
            return Err(BridgeError::Teardown);
        }
        match self.slots[pin as usize] {
            None => Err(BridgeError::Teardown),
            Some(b) => {
                self.slots.set(pin as usize, None);
                Ok(b)
            },
        }
    }

    /// Re-arms the pin of `sub` with a new trigger and callback: detaches it
    /// fully, then subscribes it again with the same pull. Fails with
    /// `BridgeError::Teardown`, changing nothing, when the pin has no active
    /// registration; if arming again fails, the pin stays detached.
    pub fn resubscribe(&mut self, sub: PinSubscription, edge: TriggerEdge, message: EventLoopMessage) -> (r: Result<PinSubscription, BridgeError>)
        requires
            old(self)@.wf(),
        ensures
            final(self)@.wf(),
            old(self)@.binding(sub.spec_pin()) is None ==> (r matches Err(e)
                && e == BridgeError::Teardown && final(self)@ == old(self)@),
            old(self)@.binding(sub.spec_pin()) is Some ==> {
                let mid = old(self)@.disarm(sub.spec_pin());
                match mid.subscribe_error(sub.spec_pin(), sub.spec_pull()) {
                    Some(e) => r matches Err(e2) && e2 == e && final(self)@ == mid,
                    None => r matches Ok(s) && s.spec_pin() == sub.spec_pin()
                        && s.spec_pull() == sub.spec_pull() && s.spec_edge() == edge
                        && final(self)@ == mid.arm(sub.spec_pin(), Binding { edge, message }),
                }
            },
    {
        let pin = sub.pin;
        let pull = sub.pull;
        match self.unsubscribe(sub) {
            Err(e) => Err(e),
            Ok(_cell) => self.subscribe(pin, pull, edge, message),
        }
    }

    /// The trampoline: run by the interrupt for a transition of `pin` from
    /// `before` to `after`. It looks the pin's cell up and, if its trigger
    /// fires, posts the cell's message. It never blocks and never allocates:
    /// a full mailbox drops the message.
    pub fn trampoline(&mut self, pin: u8, before: bool, after: bool) -> (r: IsrOutcome)
        requires
            old(self)@.wf(),
        ensures
            final(self)@ == old(self)@.fire(pin, before, after),
            final(self)@.wf(),
            r == old(self)@.fire_outcome(pin, before, after),
    {
        match self.binding(pin) {
            None => IsrOutcome::Idle,
            Some(b) => {
                if !b.edge.fires(before, after) {
                    IsrOutcome::Idle
                } else {
                    match self.mailbox.post(b.message) {
                        Ok(()) => IsrOutcome::Posted,
                        Err(_) => IsrOutcome::Dropped,
                    }
                }
            },
        }
    }

    /// The consumer side: takes the oldest message waiting, if any.
    pub fn fetch(&mut self) -> (r: Option<EventLoopMessage>)
        requires
            old(self)@.wf(),
        ensures
            final(self)@ == old(self)@.fetch(),
            final(self)@.wf(),
            old(self)@.mailbox.pending.len() == 0 ==> r is None,
            old(self)@.mailbox.pending.len() > 0 ==> r == Some(old(self)@.mailbox.pending[0]),
    {
        self.mailbox.fetch()
    }
}

} // verus!
