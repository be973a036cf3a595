//! Properties of the bridge over whole sequences of operations, proved from
//! the abstract states that the operations' contracts speak of.
use vstd::prelude::*;
use crate::error::{BridgeError, RegistrationFault};
use crate::mailbox::MailboxView;
use crate::message::EventLoopMessage;
use crate::pin::{config_fault, Pull};
use crate::service::{Binding, IsrOutcome, ServiceView};

verus! {

/// The events of `events` that are not on `pin`, in order.
pub open spec fn events_off_pin(events: Seq<(u8, bool, bool)>, pin: u8) -> Seq<(u8, bool, bool)>
    decreases events.len(),
{
    if events.len() == 0 {
        events
    } else if events[0].0 == pin {
        events_off_pin(events.drop_first(), pin)
    } else {
        seq![events[0]] + events_off_pin(events.drop_first(), pin)
    }
}

/// While a pin is armed, subscribing it again is refused: a pin never holds
/// two armed subscriptions.
pub proof fn lemma_armed_pin_refuses_subscribe(v: ServiceView, pin: u8, pull: Pull)
    requires
        v.wf(),
        v.is_armed(pin),
    ensures
        v.subscribe_error(pin, pull) is Some,
        v.installed && config_fault(pin, pull) is None ==> v.subscribe_error(pin, pull) == Some(
            BridgeError::Registration(RegistrationFault::AlreadyArmed),
        ),
{
}

/// Subscribe, unsubscribe, subscribe on one pin: while the first subscription
/// is armed a second is refused; unsubscribing detaches the pin, so no
/// transition reaches the first cell any more, before that cell is handed
/// back; the pin can then be armed anew, and no other pin is touched.
pub proof fn lemma_subscribe_unsubscribe_subscribe(
    v: ServiceView,
    pin: u8,
    pull: Pull,
    first: Binding,
    second: Binding,
)
    requires
        v.wf(),
        v.subscribe_error(pin, pull) is None,
    ensures
        v.arm(pin, first).binding(pin) == Some(first),
        v.arm(pin, first).subscribe_error(pin, pull) == Some(
            BridgeError::Registration(RegistrationFault::AlreadyArmed),
        ),
        v.arm(pin, first).disarm(pin).binding(pin) is None,
        forall|before: bool, after: bool|
            #![auto]
            v.arm(pin, first).disarm(pin).fire(pin, before, after) == v.arm(pin, first).disarm(pin),
        v.arm(pin, first).disarm(pin).subscribe_error(pin, pull) is None,
        v.arm(pin, first).disarm(pin).arm(pin, second).binding(pin) == Some(second),
        forall|p: u8|
            p != pin ==> #[trigger] v.arm(pin, first).disarm(pin).arm(pin, second).binding(p)
                == v.binding(p),
{
    let v1 = v.arm(pin, first);
    let v2 = v1.disarm(pin);
    assert(v2.slots =~= v.slots);
}

/// Interrupts that each fire an armed trigger, with room in the mailbox for
/// all of them, queue exactly one message each, in the order they fired.
pub proof fn lemma_fired_interrupts_queue_in_order(v: ServiceView, events: Seq<(u8, bool, bool)>)
    requires
        v.wf(),
        forall|i: int| 0 <= i < events.len() ==> #[trigger] v.triggers(events[i].0, events[i].1, events[i].2),
        v.mailbox.pending.len() + events.len() <= v.mailbox.capacity,
    ensures
        v.fire_all(events).mailbox.pending == v.mailbox.pending + events.map_values(
            |e: (u8, bool, bool)| v.binding(e.0)->Some_0.message,
        ),
        v.fire_all(events).mailbox.capacity == v.mailbox.capacity,
        v.fire_all(events).slots == v.slots,
        v.fire_all(events).installed == v.installed,
    decreases events.len(),
{
    let f = |e: (u8, bool, bool)| v.binding(e.0)->Some_0.message;
    if events.len() == 0 {
        assert(v.mailbox.pending + events.map_values(f) =~= v.mailbox.pending);
    } else {
        let e0 = events[0];
        assert(v.triggers(e0.0, e0.1, e0.2));
        let w = v.fire(e0.0, e0.1, e0.2);
        let rest = events.drop_first();
        assert forall|i: int| 0 <= i < rest.len() implies #[trigger] w.triggers(rest[i].0, rest[i].1, rest[i].2) by {
            assert(rest[i] == events[i + 1]);
            assert(v.triggers(events[i + 1].0, events[i + 1].1, events[i + 1].2));
        }
        lemma_fired_interrupts_queue_in_order(w, rest);
        let g = |e: (u8, bool, bool)| w.binding(e.0)->Some_0.message;
        assert(rest.map_values(g) =~= rest.map_values(f));
        assert(w.mailbox.pending == v.mailbox.pending.push(f(e0)));
        assert(v.mailbox.pending + events.map_values(f) =~= v.mailbox.pending.push(f(e0))
            + rest.map_values(f));
    }
}

proof fn lemma_fire_all_skips_unarmed(w: ServiceView, pin: u8, events: Seq<(u8, bool, bool)>)
    requires
        w.binding(pin) is None,
    ensures
        w.fire_all(events) == w.fire_all(events_off_pin(events, pin)),
    decreases events.len(),
{
    if events.len() > 0 {
        let e0 = events[0];
        let rest = events.drop_first();
        let w1 = w.fire(e0.0, e0.1, e0.2);
        if e0.0 == pin {
            assert(w1 == w);
            lemma_fire_all_skips_unarmed(w, pin, rest);
        } else {
            assert(w1.slots == w.slots);
            lemma_fire_all_skips_unarmed(w1, pin, rest);
            let s = seq![e0] + events_off_pin(rest, pin);
            assert(s[0] == e0);
            assert(s.drop_first() =~= events_off_pin(rest, pin));
        }
    }
}

/// Once a pin is detached, no interrupt on it runs its old callback: whatever
/// the interleaving with other pins, its transitions change nothing, and on
/// their own they leave the service as it was.
pub proof fn lemma_no_invocation_after_detach(v: ServiceView, pin: u8, events: Seq<(u8, bool, bool)>)
    requires
        v.wf(),
    ensures
        v.disarm(pin).fire_all(events) == v.disarm(pin).fire_all(events_off_pin(events, pin)),
        (forall|i: int| 0 <= i < events.len() ==> #[trigger] events[i].0 == pin)
            ==> v.disarm(pin).fire_all(events) == v.disarm(pin),
{
    let w = v.disarm(pin);
    lemma_fire_all_skips_unarmed(w, pin, events);
    if forall|i: int| 0 <= i < events.len() ==> #[trigger] events[i].0 == pin {
        lemma_off_pin_empty(events, pin);
    }
}

proof fn lemma_off_pin_empty(events: Seq<(u8, bool, bool)>, pin: u8)
    requires
        forall|i: int| 0 <= i < events.len() ==> #[trigger] events[i].0 == pin,
    ensures
        events_off_pin(events, pin).len() == 0,
    decreases events.len(),
{
    if events.len() > 0 {
        let rest = events.drop_first();
        assert forall|i: int| 0 <= i < rest.len() implies #[trigger] rest[i].0 == pin by {
            assert(rest[i] == events[i + 1]);
        }
        assert(events[0].0 == pin);
        lemma_off_pin_empty(rest, pin);
    }
}

/// Posting to a full mailbox, any number of times, leaves it exactly as it was.
pub proof fn lemma_overflow_leaves_mailbox(mb: MailboxView, ms: Seq<EventLoopMessage>)
    requires
        mb.wf(),
        mb.is_full(),
    ensures
        mb.post_all(ms) == mb,
    decreases ms.len(),
{
    if ms.len() > 0 {
        lemma_overflow_leaves_mailbox(mb, ms.drop_first());
    }
}

/// A pin re-armed with a new trigger after unsubscribing answers to the new
/// trigger's transitions only: the old trigger plays no part.
pub proof fn lemma_rearm_uses_new_trigger(
    v: ServiceView,
    pin: u8,
    pull: Pull,
    cell: Binding,
    before: bool,
    after: bool,
)
    requires
        v.wf(),
        v.disarm(pin).subscribe_error(pin, pull) is None,
    ensures
        v.disarm(pin).arm(pin, cell).triggers(pin, before, after) == cell.edge.spec_fires(before, after),
        (v.disarm(pin).arm(pin, cell).fire_outcome(pin, before, after) != IsrOutcome::Idle)
            == cell.edge.spec_fires(before, after),
        v.disarm(pin).arm(pin, cell).fire(pin, before, after).mailbox == if cell.edge.spec_fires(before, after) {
            v.mailbox.post(cell.message)
        } else {
            v.mailbox
        },
{
}

} // verus!
