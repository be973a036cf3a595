use isr_bridge::error::{BridgeError, ConfigFault, RegistrationFault};
use isr_bridge::mailbox::Mailbox;
use isr_bridge::message::EventLoopMessage;
use isr_bridge::pin::{check_config, Pull, TriggerEdge, GPIO_COUNT};
use isr_bridge::service::{Binding, IsrOutcome, IsrService};

fn armed_service(capacity: usize, pin: u8, edge: TriggerEdge, tag: u8) -> (IsrService, isr_bridge::service::PinSubscription) {
    let mut s = IsrService::new(capacity);
    s.install();
    let sub = s
        .subscribe(pin, Pull::Floating, edge, EventLoopMessage::new(tag))
        .expect("subscribe");
    (s, sub)
}

fn drain(s: &mut IsrService) -> Vec<u8> {
    let mut out = Vec::new();
    while let Some(m) = s.fetch() {
        out.push(m.data());
    }
    out
}

#[test]
fn message_new_keeps_data() {
    assert_eq!(EventLoopMessage::new(7).data(), 7);
    assert_eq!(EventLoopMessage::new(2), EventLoopMessage(2));
}

#[test]
fn message_payload_round_trip() {
    let m = EventLoopMessage::new(200);
    let bytes = m.encode();
    assert_eq!(bytes, vec![200u8]);
    assert_eq!(EventLoopMessage::decode(&bytes), Some(m));
}

#[test]
fn message_decode_rejects_wrong_length() {
    assert_eq!(EventLoopMessage::decode(&[]), None);
    assert_eq!(EventLoopMessage::decode(&[1, 2]), None);
}

#[test]
fn trigger_edges_fire_on_their_transitions() {
    assert!(TriggerEdge::FallingEdge.fires(true, false));
    assert!(!TriggerEdge::FallingEdge.fires(false, true));
    assert!(!TriggerEdge::FallingEdge.fires(false, false));
    assert!(TriggerEdge::RisingEdge.fires(false, true));
    assert!(!TriggerEdge::RisingEdge.fires(true, false));
    assert!(TriggerEdge::AnyEdge.fires(true, false));
    assert!(TriggerEdge::AnyEdge.fires(false, true));
    assert!(!TriggerEdge::AnyEdge.fires(true, true));
    assert!(TriggerEdge::LevelHigh.fires(true, true));
    assert!(!TriggerEdge::LevelHigh.fires(true, false));
    assert!(TriggerEdge::LevelLow.fires(false, false));
    assert!(!TriggerEdge::LevelLow.fires(false, true));
}

#[test]
fn config_checks() {
    assert_eq!(check_config(0, Pull::Up), Ok(()));
    assert_eq!(check_config(35, Pull::Floating), Ok(()));
    assert_eq!(check_config(33, Pull::Down), Ok(()));
    assert_eq!(check_config(GPIO_COUNT, Pull::Floating), Err(BridgeError::Configuration(ConfigFault::InvalidPin)));
    assert_eq!(check_config(255, Pull::Up), Err(BridgeError::Configuration(ConfigFault::InvalidPin)));
    assert_eq!(check_config(35, Pull::Up), Err(BridgeError::Configuration(ConfigFault::PullUnsupported)));
    assert_eq!(check_config(39, Pull::Down), Err(BridgeError::Configuration(ConfigFault::PullUnsupported)));
}

#[test]
fn mailbox_is_fifo() {
    let mut mb = Mailbox::new(3);
    assert_eq!(mb.capacity(), 3);
    assert_eq!(mb.post(EventLoopMessage::new(1)), Ok(()));
    assert_eq!(mb.post(EventLoopMessage::new(2)), Ok(()));
    assert_eq!(mb.len(), 2);
    assert_eq!(mb.fetch(), Some(EventLoopMessage::new(1)));
    assert_eq!(mb.fetch(), Some(EventLoopMessage::new(2)));
    assert_eq!(mb.fetch(), None);
}

#[test]
fn mailbox_full_refuses_without_change() {
    let mut mb = Mailbox::new(2);
    mb.post(EventLoopMessage::new(1)).unwrap();
    mb.post(EventLoopMessage::new(2)).unwrap();
    assert!(mb.is_full());
    for i in 0..100u8 {
        assert_eq!(mb.post(EventLoopMessage::new(i)), Err(BridgeError::Post));
        assert_eq!(mb.len(), 2);
    }
    assert_eq!(mb.fetch(), Some(EventLoopMessage::new(1)));
    assert_eq!(mb.fetch(), Some(EventLoopMessage::new(2)));
    assert_eq!(mb.fetch(), None);
    assert_eq!(mb.post(EventLoopMessage::new(9)), Ok(()));
    assert_eq!(mb.fetch(), Some(EventLoopMessage::new(9)));
}

#[test]
fn mailbox_without_room_always_refuses() {
    let mut mb = Mailbox::new(0);
    assert!(mb.is_full());
    assert_eq!(mb.post(EventLoopMessage::new(1)), Err(BridgeError::Post));
    assert_eq!(mb.fetch(), None);
}

#[test]
fn subscribe_before_install_is_refused() {
    let mut s = IsrService::new(4);
    assert!(!s.is_installed());
    let r = s.subscribe(0, Pull::Up, TriggerEdge::FallingEdge, EventLoopMessage::new(1));
    assert_eq!(r.err(), Some(BridgeError::Registration(RegistrationFault::ServiceNotInstalled)));
    assert!(!s.is_armed(0));
}

#[test]
fn install_is_idempotent() {
    let mut s = IsrService::new(4);
    assert!(s.install());
    assert!(!s.install());
    assert!(s.is_installed());
}

#[test]
fn subscribe_configuration_errors_leave_nothing_armed() {
    let mut s = IsrService::new(4);
    s.install();
    let r = s.subscribe(40, Pull::Floating, TriggerEdge::AnyEdge, EventLoopMessage::new(1));
    assert_eq!(r.err(), Some(BridgeError::Configuration(ConfigFault::InvalidPin)));
    let r = s.subscribe(36, Pull::Up, TriggerEdge::AnyEdge, EventLoopMessage::new(1));
    assert_eq!(r.err(), Some(BridgeError::Configuration(ConfigFault::PullUnsupported)));
    assert!(!s.is_armed(36));
    assert_eq!(s.trampoline(36, true, false), IsrOutcome::Idle);
    assert_eq!(s.pending(), 0);
}

#[test]
fn second_subscription_on_armed_pin_is_refused() {
    let (mut s, sub) = armed_service(4, 0, TriggerEdge::FallingEdge, 1);
    let r = s.subscribe(0, Pull::Up, TriggerEdge::RisingEdge, EventLoopMessage::new(2));
    assert_eq!(r.err(), Some(BridgeError::Registration(RegistrationFault::AlreadyArmed)));
    let cell = Binding { edge: TriggerEdge::FallingEdge, message: EventLoopMessage::new(1) };
    assert_eq!(s.binding(0), Some(cell));
    assert_eq!(sub.pin(), 0);
    assert_eq!(sub.edge(), TriggerEdge::FallingEdge);
    assert_eq!(sub.pull(), Pull::Floating);
}

#[test]
fn subscribe_unsubscribe_subscribe_cycle() {
    let (mut s, sub) = armed_service(8, 0, TriggerEdge::FallingEdge, 1);
    assert_eq!(s.trampoline(0, true, false), IsrOutcome::Posted);
    let cell = s.unsubscribe(sub).expect("unsubscribe");
    assert_eq!(cell, Binding { edge: TriggerEdge::FallingEdge, message: EventLoopMessage::new(1) });
    assert!(!s.is_armed(0));
    assert_eq!(s.trampoline(0, true, false), IsrOutcome::Idle);
    let sub2 = s
        .subscribe(0, Pull::Up, TriggerEdge::FallingEdge, EventLoopMessage::new(2))
        .expect("subscribe again");
    assert_eq!(s.trampoline(0, true, false), IsrOutcome::Posted);
    assert_eq!(drain(&mut s), vec![1, 2]);
    assert_eq!(sub2.pin(), 0);
}

#[test]
fn unsubscribe_without_registration_is_teardown_error() {
    let (_s, sub) = armed_service(4, 5, TriggerEdge::FallingEdge, 1);
    let mut other = IsrService::new(4);
    other.install();
    assert_eq!(other.unsubscribe(sub), Err(BridgeError::Teardown));
}

#[test]
fn n_interrupts_give_n_messages_in_order() {
    let (mut s, _sub) = armed_service(10, 4, TriggerEdge::AnyEdge, 3);
    let mut level = true;
    for _ in 0..10 {
        assert_eq!(s.trampoline(4, level, !level), IsrOutcome::Posted);
        level = !level;
    }
    assert_eq!(s.pending(), 10);
    assert_eq!(drain(&mut s), vec![3; 10]);
}

#[test]
fn interrupts_on_two_pins_keep_fire_order() {
    let mut s = IsrService::new(8);
    s.install();
    let _a = s.subscribe(2, Pull::Up, TriggerEdge::FallingEdge, EventLoopMessage::new(10)).unwrap();
    let _b = s.subscribe(3, Pull::Down, TriggerEdge::RisingEdge, EventLoopMessage::new(20)).unwrap();
    assert_eq!(s.trampoline(3, false, true), IsrOutcome::Posted);
    assert_eq!(s.trampoline(2, true, false), IsrOutcome::Posted);
    assert_eq!(s.trampoline(2, false, true), IsrOutcome::Idle);
    assert_eq!(s.trampoline(3, false, true), IsrOutcome::Posted);
    assert_eq!(drain(&mut s), vec![20, 10, 20]);
}

#[test]
fn full_mailbox_drops_interrupt_messages() {
    let (mut s, _sub) = armed_service(2, 0, TriggerEdge::FallingEdge, 1);
    assert_eq!(s.trampoline(0, true, false), IsrOutcome::Posted);
    assert_eq!(s.trampoline(0, true, false), IsrOutcome::Posted);
    for _ in 0..50 {
        assert_eq!(s.trampoline(0, true, false), IsrOutcome::Dropped);
    }
    assert_eq!(s.pending(), 2);
    assert_eq!(drain(&mut s), vec![1, 1]);
    assert_eq!(s.trampoline(0, true, false), IsrOutcome::Posted);
    assert_eq!(s.pending(), 1);
}

#[test]
fn no_invocation_after_detach_with_interleaving() {
    let mut s = IsrService::new(16);
    s.install();
    let a = s.subscribe(12, Pull::Up, TriggerEdge::AnyEdge, EventLoopMessage::new(1)).unwrap();
    let _b = s.subscribe(13, Pull::Up, TriggerEdge::AnyEdge, EventLoopMessage::new(2)).unwrap();
    s.unsubscribe(a).unwrap();
    for i in 0..6u8 {
        let before = i % 2 == 0;
        assert_eq!(s.trampoline(12, before, !before), IsrOutcome::Idle);
        assert_eq!(s.trampoline(13, before, !before), IsrOutcome::Posted);
        assert_eq!(s.trampoline(12, before, before), IsrOutcome::Idle);
    }
    assert_eq!(drain(&mut s), vec![2; 6]);
}

#[test]
fn rearm_with_new_trigger_sees_only_new_transitions() {
    let (mut s, sub) = armed_service(8, 21, TriggerEdge::FallingEdge, 1);
    let sub = s.resubscribe(sub, TriggerEdge::RisingEdge, EventLoopMessage::new(2)).unwrap();
    assert_eq!(sub.edge(), TriggerEdge::RisingEdge);
    assert_eq!(s.trampoline(21, true, false), IsrOutcome::Idle);
    assert_eq!(s.trampoline(21, false, true), IsrOutcome::Posted);
    let _cell = s.unsubscribe(sub).unwrap();
    let _sub = s.subscribe(21, Pull::Floating, TriggerEdge::LevelLow, EventLoopMessage::new(3)).unwrap();
    assert_eq!(s.trampoline(21, false, true), IsrOutcome::Idle);
    assert_eq!(s.trampoline(21, true, false), IsrOutcome::Posted);
    assert_eq!(drain(&mut s), vec![2, 3]);
}

#[test]
fn resubscribe_without_registration_is_teardown_error() {
    let (_s, sub) = armed_service(4, 5, TriggerEdge::FallingEdge, 1);
    let mut other = IsrService::new(4);
    other.install();
    let r = other.resubscribe(sub, TriggerEdge::RisingEdge, EventLoopMessage::new(2));
    assert_eq!(r.err(), Some(BridgeError::Teardown));
    assert!(!other.is_armed(5));
}

#[test]
fn falling_edge_on_pin_35_then_unsubscribe() {
    let (mut s, sub) = armed_service(4, 35, TriggerEdge::FallingEdge, 1);
    assert_eq!(s.trampoline(35, true, false), IsrOutcome::Posted);
    assert_eq!(s.fetch(), Some(EventLoopMessage::new(1)));
    assert_eq!(s.fetch(), None);
    s.unsubscribe(sub).unwrap();
    assert_eq!(s.trampoline(35, true, false), IsrOutcome::Idle);
    assert_eq!(s.fetch(), None);
}
