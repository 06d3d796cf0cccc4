use script_tray::bridge::EventBridge;

#[test]
fn drain_before_any_send_returns_nothing() {
    let mut b: EventBridge<u32> = EventBridge::new();
    assert_eq!(b.len(), 0);
    assert_eq!(b.drain(), Vec::<u32>::new());
}

#[test]
fn drain_pops_everything_in_send_order() {
    let mut b: EventBridge<u32> = EventBridge::new();
    b.send(10);
    b.send(20);
    b.send(30);
    assert_eq!(b.len(), 3);
    assert_eq!(b.drain(), vec![10, 20, 30]);
    assert_eq!(b.len(), 0);
    assert_eq!(b.drain(), Vec::<u32>::new());
}

#[test]
fn sends_after_a_drain_queue_afresh() {
    let mut b: EventBridge<bool> = EventBridge::new();
    b.send(true);
    b.drain();
    b.send(false);
    b.send(true);
    assert_eq!(b.drain(), vec![false, true]);
}
