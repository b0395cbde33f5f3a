use gpui_ai::cues::{Cue, CueHub};

#[test]
fn observers_receive_cues_until_dropped() {
    let mut hub = CueHub::new();
    let subscription = hub.observe();
    let id = subscription.id();
    let mut received: Vec<Cue> = Vec::new();
    for observer in hub.emit() {
        if observer == id {
            received.push(Cue::Copied);
        }
    }
    assert_eq!(received, vec![Cue::Copied]);

    hub.drop_subscription(subscription);
    for observer in hub.emit() {
        if observer == id {
            received.push(Cue::Submitted);
        }
    }
    assert_eq!(received, vec![Cue::Copied]);
}

#[test]
fn emitting_without_observers_is_a_no_op() {
    let mut hub = CueHub::new();
    assert!(hub.emit().is_empty());
}

#[test]
fn cues_reach_live_observers_in_registration_order() {
    let mut hub = CueHub::new();
    let first = hub.observe();
    let second = hub.observe();
    let third = hub.observe();
    let (a, b, c) = (first.id(), second.id(), third.id());
    assert_eq!(hub.emit(), vec![a, b, c]);
    hub.drop_subscription(second);
    assert_eq!(hub.emit(), vec![a, c]);
    assert_eq!(hub.emit(), vec![a, c]);
    let detached = third.detach();
    assert_eq!(detached, c);
    assert_eq!(hub.emit(), vec![a, c]);
    assert_eq!(hub.issued_count(), 3);
    let late = hub.observe();
    assert_eq!(hub.emit(), vec![a, c, late.id()]);
    let _ = Cue::Decided { approved: true };
}

#[test]
fn a_detached_observer_receives_every_later_cue_once() {
    let mut hub = CueHub::new();
    let kept = hub.observe();
    let other = hub.observe();
    let kept_id = kept.detach();
    hub.drop_subscription(other);
    for _ in 0..3 {
        let delivered = hub.emit();
        assert_eq!(delivered.iter().filter(|id| **id == kept_id).count(), 1);
        assert_eq!(delivered.len(), 1);
    }
    let late = hub.observe();
    assert_eq!(hub.emit(), vec![kept_id, late.id()]);
}
