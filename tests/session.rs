use war_overlay::overlay::{derive_overlay, OverlayData, WarRecord};
use war_overlay::session::{Action, Event, Session};

fn data(diff: Vec<i32>) -> OverlayData {
    derive_overlay(&WarRecord { tag: "AB".to_string(), enemy_tag: "CD".to_string(), diff }).unwrap()
}

fn is_payload(a: &Action) -> bool {
    matches!(a, Action::Send(_) | Action::Unavailable)
}

#[test]
fn start_announces_data_or_its_absence() {
    let (s, a) = Session::started(Some(data(vec![1])), 0);
    assert_eq!(a, Action::Send(data(vec![1])));
    assert!(!s.closed);
    let (s, a) = Session::started(None, 5);
    assert_eq!(a, Action::Unavailable);
    assert_eq!(s.last_sent, None);
    assert_eq!(s.last_alive, 5);
}

#[test]
fn steady_data_sends_one_payload() {
    let (mut s, first) = Session::started(Some(data(vec![2, 4])), 0);
    let mut sent = if is_payload(&first) { 1 } else { 0 };
    for i in 0..500u64 {
        let a = if i % 7 == 3 {
            s.handle(Event::Message(Some(data(vec![2, 4]))))
        } else {
            s.refresh(Some(data(vec![2, 4])))
        };
        if is_payload(&a) {
            sent += 1;
        }
        if i % 20 == 0 {
            s.handle(Event::Pong(i * 1000));
        }
        if i % 30 == 0 {
            assert_eq!(s.hb(i * 1000), Action::Probe);
        }
    }
    assert_eq!(sent, 1);
}

#[test]
fn steady_absence_sends_one_payload() {
    let (mut s, first) = Session::started(None, 0);
    assert_eq!(first, Action::Unavailable);
    for _ in 0..50 {
        assert_eq!(s.refresh(None), Action::Idle);
    }
}

#[test]
fn outage_sends_three_payloads() {
    let (mut s, first) = Session::started(Some(data(vec![1])), 0);
    let mut payloads = vec![first];
    let polls = vec![
        Some(data(vec![1])),
        None,
        None,
        None,
        Some(data(vec![1, 5])),
        Some(data(vec![1, 5])),
    ];
    for p in polls {
        let a = s.refresh(p);
        if is_payload(&a) {
            payloads.push(a);
        }
    }
    assert_eq!(
        payloads,
        vec![Action::Send(data(vec![1])), Action::Unavailable, Action::Send(data(vec![1, 5]))]
    );
}

#[test]
fn change_of_any_field_is_pushed() {
    let (mut s, _) = Session::started(Some(data(vec![4, 2])), 0);
    let moved = data(vec![2, 4]);
    assert_eq!(moved.diff, 6);
    assert_eq!(s.refresh(Some(data(vec![2, 4]))), Action::Send(data(vec![2, 4])));
    let mut renamed = data(vec![2, 4]);
    renamed.tag = "XY".to_string();
    assert_eq!(s.refresh(Some(data(vec![2, 4]))), Action::Idle);
    assert_eq!(s.handle(Event::Message(Some(data(vec![2, 4])))), Action::Idle);
    assert_eq!(s.handle(Event::Message(Some(renamed))), Action::Send({
        let mut d = data(vec![2, 4]);
        d.tag = "XY".to_string();
        d
    }));
}

#[test]
fn silent_client_is_dropped() {
    let (mut s, _) = Session::started(None, 0);
    assert_eq!(s.hb(30_000), Action::Probe);
    assert_eq!(s.hb(60_000), Action::Probe);
    assert_eq!(s.hb(75_000), Action::Probe);
    assert_eq!(s.hb(76_000), Action::Stop);
    assert!(s.closed);
    assert_eq!(s.refresh(Some(data(vec![1]))), Action::Idle);
    assert_eq!(s.hb(90_000), Action::Idle);
}

#[test]
fn responsive_client_stays_connected() {
    let (mut s, _) = Session::started(None, 0);
    let mut t: u64 = 0;
    while t < 10_000_000 {
        t += 10_000;
        if t % 20_000 == 0 {
            assert_eq!(s.handle(Event::Pong(t)), Action::Idle);
        }
        if t % 30_000 == 0 {
            assert_eq!(s.hb(t), Action::Probe);
        }
    }
    assert!(!s.closed);
    assert_eq!(s.last_alive, 10_000_000);
}

#[test]
fn ping_counts_as_liveness() {
    let (mut s, _) = Session::started(None, 0);
    assert_eq!(s.handle(Event::Ping(70_000)), Action::Reply);
    assert_eq!(s.hb(120_000), Action::Probe);
    assert_eq!(s.hb(146_000), Action::Stop);
}

#[test]
fn clock_going_back_does_not_drop() {
    let (mut s, _) = Session::started(None, 100_000);
    assert_eq!(s.hb(0), Action::Probe);
    assert!(!s.closed);
}

#[test]
fn close_and_fault_end_the_session() {
    let (mut s, _) = Session::started(None, 0);
    assert_eq!(s.handle(Event::Close), Action::Close);
    assert!(s.closed);
    assert_eq!(s.handle(Event::Fault), Action::Idle);
    let (mut s, _) = Session::started(None, 0);
    assert_eq!(s.handle(Event::Fault), Action::Stop);
    assert!(s.closed);
    assert_eq!(s.handle(Event::Ping(1)), Action::Idle);
    assert_eq!(s.handle(Event::Message(None)), Action::Idle);
}
