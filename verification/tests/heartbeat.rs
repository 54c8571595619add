use bybit_shiprekt::heartbeat::{HeartbeatSignal, HeartbeatState, HeartbeatVerdict};

#[test]
fn heartbeat_starts_idle() {
    let state = HeartbeatState::new(5);
    assert_eq!(state, HeartbeatState { last_sent_at: 5, awaiting_ack: false });
}

#[test]
fn timer_in_idle_sends_a_keepalive() {
    let mut state = HeartbeatState::new(0);
    assert_eq!(state.step(HeartbeatSignal::TimerFired(30)), HeartbeatVerdict::SendKeepalive);
    assert_eq!(state, HeartbeatState { last_sent_at: 30, awaiting_ack: true });
}

#[test]
fn ack_returns_to_idle() {
    let mut state = HeartbeatState { last_sent_at: 30, awaiting_ack: true };
    assert_eq!(state.step(HeartbeatSignal::AckObserved), HeartbeatVerdict::Nothing);
    assert_eq!(state, HeartbeatState { last_sent_at: 30, awaiting_ack: false });
    assert_eq!(state.step(HeartbeatSignal::AckObserved), HeartbeatVerdict::Nothing);
    assert_eq!(state, HeartbeatState { last_sent_at: 30, awaiting_ack: false });
}

#[test]
fn timer_without_ack_terminates() {
    let mut state = HeartbeatState::new(0);
    assert_eq!(state.step(HeartbeatSignal::TimerFired(30)), HeartbeatVerdict::SendKeepalive);
    assert_eq!(state.step(HeartbeatSignal::TimerFired(60)), HeartbeatVerdict::Terminate);
    assert_eq!(state, HeartbeatState { last_sent_at: 30, awaiting_ack: true });
}

#[test]
fn failed_send_terminates() {
    let mut state = HeartbeatState::new(0);
    assert_eq!(state.step(HeartbeatSignal::TimerFired(30)), HeartbeatVerdict::SendKeepalive);
    assert_eq!(state.step(HeartbeatSignal::SendFailed), HeartbeatVerdict::Terminate);
}

#[test]
fn never_two_keepalives_without_an_ack_between() {
    let signals = [
        HeartbeatSignal::TimerFired(1),
        HeartbeatSignal::TimerFired(2),
        HeartbeatSignal::SendFailed,
        HeartbeatSignal::AckObserved,
        HeartbeatSignal::AckObserved,
        HeartbeatSignal::TimerFired(3),
        HeartbeatSignal::AckObserved,
        HeartbeatSignal::TimerFired(4),
        HeartbeatSignal::TimerFired(5),
        HeartbeatSignal::TimerFired(6),
        HeartbeatSignal::AckObserved,
        HeartbeatSignal::TimerFired(7),
    ];
    let mut state = HeartbeatState::new(0);
    let mut outstanding = false;
    let mut sent = 0;
    for signal in signals {
        let verdict = state.step(signal);
        if verdict == HeartbeatVerdict::SendKeepalive {
            assert!(!outstanding);
            outstanding = true;
            sent += 1;
        }
        if signal == HeartbeatSignal::AckObserved {
            outstanding = false;
        }
        assert_eq!(state.awaiting_ack, outstanding);
    }
    assert_eq!(sent, 4);
}

#[test]
fn timer_is_due_after_a_full_period() {
    let state = HeartbeatState { last_sent_at: 1_000, awaiting_ack: false };
    assert!(!state.due(1_000, 30_000));
    assert!(!state.due(30_999, 30_000));
    assert!(state.due(31_000, 30_000));
    assert!(state.due(u64::MAX, 30_000));
    assert!(!state.due(0, 30_000));
    assert!(state.due(1_000, 0));
    let late = HeartbeatState { last_sent_at: u64::MAX, awaiting_ack: true };
    assert!(!late.due(u64::MAX, 1));
    assert!(late.due(u64::MAX, 0));
}
