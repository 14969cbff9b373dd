use buzzer_board::clock::{millis_since_origin, to_clock_reading, ClockOrigin};
use buzzer_board::codec::{encode, ButtonPress, LedUpdate, Message};
use buzzer_board::queue::{ButtonPressQueue, LedCommandQueue};
use buzzer_board::receive::{handle_message, RxSession, RxStep};
use buzzer_board::session::{
    SessionState, TxAction, TxSession, WriteOutcome, CONNECT_BACKOFF_MILLIS, POLL_MILLIS,
    RX_BUFFER_LEN, THROTTLE_MILLIS,
};

fn connected_tx() -> TxSession {
    let mut tx = TxSession::new();
    let mut q = ButtonPressQueue::new();
    let origin = ClockOrigin::new();
    assert!(matches!(tx.next_action(&mut q, &origin), TxAction::Connect));
    assert_eq!(tx.state(), SessionState::Connecting);
    assert_eq!(tx.on_connect_result(true), None);
    tx
}

fn connected_rx() -> RxSession {
    let mut rx = RxSession::new();
    rx.start_connect();
    assert_eq!(rx.on_connect_result(true), None);
    rx
}

#[test]
fn relative_time_after_reset() {
    let mut origin = ClockOrigin::new();
    assert_eq!(origin.get(), 0);
    origin.reset(1000);
    assert_eq!(origin.get(), 1000);
    assert_eq!(millis_since_origin(999, origin.get()), 0);
    assert_eq!(millis_since_origin(1000, origin.get()), 0);
    assert_eq!(millis_since_origin(1001, origin.get()), 1);
    assert_eq!(millis_since_origin(5000, origin.get()), 4000);
}

#[test]
fn relative_time_uses_all_bits_of_press_time() {
    let big = 1u64 << 32;
    assert_eq!(millis_since_origin(big + 500, 1000), u32::MAX - 499);
    assert_eq!(millis_since_origin(big + 4000, (big - 1000) as u32), 5000);
    assert_eq!(millis_since_origin(u64::MAX, 0), u32::MAX);
    assert_eq!(millis_since_origin(big + 1000, 1000), u32::MAX);
    assert_eq!(millis_since_origin(big + 999, 1000), u32::MAX);
    assert_eq!(millis_since_origin(big + 998, 1000), u32::MAX - 1);
}

#[test]
fn late_press_after_late_reset_is_sent() {
    let mut tx = connected_tx();
    let mut q = ButtonPressQueue::new();
    let big = 1u64 << 32;
    assert!(q.enqueue(1, big + 4000));
    let mut origin = ClockOrigin::new();
    origin.reset(big - 1000);
    let expected = encode(&Message::ButtonPress(ButtonPress {
        button_id: 1,
        millis_since_init: 5000,
    }));
    match tx.next_action(&mut q, &origin) {
        TxAction::Send(bytes) => assert_eq!(bytes, expected),
        other => panic!("expected a send, got {:?}", other),
    }
}

#[test]
fn reaction_game_init_resets_origin() {
    let mut origin = ClockOrigin::new();
    let mut leds = LedCommandQueue::new();
    handle_message(Message::InitReactionGame(42), 9876, &mut origin, &mut leds);
    assert_eq!(origin.get(), 9876);
    assert_eq!(leds.dequeue(), None);
}

#[test]
fn clock_reading_keeps_low_bits() {
    assert_eq!(to_clock_reading(5), 5);
    assert_eq!(to_clock_reading((1u64 << 32) + 7), 7);
}

#[test]
fn transmit_one_press_relative_to_origin() {
    let mut tx = connected_tx();
    let mut q = ButtonPressQueue::new();
    assert!(q.enqueue(2, 5000));
    let mut origin = ClockOrigin::new();
    origin.reset(1000);
    let expected = encode(&Message::ButtonPress(ButtonPress {
        button_id: 2,
        millis_since_init: 4000,
    }));
    match tx.next_action(&mut q, &origin) {
        TxAction::Send(bytes) => assert_eq!(bytes, expected),
        other => panic!("expected a send, got {:?}", other),
    }
    tx.on_write_result(WriteOutcome::Written);
    assert_eq!(tx.state(), SessionState::Connected);
    assert!(matches!(
        tx.next_action(&mut q, &origin),
        TxAction::Sleep(THROTTLE_MILLIS)
    ));
}

#[test]
fn stale_press_is_dropped() {
    let mut tx = connected_tx();
    let mut q = ButtonPressQueue::new();
    assert!(q.enqueue(3, 900));
    assert!(q.enqueue(4, 1000));
    let mut origin = ClockOrigin::new();
    origin.reset(1000);
    assert!(matches!(tx.next_action(&mut q, &origin), TxAction::DropStale(3)));
    assert!(matches!(tx.next_action(&mut q, &origin), TxAction::DropStale(4)));
    assert!(matches!(tx.next_action(&mut q, &origin), TxAction::Sleep(_)));
}

#[test]
fn unconnected_transmit_leaves_queue() {
    let mut tx = TxSession::new();
    let mut q = ButtonPressQueue::new();
    assert!(q.enqueue(1, 50));
    let origin = ClockOrigin::new();
    assert!(matches!(tx.next_action(&mut q, &origin), TxAction::Connect));
    assert_eq!(q.dequeue(), Some((1, 50)));
}

#[test]
fn transmit_reset_disconnects_other_errors_do_not() {
    let mut tx = connected_tx();
    tx.on_write_result(WriteOutcome::Failed);
    assert_eq!(tx.state(), SessionState::Connected);
    tx.on_write_result(WriteOutcome::ConnectionReset);
    assert_eq!(tx.state(), SessionState::Disconnected);
}

#[test]
fn connects_after_k_backoffs() {
    for k in 0..5u32 {
        let mut tx = TxSession::new();
        let mut q = ButtonPressQueue::new();
        let origin = ClockOrigin::new();
        let mut backoffs = 0u32;
        let mut attempt = 0u32;
        while tx.state() != SessionState::Connected {
            assert!(matches!(tx.next_action(&mut q, &origin), TxAction::Connect));
            let ok = attempt == k;
            attempt += 1;
            if let Some(wait) = tx.on_connect_result(ok) {
                assert_eq!(wait, CONNECT_BACKOFF_MILLIS);
                backoffs += 1;
            }
        }
        assert_eq!(backoffs, k);
    }
}

#[test]
fn receive_connect_failure_backs_off() {
    let mut rx = RxSession::new();
    rx.start_connect();
    assert_eq!(rx.state(), SessionState::Connecting);
    assert_eq!(rx.on_connect_result(false), Some(CONNECT_BACKOFF_MILLIS));
    assert_eq!(rx.state(), SessionState::Disconnected);
}

#[test]
fn led_update_split_across_two_reads() {
    let mut rx = connected_rx();
    let mut origin = ClockOrigin::new();
    let mut leds = LedCommandQueue::new();
    let bytes = encode(&Message::LedUpdate(LedUpdate { button_id: 4, on: true }));
    let step = rx.receive(&bytes[..1], 10, &mut origin, &mut leds);
    assert_eq!(step, RxStep::Waiting);
    assert_eq!(leds.dequeue(), None);
    let step = rx.receive(&bytes[1..], 20, &mut origin, &mut leds);
    assert_eq!(
        step,
        RxStep::Received(Message::LedUpdate(LedUpdate { button_id: 4, on: true }))
    );
    assert_eq!(leds.dequeue(), Some((4, true)));
    assert_eq!(leds.dequeue(), None);
    assert_eq!(origin.get(), 0);
}

#[test]
fn idle_decode_failures_force_reconnect() {
    let mut rx = connected_rx();
    let mut origin = ClockOrigin::new();
    let mut leds = LedCommandQueue::new();
    assert_eq!(rx.receive(&[9u8, 9], 0, &mut origin, &mut leds), RxStep::Waiting);
    for _ in 0..3 {
        assert_eq!(rx.receive(&[], 0, &mut origin, &mut leds), RxStep::Poll(POLL_MILLIS));
        assert_eq!(rx.state(), SessionState::Connected);
    }
    assert_eq!(rx.receive(&[], 0, &mut origin, &mut leds), RxStep::Reconnect);
    assert_eq!(rx.state(), SessionState::Disconnected);
}

#[test]
fn idle_read_completes_buffered_message() {
    let mut rx = connected_rx();
    let mut origin = ClockOrigin::new();
    let mut leds = LedCommandQueue::new();
    let bytes = encode(&Message::Ping(3));
    assert_eq!(rx.receive(&bytes[..2], 0, &mut origin, &mut leds), RxStep::Waiting);
    assert_eq!(rx.receive(&[], 0, &mut origin, &mut leds), RxStep::Poll(POLL_MILLIS));
    assert_eq!(
        rx.receive(&bytes[2..], 0, &mut origin, &mut leds),
        RxStep::Received(Message::Ping(3))
    );
    assert_eq!(rx.on_read(&[]), RxStep::Poll(POLL_MILLIS));
}

#[test]
fn init_board_resets_origin() {
    let mut rx = connected_rx();
    let mut origin = ClockOrigin::new();
    let mut leds = LedCommandQueue::new();
    let bytes = encode(&Message::InitBoard);
    assert_eq!(
        rx.receive(&bytes, 1234, &mut origin, &mut leds),
        RxStep::Received(Message::InitBoard)
    );
    assert_eq!(origin.get(), 1234);
    assert_eq!(leds.dequeue(), None);
}

#[test]
fn buffer_overflow_forces_reconnect() {
    let mut rx = connected_rx();
    let garbage = vec![9u8; RX_BUFFER_LEN];
    assert_eq!(rx.on_read(&garbage), RxStep::Waiting);
    assert_eq!(rx.on_read(&[9u8]), RxStep::Reconnect);
    assert_eq!(rx.state(), SessionState::Disconnected);
}

#[test]
fn read_reset_drops_connection() {
    let mut rx = connected_rx();
    rx.on_read_error(false);
    assert_eq!(rx.state(), SessionState::Connected);
    rx.on_read_error(true);
    assert_eq!(rx.state(), SessionState::Disconnected);
}

#[test]
fn dispatch_ignores_unknown_led_ping_and_button_press() {
    let mut origin = ClockOrigin::new();
    origin.reset(77);
    let mut leds = LedCommandQueue::new();
    handle_message(Message::LedUpdate(LedUpdate { button_id: 6, on: true }), 5, &mut origin, &mut leds);
    handle_message(Message::Ping(1), 5, &mut origin, &mut leds);
    handle_message(
        Message::ButtonPress(ButtonPress { button_id: 1, millis_since_init: 9 }),
        5,
        &mut origin,
        &mut leds,
    );
    assert_eq!(leds.dequeue(), None);
    assert_eq!(origin.get(), 77);
    handle_message(Message::LedUpdate(LedUpdate { button_id: 5, on: false }), 5, &mut origin, &mut leds);
    assert_eq!(leds.dequeue(), Some((5, false)));
}
