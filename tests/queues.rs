use buzzer_board::queue::{
    ButtonPressQueue, LedCommandQueue, BUTTON_PRESS_CAPACITY, LED_COMMAND_CAPACITY,
};

#[test]
fn press_queue_is_fifo() {
    let mut q = ButtonPressQueue::new();
    assert_eq!(q.dequeue(), None);
    assert!(q.enqueue(1, 100));
    assert!(q.enqueue(2, 200));
    assert_eq!(q.dequeue(), Some((1, 100)));
    assert_eq!(q.dequeue(), Some((2, 200)));
    assert_eq!(q.dequeue(), None);
}

#[test]
fn press_queue_drops_newest_when_full() {
    let mut q = ButtonPressQueue::new();
    for i in 0..BUTTON_PRESS_CAPACITY + 6 {
        let accepted = q.enqueue((i % 7) as u8, i as u64);
        assert_eq!(accepted, i < BUTTON_PRESS_CAPACITY);
    }
    for i in 0..BUTTON_PRESS_CAPACITY {
        assert_eq!(q.dequeue(), Some(((i % 7) as u8, i as u64)));
    }
    assert_eq!(q.dequeue(), None);
}

#[test]
fn led_queue_drops_newest_when_full() {
    let mut q = LedCommandQueue::new();
    for i in 0..LED_COMMAND_CAPACITY + 3 {
        let accepted = q.enqueue(i as u8, i % 2 == 0);
        assert_eq!(accepted, i < LED_COMMAND_CAPACITY);
    }
    for i in 0..LED_COMMAND_CAPACITY {
        assert_eq!(q.dequeue(), Some((i as u8, i % 2 == 0)));
    }
    assert_eq!(q.dequeue(), None);
    assert!(q.enqueue(9, true));
    assert_eq!(q.dequeue(), Some((9, true)));
}
