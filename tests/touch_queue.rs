use phone_os::queue::{
    pause_after, publish_touches, SampleOutcome, TouchQueue, COOLDOWN_MS, POLL_INTERVAL_MS,
    TOUCH_QUEUE_CAPACITY,
};
use phone_os::touch::{TouchEvent, TouchPoint};

fn batch(x: u16) -> Vec<TouchPoint> {
    vec![TouchPoint { x, y: 0, id: 0, event: Some(TouchEvent::Press) }]
}

#[test]
fn full_queue_drains_in_order_without_loss() {
    let mut q = TouchQueue::with_capacity(TOUCH_QUEUE_CAPACITY);
    for i in 0..3u16 {
        assert!(q.publish(batch(i)).is_ok());
    }
    assert_eq!(q.len(), 3);
    for i in 0..3u16 {
        assert_eq!(q.drain(), Some(batch(i)));
    }
    assert_eq!(q.drain(), None);
}

#[test]
fn publishing_into_a_full_queue_waits_for_a_drain() {
    let mut q = TouchQueue::with_capacity(3);
    for i in 0..3u16 {
        assert!(q.publish(batch(i)).is_ok());
    }
    assert_eq!(q.publish(batch(9)), Err(batch(9)));
    assert_eq!(q.len(), 3);
    assert_eq!(q.drain(), Some(batch(0)));
    assert!(q.publish(batch(9)).is_ok());
    assert_eq!(q.drain(), Some(batch(1)));
    assert_eq!(q.drain(), Some(batch(2)));
    assert_eq!(q.drain(), Some(batch(9)));
}

#[test]
fn sampler_publishes_only_non_empty_batches() {
    let mut q = TouchQueue::with_capacity(1);
    assert_eq!(publish_touches(&mut q, Vec::new()), SampleOutcome::Idle);
    assert_eq!(q.len(), 0);
    assert_eq!(publish_touches(&mut q, batch(1)), SampleOutcome::Published);
    assert_eq!(publish_touches(&mut q, batch(2)), SampleOutcome::Held(batch(2)));
    assert_eq!(q.drain(), Some(batch(1)));
    assert_eq!(pause_after(&SampleOutcome::Published), COOLDOWN_MS);
    assert_eq!(pause_after(&SampleOutcome::Idle), POLL_INTERVAL_MS);
}
