use whale_watch::queue::BoundedQueue;
use whale_watch::queue::DequeueOutcome;
use whale_watch::queue::EnqueueOutcome;

#[test]
fn third_enqueue_at_capacity_two_waits_and_drops_nothing() {
    let mut q = BoundedQueue::new(2);
    assert!(matches!(q.try_enqueue("a".to_string()), EnqueueOutcome::Accepted));
    assert!(matches!(q.try_enqueue("b".to_string()), EnqueueOutcome::Accepted));
    // The queue is full and nobody is draining: the third item is
    // refused with a wait signal, and both pending items survive.
    assert!(matches!(q.try_enqueue("c".to_string()), EnqueueOutcome::MustWait));
    assert_eq!(q.len(), 2);
    // Once the consumer frees a slot, the retried offer is taken and
    // FIFO order is kept.
    match q.dequeue() {
        DequeueOutcome::Item(s) => assert_eq!(s, "a"),
        _ => panic!("expected the front item"),
    }
    assert!(matches!(q.try_enqueue("c".to_string()), EnqueueOutcome::Accepted));
    match q.dequeue() {
        DequeueOutcome::Item(s) => assert_eq!(s, "b"),
        _ => panic!("expected the front item"),
    }
    match q.dequeue() {
        DequeueOutcome::Item(s) => assert_eq!(s, "c"),
        _ => panic!("expected the front item"),
    }
}

#[test]
fn dequeue_on_empty_open_queue_waits() {
    let mut q = BoundedQueue::new(3);
    assert!(matches!(q.dequeue(), DequeueOutcome::MustWait));
}

#[test]
fn closed_queue_refuses_the_producer_and_drains_for_the_consumer() {
    let mut q = BoundedQueue::new(3);
    assert!(matches!(q.try_enqueue("x".to_string()), EnqueueOutcome::Accepted));
    q.close();
    assert!(matches!(q.try_enqueue("y".to_string()), EnqueueOutcome::Closed));
    match q.dequeue() {
        DequeueOutcome::Item(s) => assert_eq!(s, "x"),
        _ => panic!("expected the pending item"),
    }
    assert!(matches!(q.dequeue(), DequeueOutcome::EndOfStream));
}
