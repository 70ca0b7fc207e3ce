use channel_core::buffer::RingBuffer;
use channel_core::control::{retired, ControlBlock};
use std::sync::atomic::{AtomicUsize, Ordering};
use std::sync::Arc;
use std::task::{Wake, Waker};

/// A task that counts how often it is woken.
struct Task(AtomicUsize);

impl Wake for Task {
    fn wake(self: Arc<Self>) {
        self.0.fetch_add(1, Ordering::SeqCst);
    }
}

fn task() -> (Arc<Task>, Waker) {
    let task = Arc::new(Task(AtomicUsize::new(0)));
    let waker = Waker::from(task.clone());
    (task, waker)
}

#[test]
fn control_block_starts_connected() {
    let ctrl = ControlBlock::<()>::new(1);
    assert!(ctrl.connected.load(Ordering::Relaxed));
}

#[test]
fn control_block_starts_with_reference_counters_equal_to_one() {
    let ctrl = ControlBlock::<()>::new(1);
    assert_eq!(ctrl.senders.load(Ordering::Relaxed), 1);
    assert_eq!(ctrl.receivers.load(Ordering::Relaxed), 1);
}

#[test]
fn control_block_allocates_buffer_given_capacity() {
    for capacity in 1..=100usize {
        let ctrl = ControlBlock::<()>::new(capacity);
        assert_eq!(ctrl.buffer.capacity(), capacity);
    }
}

#[test]
fn control_block_accepts_capacity_zero() {
    let ctrl = ControlBlock::<u8>::new(0);
    assert_eq!(ctrl.buffer.capacity(), 0);
    assert!(ctrl.connected.load(Ordering::Relaxed));
}

#[test]
fn control_block_starts_with_nobody_waiting() {
    let ctrl = ControlBlock::<()>::new(4);
    assert!(ctrl.waitlist.is_empty());
    assert_eq!(ctrl.waitlist.len(), 0);
}

#[test]
fn ring_buffer_keeps_its_capacity() {
    assert_eq!(RingBuffer::<String>::new(0).capacity(), 0);
    assert_eq!(RingBuffer::<String>::new(7).capacity(), 7);
    assert_eq!(RingBuffer::<String>::new(usize::MAX).capacity(), usize::MAX);
}

#[test]
fn retired_needs_disconnection_and_no_endpoints() {
    assert!(retired(false, 0, 0));
    assert!(!retired(true, 0, 0));
    assert!(!retired(false, 1, 0));
    assert!(!retired(false, 0, 1));
    assert!(!retired(true, 1, 1));
    assert!(!retired(false, usize::MAX, 0));
}

#[test]
fn control_block_is_retired_once_both_sides_left() {
    let ctrl = ControlBlock::<()>::new(2);
    assert!(!ctrl.is_retired());
    ctrl.senders.fetch_sub(1, Ordering::SeqCst);
    assert!(!ctrl.is_retired());
    ctrl.connected.store(false, Ordering::SeqCst);
    assert!(!ctrl.is_retired());
    ctrl.receivers.fetch_sub(1, Ordering::SeqCst);
    assert!(ctrl.is_retired());
}

#[test]
fn three_waiters_are_woken_by_one_signal() {
    let ctrl = ControlBlock::<()>::new(4);
    let (a, waker_a) = task();
    let (b, waker_b) = task();
    let (c, waker_c) = task();
    assert!(!waker_a.will_wake(&waker_b));
    assert!(!waker_a.will_wake(&waker_c));
    assert!(!waker_b.will_wake(&waker_c));

    ctrl.waitlist.wait(waker_a);
    ctrl.waitlist.wait(waker_b);
    ctrl.waitlist.wait(waker_c);
    assert_eq!(ctrl.waitlist.len(), 3);

    ctrl.waitlist.wake();
    assert_eq!(a.0.load(Ordering::SeqCst), 1);
    assert_eq!(b.0.load(Ordering::SeqCst), 1);
    assert_eq!(c.0.load(Ordering::SeqCst), 1);
    assert_eq!(ctrl.waitlist.len(), 0);
    assert!(ctrl.waitlist.is_empty());

    ctrl.waitlist.wake();
    assert_eq!(a.0.load(Ordering::SeqCst), 1);
    assert_eq!(b.0.load(Ordering::SeqCst), 1);
    assert_eq!(c.0.load(Ordering::SeqCst), 1);
}

#[test]
fn clones_of_a_waker_are_stored_once() {
    let ctrl = ControlBlock::<()>::new(1);
    let (a, waker_a) = task();
    let (b, waker_b) = task();

    ctrl.waitlist.wait(waker_a.clone());
    ctrl.waitlist.wait(waker_a.clone());
    ctrl.waitlist.wait(waker_b.clone());
    ctrl.waitlist.wait(waker_a);
    ctrl.waitlist.wait(waker_b);
    assert_eq!(ctrl.waitlist.len(), 2);

    ctrl.waitlist.wake();
    assert_eq!(a.0.load(Ordering::SeqCst), 1);
    assert_eq!(b.0.load(Ordering::SeqCst), 1);
}

#[test]
fn waker_is_a_waiter() {
    let (a, waker_a) = task();
    let (_, waker_b) = task();
    let again = waker_a.clone();
    assert!(channel_core::waitlist::Wake::will_wake(&waker_a, &again));
    assert!(!channel_core::waitlist::Wake::will_wake(&waker_a, &waker_b));
    channel_core::waitlist::Wake::wake(waker_a);
    assert_eq!(a.0.load(Ordering::SeqCst), 1);
    channel_core::waitlist::Wake::wake(again);
    assert_eq!(a.0.load(Ordering::SeqCst), 2);
}
