use std::future::Future;
use std::pin::Pin;
use std::sync::atomic::{AtomicUsize, Ordering};
use std::sync::Arc;
use std::task::{Context, Poll, Wake, Waker};

use embassy_sync::blocking_mutex::raw::NoopRawMutex;
use embassy_sync::signal::Signal;
use zumito::handoff::HandoffSlot;

struct WakeCounter {
    wakes: AtomicUsize,
}

impl Wake for WakeCounter {
    fn wake(self: Arc<Self>) {
        self.wakes.fetch_add(1, Ordering::SeqCst);
    }
}

fn poll_once(signal: &Signal<NoopRawMutex, u32>, waker: &Waker) -> Option<u32> {
    let mut context = Context::from_waker(waker);
    let mut wait: Pin<Box<dyn Future<Output = u32> + '_>> = Box::pin(signal.wait());
    match wait.as_mut().poll(&mut context) {
        Poll::Ready(value) => Some(value),
        Poll::Pending => None,
    }
}

#[test]
fn new_slot_is_empty() {
    let mut slot: HandoffSlot<u32> = HandoffSlot::new();
    assert!(!slot.signaled());
    assert_eq!(slot.try_read(), None);
}

#[test]
fn write_then_read_returns_the_value_once() {
    let mut slot = HandoffSlot::new();
    assert!(!slot.write(7u32));
    assert!(slot.signaled());
    assert_eq!(slot.try_read(), Some(7));
    assert!(!slot.signaled());
    assert_eq!(slot.try_read(), None);
}

#[test]
fn second_write_overwrites_the_first() {
    let mut slot = HandoffSlot::new();
    slot.write(1u32);
    slot.write(2u32);
    assert_eq!(slot.try_read(), Some(2));
    assert_eq!(slot.try_read(), None);
}

#[test]
fn write_wakes_a_registered_waiter_exactly_once() {
    let mut slot = HandoffSlot::new();
    assert_eq!(slot.wait(), None);
    assert!(slot.write(5u32));
    assert!(!slot.write(6u32));
    assert_eq!(slot.wait(), Some(6));
    assert!(!slot.write(7u32));
}

#[test]
fn write_without_waiter_wakes_nobody() {
    let mut slot = HandoffSlot::new();
    assert!(!slot.write(5u32));
    assert_eq!(slot.wait(), Some(5));
    assert!(!slot.write(6u32));
}

#[test]
fn try_read_keeps_the_waiter_registered() {
    let mut slot: HandoffSlot<u32> = HandoffSlot::new();
    assert_eq!(slot.wait(), None);
    assert_eq!(slot.try_read(), None);
    assert!(slot.write(9));
}

#[test]
fn reset_drops_value_and_waiter() {
    let mut slot = HandoffSlot::new();
    slot.write(3u32);
    slot.reset();
    assert!(!slot.signaled());
    assert_eq!(slot.try_read(), None);
    assert_eq!(slot.wait(), None);
    slot.reset();
    assert!(!slot.write(4));
}

#[test]
fn slot_carries_values_that_are_not_copy() {
    let mut slot = HandoffSlot::new();
    slot.write(String::from("first"));
    slot.write(String::from("second"));
    assert_eq!(slot.wait(), Some(String::from("second")));
    assert_eq!(slot.wait(), None);
}

/// One operation on a slot, applied to the slot and to a `Signal` alike.
#[derive(Clone, Copy, Debug)]
enum Op {
    Write(u32),
    TryRead,
    Wait,
    Reset,
    Signaled,
}

fn run_both(ops: &[Op]) {
    let counter = Arc::new(WakeCounter { wakes: AtomicUsize::new(0) });
    let waker = Waker::from(counter.clone());
    let signal: Signal<NoopRawMutex, u32> = Signal::new();
    let mut slot: HandoffSlot<u32> = HandoffSlot::new();
    for (step, op) in ops.iter().enumerate() {
        match *op {
            Op::Write(value) => {
                let before = counter.wakes.load(Ordering::SeqCst);
                signal.signal(value);
                let woken = counter.wakes.load(Ordering::SeqCst) - before;
                let wake = slot.write(value);
                assert_eq!(woken, if wake { 1 } else { 0 }, "step {step}: {op:?}");
            }
            Op::TryRead => {
                assert_eq!(slot.try_read(), signal.try_take(), "step {step}: {op:?}");
            }
            Op::Wait => {
                assert_eq!(slot.wait(), poll_once(&signal, &waker), "step {step}: {op:?}");
            }
            Op::Reset => {
                signal.reset();
                slot.reset();
            }
            Op::Signaled => {
                assert_eq!(slot.signaled(), signal.signaled(), "step {step}: {op:?}");
            }
        }
    }
}

#[test]
fn slot_agrees_with_embassy_signal_on_a_fixed_script() {
    run_both(&[
        Op::Signaled,
        Op::TryRead,
        Op::Write(1),
        Op::Signaled,
        Op::Write(2),
        Op::TryRead,
        Op::TryRead,
        Op::Wait,
        Op::Signaled,
        Op::Write(3),
        Op::Write(4),
        Op::Wait,
        Op::Wait,
        Op::TryRead,
        Op::Write(5),
        Op::Reset,
        Op::Wait,
        Op::Reset,
        Op::Write(6),
        Op::Signaled,
        Op::Wait,
    ]);
}

#[test]
fn slot_agrees_with_embassy_signal_on_every_short_script() {
    let alphabet = [Op::Write(1), Op::Write(2), Op::TryRead, Op::Wait, Op::Reset, Op::Signaled];
    let length = 5;
    let mut total = 1usize;
    for _ in 0..length {
        total *= alphabet.len();
    }
    for mut code in 0..total {
        let mut ops = Vec::new();
        for _ in 0..length {
            ops.push(alphabet[code % alphabet.len()]);
            code /= alphabet.len();
        }
        ops.push(Op::Write(9));
        ops.push(Op::Wait);
        run_both(&ops);
    }
}
