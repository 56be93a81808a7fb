//! Single-slot, overwrite-on-write handoff between a producer and one consumer.
//!
//! A slot holds at most one unread value. Writing replaces whatever was there
//! and tells the producer whether a suspended consumer has to be resumed;
//! reading takes the value and leaves the slot empty. The slot itself never
//! blocks: suspension and wake-up are the caller's business, the slot only
//! records that a consumer is waiting.

use vstd::prelude::*;

verus! {

/// What a slot holds at one instant.
pub enum SlotState<T> {
    /// No value, nobody waiting.
    Empty,
    /// No value; one consumer has registered and is suspended.
    Waiting,
    /// One unread value. A slot with a value has no waiter: the write that
    /// stored the value resumed it.
    Pending(T),
}

impl<T> SlotState<T> {
    /// The unread value, if there is one.
    pub open spec fn pending(self) -> Option<T> {
        match self {
            SlotState::Pending(value) => Some(value),
            _ => None,
        }
    }

    /// Whether a consumer is registered as waiting.
    pub open spec fn has_waiter(self) -> bool {
        self is Waiting
    }

    /// The state after a write of `value`.
    pub open spec fn written(self, value: T) -> SlotState<T> {
        SlotState::Pending(value)
    }

    /// The state after a non-suspending read.
    pub open spec fn taken(self) -> SlotState<T> {
        match self {
            SlotState::Pending(_) => SlotState::Empty,
            other => other,
        }
    }

    /// The state after a consumer polled the slot in order to wait on it.
    pub open spec fn awaited(self) -> SlotState<T> {
        match self {
            SlotState::Pending(_) => SlotState::Empty,
            _ => SlotState::Waiting,
        }
    }
}

/// A single-slot handoff channel.
pub struct HandoffSlot<T> {
    state: SlotState<T>,
}

impl<T> View for HandoffSlot<T> {
    type V = SlotState<T>;

    closed spec fn view(&self) -> SlotState<T> {
        self.state
    }
}

impl<T> HandoffSlot<T> {
    /// An empty slot with no waiter.
    pub fn new() -> (slot: Self)
        ensures
            slot@ == SlotState::<T>::Empty,
        no_unwind
    {
        HandoffSlot { state: SlotState::Empty }
    }

    /// Stores `value`, replacing any unread value. Returns whether a waiting
    /// consumer has to be resumed; its registration is consumed by the write.
    pub fn write(&mut self, value: T) -> (wake: bool)
        ensures
            final(self)@ == old(self)@.written(value),
            wake == old(self)@.has_waiter(),
        no_unwind
    {
        let mut previous = SlotState::Pending(value);
        core::mem::swap(&mut self.state, &mut previous);
        match previous {
            SlotState::Waiting => true,
            _ => false,
        }
    }

    /// Takes the unread value without registering a waiter. A registered
    /// waiter stays registered.
    pub fn try_read(&mut self) -> (value: Option<T>)
        ensures
            value == old(self)@.pending(),
            final(self)@ == old(self)@.taken(),
        no_unwind
    {
        let mut previous = SlotState::Empty;
        core::mem::swap(&mut self.state, &mut previous);
        match previous {
            SlotState::Pending(value) => Some(value),
            SlotState::Waiting => {
                self.state = SlotState::Waiting;
                None
            },
            SlotState::Empty => None,
        }
    }

    /// One poll of a consumer that waits on the slot: takes the unread value
    /// if there is one, and otherwise registers the consumer as waiting so
    /// that the next write reports a wake-up.
    pub fn wait(&mut self) -> (value: Option<T>)
        ensures
            value == old(self)@.pending(),
            final(self)@ == old(self)@.awaited(),
        no_unwind
    {
        let mut previous = SlotState::Waiting;
        core::mem::swap(&mut self.state, &mut previous);
        match previous {
            SlotState::Pending(value) => {
                self.state = SlotState::Empty;
                Some(value)
            },
            _ => None,
        }
    }

    /// Drops the unread value and the waiter registration.
    pub fn reset(&mut self)
        ensures
            final(self)@ == SlotState::<T>::Empty,
        no_unwind
    {
        self.state = SlotState::Empty;
    }

    /// Whether an unread value is present. Does not clear the slot.
    pub fn signaled(&self) -> (yes: bool)
        ensures
            yes == (self@.pending() is Some),
        no_unwind
    {
        match &self.state {
            SlotState::Pending(_) => true,
            _ => false,
        }
    }
}

/// Overwrite semantics: of two writes with no read between them only the
/// second is ever observed. The read that follows yields the second value and
/// leaves nothing behind for a further read, whatever the slot held before.
pub proof fn lemma_second_write_wins<T>(slot: SlotState<T>, first: T, second: T)
    ensures
        slot.written(first).written(second).pending() == Some(second),
        slot.written(first).written(second).taken().pending() is None,
        slot.written(first).written(second) == slot.written(second),
{
}

/// One registration, one wake-up. A poll registers the consumer exactly when
/// it finds nothing to take, and a write consumes the registration: whatever
/// the slot held, nobody is registered after a write, so the write that
/// follows resumes nobody.
pub proof fn lemma_one_wake_per_waiter<T>(slot: SlotState<T>, value: T)
    ensures
        slot.awaited().has_waiter() == (slot.pending() is None),
        !slot.written(value).has_waiter(),
        slot.awaited().written(value).pending() == Some(value),
{
}

} // verus!
