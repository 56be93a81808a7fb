//! Actuation and ranging core of a small two-wheeled robot.
//!
//! Everything here is sequential decision logic over plain values: the
//! single-slot handoff between execution contexts, the remote-control command
//! decoder, the motor arbiter, the per-line echo capture state machine and the
//! two-sensor ranging cycle. Pins, timers, wakers and the scheduler stay with
//! the caller, which performs the actions these functions return.
//!
//! Every function is defined on all its inputs and is marked `no_unwind`:
//! nothing here panics, in a task or in the interrupt handler.

pub mod control;
pub mod handoff;
pub mod motor;
pub mod registry;
pub mod ultrasonic;
