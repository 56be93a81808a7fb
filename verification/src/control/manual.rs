//! Manual remote control: decodes fixed-format command messages into one
//! command per motor and hands them to the arbiter.
//!
//! A message is a byte buffer of fixed capacity together with the number of
//! bytes that were received into it. Only messages of exactly
//! [`COMMAND_LEN`] bytes are commands; every other length is dropped without
//! effect. Byte 0 is reserved, byte 1 is the duty of motor one, byte 2 the
//! duty of motor two. The direction is always forward.

use crate::motor::{Direction, MotorCommand, MotorId, Motors, MotorsView};
use vstd::prelude::*;

verus! {

/// Capacity of a message buffer in bytes.
pub const MSG_MAX_LEN: usize = 32;

/// Length of a valid command message in bytes.
pub const COMMAND_LEN: usize = 3;

/// The commands that a message of `msg_len` received bytes encodes, for motor
/// one and motor two in this order.
pub open spec fn spec_decode(msg_len: usize, msg: Seq<u8>) -> Option<(MotorCommand, MotorCommand)> {
    if msg_len == COMMAND_LEN {
        Some(
            (
                MotorCommand { duty: msg[1], direction: Direction::Forward },
                MotorCommand { duty: msg[2], direction: Direction::Forward },
            ),
        )
    } else {
        None
    }
}

/// The arbiter's state after a message was interpreted: both slots written if
/// the message is a command, nothing changed if it is not.
pub open spec fn spec_control(motors: MotorsView, msg_len: usize, msg: Seq<u8>) -> MotorsView {
    match spec_decode(msg_len, msg) {
        Some((first, second)) => motors.signalled(MotorId::One, first).signalled(
            MotorId::Two,
            second,
        ),
        None => motors,
    }
}

/// Decodes one message. Returns the two commands if and only if `msg_len` is
/// exactly [`COMMAND_LEN`].
pub fn decode(msg_len: usize, msg: &[u8; MSG_MAX_LEN]) -> (commands: Option<
    (MotorCommand, MotorCommand),
>)
    ensures
        commands == spec_decode(msg_len, msg@),
        commands is Some <==> msg_len == COMMAND_LEN,
    no_unwind
{
    if msg_len != COMMAND_LEN {
        return None;
    }
    Some(
        (
            MotorCommand { duty: msg[1], direction: Direction::Forward },
            MotorCommand { duty: msg[2], direction: Direction::Forward },
        ),
    )
}

/// What interpreting one message did.
#[derive(Clone, Copy, Debug, PartialEq, Eq)]
pub struct Delivery {
    /// The commands that were handed to the arbiter, if the message was valid.
    pub commands: Option<(MotorCommand, MotorCommand)>,
    /// Whether the arbiter was waiting on a slot that was written and has to
    /// be resumed.
    pub wake: bool,
}

/// Interprets one message and hands the decoded commands to the arbiter. A
/// message of any length other than [`COMMAND_LEN`] is dropped: the arbiter,
/// its slots and its hardware images stay exactly as they were.
pub fn control(msg_len: usize, msg: &[u8; MSG_MAX_LEN], motors: &mut Motors) -> (delivery: Delivery)
    ensures
        delivery.commands == spec_decode(msg_len, msg@),
        final(motors)@ == spec_control(old(motors)@, msg_len, msg@),
        msg_len != COMMAND_LEN ==> *final(motors) == *old(motors),
        delivery.wake == (msg_len == COMMAND_LEN && (old(motors)@.command_1.has_waiter() || old(
            motors,
        )@.command_2.has_waiter())),
    no_unwind
{
    match decode(msg_len, msg) {
        Some((first, second)) => {
            let wake_1 = motors.signal(MotorId::One, first);
            let wake_2 = motors.signal(MotorId::Two, second);
            Delivery { commands: Some((first, second)), wake: wake_1 || wake_2 }
        },
        None => Delivery { commands: None, wake: false },
    }
}

/// A message whose length is not [`COMMAND_LEN`] yields no command and leaves
/// the arbiter as it was: what the next poll applies, and the hardware
/// image of either motor after it, are the same as if the message had never
/// arrived.
pub proof fn lemma_malformed_message_changes_nothing(
    motors: MotorsView,
    msg_len: usize,
    msg: Seq<u8>,
)
    requires
        msg_len != COMMAND_LEN,
    ensures
        spec_decode(msg_len, msg) is None,
        spec_control(motors, msg_len, msg) == motors,
        spec_control(motors, msg_len, msg).output() == motors.output(),
        spec_control(motors, msg_len, msg).polled() == motors.polled(),
{
}

/// A valid message reaches both motors: the first poll after it applies byte
/// 1 as the duty of motor one, the second poll applies byte 2 as the duty of
/// motor two, both forward, whatever the slots held before.
pub proof fn lemma_command_message_drives_both_motors(motors: MotorsView, msg: Seq<u8>)
    ensures
        spec_control(motors, COMMAND_LEN, msg).polled().pwm_a.timestamp == msg[1],
        spec_control(motors, COMMAND_LEN, msg).polled().pwm_a.lines
            == Direction::Forward.spec_levels(),
        spec_control(motors, COMMAND_LEN, msg).polled().polled().pwm_b.timestamp == msg[2],
        spec_control(motors, COMMAND_LEN, msg).polled().polled().pwm_b.lines
            == Direction::Forward.spec_levels(),
{
}

} // verus!
