//! Actuation arbiter: two motors, each driven by a PWM compare value and a
//! pair of direction lines.
//!
//! Commands reach the arbiter through one handoff slot per motor, so a command
//! that was not yet applied is superseded by the next one for the same motor.
//! The arbiter keeps an image of what it last wrote to each motor's hardware
//! and returns, for every command it takes, the values the caller has to load
//! into the compare register and drive onto the direction lines.

use crate::handoff::{HandoffSlot, SlotState};
use crate::registry::{ConfigError, Registry, Resource};
use vstd::prelude::*;

verus! {

/// Period of the PWM timer in timer counts; the largest duty value.
pub const PWM_PERIOD: u8 = 255;

/// Electrical level of an output line.
#[derive(Clone, Copy, Debug, PartialEq, Eq, Structural)]
pub enum Level {
    Low,
    High,
}

/// Sense of rotation of a motor.
#[derive(Clone, Copy, Debug, PartialEq, Eq, Structural)]
pub enum Direction {
    Forward,
    Reverse,
}

impl Direction {
    /// The fixed polarity of the two direction lines for this sense of
    /// rotation: `Forward` is (low, high), `Reverse` the inverted pair.
    pub open spec fn spec_levels(self) -> (Level, Level) {
        match self {
            Direction::Forward => (Level::Low, Level::High),
            Direction::Reverse => (Level::High, Level::Low),
        }
    }

    /// Levels to drive onto the first and the second direction line.
    #[verifier::when_used_as_spec(spec_levels)]
    pub fn levels(self) -> (levels: (Level, Level))
        ensures
            levels == self.spec_levels(),
        no_unwind
    {
        match self {
            Direction::Forward => (Level::Low, Level::High),
            Direction::Reverse => (Level::High, Level::Low),
        }
    }
}

/// One of the two motor channels.
#[derive(Clone, Copy, Debug, PartialEq, Eq, Structural)]
pub enum MotorId {
    One,
    Two,
}

/// A duty cycle against [`PWM_PERIOD`] and a sense of rotation for one motor.
#[derive(Clone, Copy, Debug, PartialEq, Eq, Structural)]
pub struct MotorCommand {
    pub duty: u8,
    pub direction: Direction,
}

/// What one motor's hardware holds: the PWM compare value and the levels of
/// its two direction lines.
pub struct PwmState {
    pub timestamp: u16,
    pub lines: (Level, Level),
}

impl PwmState {
    /// The hardware state that a command asks for.
    pub open spec fn of(command: MotorCommand) -> PwmState {
        PwmState { timestamp: command.duty as u16, lines: command.direction.spec_levels() }
    }

    /// The state before any command: no drive, both lines low.
    pub open spec fn idle() -> PwmState {
        PwmState { timestamp: 0, lines: (Level::Low, Level::Low) }
    }
}

/// Image of one motor's PWM output and direction lines, as last written.
pub struct PwmChannel {
    applied: Option<MotorCommand>,
}

impl View for PwmChannel {
    type V = PwmState;

    closed spec fn view(&self) -> PwmState {
        match self.applied {
            Some(command) => PwmState::of(command),
            None => PwmState::idle(),
        }
    }
}

impl PwmChannel {
    /// A channel to which nothing was applied yet.
    pub fn new() -> (channel: Self)
        ensures
            channel@ == PwmState::idle(),
        no_unwind
    {
        PwmChannel { applied: None }
    }

    /// Records `command` as the channel's state. Afterwards the compare value
    /// is exactly the command's duty and the lines carry its direction's
    /// polarity.
    pub fn apply(&mut self, command: MotorCommand)
        ensures
            final(self)@ == PwmState::of(command),
            final(self)@.timestamp == command.duty,
            final(self)@.timestamp <= PWM_PERIOD,
            final(self)@.lines == command.direction.spec_levels(),
        no_unwind
    {
        self.applied = Some(command);
    }

    /// The compare value last applied.
    pub fn timestamp(&self) -> (timestamp: u16)
        ensures
            timestamp == self@.timestamp,
        no_unwind
    {
        match self.applied {
            Some(command) => command.duty as u16,
            None => 0,
        }
    }

    /// The direction line levels last applied.
    pub fn lines(&self) -> (lines: (Level, Level))
        ensures
            lines == self@.lines,
        no_unwind
    {
        match self.applied {
            Some(command) => command.direction.levels(),
            None => (Level::Low, Level::Low),
        }
    }
}

/// What the caller has to write to one motor's hardware.
#[derive(Clone, Copy, Debug, PartialEq, Eq)]
pub struct Applied {
    pub motor: MotorId,
    pub levels: (Level, Level),
    pub timestamp: u16,
}

/// The arbiter's state as a value: both command slots and both hardware images.
pub struct MotorsView {
    pub command_1: SlotState<MotorCommand>,
    pub command_2: SlotState<MotorCommand>,
    pub pwm_a: PwmState,
    pub pwm_b: PwmState,
}

impl MotorsView {
    /// Both slots empty, nothing applied to either motor.
    pub open spec fn initial() -> MotorsView {
        MotorsView {
            command_1: SlotState::Empty,
            command_2: SlotState::Empty,
            pwm_a: PwmState::idle(),
            pwm_b: PwmState::idle(),
        }
    }

    /// The slot of `motor`.
    pub open spec fn command(self, motor: MotorId) -> SlotState<MotorCommand> {
        match motor {
            MotorId::One => self.command_1,
            MotorId::Two => self.command_2,
        }
    }

    /// The hardware image of `motor`.
    pub open spec fn pwm(self, motor: MotorId) -> PwmState {
        match motor {
            MotorId::One => self.pwm_a,
            MotorId::Two => self.pwm_b,
        }
    }

    /// The state after `command` was written to the slot of `motor`.
    pub open spec fn signalled(self, motor: MotorId, command: MotorCommand) -> MotorsView {
        match motor {
            MotorId::One => MotorsView { command_1: self.command_1.written(command), ..self },
            MotorId::Two => MotorsView { command_2: self.command_2.written(command), ..self },
        }
    }

    /// The motor whose command the next poll of the arbiter takes: motor one
    /// if its slot holds a command, else motor two if its slot does.
    pub open spec fn ready(self) -> Option<MotorId> {
        if self.command_1.pending() is Some {
            Some(MotorId::One)
        } else if self.command_2.pending() is Some {
            Some(MotorId::Two)
        } else {
            None
        }
    }

    /// What the next poll of the arbiter hands to the hardware.
    pub open spec fn output(self) -> Option<Applied> {
        match self.ready() {
            Some(motor) => {
                let command = self.command(motor).pending()->0;
                Some(
                    Applied {
                        motor,
                        levels: command.direction.spec_levels(),
                        timestamp: command.duty as u16,
                    },
                )
            },
            None => None,
        }
    }

    /// The state after one poll of the arbiter. A slot that was looked at
    /// and found empty has the arbiter registered as its waiter.
    pub open spec fn polled(self) -> MotorsView {
        match self.ready() {
            Some(MotorId::One) => MotorsView {
                command_1: self.command_1.awaited(),
                pwm_a: PwmState::of(self.command_1.pending()->0),
                ..self
            },
            Some(MotorId::Two) => MotorsView {
                command_1: self.command_1.awaited(),
                command_2: self.command_2.awaited(),
                pwm_b: PwmState::of(self.command_2.pending()->0),
                ..self
            },
            None => MotorsView {
                command_1: self.command_1.awaited(),
                command_2: self.command_2.awaited(),
                ..self
            },
        }
    }
}

/// The actuation arbiter with the two command slots that feed it.
pub struct Motors {
    command_1: HandoffSlot<MotorCommand>,
    command_2: HandoffSlot<MotorCommand>,
    pwm_a: PwmChannel,
    pwm_b: PwmChannel,
}

impl View for Motors {
    type V = MotorsView;

    closed spec fn view(&self) -> MotorsView {
        MotorsView {
            command_1: self.command_1@,
            command_2: self.command_2@,
            pwm_a: self.pwm_a@,
            pwm_b: self.pwm_b@,
        }
    }
}

impl Motors {
    /// Both slots empty, nothing applied to either motor.
    pub fn new() -> (motors: Self)
        ensures
            motors@ == MotorsView::initial(),
        no_unwind
    {
        Motors {
            command_1: HandoffSlot::new(),
            command_2: HandoffSlot::new(),
            pwm_a: PwmChannel::new(),
            pwm_b: PwmChannel::new(),
        }
    }

    /// Hands `command` to the arbiter for `motor`, superseding a command for
    /// that motor that was not applied yet. Returns whether the arbiter waits
    /// on that slot and has to be resumed.
    pub fn signal(&mut self, motor: MotorId, command: MotorCommand) -> (wake: bool)
        ensures
            final(self)@ == old(self)@.signalled(motor, command),
            wake == old(self)@.command(motor).has_waiter(),
        no_unwind
    {
        match motor {
            MotorId::One => self.command_1.write(command),
            MotorId::Two => self.command_2.write(command),
        }
    }

    /// One poll of the arbiter. Takes the command of the first motor whose
    /// slot holds one, records it in that motor's hardware image and returns
    /// what has to be written to the hardware. With no command in either slot
    /// the arbiter is left waiting on both and `None` is returned.
    pub fn handle_motors(&mut self) -> (applied: Option<Applied>)
        ensures
            applied == old(self)@.output(),
            final(self)@ == old(self)@.polled(),
        no_unwind
    {
        if let Some(command) = self.command_1.wait() {
            self.pwm_a.apply(command);
            return Some(
                Applied {
                    motor: MotorId::One,
                    levels: self.pwm_a.lines(),
                    timestamp: self.pwm_a.timestamp(),
                },
            );
        }
        if let Some(command) = self.command_2.wait() {
            self.pwm_b.apply(command);
            return Some(
                Applied {
                    motor: MotorId::Two,
                    levels: self.pwm_b.lines(),
                    timestamp: self.pwm_b.timestamp(),
                },
            );
        }
        None
    }

    /// The hardware image of `motor`.
    pub fn pwm(&self, motor: MotorId) -> (channel: &PwmChannel)
        ensures
            channel@ == self@.pwm(motor),
        no_unwind
    {
        match motor {
            MotorId::One => &self.pwm_a,
            MotorId::Two => &self.pwm_b,
        }
    }
}

/// Takes ownership of the motor hardware and returns the arbiter that drives
/// it, with both slots empty and nothing applied. Fails if the motors were
/// registered before.
pub fn register(registry: &mut Registry) -> (motors: Result<Motors, ConfigError>)
    ensures
        final(registry)@ == old(registry)@.requested(Resource::Motors),
        motors is Ok <==> !old(registry)@.holds(Resource::Motors),
        motors matches Ok(arbiter) ==> arbiter@ == MotorsView::initial(),
        motors matches Err(error) ==> error == ConfigError::AlreadyRegistered(Resource::Motors),
    no_unwind
{
    match registry.register(Resource::Motors) {
        Ok(()) => Ok(Motors::new()),
        Err(error) => Err(error),
    }
}

/// A command handed to the arbiter is what the hardware of its motor holds
/// once the arbiter has taken it: the compare value is the command's duty and
/// the direction lines carry the polarity of its direction. The first poll
/// takes it unless motor one has a command of its own waiting, which then goes
/// first; the second poll has taken it in any case.
pub proof fn lemma_command_reaches_hardware(
    motors: MotorsView,
    motor: MotorId,
    command: MotorCommand,
)
    ensures
        PwmState::of(command).timestamp == command.duty,
        PwmState::of(command).lines == command.direction.spec_levels(),
        motors.signalled(motor, command).polled().polled().pwm(motor) == PwmState::of(command),
        motor == MotorId::One || motors.command_1.pending() is None ==> {
            &&& motors.signalled(motor, command).polled().pwm(motor) == PwmState::of(command)
            &&& motors.signalled(motor, command).output() == Some(
                Applied {
                    motor,
                    levels: command.direction.spec_levels(),
                    timestamp: command.duty as u16,
                },
            )
        },
{
}

/// Of two commands handed over for the same motor before the arbiter polls,
/// only the second is ever applied: the slot holds the second alone, the
/// polls that follow apply the second, and the slot of that motor is empty
/// afterwards, so the first is never seen.
pub proof fn lemma_latest_command_wins(
    motors: MotorsView,
    motor: MotorId,
    first: MotorCommand,
    second: MotorCommand,
)
    ensures
        motors.signalled(motor, first).signalled(motor, second) == motors.signalled(
            motor,
            second,
        ),
        motors.signalled(motor, first).signalled(motor, second).command(motor).pending()
            == Some(second),
        motors.signalled(motor, first).signalled(motor, second).polled().polled().pwm(motor)
            == PwmState::of(second),
        motors.signalled(motor, first).signalled(motor, second).polled().polled().command(
            motor,
        ).pending() is None,
        motors.signalled(motor, first).signalled(motor, second).polled().pwm(motor)
            != PwmState::of(second) ==> motors.signalled(motor, first).signalled(
            motor,
            second,
        ).polled().pwm(motor) == motors.pwm(motor),
{
}

/// A poll changes the hardware image of at most the motor it serves, and
/// changes nothing but waiter registrations when no command is waiting.
pub proof fn lemma_poll_touches_served_motor_only(motors: MotorsView, other: MotorId)
    ensures
        motors.ready() != Some(other) ==> motors.polled().pwm(other) == motors.pwm(other),
        motors.ready() is None ==> motors.polled().output() is None,
{
}

} // verus!
