//! Ultrasonic ranging with two time-of-flight sensors.
//!
//! Each sensor has a trigger line and an echo line. A measurement emits a
//! short trigger pulse, arms the echo line and waits for the interrupt
//! handler to hand over the flight time of the echo, or for a timeout. The
//! two sensors sit side by side, so they are never measured at the same time:
//! a cycle measures sensor zero, lets its pulse die away, measures sensor one,
//! and publishes both distances only if both measurements succeeded.
//!
//! [`Ranging`] holds the state that the ranging task and the interrupt
//! handler share. [`Ranging::advance`] and [`Ranging::poll_echo`] are the
//! task's side, [`Ranging::isr`] is the handler's side. None of them waits or
//! touches hardware: they return what the caller has to do.

pub mod echo_handler;
pub mod theorems;

use crate::handoff::{HandoffSlot, SlotState};
use crate::registry::{ConfigError, Registry, Resource};
use crate::ultrasonic::echo_handler::{handle_echo, EchoInput, EchoState};
use vstd::prelude::*;

verus! {

/// Largest distance worth waiting for, in metres.
pub const MAX_DISTANCE: u64 = 4;

/// Measurement cycles per second.
pub const MEASURE_RATE: u64 = 10;

/// Speed of sound in millimetres per second.
pub const SOUND_SPEED: u64 = 343000;

/// Width of the trigger pulse in microseconds.
pub const TRIGGER_PULSE_US: u32 = 10;

/// Time that sound needs to an obstacle at `MAX_DISTANCE` and back, in
/// milliseconds, rounded up.
pub const ROUND_TRIP_MS: u64 = (2 * MAX_DISTANCE * 1000 * 1000 + SOUND_SPEED - 1) / SOUND_SPEED;

/// What a measurement waits beyond the round trip, in milliseconds: room for
/// the trigger pulse and for the burst that the sensor sends before it raises
/// its echo line.
pub const TIMEOUT_MARGIN_MS: u64 = 1;

/// How long a measurement waits for its echo, in milliseconds: the round trip
/// of sound over `MAX_DISTANCE` and the margin.
pub const TIMEOUT_MS: u64 = ROUND_TRIP_MS + TIMEOUT_MARGIN_MS;

/// Length of one measurement cycle in milliseconds.
pub const MEASURE_DELAY_MS: u64 = 1000 / MEASURE_RATE;

/// Pause after each sensor's measurement, in milliseconds: half a cycle, so
/// that one sensor's pulse has died away before the other fires.
pub const SETTLE_MS: u64 = MEASURE_DELAY_MS / 2;

/// Pause after a failed cycle, in milliseconds: long enough for an echo line
/// that never saw its echo to time out in the sensor itself.
pub const RECOVERY_MS: u64 = 1000;

/// One of the two sensors.
#[derive(Clone, Copy, Debug, PartialEq, Eq, Structural)]
pub enum SensorId {
    Zero,
    One,
}

/// Distance in millimetres for a flight time in microseconds: the way there
/// and back at the speed of sound, halved.
pub open spec fn spec_distance(flight_time: u64) -> int {
    flight_time as int * SOUND_SPEED as int / 1_000_000 / 2
}

/// The distance is the exact value rounded down to a whole millimetre: it
/// is at most the sound's one-way path of `343 * flight_time / 2000`
/// millimetres and less than one millimetre short of it. It fits 64 bits for
/// every flight time, and a longer flight never gives a shorter distance.
pub proof fn lemma_distance_rounds_down(flight_time: u64, longer: u64)
    ensures
        2000 * spec_distance(flight_time) <= 343 * flight_time < 2000 * (spec_distance(
            flight_time,
        ) + 1),
        0 <= spec_distance(flight_time) <= u64::MAX,
        flight_time <= longer ==> spec_distance(flight_time) <= spec_distance(longer),
        spec_distance(flight_time) == 0 <==> flight_time <= 5,
{
}

/// The timeout covers the round trip at the largest distance, with margin.
/// Sound travels at least twice `MAX_DISTANCE` within `ROUND_TRIP_MS`, the
/// timeout is longer than that by the margin, and every echo whose distance
/// is within `MAX_DISTANCE` has ended, margin included, before the timeout:
/// an obstacle in range is never declared lost for want of time.
pub proof fn lemma_timeout_covers_round_trip(flight_time: u64)
    ensures
        ROUND_TRIP_MS * SOUND_SPEED >= 2 * MAX_DISTANCE * 1000 * 1000,
        TIMEOUT_MARGIN_MS >= 1,
        TIMEOUT_MS == ROUND_TRIP_MS + TIMEOUT_MARGIN_MS,
        TIMEOUT_MS * 343 >= 2 * MAX_DISTANCE * 1000 + 343 * TIMEOUT_MARGIN_MS,
        spec_distance(flight_time) <= MAX_DISTANCE * 1000 ==> flight_time + 1000
            * TIMEOUT_MARGIN_MS <= 1000 * TIMEOUT_MS,
{
}

/// What the caller has to do for one echo line after the handler ran.
#[derive(Clone, Copy, Debug, PartialEq, Eq, Structural)]
pub struct IsrOutcome {
    /// Whether further interrupts on the line have to be disabled.
    pub unlisten: bool,
    /// Whether the line's interrupt-pending flag has to be cleared. Always set.
    pub clear_interrupt: bool,
    /// Whether the task that waits for this sensor's flight time has to be
    /// resumed.
    pub wake: bool,
}

/// One sensor as a value: its echo line and the slot through which the
/// handler passes flight times to the ranging task.
pub struct UltrasonicView {
    pub id: SensorId,
    pub echo: EchoState,
    pub flight_time: SlotState<u64>,
}

impl UltrasonicView {
    /// A sensor that was never triggered.
    pub open spec fn initial(id: SensorId) -> UltrasonicView {
        UltrasonicView { id, echo: EchoState::Idle, flight_time: SlotState::Empty }
    }

    /// Whether the sensor is at rest: echo line idle, no flight time waiting
    /// to be read and nobody waiting for one.
    pub open spec fn quiet(self) -> bool {
        self.echo is Idle && self.flight_time is Empty
    }

    /// The sensor after a trigger: echo line armed, slot emptied.
    pub open spec fn triggered(self) -> UltrasonicView {
        UltrasonicView { echo: EchoState::Armed, flight_time: SlotState::Empty, ..self }
    }

    /// The sensor after a disarm: echo line idle, slot emptied.
    pub open spec fn disarmed(self) -> UltrasonicView {
        UltrasonicView { echo: EchoState::Idle, flight_time: SlotState::Empty, ..self }
    }

    /// The sensor after the handler serviced its echo line with `input`: the
    /// line advanced, and a completed flight time written to the slot.
    pub open spec fn interrupted(self, input: EchoInput) -> UltrasonicView {
        UltrasonicView {
            echo: self.echo.next(input),
            flight_time: match self.echo.flight_time(input) {
                Some(flight_time) => self.flight_time.written(flight_time),
                None => self.flight_time,
            },
            ..self
        }
    }

    /// What the handler hands back for the line when servicing it with `input`.
    pub open spec fn isr_outcome(self, input: EchoInput) -> IsrOutcome {
        IsrOutcome {
            unlisten: self.echo.unlistens(input),
            clear_interrupt: true,
            wake: self.echo.flight_time(input) is Some && self.flight_time.has_waiter(),
        }
    }

    /// The distance in millimetres of the flight time that waits in the slot.
    pub open spec fn measured(self) -> Option<u64> {
        match self.flight_time.pending() {
            Some(flight_time) => Some(spec_distance(flight_time) as u64),
            None => None,
        }
    }

    /// The sensor after one poll for its measurement.
    pub open spec fn polled(self) -> UltrasonicView {
        UltrasonicView { flight_time: self.flight_time.awaited(), ..self }
    }
}

/// One ultrasonic sensor: the state of its echo line and the slot that
/// carries flight times from the interrupt handler to the ranging task.
pub struct Ultrasonic {
    id: SensorId,
    echo: EchoState,
    flight_time: HandoffSlot<u64>,
}

impl View for Ultrasonic {
    type V = UltrasonicView;

    closed spec fn view(&self) -> UltrasonicView {
        UltrasonicView { id: self.id, echo: self.echo, flight_time: self.flight_time@ }
    }
}

impl Ultrasonic {
    /// A sensor at rest.
    pub fn new(id: SensorId) -> (sensor: Self)
        ensures
            sensor@ == UltrasonicView::initial(id),
        no_unwind
    {
        Ultrasonic { id, echo: EchoState::Idle, flight_time: HandoffSlot::new() }
    }

    /// Which of the two sensors this is.
    pub fn id(&self) -> (id: SensorId)
        ensures
            id == self@.id,
        no_unwind
    {
        self.id
    }

    /// The state of the echo line.
    pub fn echo(&self) -> (echo: EchoState)
        ensures
            echo == self@.echo,
        no_unwind
    {
        self.echo
    }

    /// Starts a measurement: arms the echo line and drops whatever an earlier
    /// measurement left in the slot. Returns the width in microseconds of the
    /// pulse that the caller has to emit on the trigger line.
    pub fn trigger(&mut self) -> (pulse_us: u32)
        ensures
            final(self)@ == old(self)@.triggered(),
            pulse_us == TRIGGER_PULSE_US,
        no_unwind
    {
        self.flight_time.reset();
        self.echo = EchoState::Armed;
        TRIGGER_PULSE_US
    }

    /// Ends a measurement, completed or not: the echo line is idle and the
    /// slot empty afterwards, so that a late echo cannot be taken for the
    /// answer to the next trigger.
    pub fn disarm(&mut self)
        ensures
            final(self)@ == old(self)@.disarmed(),
        no_unwind
    {
        self.flight_time.reset();
        self.echo = EchoState::Idle;
    }

    /// Distance in millimetres for a flight time in microseconds. Defined for
    /// every flight time: the product is formed in 128 bits.
    pub fn distance(flight_time: u64) -> (millimetres: u64)
        ensures
            millimetres == spec_distance(flight_time),
        no_unwind
    {
        let scaled: u128 = flight_time as u128 * SOUND_SPEED as u128;
        (scaled / 1_000_000 / 2) as u64
    }

    /// One poll of the task that waits for this sensor's measurement: the
    /// distance of the flight time in the slot, which is taken, or `None`
    /// with the task registered as waiting.
    pub fn measure(&mut self) -> (millimetres: Option<u64>)
        ensures
            millimetres == old(self)@.measured(),
            final(self)@ == old(self)@.polled(),
        no_unwind
    {
        match self.flight_time.wait() {
            Some(flight_time) => Some(Self::distance(flight_time)),
            None => None,
        }
    }

    /// Echo line interrupt handler: advances the line with what was read from
    /// the hardware and writes a completed flight time to the slot.
    pub fn echo_interrupt_handler(&mut self, input: EchoInput) -> (outcome: IsrOutcome)
        ensures
            final(self)@ == old(self)@.interrupted(input),
            outcome == old(self)@.isr_outcome(input),
        no_unwind
    {
        let echo = handle_echo(&mut self.echo, input);
        let wake = match echo.flight_time {
            Some(flight_time) => self.flight_time.write(flight_time),
            None => false,
        };
        IsrOutcome { unlisten: echo.unlisten, clear_interrupt: echo.clear_interrupt, wake }
    }
}

/// Where the ranging task stands in its cycle.
#[derive(Clone, Copy, Debug, PartialEq, Eq, Structural)]
pub enum Phase {
    /// Between cycles: before the first one, and while the result of the last
    /// one is published or its failure is waited out.
    Resting,
    /// `sensor` was triggered; its echo or the timeout is awaited.
    Measuring { sensor: SensorId },
    /// The measurement of `sensor` timed out; its echo line is being disarmed.
    Disarming { sensor: SensorId },
    /// The measurement of `sensor` is over; its pulse is left to die away.
    Settling { sensor: SensorId },
}

/// What the ranging task has to do next.
#[derive(Clone, Copy, Debug, PartialEq, Eq, Structural)]
pub enum Action {
    /// Enable the edge interrupt of the sensor's echo line, emit a trigger
    /// pulse of `pulse_us` microseconds, then poll [`Ranging::poll_echo`]
    /// whenever the task is resumed, for at most `timeout_ms` milliseconds. If
    /// a poll returns an action, go on with that one; after the timeout, call
    /// [`Ranging::advance`].
    Measure { sensor: SensorId, pulse_us: u32, timeout_ms: u64 },
    /// Disable the edge interrupt of the sensor's echo line, then call
    /// [`Ranging::advance`].
    Disarm { sensor: SensorId },
    /// Wait `millis` milliseconds, then call [`Ranging::advance`].
    Delay { millis: u64 },
    /// Publish the two distances, in millimetres, then call
    /// [`Ranging::advance`].
    Publish { distance0: u64, distance1: u64 },
    /// The cycle failed: record it, publish nothing, wait `millis`
    /// milliseconds, then call [`Ranging::advance`].
    Recover { millis: u64 },
}

/// What the caller has to do for the two echo lines after the handler ran.
#[derive(Clone, Copy, Debug, PartialEq, Eq, Structural)]
pub struct IsrActions {
    pub echo0: IsrOutcome,
    pub echo1: IsrOutcome,
}

/// The ranging state as a value.
pub struct RangingView {
    pub ultrasonic0: UltrasonicView,
    pub ultrasonic1: UltrasonicView,
    pub phase: Phase,
    /// Result of sensor zero in the current cycle; 0 while there is none.
    pub distance0: u64,
    /// Result of sensor one in the current cycle; 0 while there is none.
    pub distance1: u64,
}

impl RangingView {
    /// The state before the first cycle.
    pub open spec fn initial() -> RangingView {
        RangingView {
            ultrasonic0: UltrasonicView::initial(SensorId::Zero),
            ultrasonic1: UltrasonicView::initial(SensorId::One),
            phase: Phase::Resting,
            distance0: 0,
            distance1: 0,
        }
    }

    /// One of the two sensors.
    pub open spec fn sensor(self, id: SensorId) -> UltrasonicView {
        match id {
            SensorId::Zero => self.ultrasonic0,
            SensorId::One => self.ultrasonic1,
        }
    }

    /// The result of one of the two sensors in the current cycle.
    pub open spec fn distance(self, id: SensorId) -> u64 {
        match id {
            SensorId::Zero => self.distance0,
            SensorId::One => self.distance1,
        }
    }

    /// The state with `sensor` and its result for the cycle replaced.
    pub open spec fn with(self, id: SensorId, sensor: UltrasonicView, distance: u64) -> RangingView {
        match id {
            SensorId::Zero => RangingView { ultrasonic0: sensor, distance0: distance, ..self },
            SensorId::One => RangingView { ultrasonic1: sensor, distance1: distance, ..self },
        }
    }

    /// Whether a measurement of `id` is under way.
    pub open spec fn measuring(self, id: SensorId) -> bool {
        self.phase == (Phase::Measuring { sensor: id })
    }

    /// The invariant of the ranging state: the sensors are who they are, and a
    /// sensor that is not being measured is at rest. So at most one echo line
    /// is ever armed, and it is the line of the sensor under measurement.
    pub open spec fn wf(self) -> bool {
        &&& self.ultrasonic0.id == SensorId::Zero
        &&& self.ultrasonic1.id == SensorId::One
        &&& !self.measuring(SensorId::Zero) ==> self.ultrasonic0.quiet()
        &&& !self.measuring(SensorId::One) ==> self.ultrasonic1.quiet()
    }

    /// Whether the cycle whose results the state holds has failed: a sensor
    /// has no result, or its result is the 0 that stands for none.
    pub open spec fn failed(self) -> bool {
        self.distance0 == 0 || self.distance1 == 0
    }

    /// The action with which the task starts a measurement of `sensor`.
    pub open spec fn measure(sensor: SensorId) -> Action {
        Action::Measure { sensor, pulse_us: TRIGGER_PULSE_US, timeout_ms: TIMEOUT_MS }
    }

    /// The action that [`Ranging::advance`] returns in this state.
    pub open spec fn action(self) -> Action {
        match self.phase {
            Phase::Resting => Self::measure(SensorId::Zero),
            Phase::Measuring { sensor } => Action::Disarm { sensor },
            Phase::Disarming { sensor } => Action::Delay { millis: SETTLE_MS },
            Phase::Settling { sensor: SensorId::Zero } => Self::measure(SensorId::One),
            Phase::Settling { sensor: SensorId::One } => if self.failed() {
                Action::Recover { millis: RECOVERY_MS }
            } else {
                Action::Publish { distance0: self.distance0, distance1: self.distance1 }
            },
        }
    }

    /// The state after [`Ranging::advance`].
    ///
    /// At rest a new cycle begins: the results are cleared and sensor zero is
    /// triggered. A measurement that is still under way has timed out: its
    /// sensor is disarmed and its result is 0. After the disarm comes the
    /// pause; after the pause of sensor zero, sensor one is triggered; after
    /// the pause of sensor one the cycle is over.
    pub open spec fn advanced(self) -> RangingView {
        match self.phase {
            Phase::Resting => RangingView {
                ultrasonic0: self.ultrasonic0.triggered(),
                phase: Phase::Measuring { sensor: SensorId::Zero },
                distance0: 0,
                distance1: 0,
                ..self
            },
            Phase::Measuring { sensor } => RangingView {
                phase: Phase::Disarming { sensor },
                ..self.with(sensor, self.sensor(sensor).disarmed(), 0)
            },
            Phase::Disarming { sensor } => RangingView { phase: Phase::Settling { sensor }, ..self },
            Phase::Settling { sensor: SensorId::Zero } => RangingView {
                ultrasonic1: self.ultrasonic1.triggered(),
                phase: Phase::Measuring { sensor: SensorId::One },
                ..self
            },
            Phase::Settling { sensor: SensorId::One } => RangingView {
                phase: Phase::Resting,
                ..self
            },
        }
    }

    /// The action that [`Ranging::poll_echo`] returns in this state: the pause
    /// that follows a measurement, if the sensor under measurement has a
    /// flight time waiting.
    pub open spec fn poll_action(self) -> Option<Action> {
        match self.phase {
            Phase::Measuring { sensor } => if self.sensor(sensor).measured() is Some {
                Some(Action::Delay { millis: SETTLE_MS })
            } else {
                None
            },
            _ => None,
        }
    }

    /// The state after [`Ranging::poll_echo`]. A flight time that waits for
    /// the sensor under measurement becomes that sensor's result, and the
    /// sensor is put to rest; without one the task is registered as waiting.
    /// Outside a measurement nothing changes.
    pub open spec fn polled(self) -> RangingView {
        match self.phase {
            Phase::Measuring { sensor } => match self.sensor(sensor).measured() {
                Some(millimetres) => RangingView {
                    phase: Phase::Settling { sensor },
                    ..self.with(sensor, self.sensor(sensor).polled().disarmed(), millimetres)
                },
                None => self.with(sensor, self.sensor(sensor).polled(), self.distance(sensor)),
            },
            _ => self,
        }
    }

    /// The state after the handler serviced both echo lines.
    pub open spec fn interrupted(self, echo0: EchoInput, echo1: EchoInput) -> RangingView {
        RangingView {
            ultrasonic0: self.ultrasonic0.interrupted(echo0),
            ultrasonic1: self.ultrasonic1.interrupted(echo1),
            ..self
        }
    }

    /// What the handler hands back when it services both echo lines.
    pub open spec fn isr_actions(self, echo0: EchoInput, echo1: EchoInput) -> IsrActions {
        IsrActions {
            echo0: self.ultrasonic0.isr_outcome(echo0),
            echo1: self.ultrasonic1.isr_outcome(echo1),
        }
    }
}

/// The state shared by the ranging task and the echo interrupt handler: both
/// sensors, the phase of the cycle and the results gathered in it.
pub struct Ranging {
    ultrasonic0: Ultrasonic,
    ultrasonic1: Ultrasonic,
    phase: Phase,
    distance0: u64,
    distance1: u64,
}

impl View for Ranging {
    type V = RangingView;

    closed spec fn view(&self) -> RangingView {
        RangingView {
            ultrasonic0: self.ultrasonic0@,
            ultrasonic1: self.ultrasonic1@,
            phase: self.phase,
            distance0: self.distance0,
            distance1: self.distance1,
        }
    }
}

impl Ranging {
    #[verifier::type_invariant]
    spec fn inv(self) -> bool {
        self@.wf()
    }

    /// Both sensors at rest, no cycle begun.
    pub fn new() -> (ranging: Self)
        ensures
            ranging@ == RangingView::initial(),
            ranging@.wf(),
        no_unwind
    {
        Ranging {
            ultrasonic0: Ultrasonic::new(SensorId::Zero),
            ultrasonic1: Ultrasonic::new(SensorId::One),
            phase: Phase::Resting,
            distance0: 0,
            distance1: 0,
        }
    }

    /// Where the cycle stands.
    pub fn phase(&self) -> (phase: Phase)
        ensures
            phase == self@.phase,
        no_unwind
    {
        self.phase
    }

    /// One of the two sensors.
    pub fn sensor(&self, id: SensorId) -> (sensor: &Ultrasonic)
        ensures
            sensor@ == self@.sensor(id),
        no_unwind
    {
        match id {
            SensorId::Zero => &self.ultrasonic0,
            SensorId::One => &self.ultrasonic1,
        }
    }

    /// The ranging task's step: called when the action returned last is done,
    /// or, for a measurement, when its timeout has passed. Returns the next
    /// action.
    pub fn advance(&mut self) -> (action: Action)
        ensures
            action == old(self)@.action(),
            final(self)@ == old(self)@.advanced(),
            final(self)@.wf(),
        no_unwind
    {
        proof {
            use_type_invariant(&*self);
        }
        match self.phase {
            Phase::Resting => {
                self.distance0 = 0;
                self.distance1 = 0;
                self.phase = Phase::Measuring { sensor: SensorId::Zero };
                let pulse_us = self.ultrasonic0.trigger();
                Action::Measure { sensor: SensorId::Zero, pulse_us, timeout_ms: TIMEOUT_MS }
            },
            Phase::Measuring { sensor } => {
                match sensor {
                    SensorId::Zero => {
                        self.ultrasonic0.disarm();
                        self.distance0 = 0;
                    },
                    SensorId::One => {
                        self.ultrasonic1.disarm();
                        self.distance1 = 0;
                    },
                }
                self.phase = Phase::Disarming { sensor };
                Action::Disarm { sensor }
            },
            Phase::Disarming { sensor } => {
                self.phase = Phase::Settling { sensor };
                Action::Delay { millis: SETTLE_MS }
            },
            Phase::Settling { sensor: SensorId::Zero } => {
                self.phase = Phase::Measuring { sensor: SensorId::One };
                let pulse_us = self.ultrasonic1.trigger();
                Action::Measure { sensor: SensorId::One, pulse_us, timeout_ms: TIMEOUT_MS }
            },
            Phase::Settling { sensor: SensorId::One } => {
                self.phase = Phase::Resting;
                if self.distance0 == 0 || self.distance1 == 0 {
                    Action::Recover { millis: RECOVERY_MS }
                } else {
                    Action::Publish { distance0: self.distance0, distance1: self.distance1 }
                }
            },
        }
    }

    /// One poll of the ranging task while it waits for an echo. If the sensor
    /// under measurement has handed over a flight time, the measurement is
    /// over: its distance is the sensor's result and the pause that follows is
    /// returned. Otherwise the task is registered as waiting and `None` is
    /// returned. Outside a measurement nothing happens.
    pub fn poll_echo(&mut self) -> (action: Option<Action>)
        ensures
            action == old(self)@.poll_action(),
            final(self)@ == old(self)@.polled(),
            final(self)@.wf(),
        no_unwind
    {
        proof {
            use_type_invariant(&*self);
        }
        match self.phase {
            Phase::Measuring { sensor: SensorId::Zero } => {
                match self.ultrasonic0.measure() {
                    Some(millimetres) => {
                        self.ultrasonic0.disarm();
                        self.distance0 = millimetres;
                        self.phase = Phase::Settling { sensor: SensorId::Zero };
                        Some(Action::Delay { millis: SETTLE_MS })
                    },
                    None => None,
                }
            },
            Phase::Measuring { sensor: SensorId::One } => {
                match self.ultrasonic1.measure() {
                    Some(millimetres) => {
                        self.ultrasonic1.disarm();
                        self.distance1 = millimetres;
                        self.phase = Phase::Settling { sensor: SensorId::One };
                        Some(Action::Delay { millis: SETTLE_MS })
                    },
                    None => None,
                }
            },
            _ => None,
        }
    }

    /// The interrupt handler for the shared echo interrupt: services both
    /// lines, whichever of them raised it, and says for each what has to be
    /// done in hardware. The phase of the cycle and its results are not
    /// touched.
    pub fn isr(&mut self, echo0: EchoInput, echo1: EchoInput) -> (actions: IsrActions)
        ensures
            actions == old(self)@.isr_actions(echo0, echo1),
            final(self)@ == old(self)@.interrupted(echo0, echo1),
            final(self)@.wf(),
        no_unwind
    {
        proof {
            use_type_invariant(&*self);
        }
        let outcome0 = self.ultrasonic0.echo_interrupt_handler(echo0);
        let outcome1 = self.ultrasonic1.echo_interrupt_handler(echo1);
        IsrActions { echo0: outcome0, echo1: outcome1 }
    }
}

/// Takes ownership of the sensor hardware and returns the ranging state for
/// it, with both sensors at rest and no cycle begun. Fails if the sensors were
/// registered before.
pub fn register(registry: &mut Registry) -> (ranging: Result<Ranging, ConfigError>)
    ensures
        final(registry)@ == old(registry)@.requested(Resource::Sensors),
        ranging is Ok <==> !old(registry)@.holds(Resource::Sensors),
        ranging matches Ok(state) ==> state@ == RangingView::initial(),
        ranging matches Err(error) ==> error == ConfigError::AlreadyRegistered(Resource::Sensors),
    no_unwind
{
    match registry.register(Resource::Sensors) {
        Ok(()) => Ok(Ranging::new()),
        Err(error) => Err(error),
    }
}

} // verus!
