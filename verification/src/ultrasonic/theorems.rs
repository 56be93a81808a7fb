//! What holds of the ranging cycle in every reachable state, whatever the
//! order in which the task's steps and the echo interrupts arrive.

use crate::ultrasonic::echo_handler::{EchoInput, EchoState};
use crate::ultrasonic::{
    lemma_timeout_covers_round_trip, spec_distance, Action, Phase, RangingView, SensorId,
    MAX_DISTANCE, RECOVERY_MS, SETTLE_MS, TIMEOUT_MARGIN_MS, TIMEOUT_MS, TRIGGER_PULSE_US,
};
use vstd::prelude::*;

verus! {

/// One thing that happens to the ranging state: a step of the task, a poll of
/// the task, or an invocation of the interrupt handler.
pub enum Input {
    Advance,
    Poll,
    Interrupt { echo0: EchoInput, echo1: EchoInput },
}

impl Input {
    /// What the interrupt handler reads for the echo line of `sensor`, if the
    /// input is an interrupt.
    pub open spec fn echo(self, sensor: SensorId) -> Option<EchoInput> {
        match self {
            Input::Interrupt { echo0, echo1 } => Some(
                match sensor {
                    SensorId::Zero => echo0,
                    SensorId::One => echo1,
                },
            ),
            _ => None,
        }
    }
}

impl RangingView {
    /// The state after `input`.
    pub open spec fn after(self, input: Input) -> RangingView {
        match input {
            Input::Advance => self.advanced(),
            Input::Poll => self.polled(),
            Input::Interrupt { echo0, echo1 } => self.interrupted(echo0, echo1),
        }
    }

    /// The action that `input` hands to the task, if any.
    pub open spec fn emits(self, input: Input) -> Option<Action> {
        match input {
            Input::Advance => Some(self.action()),
            Input::Poll => self.poll_action(),
            Input::Interrupt { .. } => None,
        }
    }

    /// The state after all of `inputs`, in order.
    pub open spec fn run(self, inputs: Seq<Input>) -> RangingView
        decreases inputs.len(),
    {
        if inputs.len() == 0 {
            self
        } else {
            self.run(inputs.drop_last()).after(inputs.last())
        }
    }

    /// The actions handed to the task in the course of `inputs`, in order.
    pub open spec fn trace(self, inputs: Seq<Input>) -> Seq<Action>
        decreases inputs.len(),
    {
        if inputs.len() == 0 {
            Seq::empty()
        } else {
            let before = self.trace(inputs.drop_last());
            match self.run(inputs.drop_last()).emits(inputs.last()) {
                Some(action) => before.push(action),
                None => before,
            }
        }
    }
}

/// The invariant holds at the start and is kept by every step of the task,
/// every poll and every invocation of the interrupt handler.
pub proof fn lemma_invariant_is_kept(ranging: RangingView, input: Input)
    requires
        ranging.wf(),
    ensures
        RangingView::initial().wf(),
        ranging.after(input).wf(),
{
}

/// The invariant holds in every state that is reachable from the start.
pub proof fn lemma_reachable_states_are_well_formed(inputs: Seq<Input>)
    ensures
        RangingView::initial().run(inputs).wf(),
    decreases inputs.len(),
{
    if inputs.len() > 0 {
        lemma_reachable_states_are_well_formed(inputs.drop_last());
        lemma_invariant_is_kept(RangingView::initial().run(inputs.drop_last()), inputs.last());
    }
}

/// The interrupt handler never moves the cycle on and never arms a line: it
/// leaves the phase and the results alone, and a sensor at rest stays at rest
/// whatever edges arrive on its line.
pub proof fn lemma_interrupt_keeps_phase(ranging: RangingView, echo0: EchoInput, echo1: EchoInput)
    ensures
        ranging.interrupted(echo0, echo1).phase == ranging.phase,
        ranging.interrupted(echo0, echo1).distance0 == ranging.distance0,
        ranging.interrupted(echo0, echo1).distance1 == ranging.distance1,
        ranging.ultrasonic0.quiet() ==> ranging.interrupted(echo0, echo1).ultrasonic0.quiet(),
        ranging.ultrasonic1.quiet() ==> ranging.interrupted(echo0, echo1).ultrasonic1.quiet(),
{
}

/// Sensor one is triggered only out of the pause that follows sensor zero's
/// measurement, and at that moment sensor zero is at rest: its echo line is
/// idle and no flight time of it is outstanding. A poll never triggers.
pub proof fn lemma_trigger_of_sensor_one(ranging: RangingView)
    requires
        ranging.wf(),
    ensures
        ranging.action() == RangingView::measure(SensorId::One) ==> {
            &&& ranging.phase == (Phase::Settling { sensor: SensorId::Zero })
            &&& ranging.ultrasonic0.quiet()
            &&& ranging.advanced().ultrasonic0.quiet()
            &&& ranging.advanced().ultrasonic1.echo is Armed
        },
        ranging.poll_action() matches Some(action) ==> action == (Action::Delay {
            millis: SETTLE_MS,
        }),
{
}

/// Every measurement is given the time of the round trip. Whatever the
/// state, a trigger handed to the task carries the pulse width and the
/// timeout of the protocol, and that timeout is no shorter than the way of
/// sound to `MAX_DISTANCE` and back plus the margin. A poll never hands out a
/// trigger.
pub proof fn lemma_measurement_waits_for_round_trip(ranging: RangingView)
    ensures
        ranging.action() matches Action::Measure { sensor, pulse_us, timeout_ms } ==> {
            &&& ranging.action() == RangingView::measure(sensor)
            &&& pulse_us == TRIGGER_PULSE_US
            &&& timeout_ms == TIMEOUT_MS
            &&& timeout_ms * 343 >= 2 * MAX_DISTANCE * 1000 + 343 * TIMEOUT_MARGIN_MS
        },
        ranging.poll_action() matches Some(action) ==> !(action is Measure),
{
    lemma_timeout_covers_round_trip(0);
}

/// A measurement that times out is disarmed on the spot and counts as failed:
/// the step that ends it returns the disarm of its sensor, leaves the sensor
/// at rest and its result at 0, and a cycle with such a result ends in a
/// recovery, not in a publication.
pub proof fn lemma_timeout_disarms_and_fails(ranging: RangingView, sensor: SensorId)
    requires
        ranging.wf(),
        ranging.measuring(sensor),
    ensures
        ranging.action() == (Action::Disarm { sensor }),
        ranging.advanced().phase == (Phase::Disarming { sensor }),
        ranging.advanced().sensor(sensor).quiet(),
        ranging.advanced().distance(sensor) == 0,
        ranging.advanced().failed(),
{
}

/// Both distances or none: a cycle publishes exactly when both results are
/// present, and then it publishes exactly those two results.
pub proof fn lemma_publish_needs_both(ranging: RangingView)
    ensures
        ranging.action() is Publish <==> ranging.phase == (Phase::Settling {
            sensor: SensorId::One,
        }) && !ranging.failed(),
        ranging.action() matches Action::Publish { distance0, distance1 } ==> distance0
            == ranging.distance0 && distance1 == ranging.distance1 && distance0 > 0 && distance1
            > 0,
        ranging.action() is Recover <==> ranging.phase == (Phase::Settling {
            sensor: SensorId::One,
        }) && ranging.failed(),
        ranging.poll_action() matches Some(action) ==> !(action is Publish),
{
}

/// Whether index `i` of `trace` comes right after a finished measurement of
/// `sensor` and the pause that follows it: before it stands the pause, and
/// before that either the trigger of `sensor`, whose echo then arrived, or
/// the disarm of `sensor` with its trigger before it.
pub open spec fn follows_measurement(trace: Seq<Action>, i: int, sensor: SensorId) -> bool {
    &&& i >= 2
    &&& trace[i - 1] == (Action::Delay { millis: SETTLE_MS })
    &&& {
        ||| trace[i - 2] == RangingView::measure(sensor)
        ||| {
            &&& i >= 3
            &&& trace[i - 2] == (Action::Disarm { sensor })
            &&& trace[i - 3] == RangingView::measure(sensor)
        }
    }
}

/// Whether the action at index `i` of `trace` stands where the cycle allows
/// it.
///
/// A trigger of sensor zero opens a cycle: it is the first action of all or
/// follows the end of a cycle. A disarm follows the trigger of its sensor. A
/// pause follows a trigger or a disarm. A trigger of sensor one follows the
/// finished measurement and pause of sensor zero. A publication or a recovery
/// ends a cycle: it follows the finished measurement and pause of sensor one.
pub open spec fn in_turn(trace: Seq<Action>, i: int) -> bool {
    match trace[i] {
        Action::Measure { sensor: SensorId::Zero, .. } => {
            &&& trace[i] == RangingView::measure(SensorId::Zero)
            &&& i == 0 || trace[i - 1] is Publish || trace[i - 1] is Recover
        },
        Action::Measure { sensor: SensorId::One, .. } => {
            &&& trace[i] == RangingView::measure(SensorId::One)
            &&& follows_measurement(trace, i, SensorId::Zero)
        },
        Action::Disarm { sensor } => i >= 1 && trace[i - 1] == RangingView::measure(sensor),
        Action::Delay { millis } => {
            &&& millis == SETTLE_MS
            &&& i >= 1
            &&& trace[i - 1] is Measure || trace[i - 1] is Disarm
        },
        Action::Publish { .. } => follows_measurement(trace, i, SensorId::One),
        Action::Recover { .. } => follows_measurement(trace, i, SensorId::One),
    }
}

/// Whether every action of `trace` stands where the cycle allows it.
pub open spec fn sequential(trace: Seq<Action>) -> bool {
    forall|i: int| 0 <= i < trace.len() ==> #[trigger] in_turn(trace, i)
}

/// Whether the last actions of `trace` are those that lead into `phase`.
spec fn tail_matches(phase: Phase, trace: Seq<Action>) -> bool {
    let n = trace.len() as int;
    match phase {
        Phase::Resting => n == 0 || trace[n - 1] is Publish || trace[n - 1] is Recover,
        Phase::Measuring { sensor } => n >= 1 && trace[n - 1] == RangingView::measure(sensor),
        Phase::Disarming { sensor } => {
            &&& n >= 2
            &&& trace[n - 1] == (Action::Disarm { sensor })
            &&& trace[n - 2] == RangingView::measure(sensor)
        },
        Phase::Settling { sensor } => follows_measurement(trace, n, sensor),
    }
}

proof fn lemma_trace_tail(inputs: Seq<Input>)
    ensures
        tail_matches(
            RangingView::initial().run(inputs).phase,
            RangingView::initial().trace(inputs),
        ),
        sequential(RangingView::initial().trace(inputs)),
    decreases inputs.len(),
{
    let start = RangingView::initial();
    if inputs.len() > 0 {
        let before = start.run(inputs.drop_last());
        let trace = start.trace(inputs.drop_last());
        lemma_trace_tail(inputs.drop_last());
        match before.emits(inputs.last()) {
            Some(action) => {
                let longer = trace.push(action);
                assert(start.trace(inputs) == longer);
                assert forall|i: int| 0 <= i < longer.len() implies #[trigger] in_turn(
                    longer,
                    i,
                ) by {
                    if i < trace.len() {
                        assert(in_turn(trace, i));
                        assert(trace[i] == longer[i]);
                    }
                }
            },
            None => {},
        }
    }
}

/// The sensors fire in turn, never into each other's measurement. In the
/// actions handed to the task from the start, in whatever order steps, polls
/// and echo interrupts arrive, every trigger of sensor one comes after the
/// trigger of sensor zero, after the end of that measurement, by its echo or
/// by its timeout and disarm, and after the pause that follows it; every
/// cycle ends after the same has happened for sensor one; and sensor zero
/// fires again only after the cycle has ended. Whenever one sensor is being
/// measured, the other is at rest: its echo line is idle and no flight time
/// of it is outstanding.
pub proof fn theorem_sensors_fire_in_turn(inputs: Seq<Input>)
    ensures
        sequential(RangingView::initial().trace(inputs)),
        forall|i: int|
            0 <= i < RangingView::initial().trace(inputs).len()
                && #[trigger] RangingView::initial().trace(inputs)[i] == RangingView::measure(
                SensorId::One,
            ) ==> follows_measurement(RangingView::initial().trace(inputs), i, SensorId::Zero),
        RangingView::initial().run(inputs).measuring(SensorId::One)
            ==> RangingView::initial().run(inputs).ultrasonic0.quiet(),
        RangingView::initial().run(inputs).measuring(SensorId::Zero)
            ==> RangingView::initial().run(inputs).ultrasonic1.quiet(),
{
    lemma_trace_tail(inputs);
    lemma_reachable_states_are_well_formed(inputs);
    let trace = RangingView::initial().trace(inputs);
    assert forall|i: int|
        0 <= i < trace.len() && #[trigger] trace[i] == RangingView::measure(
            SensorId::One,
        ) implies follows_measurement(trace, i, SensorId::Zero) by {
        assert(in_turn(trace, i));
    }
}

/// A cycle without a failure publishes what was measured. From rest, with an
/// echo pulse on each sensor's line while that sensor is being measured, the
/// task is handed: the trigger of sensor zero, the pause, the trigger of
/// sensor one, the pause, and the publication of the two distances that
/// belong to the widths of the two pulses. If one of the two distances is 0
/// the cycle ends in a recovery instead.
pub proof fn theorem_cycle_publishes_what_was_measured(
    ranging: RangingView,
    rise0: u64,
    fall0: u64,
    rise1: u64,
    fall1: u64,
)
    requires
        ranging.wf(),
        ranging.phase is Resting,
        rise0 < fall0,
        rise1 < fall1,
    ensures
        ({
            let none = EchoInput { interrupt_set: false, is_high: false, now: 0 };
            let up0 = EchoInput { interrupt_set: true, is_high: true, now: rise0 };
            let down0 = EchoInput { interrupt_set: true, is_high: false, now: fall0 };
            let up1 = EchoInput { interrupt_set: true, is_high: true, now: rise1 };
            let down1 = EchoInput { interrupt_set: true, is_high: false, now: fall1 };
            let distance0 = spec_distance((fall0 - rise0) as u64) as u64;
            let distance1 = spec_distance((fall1 - rise1) as u64) as u64;
            let first = ranging.advanced().interrupted(up0, none).interrupted(down0, none);
            let second = first.polled().advanced().interrupted(none, up1).interrupted(none, down1);
            &&& ranging.action() == RangingView::measure(SensorId::Zero)
            &&& first.poll_action() == Some(Action::Delay { millis: SETTLE_MS })
            &&& first.polled().action() == RangingView::measure(SensorId::One)
            &&& second.poll_action() == Some(Action::Delay { millis: SETTLE_MS })
            &&& second.polled().action() == if distance0 == 0 || distance1 == 0 {
                Action::Recover { millis: RECOVERY_MS }
            } else {
                Action::Publish { distance0, distance1 }
            }
            &&& second.polled().advanced().phase is Resting
        }),
{
}

impl RangingView {
    /// Whether a measurement of the cycle under way has already failed.
    pub open spec fn doomed(self) -> bool {
        match self.phase {
            Phase::Resting => false,
            Phase::Measuring { sensor: SensorId::Zero } => false,
            Phase::Disarming { sensor: SensorId::Zero } => self.distance0 == 0,
            Phase::Settling { sensor: SensorId::Zero } => self.distance0 == 0,
            Phase::Measuring { sensor: SensorId::One } => self.distance0 == 0,
            Phase::Disarming { sensor: SensorId::One } => self.failed(),
            Phase::Settling { sensor: SensorId::One } => self.failed(),
        }
    }
}

/// Whether `input` can occur while the task waits for the echo of `sensor`
/// and the echo never completes: it is a poll, or an interrupt that brings no
/// falling edge on that sensor's line.
pub open spec fn without_falling_edge(input: Input, sensor: SensorId) -> bool {
    match input {
        Input::Advance => false,
        Input::Poll => true,
        Input::Interrupt { .. } => !EchoState::falling_edge(input.echo(sensor)->0),
    }
}

/// Whether a publication in `trace` comes only after a recovery: the cycle
/// that was under way at the start of the trace published nothing.
pub open spec fn recovers_before_publishing(trace: Seq<Action>) -> bool {
    forall|k: int|
        0 <= k < trace.len() && #[trigger] trace[k] is Publish ==> exists|j: int|
            0 <= j < k && #[trigger] trace[j] is Recover
}

/// While no falling edge arrives, a measurement stays open and empty-handed:
/// the phase does not move, nothing is handed to the task, and a poll finds no
/// flight time.
pub proof fn lemma_echo_without_end(ranging: RangingView, sensor: SensorId, window: Seq<Input>)
    requires
        ranging.measuring(sensor),
        ranging.sensor(sensor).flight_time.pending() is None,
        forall|i: int| 0 <= i < window.len() ==> without_falling_edge(#[trigger] window[i], sensor),
    ensures
        ranging.run(window).measuring(sensor),
        ranging.run(window).sensor(sensor).flight_time.pending() is None,
        ranging.run(window).poll_action() is None,
        ranging.run(window).distance0 == ranging.distance0,
        ranging.run(window).distance1 == ranging.distance1,
        ranging.trace(window).len() == 0,
    decreases window.len(),
{
    if window.len() > 0 {
        let shorter = window.drop_last();
        assert forall|i: int| 0 <= i < shorter.len() implies without_falling_edge(
            #[trigger] shorter[i],
            sensor,
        ) by {
            assert(shorter[i] == window[i]);
        }
        lemma_echo_without_end(ranging, sensor, shorter);
        assert(without_falling_edge(window[window.len() - 1], sensor));
    }
}

/// The index of the first recovery in the trace of `inputs`, if the cycle
/// that was doomed at the start has ended within them.
proof fn lemma_doomed_cycle(ranging: RangingView, inputs: Seq<Input>) -> (ended: Option<int>)
    requires
        ranging.doomed(),
    ensures
        match ended {
            Some(j) => {
                &&& 0 <= j < ranging.trace(inputs).len()
                &&& ranging.trace(inputs)[j] is Recover
                &&& forall|k: int| 0 <= k < j ==> !(#[trigger] ranging.trace(inputs)[k] is Publish)
            },
            None => {
                &&& ranging.run(inputs).doomed()
                &&& forall|k: int|
                    0 <= k < ranging.trace(inputs).len() ==> !(#[trigger] ranging.trace(
                        inputs,
                    )[k] is Publish)
            },
        },
    decreases inputs.len(),
{
    if inputs.len() == 0 {
        None
    } else {
        let earlier = lemma_doomed_cycle(ranging, inputs.drop_last());
        let before = ranging.run(inputs.drop_last());
        let trace = ranging.trace(inputs.drop_last());
        match before.emits(inputs.last()) {
            Some(action) => {
                let longer = trace.push(action);
                assert(ranging.trace(inputs) == longer);
                assert forall|k: int| 0 <= k < trace.len() implies longer[k] == trace[k] by {}
                match earlier {
                    Some(j) => Some(j),
                    None => {
                        if action is Recover {
                            Some(trace.len() as int)
                        } else {
                            None
                        }
                    },
                }
            },
            None => earlier,
        }
    }
}

/// A cycle in which a measurement has failed publishes nothing. From a state
/// in which a measurement of the cycle under way has failed, and whatever
/// happens afterwards, no distance is published before the cycle has ended in
/// a recovery.
pub proof fn theorem_failed_cycle_publishes_nothing(ranging: RangingView, inputs: Seq<Input>)
    requires
        ranging.doomed(),
    ensures
        recovers_before_publishing(ranging.trace(inputs)),
{
    let ended = lemma_doomed_cycle(ranging, inputs);
    let trace = ranging.trace(inputs);
    assert forall|k: int| 0 <= k < trace.len() && #[trigger] trace[k] is Publish implies exists|
        j: int,
    |
        0 <= j < k && #[trigger] trace[j] is Recover by {
        match ended {
            Some(j) => {
                assert(j < k);
                assert(trace[j] is Recover);
            },
            None => {},
        }
    }
}

/// An echo that never ends fails its cycle. If the task triggers `sensor`
/// and, from the trigger until the timeout, the handler sees no falling edge
/// on that sensor's line (a rising edge only, or nothing at all), then nothing
/// is handed to the task before the timeout; the step at the timeout returns
/// the disarm of that sensor, before any further trigger, and leaves the
/// sensor at rest with no result; and whatever follows, the cycle publishes
/// nothing and ends in a recovery.
pub proof fn theorem_lost_echo_fails_cycle(
    ranging: RangingView,
    sensor: SensorId,
    window: Seq<Input>,
    rest: Seq<Input>,
)
    requires
        ranging.wf(),
        ranging.action() == RangingView::measure(sensor),
        forall|i: int| 0 <= i < window.len() ==> without_falling_edge(#[trigger] window[i], sensor),
    ensures
        ranging.advanced().trace(window).len() == 0,
        ranging.advanced().run(window).measuring(sensor),
        ranging.advanced().run(window).action() == (Action::Disarm { sensor }),
        ranging.advanced().run(window).advanced().sensor(sensor).quiet(),
        ranging.advanced().run(window).advanced().distance(sensor) == 0,
        recovers_before_publishing(ranging.advanced().run(window).advanced().trace(rest)),
{
    let triggered = ranging.advanced();
    lemma_echo_without_end(triggered, sensor, window);
    theorem_failed_cycle_publishes_nothing(triggered.run(window).advanced(), rest);
}

} // verus!
