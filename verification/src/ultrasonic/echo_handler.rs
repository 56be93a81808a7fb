//! Echo capture: the state machine that the interrupt handler runs for one
//! echo line.
//!
//! A line is `Idle` until the ranging protocol arms it. On the rising edge of
//! the echo pulse the handler records the time, on the falling edge it
//! computes the flight time and the line goes back to `Idle`. A line on which
//! no falling edge ever arrives stays armed; bounding that wait is the ranging
//! protocol's business, not the handler's.

use vstd::prelude::*;

verus! {

/// State of one echo line.
#[derive(Clone, Copy, Debug, PartialEq, Eq, Structural)]
pub enum EchoState {
    /// Not armed: edges on the line mean nothing.
    Idle,
    /// Armed, waiting for the rising edge of the echo pulse.
    Armed,
    /// The rising edge was seen at tick `t0`; waiting for the falling edge.
    RisingSeen { t0: u64 },
}

/// What the handler read from the hardware for one line on one invocation.
#[derive(Clone, Copy, Debug, PartialEq, Eq, Structural)]
pub struct EchoInput {
    /// Whether the line's interrupt-pending flag is set.
    pub interrupt_set: bool,
    /// Whether the line reads high, that is, whether the edge was a rising one.
    pub is_high: bool,
    /// Monotonic tick count in microseconds, read when the line was serviced.
    pub now: u64,
}

/// What the handler has to do for one line after its state was advanced.
#[derive(Clone, Copy, Debug, PartialEq, Eq)]
pub struct EchoOutcome {
    /// The flight time in microseconds, if this invocation completed a
    /// measurement. Never 0.
    pub flight_time: Option<u64>,
    /// Whether further interrupts on the line have to be disabled.
    pub unlisten: bool,
    /// Whether the line's interrupt-pending flag has to be cleared. Always set:
    /// every line is cleared on every invocation, signalled or not.
    pub clear_interrupt: bool,
}

impl EchoState {
    /// The state of a line after the handler serviced it with `input`.
    ///
    /// Without a pending interrupt nothing changes, and an idle line ignores
    /// edges. A rising edge on an armed line records its time, also when an
    /// earlier rising edge was recorded already. A falling edge counts only
    /// after a rising edge and returns the line to `Idle`.
    pub open spec fn next(self, input: EchoInput) -> EchoState {
        if !input.interrupt_set {
            self
        } else {
            match self {
                EchoState::Idle => EchoState::Idle,
                EchoState::Armed => if input.is_high {
                    EchoState::RisingSeen { t0: input.now }
                } else {
                    EchoState::Armed
                },
                EchoState::RisingSeen { t0 } => if input.is_high {
                    EchoState::RisingSeen { t0: input.now }
                } else {
                    EchoState::Idle
                },
            }
        }
    }

    /// The flight time that servicing the line with `input` yields: the ticks
    /// elapsed since the recorded rising edge, on a falling edge that comes
    /// strictly later than it. A falling edge whose time is not later than the
    /// rising edge completes no measurement.
    pub open spec fn flight_time(self, input: EchoInput) -> Option<u64> {
        match self {
            EchoState::RisingSeen { t0 } => if input.interrupt_set && !input.is_high && input.now
                > t0 {
                Some((input.now - t0) as u64)
            } else {
                None
            },
            _ => None,
        }
    }

    /// Whether servicing the line with `input` ends with its interrupt
    /// disabled: an edge was pending and the line is idle afterwards.
    pub open spec fn unlistens(self, input: EchoInput) -> bool {
        input.interrupt_set && self.next(input) is Idle
    }

    /// Whether `input` is the falling edge that ends the echo pulse.
    pub open spec fn falling_edge(input: EchoInput) -> bool {
        input.interrupt_set && !input.is_high
    }
}

/// Services one echo line: advances its state with what was read from the
/// hardware and says what has to be done for the line.
pub fn handle_echo(state: &mut EchoState, input: EchoInput) -> (outcome: EchoOutcome)
    ensures
        *final(state) == old(state).next(input),
        outcome.flight_time == old(state).flight_time(input),
        outcome.unlisten == old(state).unlistens(input),
        outcome.clear_interrupt,
    no_unwind
{
    let mut flight_time: Option<u64> = None;
    let mut unlisten = false;
    if input.interrupt_set {
        match *state {
            EchoState::Idle => {
                unlisten = true;
            },
            EchoState::Armed => {
                if input.is_high {
                    *state = EchoState::RisingSeen { t0: input.now };
                }
            },
            EchoState::RisingSeen { t0 } => {
                if input.is_high {
                    *state = EchoState::RisingSeen { t0: input.now };
                } else {
                    if input.now > t0 {
                        flight_time = Some(input.now - t0);
                    }
                    *state = EchoState::Idle;
                    unlisten = true;
                }
            },
        }
    }
    EchoOutcome { flight_time, unlisten, clear_interrupt: true }
}

/// A completed measurement is never the 0 that stands for "no measurement":
/// every flight time the handler yields is at least one tick, and it is
/// yielded only by a falling edge after a recorded rising edge, which returns
/// the line to `Idle`.
pub proof fn lemma_flight_time_is_positive(state: EchoState, input: EchoInput)
    ensures
        state.flight_time(input) matches Some(flight_time) ==> {
            &&& flight_time >= 1
            &&& state matches EchoState::RisingSeen { t0 }
            &&& flight_time == input.now - t0
            &&& EchoState::falling_edge(input)
            &&& state.next(input) is Idle
        },
{
}

/// Without a falling edge an armed line never completes: it yields no flight
/// time and does not return to `Idle`.
pub proof fn lemma_no_falling_edge_no_measurement(state: EchoState, input: EchoInput)
    requires
        !(state is Idle),
        !EchoState::falling_edge(input),
    ensures
        state.flight_time(input) is None,
        !(state.next(input) is Idle),
        !state.unlistens(input),
{
}

/// An idle line stays idle and yields nothing, whatever edges arrive on it.
pub proof fn lemma_idle_line_ignores_edges(input: EchoInput)
    ensures
        EchoState::Idle.next(input) is Idle,
        EchoState::Idle.flight_time(input) is None,
{
}

} // verus!
