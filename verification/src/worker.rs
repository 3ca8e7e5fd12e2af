//! The sensing worker: what one read of the sensor amounts to, and when the
//! worker goes on or stops.

pub mod measurement_channel;

use measurement_channel::{MeasurementSender, NoListeners};
use nb::Error as Nonblocking;
use std::time::Instant;
use vstd::prelude::*;

verus! {

/// `nb::Error`, with its two variants visible to the verifier.
#[verifier::external_type_specification]
pub struct ExNonblocking<E>(Nonblocking<E>);

/// A CO2 sensor that can be asked for a reading without blocking.
///
/// One call either yields a concentration in parts per million, reports
/// `nb::Error::WouldBlock` while no reading is ready yet, or fails with
/// `nb::Error::Other`. Nothing is assumed of an implementation beyond that.
pub trait Co2Sensor {
    type Error: core::fmt::Display;

    fn read_co2_ppm(&mut self) -> nb::Result<u16, Self::Error>;
}

/// Why a sensing cycle produced no reading.
#[derive(Debug)]
pub enum Error<C> {
    /// The sensor had no reading ready before the deadline.
    TimedOut,
    /// The sensor reported a fault of its own.
    SensorError(C),
}

impl<C: Clone> Clone for Error<C> {
    /// A copy of the same variant, with a clone of the cause where there is
    /// one.
    fn clone(&self) -> (copy: Self)
        ensures
            match (*self, copy) {
                (Error::TimedOut, Error::TimedOut) => true,
                (Error::SensorError(cause), Error::SensorError(copied)) => cloned(cause, copied),
                _ => false,
            },
    {
        match self {
            Error::TimedOut => Error::TimedOut,
            Error::SensorError(cause) => Error::SensorError(cause.clone()),
        }
    }
}

impl<C: core::fmt::Display> Error<C> {
    /// True where `text` is this error as text: a fixed sentence for a
    /// timeout, what the cause displays as for a sensor fault.
    pub open spec fn has_message(self, text: String) -> bool {
        match self {
            Error::TimedOut => text@ == "communication timeout"@,
            Error::SensorError(cause) => vstd::string::to_string_from_display_ensures::<C>(
                &cause,
                text,
            ),
        }
    }

    /// The error as text.
    pub fn message(&self) -> (text: String)
        ensures
            self.has_message(text),
    {
        broadcast use vstd::string::to_string_from_display_ensures_for_str;

        match self {
            Error::TimedOut => "communication timeout".to_string(),
            Error::SensorError(cause) => cause.to_string(),
        }
    }
}

/// What one sensing cycle publishes: a reading in ppm, or why there is none.
pub type Outcome<C> = Result<u16, Error<C>>;

/// The outcome that a finished read stands for: a value is a reading, a read
/// that would still block has timed out, any other error is the sensor's.
pub open spec fn outcome_of<C>(reading: nb::Result<u16, C>) -> Outcome<C> {
    match reading {
        Ok(ppm) => Ok(ppm),
        Err(nb::Error::WouldBlock) => Err(Error::TimedOut),
        Err(nb::Error::Other(cause)) => Err(Error::SensorError(cause)),
    }
}

/// Classifies the result of a bounded read.
pub fn classify<C>(reading: nb::Result<u16, C>) -> (outcome: Outcome<C>)
    ensures
        outcome == outcome_of(reading),
{
    match reading {
        Ok(ppm) => Ok(ppm),
        Err(nb::Error::WouldBlock) => Err(Error::TimedOut),
        Err(nb::Error::Other(cause)) => Err(Error::SensorError(cause)),
    }
}

/// How long the worker lets one read of the sensor take, in milliseconds.
pub const READ_TIMEOUT_MILLIS: u64 = 200;

/// The most attempts that one bounded read makes. The deadline ends a read
/// long before this many attempts; the limit only makes sure that a read ends
/// even where the clock does not advance.
pub const MAX_ATTEMPTS: u64 = 0xffff_ffff_ffff_ffff;

/// `std::time::Instant`, a reading of the monotonic clock.
#[verifier::external_type_specification]
#[verifier::external_body]
pub struct ExInstant(std::time::Instant);

/// `Instant::now` reads the monotonic clock. Nothing is claimed of the
/// reading.
pub assume_specification[ std::time::Instant::now ]() -> (now: std::time::Instant);

/// `Instant::saturating_duration_since` gives the time from `earlier` to
/// `later`, zero where `earlier` is the later one. It does not panic.
/// Nothing is claimed of the length.
pub assume_specification[ std::time::Instant::saturating_duration_since ](
    later: &std::time::Instant,
    earlier: std::time::Instant,
) -> (between: std::time::Duration);

/// `Duration::as_millis` gives the whole milliseconds in a duration.
/// Nothing is claimed of the number.
pub assume_specification[ std::time::Duration::as_millis ](length: &std::time::Duration) -> (millis: u128);

/// True where a read that has waited `waited_millis` is past a deadline of
/// `timeout_millis`.
pub open spec fn deadline_reached_spec(waited_millis: u128, timeout_millis: u64) -> bool {
    waited_millis >= timeout_millis
}

/// Tells whether the deadline of a bounded read has been reached.
#[verifier::when_used_as_spec(deadline_reached_spec)]
pub fn deadline_reached(waited_millis: u128, timeout_millis: u64) -> (reached: bool)
    ensures
        reached == deadline_reached_spec(waited_millis, timeout_millis),
{
    waited_millis >= timeout_millis as u128
}

/// True where an attempt settles a read: it gave a value or a hard error.
pub open spec fn is_definite<C>(attempt: nb::Result<u16, C>) -> bool {
    !(attempt matches Err(nb::Error::WouldBlock))
}

/// What one answer of the sensor does to a read: an answer that is definite
/// settles it, as that very answer; one that would block leaves it open.
pub open spec fn settled_by<C>(answer: nb::Result<u16, C>) -> Option<nb::Result<u16, C>> {
    if is_definite(answer) {
        Some(answer)
    } else {
        None
    }
}

/// Decides on one answer of the sensor: `Some` of the answer, unchanged,
/// where it ends the read, `None` where the sensor is to be asked again.
pub fn settle<C>(answer: nb::Result<u16, C>) -> (settled: Option<nb::Result<u16, C>>)
    ensures
        settled == settled_by(answer),
{
    match answer {
        Err(nb::Error::WouldBlock) => None,
        definite => Some(definite),
    }
}

/// A read of the sensor that has ended, with what it took.
pub struct TimedRead<C> {
    /// The answer that settled the read, or `WouldBlock` where none did.
    pub result: nb::Result<u16, C>,
    /// How often the sensor was asked.
    pub attempts: u64,
    /// The last reading of the clock, in milliseconds since the read began.
    pub waited_millis: u128,
}

impl<C> TimedRead<C> {
    /// What holds of every read that `block_with_timeout` returns.
    ///
    /// A read that gave up did so at or after the deadline (or with its
    /// attempts used up) and a read that was settled was settled by an
    /// attempt that began before the deadline.
    pub open spec fn within(self, timeout_millis: u64) -> bool {
        if is_definite(self.result) {
            &&& 1 <= self.attempts <= MAX_ATTEMPTS
            &&& !deadline_reached(self.waited_millis, timeout_millis)
        } else {
            ||| deadline_reached(self.waited_millis, timeout_millis)
            ||| self.attempts == MAX_ATTEMPTS
        }
    }
}

/// Asks the sensor again and again until it gives a value or a hard error,
/// or until `timeout_millis` have passed. The clock is read before each
/// attempt, and an attempt that begins before the deadline is carried out.
/// Between two attempts there is no pause. `settle` decides on each answer:
/// the first that is definite ends the read and is returned as it came.
///
/// A read also gives up after `MAX_ATTEMPTS` attempts, which no clock that
/// advances lets it reach.
pub fn block_with_timeout<S: Co2Sensor>(timeout_millis: u64, sensor: &mut S) -> (read: TimedRead<
    S::Error,
>)
    ensures
        read.within(timeout_millis),
        timeout_millis == 0 ==> read.attempts == 0 && !is_definite(read.result),
{
    let started = Instant::now();
    let mut attempts: u64 = 0;
    loop
        invariant
            attempts <= MAX_ATTEMPTS,
            attempts > 0 ==> timeout_millis > 0,
        decreases MAX_ATTEMPTS - attempts,
    {
        let waited_millis = Instant::now().saturating_duration_since(started).as_millis();
        if deadline_reached(waited_millis, timeout_millis) || attempts == MAX_ATTEMPTS {
            return TimedRead { result: Err(nb::Error::WouldBlock), attempts, waited_millis };
        }
        attempts = attempts + 1;
        match settle(sensor.read_co2_ppm()) {
            None => {},
            Some(result) => {
                return TimedRead { result, attempts, waited_millis };
            },
        }
    }
}

/// Where the worker stands.
///
/// It waits for a trigger, then reads the sensor and publishes the outcome,
/// then waits again. It stops, for good, when a publish finds no listener.
#[derive(Clone, Copy, Debug, PartialEq, Eq, Structural)]
pub enum WorkerState {
    /// Suspended until a measurement is asked for.
    AwaitingTrigger,
    /// Woken: reading the sensor and publishing the outcome.
    Reading,
    /// Done: every receiver is gone.
    Stopped,
}

/// What moves the worker from one state to the next.
#[derive(Clone, Copy, Debug, PartialEq, Eq, Structural)]
pub enum WorkerEvent {
    /// The wait for a trigger has ended.
    Triggered,
    /// The outcome of a read was published to the receivers.
    Published,
    /// The outcome of a read found no receiver left.
    NoListeners,
}

/// The state that follows `state` on `event`. An event that a state does not
/// expect leaves the state as it is.
pub open spec fn next_state(state: WorkerState, event: WorkerEvent) -> WorkerState {
    match (state, event) {
        (WorkerState::AwaitingTrigger, WorkerEvent::Triggered) => WorkerState::Reading,
        (WorkerState::Reading, WorkerEvent::Published) => WorkerState::AwaitingTrigger,
        (WorkerState::Reading, WorkerEvent::NoListeners) => WorkerState::Stopped,
        _ => state,
    }
}

/// The event that the result of a publish stands for.
pub open spec fn publish_event_spec<T>(sent: Result<(), NoListeners<T>>) -> WorkerEvent {
    if sent is Ok {
        WorkerEvent::Published
    } else {
        WorkerEvent::NoListeners
    }
}

/// Turns the result of a publish into the event that moves the worker on.
/// The kind of outcome that was published plays no part in it.
pub fn publish_event<T>(sent: &Result<(), NoListeners<T>>) -> (event: WorkerEvent)
    ensures
        event == publish_event_spec(*sent),
{
    match sent {
        Ok(()) => WorkerEvent::Published,
        Err(_) => WorkerEvent::NoListeners,
    }
}

impl WorkerState {
    /// The state in which a worker starts.
    pub fn start() -> (state: WorkerState)
        ensures
            state == WorkerState::AwaitingTrigger,
    {
        WorkerState::AwaitingTrigger
    }

    /// Moves on by one event.
    pub fn step(self, event: WorkerEvent) -> (next: WorkerState)
        ensures
            next == next_state(self, event),
    {
        match (self, event) {
            (WorkerState::AwaitingTrigger, WorkerEvent::Triggered) => WorkerState::Reading,
            (WorkerState::Reading, WorkerEvent::Published) => WorkerState::AwaitingTrigger,
            (WorkerState::Reading, WorkerEvent::NoListeners) => WorkerState::Stopped,
            _ => self,
        }
    }
}

/// True where an outcome is a timeout.
pub open spec fn is_timeout<C>(outcome: Outcome<C>) -> bool {
    outcome matches Err(Error::TimedOut)
}

/// Tells whether an outcome is a timeout.
pub fn timed_out<C>(outcome: &Outcome<C>) -> (timeout: bool)
    ensures
        timeout == is_timeout(*outcome),
{
    match outcome {
        Err(Error::TimedOut) => true,
        _ => false,
    }
}

/// What one sensing cycle came to.
pub struct Cycle {
    /// The state that follows.
    pub next: WorkerState,
    /// Whether the outcome handed to the publish was `TimedOut`.
    pub timed_out: bool,
    /// How often the sensor was asked.
    pub attempts: u64,
    /// The last reading of the clock, in milliseconds since the read began.
    pub waited_millis: u128,
}

impl Cycle {
    /// What holds of every cycle that `sensing_cycle` returns.
    ///
    /// The worker waits again or has stopped. A cycle that came to a timeout
    /// read the clock at `READ_TIMEOUT_MILLIS` or later (or used up its
    /// attempts); any other cycle was settled by an attempt that began
    /// before that.
    pub open spec fn in_order(self) -> bool {
        &&& self.next == WorkerState::AwaitingTrigger || self.next == WorkerState::Stopped
        &&& if self.timed_out {
            ||| deadline_reached(self.waited_millis, READ_TIMEOUT_MILLIS)
            ||| self.attempts == MAX_ATTEMPTS
        } else {
            &&& 1 <= self.attempts <= MAX_ATTEMPTS
            &&& !deadline_reached(self.waited_millis, READ_TIMEOUT_MILLIS)
        }
    }
}

/// One sensing cycle of a woken worker: reads the sensor for at most
/// `READ_TIMEOUT_MILLIS`, classifies what came of it, publishes the outcome
/// and returns the state that follows, with what the read took.
///
/// The worker waits for the next trigger whatever the outcome was, and stops
/// only where the publish found no listener; which of the two it is lies with
/// the receivers. A timeout is never handed to the publish before the
/// deadline.
pub fn sensing_cycle<S: Co2Sensor>(
    sensor: &mut S,
    sender: &MeasurementSender<Outcome<S::Error>>,
) -> (cycle: Cycle)
    ensures
        cycle.in_order(),
{
    let read = block_with_timeout(READ_TIMEOUT_MILLIS, sensor);
    let attempts = read.attempts;
    let waited_millis = read.waited_millis;
    let outcome = classify(read.result);
    let timed_out = timed_out(&outcome);
    let sent = sender.send_measurement(outcome);
    Cycle { next: WorkerState::Reading.step(publish_event(&sent)), timed_out, attempts, waited_millis }
}

/// An answer that settles a read is published as it came: a value as that
/// reading, a hard error as that sensor fault, and neither as a timeout. An
/// answer that would block settles nothing.
pub proof fn lemma_settled_answer_is_published_unchanged<C>(answer: nb::Result<u16, C>)
    ensures
        is_definite(answer) <==> settled_by(answer) == Some(answer),
        !is_definite(answer) <==> settled_by(answer) is None,
        answer matches Ok(ppm) ==> outcome_of(answer) == Ok::<u16, Error<C>>(ppm),
        answer matches Err(nb::Error::Other(cause)) ==> outcome_of(answer) == Err::<
            u16,
            Error<C>,
        >(Error::SensorError(cause)),
        is_definite(answer) ==> !is_timeout(outcome_of(answer)),
{
}

/// A timeout is never published early: a bounded read is classified as
/// `TimedOut` only where it gave up at or after its deadline (or with its
/// attempts used up), and as a reading or a sensor fault only where an
/// attempt that began before the deadline was answered.
pub proof fn lemma_timed_out_no_earlier_than_deadline<C>(read: TimedRead<C>, timeout_millis: u64)
    requires
        read.within(timeout_millis),
    ensures
        outcome_of(read.result) == Err::<u16, Error<C>>(Error::TimedOut) <==> !is_definite(
            read.result,
        ),
        outcome_of(read.result) == Err::<u16, Error<C>>(Error::TimedOut) ==> deadline_reached(
            read.waited_millis,
            timeout_millis,
        ) || read.attempts == MAX_ATTEMPTS,
        outcome_of(read.result) != Err::<u16, Error<C>>(Error::TimedOut) ==> !deadline_reached(
            read.waited_millis,
            timeout_millis,
        ) && read.attempts >= 1,
{
}

/// The worker stops only from `Reading`, and only on a publish that found no
/// listener: no trigger and no published outcome, of whatever kind, ends it.
pub proof fn lemma_stops_only_without_listeners(state: WorkerState, event: WorkerEvent)
    requires
        state != WorkerState::Stopped,
        next_state(state, event) == WorkerState::Stopped,
    ensures
        state == WorkerState::Reading,
        event == WorkerEvent::NoListeners,
{
}

/// A stopped worker stays stopped.
pub proof fn lemma_stopped_is_final(event: WorkerEvent)
    ensures
        next_state(WorkerState::Stopped, event) == WorkerState::Stopped,
{
}

/// A reading worker goes back to waiting exactly where its publish reached
/// a listener, and stops exactly where it reached none. What was published,
/// a reading, a timeout or a sensor fault, makes no difference: with every
/// receiver dropped the next publish ends the worker, and nothing else does.
pub proof fn lemma_publish_decides_the_cycle<T>(sent: Result<(), NoListeners<T>>)
    ensures
        sent is Ok <==> next_state(WorkerState::Reading, publish_event_spec(sent))
            == WorkerState::AwaitingTrigger,
        sent is Err <==> next_state(WorkerState::Reading, publish_event_spec(sent))
            == WorkerState::Stopped,
{
}

} // verus!
