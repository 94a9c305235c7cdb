//! The polling loop as a state machine.
//!
//! The machine decides; a driver acts. The driver hands the machine an event,
//! carries out the action that comes back (an exchange, a write to the shared
//! slot, a report, a sleep) and returns with the event that says how it went.
//!
//! ```text
//! Idle -> Requesting -> Updating             -> Sleeping -> Requesting -> ...
//!                    -> SleepingAfterFailure -> Sleeping
//! ```

use crate::endpoint::Endpoint;
use crate::exchange::{receive_outcome, response_outcome, ExchangeError, TransportError};
use crate::packet::NtpPacket;
use crate::sample::TimeSample;
use crate::state::SharedTimeState;
use crate::timestamp::Timestamp;
use vstd::prelude::*;

verus! {

/// Time between two cycles, in milliseconds, where nothing else is asked for.
pub const DEFAULT_INTERVAL_MILLIS: u64 = 10_000;

/// What the loop is doing.
#[derive(Clone, Copy, Debug, PartialEq, Eq, Structural)]
pub enum PollerPhase {
    /// Nothing has been asked of the server yet.
    Idle,
    /// An exchange is under way.
    Requesting,
    /// The exchange gave this sample, which is on its way into the slot.
    Updating(TimeSample),
    /// The exchange failed in this way, which is on its way to the observer.
    SleepingAfterFailure(ExchangeError),
    /// The cycle is over and the loop waits for the next one.
    Sleeping,
    /// The loop was shut down.
    Stopped,
}

/// What the driver reports.
#[derive(Clone, Copy, Debug, PartialEq, Eq)]
pub enum PollerEvent {
    /// The last action is done; in `Idle`, the loop may start.
    Tick,
    /// The exchange that was asked for ended in this way.
    Exchanged(Result<TimeSample, ExchangeError>),
    /// The process is going down.
    Shutdown,
}

/// What the driver is to do next.
#[derive(Clone, Copy, Debug, PartialEq, Eq)]
pub enum PollerAction {
    /// Run one exchange with this endpoint and report `Exchanged`.
    Exchange(Endpoint),
    /// Put this sample in the shared slot and report `Tick`.
    Publish(TimeSample),
    /// Make this failure known and report `Tick`.
    Record(ExchangeError),
    /// Sleep for this many milliseconds and report `Tick`.
    Sleep(u64),
    /// Stop driving.
    Halt,
    /// The event was not one that the phase waits for. Go on with what was
    /// asked before.
    Nothing,
}

/// The phase after `event` arrives in `phase`.
pub open spec fn next_phase(phase: PollerPhase, event: PollerEvent) -> PollerPhase {
    match (phase, event) {
        (PollerPhase::Stopped, _) => PollerPhase::Stopped,
        (_, PollerEvent::Shutdown) => PollerPhase::Stopped,
        (PollerPhase::Idle, PollerEvent::Tick) => PollerPhase::Requesting,
        (PollerPhase::Sleeping, PollerEvent::Tick) => PollerPhase::Requesting,
        (PollerPhase::Requesting, PollerEvent::Exchanged(Ok(sample))) => PollerPhase::Updating(
            sample,
        ),
        (
            PollerPhase::Requesting,
            PollerEvent::Exchanged(Err(error)),
        ) => PollerPhase::SleepingAfterFailure(error),
        (PollerPhase::Updating(_), PollerEvent::Tick) => PollerPhase::Sleeping,
        (PollerPhase::SleepingAfterFailure(_), PollerEvent::Tick) => PollerPhase::Sleeping,
        _ => phase,
    }
}

/// Whether `phase` waits for `event`.
pub open spec fn expected(phase: PollerPhase, event: PollerEvent) -> bool {
    match (phase, event) {
        (PollerPhase::Stopped, _) => true,
        (_, PollerEvent::Shutdown) => true,
        (PollerPhase::Requesting, PollerEvent::Exchanged(_)) => true,
        (PollerPhase::Requesting, PollerEvent::Tick) => false,
        (_, PollerEvent::Tick) => true,
        _ => false,
    }
}

/// What the driver is asked to do when `event` arrives in `phase`: the work
/// of the phase that follows, or nothing for an event that was not waited for.
pub open spec fn next_action(
    phase: PollerPhase,
    event: PollerEvent,
    endpoint: Endpoint,
    interval_millis: u64,
) -> PollerAction {
    if !expected(phase, event) {
        PollerAction::Nothing
    } else {
        match next_phase(phase, event) {
            PollerPhase::Requesting => PollerAction::Exchange(endpoint),
            PollerPhase::Updating(sample) => PollerAction::Publish(sample),
            PollerPhase::SleepingAfterFailure(error) => PollerAction::Record(error),
            PollerPhase::Sleeping => PollerAction::Sleep(interval_millis),
            PollerPhase::Stopped | PollerPhase::Idle => PollerAction::Halt,
        }
    }
}

/// What the shared slot holds after `event` arrived in `phase`: the new
/// sample where an exchange under way succeeded, else what it held before.
pub open spec fn slot_after(
    phase: PollerPhase,
    event: PollerEvent,
    slot: Option<TimeSample>,
) -> Option<TimeSample> {
    match (phase, event) {
        (PollerPhase::Requesting, PollerEvent::Exchanged(Ok(sample))) => Some(sample),
        _ => slot,
    }
}

/// The polling loop: a fixed endpoint, a fixed time between cycles, and the
/// phase the loop is in.
#[derive(Debug)]
pub struct Poller {
    endpoint: Endpoint,
    interval_millis: u64,
    phase: PollerPhase,
}

impl Poller {
    /// The endpoint that every exchange goes to.
    pub closed spec fn spec_endpoint(self) -> Endpoint {
        self.endpoint
    }

    /// Milliseconds between two cycles.
    pub closed spec fn spec_interval_millis(self) -> u64 {
        self.interval_millis
    }

    /// The phase the loop is in.
    pub closed spec fn spec_phase(self) -> PollerPhase {
        self.phase
    }

    /// A loop that has not started yet.
    pub fn new(endpoint: Endpoint, interval_millis: u64) -> (r: Poller)
        ensures
            r.spec_endpoint() == endpoint,
            r.spec_interval_millis() == interval_millis,
            r.spec_phase() == PollerPhase::Idle,
    {
        Poller { endpoint, interval_millis, phase: PollerPhase::Idle }
    }

    /// The endpoint that every exchange goes to.
    pub fn endpoint(&self) -> (r: Endpoint)
        ensures
            r == self.spec_endpoint(),
    {
        self.endpoint
    }

    /// Milliseconds between two cycles.
    pub fn interval_millis(&self) -> (r: u64)
        ensures
            r == self.spec_interval_millis(),
    {
        self.interval_millis
    }

    /// The phase the loop is in.
    pub fn phase(&self) -> (r: PollerPhase)
        ensures
            r == self.spec_phase(),
    {
        self.phase
    }

    /// Takes one event and says what to do next.
    pub fn step(&mut self, event: PollerEvent) -> (action: PollerAction)
        ensures
            final(self).spec_endpoint() == old(self).spec_endpoint(),
            final(self).spec_interval_millis() == old(self).spec_interval_millis(),
            final(self).spec_phase() == next_phase(old(self).spec_phase(), event),
            action == next_action(
                old(self).spec_phase(),
                event,
                old(self).spec_endpoint(),
                old(self).spec_interval_millis(),
            ),
    {
        let (phase, action) = match (self.phase, event) {
            (PollerPhase::Stopped, _) => (PollerPhase::Stopped, PollerAction::Halt),
            (_, PollerEvent::Shutdown) => (PollerPhase::Stopped, PollerAction::Halt),
            (PollerPhase::Idle, PollerEvent::Tick) => (
                PollerPhase::Requesting,
                PollerAction::Exchange(self.endpoint),
            ),
            (PollerPhase::Sleeping, PollerEvent::Tick) => (
                PollerPhase::Requesting,
                PollerAction::Exchange(self.endpoint),
            ),
            (PollerPhase::Requesting, PollerEvent::Exchanged(Ok(sample))) => (
                PollerPhase::Updating(sample),
                PollerAction::Publish(sample),
            ),
            (PollerPhase::Requesting, PollerEvent::Exchanged(Err(error))) => (
                PollerPhase::SleepingAfterFailure(error),
                PollerAction::Record(error),
            ),
            (PollerPhase::Updating(_), PollerEvent::Tick) => (
                PollerPhase::Sleeping,
                PollerAction::Sleep(self.interval_millis),
            ),
            (PollerPhase::SleepingAfterFailure(_), PollerEvent::Tick) => (
                PollerPhase::Sleeping,
                PollerAction::Sleep(self.interval_millis),
            ),
            (phase, _) => (phase, PollerAction::Nothing),
        };
        self.phase = phase;
        action
    }

    /// Takes one event and does the part of the answer that concerns the
    /// shared slot: a sample that an exchange gave is put in the slot at once,
    /// and the action returned is the sleep that follows. Every other event
    /// leaves the slot as it was and is answered as `step` answers it.
    pub fn advance(&mut self, shared: &mut SharedTimeState, event: PollerEvent) -> (action:
        PollerAction)
        ensures
            final(self).spec_endpoint() == old(self).spec_endpoint(),
            final(self).spec_interval_millis() == old(self).spec_interval_millis(),
            final(shared)@ == slot_after(old(self).spec_phase(), event, old(shared)@),
            !(action is Publish),
            ({
                let first = next_phase(old(self).spec_phase(), event);
                let asked = next_action(
                    old(self).spec_phase(),
                    event,
                    old(self).spec_endpoint(),
                    old(self).spec_interval_millis(),
                );
                let after = final(self).spec_phase();
                if asked is Publish {
                    after == PollerPhase::Sleeping && action == PollerAction::Sleep(
                        old(self).spec_interval_millis(),
                    )
                } else {
                    after == first && action == asked
                }
            }),
    {
        let action = self.step(event);
        match action {
            PollerAction::Publish(sample) => {
                shared.publish(sample);
                self.step(PollerEvent::Tick)
            },
            other => other,
        }
    }
}

/// No event leads back to `Idle`, and nothing leads out of `Stopped`.
pub proof fn lemma_idle_only_at_start(phase: PollerPhase, event: PollerEvent)
    ensures
        phase != PollerPhase::Idle ==> next_phase(phase, event) != PollerPhase::Idle,
        next_phase(PollerPhase::Stopped, event) == PollerPhase::Stopped,
        event != PollerEvent::Shutdown ==> (next_phase(phase, event) == PollerPhase::Stopped
            <==> phase == PollerPhase::Stopped),
{
}

/// An exchange that failed never reaches the shared slot: in whatever phase
/// the failure is reported, the slot holds afterwards what it held before,
/// and the driver is not asked to publish anything.
pub proof fn lemma_failure_leaves_slot(
    phase: PollerPhase,
    error: ExchangeError,
    endpoint: Endpoint,
    interval_millis: u64,
    slot: Option<TimeSample>,
)
    ensures
        slot_after(phase, PollerEvent::Exchanged(Err(error)), slot) == slot,
        !(next_action(phase, PollerEvent::Exchanged(Err(error)), endpoint, interval_millis)
            is Publish),
{
}

/// The shared slot changes on one occasion only: when an exchange that is
/// under way reports a sample. Until the first such report an empty slot
/// stays empty.
pub proof fn lemma_slot_changes_only_on_success(
    phase: PollerPhase,
    event: PollerEvent,
    slot: Option<TimeSample>,
)
    ensures
        slot_after(phase, event, slot) == slot || (phase == PollerPhase::Requesting && event
            == PollerEvent::Exchanged(Ok(slot_after(phase, event, slot)->Some_0))),
        !(phase == PollerPhase::Requesting && event is Exchanged && event->Exchanged_0 is Ok)
            ==> slot_after(phase, event, None) is None,
{
}

/// A reply whose origin is not the transmit timestamp of the request sent
/// is a protocol error, and the shared slot holds afterwards what it held
/// before.
pub proof fn lemma_mismatched_origin_leaves_slot(
    sent_at: Timestamp,
    reply: Seq<u8>,
    received_at: Timestamp,
    phase: PollerPhase,
    slot: Option<TimeSample>,
)
    requires
        NtpPacket::parse(reply).origin != sent_at.ntp(),
    ensures
        response_outcome(sent_at, reply, received_at) == Err::<TimeSample, ExchangeError>(
            ExchangeError::Protocol,
        ),
        slot_after(
            phase,
            PollerEvent::Exchanged(response_outcome(sent_at, reply, received_at)),
            slot,
        ) == slot,
{
}

/// A receive that ran out of time is a timeout error; the shared slot holds
/// afterwards what it held before; the loop reports the failure, sleeps for
/// its interval and asks for the next exchange.
pub proof fn lemma_timeout_keeps_slot_and_retries(
    sent_at: Timestamp,
    received_at: Timestamp,
    endpoint: Endpoint,
    interval_millis: u64,
    slot: Option<TimeSample>,
)
    ensures
        ({
            let outcome = receive_outcome(
                sent_at,
                Err::<Seq<u8>, TransportError>(TransportError::TimedOut),
                received_at,
            );
            let reported = PollerEvent::Exchanged(outcome);
            let failed = next_phase(PollerPhase::Requesting, reported);
            let asleep = next_phase(failed, PollerEvent::Tick);
            let again = next_phase(asleep, PollerEvent::Tick);
            &&& outcome == Err::<TimeSample, ExchangeError>(ExchangeError::Timeout)
            &&& slot_after(PollerPhase::Requesting, reported, slot) == slot
            &&& failed == PollerPhase::SleepingAfterFailure(ExchangeError::Timeout)
            &&& next_action(PollerPhase::Requesting, reported, endpoint, interval_millis)
                == PollerAction::Record(ExchangeError::Timeout)
            &&& asleep == PollerPhase::Sleeping
            &&& next_action(failed, PollerEvent::Tick, endpoint, interval_millis)
                == PollerAction::Sleep(interval_millis)
            &&& again == PollerPhase::Requesting
            &&& next_action(asleep, PollerEvent::Tick, endpoint, interval_millis)
                == PollerAction::Exchange(endpoint)
        }),
{
}

/// A successful exchange under way puts its sample in the slot whole: the
/// slot holds the new sample, each field of it, and nothing of the old one.
pub proof fn lemma_success_replaces_slot(sample: TimeSample, slot: Option<TimeSample>)
    ensures
        slot_after(PollerPhase::Requesting, PollerEvent::Exchanged(Ok(sample)), slot) == Some(
            sample,
        ),
        next_phase(PollerPhase::Requesting, PollerEvent::Exchanged(Ok(sample)))
            == PollerPhase::Updating(sample),
        next_phase(PollerPhase::Updating(sample), PollerEvent::Tick) == PollerPhase::Sleeping,
{
}

} // verus!
