//! The sampling loop as an explicit state machine.
//!
//! The loop cycles through five phases forever: initialize once, then
//! sample, format, notify, sleep, and sample again. The machine here holds
//! the phase and decides every transition; the surrounding binary performs
//! the outward work each returned action names — taking a snapshot,
//! delivering an event, pausing for the fixed interval — and hands the
//! outcome back as the next event. A normalization fault skips the cycle's
//! formatting and notification but still sleeps; a failed delivery is
//! absorbed and never stops the loop.

use crate::event::NotificationEvent;
use crate::event::build_cycle_event;
use crate::event::cycle_fault;
use crate::event::cycle_ok;
use crate::event::cycle_payload;
use crate::metrics::MetricSnapshot;
use crate::normalize::NormalizeError;
use vstd::pervasive::unreached;
use vstd::prelude::*;

verus! {

/// The fixed pause between cycles, in seconds. The loop always sleeps this
/// long regardless of how long sampling and delivery took, so the actual
/// period is the sampling latency plus this constant.
pub const SLEEP_SECONDS: u64 = 2;

/// Where in its cycle the loop stands.
#[derive(Clone, Copy, Debug, PartialEq, Eq, Structural)]
pub enum LoopPhase {
    /// The metric source is being constructed; entered once at start.
    Initializing,
    /// A snapshot of the OS counters is being taken.
    Sampling,
    /// The machine itself normalizes and serializes the snapshot.
    Formatting,
    /// The cycle's event is being delivered to the consumer.
    Notifying,
    /// The fixed pause before the next cycle.
    Sleeping,
}

/// What the driver reports back to the machine: the outcome of the last
/// action it was asked to perform.
#[derive(Debug)]
pub enum LoopEvent {
    /// The metric source stands ready.
    Started,
    /// Sampling finished and produced this snapshot.
    Sampled(MetricSnapshot),
    /// Nothing outward was asked for; control simply returns so that an
    /// internal phase can run.
    Continue,
    /// Delivery was attempted; `true` means the consumer accepted the event.
    Delivered(bool),
    /// The fixed pause has elapsed.
    Woke,
}

/// What the driver is asked to do next.
#[derive(Debug)]
pub enum LoopAction {
    /// Refresh the OS counters and hand back a snapshot.
    Sample,
    /// Nothing outward: call `step` again with `Continue` so the machine
    /// can format the pending snapshot.
    Format,
    /// Deliver this event to the consumer and report whether it was
    /// accepted.
    Notify(NotificationEvent),
    /// The cycle is skipped on this fault: log it, then pause as usual.
    Skip(NormalizeError),
    /// Pause for the fixed interval.
    Sleep,
}

/// The phase the machine moves to from `phase`. Only the formatting phase
/// branches, on whether the pending snapshot admitted normalization
/// (`format_ok`); in particular, the outcome of a delivery does not enter
/// the transition at all.
pub open spec fn next_phase(phase: LoopPhase, format_ok: bool) -> LoopPhase {
    match phase {
        LoopPhase::Initializing => LoopPhase::Sampling,
        LoopPhase::Sampling => LoopPhase::Formatting,
        LoopPhase::Formatting => if format_ok {
            LoopPhase::Notifying
        } else {
            LoopPhase::Sleeping
        },
        LoopPhase::Notifying => LoopPhase::Sleeping,
        LoopPhase::Sleeping => LoopPhase::Sampling,
    }
}

/// A failed delivery never stops the loop: the delivery outcome is not
/// even a parameter of the transition, so from the notifying phase the
/// machine proceeds to its sleep whatever the consumer did, and from the
/// sleep straight into the next cycle's sampling.
pub proof fn lemma_delivery_failure_does_not_stop_the_loop(format_ok: bool)
    ensures
        next_phase(LoopPhase::Notifying, format_ok) == LoopPhase::Sleeping,
        next_phase(next_phase(LoopPhase::Notifying, format_ok), format_ok)
            == LoopPhase::Sampling,
{
}

/// Every cycle sleeps exactly once between two samplings, whether it
/// notified or was skipped on a fault: from the sampling phase the machine
/// formats, then either notifies and sleeps or sleeps at once, and wakes
/// into the next sampling.
pub proof fn lemma_one_sleep_per_cycle(format_ok: bool)
    ensures
        next_phase(LoopPhase::Sampling, format_ok) == LoopPhase::Formatting,
        format_ok ==> next_phase(LoopPhase::Formatting, format_ok) == LoopPhase::Notifying,
        !format_ok ==> next_phase(LoopPhase::Formatting, format_ok) == LoopPhase::Sleeping,
        next_phase(LoopPhase::Notifying, format_ok) == LoopPhase::Sleeping,
        next_phase(LoopPhase::Sleeping, format_ok) == LoopPhase::Sampling,
{
}

/// The machine has no terminal phase: from any phase, and whatever each
/// cycle's formatting outcomes are, it is sampling again within four
/// transitions.
pub proof fn lemma_loop_never_terminates(p: LoopPhase, b1: bool, b2: bool, b3: bool, b4: bool)
    ensures
        ({
            let p1 = next_phase(p, b1);
            let p2 = next_phase(p1, b2);
            let p3 = next_phase(p2, b3);
            let p4 = next_phase(p3, b4);
            p1 is Sampling || p2 is Sampling || p3 is Sampling || p4 is Sampling
        }),
{
}

/// The loop's state between two steps: its phase, and — only while
/// formatting — the snapshot taken this cycle.
pub struct SamplingLoop {
    pub phase: LoopPhase,
    pub pending: Option<MetricSnapshot>,
}

impl SamplingLoop {
    /// A snapshot is pending exactly while the machine formats, and is
    /// then well-formed.
    pub open spec fn wf(self) -> bool {
        &&& self.pending is Some <==> self.phase is Formatting
        &&& (self.pending matches Some(s) ==> s.wf())
    }

    /// Which event each phase is waiting for; a snapshot handed over must
    /// satisfy what the metric source guarantees.
    pub open spec fn accepts(self, event: LoopEvent) -> bool {
        match (self.phase, event) {
            (LoopPhase::Initializing, LoopEvent::Started) => true,
            (LoopPhase::Sampling, LoopEvent::Sampled(s)) => s.wf(),
            (LoopPhase::Formatting, LoopEvent::Continue) => true,
            (LoopPhase::Notifying, LoopEvent::Delivered(_)) => true,
            (LoopPhase::Sleeping, LoopEvent::Woke) => true,
            _ => false,
        }
    }

    /// A fresh machine, about to construct its metric source.
    pub fn new() -> (r: SamplingLoop)
        ensures
            r.wf(),
            r.phase is Initializing,
    {
        SamplingLoop { phase: LoopPhase::Initializing, pending: None }
    }

    /// One transition: consume the outcome of the previous action and name
    /// the next one.
    ///
    /// From sampling the snapshot is stored and the machine asks to be
    /// called again; the formatting step then either emits the event to
    /// deliver or skips the cycle on its fault. Delivery leads to the
    /// sleep whatever its outcome, and the sleep back to sampling: no
    /// event ends the loop.
    pub fn step(&mut self, event: LoopEvent) -> (action: LoopAction)
        requires
            old(self).wf(),
            old(self).accepts(event),
        ensures
            final(self).wf(),
            final(self).phase == next_phase(
                old(self).phase,
                old(self).pending matches Some(s) && cycle_ok(s),
            ),
            old(self).phase is Initializing ==> action is Sample,
            old(self).phase is Sampling ==> {
                &&& action is Format
                &&& event matches LoopEvent::Sampled(s) ==> final(self).pending == Some(s)
            },
            old(self).phase is Formatting ==> {
                &&& old(self).pending matches Some(snap)
                &&& (cycle_ok(snap) ==> ({
                    &&& action matches LoopAction::Notify(ev)
                    &&& ev.name@ == "system_stats"@
                    &&& ev.payload@ == cycle_payload(snap)
                }))
                &&& (!cycle_ok(snap) ==> ({
                    &&& action matches LoopAction::Skip(e)
                    &&& e == cycle_fault(snap)
                }))
            },
            old(self).phase is Notifying ==> action is Sleep,
            old(self).phase is Sleeping ==> action is Sample,
    {
        match self.phase {
            LoopPhase::Initializing => {
                self.phase = LoopPhase::Sampling;
                LoopAction::Sample
            },
            LoopPhase::Sampling => {
                match event {
                    LoopEvent::Sampled(snap) => {
                        self.pending = Some(snap);
                        self.phase = LoopPhase::Formatting;
                        LoopAction::Format
                    },
                    _ => unreached(),
                }
            },
            LoopPhase::Formatting => {
                match self.pending.take() {
                    Some(snap) => {
                        match build_cycle_event(&snap) {
                            Ok(ev) => {
                                self.phase = LoopPhase::Notifying;
                                LoopAction::Notify(ev)
                            },
                            Err(e) => {
                                self.phase = LoopPhase::Sleeping;
                                LoopAction::Skip(e)
                            },
                        }
                    },
                    None => unreached(),
                }
            },
            LoopPhase::Notifying => {
                self.phase = LoopPhase::Sleeping;
                LoopAction::Sleep
            },
            LoopPhase::Sleeping => {
                self.phase = LoopPhase::Sampling;
                LoopAction::Sample
            },
        }
    }
}

} // verus!
