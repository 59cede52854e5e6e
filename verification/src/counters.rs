//! Live traffic counters: per-tick accumulators fed by accepted flows, and
//! the aggregator that hands each tick's totals to the threshold monitor.

use crate::filters::{Flow, TrafficDirection};
use vstd::prelude::*;

verus! {

/// Totals of one tick window: packets and bytes, split by direction.
/// Reset to zero at each tick boundary; saturating under extreme traffic.
#[derive(Clone, Copy, Debug, PartialEq, Eq, Structural)]
pub struct RuntimeCounters {
    /// Packets received during the tick
    pub incoming_packets: u32,
    /// Packets sent during the tick
    pub outgoing_packets: u32,
    /// Bytes received during the tick
    pub incoming_bytes: u64,
    /// Bytes sent during the tick
    pub outgoing_bytes: u64,
}

impl RuntimeCounters {
    /// All four counters at zero.
    pub open spec fn spec_zero() -> RuntimeCounters {
        RuntimeCounters {
            incoming_packets: 0u32,
            outgoing_packets: 0u32,
            incoming_bytes: 0u64,
            outgoing_bytes: 0u64,
        }
    }

    /// All four counters at zero.
    #[verifier::when_used_as_spec(spec_zero)]
    pub fn zero() -> (r: Self)
        ensures
            r == RuntimeCounters::spec_zero(),
    {
        RuntimeCounters {
            incoming_packets: 0,
            outgoing_packets: 0,
            incoming_bytes: 0,
            outgoing_bytes: 0,
        }
    }
}

/// Unbounded mathematical totals, used to account for every accepted flow
/// independently of the saturating machine counters.
pub ghost struct FlowTotals {
    /// Packets received
    pub incoming_packets: int,
    /// Packets sent
    pub outgoing_packets: int,
    /// Bytes received
    pub incoming_bytes: int,
    /// Bytes sent
    pub outgoing_bytes: int,
}

impl FlowTotals {
    /// All four totals at zero.
    pub open spec fn zero() -> FlowTotals {
        FlowTotals { incoming_packets: 0, outgoing_packets: 0, incoming_bytes: 0, outgoing_bytes: 0 }
    }

    /// Componentwise sum.
    pub open spec fn plus(self, other: FlowTotals) -> FlowTotals {
        FlowTotals {
            incoming_packets: self.incoming_packets + other.incoming_packets,
            outgoing_packets: self.outgoing_packets + other.outgoing_packets,
            incoming_bytes: self.incoming_bytes + other.incoming_bytes,
            outgoing_bytes: self.outgoing_bytes + other.outgoing_bytes,
        }
    }

    /// The totals a counter record stands for.
    pub open spec fn of_counters(c: RuntimeCounters) -> FlowTotals {
        FlowTotals {
            incoming_packets: c.incoming_packets as int,
            outgoing_packets: c.outgoing_packets as int,
            incoming_bytes: c.incoming_bytes as int,
            outgoing_bytes: c.outgoing_bytes as int,
        }
    }

    /// One flow of `byte_len` bytes in the given direction.
    pub open spec fn of_flow(direction: TrafficDirection, byte_len: u64) -> FlowTotals {
        match direction {
            TrafficDirection::Incoming => FlowTotals {
                incoming_packets: 1,
                outgoing_packets: 0,
                incoming_bytes: byte_len as int,
                outgoing_bytes: 0,
            },
            TrafficDirection::Outgoing => FlowTotals {
                incoming_packets: 0,
                outgoing_packets: 1,
                incoming_bytes: 0,
                outgoing_bytes: byte_len as int,
            },
        }
    }
}

/// Owner of the live counters between the capture path and the evaluator.
///
/// Flows that passed the filter predicate are recorded with [`Self::accept`];
/// once per tick the evaluator takes the accumulated totals with
/// [`Self::drain_and_reset`]. Ghost accounting keeps three lifetime sums —
/// accepted, drained, and lost to counter saturation — whose balance is the
/// aggregator's invariant: nothing recorded is ever lost or counted twice
/// across a drain boundary.
pub struct CounterAggregator {
    current: RuntimeCounters,
    accepted: Ghost<FlowTotals>,
    drained: Ghost<FlowTotals>,
    lost: Ghost<FlowTotals>,
}

impl CounterAggregator {
    /// The counters accumulated since the last drain.
    pub closed spec fn pending(self) -> RuntimeCounters {
        self.current
    }

    /// Lifetime totals of every flow ever accepted.
    pub closed spec fn accepted_totals(self) -> FlowTotals {
        self.accepted@
    }

    /// Lifetime sums of all counter records ever returned by a drain.
    pub closed spec fn drained_totals(self) -> FlowTotals {
        self.drained@
    }

    /// Lifetime amounts dropped because a machine counter saturated.
    pub closed spec fn lost_totals(self) -> FlowTotals {
        self.lost@
    }

    /// Invariant: everything accepted is either already drained, still
    /// pending, or was dropped by saturation — and nothing else was.
    pub open spec fn wf(self) -> bool {
        &&& self.accepted_totals() == self.drained_totals().plus(
            FlowTotals::of_counters(self.pending()),
        ).plus(self.lost_totals())
        &&& self.lost_totals().incoming_packets >= 0
        &&& self.lost_totals().outgoing_packets >= 0
        &&& self.lost_totals().incoming_bytes >= 0
        &&& self.lost_totals().outgoing_bytes >= 0
    }

    /// A fresh aggregator with nothing accepted yet.
    pub fn new() -> (r: Self)
        ensures
            r.wf(),
            r.pending() == RuntimeCounters::zero(),
            r.accepted_totals() == FlowTotals::zero(),
            r.drained_totals() == FlowTotals::zero(),
            r.lost_totals() == FlowTotals::zero(),
    {
        CounterAggregator {
            current: RuntimeCounters::zero(),
            accepted: Ghost(FlowTotals::zero()),
            drained: Ghost(FlowTotals::zero()),
            lost: Ghost(FlowTotals::zero()),
        }
    }

    /// Records one flow that already passed the filter predicate: one packet
    /// and `byte_len` bytes on the side named by the flow's direction. The
    /// machine counters saturate instead of wrapping; the ghost accepted
    /// total always grows by the full amount, and whatever saturation
    /// swallowed is booked as lost.
    pub fn accept(&mut self, flow: &Flow, byte_len: u64)
        requires
            old(self).wf(),
        ensures
            final(self).wf(),
            final(self).accepted_totals() == old(self).accepted_totals().plus(
                FlowTotals::of_flow(flow.direction, byte_len),
            ),
            final(self).drained_totals() == old(self).drained_totals(),
            flow.direction == TrafficDirection::Incoming ==> final(self).pending()
                == (RuntimeCounters {
                incoming_packets: old(self).pending().incoming_packets.saturating_add(1),
                incoming_bytes: old(self).pending().incoming_bytes.saturating_add(byte_len),
                ..old(self).pending()
            }),
            flow.direction == TrafficDirection::Outgoing ==> final(self).pending()
                == (RuntimeCounters {
                outgoing_packets: old(self).pending().outgoing_packets.saturating_add(1),
                outgoing_bytes: old(self).pending().outgoing_bytes.saturating_add(byte_len),
                ..old(self).pending()
            }),
            // As long as no machine counter saturates, nothing is lost.
            old(self).pending().incoming_packets < u32::MAX && old(self).pending().outgoing_packets
                < u32::MAX && old(self).pending().incoming_bytes + byte_len <= u64::MAX && old(
                self,
            ).pending().outgoing_bytes + byte_len <= u64::MAX ==> final(self).lost_totals() == old(
                self,
            ).lost_totals(),
    {
        let ghost prior = FlowTotals::of_counters(self.current);
        match flow.direction {
            TrafficDirection::Incoming => {
                self.current.incoming_packets = self.current.incoming_packets.saturating_add(1);
                self.current.incoming_bytes = self.current.incoming_bytes.saturating_add(byte_len);
            },
            TrafficDirection::Outgoing => {
                self.current.outgoing_packets = self.current.outgoing_packets.saturating_add(1);
                self.current.outgoing_bytes = self.current.outgoing_bytes.saturating_add(byte_len);
            },
        }
        proof {
            let offered = FlowTotals::of_flow(flow.direction, byte_len);
            let recorded = FlowTotals {
                incoming_packets: self.current.incoming_packets - prior.incoming_packets,
                outgoing_packets: self.current.outgoing_packets - prior.outgoing_packets,
                incoming_bytes: self.current.incoming_bytes - prior.incoming_bytes,
                outgoing_bytes: self.current.outgoing_bytes - prior.outgoing_bytes,
            };
            self.accepted@ = self.accepted@.plus(offered);
            self.lost@ = self.lost@.plus(
                FlowTotals {
                    incoming_packets: offered.incoming_packets - recorded.incoming_packets,
                    outgoing_packets: offered.outgoing_packets - recorded.outgoing_packets,
                    incoming_bytes: offered.incoming_bytes - recorded.incoming_bytes,
                    outgoing_bytes: offered.outgoing_bytes - recorded.outgoing_bytes,
                },
            );
        }
    }

    /// Hands the current tick's totals to the evaluator and resets all four
    /// counters to zero. No flow recorded before the drain stays pending, and
    /// none is carried into the next tick: the returned record accounts for
    /// exactly the flows accepted since the previous drain.
    pub fn drain_and_reset(&mut self) -> (r: RuntimeCounters)
        requires
            old(self).wf(),
        ensures
            final(self).wf(),
            r == old(self).pending(),
            final(self).pending() == RuntimeCounters::zero(),
            final(self).accepted_totals() == old(self).accepted_totals(),
            final(self).lost_totals() == old(self).lost_totals(),
            final(self).drained_totals() == old(self).drained_totals().plus(
                FlowTotals::of_counters(r),
            ),
    {
        let drained = self.current;
        self.current = RuntimeCounters::zero();
        proof {
            self.drained@ = self.drained@.plus(FlowTotals::of_counters(drained));
        }
        drained
    }
}

/// Law: across any number of interleaved `accept` and `drain_and_reset`
/// calls, no flow is lost and none is counted twice — unless a machine
/// counter saturated, the sum of all drained counters plus the still-pending
/// counters equals the total of everything accepted.
pub proof fn lemma_drains_account_for_every_accept(a: CounterAggregator)
    requires
        a.wf(),
        a.lost_totals() == FlowTotals::zero(),
    ensures
        a.accepted_totals() == a.drained_totals().plus(FlowTotals::of_counters(a.pending())),
{
}

} // verus!
