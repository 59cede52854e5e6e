//! Filters applicable to network traffic, and the predicate deciding whether
//! an observed flow passes them.

use crate::translations::{
    interval_label, interval_translation, single_label, single_translation, well_known_label,
    well_known_translation, Language,
};
use std::collections::HashSet;
use vstd::prelude::*;

verus! {

broadcast use vstd::std_specs::hash::group_hash_axioms;

/// Internet Protocol version of a flow, or the version a filter demands
/// (`Any` leaves the field unconstrained).
#[derive(Clone, Copy, Debug, PartialEq, Eq, Structural)]
pub enum IpVersion {
    IPv4,
    IPv6,
    Any,
}

/// Transport layer protocol of a flow, or the protocol a filter demands
/// (`Any` leaves the field unconstrained).
#[derive(Clone, Copy, Debug, PartialEq, Eq, Structural)]
pub enum TransProtocol {
    TCP,
    UDP,
    Any,
}

/// Direction of an observed flow, as reported by the capture collaborator.
#[derive(Clone, Copy, Debug, PartialEq, Eq, Structural)]
pub enum TrafficDirection {
    Incoming,
    Outgoing,
}

/// A single observed transmission unit: what the capture collaborator hands
/// to the engine for classification.
#[derive(Clone, Copy, Debug)]
pub struct Flow {
    /// Internet Protocol version of the observed packet
    pub ip_version: IpVersion,
    /// Transport layer protocol of the observed packet
    pub transport: TransProtocol,
    /// Destination port of the observed packet
    pub port: u16,
    /// Whether the packet was received or sent by the monitored machine
    pub direction: TrafficDirection,
}

/// Enum representing the possible kinds of port filter.
///
/// Exactly one variant is active at a time; switching variants discards the
/// previous variant's parameters.
#[derive(Debug)]
pub enum PortFilter {
    /// Matches any port `p` with `low <= p <= high` (`[low, high]`, both ends
    /// inclusive). `low > high` is representable and matches nothing.
    Interval([u16; 2]),
    /// Matches exactly one port.
    Single(u16),
    /// Matches any port that is a member of the given set.
    WellKnown(HashSet<u16>),
}

/// Possible filters applicable to network traffic
#[derive(Debug)]
pub struct Filters {
    /// Internet Protocol version
    pub ip: IpVersion,
    /// Transport layer protocol
    pub transport: TransProtocol,
    /// Transport ports
    pub ports: PortFilter,
}

impl PortFilter {
    /// The label that names this filter kind in a pick list.
    pub open spec fn label(self, language: Language) -> Seq<char> {
        match self {
            PortFilter::Interval(_) => interval_label(language),
            PortFilter::Single(_) => single_label(language),
            PortFilter::WellKnown(_) => well_known_label(language),
        }
    }

    /// The labels of all filter kinds, in the order the pick list shows them.
    pub fn all_strings(language: Language) -> (r: Vec<&'static str>)
        ensures
            r@.len() == 3,
            r@[0]@ == interval_label(language),
            r@[1]@ == single_label(language),
            r@[2]@ == well_known_label(language),
    {
        let mut r: Vec<&'static str> = Vec::new();
        r.push(interval_translation(language));
        r.push(single_translation(language));
        r.push(well_known_translation(language));
        r
    }

    /// The pick-list label of this filter's kind.
    pub fn get_picklist_label(self, language: Language) -> (r: &'static str)
        ensures
            r@ == self.label(language),
    {
        match self {
            PortFilter::Interval(_) => interval_translation(language),
            PortFilter::Single(_) => single_translation(language),
            PortFilter::WellKnown(_) => well_known_translation(language),
        }
    }
}

/// Whether a port filter admits the given port.
pub open spec fn port_admitted(ports: PortFilter, port: u16) -> bool {
    match ports {
        PortFilter::Interval(bounds) => bounds[0] <= port && port <= bounds[1],
        PortFilter::Single(p) => port == p,
        PortFilter::WellKnown(set) => set@.contains(port),
    }
}

/// Whether a flow passes all three filter fields. The three checks are
/// conjunctive; a flow failing any one of them is rejected.
pub open spec fn spec_matches(flow: Flow, filters: Filters) -> bool {
    &&& (filters.ip == IpVersion::Any || flow.ip_version == filters.ip)
    &&& (filters.transport == TransProtocol::Any || flow.transport == filters.transport)
    &&& port_admitted(filters.ports, flow.port)
}

/// Decides whether an observed flow passes the given filters.
///
/// Pure and side-effect-free, so the UI may call it speculatively (for
/// instance on every keystroke of a port input) without affecting any state.
pub fn matches(flow: &Flow, filters: &Filters) -> (r: bool)
    ensures
        r == spec_matches(*flow, *filters),
{
    let ip_ok = filters.ip == IpVersion::Any || flow.ip_version == filters.ip;
    let transport_ok = filters.transport == TransProtocol::Any
        || flow.transport == filters.transport;
    let port_ok = match &filters.ports {
        PortFilter::Interval(bounds) => bounds[0] <= flow.port && flow.port <= bounds[1],
        PortFilter::Single(p) => flow.port == *p,
        PortFilter::WellKnown(set) => set.contains(&flow.port),
    };
    ip_ok && transport_ok && port_ok
}

impl Default for Filters {
    /// The default filters constrain nothing: any IP version, any transport
    /// protocol, and the full port range.
    fn default() -> (r: Self)
        ensures
            r.ip == IpVersion::Any,
            r.transport == TransProtocol::Any,
            r.ports == (PortFilter::Interval([0u16, 65535u16])),
    {
        Self {
            ip: IpVersion::Any,
            transport: TransProtocol::Any,
            ports: PortFilter::Interval([0, 65535]),
        }
    }
}

/// Law: filters with every field unconstrained (`Any` IP version, `Any`
/// transport, ports `[0, 65535]`) accept every flow.
pub proof fn lemma_unconstrained_filters_accept_all(flow: Flow, filters: Filters)
    requires
        filters.ip == IpVersion::Any,
        filters.transport == TransProtocol::Any,
        filters.ports == (PortFilter::Interval([0u16, 65535u16])),
    ensures
        spec_matches(flow, filters),
{
}

/// Law: an interval with `low > high` is empty, so such a port filter rejects
/// every flow, whatever the other fields say.
pub proof fn lemma_empty_interval_rejects_all(flow: Flow, filters: Filters, low: u16, high: u16)
    requires
        low > high,
        filters.ports == (PortFilter::Interval([low, high])),
    ensures
        !spec_matches(flow, filters),
{
}

/// Law: with the IP and transport fields unconstrained, a `Single(p)` port
/// filter accepts a flow exactly when its port equals `p`; so across the full
/// port space exactly the one port `p` is accepted.
pub proof fn lemma_single_port_accepts_exactly_one(flow: Flow, filters: Filters, p: u16)
    requires
        filters.ip == IpVersion::Any,
        filters.transport == TransProtocol::Any,
        filters.ports == PortFilter::Single(p),
    ensures
        spec_matches(flow, filters) <==> flow.port == p,
{
}

/// Law: with the IP and transport fields unconstrained, a `WellKnown(s)` port
/// filter accepts a flow exactly when its port is a member of `s`; in
/// particular an empty set accepts no flow at all.
pub proof fn lemma_well_known_accepts_members(flow: Flow, filters: Filters, s: HashSet<u16>)
    requires
        filters.ip == IpVersion::Any,
        filters.transport == TransProtocol::Any,
        filters.ports == PortFilter::WellKnown(s),
    ensures
        spec_matches(flow, filters) <==> s@.contains(flow.port),
        s@ =~= Set::<u16>::empty() ==> !spec_matches(flow, filters),
{
}

} // verus!
