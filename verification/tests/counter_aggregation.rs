use sniffnet::counters::{CounterAggregator, RuntimeCounters};
use sniffnet::filters::{Flow, IpVersion, TrafficDirection, TransProtocol};

fn flow(direction: TrafficDirection) -> Flow {
    Flow {
        ip_version: IpVersion::IPv4,
        transport: TransProtocol::TCP,
        port: 443,
        direction,
    }
}

#[test]
fn accept_accumulates_per_direction() {
    let mut agg = CounterAggregator::new();
    agg.accept(&flow(TrafficDirection::Incoming), 1500);
    agg.accept(&flow(TrafficDirection::Incoming), 500);
    agg.accept(&flow(TrafficDirection::Outgoing), 40);
    let c = agg.drain_and_reset();
    assert_eq!(c.incoming_packets, 2);
    assert_eq!(c.outgoing_packets, 1);
    assert_eq!(c.incoming_bytes, 2000);
    assert_eq!(c.outgoing_bytes, 40);
}

#[test]
fn drain_resets_all_four_counters() {
    let mut agg = CounterAggregator::new();
    agg.accept(&flow(TrafficDirection::Incoming), 100);
    agg.accept(&flow(TrafficDirection::Outgoing), 200);
    let _ = agg.drain_and_reset();
    let c = agg.drain_and_reset();
    assert_eq!(c, RuntimeCounters { incoming_packets: 0, outgoing_packets: 0, incoming_bytes: 0, outgoing_bytes: 0 });
}

#[test]
fn drains_account_for_every_accepted_flow() {
    // accepts interleaved with drains: the drained sums must add up to the
    // exact totals offered, with nothing lost at a drain boundary and
    // nothing counted twice
    let mut agg = CounterAggregator::new();
    let mut drained_incoming_packets: u64 = 0;
    let mut drained_outgoing_packets: u64 = 0;
    let mut drained_incoming_bytes: u64 = 0;
    let mut drained_outgoing_bytes: u64 = 0;
    let mut offered_incoming_packets: u64 = 0;
    let mut offered_outgoing_packets: u64 = 0;
    let mut offered_incoming_bytes: u64 = 0;
    let mut offered_outgoing_bytes: u64 = 0;
    let mut state: u64 = 0x9E3779B97F4A7C15;
    for round in 0..50 {
        for _ in 0..(round % 7) + 1 {
            state = state.wrapping_mul(6364136223846793005).wrapping_add(1442695040888963407);
            let bytes = state % 10_000;
            if state % 2 == 0 {
                agg.accept(&flow(TrafficDirection::Incoming), bytes);
                offered_incoming_packets += 1;
                offered_incoming_bytes += bytes;
            } else {
                agg.accept(&flow(TrafficDirection::Outgoing), bytes);
                offered_outgoing_packets += 1;
                offered_outgoing_bytes += bytes;
            }
        }
        let c = agg.drain_and_reset();
        drained_incoming_packets += u64::from(c.incoming_packets);
        drained_outgoing_packets += u64::from(c.outgoing_packets);
        drained_incoming_bytes += c.incoming_bytes;
        drained_outgoing_bytes += c.outgoing_bytes;
    }
    let c = agg.drain_and_reset();
    drained_incoming_packets += u64::from(c.incoming_packets);
    drained_outgoing_packets += u64::from(c.outgoing_packets);
    drained_incoming_bytes += c.incoming_bytes;
    drained_outgoing_bytes += c.outgoing_bytes;
    assert_eq!(drained_incoming_packets, offered_incoming_packets);
    assert_eq!(drained_outgoing_packets, offered_outgoing_packets);
    assert_eq!(drained_incoming_bytes, offered_incoming_bytes);
    assert_eq!(drained_outgoing_bytes, offered_outgoing_bytes);
}

#[test]
fn counters_saturate_instead_of_wrapping() {
    let mut agg = CounterAggregator::new();
    agg.accept(&flow(TrafficDirection::Incoming), u64::MAX);
    agg.accept(&flow(TrafficDirection::Incoming), u64::MAX);
    let c = agg.drain_and_reset();
    assert_eq!(c.incoming_packets, 2);
    assert_eq!(c.incoming_bytes, u64::MAX);
}
