use sniffnet::counters::RuntimeCounters;
use sniffnet::filters::TrafficDirection;
use sniffnet::monitor::{evaluate_favorites, evaluate_thresholds};
use sniffnet::notifications::{
    BytesNotification, DataInfoHost, FavoriteHostEvent, FavoriteNotification, Host,
    LoggedNotification, NotificationSettings, PacketsNotification,
};

fn settings(
    packets: Option<u32>,
    bytes: Option<u64>,
    notify_on_favorite: bool,
) -> NotificationSettings {
    NotificationSettings {
        packets: PacketsNotification { threshold: packets },
        bytes: BytesNotification { threshold: bytes },
        favorite: FavoriteNotification { notify_on_favorite },
    }
}

fn counters(
    incoming_packets: u32,
    outgoing_packets: u32,
    incoming_bytes: u64,
    outgoing_bytes: u64,
) -> RuntimeCounters {
    RuntimeCounters {
        incoming_packets,
        outgoing_packets,
        incoming_bytes,
        outgoing_bytes,
    }
}

fn host(domain: &str) -> Host {
    Host {
        domain: domain.to_string(),
        country: "IT".to_string(),
        asn: "AS1".to_string(),
    }
}

fn favorite_event(domain: &str, is_local: bool) -> FavoriteHostEvent {
    FavoriteHostEvent {
        host: host(domain),
        data_info: DataInfoHost {
            is_local,
            traffic_type: TrafficDirection::Incoming,
        },
    }
}

#[test]
fn packets_threshold_crossing_emits_exactly_one_event() {
    let s = settings(Some(100), None, false);
    let now = "12:34:56".to_string();
    let r = evaluate_thresholds(&counters(60, 41, 0, 0), &s, &now);
    assert_eq!(r.len(), 1);
    match &r[0] {
        LoggedNotification::PacketsThresholdExceeded(pe) => {
            assert_eq!(pe.threshold, 100);
            assert_eq!(pe.incoming, 60);
            assert_eq!(pe.outgoing, 41);
            assert_eq!(pe.timestamp, "12:34:56");
        }
        _ => panic!("expected a packets threshold event"),
    }
}

#[test]
fn packets_sum_equal_to_threshold_is_not_a_crossing() {
    let s = settings(Some(100), None, false);
    let now = "12:34:56".to_string();
    let r = evaluate_thresholds(&counters(50, 50, 0, 0), &s, &now);
    assert!(r.is_empty());
}

#[test]
fn bytes_threshold_crossing_emits_exactly_one_event() {
    let s = settings(None, Some(1_000_000), false);
    let now = "00:00:01".to_string();
    let r = evaluate_thresholds(&counters(10, 10, 900_000, 200_000), &s, &now);
    assert_eq!(r.len(), 1);
    match &r[0] {
        LoggedNotification::BytesThresholdExceeded(be) => {
            assert_eq!(be.threshold, 1_000_000);
            assert_eq!(be.incoming, 900_000);
            assert_eq!(be.outgoing, 200_000);
            assert_eq!(be.timestamp, "00:00:01");
        }
        _ => panic!("expected a bytes threshold event"),
    }
}

#[test]
fn both_thresholds_may_fire_in_the_same_tick() {
    let s = settings(Some(10), Some(1000), false);
    let now = "09:00:00".to_string();
    let r = evaluate_thresholds(&counters(7, 8, 600, 500), &s, &now);
    assert_eq!(r.len(), 2);
    assert!(matches!(&r[0], LoggedNotification::PacketsThresholdExceeded(_)));
    assert!(matches!(&r[1], LoggedNotification::BytesThresholdExceeded(_)));
}

#[test]
fn saturated_counters_still_cross_a_maximal_threshold() {
    let s = settings(Some(u32::MAX), Some(u64::MAX), false);
    let now = "23:59:59".to_string();
    let r = evaluate_thresholds(&counters(u32::MAX, 1, u64::MAX, 1), &s, &now);
    assert_eq!(r.len(), 2);
}

#[test]
fn disabled_thresholds_emit_nothing_across_many_samples() {
    let s = settings(None, None, false);
    let now = "10:00:00".to_string();
    let mut state: u64 = 0x2545F4914F6CDD1D;
    for _ in 0..10_000 {
        state = state.wrapping_mul(6364136223846793005).wrapping_add(1442695040888963407);
        let incoming_packets = (state >> 32) as u32;
        state = state.wrapping_mul(6364136223846793005).wrapping_add(1442695040888963407);
        let outgoing_packets = (state >> 32) as u32;
        state = state.wrapping_mul(6364136223846793005).wrapping_add(1442695040888963407);
        let incoming_bytes = state;
        state = state.wrapping_mul(6364136223846793005).wrapping_add(1442695040888963407);
        let outgoing_bytes = state;
        let c = counters(incoming_packets, outgoing_packets, incoming_bytes, outgoing_bytes);
        assert!(evaluate_thresholds(&c, &s, &now).is_empty());
    }
}

#[test]
fn favorites_switched_off_emit_nothing() {
    let s = settings(None, None, false);
    let now = "11:11:11".to_string();
    let events = vec![favorite_event("a.example", false), favorite_event("b.example", true)];
    let r = evaluate_favorites(&events, &s, &now);
    assert!(r.is_empty());
}

#[test]
fn repeated_traffic_from_one_host_coalesces() {
    let s = settings(None, None, true);
    let now = "11:11:11".to_string();
    let events = vec![
        favorite_event("a.example", true),
        favorite_event("b.example", false),
        favorite_event("a.example", false),
        favorite_event("a.example", false),
        favorite_event("b.example", false),
    ];
    let r = evaluate_favorites(&events, &s, &now);
    assert_eq!(r.len(), 2);
    match &r[0] {
        LoggedNotification::FavoriteTransmitted(ft) => {
            assert_eq!(ft.host.domain, "a.example");
            // the first-seen attributes are the ones kept
            assert!(ft.data_info_host.is_local);
            assert_eq!(ft.timestamp, "11:11:11");
        }
        _ => panic!("expected a favorite transmission event"),
    }
    match &r[1] {
        LoggedNotification::FavoriteTransmitted(ft) => {
            assert_eq!(ft.host.domain, "b.example");
            assert!(!ft.data_info_host.is_local);
        }
        _ => panic!("expected a favorite transmission event"),
    }
}

#[test]
fn distinct_hosts_each_get_one_event() {
    let s = settings(None, None, true);
    let now = "08:30:00".to_string();
    let events = vec![
        favorite_event("a.example", false),
        favorite_event("b.example", false),
        favorite_event("c.example", false),
    ];
    let r = evaluate_favorites(&events, &s, &now);
    assert_eq!(r.len(), 3);
}
