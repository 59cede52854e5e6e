//! Tick evaluation: the threshold monitor that compares one tick's counters
//! against the configured thresholds, and the favorite-transmission detector
//! that coalesces favorite-host activity into one event per host.

use crate::counters::RuntimeCounters;
use crate::notifications::{
    BytesThresholdExceeded, FavoriteHostEvent, FavoriteTransmitted, Host, LoggedNotification,
    NotificationSettings, PacketsThresholdExceeded,
};
use vstd::prelude::*;

verus! {

/// Whether the packets counted in one tick exceed the configured threshold.
/// A disabled threshold (`None`) is never exceeded.
pub open spec fn packets_exceeded(c: RuntimeCounters, s: NotificationSettings) -> bool {
    match s.packets.threshold {
        Some(t) => c.incoming_packets + c.outgoing_packets > t,
        None => false,
    }
}

/// Whether the bytes counted in one tick exceed the configured threshold.
/// A disabled threshold (`None`) is never exceeded.
pub open spec fn bytes_exceeded(c: RuntimeCounters, s: NotificationSettings) -> bool {
    match s.bytes.threshold {
        Some(t) => c.incoming_bytes + c.outgoing_bytes > t,
        None => false,
    }
}

/// Whether `e` is the packets notification that counters `c`, settings `s`
/// and timestamp `now` call for.
pub open spec fn is_packets_event(
    e: LoggedNotification,
    c: RuntimeCounters,
    s: NotificationSettings,
    now: Seq<char>,
) -> bool {
    &&& e matches LoggedNotification::PacketsThresholdExceeded(pe)
    &&& s.packets.threshold == Some(pe.threshold)
    &&& pe.incoming == c.incoming_packets
    &&& pe.outgoing == c.outgoing_packets
    &&& pe.timestamp@ == now
}

/// Whether `e` is the bytes notification that counters `c`, settings `s` and
/// timestamp `now` call for.
pub open spec fn is_bytes_event(
    e: LoggedNotification,
    c: RuntimeCounters,
    s: NotificationSettings,
    now: Seq<char>,
) -> bool {
    &&& e matches LoggedNotification::BytesThresholdExceeded(be)
    &&& s.bytes.threshold == Some(be.threshold)
    &&& be.incoming == c.incoming_bytes
    &&& be.outgoing == c.outgoing_bytes
    &&& be.timestamp@ == now
}

/// Compares one tick's counters against the configured thresholds and emits
/// at most one notification per kind: a level-crossing detector, not a rate
/// integrator. The two checks are independent; both, one, or neither may
/// fire. Sums that exceed the machine word are compared exactly, in a wider
/// type, so saturated counters never mask a crossing.
pub fn evaluate_thresholds(
    counters: &RuntimeCounters,
    settings: &NotificationSettings,
    now: &String,
) -> (r: Vec<LoggedNotification>)
    ensures
        r@.len() == (if packets_exceeded(*counters, *settings) {
            1int
        } else {
            0int
        }) + (if bytes_exceeded(*counters, *settings) {
            1int
        } else {
            0int
        }),
        packets_exceeded(*counters, *settings) ==> is_packets_event(
            r@[0],
            *counters,
            *settings,
            now@,
        ),
        bytes_exceeded(*counters, *settings) ==> is_bytes_event(
            r@[r@.len() - 1],
            *counters,
            *settings,
            now@,
        ),
{
    let mut out: Vec<LoggedNotification> = Vec::new();
    match settings.packets.threshold {
        Some(t) => {
            let total: u64 = counters.incoming_packets as u64 + counters.outgoing_packets as u64;
            if total > t as u64 {
                out.push(
                    LoggedNotification::PacketsThresholdExceeded(
                        PacketsThresholdExceeded {
                            threshold: t,
                            incoming: counters.incoming_packets,
                            outgoing: counters.outgoing_packets,
                            timestamp: now.clone(),
                        },
                    ),
                );
            }
        },
        None => {},
    }
    match settings.bytes.threshold {
        Some(t) => {
            let total: u128 = counters.incoming_bytes as u128 + counters.outgoing_bytes as u128;
            if total > t as u128 {
                out.push(
                    LoggedNotification::BytesThresholdExceeded(
                        BytesThresholdExceeded {
                            threshold: t,
                            incoming: counters.incoming_bytes,
                            outgoing: counters.outgoing_bytes,
                            timestamp: now.clone(),
                        },
                    ),
                );
            }
        },
        None => {},
    }
    out
}

/// Law: a disabled threshold never fires, whatever the counters hold; with
/// both thresholds disabled the monitor emits no event at all.
pub proof fn lemma_disabled_threshold_never_fires(c: RuntimeCounters, s: NotificationSettings)
    ensures
        s.packets.threshold is None ==> !packets_exceeded(c, s),
        s.bytes.threshold is None ==> !bytes_exceeded(c, s),
{
}

/// Whether some event in `s` names the same host as `h`.
pub open spec fn has_host(s: Seq<FavoriteHostEvent>, h: Host) -> bool {
    exists|j: int| 0 <= j < s.len() && s[j].host.key() == h.key()
}

/// The favorite-host events with repeated hosts dropped: of every host the
/// first event stays, in its original position relative to the others.
pub open spec fn coalesced(s: Seq<FavoriteHostEvent>) -> Seq<FavoriteHostEvent>
    decreases s.len(),
{
    if s.len() == 0 {
        Seq::empty()
    } else if has_host(s.drop_last(), s.last().host) {
        coalesced(s.drop_last())
    } else {
        coalesced(s.drop_last()).push(s.last())
    }
}

/// Coalescing keeps exactly the hosts of the original sequence.
pub proof fn lemma_coalesced_has_same_hosts(s: Seq<FavoriteHostEvent>, h: Host)
    ensures
        has_host(coalesced(s), h) <==> has_host(s, h),
    decreases s.len(),
{
    if s.len() > 0 {
        let prefix = s.drop_last();
        lemma_coalesced_has_same_hosts(prefix, h);
        assert(forall|j: int| 0 <= j < prefix.len() ==> s[j] == prefix[j]);
        if has_host(prefix, h) {
            let j = choose|j: int| 0 <= j < prefix.len() && prefix[j].host.key() == h.key();
            assert(s[j].host.key() == h.key());
            assert(has_host(s, h));
        }
        if has_host(prefix, s.last().host) {
            if has_host(s, h) {
                let j = choose|j: int| 0 <= j < s.len() && s[j].host.key() == h.key();
                if j == s.len() - 1 {
                    let k = choose|k: int|
                        0 <= k < prefix.len() && prefix[k].host.key() == s.last().host.key();
                    assert(prefix[k].host.key() == h.key());
                } else {
                    assert(prefix[j].host.key() == h.key());
                }
                assert(has_host(prefix, h));
            }
        } else {
            let c = coalesced(prefix);
            assert(coalesced(s) == c.push(s.last()));
            if has_host(s, h) {
                let j = choose|j: int| 0 <= j < s.len() && s[j].host.key() == h.key();
                if j == s.len() - 1 {
                    assert(c.push(s.last())[c.len() as int].host.key() == h.key());
                } else {
                    assert(prefix[j].host.key() == h.key());
                    assert(has_host(prefix, h));
                    let k = choose|k: int| 0 <= k < c.len() && c[k].host.key() == h.key();
                    assert(c.push(s.last())[k].host.key() == h.key());
                }
                assert(has_host(coalesced(s), h));
            }
            if has_host(coalesced(s), h) {
                let j = choose|j: int|
                    0 <= j < coalesced(s).len() && coalesced(s)[j].host.key() == h.key();
                if j == c.len() as int {
                    assert(s[s.len() - 1].host.key() == h.key());
                } else {
                    assert(c[j].host.key() == h.key());
                    assert(has_host(prefix, h));
                    let k = choose|k: int|
                        0 <= k < prefix.len() && prefix[k].host.key() == h.key();
                    assert(s[k].host.key() == h.key());
                }
                assert(has_host(s, h));
            }
        }
    }
}

/// Coalescing never repeats a host.
pub proof fn lemma_coalesced_hosts_distinct(s: Seq<FavoriteHostEvent>)
    ensures
        forall|j: int, k: int|
            0 <= j < k < coalesced(s).len() ==> coalesced(s)[j].host.key()
                != coalesced(s)[k].host.key(),
    decreases s.len(),
{
    if s.len() > 0 {
        let prefix = s.drop_last();
        lemma_coalesced_hosts_distinct(prefix);
        if !has_host(prefix, s.last().host) {
            let c = coalesced(prefix).push(s.last());
            assert(coalesced(s) == c);
            assert forall|j: int, k: int| 0 <= j < k < c.len() implies c[j].host.key()
                != c[k].host.key() by {
                if k == c.len() - 1 {
                    assert(c[j] == coalesced(prefix)[j]);
                    lemma_coalesced_has_same_hosts(prefix, s.last().host);
                    assert(!has_host(coalesced(prefix), s.last().host));
                }
            }
        }
    }
}

/// Whether `e` is the favorite notification that the favorite-host event
/// `ev` and timestamp `now` call for.
pub open spec fn is_favorite_event(
    e: LoggedNotification,
    ev: FavoriteHostEvent,
    now: Seq<char>,
) -> bool {
    &&& e matches LoggedNotification::FavoriteTransmitted(ft)
    &&& ft.host.key() == ev.host.key()
    &&& ft.data_info_host == ev.data_info
    &&& ft.timestamp@ == now
}

/// Whether `r` holds, in order, exactly one favorite notification for each
/// event of `c`, all stamped `now`.
pub open spec fn favorite_events_match(
    r: Seq<LoggedNotification>,
    c: Seq<FavoriteHostEvent>,
    now: Seq<char>,
) -> bool {
    &&& r.len() == c.len()
    &&& forall|k: int| 0 <= k < r.len() ==> is_favorite_event(r[k], c[k], now)
}

/// Whether some host in `seen` is the same as `h`.
spec fn seen_has_host(seen: Seq<Host>, h: Host) -> bool {
    exists|k: int| 0 <= k < seen.len() && seen[k].key() == h.key()
}

/// Linear scan for a host among those already handled.
fn host_seen(seen: &Vec<Host>, h: &Host) -> (r: bool)
    ensures
        r == seen_has_host(seen@, *h),
{
    let mut k: usize = 0;
    while k < seen.len()
        invariant
            k <= seen@.len(),
            forall|j: int| 0 <= j < k ==> seen@[j].key() != h.key(),
        decreases seen@.len() - k,
    {
        if seen[k].same_identity(h) {
            return true;
        }
        k += 1;
    }
    false
}

/// Turns the tick's favorite-host events into notifications: none at all if
/// favorite notifications are switched off, and otherwise exactly one
/// `FavoriteTransmitted` per distinct host observed transmitting — repeated
/// traffic from the same host within one tick coalesces into a single event,
/// which carries the host's first-seen attributes.
pub fn evaluate_favorites(
    events: &Vec<FavoriteHostEvent>,
    settings: &NotificationSettings,
    now: &String,
) -> (r: Vec<LoggedNotification>)
    ensures
        !settings.favorite.notify_on_favorite ==> r@.len() == 0,
        settings.favorite.notify_on_favorite ==> favorite_events_match(
            r@,
            coalesced(events@),
            now@,
        ),
{
    let mut out: Vec<LoggedNotification> = Vec::new();
    if !settings.favorite.notify_on_favorite {
        return out;
    }
    let mut seen: Vec<Host> = Vec::new();
    let mut i: usize = 0;
    while i < events.len()
        invariant
            i <= events@.len(),
            favorite_events_match(out@, coalesced(events@.take(i as int)), now@),
            seen@.len() == coalesced(events@.take(i as int)).len(),
            forall|k: int| 0 <= k < seen@.len() ==> seen@[k].key() == coalesced(
                events@.take(i as int),
            )[k].host.key(),
        decreases events@.len() - i,
    {
        let e = &events[i];
        let ghost prefix = events@.take(i as int);
        let ghost extended = events@.take(i as int + 1);
        proof {
            assert(extended.drop_last() =~= prefix);
            assert(extended.last() == events@[i as int]);
        }
        let already = host_seen(&seen, &e.host);
        proof {
            if already {
                let k = choose|k: int| 0 <= k < seen@.len() && seen@[k].key() == e.host.key();
                assert(coalesced(prefix)[k].host.key() == e.host.key());
                lemma_coalesced_has_same_hosts(prefix, e.host);
            } else {
                if has_host(prefix, e.host) {
                    lemma_coalesced_has_same_hosts(prefix, e.host);
                    let k = choose|k: int|
                        0 <= k < coalesced(prefix).len() && coalesced(prefix)[k].host.key()
                            == e.host.key();
                    assert(seen@[k].key() == e.host.key());
                }
            }
            assert(already == has_host(prefix, e.host));
        }
        if !already {
            out.push(
                LoggedNotification::FavoriteTransmitted(
                    FavoriteTransmitted {
                        host: e.host.duplicate(),
                        data_info_host: e.data_info,
                        timestamp: now.clone(),
                    },
                ),
            );
            seen.push(e.host.duplicate());
            proof {
                assert(coalesced(extended) == coalesced(prefix).push(events@[i as int]));
            }
        }
        i += 1;
    }
    proof {
        assert(events@.take(events@.len() as int) =~= events@);
    }
    out
}

/// Law: with favorite notifications switched off, the detector emits nothing
/// whatever activity the tick saw; switched on, it emits exactly one event
/// per distinct favorite host observed, never two for the same host.
pub proof fn lemma_favorites_one_event_per_host(events: Seq<FavoriteHostEvent>)
    ensures
        forall|j: int, k: int|
            0 <= j < k < coalesced(events).len() ==> coalesced(events)[j].host.key() != coalesced(
                events,
            )[k].host.key(),
        forall|h: Host| has_host(events, h) <==> has_host(coalesced(events), h),
{
    lemma_coalesced_hosts_distinct(events);
    assert forall|h: Host| has_host(events, h) <==> has_host(coalesced(events), h) by {
        lemma_coalesced_has_same_hosts(events, h);
    }
}

} // verus!
