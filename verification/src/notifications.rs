//! Notification configuration and the notification events the engine emits.

use crate::filters::TrafficDirection;
use vstd::prelude::*;

verus! {

/// Setting for notifications on the number of packets seen in a tick.
/// `None` disables the check: no event is ever produced for it.
#[derive(Clone, Copy, Debug)]
pub struct PacketsNotification {
    /// Emit an event when the packets observed in one tick exceed this count
    pub threshold: Option<u32>,
}

/// Setting for notifications on the number of bytes seen in a tick.
/// `None` disables the check: no event is ever produced for it.
#[derive(Clone, Copy, Debug)]
pub struct BytesNotification {
    /// Emit an event when the bytes observed in one tick exceed this count
    pub threshold: Option<u64>,
}

/// Setting for notifications on transmissions of favorite hosts.
#[derive(Clone, Copy, Debug)]
pub struct FavoriteNotification {
    /// Emit an event whenever a favorite host is observed transmitting
    pub notify_on_favorite: bool,
}

/// One record of settings per notification kind. Replaced wholesale by the
/// configuration collaborator; never mutated field by field.
#[derive(Clone, Copy, Debug)]
pub struct NotificationSettings {
    /// Threshold on packets per tick
    pub packets: PacketsNotification,
    /// Threshold on bytes per tick
    pub bytes: BytesNotification,
    /// Favorite-host transmissions
    pub favorite: FavoriteNotification,
}

/// Identity of a remote host, as resolved by the capture collaborator.
/// Opaque to this engine beyond display and identity comparison.
#[derive(Debug)]
pub struct Host {
    /// Domain name of the host
    pub domain: String,
    /// Country of the host
    pub country: String,
    /// Name of the autonomous system the host belongs to
    pub asn: String,
}

impl Host {
    /// The identity of a host: the three fields it is displayed and
    /// distinguished by.
    pub open spec fn key(self) -> (Seq<char>, Seq<char>, Seq<char>) {
        (self.domain@, self.country@, self.asn@)
    }

    /// Whether two host records name the same host.
    pub fn same_identity(&self, other: &Host) -> (r: bool)
        ensures
            r == (self.key() == other.key()),
    {
        self.domain == other.domain && self.country == other.country && self.asn == other.asn
    }

    /// A copy of this host record, equal to the original.
    pub fn duplicate(&self) -> (r: Host)
        ensures
            r == *self,
    {
        Host {
            domain: self.domain.clone(),
            country: self.country.clone(),
            asn: self.asn.clone(),
        }
    }
}

/// Display attributes of the traffic a host exchanged, carried through to the
/// notification unchanged.
#[derive(Clone, Copy, Debug, PartialEq, Eq, Structural)]
pub struct DataInfoHost {
    /// Whether the host address is local to the monitored network
    pub is_local: bool,
    /// Prevailing direction of the traffic exchanged with the host
    pub traffic_type: TrafficDirection,
}

/// A transmission observed from a host marked favorite within one tick, as
/// delivered by the capture collaborator.
#[derive(Debug)]
pub struct FavoriteHostEvent {
    /// The favorite host observed transmitting
    pub host: Host,
    /// Display attributes of the observed traffic
    pub data_info: DataInfoHost,
}

/// Notification emitted when the packets observed in one tick exceeded the
/// configured threshold.
#[derive(Debug)]
pub struct PacketsThresholdExceeded {
    /// The configured threshold that was exceeded
    pub threshold: u32,
    /// Packets received during the tick
    pub incoming: u32,
    /// Packets sent during the tick
    pub outgoing: u32,
    /// Human-readable time of the tick that produced the event
    pub timestamp: String,
}

/// Notification emitted when the bytes observed in one tick exceeded the
/// configured threshold.
#[derive(Debug)]
pub struct BytesThresholdExceeded {
    /// The configured threshold that was exceeded
    pub threshold: u64,
    /// Bytes received during the tick
    pub incoming: u64,
    /// Bytes sent during the tick
    pub outgoing: u64,
    /// Human-readable time of the tick that produced the event
    pub timestamp: String,
}

/// Notification emitted when a favorite host was observed transmitting.
#[derive(Debug)]
pub struct FavoriteTransmitted {
    /// The favorite host that transmitted
    pub host: Host,
    /// Display attributes of the observed traffic
    pub data_info_host: DataInfoHost,
    /// Human-readable time of the tick that produced the event
    pub timestamp: String,
}

/// A notification event, created at tick evaluation, appended to the
/// notification log, and never mutated afterwards.
#[derive(Debug)]
pub enum LoggedNotification {
    /// The packets observed in one tick exceeded the configured threshold
    PacketsThresholdExceeded(PacketsThresholdExceeded),
    /// The bytes observed in one tick exceeded the configured threshold
    BytesThresholdExceeded(BytesThresholdExceeded),
    /// A favorite host was observed transmitting
    FavoriteTransmitted(FavoriteTransmitted),
}

} // verus!
