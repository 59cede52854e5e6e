//! Bounded, ordered store of emitted notification events, with an unread
//! counter and a lifetime total that both survive eviction and clearing.

use crate::notifications::LoggedNotification;
use vstd::prelude::*;

verus! {

/// Greatest number of notification events the log keeps; older events are
/// evicted first once the log would grow past it.
pub const LOG_CAPACITY: usize = 30;

/// Ordered sequence of notification events in insertion (= chronological)
/// order, capacity-bounded with oldest-first eviction.
///
/// `total_emitted` counts every append ever made and `unread_count` every
/// append since the last "mark all read"; neither is decremented by eviction
/// or by clearing, so UI badges stay meaningful after the visible list is
/// emptied.
#[derive(Debug)]
pub struct NotificationLog {
    events: Vec<LoggedNotification>,
    unread_count: u64,
    total_emitted: u64,
}

impl NotificationLog {
    /// The stored events, oldest first.
    pub closed spec fn entries(self) -> Seq<LoggedNotification> {
        self.events@
    }

    /// How many events were appended since the last `mark_all_read`.
    pub closed spec fn unread(self) -> u64 {
        self.unread_count
    }

    /// How many events were ever appended, evicted or cleared ones included.
    pub closed spec fn lifetime_total(self) -> u64 {
        self.total_emitted
    }

    /// Invariant: the log never holds more than `LOG_CAPACITY` events, and
    /// the unread count never runs ahead of the lifetime total.
    pub closed spec fn wf(self) -> bool {
        &&& self.entries().len() <= LOG_CAPACITY
        &&& self.unread() <= self.lifetime_total()
    }

    /// An empty log with both counters at zero.
    pub fn new() -> (r: Self)
        ensures
            r.wf(),
            r.entries() == Seq::<LoggedNotification>::empty(),
            r.unread() == 0,
            r.lifetime_total() == 0,
    {
        NotificationLog { events: Vec::new(), unread_count: 0, total_emitted: 0 }
    }

    /// Appends an event at the back and bumps both counters; once the log
    /// would exceed its capacity, the oldest event is evicted from the front.
    /// Eviction never touches the counters. The counters saturate at the top
    /// of their range instead of wrapping.
    pub fn append(&mut self, event: LoggedNotification)
        requires
            old(self).wf(),
        ensures
            final(self).wf(),
            old(self).entries().len() < LOG_CAPACITY ==> final(self).entries()
                == old(self).entries().push(event),
            old(self).entries().len() == LOG_CAPACITY ==> final(self).entries()
                == old(self).entries().push(event).skip(1),
            final(self).unread() == old(self).unread() as nat + 1 || (old(self).unread()
                == u64::MAX && final(self).unread() == u64::MAX),
            final(self).lifetime_total() == old(self).lifetime_total() as nat + 1 || (old(
                self,
            ).lifetime_total() == u64::MAX && final(self).lifetime_total() == u64::MAX),
    {
        self.events.push(event);
        if self.events.len() > LOG_CAPACITY {
            self.events.remove(0);
            proof {
                assert(self.events@ =~= old(self).events@.push(event).skip(1));
            }
        }
        self.unread_count = self.unread_count.saturating_add(1);
        self.total_emitted = self.total_emitted.saturating_add(1);
    }

    /// Resets the unread count to zero; the stored events and the lifetime
    /// total stay as they were.
    pub fn mark_all_read(&mut self)
        requires
            old(self).wf(),
        ensures
            final(self).wf(),
            final(self).unread() == 0,
            final(self).entries() == old(self).entries(),
            final(self).lifetime_total() == old(self).lifetime_total(),
    {
        self.unread_count = 0;
    }

    /// Empties the stored sequence; both counters keep their values, since
    /// they reflect lifetime activity rather than log contents.
    pub fn clear_all(&mut self)
        requires
            old(self).wf(),
        ensures
            final(self).wf(),
            final(self).entries() == Seq::<LoggedNotification>::empty(),
            final(self).unread() == old(self).unread(),
            final(self).lifetime_total() == old(self).lifetime_total(),
    {
        self.events.clear();
    }

    /// Read-only view for the UI collaborator: the stored events in order,
    /// the unread count, and the lifetime total, all from one point in time.
    pub fn snapshot(&self) -> (r: (&Vec<LoggedNotification>, u64, u64))
        ensures
            r.0@ == self.entries(),
            r.1 == self.unread(),
            r.2 == self.lifetime_total(),
    {
        (&self.events, self.unread_count, self.total_emitted)
    }
}

} // verus!
