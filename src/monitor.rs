use vstd::prelude::*;

verus! {

/// What one bounded wait on the pipeline's event bus gave.
#[derive(Clone, Debug, PartialEq, Eq)]
pub enum BusEvent {
    EndOfStream,
    /// An error, from the stage at path `source` when the engine names it.
    Error { source: Option<String>, message: String },
    /// Any other event.
    Other,
    /// The wait timed out with no event.
    NoEvent,
}

/// Why the monitor stopped watching.
#[derive(Clone, Debug, PartialEq, Eq)]
pub enum MonitorEnd {
    EndOfStream,
    /// No event came for the whole timeout.
    Stalled,
    Failed { source: Option<String>, message: String },
}

/// Seconds from `last` to `now`; a clock that went back counts as none.
pub open spec fn elapsed(last: u64, now: u64) -> int {
    if now >= last {
        now - last
    } else {
        0
    }
}

/// The background monitor of a playing stream: it watches the pipeline's
/// events and decides when the stream has ended.
pub struct StreamMonitor {
    timeout_secs: u64,
    last_event_at: u64,
}

impl StreamMonitor {
    pub closed spec fn timeout_spec(&self) -> u64 {
        self.timeout_secs
    }

    /// When, in seconds on the caller's monotonic clock, the last event came.
    pub closed spec fn last_event_spec(&self) -> u64 {
        self.last_event_at
    }

    /// A monitor started at `now` that takes the stream as stalled after
    /// `timeout_secs` seconds without events.
    pub fn new(timeout_secs: u64, now: u64) -> (r: StreamMonitor)
        ensures
            r.timeout_spec() == timeout_secs,
            r.last_event_spec() == now,
    {
        StreamMonitor { timeout_secs, last_event_at: now }
    }

    /// Takes one wait's result at time `now`. End of stream and errors end
    /// the watch; another event is noted and the watch goes on; a wait with
    /// no event ends it only once the timeout has passed since the last event.
    pub fn step(&mut self, event: BusEvent, now: u64) -> (r: Option<MonitorEnd>)
        ensures
            final(self).timeout_spec() == old(self).timeout_spec(),
            match event {
                BusEvent::EndOfStream => r matches Some(MonitorEnd::EndOfStream)
                    && final(self).last_event_spec() == now,
                BusEvent::Error { source, message } => (r matches Some(
                    MonitorEnd::Failed { source: s, message: m },
                ) && s == source && m == message) && final(self).last_event_spec() == now,
                BusEvent::Other => r is None && final(self).last_event_spec() == now,
                BusEvent::NoEvent => final(self).last_event_spec() == old(self).last_event_spec()
                    && (if elapsed(old(self).last_event_spec(), now) >= old(
                    self,
                ).timeout_spec() {
                    r matches Some(MonitorEnd::Stalled)
                } else {
                    r is None
                }),
            },
    {
        match event {
            BusEvent::EndOfStream => {
                self.last_event_at = now;
                Some(MonitorEnd::EndOfStream)
            },
            BusEvent::Error { source, message } => {
                self.last_event_at = now;
                Some(MonitorEnd::Failed { source, message })
            },
            BusEvent::Other => {
                self.last_event_at = now;
                None
            },
            BusEvent::NoEvent => {
                let idle: u64 = if now >= self.last_event_at {
                    now - self.last_event_at
                } else {
                    0
                };
                if idle >= self.timeout_secs {
                    Some(MonitorEnd::Stalled)
                } else {
                    None
                }
            },
        }
    }
}

} // verus!
