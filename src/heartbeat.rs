use vstd::prelude::*;
use embassy_time::{Duration, Instant};

verus! {

/// Interval between two liveness messages, in seconds.
pub const HEARTBEAT_INTERVAL_S: u64 = 3;

/// The text that `Debug` gives for a duration of this many ticks.
pub uninterp spec fn duration_debug_text(ticks: u64) -> Seq<char>;

/// Relies on `embassy_time::Instant::checked_duration_since`: the ticks from `start` to `now`,
/// or `None` where `now` is earlier.
#[verifier::external_body]
fn checked_ticks_since(now: u64, start: u64) -> (r: Option<u64>)
    ensures
        r == elapsed_of(start, now),
{
    Instant::from_ticks(now).checked_duration_since(Instant::from_ticks(start)).map(|d| d.as_ticks())
}

/// Relies on the `Debug` impl of `embassy_time::Duration`, through `format!`.
#[verifier::external_body]
fn uptime_text(ticks: u64) -> (r: String)
    ensures
        r@ == "Uptime: "@ + duration_debug_text(ticks),
{
    format!("Uptime: {:?}", Duration::from_ticks(ticks))
}

/// Ticks from `start` to `now`; `None` where `now` is earlier.
pub open spec fn elapsed_of(start: u64, now: u64) -> Option<u64> {
    if now >= start {
        Some((now - start) as u64)
    } else {
        None
    }
}

/// The liveness signal: it knows when the process started, and nothing of the host.
pub struct Heartbeat {
    pub start_ticks: u64,
}

impl Heartbeat {
    pub fn new(start_ticks: u64) -> (h: Heartbeat)
        ensures
            h.start_ticks == start_ticks,
    {
        Heartbeat { start_ticks }
    }

    /// Ticks elapsed since start at time `now`; `None` for a time before the start.
    pub fn elapsed(&self, now_ticks: u64) -> (r: Option<u64>)
        ensures
            r == elapsed_of(self.start_ticks, now_ticks),
    {
        checked_ticks_since(now_ticks, self.start_ticks)
    }

    /// The liveness message at time `now`: the uptime as text; `None` for a time before the
    /// start.
    pub fn liveness_message(&self, now_ticks: u64) -> (r: Option<String>)
        ensures
            now_ticks >= self.start_ticks ==> r.is_some() && r.unwrap()@ == "Uptime: "@
                + duration_debug_text((now_ticks - self.start_ticks) as u64),
            now_ticks < self.start_ticks ==> r.is_none(),
    {
        match self.elapsed(now_ticks) {
            Some(t) => Some(uptime_text(t)),
            None => None,
        }
    }
}

/// The elapsed time that the heartbeat reports never decreases as the clock advances,
/// whatever the host does meanwhile.
pub proof fn lemma_elapsed_monotone(start: u64, t1: u64, t2: u64)
    requires
        start <= t1,
        t1 <= t2,
    ensures
        elapsed_of(start, t1).is_some(),
        elapsed_of(start, t2).is_some(),
        elapsed_of(start, t1).unwrap() <= elapsed_of(start, t2).unwrap(),
{
}

} // verus!
