//! Same-content deduplication of unread-count notifications.
//!
//! Back-to-back fires carrying the same `(sender, count)` key within
//! [`DEDUP_WINDOW`] are suppressed, so that the count-rise, typing re-arm and
//! signature-change paths cannot turn one conversation event into two toasts.
//! Instants are nanoseconds on a monotonic clock chosen by the caller.
use vstd::prelude::*;

verus! {

/// Nanoseconds in one second.
pub const NANOS_PER_SEC: u128 = 1_000_000_000;

/// Nanoseconds in one millisecond.
pub const NANOS_PER_MILLI: u128 = 1_000_000;

/// Time window, in nanoseconds, during which a second dispatch carrying the
/// same `(sender, count)` key is suppressed.
pub const DEDUP_WINDOW: u128 = 5_000_000_000;

/// Last successful dispatch.
#[derive(Debug)]
pub struct LastDispatch {
    pub sender: String,
    pub count: u32,
    /// Monotonic time of the fire, in nanoseconds.
    pub fired_at: u128,
}

/// Outcome of a dispatch decision.
#[derive(Debug, Clone, PartialEq, Eq)]
pub enum DispatchOutcome {
    /// The notification should be (or was) emitted.
    Fired,
    /// Suppressed because an identical key was emitted within the window.
    Suppressed { age_ms: u128 },
}

/// `a - b`, or zero when `b > a`.
pub open spec fn sat_sub128(a: u128, b: u128) -> u128 {
    if a >= b {
        (a - b) as u128
    } else {
        0
    }
}

/// The dedup rule: a previous dispatch with the same sender and count that is
/// at most `window` old suppresses the new one, reporting its age in whole
/// milliseconds; everything else fires.
pub open spec fn spec_decide(
    last: Option<(Seq<char>, u32, u128)>,
    sender: Seq<char>,
    count: u32,
    now: u128,
    window: u128,
) -> DispatchOutcome {
    match last {
        Some((prev_sender, prev_count, fired_at)) => if prev_sender == sender && prev_count == count
            && sat_sub128(now, fired_at) <= window {
            DispatchOutcome::Suppressed { age_ms: (sat_sub128(now, fired_at) / NANOS_PER_MILLI) as u128 }
        } else {
            DispatchOutcome::Fired
        },
        None => DispatchOutcome::Fired,
    }
}

/// Model of an optional last dispatch.
pub open spec fn last_model(last: Option<&LastDispatch>) -> Option<(Seq<char>, u32, u128)> {
    match last {
        Some(p) => Some((p.sender@, p.count, p.fired_at)),
        None => None,
    }
}

/// Pure dedup decision against the last successful dispatch.
pub fn decide(
    last: Option<&LastDispatch>,
    sender: &str,
    count: u32,
    now: u128,
    window: u128,
) -> (r: DispatchOutcome)
    ensures
        r == spec_decide(last_model(last), sender@, count, now, window),
{
    if let Some(prev) = last {
        let same_sender = sender.to_owned() == prev.sender;
        if same_sender && prev.count == count {
            let age = now.saturating_sub(prev.fired_at);
            if age <= window {
                return DispatchOutcome::Suppressed { age_ms: age / NANOS_PER_MILLI };
            }
        }
    }
    DispatchOutcome::Fired
}

/// The dedup baseline: the last successful dispatch, if any.
pub struct DedupGuard {
    last: Option<LastDispatch>,
}

impl View for DedupGuard {
    type V = Option<(Seq<char>, u32, u128)>;

    closed spec fn view(&self) -> Option<(Seq<char>, u32, u128)> {
        match self.last {
            Some(p) => Some((p.sender@, p.count, p.fired_at)),
            None => None,
        }
    }
}

impl DedupGuard {
    /// An empty baseline: the next dispatch always fires.
    pub fn new() -> (g: Self)
        ensures
            g@ is None,
    {
        DedupGuard { last: None }
    }

    /// Decide whether a dispatch of `(sender, count)` at `now` fires.
    pub fn check(&self, sender: &str, count: u32, now: u128) -> (r: DispatchOutcome)
        ensures
            r == spec_decide(self@, sender@, count, now, DEDUP_WINDOW),
    {
        decide(self.last.as_ref(), sender, count, now, DEDUP_WINDOW)
    }

    /// Record a successful sink delivery as the new baseline.  A failed
    /// delivery is not recorded, so it never suppresses the next retry.
    pub fn record_success(&mut self, sender: &str, count: u32, now: u128)
        ensures
            final(self)@ == Some((sender@, count, now)),
    {
        self.last = Some(LastDispatch { sender: sender.to_owned(), count, fired_at: now });
    }

    /// Finishes a fired dispatch: the baseline becomes this dispatch when the
    /// sink delivered it and stays as it was when delivery failed.
    pub fn complete(&mut self, sender: &str, count: u32, now: u128, delivered: bool)
        ensures
            final(self)@ == if delivered {
                Some((sender@, count, now))
            } else {
                old(self)@
            },
    {
        if delivered {
            self.record_success(sender, count, now);
        }
    }

    /// The recorded baseline, if any.
    pub fn last(&self) -> (r: Option<&LastDispatch>)
        ensures
            last_model(r) == self@,
    {
        self.last.as_ref()
    }

    /// Clear the baseline.
    pub fn reset_for_tests(&mut self)
        ensures
            final(self)@ is None,
    {
        self.last = None;
    }
}

/// After a successful dispatch of `(sender, count)` at time `t`, the same key
/// dispatched again no later than `DEDUP_WINDOW` after `t` is suppressed, and
/// its reported age is the elapsed time in whole milliseconds.
pub proof fn lemma_recorded_key_suppressed_within_window(
    sender: Seq<char>,
    count: u32,
    t: u128,
    later: u128,
)
    requires
        t <= later,
        later - t <= DEDUP_WINDOW,
    ensures
        spec_decide(Some((sender, count, t)), sender, count, later, DEDUP_WINDOW)
            == (DispatchOutcome::Suppressed { age_ms: (((later - t) as u128) / NANOS_PER_MILLI) as u128 }),
{
}

/// A dispatch with a different sender or count, or one made after the window
/// has elapsed, always fires.
pub proof fn lemma_other_key_or_late_fires(
    last: Option<(Seq<char>, u32, u128)>,
    sender: Seq<char>,
    count: u32,
    now: u128,
)
    requires
        last matches Some((ps, pc, t)) ==> (ps != sender || pc != count || sat_sub128(now, t)
            > DEDUP_WINDOW),
    ensures
        spec_decide(last, sender, count, now, DEDUP_WINDOW) == DispatchOutcome::Fired,
{
}

} // verus!
