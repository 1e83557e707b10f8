//! Cache of sender names reported by the page through the sender-hint
//! sentinel title, and the rule that picks the sender of an unread-count
//! notification.  Instants are nanoseconds on a monotonic clock.
use vstd::prelude::*;
use crate::dispatcher::sat_sub128;

verus! {

/// How long a consumed sender stays available for the typing-indicator
/// re-arm path.
pub const SENDER_HINT_RETAIN: u128 = 10_000_000_000;

/// Oldest live hint that may name the sender of a count rise.
pub const LIVE_HINT_MAX_AGE: u128 = 3_000_000_000;

/// How long the notification worker waits for a live hint.
pub const SENDER_HINT_WAIT: u128 = 1_200_000_000;

/// Pause between two looks at the cache while waiting.
pub const SENDER_HINT_POLL: u128 = 50_000_000;

/// Sender-hint cache.
#[derive(Debug, Default)]
pub struct SenderHintCache {
    /// Fresh hint `(count, sender, stored_at)` pending consumption.
    pub live: Option<(u32, String, u128)>,
    /// Last consumed sender and the time it was consumed.
    pub retained: Option<(String, u128)>,
}

/// Model of the cache.
pub struct HintCacheModel {
    pub live: Option<(u32, Seq<char>, u128)>,
    pub retained: Option<(Seq<char>, u128)>,
}

impl View for SenderHintCache {
    type V = HintCacheModel;

    open spec fn view(&self) -> HintCacheModel {
        HintCacheModel {
            live: match self.live {
                Some((c, s, t)) => Some((c, s@, t)),
                None => None,
            },
            retained: match self.retained {
                Some((s, t)) => Some((s@, t)),
                None => None,
            },
        }
    }
}

/// Whether the live hint names the sender of a rise to `count` at `now`.
pub open spec fn live_usable(live: Option<(u32, Seq<char>, u128)>, count: u32, now: u128) -> bool {
    live matches Some((c, _, t)) && c == count && sat_sub128(now, t) <= LIVE_HINT_MAX_AGE
}

/// The retained sender, when it is still fresh at `now`.
pub open spec fn retained_fresh(retained: Option<(Seq<char>, u128)>, now: u128) -> Option<Seq<char>> {
    match retained {
        Some((s, t)) => if sat_sub128(now, t) <= SENDER_HINT_RETAIN {
            Some(s)
        } else {
            None
        },
        None => None,
    }
}

/// One look at the cache by the notification worker: the cache after the
/// look, and the sender to use (`None` while it should keep waiting).
pub open spec fn poll_spec(c: HintCacheModel, count: u32, now: u128, deadline_passed: bool) -> (
    HintCacheModel,
    Option<Seq<char>>,
) {
    if live_usable(c.live, count, now) {
        let s = c.live->Some_0.1;
        (HintCacheModel { live: None, retained: Some((s, now)) }, Some(s))
    } else {
        let after = HintCacheModel { live: None, retained: c.retained };
        if deadline_passed {
            (
                after,
                Some(
                    match retained_fresh(c.retained, now) {
                        Some(s) => s,
                        None => Seq::empty(),
                    },
                ),
            )
        } else {
            (after, None)
        }
    }
}

impl SenderHintCache {
    /// An empty cache.
    pub fn new() -> (c: Self)
        ensures
            c@.live is None,
            c@.retained is None,
    {
        SenderHintCache { live: None, retained: None }
    }

    /// Store a fresh hint reported by the page.
    pub fn store(&mut self, count: u32, sender: String, now: u128)
        ensures
            final(self)@.live == Some((count, sender@, now)),
            final(self)@.retained == old(self)@.retained,
    {
        self.live = Some((count, sender, now));
    }

    /// One look at the cache for a notification about `count` unread
    /// messages.  A live hint is taken out whatever happens to it; a matching
    /// and recent one names the sender and becomes the retained sender.
    /// Otherwise, once the wait deadline has passed, the retained sender (if
    /// still fresh) or the empty name is used; before that, `None` asks the
    /// caller to wait.
    pub fn poll(&mut self, count: u32, now: u128, deadline_passed: bool) -> (r: Option<String>)
        ensures
            (final(self)@, match r {
                Some(s) => Some(s@),
                None => None,
            }) == poll_spec(old(self)@, count, now, deadline_passed),
    {
        let live = self.live.take();
        if let Some((hint_count, sender, stored_at)) = live {
            let age = now.saturating_sub(stored_at);
            if hint_count == count && age <= LIVE_HINT_MAX_AGE {
                self.retained = Some((sender.clone(), now));
                return Some(sender);
            }
        }
        let peek = match &self.retained {
            Some((sender, consumed_at)) => {
                if now.saturating_sub(*consumed_at) <= SENDER_HINT_RETAIN {
                    Some(sender.clone())
                } else {
                    None
                }
            },
            None => None,
        };
        if deadline_passed {
            match peek {
                Some(s) => Some(s),
                None => Some(String::new()),
            }
        } else {
            None
        }
    }
}

/// A live hint is used at most once: after any look at the cache it is gone,
/// and when it named the sender, that sender is what is retained.
pub proof fn lemma_live_hint_consumed_once(
    c: HintCacheModel,
    count: u32,
    now: u128,
    deadline_passed: bool,
)
    ensures
        poll_spec(c, count, now, deadline_passed).0.live is None,
        live_usable(c.live, count, now) ==> poll_spec(c, count, now, deadline_passed).0.retained
            == Some((c.live->Some_0.1, now)),
        live_usable(c.live, count, now) ==> poll_spec(c, count, now, deadline_passed).1 == Some(
            c.live->Some_0.1,
        ),
{
}

/// Once the deadline has passed the worker always gets a sender (possibly the
/// empty one), so it never waits forever.
pub proof fn lemma_deadline_always_answers(c: HintCacheModel, count: u32, now: u128)
    ensures
        poll_spec(c, count, now, true).1 is Some,
{
}

/// Before the wait deadline the worker gets an answer only from a live hint
/// about the same count that is at most `LIVE_HINT_MAX_AGE` old, and the
/// answer is that hint's sender; without such a hint it keeps waiting, even
/// when a retained sender is at hand.
pub proof fn lemma_no_answer_before_deadline_without_live_hint(
    c: HintCacheModel,
    count: u32,
    now: u128,
)
    ensures
        !live_usable(c.live, count, now) ==> poll_spec(c, count, now, false).1 is None,
        poll_spec(c, count, now, false).1 matches Some(s) ==> (c.live matches Some((
            hc,
            hs,
            t,
        )) && hc == count && sat_sub128(now, t) <= LIVE_HINT_MAX_AGE && s == hs),
{
}

/// Once the deadline has passed without a usable live hint, the answer is
/// the retained sender when it was consumed at most `SENDER_HINT_RETAIN`
/// before, and the empty name otherwise; the retained sender is kept.
pub proof fn lemma_deadline_falls_back_to_retained(c: HintCacheModel, count: u32, now: u128)
    requires
        !live_usable(c.live, count, now),
    ensures
        poll_spec(c, count, now, true).0.retained == c.retained,
        c.retained matches Some((s, t)) ==> (sat_sub128(now, t) <= SENDER_HINT_RETAIN
            ==> poll_spec(c, count, now, true).1 == Some(s)),
        !(c.retained matches Some((s, t)) && sat_sub128(now, t) <= SENDER_HINT_RETAIN)
            ==> poll_spec(c, count, now, true).1 == Some(Seq::<char>::empty()),
{
}

} // verus!
