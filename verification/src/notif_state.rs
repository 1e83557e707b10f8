//! Unread-count notification state machine.
//!
//! Messenger can transiently oscillate the window title between `(1) Messenger`
//! and `Messenger` while the same unread message is pending.  A flat
//! "reset on count = 0" guard cannot tell that oscillation from a real
//! read-all, so the decision whether to fire a native notification is kept in a
//! small state machine: `Idle`, `Notified` and `ZeroPending`.
use vstd::prelude::*;

verus! {

/// Seconds the count must remain zero before it is treated as a read-all.
pub const ZERO_SUSTAIN_SECS: u64 = 7;

/// Minimum seconds between two signature-only notifications for the same
/// unread count.
pub const MIN_SIG_CHANGE_NOTIFY_SECS: u64 = 3;

/// Minimum seconds after the previous notification before a typing-indicator
/// zero-bounce may re-arm and fire again.
pub const TYPING_REARM_SECS: u64 = 5;

/// Minimum seconds between repeated "empty activity signature while the count
/// is positive" diagnostics.
pub const EMPTY_SIG_WARN_THROTTLE_SECS: u64 = 30;

/// Seconds a notified message may stay unread, with the same count and
/// activity signature, before the notification fires again.
pub const UNREAD_REARM_SECS: u64 = 60;

/// Notification dedupe state.
#[derive(Debug, Clone, PartialEq, Eq)]
pub enum NotifState {
    /// No unread notification is currently armed.
    Idle,
    /// A notification was fired for this count / activity signature.
    Notified {
        count: u32,
        sig: String,
        fired_at_secs: u64,
        /// Whether the one allowed typing-indicator re-arm was already used.
        typing_rearm_exhausted: bool,
    },
    /// The count dropped to zero after a notification; waiting for the zero to
    /// be sustained before treating it as a read-all.
    ZeroPending {
        prev_count: u32,
        prev_sig: String,
        prev_fired_at_secs: u64,
        zero_since_secs: u64,
        /// Whether the zero came from a typing-indicator title.
        zero_from_typing: bool,
        prev_typing_rearm_exhausted: bool,
    },
}

/// Mathematical model of [`NotifState`]: strings are taken by their characters.
pub enum NotifModel {
    Idle,
    Notified { count: u32, sig: Seq<char>, fired_at_secs: u64, typing_rearm_exhausted: bool },
    ZeroPending {
        prev_count: u32,
        prev_sig: Seq<char>,
        prev_fired_at_secs: u64,
        zero_since_secs: u64,
        zero_from_typing: bool,
        prev_typing_rearm_exhausted: bool,
    },
}

impl View for NotifState {
    type V = NotifModel;

    open spec fn view(&self) -> NotifModel {
        match self {
            NotifState::Idle => NotifModel::Idle,
            NotifState::Notified { count, sig, fired_at_secs, typing_rearm_exhausted } =>
                NotifModel::Notified {
                count: *count,
                sig: sig@,
                fired_at_secs: *fired_at_secs,
                typing_rearm_exhausted: *typing_rearm_exhausted,
            },
            NotifState::ZeroPending {
                prev_count,
                prev_sig,
                prev_fired_at_secs,
                zero_since_secs,
                zero_from_typing,
                prev_typing_rearm_exhausted,
            } => NotifModel::ZeroPending {
                prev_count: *prev_count,
                prev_sig: prev_sig@,
                prev_fired_at_secs: *prev_fired_at_secs,
                zero_since_secs: *zero_since_secs,
                zero_from_typing: *zero_from_typing,
                prev_typing_rearm_exhausted: *prev_typing_rearm_exhausted,
            },
        }
    }
}

impl NotifState {
    /// Whether the state is `Idle`.
    pub fn is_idle(&self) -> (r: bool)
        ensures
            r <==> self@ is Idle,
    {
        match self {
            NotifState::Idle => true,
            _ => false,
        }
    }
}

/// Decision returned by the notification state machine.
#[derive(Debug, Clone, PartialEq, Eq)]
pub struct NotificationDecision {
    /// Whether the caller should dispatch a native notification.
    pub should_fire: bool,
    /// Whether the current `count = 0` is a confirmed read-all.
    pub clear_badge: bool,
    /// Human-readable reason for diagnostics.
    pub reason: &'static str,
    /// Previous count, for log output.
    pub previous_count: u32,
    /// Whether the count increased relative to the prior notified state.
    pub count_increased: bool,
    /// Whether the activity signature changed.
    pub sig_changed: bool,
    /// Seconds since the last notification fire, if known.
    pub elapsed_since_fire: Option<u64>,
}

/// Model of [`NotificationDecision`].
pub struct DecisionModel {
    pub should_fire: bool,
    pub clear_badge: bool,
    pub reason: Seq<char>,
    pub previous_count: u32,
    pub count_increased: bool,
    pub sig_changed: bool,
    pub elapsed_since_fire: Option<u64>,
}

impl View for NotificationDecision {
    type V = DecisionModel;

    open spec fn view(&self) -> DecisionModel {
        DecisionModel {
            should_fire: self.should_fire,
            clear_badge: self.clear_badge,
            reason: self.reason@,
            previous_count: self.previous_count,
            count_increased: self.count_increased,
            sig_changed: self.sig_changed,
            elapsed_since_fire: self.elapsed_since_fire,
        }
    }
}

/// A decision that fires nothing and carries no previous-state information.
pub open spec fn idle_model(reason: Seq<char>, clear_badge: bool) -> DecisionModel {
    DecisionModel {
        should_fire: false,
        clear_badge,
        reason,
        previous_count: 0,
        count_increased: false,
        sig_changed: false,
        elapsed_since_fire: None,
    }
}

/// `a - b`, or zero when `b > a`.
pub open spec fn sat_sub(a: u64, b: u64) -> u64 {
    if a >= b {
        (a - b) as u64
    } else {
        0
    }
}

/// A non-empty activity signature that differs from the stored one.
pub open spec fn sig_differs(sig: Seq<char>, prev: Seq<char>) -> bool {
    sig.len() > 0 && sig != prev
}

/// Transition out of `Idle`.
pub open spec fn idle_step(count: u32, sig: Seq<char>, focused: bool, enabled: bool, now: u64) -> (
    NotifModel,
    DecisionModel,
) {
    if count == 0 {
        (NotifModel::Idle, idle_model("idle-count-zero"@, true))
    } else if enabled && !focused {
        (
            NotifModel::Notified { count, sig, fired_at_secs: now, typing_rearm_exhausted: false },
            DecisionModel {
                should_fire: true,
                clear_badge: false,
                reason: "idle-count-positive"@,
                previous_count: 0,
                count_increased: true,
                sig_changed: sig.len() > 0,
                elapsed_since_fire: None,
            },
        )
    } else if focused {
        (NotifModel::Idle, idle_model("idle-focused-skip"@, false))
    } else {
        (NotifModel::Idle, idle_model("idle-disabled-skip"@, false))
    }
}

/// Transition out of `Notified`.
pub open spec fn notified_step(
    prev_count: u32,
    prev_sig: Seq<char>,
    fired_at: u64,
    exhausted: bool,
    count: u32,
    sig: Seq<char>,
    focused: bool,
    enabled: bool,
    typing: bool,
    now: u64,
) -> (NotifModel, DecisionModel) {
    let elapsed = sat_sub(now, fired_at);
    if count == 0 {
        (
            NotifModel::ZeroPending {
                prev_count,
                prev_sig,
                prev_fired_at_secs: fired_at,
                zero_since_secs: now,
                zero_from_typing: typing,
                prev_typing_rearm_exhausted: exhausted,
            },
            DecisionModel {
                should_fire: false,
                clear_badge: false,
                reason: "zero-pending-start"@,
                previous_count: prev_count,
                count_increased: false,
                sig_changed: false,
                elapsed_since_fire: Some(elapsed),
            },
        )
    } else {
        let increased = count > prev_count;
        let changed = sig_differs(sig, prev_sig);
        let under_floor = changed && !increased && elapsed < MIN_SIG_CHANGE_NOTIFY_SECS;
        let still_unread = count == prev_count && sig == prev_sig && elapsed >= UNREAD_REARM_SECS;
        let fire = enabled && !focused && (increased || (changed && !under_floor) || still_unread);
        let reason = if increased {
            "count-increased"@
        } else if changed && under_floor {
            "sig-changed-floor-suppressed"@
        } else if changed {
            "sig-changed"@
        } else if still_unread {
            "unread-rearm"@
        } else {
            "same-activity-suppressed"@
        };
        (
            if fire {
                NotifModel::Notified {
                    count,
                    sig,
                    fired_at_secs: now,
                    typing_rearm_exhausted: false,
                }
            } else {
                NotifModel::Notified {
                    count: prev_count,
                    sig: prev_sig,
                    fired_at_secs: fired_at,
                    typing_rearm_exhausted: exhausted,
                }
            },
            DecisionModel {
                should_fire: fire,
                clear_badge: false,
                reason,
                previous_count: prev_count,
                count_increased: increased,
                sig_changed: changed,
                elapsed_since_fire: Some(elapsed),
            },
        )
    }
}

/// Transition out of `ZeroPending`.
pub open spec fn zero_pending_step(
    prev_count: u32,
    prev_sig: Seq<char>,
    prev_fired_at: u64,
    zero_since: u64,
    zero_from_typing: bool,
    prev_exhausted: bool,
    count: u32,
    sig: Seq<char>,
    focused: bool,
    enabled: bool,
    now: u64,
) -> (NotifModel, DecisionModel) {
    let elapsed = sat_sub(now, prev_fired_at);
    if count == 0 {
        if sat_sub(now, zero_since) >= ZERO_SUSTAIN_SECS {
            (
                NotifModel::Idle,
                DecisionModel {
                    should_fire: false,
                    clear_badge: true,
                    reason: "zero-sustained-read-all"@,
                    previous_count: prev_count,
                    count_increased: false,
                    sig_changed: false,
                    elapsed_since_fire: Some(elapsed),
                },
            )
        } else {
            (
                NotifModel::ZeroPending {
                    prev_count,
                    prev_sig,
                    prev_fired_at_secs: prev_fired_at,
                    zero_since_secs: zero_since,
                    zero_from_typing,
                    prev_typing_rearm_exhausted: prev_exhausted,
                },
                DecisionModel {
                    should_fire: false,
                    clear_badge: false,
                    reason: "zero-pending-wait"@,
                    previous_count: prev_count,
                    count_increased: false,
                    sig_changed: false,
                    elapsed_since_fire: Some(elapsed),
                },
            )
        }
    } else {
        let increased = count > prev_count;
        let changed = sig_differs(sig, prev_sig);
        let under_floor = changed && !increased && elapsed < MIN_SIG_CHANGE_NOTIFY_SECS;
        let rearm = zero_from_typing && elapsed >= TYPING_REARM_SECS && !prev_exhausted;
        let fire = enabled && !focused && (increased || (changed && !under_floor) || rearm);
        let reason = if increased {
            "zero-bounce-count-increased"@
        } else if changed && under_floor {
            "zero-bounce-sig-floor-suppressed"@
        } else if changed {
            "zero-bounce-sig-changed"@
        } else if rearm {
            "typing-indicator-rearm"@
        } else {
            "zero-bounce-oscillation-suppressed"@
        };
        (
            NotifModel::Notified {
                count,
                sig,
                fired_at_secs: if fire {
                    now
                } else {
                    prev_fired_at
                },
                typing_rearm_exhausted: if fire {
                    rearm && !increased && !(changed && !under_floor)
                } else {
                    prev_exhausted
                },
            },
            DecisionModel {
                should_fire: fire,
                clear_badge: false,
                reason,
                previous_count: prev_count,
                count_increased: increased,
                sig_changed: changed,
                elapsed_since_fire: Some(elapsed),
            },
        )
    }
}

/// The state machine: next state and decision for one observed unread count.
pub open spec fn spec_decide(
    s: NotifModel,
    count: u32,
    sig: Seq<char>,
    focused: bool,
    enabled: bool,
    typing: bool,
    now: u64,
) -> (NotifModel, DecisionModel) {
    match s {
        NotifModel::Idle => idle_step(count, sig, focused, enabled, now),
        NotifModel::Notified { count: pc, sig: ps, fired_at_secs, typing_rearm_exhausted } =>
            notified_step(
            pc,
            ps,
            fired_at_secs,
            typing_rearm_exhausted,
            count,
            sig,
            focused,
            enabled,
            typing,
            now,
        ),
        NotifModel::ZeroPending {
            prev_count,
            prev_sig,
            prev_fired_at_secs,
            zero_since_secs,
            zero_from_typing,
            prev_typing_rearm_exhausted,
        } => zero_pending_step(
            prev_count,
            prev_sig,
            prev_fired_at_secs,
            zero_since_secs,
            zero_from_typing,
            prev_typing_rearm_exhausted,
            count,
            sig,
            focused,
            enabled,
            now,
        ),
    }
}


/// The unread count a state is armed with (zero when idle).
pub open spec fn armed_count(s: NotifModel) -> u32 {
    match s {
        NotifModel::Idle => 0,
        NotifModel::Notified { count, .. } => count,
        NotifModel::ZeroPending { prev_count, .. } => prev_count,
    }
}

/// The activity signature a state is armed with (empty when idle).
pub open spec fn armed_sig(s: NotifModel) -> Seq<char> {
    match s {
        NotifModel::Idle => Seq::empty(),
        NotifModel::Notified { sig, .. } => sig,
        NotifModel::ZeroPending { prev_sig, .. } => prev_sig,
    }
}

/// Whether the one allowed typing-indicator re-arm was already used.
pub open spec fn rearm_exhausted(s: NotifModel) -> bool {
    match s {
        NotifModel::Idle => false,
        NotifModel::Notified { typing_rearm_exhausted, .. } => typing_rearm_exhausted,
        NotifModel::ZeroPending { prev_typing_rearm_exhausted, .. } => prev_typing_rearm_exhausted,
    }
}

/// No notification fires while the window is focused or notifications are
/// disabled.
pub proof fn lemma_no_fire_when_focused_or_disabled(
    s: NotifModel,
    count: u32,
    sig: Seq<char>,
    focused: bool,
    enabled: bool,
    typing: bool,
    now: u64,
)
    requires
        focused || !enabled,
    ensures
        !spec_decide(s, count, sig, focused, enabled, typing, now).1.should_fire,
{
}

/// A zero unread count never fires a notification, and only a zero count can
/// clear the badge.
pub proof fn lemma_zero_never_fires_and_only_zero_clears(
    s: NotifModel,
    count: u32,
    sig: Seq<char>,
    focused: bool,
    enabled: bool,
    typing: bool,
    now: u64,
)
    ensures
        count == 0 ==> !spec_decide(s, count, sig, focused, enabled, typing, now).1.should_fire,
        spec_decide(s, count, sig, focused, enabled, typing, now).1.clear_badge ==> count == 0,
{
}

/// A count above the armed count always fires when the window is unfocused and
/// notifications are enabled, whatever the signature floor says.
pub proof fn lemma_count_increase_fires(
    s: NotifModel,
    count: u32,
    sig: Seq<char>,
    typing: bool,
    now: u64,
)
    requires
        count > armed_count(s),
    ensures
        spec_decide(s, count, sig, false, true, typing, now).1.should_fire,
{
}

/// An empty activity signature is never reported as a signature change.
pub proof fn lemma_empty_sig_is_never_a_change(
    s: NotifModel,
    count: u32,
    sig: Seq<char>,
    focused: bool,
    enabled: bool,
    typing: bool,
    now: u64,
)
    requires
        sig.len() == 0,
    ensures
        !spec_decide(s, count, sig, focused, enabled, typing, now).1.sig_changed,
{
}

/// Firing arms the state with the observed count, signature and time.
pub proof fn lemma_fire_arms_state(
    s: NotifModel,
    count: u32,
    sig: Seq<char>,
    focused: bool,
    enabled: bool,
    typing: bool,
    now: u64,
)
    ensures
        ({
            let (next, d) = spec_decide(s, count, sig, focused, enabled, typing, now);
            d.should_fire ==> (next matches NotifModel::Notified { count: c, sig: sg, fired_at_secs: t, .. }
                && c == count && sg == sig && t == now)
        }),
{
}

/// A zero sustained for `ZERO_SUSTAIN_SECS` after a notification is a
/// read-all: the state returns to `Idle` and the badge is cleared.
pub proof fn lemma_sustained_zero_is_read_all(
    s: NotifModel,
    sig: Seq<char>,
    focused: bool,
    enabled: bool,
    typing: bool,
    now: u64,
)
    requires
        s matches NotifModel::ZeroPending { zero_since_secs, .. } && sat_sub(now, zero_since_secs)
            >= ZERO_SUSTAIN_SECS,
    ensures
        spec_decide(s, 0, sig, focused, enabled, typing, now).0 is Idle,
        spec_decide(s, 0, sig, focused, enabled, typing, now).1.clear_badge,
{
}

/// A fire caused only by the typing-indicator re-arm (no count increase and no
/// signature change) uses up the re-arm.
pub proof fn lemma_rearm_fire_exhausts(
    s: NotifModel,
    count: u32,
    sig: Seq<char>,
    focused: bool,
    enabled: bool,
    typing: bool,
    now: u64,
)
    ensures
        ({
            let (next, d) = spec_decide(s, count, sig, focused, enabled, typing, now);
            d.should_fire && !d.count_increased && !d.sig_changed && s is ZeroPending
                ==> rearm_exhausted(next)
        }),
{
}

/// Once the re-arm is used up, an observation that brings nothing new (a
/// count not above the armed one and no signature change) fires only as the
/// minute-long unread re-arm, and when it does not fire the re-arm stays used
/// up unless a sustained zero returned the state to `Idle`.  Together with
/// `lemma_rearm_fire_exhausts` this makes the typing re-arm fire at most once
/// per notified message.
pub proof fn lemma_exhausted_rearm_stays_silent(
    s: NotifModel,
    count: u32,
    sig: Seq<char>,
    focused: bool,
    enabled: bool,
    typing: bool,
    now: u64,
)
    requires
        rearm_exhausted(s),
        count <= armed_count(s),
        !sig_differs(sig, armed_sig(s)),
    ensures
        ({
            let (next, d) = spec_decide(s, count, sig, focused, enabled, typing, now);
            &&& d.should_fire ==> d.reason == "unread-rearm"@
            &&& !d.should_fire ==> (rearm_exhausted(next) || next is Idle)
        }),
{
}

/// Every fire arms the state with the typing re-arm used up exactly when the
/// fire came from the typing re-arm itself: a count rise, a signature change
/// or the unread re-arm leaves the typing re-arm available again.
pub proof fn lemma_fire_sets_rearm_flag(
    s: NotifModel,
    count: u32,
    sig: Seq<char>,
    focused: bool,
    enabled: bool,
    typing: bool,
    now: u64,
)
    ensures
        ({
            let (next, d) = spec_decide(s, count, sig, focused, enabled, typing, now);
            d.should_fire ==> rearm_exhausted(next) == (d.reason == "typing-indicator-rearm"@)
        }),
{
    reveal_strlit("typing-indicator-rearm");
    reveal_strlit("idle-count-positive");
    reveal_strlit("count-increased");
    reveal_strlit("sig-changed");
    reveal_strlit("unread-rearm");
    reveal_strlit("zero-bounce-count-increased");
    reveal_strlit("zero-bounce-sig-changed");
    let t = "typing-indicator-rearm"@;
    assert("idle-count-positive"@.len() != t.len());
    assert("count-increased"@.len() != t.len());
    assert("sig-changed"@.len() != t.len());
    assert("unread-rearm"@.len() != t.len());
    assert("zero-bounce-count-increased"@.len() != t.len());
    assert("zero-bounce-sig-changed"@.len() != t.len());
}

/// A notified message that stays unread, with the same count and activity
/// signature, for `UNREAD_REARM_SECS` while the window is unfocused and
/// notifications are enabled fires again and re-arms the state at that time.
pub proof fn lemma_unread_rearm_after_a_minute(
    count: u32,
    sig: Seq<char>,
    fired_at: u64,
    exhausted: bool,
    typing: bool,
    now: u64,
)
    requires
        count > 0,
        now >= fired_at + UNREAD_REARM_SECS,
    ensures
        ({
            let s = NotifModel::Notified {
                count,
                sig,
                fired_at_secs: fired_at,
                typing_rearm_exhausted: exhausted,
            };
            let (next, d) = spec_decide(s, count, sig, false, true, typing, now);
            &&& d.should_fire
            &&& d.reason == "unread-rearm"@
            &&& next == NotifModel::Notified {
                count,
                sig,
                fired_at_secs: now,
                typing_rearm_exhausted: false,
            }
        }),
{
}

/// Before `UNREAD_REARM_SECS` have passed, the same count and activity
/// signature fire nothing and leave the notified state as it was.
pub proof fn lemma_no_unread_rearm_within_a_minute(
    count: u32,
    sig: Seq<char>,
    fired_at: u64,
    exhausted: bool,
    focused: bool,
    enabled: bool,
    typing: bool,
    now: u64,
)
    requires
        count > 0,
        now < fired_at + UNREAD_REARM_SECS,
    ensures
        ({
            let s = NotifModel::Notified {
                count,
                sig,
                fired_at_secs: fired_at,
                typing_rearm_exhausted: exhausted,
            };
            let (next, d) = spec_decide(s, count, sig, focused, enabled, typing, now);
            !d.should_fire && next == s
        }),
{
}

/// Title oscillation is silent: after a notification for `c` messages, a
/// zero that is not a typing indicator followed by the same count with no new
/// activity signature fires nothing and restores the notified state (with
/// the signature just seen).
pub proof fn lemma_title_oscillation_is_silent(
    c: u32,
    sig: Seq<char>,
    fired_at: u64,
    exhausted: bool,
    zero_sig: Seq<char>,
    sig2: Seq<char>,
    focused1: bool,
    enabled1: bool,
    t1: u64,
    focused2: bool,
    enabled2: bool,
    typing2: bool,
    t2: u64,
)
    requires
        c > 0,
        !sig_differs(sig2, sig),
    ensures
        ({
            let s0 = NotifModel::Notified {
                count: c,
                sig,
                fired_at_secs: fired_at,
                typing_rearm_exhausted: exhausted,
            };
            let (s1, d1) = spec_decide(s0, 0, zero_sig, focused1, enabled1, false, t1);
            let (s2, d2) = spec_decide(s1, c, sig2, focused2, enabled2, typing2, t2);
            &&& !d1.should_fire
            &&& !d2.should_fire
            &&& s2 == NotifModel::Notified {
                count: c,
                sig: sig2,
                fired_at_secs: fired_at,
                typing_rearm_exhausted: exhausted,
            }
        }),
{
}

impl NotificationDecision {
    /// A decision that fires nothing.
    pub fn idle(reason: &'static str, clear_badge: bool) -> (d: Self)
        ensures
            d@ == idle_model(reason@, clear_badge),
    {
        NotificationDecision {
            should_fire: false,
            clear_badge,
            reason,
            previous_count: 0,
            count_increased: false,
            sig_changed: false,
            elapsed_since_fire: None,
        }
    }
}

fn decide_from_idle(
    count: u32,
    activity_sig: &str,
    is_focused: bool,
    notifications_enabled: bool,
    now: u64,
) -> (r: (NotifState, NotificationDecision))
    ensures
        (r.0@, r.1@) == idle_step(count, activity_sig@, is_focused, notifications_enabled, now),
{
    if count == 0 {
        (NotifState::Idle, NotificationDecision::idle("idle-count-zero", true))
    } else if notifications_enabled && !is_focused {
        (
            NotifState::Notified {
                count,
                sig: activity_sig.to_owned(),
                fired_at_secs: now,
                typing_rearm_exhausted: false,
            },
            NotificationDecision {
                should_fire: true,
                clear_badge: false,
                reason: "idle-count-positive",
                previous_count: 0,
                count_increased: true,
                sig_changed: !activity_sig.is_empty(),
                elapsed_since_fire: None,
            },
        )
    } else if is_focused {
        (NotifState::Idle, NotificationDecision::idle("idle-focused-skip", false))
    } else {
        (NotifState::Idle, NotificationDecision::idle("idle-disabled-skip", false))
    }
}

fn decide_from_notified(
    prev_count: u32,
    prev_sig: &String,
    fired_at_secs: u64,
    typing_rearm_exhausted: bool,
    count: u32,
    activity_sig: &str,
    is_focused: bool,
    notifications_enabled: bool,
    is_typing_indicator: bool,
    now: u64,
) -> (r: (NotifState, NotificationDecision))
    ensures
        (r.0@, r.1@) == notified_step(
            prev_count,
            prev_sig@,
            fired_at_secs,
            typing_rearm_exhausted,
            count,
            activity_sig@,
            is_focused,
            notifications_enabled,
            is_typing_indicator,
            now,
        ),
{
    let elapsed = now.saturating_sub(fired_at_secs);
    if count == 0 {
        (
            NotifState::ZeroPending {
                prev_count,
                prev_sig: prev_sig.clone(),
                prev_fired_at_secs: fired_at_secs,
                zero_since_secs: now,
                zero_from_typing: is_typing_indicator,
                prev_typing_rearm_exhausted: typing_rearm_exhausted,
            },
            NotificationDecision {
                should_fire: false,
                clear_badge: false,
                reason: "zero-pending-start",
                previous_count: prev_count,
                count_increased: false,
                sig_changed: false,
                elapsed_since_fire: Some(elapsed),
            },
        )
    } else {
        let new_sig = activity_sig.to_owned();
        let count_increased = count > prev_count;
        let sig_changed = !activity_sig.is_empty() && !(new_sig == *prev_sig);
        let sig_under_floor = sig_changed && !count_increased && elapsed
            < MIN_SIG_CHANGE_NOTIFY_SECS;
        let still_unread = count == prev_count && new_sig == *prev_sig && elapsed
            >= UNREAD_REARM_SECS;
        let should_fire = notifications_enabled && !is_focused && (count_increased || (sig_changed
            && !sig_under_floor) || still_unread);
        let reason = if count_increased {
            "count-increased"
        } else if sig_changed && sig_under_floor {
            "sig-changed-floor-suppressed"
        } else if sig_changed {
            "sig-changed"
        } else if still_unread {
            "unread-rearm"
        } else {
            "same-activity-suppressed"
        };
        let next = if should_fire {
            NotifState::Notified {
                count,
                sig: new_sig,
                fired_at_secs: now,
                typing_rearm_exhausted: false,
            }
        } else {
            NotifState::Notified {
                count: prev_count,
                sig: prev_sig.clone(),
                fired_at_secs,
                typing_rearm_exhausted,
            }
        };
        (
            next,
            NotificationDecision {
                should_fire,
                clear_badge: false,
                reason,
                previous_count: prev_count,
                count_increased,
                sig_changed,
                elapsed_since_fire: Some(elapsed),
            },
        )
    }
}

fn decide_from_zero_pending(
    prev_count: u32,
    prev_sig: &String,
    prev_fired_at_secs: u64,
    zero_since_secs: u64,
    zero_from_typing: bool,
    prev_typing_rearm_exhausted: bool,
    count: u32,
    activity_sig: &str,
    is_focused: bool,
    notifications_enabled: bool,
    now: u64,
) -> (r: (NotifState, NotificationDecision))
    ensures
        (r.0@, r.1@) == zero_pending_step(
            prev_count,
            prev_sig@,
            prev_fired_at_secs,
            zero_since_secs,
            zero_from_typing,
            prev_typing_rearm_exhausted,
            count,
            activity_sig@,
            is_focused,
            notifications_enabled,
            now,
        ),
{
    let elapsed = now.saturating_sub(prev_fired_at_secs);
    if count == 0 {
        if now.saturating_sub(zero_since_secs) >= ZERO_SUSTAIN_SECS {
            (
                NotifState::Idle,
                NotificationDecision {
                    should_fire: false,
                    clear_badge: true,
                    reason: "zero-sustained-read-all",
                    previous_count: prev_count,
                    count_increased: false,
                    sig_changed: false,
                    elapsed_since_fire: Some(elapsed),
                },
            )
        } else {
            (
                NotifState::ZeroPending {
                    prev_count,
                    prev_sig: prev_sig.clone(),
                    prev_fired_at_secs,
                    zero_since_secs,
                    zero_from_typing,
                    prev_typing_rearm_exhausted,
                },
                NotificationDecision {
                    should_fire: false,
                    clear_badge: false,
                    reason: "zero-pending-wait",
                    previous_count: prev_count,
                    count_increased: false,
                    sig_changed: false,
                    elapsed_since_fire: Some(elapsed),
                },
            )
        }
    } else {
        let new_sig = activity_sig.to_owned();
        let count_increased = count > prev_count;
        let sig_changed = !activity_sig.is_empty() && !(new_sig == *prev_sig);
        let sig_under_floor = sig_changed && !count_increased && elapsed
            < MIN_SIG_CHANGE_NOTIFY_SECS;
        let typing_rearm = zero_from_typing && elapsed >= TYPING_REARM_SECS
            && !prev_typing_rearm_exhausted;
        let should_fire = notifications_enabled && !is_focused && (count_increased || (sig_changed
            && !sig_under_floor) || typing_rearm);
        let reason = if count_increased {
            "zero-bounce-count-increased"
        } else if sig_changed && sig_under_floor {
            "zero-bounce-sig-floor-suppressed"
        } else if sig_changed {
            "zero-bounce-sig-changed"
        } else if typing_rearm {
            "typing-indicator-rearm"
        } else {
            "zero-bounce-oscillation-suppressed"
        };
        let new_typing_rearm_exhausted = if should_fire {
            typing_rearm && !count_increased && !(sig_changed && !sig_under_floor)
        } else {
            prev_typing_rearm_exhausted
        };
        (
            NotifState::Notified {
                count,
                sig: new_sig,
                fired_at_secs: if should_fire {
                    now
                } else {
                    prev_fired_at_secs
                },
                typing_rearm_exhausted: new_typing_rearm_exhausted,
            },
            NotificationDecision {
                should_fire,
                clear_badge: false,
                reason,
                previous_count: prev_count,
                count_increased,
                sig_changed,
                elapsed_since_fire: Some(elapsed),
            },
        )
    }
}

/// Updates the notification dedupe state for one observed unread count and
/// returns whether to fire a notification.
pub fn decide_notification(
    state: &mut NotifState,
    count: u32,
    activity_sig: &str,
    is_focused: bool,
    notifications_enabled: bool,
    is_typing_indicator: bool,
    now: u64,
) -> (d: NotificationDecision)
    ensures
        (final(state)@, d@) == spec_decide(
            old(state)@,
            count,
            activity_sig@,
            is_focused,
            notifications_enabled,
            is_typing_indicator,
            now,
        ),
{
    let (next, decision) = match &*state {
        NotifState::Idle => decide_from_idle(
            count,
            activity_sig,
            is_focused,
            notifications_enabled,
            now,
        ),
        NotifState::Notified { count: prev_count, sig, fired_at_secs, typing_rearm_exhausted } =>
            decide_from_notified(
            *prev_count,
            sig,
            *fired_at_secs,
            *typing_rearm_exhausted,
            count,
            activity_sig,
            is_focused,
            notifications_enabled,
            is_typing_indicator,
            now,
        ),
        NotifState::ZeroPending {
            prev_count,
            prev_sig,
            prev_fired_at_secs,
            zero_since_secs,
            zero_from_typing,
            prev_typing_rearm_exhausted,
        } => decide_from_zero_pending(
            *prev_count,
            prev_sig,
            *prev_fired_at_secs,
            *zero_since_secs,
            *zero_from_typing,
            *prev_typing_rearm_exhausted,
            count,
            activity_sig,
            is_focused,
            notifications_enabled,
            now,
        ),
    };
    *state = next;
    decision
}

} // verus!
