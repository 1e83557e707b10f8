//! What to do when the unread count reported by the page changes: badge and
//! tray flicker guard, startup baseline, notification decision, notification
//! title with its same-content deduplication, tray tooltip, dock badge and
//! taskbar attention.
use vstd::prelude::*;
use crate::notif_state::{
    decide_notification, spec_decide, sat_sub, DecisionModel, NotifModel, NotifState,
    NotificationDecision, EMPTY_SIG_WARN_THROTTLE_SECS,
};
use crate::text::{decimal_digits, is_blank, push_decimal, to_chars, trim_bounds};
use crate::dispatcher::{DedupGuard, DispatchOutcome, DEDUP_WINDOW};

verus! {

/// Tray tooltip when nothing is unread.
pub const TRAY_TOOLTIP: &'static str = "Messenger X";

/// Sentinel "no count seen yet in this process" value of the last count.
pub const NO_COUNT_YET: u32 = 0xffff_ffff;

/// Unread-count state kept across updates.
pub struct UnreadTracker {
    /// Last reported count; `NO_COUNT_YET` before the first report.
    last_count: u32,
    /// Notification dedupe state.
    state: NotifState,
    /// Unix second (truncated to 32 bits) of the last empty-signature
    /// diagnostic.
    last_empty_sig_warn: u32,
    /// Last delivered notification, for the same-content dedup window.
    dedup: DedupGuard,
}

/// Model of the tracker.
pub struct TrackerModel {
    pub last_count: u32,
    pub state: NotifModel,
    pub last_empty_sig_warn: u32,
    pub dedup: Option<(Seq<char>, u32, u128)>,
}

impl View for UnreadTracker {
    type V = TrackerModel;

    closed spec fn view(&self) -> TrackerModel {
        TrackerModel {
            last_count: self.last_count,
            state: self.state@,
            last_empty_sig_warn: self.last_empty_sig_warn,
            dedup: self.dedup@,
        }
    }
}

/// A native notification to show.
#[derive(Debug, Clone, PartialEq, Eq)]
pub struct NotifyRequest {
    pub title: String,
    pub silent: bool,
}

/// Tray tooltip and dock badge to set.
#[derive(Debug, Clone, PartialEq, Eq)]
pub struct TrayUpdate {
    pub tooltip: String,
    /// Dock badge label; `None` clears the badge.
    pub badge_label: Option<String>,
}

/// Everything an unread-count update asks the caller to do.
#[derive(Debug, Clone, PartialEq, Eq)]
pub struct UnreadPlan {
    /// Count before this update (`NO_COUNT_YET` on the first one).
    pub old_count: u32,
    /// The notification decision (for logging).
    pub decision: NotificationDecision,
    /// The dedup verdict, when the decision fired.
    pub dispatch: Option<DispatchOutcome>,
    /// Notification to show, if any: the decision fired and the dedup window
    /// let it through.
    pub notification: Option<NotifyRequest>,
    /// Tray tooltip / dock badge update, if any.
    pub tray: Option<TrayUpdate>,
    /// Whether to request user attention on the taskbar.
    pub request_attention: bool,
    /// Whether to log the throttled "empty activity signature" diagnostic.
    pub warn_empty_sig: bool,
}

/// Model of a plan.
pub struct PlanModel {
    pub old_count: u32,
    pub decision: DecisionModel,
    pub dispatch: Option<DispatchOutcome>,
    pub notification: Option<(Seq<char>, bool)>,
    pub tray: Option<(Seq<char>, Option<Seq<char>>)>,
    pub request_attention: bool,
    pub warn_empty_sig: bool,
}

impl View for UnreadPlan {
    type V = PlanModel;

    open spec fn view(&self) -> PlanModel {
        PlanModel {
            old_count: self.old_count,
            decision: self.decision@,
            dispatch: self.dispatch,
            notification: match self.notification {
                Some(n) => Some((n.title@, n.silent)),
                None => None,
            },
            tray: match self.tray {
                Some(t) => Some(
                    (
                        t.tooltip@,
                        match t.badge_label {
                            Some(l) => Some(l@),
                            None => None,
                        },
                    ),
                ),
                None => None,
            },
            request_attention: self.request_attention,
            warn_empty_sig: self.warn_empty_sig,
        }
    }
}

/// Tray tooltip for an unread count.
pub open spec fn tooltip_spec(count: u32) -> Seq<char> {
    if count > 0 {
        "Messenger X ("@ + decimal_digits(count as nat) + ")"@
    } else {
        TRAY_TOOLTIP@
    }
}

/// The decision recorded when the first positive count after start-up is
/// taken as already notified.
pub open spec fn baseline_decision() -> DecisionModel {
    DecisionModel {
        should_fire: false,
        clear_badge: false,
        reason: "startup-baseline"@,
        previous_count: 0,
        count_increased: false,
        sig_changed: false,
        elapsed_since_fire: None,
    }
}

/// Whether this update is the first positive count seen by the process:
/// unread messages that were already there at start-up are not notified again.
pub open spec fn is_startup_baseline(old_count: u32, count: u32) -> bool {
    old_count == NO_COUNT_YET && count > 0
}

/// The state-machine step of an update, with the start-up baseline.
pub open spec fn state_step(
    t: TrackerModel,
    count: u32,
    sig: Seq<char>,
    focused: bool,
    enabled: bool,
    typing: bool,
    now: u64,
) -> (NotifModel, DecisionModel) {
    if is_startup_baseline(t.last_count, count) {
        (
            NotifModel::Notified { count, sig, fired_at_secs: now, typing_rearm_exhausted: false },
            baseline_decision(),
        )
    } else {
        spec_decide(t.state, count, sig, focused, enabled, typing, now)
    }
}

/// Whether the empty-signature diagnostic is due.
pub open spec fn warn_due(t: TrackerModel, count: u32, sig: Seq<char>, now: u64) -> bool {
    count > 0 && sig.len() == 0 && sat_sub(now, t.last_empty_sig_warn as u64)
        >= EMPTY_SIG_WARN_THROTTLE_SECS
}

/// The tracker after an update, and the plan.
pub open spec fn update_spec(
    t: TrackerModel,
    count: u32,
    sender: Seq<char>,
    sig: Seq<char>,
    typing: bool,
    focused: bool,
    enabled: bool,
    sound: bool,
    now: u64,
    now_nanos: u128,
    fallback_title: Seq<char>,
) -> (TrackerModel, PlanModel) {
    let (state, d) = state_step(t, count, sig, focused, enabled, typing, now);
    let warn = warn_due(t, count, sig, now);
    let changed = t.last_count != count;
    let dispatch = if d.should_fire {
        Some(crate::dispatcher::spec_decide(t.dedup, sender, count, now_nanos, DEDUP_WINDOW))
    } else {
        None
    };
    (
        TrackerModel {
            last_count: count,
            state,
            last_empty_sig_warn: if warn {
                now as u32
            } else {
                t.last_empty_sig_warn
            },
            dedup: t.dedup,
        },
        PlanModel {
            old_count: t.last_count,
            decision: d,
            dispatch,
            notification: if dispatch == Some(DispatchOutcome::Fired) {
                Some(
                    (
                        if !is_blank(sender) {
                            sender
                        } else {
                            fallback_title
                        },
                        !sound,
                    ),
                )
            } else {
                None
            },
            tray: if changed && (count > 0 || d.clear_badge) {
                Some(
                    (
                        tooltip_spec(count),
                        if count > 0 {
                            Some(decimal_digits(count as nat))
                        } else {
                            None
                        },
                    ),
                )
            } else {
                None
            },
            request_attention: d.should_fire,
            warn_empty_sig: warn,
        },
    )
}

/// Tray tooltip for an unread count: `Messenger X (N)`, or `Messenger X`.
pub fn tray_tooltip(count: u32) -> (r: String)
    ensures
        r@ == tooltip_spec(count),
{
    if count > 0 {
        let mut s = String::from_str("Messenger X (");
        push_decimal(&mut s, count);
        s.append(")");
        s
    } else {
        String::from_str(TRAY_TOOLTIP)
    }
}

impl UnreadTracker {
    /// A tracker that has seen no count yet.
    pub fn new() -> (t: Self)
        ensures
            t@.last_count == NO_COUNT_YET,
            t@.state is Idle,
            t@.last_empty_sig_warn == 0,
            t@.dedup is None,
    {
        UnreadTracker {
            last_count: NO_COUNT_YET,
            state: NotifState::Idle,
            last_empty_sig_warn: 0,
            dedup: DedupGuard::new(),
        }
    }

    /// The notification dedupe state.
    pub fn state(&self) -> (r: &NotifState)
        ensures
            r@ == self@.state,
    {
        &self.state
    }

    /// The last reported count.
    pub fn last_count(&self) -> (r: u32)
        ensures
            r == self@.last_count,
    {
        self.last_count
    }

    /// Handles one unread-count report.  `sender` is the best-effort sender
    /// name (may be empty), `fallback_title` the translated "new message"
    /// title used when it is blank, `now` the Unix time in seconds and
    /// `now_nanos` a monotonic instant in nanoseconds for the dedup window.
    /// A fired decision is checked against the last delivered notification:
    /// the same `(sender, count)` within `DEDUP_WINDOW` shows nothing.
    pub fn update(
        &mut self,
        count: u32,
        sender: &str,
        activity_sig: &str,
        is_typing_indicator: bool,
        is_focused: bool,
        notifications_enabled: bool,
        notification_sound: bool,
        now: u64,
        now_nanos: u128,
        fallback_title: &str,
    ) -> (plan: UnreadPlan)
        ensures
            (final(self)@, plan@) == update_spec(
                old(self)@,
                count,
                sender@,
                activity_sig@,
                is_typing_indicator,
                is_focused,
                notifications_enabled,
                notification_sound,
                now,
                now_nanos,
                fallback_title@,
            ),
    {
        let old_count = self.last_count;
        let count_changed = old_count != count;
        self.last_count = count;

        let decision = if old_count == NO_COUNT_YET && count > 0 {
            self.state = NotifState::Notified {
                count,
                sig: activity_sig.to_owned(),
                fired_at_secs: now,
                typing_rearm_exhausted: false,
            };
            NotificationDecision {
                should_fire: false,
                clear_badge: false,
                reason: "startup-baseline",
                previous_count: 0,
                count_increased: false,
                sig_changed: false,
                elapsed_since_fire: None,
            }
        } else {
            decide_notification(
                &mut self.state,
                count,
                activity_sig,
                is_focused,
                notifications_enabled,
                is_typing_indicator,
                now,
            )
        };

        let mut warn_empty_sig = false;
        if count > 0 && activity_sig.is_empty() {
            let last_warn = self.last_empty_sig_warn as u64;
            if now.saturating_sub(last_warn) >= EMPTY_SIG_WARN_THROTTLE_SECS {
                self.last_empty_sig_warn = now as u32;
                warn_empty_sig = true;
            }
        }

        let dispatch = if decision.should_fire {
            Some(self.dedup.check(sender, count, now_nanos))
        } else {
            None
        };
        let deliver = match &dispatch {
            Some(DispatchOutcome::Fired) => true,
            _ => false,
        };
        let notification = if deliver {
            let chars = to_chars(sender);
            let (a, b) = trim_bounds(&chars);
            let title = if a < b {
                sender.to_owned()
            } else {
                fallback_title.to_owned()
            };
            Some(NotifyRequest { title, silent: !notification_sound })
        } else {
            None
        };

        let tray = if count_changed && (count > 0 || decision.clear_badge) {
            let badge_label = if count > 0 {
                let mut label = String::new();
                push_decimal(&mut label, count);
                Some(label)
            } else {
                None
            };
            Some(TrayUpdate { tooltip: tray_tooltip(count), badge_label })
        } else {
            None
        };

        UnreadPlan {
            old_count,
            request_attention: decision.should_fire,
            decision,
            dispatch,
            notification,
            tray,
            warn_empty_sig,
        }
    }

    /// Records the outcome of showing a planned notification: a delivered one
    /// becomes the dedup baseline for `(sender, count)` at `now_nanos` (the
    /// instant given to `update`); a failed one leaves the baseline as it was,
    /// so that it never suppresses the next attempt.
    pub fn record_delivery(&mut self, sender: &str, count: u32, now_nanos: u128, delivered: bool)
        ensures
            final(self)@.dedup == (if delivered {
                Some((sender@, count, now_nanos))
            } else {
                old(self)@.dedup
            }),
            final(self)@.last_count == old(self)@.last_count,
            final(self)@.state == old(self)@.state,
            final(self)@.last_empty_sig_warn == old(self)@.last_empty_sig_warn,
    {
        self.dedup.complete(sender, count, now_nanos, delivered);
    }

    /// The main window gained focus.  When nothing is unread (or no count was
    /// seen yet) the dedupe state returns to `Idle`, so that the next message
    /// notifies at once; with unread messages the state is kept.  Returns
    /// whether the state changed.
    pub fn on_focus_gained(&mut self) -> (reset: bool)
        ensures
            reset == ((old(self)@.last_count == 0 || old(self)@.last_count == NO_COUNT_YET)
                && !(old(self)@.state is Idle)),
            final(self)@.last_count == old(self)@.last_count,
            final(self)@.last_empty_sig_warn == old(self)@.last_empty_sig_warn,
            final(self)@.dedup == old(self)@.dedup,
            final(self)@.state == (if reset {
                NotifModel::Idle
            } else {
                old(self)@.state
            }),
    {
        let current = self.last_count;
        if current > 0 && current != NO_COUNT_YET {
            return false;
        }
        if self.state.is_idle() {
            return false;
        }
        self.state = NotifState::Idle;
        true
    }
}

/// The first positive count after start-up never fires a notification: it is
/// recorded as already notified.
pub proof fn lemma_startup_baseline_is_silent(
    t: TrackerModel,
    count: u32,
    sender: Seq<char>,
    sig: Seq<char>,
    typing: bool,
    focused: bool,
    enabled: bool,
    sound: bool,
    now: u64,
    now_nanos: u128,
    fallback_title: Seq<char>,
)
    requires
        t.last_count == NO_COUNT_YET,
        count > 0,
    ensures
        ({
            let (t2, p) = update_spec(
                t,
                count,
                sender,
                sig,
                typing,
                focused,
                enabled,
                sound,
                now,
                now_nanos,
                fallback_title,
            );
            p.notification is None && !p.request_attention && t2.state == (NotifModel::Notified {
                count,
                sig,
                fired_at_secs: now,
                typing_rearm_exhausted: false,
            })
        }),
{
}

/// The tray and badge are touched only when the count changed, and a drop to
/// zero clears them only once it is a confirmed read-all.
pub proof fn lemma_tray_only_on_change(
    t: TrackerModel,
    count: u32,
    sender: Seq<char>,
    sig: Seq<char>,
    typing: bool,
    focused: bool,
    enabled: bool,
    sound: bool,
    now: u64,
    now_nanos: u128,
    fallback_title: Seq<char>,
)
    ensures
        ({
            let (t2, p) = update_spec(
                t,
                count,
                sender,
                sig,
                typing,
                focused,
                enabled,
                sound,
                now,
                now_nanos,
                fallback_title,
            );
            &&& p.tray is Some ==> t.last_count != count
            &&& (p.tray is Some && count == 0) ==> p.decision.clear_badge
            &&& t2.last_count == count
        }),
{
}

/// A notification is shown exactly when the decision fires and the dedup
/// window lets it through (attention is requested whenever the decision
/// fires); it is silent
/// exactly when sounds are disabled, and titled with the sender unless that is
/// blank.
pub proof fn lemma_notification_follows_decision(
    t: TrackerModel,
    count: u32,
    sender: Seq<char>,
    sig: Seq<char>,
    typing: bool,
    focused: bool,
    enabled: bool,
    sound: bool,
    now: u64,
    now_nanos: u128,
    fallback_title: Seq<char>,
)
    ensures
        ({
            let (t2, p) = update_spec(
                t,
                count,
                sender,
                sig,
                typing,
                focused,
                enabled,
                sound,
                now,
                now_nanos,
                fallback_title,
            );
            &&& (p.dispatch is Some) == p.decision.should_fire
            &&& (p.notification is Some) == (p.decision.should_fire && p.dispatch == Some(
                DispatchOutcome::Fired,
            ))
            &&& p.request_attention == p.decision.should_fire
            &&& t2.dedup == t.dedup
            &&& p.notification matches Some((title, silent)) ==> silent == !sound && (is_blank(
                sender,
            ) ==> title == fallback_title) && (!is_blank(sender) ==> title == sender)
        }),
{
}

/// After a delivered notification for `(sender, count)` at `t`, an update that
/// fires again for the same sender and count no later than `DEDUP_WINDOW`
/// after `t` shows no notification: it is reported as suppressed with its age.
pub proof fn lemma_repeat_within_window_is_suppressed(
    t: TrackerModel,
    count: u32,
    sender: Seq<char>,
    sig: Seq<char>,
    typing: bool,
    focused: bool,
    enabled: bool,
    sound: bool,
    now: u64,
    delivered_at: u128,
    now_nanos: u128,
    fallback_title: Seq<char>,
)
    requires
        t.dedup == Some((sender, count, delivered_at)),
        delivered_at <= now_nanos,
        now_nanos - delivered_at <= DEDUP_WINDOW,
    ensures
        ({
            let (t2, p) = update_spec(
                t,
                count,
                sender,
                sig,
                typing,
                focused,
                enabled,
                sound,
                now,
                now_nanos,
                fallback_title,
            );
            &&& p.notification is None
            &&& p.decision.should_fire ==> p.dispatch == Some(
                crate::dispatcher::DispatchOutcome::Suppressed {
                    age_ms: (((now_nanos - delivered_at) as u128)
                        / crate::dispatcher::NANOS_PER_MILLI) as u128,
                },
            )
        }),
{
}

/// A fired decision whose `(sender, count)` differs from the last delivered
/// one, or comes after the dedup window, shows its notification.
pub proof fn lemma_new_key_or_late_fire_notifies(
    t: TrackerModel,
    count: u32,
    sender: Seq<char>,
    sig: Seq<char>,
    typing: bool,
    focused: bool,
    enabled: bool,
    sound: bool,
    now: u64,
    now_nanos: u128,
    fallback_title: Seq<char>,
)
    requires
        t.dedup matches Some((ps, pc, at)) ==> (ps != sender || pc != count
            || crate::dispatcher::sat_sub128(now_nanos, at) > DEDUP_WINDOW),
    ensures
        ({
            let (t2, p) = update_spec(
                t,
                count,
                sender,
                sig,
                typing,
                focused,
                enabled,
                sound,
                now,
                now_nanos,
                fallback_title,
            );
            p.decision.should_fire ==> p.notification is Some
        }),
{
}

/// Whenever the count changes to a positive value, the tray tooltip becomes
/// `Messenger X (N)` and the dock badge `N`; when it changes to zero on a
/// confirmed read-all, the tooltip becomes `Messenger X` and the badge is
/// cleared.
pub proof fn lemma_count_change_updates_tray(
    t: TrackerModel,
    count: u32,
    sender: Seq<char>,
    sig: Seq<char>,
    typing: bool,
    focused: bool,
    enabled: bool,
    sound: bool,
    now: u64,
    now_nanos: u128,
    fallback_title: Seq<char>,
)
    ensures
        ({
            let (t2, p) = update_spec(
                t,
                count,
                sender,
                sig,
                typing,
                focused,
                enabled,
                sound,
                now,
                now_nanos,
                fallback_title,
            );
            &&& (t.last_count != count && count > 0) ==> p.tray == Some(
                (
                    "Messenger X ("@ + decimal_digits(count as nat) + ")"@,
                    Some(decimal_digits(count as nat)),
                ),
            )
            &&& (t.last_count != count && count == 0 && p.decision.clear_badge) ==> p.tray == Some(
                ("Messenger X"@, None::<Seq<char>>),
            )
        }),
{
}

} // verus!
