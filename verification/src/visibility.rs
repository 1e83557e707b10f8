//! Linux: the page's notion of being visible, derived from the window's
//! focus and minimized state, and the restore-from-minimized stamp that the
//! unread tracker reads.
use vstd::prelude::*;

verus! {

/// Poll interval of the window-state poll, in milliseconds.
pub const WINDOW_STATE_POLL_INTERVAL_MS: u64 = 500;

/// Messenger treats the window as visible when it is focused and not
/// minimized.
pub open spec fn effective_visible_spec(focused: bool, minimized: bool) -> bool {
    focused && !minimized
}

/// Whether the page should consider itself visible.
pub fn effective_visible(focused: bool, minimized: bool) -> (r: bool)
    ensures
        r == effective_visible_spec(focused, minimized),
{
    focused && !minimized
}

/// What the poll remembers between rounds.
#[derive(Debug, Clone, Copy, PartialEq, Eq)]
pub struct VisibilityPoll {
    /// Visibility last pushed to the page.
    pub was_visible: bool,
    /// Minimized state seen in the last round.
    pub was_minimized: bool,
}

/// What a poll round asks of the caller.
#[derive(Debug, Clone, Copy, PartialEq, Eq)]
pub struct PollOutcome {
    /// Stamp the time of a restore from minimized.
    pub stamp_restore: bool,
    /// Push this visibility to the page.
    pub set_visible: Option<bool>,
}

/// One poll round: when the effective visibility changed it is pushed to the
/// page, and a change to visible right after a minimized round stamps a
/// restore; the minimized state is remembered every round.
pub open spec fn poll_step(s: VisibilityPoll, focused: bool, minimized: bool) -> (
    VisibilityPoll,
    PollOutcome,
) {
    let vis = effective_visible_spec(focused, minimized);
    if vis != s.was_visible {
        (
            VisibilityPoll { was_visible: vis, was_minimized: minimized },
            PollOutcome {
                stamp_restore: vis && !s.was_visible && s.was_minimized,
                set_visible: Some(vis),
            },
        )
    } else {
        (
            VisibilityPoll { was_visible: s.was_visible, was_minimized: minimized },
            PollOutcome { stamp_restore: false, set_visible: None },
        )
    }
}

impl VisibilityPoll {
    /// The poll's state from the window's first reading.
    pub fn start(focused: bool, minimized: bool) -> (s: Self)
        ensures
            s.was_visible == effective_visible_spec(focused, minimized),
            s.was_minimized == minimized,
    {
        VisibilityPoll { was_visible: effective_visible(focused, minimized), was_minimized: minimized }
    }

    /// One poll round with the window's current reading.
    pub fn step(&mut self, focused: bool, minimized: bool) -> (r: PollOutcome)
        ensures
            (*final(self), r) == poll_step(*old(self), focused, minimized),
    {
        let is_visible = effective_visible(focused, minimized);
        let mut out = PollOutcome { stamp_restore: false, set_visible: None };
        if is_visible != self.was_visible {
            out.stamp_restore = is_visible && !self.was_visible && self.was_minimized;
            self.was_visible = is_visible;
            out.set_visible = Some(is_visible);
        }
        self.was_minimized = minimized;
        out
    }
}

/// The page call that pushes a window focus event.
pub fn focus_event_script(focused: bool) -> (r: &'static str)
    ensures
        r@ == if focused {
            "window.__messengerx_set_visible?.(true, 'window-event-focused')"@
        } else {
            "window.__messengerx_set_visible?.(false, 'window-event-blurred')"@
        },
{
    if focused {
        "window.__messengerx_set_visible?.(true, 'window-event-focused')"
    } else {
        "window.__messengerx_set_visible?.(false, 'window-event-blurred')"
    }
}

/// The page call that pushes a visibility change found by the poll.
pub fn poll_sync_script(visible: bool) -> (r: &'static str)
    ensures
        r@ == if visible {
            "window.__messengerx_set_visible?.(true, 'poll-focused-unminimized')"@
        } else {
            "window.__messengerx_set_visible?.(false, 'poll-unfocused-or-minimized')"@
        },
{
    if visible {
        "window.__messengerx_set_visible?.(true, 'poll-focused-unminimized')"
    } else {
        "window.__messengerx_set_visible?.(false, 'poll-unfocused-or-minimized')"
    }
}

/// A restore is stamped only on a change from not visible to visible right
/// after a round in which the window was minimized; focus blinks of a window
/// that was never minimized stamp nothing.
pub proof fn lemma_stamp_needs_minimized(s: VisibilityPoll, focused: bool, minimized: bool)
    ensures
        poll_step(s, focused, minimized).1.stamp_restore <==> (s.was_minimized && !s.was_visible
            && focused && !minimized),
{
}

/// Every round remembers the minimized state it saw.
pub proof fn lemma_minimized_tracked_every_round(s: VisibilityPoll, focused: bool, minimized: bool)
    ensures
        poll_step(s, focused, minimized).0.was_minimized == minimized,
        poll_step(s, focused, minimized).0.was_visible == effective_visible_spec(focused, minimized),
{
}

/// The page hears of a visibility only when it changes, so a repeated reading
/// pushes nothing.
pub proof fn lemma_repeated_reading_is_silent(s: VisibilityPoll, focused: bool, minimized: bool)
    ensures
        poll_step(poll_step(s, focused, minimized).0, focused, minimized).1 == (PollOutcome {
            stamp_restore: false,
            set_visible: None,
        }),
{
}

} // verus!
