//! The main window's reaction to a change of the document title: a sender
//! hint is stored for the notification worker, anything else is an unread
//! count for the worker and a title for the crash detector.
use vstd::prelude::*;
use crate::crash_detect::{title_step, CrashAction, CrashDetector};
use crate::sender_hint::SenderHintCache;
use crate::title::{classify_title, title_event_spec, TitleEvent, TitleEventModel};

verus! {

/// What a title change asks of the caller.
#[derive(Debug, Clone, PartialEq, Eq)]
pub struct TitleReaction {
    /// What the title means; for an unread count the caller starts the
    /// notification worker.
    pub event: TitleEvent,
    /// How to answer a suspected crash.
    pub crash: CrashAction,
}

/// Handles a title change of the main window at `now` (monotonic
/// nanoseconds).  A sender-hint title stores the hint and stops there; a
/// malformed one changes nothing; any other title goes to the crash
/// detector.
pub fn on_title_changed(
    detector: &mut CrashDetector,
    hints: &mut SenderHintCache,
    title: &str,
    now: u128,
) -> (r: TitleReaction)
    ensures
        r.event@ == title_event_spec(title@),
        match title_event_spec(title@) {
            TitleEventModel::SenderHint { count, sender } => {
                &&& final(hints)@.live == Some((count, sender, now))
                &&& final(hints)@.retained == old(hints)@.retained
                &&& *final(detector) == *old(detector)
                &&& r.crash == CrashAction::Nothing
            },
            TitleEventModel::MalformedHint => {
                &&& final(hints)@ == old(hints)@
                &&& *final(detector) == *old(detector)
                &&& r.crash == CrashAction::Nothing
            },
            TitleEventModel::Unread { .. } => {
                &&& final(hints)@ == old(hints)@
                &&& (*final(detector), r.crash) == title_step(*old(detector), title@)
            },
        },
{
    let event = classify_title(title);
    match &event {
        TitleEvent::SenderHint { count, sender } => {
            hints.store(*count, sender.clone(), now);
            TitleReaction { event, crash: CrashAction::Nothing }
        },
        TitleEvent::MalformedHint => TitleReaction { event, crash: CrashAction::Nothing },
        TitleEvent::Unread { .. } => {
            let crash = detector.on_title(title);
            TitleReaction { event, crash }
        },
    }
}

} // verus!
