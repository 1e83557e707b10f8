//! Detection of a crashed web process from the window title.
//!
//! Once Messenger has loaded (a title containing `Messenger` was seen after a
//! real `www.messenger.com` navigation, with the page load settled), a title
//! that turns blank means the web process died.  The detector answers with a
//! reload, at most `MAX_CRASH_RELOADS` times, and afterwards with a single
//! recovery navigation to the Messenger root each time it is re-armed.
use vstd::prelude::*;
use crate::text::{contains, contains_seq, is_blank, str_eq, to_chars, trim_bounds};

verus! {

/// Reloads answered to suspected crashes before falling back to a plain
/// recovery navigation.
pub const MAX_CRASH_RELOADS: u32 = 3;

/// The host whose navigations and page loads drive the detector.
pub const MESSENGER_HOST: &'static str = "www.messenger.com";

/// The detector's flags.
#[derive(Debug, Clone, Copy, PartialEq, Eq)]
pub struct CrashDetector {
    /// A good Messenger title was seen on a settled page.
    pub had_good_title: bool,
    /// A navigation to `www.messenger.com` was allowed at least once.
    pub messenger_com_navigated: bool,
    /// The current page finished loading.
    pub page_load_stable: bool,
    /// Crashes answered so far.
    pub crash_reload_count: u32,
    /// After a crash: block the page known to set off the crash again.
    pub post_crash_proxy_block: bool,
}

/// What the caller does after a title change.
#[derive(Debug, Clone, Copy, PartialEq, Eq)]
pub enum CrashAction {
    /// Nothing.
    Nothing,
    /// Reload Messenger; `attempt` counts from one.
    Reload { attempt: u32 },
    /// The reload budget is spent: navigate to the Messenger root once.
    RecoverToRoot,
}

/// A title that shows a loaded Messenger page.
pub open spec fn is_good_title(t: Seq<char>) -> bool {
    contains_seq(t, "Messenger"@) && !is_blank(t)
}

/// First half of a title change: a good title after a Messenger navigation
/// marks the page settled (when the load-finished event never came), and a
/// good title on a settled page arms the detector.
pub open spec fn arm_step(s: CrashDetector, t: Seq<char>) -> CrashDetector {
    let good = is_good_title(t);
    let s1 = if good && s.messenger_com_navigated && !s.page_load_stable {
        CrashDetector { page_load_stable: true, ..s }
    } else {
        s
    };
    if good && s1.messenger_com_navigated && s1.page_load_stable {
        CrashDetector { had_good_title: true, ..s1 }
    } else {
        s1
    }
}

/// A title change: arming, then, for a blank title on an armed and settled
/// page, a crash answer.  Each answer counts (wrapping at `u32::MAX`) and
/// disarms; the first `MAX_CRASH_RELOADS` answers are reloads that also
/// switch the post-crash block on.
pub open spec fn title_step(s: CrashDetector, t: Seq<char>) -> (CrashDetector, CrashAction) {
    let s2 = arm_step(s, t);
    if is_blank(t) && s2.had_good_title && s2.page_load_stable {
        let prev = s2.crash_reload_count;
        let next = if prev == u32::MAX { 0u32 } else { (prev + 1) as u32 };
        if prev < MAX_CRASH_RELOADS {
            (
                CrashDetector {
                    had_good_title: false,
                    crash_reload_count: next,
                    post_crash_proxy_block: true,
                    ..s2
                },
                CrashAction::Reload { attempt: (prev + 1) as u32 },
            )
        } else {
            (
                CrashDetector { had_good_title: false, crash_reload_count: next, ..s2 },
                CrashAction::RecoverToRoot,
            )
        }
    } else {
        (s2, CrashAction::Nothing)
    }
}

/// An allowed navigation to `host`: a Messenger navigation marks Messenger as
/// reached and the page as loading.
pub open spec fn navigation_step(s: CrashDetector, host: Seq<char>) -> CrashDetector {
    if host == MESSENGER_HOST@ {
        CrashDetector { messenger_com_navigated: true, page_load_stable: false, ..s }
    } else {
        s
    }
}

/// A finished page load on `host`: a Messenger page is settled and lifts the
/// post-crash block.
pub open spec fn finished_step(s: CrashDetector, host: Seq<char>) -> CrashDetector {
    if host == MESSENGER_HOST@ {
        CrashDetector { page_load_stable: true, post_crash_proxy_block: false, ..s }
    } else {
        s
    }
}

impl CrashDetector {
    /// The detector's invariant: it is only armed once Messenger was reached.
    pub open spec fn wf(self) -> bool {
        self.had_good_title ==> self.messenger_com_navigated
    }

    /// A detector that has seen nothing.
    pub fn new() -> (d: Self)
        ensures
            d.wf(),
            !d.had_good_title,
            !d.messenger_com_navigated,
            !d.page_load_stable,
            d.crash_reload_count == 0,
            !d.post_crash_proxy_block,
    {
        CrashDetector {
            had_good_title: false,
            messenger_com_navigated: false,
            page_load_stable: false,
            crash_reload_count: 0,
            post_crash_proxy_block: false,
        }
    }

    /// Feeds a title change and says how to answer it.
    pub fn on_title(&mut self, title: &str) -> (a: CrashAction)
        ensures
            (*final(self), a) == title_step(*old(self), title@),
    {
        let t = to_chars(title);
        let (lo, hi) = trim_bounds(&t);
        let blank = lo >= hi;
        let messenger: Vec<char> = to_chars("Messenger");
        proof {
            reveal_strlit("Messenger");
        }
        let good = contains(&t, &messenger) && !blank;
        if good && self.messenger_com_navigated && !self.page_load_stable {
            self.page_load_stable = true;
        }
        if good && self.messenger_com_navigated && self.page_load_stable {
            self.had_good_title = true;
        }
        if blank && self.had_good_title && self.page_load_stable {
            let prev = self.crash_reload_count;
            self.crash_reload_count = prev.wrapping_add(1);
            self.had_good_title = false;
            if prev < MAX_CRASH_RELOADS {
                self.post_crash_proxy_block = true;
                CrashAction::Reload { attempt: prev + 1 }
            } else {
                CrashAction::RecoverToRoot
            }
        } else {
            CrashAction::Nothing
        }
    }

    /// Notes an allowed navigation to `host`.
    pub fn on_navigation(&mut self, host: &str)
        ensures
            *final(self) == navigation_step(*old(self), host@),
    {
        if str_eq(host, MESSENGER_HOST) {
            self.messenger_com_navigated = true;
            self.page_load_stable = false;
        }
    }

    /// Notes a finished page load on `host`; says whether the post-crash
    /// block was lifted by it.
    pub fn on_page_load_finished(&mut self, host: &str) -> (cleared: bool)
        ensures
            *final(self) == finished_step(*old(self), host@),
            cleared == (host@ == MESSENGER_HOST@ && old(self).post_crash_proxy_block),
    {
        if str_eq(host, MESSENGER_HOST) {
            self.page_load_stable = true;
            let was = self.post_crash_proxy_block;
            self.post_crash_proxy_block = false;
            was
        } else {
            false
        }
    }
}

/// Every event keeps the detector's invariant.
pub proof fn lemma_events_keep_wf(s: CrashDetector, t: Seq<char>, host: Seq<char>)
    requires
        s.wf(),
    ensures
        title_step(s, t).0.wf(),
        navigation_step(s, host).wf(),
        finished_step(s, host).wf(),
{
}

/// A crash is answered only for a blank title on a page that was armed and
/// settled before it, and the answer disarms the detector.
pub proof fn lemma_crash_answer_needs_armed_settled_page(s: CrashDetector, t: Seq<char>)
    requires
        title_step(s, t).1 != CrashAction::Nothing,
    ensures
        is_blank(t),
        s.had_good_title,
        s.page_load_stable,
        !title_step(s, t).0.had_good_title,
{
}

/// A reload is answered only while fewer than `MAX_CRASH_RELOADS` crashes were
/// answered; it counts the crash and switches the post-crash block on.
pub proof fn lemma_reload_budget(s: CrashDetector, t: Seq<char>)
    requires
        title_step(s, t).1 is Reload,
    ensures
        s.crash_reload_count < MAX_CRASH_RELOADS,
        title_step(s, t).0.crash_reload_count == s.crash_reload_count + 1,
        title_step(s, t).1 == (CrashAction::Reload { attempt: (s.crash_reload_count + 1) as u32 }),
        title_step(s, t).0.post_crash_proxy_block,
{
}

/// Once the budget is spent, an answered crash is a recovery navigation.
pub proof fn lemma_spent_budget_recovers(s: CrashDetector, t: Seq<char>)
    requires
        s.crash_reload_count >= MAX_CRASH_RELOADS,
        title_step(s, t).1 != CrashAction::Nothing,
    ensures
        title_step(s, t).1 == CrashAction::RecoverToRoot,
{
}

/// Two blank titles in a row are answered at most once.
pub proof fn lemma_no_answer_twice_in_a_row(s: CrashDetector, t1: Seq<char>, t2: Seq<char>)
    requires
        title_step(s, t1).1 != CrashAction::Nothing,
        is_blank(t2),
    ensures
        title_step(title_step(s, t1).0, t2).1 == CrashAction::Nothing,
{
    let s1 = title_step(s, t1).0;
    assert(!is_good_title(t2));
    assert(arm_step(s1, t2) == s1);
}

/// Without a Messenger navigation the detector never arms, whatever titles
/// and page loads come.
pub proof fn lemma_no_arming_before_messenger(s: CrashDetector, t: Seq<char>, host: Seq<char>)
    requires
        !s.messenger_com_navigated,
        !s.had_good_title,
    ensures
        !title_step(s, t).0.had_good_title,
        title_step(s, t).1 == CrashAction::Nothing,
        !finished_step(s, host).had_good_title,
        !finished_step(s, host).messenger_com_navigated,
{
}

/// A Messenger navigation unsettles the page, so no blank title is answered
/// until the page settles again.
pub proof fn lemma_navigation_suppresses_answer(s: CrashDetector, t: Seq<char>)
    requires
        is_blank(t),
    ensures
        title_step(navigation_step(s, MESSENGER_HOST@), t).1 == CrashAction::Nothing,
{
    let s1 = navigation_step(s, MESSENGER_HOST@);
    assert(!is_good_title(t));
    assert(arm_step(s1, t) == s1);
}

/// A finished Messenger page load settles the page and lifts the post-crash
/// block.
pub proof fn lemma_finished_lifts_block(s: CrashDetector)
    ensures
        finished_step(s, MESSENGER_HOST@).page_load_stable,
        !finished_step(s, MESSENGER_HOST@).post_crash_proxy_block,
{
}

} // verus!
