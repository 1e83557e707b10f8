//! What the native notification sinks are handed: AppleScript for the macOS
//! development fallback, `notify-send` arguments on Linux, sound names,
//! unique macOS notification identifiers, and the app version read from a
//! bundle's `Info.plist`.
use vstd::prelude::*;
use crate::text::{
    opt_view, strings_view,
    decimal_digits, find_first, first_at, lemma_decimal_digits_injective, push_char,
    push_decimal_u64, to_chars, trim, trim_bounds, string_from_range,
};

verus! {

/// The platforms the app runs on.
#[derive(Debug, Clone, Copy, PartialEq, Eq, Structural)]
pub enum Platform {
    MacOs,
    Linux,
    Windows,
}

/// The notification sound each platform plays by default.
pub open spec fn default_sound_spec(p: Platform) -> Seq<char> {
    match p {
        Platform::MacOs => "default"@,
        Platform::Linux => "message-new-instant"@,
        Platform::Windows => "Default"@,
    }
}

/// The platform's default notification sound: the system sound on macOS,
/// the XDG sound theme's `message-new-instant` on Linux, `Default` on
/// Windows.
pub fn default_sound(p: Platform) -> (r: &'static str)
    ensures
        r@ == default_sound_spec(p),
{
    match p {
        Platform::MacOs => "default",
        Platform::Linux => "message-new-instant",
        Platform::Windows => "Default",
    }
}

/// `char::is_control`: the Unicode control characters (general category Cc).
pub open spec fn is_control(c: char) -> bool {
    let u = c as u32;
    u <= 0x1f || (0x7f <= u && u <= 0x9f)
}

/// How one character is written inside an AppleScript string literal:
/// backslash and double quote are escaped; line breaks, tabs and other
/// control characters become a space.
pub open spec fn applescript_char(c: char) -> Seq<char> {
    if c == '\\' {
        seq!['\\', '\\']
    } else if c == '"' {
        seq!['\\', '"']
    } else if c == '\n' || c == '\r' || c == '\t' || is_control(c) {
        seq![' ']
    } else {
        seq![c]
    }
}

/// The escaped characters of `s`.
pub open spec fn applescript_body(s: Seq<char>) -> Seq<char>
    decreases s.len(),
{
    if s.len() == 0 {
        Seq::empty()
    } else {
        applescript_body(s.drop_last()) + applescript_char(s.last())
    }
}

/// An AppleScript string literal for `s`.
pub open spec fn applescript_literal(s: Seq<char>) -> Seq<char> {
    seq!['"'] + applescript_body(s) + seq!['"']
}

/// The AppleScript string literal holding `value`.
pub fn apple_script_string_literal(value: &str) -> (r: String)
    ensures
        r@ == applescript_literal(value@),
{
    let v = to_chars(value);
    let mut out = String::new();
    push_char(&mut out, '"');
    let mut i: usize = 0;
    while i < v.len()
        invariant
            i <= v@.len(),
            v@ == value@,
            out@ == seq!['"'] + applescript_body(v@.take(i as int)),
        decreases v@.len() - i,
    {
        let c = v[i];
        assert(v@.take(i + 1).drop_last() =~= v@.take(i as int));
        assert(v@.take(i + 1).last() == c);
        let u = c as u32;
        if c == '\\' {
            push_char(&mut out, '\\');
            push_char(&mut out, '\\');
        } else if c == '"' {
            push_char(&mut out, '\\');
            push_char(&mut out, '"');
        } else if c == '\n' || c == '\r' || c == '\t' || u <= 0x1f || (0x7f <= u && u <= 0x9f) {
            push_char(&mut out, ' ');
        } else {
            push_char(&mut out, c);
        }
        assert(out@ =~= seq!['"'] + applescript_body(v@.take(i + 1)));
        i += 1;
    }
    assert(v@.take(i as int) =~= value@);
    push_char(&mut out, '"');
    out
}

/// `s` with every control character replaced by a space.
pub open spec fn controls_to_spaces(s: Seq<char>) -> Seq<char> {
    s.map_values(|c: char| if is_control(c) { ' ' } else { c })
}

/// Reads the inside of an AppleScript string literal: a backslash takes the
/// character after it literally.
pub open spec fn unescape(s: Seq<char>) -> Seq<char>
    decreases s.len(),
{
    if s.len() == 0 {
        Seq::empty()
    } else if s[0] == '\\' && s.len() >= 2 {
        seq![s[1]] + unescape(s.skip(2))
    } else {
        seq![s[0]] + unescape(s.skip(1))
    }
}

/// The inside of a literal is well formed: every backslash escapes a
/// backslash or a double quote, and no double quote stands unescaped (so the
/// literal cannot end early).
pub open spec fn well_escaped(s: Seq<char>) -> bool
    decreases s.len(),
{
    if s.len() == 0 {
        true
    } else if s[0] == '\\' {
        s.len() >= 2 && (s[1] == '\\' || s[1] == '"') && well_escaped(s.skip(2))
    } else {
        s[0] != '"' && well_escaped(s.skip(1))
    }
}

proof fn lemma_body_append(a: Seq<char>, b: Seq<char>)
    ensures
        applescript_body(a + b) == applescript_body(a) + applescript_body(b),
    decreases b.len(),
{
    if b.len() == 0 {
        assert(a + b =~= a);
        assert(applescript_body(a) + applescript_body(b) =~= applescript_body(a));
    } else {
        assert((a + b).drop_last() =~= a + b.drop_last());
        assert((a + b).last() == b.last());
        lemma_body_append(a, b.drop_last());
        assert(applescript_body(a + b) =~= applescript_body(a) + (applescript_body(b.drop_last())
            + applescript_char(b.last())));
    }
}

proof fn lemma_body_front(s: Seq<char>)
    requires
        s.len() > 0,
    ensures
        applescript_body(s) == applescript_char(s[0]) + applescript_body(s.skip(1)),
{
    let head = seq![s[0]];
    assert(s =~= head + s.skip(1));
    lemma_body_append(head, s.skip(1));
    let e = Seq::<char>::empty();
    assert(head.drop_last() =~= e);
    assert(head.last() == s[0]);
    assert(applescript_body(e) == e);
    assert(applescript_body(head) == applescript_body(e) + applescript_char(s[0]));
    assert(applescript_body(head) =~= applescript_char(s[0]));
}

proof fn lemma_body_round_trip(s: Seq<char>)
    ensures
        well_escaped(applescript_body(s)),
        unescape(applescript_body(s)) == controls_to_spaces(s),
        forall|i: int| 0 <= i < applescript_body(s).len() ==> !is_control(#[trigger] applescript_body(s)[i]),
    decreases s.len(),
{
    let b = applescript_body(s);
    if s.len() == 0 {
        assert(controls_to_spaces(s) =~= Seq::<char>::empty());
    } else {
        let c = s[0];
        let rest = s.skip(1);
        let br = applescript_body(rest);
        lemma_body_front(s);
        lemma_body_round_trip(rest);
        assert(controls_to_spaces(s) =~= seq![if is_control(c) { ' ' } else { c }]
            + controls_to_spaces(rest));
        let e = applescript_char(c);
        assert(b == e + br);
        if c == '\\' || c == '"' {
            assert((e + br).skip(2) =~= br);
            assert(unescape(b) == seq![c] + unescape(br));
        } else {
            assert((e + br).skip(1) =~= br);
            assert(unescape(b) == seq![e[0]] + unescape(br));
        }
        assert(unescape(b) =~= controls_to_spaces(s));
        assert forall|i: int| 0 <= i < b.len() implies !is_control(#[trigger] b[i]) by {
            if i >= e.len() {
                assert(b[i] == br[i - e.len()]);
            }
        }
    }
}

/// The AppleScript literal of any `value` starts and ends with a double quote
/// and holds no control character; inside the quotes every backslash and
/// double quote is escaped by a backslash, and undoing those escapes gives
/// back `value` with its control characters turned into spaces.
pub proof fn lemma_applescript_literal_round_trip(value: Seq<char>)
    ensures
        ({
            let lit = applescript_literal(value);
            let inner = lit.subrange(1, lit.len() - 1);
            &&& lit.len() >= 2
            &&& lit[0] == '"'
            &&& lit[lit.len() - 1] == '"'
            &&& forall|i: int| 0 <= i < lit.len() ==> !is_control(#[trigger] lit[i])
            &&& well_escaped(inner)
            &&& unescape(inner) == controls_to_spaces(value)
        }),
{
    let b = applescript_body(value);
    let lit = applescript_literal(value);
    lemma_body_round_trip(value);
    assert(lit.subrange(1, lit.len() - 1) =~= b);
    assert forall|i: int| 0 <= i < lit.len() implies !is_control(#[trigger] lit[i]) by {
        if 1 <= i < lit.len() - 1 {
            assert(lit[i] == b[i - 1]);
        }
    }
}

/// The AppleScript of the development fallback: shows `body` under `title`,
/// without a sound (unreliable outside an app bundle), silent or not.
pub fn build_osascript_notification_script(title: &str, body: &str, silent: bool) -> (r: String)
    ensures
        r@ == "display notification "@ + applescript_literal(body@) + " with title "@
            + applescript_literal(title@),
{
    let b = apple_script_string_literal(body);
    let t = apple_script_string_literal(title);
    let mut s = "display notification ".to_owned();
    s.append(b.as_str());
    s.append(" with title ");
    s.append(t.as_str());
    s
}

/// The `notify-send` arguments on Linux: app name, urgency, expiry and icon,
/// the sound hint unless silent, then title and body.
pub open spec fn notify_send_args_spec(title: Seq<char>, body: Seq<char>, silent: bool) -> Seq<
    Seq<char>,
> {
    let head = seq![
        "--app-name=Messenger X"@,
        "--urgency=normal"@,
        "--expire-time=5000"@,
        "--icon=message-im"@,
    ];
    let sound = if silent {
        Seq::empty()
    } else {
        seq!["--hint=string:sound-name:message-new-instant"@]
    };
    head + sound + seq![title, body]
}

/// The arguments handed to `notify-send`.
pub fn notify_send_args(title: &str, body: &str, silent: bool) -> (r: Vec<String>)
    ensures
        strings_view(r@) == notify_send_args_spec(title@, body@, silent),
{
    let mut v: Vec<String> = Vec::new();
    v.push("--app-name=Messenger X".to_owned());
    v.push("--urgency=normal".to_owned());
    v.push("--expire-time=5000".to_owned());
    v.push("--icon=message-im".to_owned());
    if !silent {
        v.push("--hint=string:sound-name:message-new-instant".to_owned());
    }
    v.push(title.to_owned());
    v.push(body.to_owned());
    assert(strings_view(v@) =~= notify_send_args_spec(title@, body@, silent));
    v
}

/// Prepares the native notification machinery.  Off macOS there is nothing
/// to prepare.
pub fn initialize() -> (r: Result<(), String>)
    ensures
        r is Ok,
{
    Ok(())
}

/// The stamp of the next identifier: the current time, but always past the
/// previous stamp (saturating at `u64::MAX`).
pub open spec fn next_stamp(last: u64, now: u64) -> u64 {
    let after = if last == u64::MAX {
        u64::MAX
    } else {
        (last + 1) as u64
    };
    if now > after {
        now
    } else {
        after
    }
}

/// A notification identifier: `messengerx-TAG-STAMP`, or
/// `messengerx-message-STAMP` for an empty tag.
pub open spec fn identifier_spec(tag: Seq<char>, stamp: u64) -> Seq<char> {
    if tag.len() > 0 {
        "messengerx-"@ + tag + "-"@ + decimal_digits(stamp as nat)
    } else {
        "messengerx-message-"@ + decimal_digits(stamp as nat)
    }
}

/// Hands out macOS notification identifiers that never repeat, so that each
/// notification arrives as a new banner instead of replacing a delivered one.
#[derive(Debug)]
pub struct NotificationIdClock {
    last_stamp: u64,
}

impl NotificationIdClock {
    /// The last stamp handed out.
    pub closed spec fn last(&self) -> u64 {
        self.last_stamp
    }

    /// A clock that has handed out nothing.
    pub fn new() -> (c: Self)
        ensures
            c.last() == 0,
    {
        NotificationIdClock { last_stamp: 0 }
    }

    /// The identifier for `tag` at `now_nanos` (the Unix time in
    /// nanoseconds); its stamp is past every stamp handed out before, even
    /// when the clock did not advance.
    pub fn build_macos_notification_identifier(&mut self, tag: &str, now_nanos: u64) -> (r: String)
        ensures
            final(self).last() == next_stamp(old(self).last(), now_nanos),
            r@ == identifier_spec(tag@, final(self).last()),
    {
        let after = self.last_stamp.saturating_add(1);
        let ts = if now_nanos > after {
            now_nanos
        } else {
            after
        };
        self.last_stamp = ts;
        let mut s = "messengerx-".to_owned();
        if tag.unicode_len() > 0 {
            s.append(tag);
            s.append("-");
        } else {
            s.append("message-");
        }
        push_decimal_u64(&mut s, ts);
        proof {
            reveal_strlit("messengerx-");
            reveal_strlit("message-");
            reveal_strlit("messengerx-message-");
            reveal_strlit("-");
            assert("messengerx-"@ + "message-"@ =~= "messengerx-message-"@);
        }
        s
    }
}

/// Stamps only grow: each one is past the one before (until `u64::MAX`).
pub proof fn lemma_stamps_increase(last: u64, now: u64)
    requires
        last < u64::MAX,
    ensures
        next_stamp(last, now) > last,
{
}

/// Two identifiers for one tag with different stamps differ; so a clock's
/// identifiers for a tag never repeat.
pub proof fn lemma_identifiers_differ(tag: Seq<char>, a: u64, b: u64)
    requires
        a != b,
    ensures
        identifier_spec(tag, a) != identifier_spec(tag, b),
{
    let p = if tag.len() > 0 {
        "messengerx-"@ + tag + "-"@
    } else {
        "messengerx-message-"@
    };
    if identifier_spec(tag, a) == identifier_spec(tag, b) {
        assert(identifier_spec(tag, a) == p + decimal_digits(a as nat));
        assert(identifier_spec(tag, b) == p + decimal_digits(b as nat));
        assert((p + decimal_digits(a as nat)).skip(p.len() as int) =~= decimal_digits(a as nat));
        assert((p + decimal_digits(b as nat)).skip(p.len() as int) =~= decimal_digits(b as nat));
        lemma_decimal_digits_injective(a as nat, b as nat);
    }
}

/// Two identifiers handed out one after the other for the same tag differ,
/// whatever the clock says, until the stamps reach `u64::MAX`.
pub proof fn lemma_consecutive_identifiers_differ(tag: Seq<char>, last: u64, now1: u64, now2: u64)
    requires
        next_stamp(last, now1) < u64::MAX,
    ensures
        identifier_spec(tag, next_stamp(last, now1)) != identifier_spec(
            tag,
            next_stamp(next_stamp(last, now1), now2),
        ),
{
    lemma_identifiers_differ(tag, next_stamp(last, now1), next_stamp(next_stamp(last, now1), now2));
}

/// The `Info.plist` key of the short version string.
pub const SHORT_VERSION_KEY: &'static str = "<key>CFBundleShortVersionString</key>";

/// The short version in an XML `Info.plist`: after the first occurrence of
/// the key, the trimmed text between the next `<string>` and the `</string>`
/// after it.
pub open spec fn plist_version_spec(t: Seq<char>) -> Option<Seq<char>> {
    match first_at(t, 0, SHORT_VERSION_KEY@) {
        None => None,
        Some(k) => match first_at(t, k + SHORT_VERSION_KEY@.len(), "<string>"@) {
            None => None,
            Some(s0) => match first_at(t, s0 + "<string>"@.len(), "</string>"@) {
                None => None,
                Some(e) => Some(trim(t.subrange(s0 + "<string>"@.len(), e))),
            },
        },
    }
}

/// The short version string of an XML `Info.plist`'s text.
pub fn bundle_short_version_from_plist(text: &str) -> (r: Option<String>)
    ensures
        opt_view(r) == plist_version_spec(text@),
{
    let t = to_chars(text);
    let key = to_chars(SHORT_VERSION_KEY);
    let open_tag = to_chars("<string>");
    let close_tag = to_chars("</string>");
    let k = match find_first(&t, 0, &key) {
        Some(k) => k,
        None => return None,
    };
    if key.len() > t.len() - k {
        return None;
    }
    let s0 = match find_first(&t, k + key.len(), &open_tag) {
        Some(s0) => s0,
        None => return None,
    };
    if open_tag.len() > t.len() - s0 {
        return None;
    }
    let start = s0 + open_tag.len();
    let e = match find_first(&t, start, &close_tag) {
        Some(e) => e,
        None => return None,
    };
    let inner = crate::proxy::slice_chars(&t, start, e);
    let (a, b) = trim_bounds(&inner);
    Some(string_from_range(&inner, a, b))
}

/// What becomes of a notification the page asks for: nothing when the user
/// turned notifications off; otherwise it goes out, silent when the page
/// asked for silence or the user turned sounds off.
pub open spec fn request_silence_spec(enabled: bool, sound_enabled: bool, silent: bool) -> Option<
    bool,
> {
    if !enabled {
        None
    } else {
        Some(silent || !sound_enabled)
    }
}

/// Whether a page notification goes out, and whether silently.
pub fn notification_request_silence(enabled: bool, sound_enabled: bool, silent: bool) -> (r:
    Option<bool>)
    ensures
        r == request_silence_spec(enabled, sound_enabled, silent),
{
    if !enabled {
        None
    } else {
        Some(silent || !sound_enabled)
    }
}

/// A way of showing a native notification.
#[derive(Debug, Clone, Copy, PartialEq, Eq)]
pub enum NotificationSink {
    /// macOS `UNUserNotificationCenter` (with its development fallbacks).
    UserNotifications,
    /// Linux `notify-send`.
    NotifySend,
    /// The notification plugin of the app framework.
    FrameworkPlugin,
}

/// The sinks to try, in order, until one succeeds.
pub open spec fn sinks_spec(p: Platform) -> Seq<NotificationSink> {
    match p {
        Platform::MacOs => seq![NotificationSink::UserNotifications],
        Platform::Linux => seq![NotificationSink::NotifySend, NotificationSink::FrameworkPlugin],
        Platform::Windows => seq![NotificationSink::FrameworkPlugin],
    }
}

/// The notification sinks of a platform, in the order they are tried.
pub fn notification_sinks(p: Platform) -> (r: Vec<NotificationSink>)
    ensures
        r@ == sinks_spec(p),
{
    let r = match p {
        Platform::MacOs => vec![NotificationSink::UserNotifications],
        Platform::Linux => vec![NotificationSink::NotifySend, NotificationSink::FrameworkPlugin],
        Platform::Windows => vec![NotificationSink::FrameworkPlugin],
    };
    assert(r@ =~= sinks_spec(p));
    r
}

/// Whether an executable path lies inside a macOS app bundle.
pub fn is_app_bundle_path(exe_path: &str) -> (r: bool)
    ensures
        r == crate::text::contains_seq(exe_path@, ".app/Contents/MacOS"@),
{
    let v = to_chars(exe_path);
    let p = to_chars(".app/Contents/MacOS");
    crate::text::contains(&v, &p)
}

/// Why a notification is not handed to the development app bundle.
#[derive(Debug, Clone, Copy, PartialEq, Eq, Structural)]
pub enum DelegateRefusal {
    /// This process already runs inside an app bundle: delegating would recurse.
    AlreadyInBundle,
    /// No bundled binary sits next to the development build.
    BundleMissing,
    /// The bundled binary is this very executable.
    SameFile,
    /// The bundle's `Info.plist` has no readable short version.
    VersionUnreadable,
    /// The bundle was built from another version of the app.
    VersionMismatch,
}

/// The checks made before a development build hands a notification to its
/// bundled binary, in the order they are made.
pub open spec fn delegate_spec(
    in_bundle: bool,
    bundle_exists: bool,
    same_file: bool,
    bundle_version: Option<Seq<char>>,
    current_version: Seq<char>,
) -> Result<(), DelegateRefusal> {
    if in_bundle {
        Err(DelegateRefusal::AlreadyInBundle)
    } else if !bundle_exists {
        Err(DelegateRefusal::BundleMissing)
    } else if same_file {
        Err(DelegateRefusal::SameFile)
    } else {
        match bundle_version {
            None => Err(DelegateRefusal::VersionUnreadable),
            Some(v) => if v == current_version {
                Ok(())
            } else {
                Err(DelegateRefusal::VersionMismatch)
            },
        }
    }
}

/// Whether a development build may hand a notification to its bundled
/// binary: not from inside a bundle, only to an existing binary that is not
/// this executable, and only when the bundle's short version is readable and
/// equals `current_version`.
pub fn delegate_check(
    in_bundle: bool,
    bundle_exists: bool,
    same_file: bool,
    bundle_version: Option<&str>,
    current_version: &str,
) -> (r: Result<(), DelegateRefusal>)
    ensures
        r == delegate_spec(
            in_bundle,
            bundle_exists,
            same_file,
            match bundle_version {
                Some(v) => Some(v@),
                None => None,
            },
            current_version@,
        ),
{
    if in_bundle {
        return Err(DelegateRefusal::AlreadyInBundle);
    }
    if !bundle_exists {
        return Err(DelegateRefusal::BundleMissing);
    }
    if same_file {
        return Err(DelegateRefusal::SameFile);
    }
    match bundle_version {
        None => Err(DelegateRefusal::VersionUnreadable),
        Some(v) => if crate::text::str_eq(v, current_version) {
            Ok(())
        } else {
            Err(DelegateRefusal::VersionMismatch)
        },
    }
}

/// The arguments that make the bundled binary show one notification:
/// `--notify TITLE BODY silent|not-silent`.
pub fn helper_args(title: &str, body: &str, silent: bool) -> (r: Vec<String>)
    ensures
        strings_view(r@) == seq![
            "--notify"@,
            title@,
            body@,
            if silent {
                "silent"@
            } else {
                "not-silent"@
            },
        ],
{
    let mut v: Vec<String> = Vec::new();
    v.push("--notify".to_owned());
    v.push(title.to_owned());
    v.push(body.to_owned());
    if silent {
        v.push("silent".to_owned());
    } else {
        v.push("not-silent".to_owned());
    }
    assert(strings_view(v@) =~= seq![
        "--notify"@,
        title@,
        body@,
        if silent {
            "silent"@
        } else {
            "not-silent"@
        },
    ]);
    v
}

/// What the command line asks of a start of the binary.
#[derive(Debug, Clone, PartialEq, Eq)]
pub enum HelperCommand {
    /// Show one notification and exit.
    Notify { title: String, body: String, silent: bool },
    /// `--notify` without a title and a body: exit with an error.
    Malformed,
    /// Started as the notification helper but without `--notify`: exit with
    /// an error rather than start a second app.
    MissingNotify,
    /// Start the app.
    RunApp,
}

/// Model of [`HelperCommand`].
pub enum HelperCommandModel {
    Notify { title: Seq<char>, body: Seq<char>, silent: bool },
    Malformed,
    MissingNotify,
    RunApp,
}

impl View for HelperCommand {
    type V = HelperCommandModel;

    open spec fn view(&self) -> HelperCommandModel {
        match self {
            HelperCommand::Notify { title, body, silent } => HelperCommandModel::Notify {
                title: title@,
                body: body@,
                silent: *silent,
            },
            HelperCommand::Malformed => HelperCommandModel::Malformed,
            HelperCommand::MissingNotify => HelperCommandModel::MissingNotify,
            HelperCommand::RunApp => HelperCommandModel::RunApp,
        }
    }
}

/// An argument that macOS adds when it launches a bundle (`-psn_…`).
pub open spec fn is_psn_arg(a: Seq<char>) -> bool {
    crate::text::has_at(a, 0, "-psn_"@)
}

/// The arguments without those that macOS adds.
pub open spec fn helper_visible_args(args: Seq<Seq<char>>) -> Seq<Seq<char>>
    decreases args.len(),
{
    if args.len() == 0 {
        args
    } else if is_psn_arg(args.last()) {
        helper_visible_args(args.drop_last())
    } else {
        helper_visible_args(args.drop_last()).push(args.last())
    }
}

/// Index of the first `--notify`, if any.
pub open spec fn notify_position(args: Seq<Seq<char>>) -> Option<int> {
    if exists|i: int| 0 <= i < args.len() && args[i] == "--notify"@ {
        Some(
            choose|i: int|
                0 <= i < args.len() && args[i] == "--notify"@ && forall|k: int|
                    0 <= k < i ==> args[k] != "--notify"@,
        )
    } else {
        None
    }
}

/// The command of a start: after the first `--notify` (ignoring arguments
/// that macOS adds) come the title and body, then optionally `silent`; a
/// helper start without `--notify` must not start the app.
pub open spec fn helper_command_spec(args: Seq<Seq<char>>, helper_env: bool) -> HelperCommandModel {
    let a = helper_visible_args(args);
    match notify_position(a) {
        Some(p) => if a.len() <= p + 2 {
            HelperCommandModel::Malformed
        } else {
            HelperCommandModel::Notify {
                title: a[p + 1],
                body: a[p + 2],
                silent: p + 3 < a.len() && a[p + 3] == "silent"@,
            }
        },
        None => if helper_env {
            HelperCommandModel::MissingNotify
        } else {
            HelperCommandModel::RunApp
        },
    }
}

/// Reads the command line of a start (`args` without the program name is
/// not required: the program path never equals `--notify`).
pub fn notify_helper_command(args: &Vec<String>, helper_env: bool) -> (r: HelperCommand)
    ensures
        r@ == helper_command_spec(strings_view(args@), helper_env),
{
    let ghost av = strings_view(args@);
    let mut kept: Vec<String> = Vec::new();
    let mut i: usize = 0;
    while i < args.len()
        invariant
            av == strings_view(args@),
            av.len() == args@.len(),
            i <= args@.len(),
            strings_view(kept@) == helper_visible_args(av.take(i as int)),
        decreases args@.len() - i,
    {
        let ghost before = kept@;
        assert(av.take(i + 1).drop_last() =~= av.take(i as int));
        assert(av.take(i + 1).last() == args@[i as int]@);
        if !crate::text::starts_with(args[i].as_str(), "-psn_") {
            kept.push(args[i].clone());
            assert(strings_view(kept@) =~= strings_view(before).push(args@[i as int]@));
        }
        i += 1;
    }
    assert(av.take(i as int) =~= av);
    let ghost a = strings_view(kept@);
    assert(a == helper_visible_args(av));
    let mut j: usize = 0;
    while j < kept.len()
        invariant
            a == strings_view(kept@),
            av == strings_view(args@),
            a == helper_visible_args(av),
            a.len() == kept@.len(),
            j <= kept@.len(),
            forall|k: int| 0 <= k < j ==> a[k] != "--notify"@,
        decreases kept@.len() - j,
    {
        assert(a[j as int] == kept@[j as int]@);
        if crate::text::str_eq(kept[j].as_str(), "--notify") {
            assert(notify_position(a) == Some(j as int)) by {
                let c = choose|i: int|
                    0 <= i < a.len() && a[i] == "--notify"@ && forall|k: int|
                        0 <= k < i ==> a[k] != "--notify"@;
                if c < j {
                } else if c > j {
                }
            }
            if kept.len() - j <= 2 {
                return HelperCommand::Malformed;
            }
            assert(a[j + 1] == kept@[j + 1]@ && a[j + 2] == kept@[j + 2]@);
            let silent = kept.len() - j > 3 && crate::text::str_eq(kept[j + 3].as_str(), "silent");
            proof {
                if kept.len() - j > 3 {
                    assert(a[j + 3] == kept@[j + 3]@);
                }
            }
            return HelperCommand::Notify {
                title: kept[j + 1].clone(),
                body: kept[j + 2].clone(),
                silent,
            };
        }
        j += 1;
    }
    if helper_env {
        HelperCommand::MissingNotify
    } else {
        HelperCommand::RunApp
    }
}

} // verus!
