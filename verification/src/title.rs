//! Interpretation of the Messenger window title.
//!
//! Messenger sets the document title to `(N) …` for N unread messages.  The
//! injected page script additionally reports the sender of the newest message
//! through a sentinel title `__MX_SENDER_V1__?count=N&sender=NAME`.
use vstd::prelude::*;
use vstd::utf8::encode_utf8;
use crate::text::{
    before_first, contains, opt_view, contains_seq, first_index, has_at, index_of_char_from, is_blank, matches_at,
    parse_u32, parse_u32_spec, str_eq, string_from_range, to_chars, trim, trim_bounds, trim_start, utf8_len_at_most,
};

verus! {

/// Prefix of the sender-hint sentinel title.
pub const SENDER_HINT_PREFIX: &'static str = "__MX_SENDER_V1__?";

/// Longest accepted sender hint, in UTF-8 bytes.
pub const MAX_SENDER_HINT_BYTES: usize = 120;

/// What a title change means.
#[derive(Debug, Clone, PartialEq, Eq)]
pub enum TitleEvent {
    /// A sender hint for the given unread count.
    SenderHint { count: u32, sender: String },
    /// A sentinel title without a usable count and sender.
    MalformedHint,
    /// An ordinary title with its unread count.
    Unread { count: u32, is_typing_indicator: bool },
}

/// Model of [`TitleEvent`].
pub enum TitleEventModel {
    SenderHint { count: u32, sender: Seq<char> },
    MalformedHint,
    Unread { count: u32, is_typing_indicator: bool },
}

impl View for TitleEvent {
    type V = TitleEventModel;

    open spec fn view(&self) -> TitleEventModel {
        match self {
            TitleEvent::SenderHint { count, sender } => TitleEventModel::SenderHint {
                count: *count,
                sender: sender@,
            },
            TitleEvent::MalformedHint => TitleEventModel::MalformedHint,
            TitleEvent::Unread { count, is_typing_indicator } => TitleEventModel::Unread {
                count: *count,
                is_typing_indicator: *is_typing_indicator,
            },
        }
    }
}

/// The `(name, value)` pairs that `form_urlencoded::parse` yields for the
/// given bytes (percent-decoded, `+` read as a space).
pub uninterp spec fn form_urlencoded_pairs(input: Seq<u8>) -> Seq<(Seq<char>, Seq<char>)>;

/// Model of a list of string pairs.
pub open spec fn pairs_view(pairs: Seq<(String, String)>) -> Seq<(Seq<char>, Seq<char>)> {
    pairs.map_values(|p: (String, String)| (p.0@, p.1@))
}

/// `url::form_urlencoded::parse`: splits an `application/x-www-form-urlencoded`
/// byte string into decoded `(name, value)` pairs.  The contract names the
/// result without describing the decoding.
#[verifier::external_body]
pub(crate) fn parse_form_urlencoded(input: &[u8]) -> (r: Vec<(String, String)>)
    ensures
        pairs_view(r@) == form_urlencoded_pairs(input@),
{
    url::form_urlencoded::parse(input).map(|(k, v)| (k.into_owned(), v.into_owned())).collect()
}

/// The unread count in a title: the number in a leading `(N)` (after leading
/// whitespace), or zero when there is none or it does not parse.
pub open spec fn unread_count_spec(t: Seq<char>) -> u32 {
    let ts = trim_start(t);
    if ts.len() > 0 && ts[0] == '(' {
        let rest = ts.skip(1);
        if exists|i: int| 0 <= i < rest.len() && rest[i] == ')' {
            match parse_u32_spec(before_first(rest, ')')) {
                Some(n) => n,
                None => 0,
            }
        } else {
            0
        }
    } else {
        0
    }
}

/// A typing-indicator title: no unread count, not blank, not the plain
/// `Messenger`, no `(N)` prefix and no ` | Messenger` conversation suffix.
pub open spec fn typing_indicator_spec(t: Seq<char>, count: u32) -> bool {
    let ts = trim_start(t);
    count == 0 && !is_blank(t) && trim(t) != "Messenger"@ && !(ts.len() > 0 && ts[0] == '(')
        && !contains_seq(t, " | Messenger"@)
}

/// Count and sender read from the sentinel's pairs, left to right: every
/// `count` pair sets the count (to nothing when it does not parse); a
/// `sender` pair sets the sender to its trimmed value when that is non-empty
/// and at most `MAX_SENDER_HINT_BYTES` long.
pub open spec fn hint_fold(pairs: Seq<(Seq<char>, Seq<char>)>) -> (Option<u32>, Option<Seq<char>>)
    decreases pairs.len(),
{
    if pairs.len() == 0 {
        (None, None)
    } else {
        hint_step(hint_fold(pairs.drop_last()), pairs.last().0, pairs.last().1)
    }
}

/// One pair's effect on the count and sender read so far.
pub open spec fn hint_step(acc: (Option<u32>, Option<Seq<char>>), k: Seq<char>, v: Seq<char>) -> (
    Option<u32>,
    Option<Seq<char>>,
) {
    if k == "count"@ {
        (parse_u32_spec(v), acc.1)
    } else if k == "sender"@ {
        let t = trim(v);
        if t.len() > 0 && encode_utf8(t).len() <= MAX_SENDER_HINT_BYTES {
            (acc.0, Some(t))
        } else {
            acc
        }
    } else {
        acc
    }
}

/// The sender hint carried by the sentinel's pairs, when both parts are there.
pub open spec fn hint_spec(pairs: Seq<(Seq<char>, Seq<char>)>) -> Option<(u32, Seq<char>)> {
    match hint_fold(pairs) {
        (Some(c), Some(s)) => Some((c, s)),
        _ => None,
    }
}

/// Model of an optional hint.
pub open spec fn opt_hint_view(r: Option<(u32, String)>) -> Option<(u32, Seq<char>)> {
    match r {
        Some((c, s)) => Some((c, s@)),
        None => None,
    }
}

/// Reads the sender hint out of the sentinel's decoded pairs.
pub fn sender_hint_from_pairs(pairs: &Vec<(String, String)>) -> (r: Option<(u32, String)>)
    ensures
        opt_hint_view(r) == hint_spec(pairs_view(pairs@)),
{
    let mut count_hint: Option<u32> = None;
    let mut sender_hint: Option<String> = None;
    let mut i: usize = 0;
    while i < pairs.len()
        invariant
            i <= pairs@.len(),
            hint_fold(pairs_view(pairs@.take(i as int))) == (count_hint, opt_view(sender_hint)),
        decreases pairs@.len() - i,
    {
        let key = pairs[i].0.as_str();
        let value = pairs[i].1.as_str();
        let ghost prev = (count_hint, opt_view(sender_hint));
        assert(pairs_view(pairs@.take(i + 1)).drop_last() =~= pairs_view(pairs@.take(i as int)));
        assert(pairs_view(pairs@.take(i + 1)).last() == (pairs@[i as int].0@, pairs@[i as int].1@));
        assert(hint_fold(pairs_view(pairs@.take(i + 1))) == hint_step(prev, key@, value@));
        if str_eq(key, "count") {
            let v = to_chars(value);
            count_hint = parse_u32(&v, 0, v.len());
            assert(v@.subrange(0, v@.len() as int) =~= v@);
        } else if str_eq(key, "sender") {
            let v = to_chars(value);
            let (a, b) = trim_bounds(&v);
            let t = string_from_range(&v, a, b);
            if a < b && utf8_len_at_most(&v, a, b, MAX_SENDER_HINT_BYTES) {
                sender_hint = Some(t);
            }
        }
        i += 1;
    }
    assert(pairs@.take(pairs@.len() as int) =~= pairs@);
    match (count_hint, sender_hint) {
        (Some(c), Some(s)) => Some((c, s)),
        _ => None,
    }
}

/// The meaning of a title.
pub open spec fn title_event_spec(t: Seq<char>) -> TitleEventModel {
    if has_at(t, 0, SENDER_HINT_PREFIX@) {
        match hint_spec(
            form_urlencoded_pairs(encode_utf8(t.skip(SENDER_HINT_PREFIX@.len() as int))),
        ) {
            Some((count, sender)) => TitleEventModel::SenderHint { count, sender },
            None => TitleEventModel::MalformedHint,
        }
    } else {
        let count = unread_count_spec(t);
        TitleEventModel::Unread { count, is_typing_indicator: typing_indicator_spec(t, count) }
    }
}

/// The unread count of a title.
pub fn unread_count_from_title(v: &Vec<char>) -> (r: u32)
    ensures
        r == unread_count_spec(v@),
{
    let (a, _b) = trim_bounds(v);
    if a < v.len() && v[a] == '(' {
        let ghost ts = trim_start(v@);
        let ghost rest = ts.skip(1);
        assert(rest =~= v@.skip(a + 1));
        let r = index_of_char_from(v, a + 1, ')');
        let j = a + 1 + r;
        if j == v.len() {
            proof {
                reveal(first_index);
            }
            assert(!(exists|i: int| 0 <= i < rest.len() && rest[i] == ')')) by {
                assert forall|i: int| 0 <= i < rest.len() implies rest[i] != ')' by {
                    assert(rest[i] == v@[a + 1 + i]);
                }
            }
            return 0;
        }
        assert(rest[r as int] == ')');
        assert(v@.subrange(a + 1, j as int) =~= before_first(rest, ')'));
        match parse_u32(v, a + 1, j) {
            Some(n) => n,
            None => 0,
        }
    } else {
        0
    }
}

/// Classifies a title change.
pub fn classify_title(title: &str) -> (r: TitleEvent)
    ensures
        r@ == title_event_spec(title@),
{
    let v = to_chars(title);
    let prefix = to_chars(SENDER_HINT_PREFIX);
    if matches_at(&v, 0, &prefix) {
        let query = title.substring_char(prefix.len(), v.len());
        let pairs = parse_form_urlencoded(query.as_bytes());
        assert(query@ =~= title@.skip(SENDER_HINT_PREFIX@.len() as int));
        match sender_hint_from_pairs(&pairs) {
            Some((count, sender)) => TitleEvent::SenderHint { count, sender },
            None => TitleEvent::MalformedHint,
        }
    } else {
        let count = unread_count_from_title(&v);
        let (a, b) = trim_bounds(&v);
        let trimmed = string_from_range(&v, a, b);
        let suffix = to_chars(" | Messenger");
        let is_typing_indicator = count == 0 && a < b && !str_eq(trimmed.as_str(), "Messenger")
            && !(a < v.len() && v[a] == '(') && !contains(&v, &suffix);
        TitleEvent::Unread { count, is_typing_indicator }
    }
}

} // verus!
