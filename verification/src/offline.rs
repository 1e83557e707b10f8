//! What the window shows when the app starts offline: the newest snapshot
//! with an offline banner, or a note on the loading page, and a timer that
//! returns to Messenger once it is reachable again.
use vstd::prelude::*;

verus! {

/// How one character is written inside a JSON string: quote and backslash
/// escaped, the control characters below U+0020 as `\b`, `\t`, `\n`,
/// `\f`, `\r` or `\u00XX` (lower-case hex), everything else as it is.
pub open spec fn json_char(c: char) -> Seq<char> {
    let u = c as u32;
    if c == '"' {
        seq!['\\', '"']
    } else if c == '\\' {
        seq!['\\', '\\']
    } else if u == 8 {
        seq!['\\', 'b']
    } else if u == 9 {
        seq!['\\', 't']
    } else if u == 10 {
        seq!['\\', 'n']
    } else if u == 12 {
        seq!['\\', 'f']
    } else if u == 13 {
        seq!['\\', 'r']
    } else if u < 0x20 {
        seq!['\\', 'u', '0', '0', hex_lower(u / 16), hex_lower(u % 16)]
    } else {
        seq![c]
    }
}

/// A lower-case hexadecimal digit.
pub open spec fn hex_lower(d: u32) -> char {
    if d < 10 {
        ((48 + d) as u8) as char
    } else {
        ((87 + d) as u8) as char
    }
}

/// The escaped characters of `s`.
pub open spec fn json_body(s: Seq<char>) -> Seq<char>
    decreases s.len(),
{
    if s.len() == 0 {
        Seq::empty()
    } else {
        json_body(s.drop_last()) + json_char(s.last())
    }
}

/// A JSON string literal for `s`.
pub open spec fn json_quote(s: Seq<char>) -> Seq<char> {
    seq!['"'] + json_body(s) + seq!['"']
}

/// `serde_json::to_string` of a string: the JSON string literal, written as
/// serde_json's serializer escapes (its `ESCAPE` table).  Serializing a
/// string cannot fail; the empty string stands in for the impossible error.
#[verifier::external_body]
fn json_string(s: &str) -> (r: String)
    ensures
        r@ == json_quote(s@),
{
    serde_json::to_string(s).unwrap_or_default()
}

/// Offline page with a snapshot, up to the snapshot's HTML.
pub const SNAPSHOT_PAGE_HEAD: &'static str = r##"(function(){
    document.open();
    document.write("##;

/// Offline page with a snapshot, between the HTML and the banner text.
pub const SNAPSHOT_PAGE_MID: &'static str = r##");
    document.close();
    var b=document.createElement('div');
    b.id='__messenger_offline_banner__';
    b.style.cssText='display:block;position:fixed;top:0;left:0;right:0;z-index:999999;background:#f0ad4e;color:#fff;text-align:center;padding:8px 16px;font-size:13px;font-weight:500;font-family:-apple-system,BlinkMacSystemFont,Segoe UI,Roboto,sans-serif;';
    b.textContent='"##;

/// Offline page with a snapshot, after the banner text.
pub const SNAPSHOT_PAGE_TAIL: &'static str = r##"';
    if(document.body)document.body.prepend(b);
})()"##;

/// Loading page note, up to the note's text.
pub const LOADING_NOTE_HEAD: &'static str = r##"if(document.querySelector('.loading p')){document.querySelector('.loading p').textContent="##;

/// Loading page note, after the note's text.
pub const LOADING_NOTE_TAIL: &'static str = r##";}"##;

/// Every fifteen seconds, try to load a Facebook CDN image and return to
/// Messenger once it loads.
pub const RECONNECT_SCRIPT: &'static str = r##"(function(){
    setInterval(function(){
        var img=new Image();
        img.onload=function(){window.location.href='https://www.messenger.com';};
        img.onerror=function(){};
        img.src='https://static.xx.fbcdn.net/rsrc.php/v4/yJ/r/bWHaFYtfBCe.png?'+Date.now();
    },15000);
})()"##;

/// Replaces the page with the snapshot's HTML (as a JSON string) and shows
/// the offline banner with `banner_text` (inserted as it is).
pub fn offline_snapshot_script(html: &str, banner_text: &str) -> (r: String)
    ensures
        r@ == SNAPSHOT_PAGE_HEAD@ + json_quote(html@) + SNAPSHOT_PAGE_MID@ + banner_text@
            + SNAPSHOT_PAGE_TAIL@,
{
    let h = json_string(html);
    let mut s = SNAPSHOT_PAGE_HEAD.to_owned();
    s.append(h.as_str());
    s.append(SNAPSHOT_PAGE_MID);
    s.append(banner_text);
    s.append(SNAPSHOT_PAGE_TAIL);
    s
}

/// Puts `text` (as a JSON string) into the loading page's note.
pub fn offline_loading_note_script(text: &str) -> (r: String)
    ensures
        r@ == LOADING_NOTE_HEAD@ + json_quote(text@) + LOADING_NOTE_TAIL@,
{
    let t = json_string(text);
    let mut s = LOADING_NOTE_HEAD.to_owned();
    s.append(t.as_str());
    s.append(LOADING_NOTE_TAIL);
    s
}

} // verus!
