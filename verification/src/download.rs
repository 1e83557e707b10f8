//! File names for downloads saved into the Downloads directory.
use vstd::prelude::*;
use crate::text::{decimal_digits, has_at, push_char, push_decimal, starts_with, str_eq, to_chars};

verus! {

/// The name used when nothing better is known.
pub const DEFAULT_DOWNLOAD_NAME: &'static str = "download";

/// The characters of `s` after its last `c` (all of `s` when there is none).
pub open spec fn after_last(s: Seq<char>, c: char) -> Seq<char>
    decreases s.len(),
{
    if s.len() == 0 {
        s
    } else if s.last() == c {
        Seq::empty()
    } else {
        after_last(s.drop_last(), c).push(s.last())
    }
}

/// Index of the last `c` in `s`, or -1.
pub open spec fn last_index(s: Seq<char>, c: char) -> int
    decreases s.len(),
{
    if s.len() == 0 {
        -1
    } else if s.last() == c {
        s.len() - 1
    } else {
        last_index(s.drop_last(), c)
    }
}

/// The name taken from a URL path: its last `/`-separated segment when the
/// path starts with `/` and that segment is not empty, else `download`.
pub open spec fn fallback_name_spec(path: Seq<char>) -> Seq<char> {
    if has_at(path, 0, "/"@) && after_last(path, '/').len() > 0 {
        after_last(path, '/')
    } else {
        DEFAULT_DOWNLOAD_NAME@
    }
}

/// The name a download is saved under: the name the web view suggests,
/// unless it is empty or the generic `download`, else the name from the URL.
pub open spec fn base_name_spec(suggested: Option<Seq<char>>, url_path: Seq<char>) -> Seq<char> {
    match suggested {
        Some(n) => if n.len() > 0 && n != DEFAULT_DOWNLOAD_NAME@ {
            n
        } else {
            fallback_name_spec(url_path)
        },
        None => fallback_name_spec(url_path),
    }
}

/// The characters after the last `c` in `v`.
fn chars_after_last(v: &Vec<char>, c: char) -> (r: String)
    ensures
        r@ == after_last(v@, c),
{
    let mut cur = String::new();
    let mut i: usize = 0;
    while i < v.len()
        invariant
            i <= v@.len(),
            cur@ == after_last(v@.take(i as int), c),
        decreases v@.len() - i,
    {
        assert(v@.take(i + 1).drop_last() =~= v@.take(i as int));
        assert(v@.take(i + 1).last() == v@[i as int]);
        if v[i] == c {
            cur = String::new();
        } else {
            push_char(&mut cur, v[i]);
        }
        i += 1;
    }
    assert(v@.take(i as int) =~= v@);
    cur
}

/// The name a download of a URL with this path falls back to.
pub fn download_fallback_name(url_path: &str) -> (r: String)
    ensures
        r@ == fallback_name_spec(url_path@),
{
    if starts_with(url_path, "/") {
        let v = to_chars(url_path);
        let seg = chars_after_last(&v, '/');
        if seg.unicode_len() > 0 {
            return seg;
        }
    }
    DEFAULT_DOWNLOAD_NAME.to_owned()
}

/// The name a download is saved under.
pub fn download_base_name(suggested: Option<&str>, url_path: &str) -> (r: String)
    ensures
        r@ == base_name_spec(
            match suggested {
                Some(s) => Some(s@),
                None => None,
            },
            url_path@,
        ),
{
    match suggested {
        Some(n) => {
            if n.unicode_len() > 0 && !str_eq(n, DEFAULT_DOWNLOAD_NAME) {
                n.to_owned()
            } else {
                download_fallback_name(url_path)
            }
        },
        None => download_fallback_name(url_path),
    }
}

/// The name tried at the `attempt`-th try: the name itself at first, then
/// `STEM (N)EXT`, where `EXT` starts at the last `.` of the name (empty when
/// there is none).
pub open spec fn candidate_spec(base: Seq<char>, attempt: u32) -> Seq<char> {
    if attempt < 2 {
        base
    } else {
        let k = last_index(base, '.');
        let (stem, ext) = if k >= 0 {
            (base.take(k), base.skip(k))
        } else {
            (base, Seq::empty())
        };
        stem + " ("@ + decimal_digits(attempt as nat) + ")"@ + ext
    }
}

/// Index of the last `c` in `v`, or `v.len()` when there is none.
fn last_index_of(v: &Vec<char>, c: char) -> (r: usize)
    ensures
        last_index(v@, c) >= 0 ==> r == last_index(v@, c),
        last_index(v@, c) < 0 ==> r == v@.len(),
        r <= v@.len(),
{
    let mut found: usize = v.len();
    let mut i: usize = 0;
    while i < v.len()
        invariant
            i <= v@.len(),
            found <= v@.len(),
            last_index(v@.take(i as int), c) >= 0 ==> found == last_index(v@.take(i as int), c),
            last_index(v@.take(i as int), c) < 0 ==> found == v@.len(),
        decreases v@.len() - i,
    {
        assert(v@.take(i + 1).drop_last() =~= v@.take(i as int));
        assert(v@.take(i + 1).last() == v@[i as int]);
        if v[i] == c {
            found = i;
        }
        i += 1;
    }
    assert(v@.take(i as int) =~= v@);
    found
}

/// The file name for the `attempt`-th try of saving under `base`; the caller
/// counts attempts from 2 while the name is taken.
pub fn download_candidate_name(base: &str, attempt: u32) -> (r: String)
    ensures
        r@ == candidate_spec(base@, attempt),
{
    if attempt < 2 {
        return base.to_owned();
    }
    let v = to_chars(base);
    let k = last_index_of(&v, '.');
    let mut s = crate::text::string_from_range(&v, 0, k);
    s.append(" (");
    push_decimal(&mut s, attempt);
    s.append(")");
    let ext = crate::text::string_from_range(&v, k, v.len());
    s.append(ext.as_str());
    proof {
        if last_index(v@, '.') < 0 {
            assert(v@.subrange(0, v@.len() as int) =~= v@);
            assert(v@.subrange(v@.len() as int, v@.len() as int) =~= Seq::<char>::empty());
        } else {
            assert(v@.subrange(0, k as int) =~= v@.take(k as int));
            assert(v@.subrange(k as int, v@.len() as int) =~= v@.skip(k as int));
        }
    }
    s
}

/// The body of the notification for a finished download.
pub fn download_saved_body(file_name: &str) -> (r: String)
    ensures
        r@ == "Saved to Downloads — "@ + file_name@,
{
    let mut s = "Saved to Downloads — ".to_owned();
    s.append(file_name);
    s
}

/// Numbered names for different attempts differ, so the search for a free
/// name never retries a name it already tried.
pub proof fn lemma_numbered_names_differ(base: Seq<char>, a: u32, b: u32)
    requires
        2 <= a,
        2 <= b,
        a != b,
    ensures
        candidate_spec(base, a) != candidate_spec(base, b),
{
    let k = last_index(base, '.');
    let (stem, ext) = if k >= 0 {
        (base.take(k), base.skip(k))
    } else {
        (base, Seq::<char>::empty())
    };
    let p = stem + " ("@;
    let da = decimal_digits(a as nat);
    let db = decimal_digits(b as nat);
    let x = p + da + ")"@ + ext;
    let y = p + db + ")"@ + ext;
    assert(candidate_spec(base, a) == x);
    assert(candidate_spec(base, b) == y);
    if x == y {
        assert(da.len() == db.len());
        assert(x.skip(p.len() as int).take(da.len() as int) =~= da);
        assert(y.skip(p.len() as int).take(db.len() as int) =~= db);
        crate::text::lemma_decimal_digits_injective(a as nat, b as nat);
    }
}

} // verus!
