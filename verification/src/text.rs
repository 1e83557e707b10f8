//! Character-level helpers over `str`, `String` and `Vec<char>`.
use vstd::prelude::*;
use vstd::utf8::{encode_scalar, encode_utf8};

verus! {

/// Model of a list of strings.
pub open spec fn strings_view(v: Seq<String>) -> Seq<Seq<char>> {
    v.map_values(|s: String| s@)
}

/// Model of an optional string.
pub open spec fn opt_view(o: Option<String>) -> Option<Seq<char>> {
    match o {
        Some(s) => Some(s@),
        None => None,
    }
}

/// `String::push` from std: appends one character.
#[verifier::external_body]
pub(crate) fn push_char(s: &mut String, c: char)
    ensures
        final(s)@ == old(s)@.push(c),
{
    s.push(c);
}

/// The characters of `s`, in order.
pub fn to_chars(s: &str) -> (v: Vec<char>)
    ensures
        v@ == s@,
{
    let n = s.unicode_len();
    let mut v: Vec<char> = Vec::new();
    let mut i: usize = 0;
    while i < n
        invariant
            n == s@.len(),
            i <= n,
            v@ == s@.subrange(0, i as int),
        decreases n - i,
    {
        v.push(s.get_char(i));
        i += 1;
    }
    v
}

/// A `String` holding the characters `v[from..to]`.
pub fn string_from_range(v: &Vec<char>, from: usize, to: usize) -> (s: String)
    requires
        from <= to <= v@.len(),
    ensures
        s@ == v@.subrange(from as int, to as int),
{
    let mut s = String::new();
    let mut i = from;
    while i < to
        invariant
            from <= i <= to,
            to <= v@.len(),
            s@ == v@.subrange(from as int, i as int),
        decreases to - i,
    {
        push_char(&mut s, v[i]);
        i += 1;
    }
    s
}

/// A `String` holding the characters of `v`.
pub fn string_from_chars(v: &Vec<char>) -> (s: String)
    ensures
        s@ == v@,
{
    string_from_range(v, 0, v.len())
}

/// Whether two strings hold the same characters.
pub fn str_eq(a: &str, b: &str) -> (r: bool)
    ensures
        r == (a@ == b@),
{
    let n = a.unicode_len();
    if n != b.unicode_len() {
        return false;
    }
    let mut i: usize = 0;
    while i < n
        invariant
            n == a@.len(),
            n == b@.len(),
            i <= n,
            a@.subrange(0, i as int) == b@.subrange(0, i as int),
        decreases n - i,
    {
        if a.get_char(i) != b.get_char(i) {
            assert(a@[i as int] != b@[i as int]);
            return false;
        }
        assert(a@.subrange(0, i + 1) == a@.subrange(0, i as int).push(a@[i as int]));
        assert(b@.subrange(0, i + 1) == b@.subrange(0, i as int).push(b@[i as int]));
        i += 1;
    }
    assert(a@ == a@.subrange(0, n as int));
    assert(b@ == b@.subrange(0, n as int));
    true
}

/// Whether `v[at..]` starts with `p`.
pub open spec fn has_at(v: Seq<char>, at: int, p: Seq<char>) -> bool {
    0 <= at && at + p.len() <= v.len() && v.subrange(at, at + p.len()) == p
}

/// Whether `v[at..]` starts with the characters of `p`.
pub fn matches_at(v: &Vec<char>, at: usize, p: &Vec<char>) -> (r: bool)
    ensures
        r == has_at(v@, at as int, p@),
{
    if at > v.len() || p.len() > v.len() - at {
        return false;
    }
    let mut j: usize = 0;
    while j < p.len()
        invariant
            at + p.len() <= v.len(),
            j <= p@.len(),
            v@.subrange(at as int, at + j) == p@.subrange(0, j as int),
        decreases p@.len() - j,
    {
        if v[at + j] != p[j] {
            assert(v@.subrange(at as int, at + p@.len())[j as int] != p@[j as int]);
            return false;
        }
        assert(v@.subrange(at as int, at + j + 1) == v@.subrange(at as int, at + j).push(
            v@[at + j],
        ));
        assert(p@.subrange(0, j + 1) == p@.subrange(0, j as int).push(p@[j as int]));
        j += 1;
    }
    assert(p@.subrange(0, p@.len() as int) == p@);
    true
}

/// The first position at or after `from` where `p` occurs in `v`.
#[verifier::opaque]
pub open spec fn first_at(v: Seq<char>, from: int, p: Seq<char>) -> Option<int> {
    if exists|i: int| from <= i && #[trigger] has_at(v, i, p) {
        Some(choose|i: int| from <= i && #[trigger] has_at(v, i, p) && forall|k: int| from <= k < i ==> !has_at(v, k, p))
    } else {
        None
    }
}

/// Position of the first occurrence of `p` in `v` at or after `from`.
pub fn find_from(v: &Vec<char>, from: usize, p: &Vec<char>) -> (r: Option<usize>)
    ensures
        match r {
            Some(i) => from <= i && has_at(v@, i as int, p@) && forall|k: int|
                from <= k < i ==> !#[trigger] has_at(v@, k, p@),
            None => forall|k: int| from <= k ==> !#[trigger] has_at(v@, k, p@),
        },
{
    if from > v.len() {
        assert forall|k: int| from <= k implies !#[trigger] has_at(v@, k, p@) by {
            assert(!(k + p@.len() <= v@.len()));
        }
        return None;
    }
    let mut i = from;
    loop
        invariant
            from <= i <= v@.len(),
            forall|k: int| from <= k < i ==> !#[trigger] has_at(v@, k, p@),
        decreases v@.len() - i,
    {
        if matches_at(v, i, p) {
            return Some(i);
        }
        if i == v.len() {
            assert forall|k: int| from <= k implies !#[trigger] has_at(v@, k, p@) by {
                if k > v@.len() {
                    assert(!(k + p@.len() <= v@.len()));
                }
            }
            return None;
        }
        i += 1;
    }
}

/// Index of the first occurrence of `c` in `s`, or `s.len()` when absent.
#[verifier::opaque]
pub open spec fn first_index(s: Seq<char>, c: char) -> int {
    if exists|i: int| 0 <= i < s.len() && s[i] == c {
        choose|i: int| 0 <= i < s.len() && s[i] == c && forall|k: int| 0 <= k < i ==> s[k] != c
    } else {
        s.len() as int
    }
}

/// The characters of `s` before the first `c` (all of `s` when `c` is absent),
/// as `str::split(c).next()` yields them.
pub open spec fn before_first(s: Seq<char>, c: char) -> Seq<char> {
    s.take(first_index(s, c))
}

/// Index of the first `c` in `v[from..]`, counted from `from`, or
/// `v.len() - from` when absent.
pub fn index_of_char_from(v: &Vec<char>, from: usize, c: char) -> (r: usize)
    requires
        from <= v@.len(),
    ensures
        r as int == first_index(v@.skip(from as int), c),
        from + r <= v@.len(),
        forall|k: int| from <= k < from + r ==> v@[k] != c,
        from + r < v@.len() ==> v@[from + r] == c,
{
    let ghost s = v@.skip(from as int);
    let mut i: usize = from;
    while i < v.len()
        invariant
            from <= i <= v@.len(),
            s == v@.skip(from as int),
            forall|k: int| from <= k < i ==> v@[k] != c,
        decreases v@.len() - i,
    {
        if v[i] == c {
            reveal(first_index);
            let ghost j = first_index(s, c);
            let ghost m = i - from;
            assert(s[m] == c);
            assert(forall|k: int| 0 <= k < m ==> s[k] == v@[from + k]);
            assert(0 <= m < s.len() && s[m] == c && forall|k: int| 0 <= k < m ==> s[k] != c);
            assert(j == m) by {
                if j < m {
                    assert(s[j] == v@[from + j]);
                } else if j > m {
                    assert(s[m] != c);
                }
            }
            return i - from;
        }
        i += 1;
    }
    proof {
        reveal(first_index);
        assert forall|k: int| 0 <= k < s.len() implies s[k] != c by {
            assert(s[k] == v@[from + k]);
        }
    }
    i - from
}

/// Index of the first `c` in `v`, or its length when absent.
pub fn index_of_char(v: &Vec<char>, c: char) -> (r: usize)
    ensures
        r as int == first_index(v@, c),
        r <= v@.len(),
        forall|k: int| 0 <= k < r ==> v@[k] != c,
        r < v@.len() ==> v@[r as int] == c,
{
    let r = index_of_char_from(v, 0, c);
    assert(v@.skip(0) =~= v@);
    r
}

/// Unicode `White_Space`, as `char::is_whitespace` documents it.
pub open spec fn is_ws(c: char) -> bool {
    let u = c as u32;
    (0x9 <= u && u <= 0xd) || u == 0x20 || u == 0x85 || u == 0xa0 || u == 0x1680 || (0x2000 <= u
        && u <= 0x200a) || u == 0x2028 || u == 0x2029 || u == 0x202f || u == 0x205f || u == 0x3000
}

/// `char::is_whitespace`.
pub fn is_whitespace(c: char) -> (r: bool)
    ensures
        r == is_ws(c),
{
    let u = c as u32;
    (0x9 <= u && u <= 0xd) || u == 0x20 || u == 0x85 || u == 0xa0 || u == 0x1680 || (0x2000 <= u
        && u <= 0x200a) || u == 0x2028 || u == 0x2029 || u == 0x202f || u == 0x205f || u == 0x3000
}

/// Whether `s` holds only whitespace (so that `trim` leaves it empty).
pub open spec fn is_blank(s: Seq<char>) -> bool {
    forall|i: int| 0 <= i < s.len() ==> is_ws(s[i])
}

/// Number of leading whitespace characters of `s`.
#[verifier::opaque]
pub open spec fn lead_ws(s: Seq<char>) -> int {
    if exists|i: int| 0 <= i < s.len() && !is_ws(s[i]) {
        choose|i: int| 0 <= i < s.len() && !is_ws(s[i]) && forall|k: int| 0 <= k < i ==> is_ws(s[k])
    } else {
        s.len() as int
    }
}

/// Length of `s` without its trailing whitespace.
#[verifier::opaque]
pub open spec fn end_non_ws(s: Seq<char>) -> int {
    if exists|i: int| 0 <= i < s.len() && !is_ws(s[i]) {
        1 + choose|i: int| 0 <= i < s.len() && !is_ws(s[i]) && forall|k: int| i < k < s.len() ==> is_ws(s[k])
    } else {
        0
    }
}

/// `str::trim_start`.
pub open spec fn trim_start(s: Seq<char>) -> Seq<char> {
    s.skip(lead_ws(s))
}

/// `str::trim`.
pub open spec fn trim(s: Seq<char>) -> Seq<char> {
    if is_blank(s) {
        Seq::empty()
    } else {
        s.subrange(lead_ws(s), end_non_ws(s))
    }
}

/// The bounds of `trim`: the characters `v[start..end]` are `trim(v)`, and
/// `v[start..]` is `trim_start(v)`.
pub fn trim_bounds(v: &Vec<char>) -> (r: (usize, usize))
    ensures
        r.0 as int == lead_ws(v@),
        r.0 <= r.1 <= v@.len(),
        v@.subrange(r.0 as int, r.1 as int) == trim(v@),
        v@.skip(r.0 as int) == trim_start(v@),
        (r.0 == r.1) == is_blank(v@),
{
    reveal(lead_ws);
    reveal(end_non_ws);
    let n = v.len();
    let mut i: usize = 0;
    while i < n && is_whitespace(v[i])
        invariant
            n == v@.len(),
            i <= n,
            forall|k: int| 0 <= k < i ==> is_ws(v@[k]),
        decreases n - i,
    {
        i += 1;
    }
    if i == n {
        assert(is_blank(v@));
        assert(lead_ws(v@) == n);
        assert(v@.subrange(n as int, n as int) =~= Seq::<char>::empty());
        return (n, n);
    }
    assert(!is_ws(v@[i as int]));
    let ghost first = lead_ws(v@);
    assert(first == i) by {
        if first < i {
            assert(is_ws(v@[first]));
        } else if first > i {
            assert(is_ws(v@[i as int]));
        }
    }
    let mut j: usize = n;
    while j > i && is_whitespace(v[j - 1])
        invariant
            i < n == v@.len(),
            i <= j <= n,
            !is_ws(v@[i as int]),
            forall|k: int| j <= k < n ==> is_ws(v@[k]),
        decreases j,
    {
        j -= 1;
    }
    assert(j > i);
    assert(!is_ws(v@[j - 1]));
    let ghost last = end_non_ws(v@);
    assert(last == j) by {
        let c = last - 1;
        assert(0 <= c < n && !is_ws(v@[c]));
        if c < j - 1 {
            assert(is_ws(v@[j - 1]));
        } else if c > j - 1 {
            assert(is_ws(v@[c]));
        }
    }
    (i, j)
}

/// Whether `s` contains `p` somewhere.
pub open spec fn contains_seq(s: Seq<char>, p: Seq<char>) -> bool {
    exists|i: int| #[trigger] has_at(s, i, p)
}

/// Whether the characters of `v` contain those of `p`.
pub fn contains(v: &Vec<char>, p: &Vec<char>) -> (r: bool)
    ensures
        r == contains_seq(v@, p@),
{
    match find_from(v, 0, p) {
        Some(i) => true,
        None => {
            assert forall|k: int| !#[trigger] has_at(v@, k, p@) by {
                if k < 0 {
                } else {
                    assert(0 <= k);
                }
            }
            false
        },
    }
}

/// Whether `c` is an ASCII decimal digit.
pub open spec fn is_digit(c: char) -> bool {
    '0' <= c && c <= '9'
}

/// Value of an ASCII decimal digit.
pub open spec fn digit_value(c: char) -> nat {
    ((c as u32) - ('0' as u32)) as nat
}

/// Value of a string of decimal digits.
pub open spec fn decimal_value(s: Seq<char>) -> nat
    decreases s.len(),
{
    if s.len() == 0 {
        0
    } else {
        decimal_value(s.drop_last()) * 10 + digit_value(s.last())
    }
}

/// Whether every character of `s` is a decimal digit.
pub open spec fn all_digits(s: Seq<char>) -> bool {
    forall|i: int| 0 <= i < s.len() ==> is_digit(s[i])
}

/// `str::parse::<u32>`: an optional `+` followed by at least one decimal
/// digit, with a value that fits in `u32`.
pub open spec fn parse_u32_spec(s: Seq<char>) -> Option<u32> {
    let d = if s.len() > 0 && s[0] == '+' {
        s.skip(1)
    } else {
        s
    };
    if d.len() > 0 && all_digits(d) && decimal_value(d) <= u32::MAX {
        Some(decimal_value(d) as u32)
    } else {
        None
    }
}

/// The value of a digit string is at least that of each of its prefixes.
pub proof fn lemma_decimal_value_prefix(s: Seq<char>, k: int)
    requires
        0 <= k <= s.len(),
        all_digits(s),
    ensures
        decimal_value(s.take(k)) <= decimal_value(s),
    decreases s.len() - k,
{
    if k < s.len() {
        lemma_decimal_value_prefix(s, k + 1);
        assert(s.take(k + 1).drop_last() =~= s.take(k));
    } else {
        assert(s.take(k) =~= s);
    }
}

/// `str::parse::<u32>` over the characters `v[from..to]`.
pub fn parse_u32(v: &Vec<char>, from: usize, to: usize) -> (r: Option<u32>)
    requires
        from <= to <= v@.len(),
    ensures
        r == parse_u32_spec(v@.subrange(from as int, to as int)),
{
    let ghost s = v@.subrange(from as int, to as int);
    let mut start = from;
    if from < to && v[from] == '+' {
        start = from + 1;
    }
    let ghost d = v@.subrange(start as int, to as int);
    assert(d == (if s.len() > 0 && s[0] == '+' {
        s.skip(1)
    } else {
        s
    }));
    if start == to {
        return None;
    }
    let mut value: u64 = 0;
    let mut i = start;
    while i < to
        invariant
            from <= start <= i <= to <= v@.len(),
            d == v@.subrange(start as int, to as int),
            s == v@.subrange(from as int, to as int),
            d == (if s.len() > 0 && s[0] == '+' {
                s.skip(1)
            } else {
                s
            }),
            d.len() > 0,
            all_digits(d.take(i - start)),
            value == decimal_value(d.take(i - start)),
            value <= u32::MAX,
        decreases to - i,
    {
        let c = v[i];
        if !('0' <= c && c <= '9') {
            assert(!is_digit(d[i - start]));
            return None;
        }
        let dv = (c as u32 - '0' as u32) as u64;
        assert(d.take(i - start + 1).drop_last() =~= d.take(i - start));
        value = value * 10 + dv;
        if value > 0xffff_ffff {
            proof {
                if all_digits(d) {
                    lemma_decimal_value_prefix(d, i - start + 1);
                }
            }
            return None;
        }
        i += 1;
    }
    assert(d.take(i - start) =~= d);
    Some(value as u32)
}

/// Whether the UTF-8 encoding of `v[from..to]` is at most `limit` bytes long
/// (the `str::len` of those characters).
pub fn utf8_len_at_most(v: &Vec<char>, from: usize, to: usize, limit: usize) -> (r: bool)
    requires
        from <= to <= v@.len(),
    ensures
        r == (encode_utf8(v@.subrange(from as int, to as int)).len() <= limit),
{
    let ghost s = v@.subrange(from as int, to as int);
    let mut total: u64 = 0;
    let mut i = from;
    assert(s.skip(0) =~= s);
    while i < to
        invariant
            from <= i <= to <= v@.len(),
            s == v@.subrange(from as int, to as int),
            total <= limit,
            total + encode_utf8(s.skip(i - from)).len() == encode_utf8(s).len(),
        decreases to - i,
    {
        let u = v[i] as u32;
        let w: u64 = if u <= 0x7f {
            1
        } else if u <= 0x7ff {
            2
        } else if u <= 0xffff {
            3
        } else {
            4
        };
        proof {
            let rest = s.skip(i - from);
            assert(rest[0] == v@[i as int]);
            assert(rest.drop_first() =~= s.skip(i - from + 1));
            let c = v@[i as int];
            vstd::utf8::char_is_scalar(c);
            assert(u == c as u32);
            assert(encode_scalar(c as u32).len() == w);
            assert(encode_utf8(rest) == encode_scalar(rest[0] as u32) + encode_utf8(rest.drop_first()));
        }
        if w > limit as u64 - total {
            return false;
        }
        total = total + w;
        i += 1;
    }
    assert(s.skip(to - from) =~= Seq::<char>::empty());
    true
}

/// The ASCII digit for `d < 10`.
pub open spec fn digit_char(d: nat) -> char {
    ((48 + d) as u8) as char
}

/// Decimal representation of `n`, without leading zeros.
pub open spec fn decimal_digits(n: nat) -> Seq<char>
    decreases n,
{
    if n < 10 {
        seq![digit_char(n)]
    } else {
        decimal_digits(n / 10).push(digit_char(n % 10))
    }
}

/// Appends the decimal representation of `n` (as `u32::to_string` writes it).
pub fn push_decimal(out: &mut String, n: u32)
    ensures
        final(out)@ == old(out)@ + decimal_digits(n as nat),
    decreases n,
{
    if n >= 10 {
        push_decimal(out, n / 10);
    }
    let d = (n % 10) as u8;
    push_char(out, (48u8 + d) as char);
    assert(n < 10 ==> n % 10 == n);
}

/// Whether `s` ends with `p`.
pub open spec fn ends_with_seq(s: Seq<char>, p: Seq<char>) -> bool {
    p.len() <= s.len() && s.subrange(s.len() - p.len(), s.len() as int) == p
}

/// `str::starts_with` for a string pattern.
pub fn starts_with(s: &str, p: &str) -> (r: bool)
    ensures
        r == has_at(s@, 0, p@),
{
    let v = to_chars(s);
    let w = to_chars(p);
    matches_at(&v, 0, &w)
}

/// `str::ends_with` for a string pattern.
pub fn ends_with(s: &str, p: &str) -> (r: bool)
    ensures
        r == ends_with_seq(s@, p@),
{
    let v = to_chars(s);
    let w = to_chars(p);
    if w.len() > v.len() {
        return false;
    }
    matches_at(&v, v.len() - w.len(), &w)
}

/// Appends the decimal representation of `n` (as `u64::to_string` writes it).
pub fn push_decimal_u64(out: &mut String, n: u64)
    ensures
        final(out)@ == old(out)@ + decimal_digits(n as nat),
    decreases n,
{
    if n >= 10 {
        push_decimal_u64(out, n / 10);
    }
    let d = (n % 10) as u8;
    push_char(out, (48u8 + d) as char);
    assert(n < 10 ==> n % 10 == n);
}

/// Different numbers have different decimal representations.
pub proof fn lemma_decimal_digits_injective(a: nat, b: nat)
    requires
        decimal_digits(a) == decimal_digits(b),
    ensures
        a == b,
    decreases a,
{
    if a < 10 && b < 10 {
        assert(decimal_digits(a)[0] == digit_char(a));
        assert(decimal_digits(b)[0] == digit_char(b));
    } else if a >= 10 && b >= 10 {
        let da = decimal_digits(a);
        let db = decimal_digits(b);
        assert(da.drop_last() =~= decimal_digits(a / 10));
        assert(db.drop_last() =~= decimal_digits(b / 10));
        lemma_decimal_digits_injective(a / 10, b / 10);
        assert(da.last() == digit_char(a % 10));
        assert(db.last() == digit_char(b % 10));
        assert(a % 10 == b % 10);
    } else {
        lemma_decimal_digits_len(a);
        lemma_decimal_digits_len(b);
    }
}

/// A number below ten has one digit, others more.
pub proof fn lemma_decimal_digits_len(n: nat)
    ensures
        n < 10 ==> decimal_digits(n).len() == 1,
        n >= 10 ==> decimal_digits(n).len() >= 2,
    decreases n,
{
    if n >= 10 {
        lemma_decimal_digits_len(n / 10);
    }
}

/// A position found by a left-to-right search is the first occurrence.
pub proof fn lemma_first_at_is(v: Seq<char>, from: int, p: Seq<char>, i: int)
    requires
        from <= i,
        has_at(v, i, p),
        forall|k: int| from <= k < i ==> !#[trigger] has_at(v, k, p),
    ensures
        first_at(v, from, p) == Some(i),
{
    reveal(first_at);
    let j = choose|j: int| from <= j && #[trigger] has_at(v, j, p) && forall|k: int| from <= k < j ==> !has_at(v, k, p);
    assert(from <= j && has_at(v, j, p) && forall|k: int| from <= k < j ==> !has_at(v, k, p));
    if j < i {
        assert(!has_at(v, j, p));
    } else if j > i {
        assert(!has_at(v, i, p));
    }
}

/// The first occurrence of `p` in `v` at or after `from`.
pub fn find_first(v: &Vec<char>, from: usize, p: &Vec<char>) -> (r: Option<usize>)
    ensures
        match r {
            Some(i) => first_at(v@, from as int, p@) == Some(i as int) && from <= i && has_at(
                v@,
                i as int,
                p@,
            ),
            None => first_at(v@, from as int, p@) is None,
        },
{
    match find_from(v, from, p) {
        Some(i) => {
            proof {
                lemma_first_at_is(v@, from as int, p@, i as int);
            }
            Some(i)
        },
        None => {
            proof {
                reveal(first_at);
            }
            None
        },
    }
}

} // verus!
