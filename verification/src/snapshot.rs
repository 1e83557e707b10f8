//! Offline snapshots of the Messenger page: their file names, which file is
//! the newest, and which files rotation deletes.
use vstd::prelude::*;
use crate::text::{strings_view, decimal_digits, ends_with, ends_with_seq, push_char, push_decimal_u64};

verus! {

/// Snapshots kept on disk.
pub const MAX_SNAPSHOTS: usize = 3;

/// A snapshot of the page for offline viewing.
#[derive(Debug, Clone)]
pub struct SnapshotData {
    /// The page's `document.documentElement.outerHTML`.
    pub html: String,
    /// The page's URL when it was captured.
    pub url: String,
    /// When it was captured, as RFC 3339.
    pub timestamp: String,
}

impl SnapshotData {
    /// A snapshot of `html` at `url`, taken at `timestamp`.
    pub fn new(html: String, url: String, timestamp: String) -> (s: Self)
        ensures
            s.html@ == html@,
            s.url@ == url@,
            s.timestamp@ == timestamp@,
    {
        SnapshotData { html, url, timestamp }
    }
}

/// The decimal text of a signed number, as `i64::to_string` writes it.
pub open spec fn signed_decimal(n: int) -> Seq<char> {
    if n < 0 {
        seq!['-'] + decimal_digits((-n) as nat)
    } else {
        decimal_digits(n as nat)
    }
}

/// The file a snapshot taken at `unix_secs` is stored in:
/// `snapshot_SECS.json`, so that for the times the app meets, name order is
/// time order.
pub fn snapshot_file_name(unix_secs: i64) -> (r: String)
    ensures
        r@ == "snapshot_"@ + signed_decimal(unix_secs as int) + ".json"@,
{
    let mut s = "snapshot_".to_owned();
    if unix_secs < 0 {
        push_char(&mut s, '-');
        let m: u64 = if unix_secs == i64::MIN {
            9_223_372_036_854_775_808u64
        } else {
            (-unix_secs) as u64
        };
        push_decimal_u64(&mut s, m);
        proof {
            assert(seq!['-'] + decimal_digits(m as nat) == signed_decimal(unix_secs as int));
            assert("snapshot_"@.push('-') + decimal_digits(m as nat) =~= "snapshot_"@ + (seq!['-']
                + decimal_digits(m as nat)));
        }
    } else {
        push_decimal_u64(&mut s, unix_secs as u64);
    }
    s.append(".json");
    s
}

/// A snapshot file: a name with the extension `json` (a non-empty stem, then
/// `.json`).
pub open spec fn is_snapshot_name(n: Seq<char>) -> bool {
    n.len() > 5 && ends_with_seq(n, ".json"@)
}

/// Whether a file name is a snapshot file.
pub fn is_snapshot_file(name: &str) -> (r: bool)
    ensures
        r == is_snapshot_name(name@),
{
    proof {
        reveal_strlit(".json");
    }
    name.unicode_len() > 5 && ends_with(name, ".json")
}

/// Byte-wise (which for UTF-8 is character-wise) lexicographic order:
/// `a` sorts strictly before `b`.
pub open spec fn lex_lt(a: Seq<char>, b: Seq<char>) -> bool
    decreases a.len(),
{
    if b.len() == 0 {
        false
    } else if a.len() == 0 {
        true
    } else if a[0] < b[0] {
        true
    } else if a[0] == b[0] {
        lex_lt(a.skip(1), b.skip(1))
    } else {
        false
    }
}

/// The order is transitive.
pub proof fn lemma_lex_lt_transitive(a: Seq<char>, b: Seq<char>, c: Seq<char>)
    requires
        lex_lt(a, b),
        lex_lt(b, c),
    ensures
        lex_lt(a, c),
    decreases a.len(),
{
    if a.len() > 0 && b.len() > 0 && c.len() > 0 && a[0] == b[0] && b[0] == c[0] {
        lemma_lex_lt_transitive(a.skip(1), b.skip(1), c.skip(1));
    }
}

/// The order is irreflexive.
pub proof fn lemma_lex_lt_irreflexive(a: Seq<char>)
    ensures
        !lex_lt(a, a),
    decreases a.len(),
{
    if a.len() > 0 {
        lemma_lex_lt_irreflexive(a.skip(1));
    }
}

/// Any two different strings are ordered one way or the other.
pub proof fn lemma_lex_lt_total(a: Seq<char>, b: Seq<char>)
    requires
        a != b,
    ensures
        lex_lt(a, b) || lex_lt(b, a),
    decreases a.len(),
{
    if a.len() > 0 && b.len() > 0 && a[0] == b[0] {
        if a.skip(1) == b.skip(1) {
            assert(a =~= seq![a[0]] + a.skip(1));
            assert(b =~= seq![b[0]] + b.skip(1));
        }
        lemma_lex_lt_total(a.skip(1), b.skip(1));
    } else if a.len() > 0 && b.len() > 0 {
    } else if a.len() == 0 && b.len() == 0 {
        assert(a =~= b);
    }
}

/// Whether `a` sorts strictly before `b`.
pub fn str_lt(a: &str, b: &str) -> (r: bool)
    ensures
        r == lex_lt(a@, b@),
{
    let n = a.unicode_len();
    let m = b.unicode_len();
    let mut i: usize = 0;
    assert(a@.skip(0) =~= a@);
    assert(b@.skip(0) =~= b@);
    while i < n && i < m
        invariant
            n == a@.len(),
            m == b@.len(),
            i <= n,
            i <= m,
            lex_lt(a@, b@) == lex_lt(a@.skip(i as int), b@.skip(i as int)),
        decreases n - i,
    {
        let ca = a.get_char(i);
        let cb = b.get_char(i);
        assert(a@.skip(i as int)[0] == ca);
        assert(b@.skip(i as int)[0] == cb);
        if ca < cb {
            return true;
        }
        if ca != cb {
            return false;
        }
        assert(a@.skip(i as int).skip(1) =~= a@.skip(i + 1));
        assert(b@.skip(i as int).skip(1) =~= b@.skip(i + 1));
        i += 1;
    }
    i < m
}

/// Whether snapshot `j` sorts ahead of snapshot `i` when the snapshots are
/// sorted newest (largest name) first, equal names keeping their order.
pub open spec fn sorts_ahead(names: Seq<Seq<char>>, j: int, i: int) -> bool {
    is_snapshot_name(names[j]) && (lex_lt(names[i], names[j]) || (names[j] == names[i] && j < i))
}

/// How many of `names[0..k]` sort ahead of `names[i]`.
pub open spec fn rank_upto(names: Seq<Seq<char>>, i: int, k: int) -> nat
    decreases k,
{
    if k <= 0 {
        0
    } else {
        rank_upto(names, i, k - 1) + if sorts_ahead(names, k - 1, i) {
            1nat
        } else {
            0nat
        }
    }
}

/// The position of snapshot `i` when the snapshots are sorted newest first.
pub open spec fn rank(names: Seq<Seq<char>>, i: int) -> nat {
    rank_upto(names, i, names.len() as int)
}

/// The snapshots among `names[0..k]` that rotation deletes: those past the
/// first `MAX_SNAPSHOTS` newest, in listing order.
pub open spec fn pruned_upto(names: Seq<Seq<char>>, k: int) -> Seq<Seq<char>>
    decreases k,
{
    if k <= 0 {
        Seq::empty()
    } else {
        pruned_upto(names, k - 1) + if is_snapshot_name(names[k - 1]) && rank(names, k - 1)
            >= MAX_SNAPSHOTS {
            seq![names[k - 1]]
        } else {
            Seq::empty()
        }
    }
}

/// The files rotation deletes from a listing.
pub open spec fn pruned_spec(names: Seq<Seq<char>>) -> Seq<Seq<char>> {
    pruned_upto(names, names.len() as int)
}

/// The position of `names[i]` when the snapshots are sorted newest first.
fn snapshot_rank(names: &Vec<String>, i: usize) -> (r: usize)
    requires
        i < names@.len(),
    ensures
        r == rank(strings_view(names@), i as int),
{
    let ghost nv = strings_view(names@);
    let mut cnt: usize = 0;
    let mut j: usize = 0;
    while j < names.len()
        invariant
            i < names@.len(),
            nv == strings_view(names@),
            nv.len() == names@.len(),
            j <= names@.len(),
            cnt == rank_upto(nv, i as int, j as int),
            cnt <= j,
        decreases names@.len() - j,
    {
        let nj = names[j].as_str();
        let ni = names[i].as_str();
        assert(nv[j as int] == nj@ && nv[i as int] == ni@);
        if is_snapshot_file(nj) && (str_lt(ni, nj) || (crate::text::str_eq(nj, ni) && j < i)) {
            cnt += 1;
        }
        j += 1;
    }
    cnt
}

/// The snapshot files of a directory listing that rotation deletes, so that
/// only the `MAX_SNAPSHOTS` newest (by name) remain.
pub fn snapshots_to_prune(names: &Vec<String>) -> (r: Vec<String>)
    ensures
        strings_view(r@) == pruned_spec(strings_view(names@)),
{
    let ghost nv = strings_view(names@);
    let mut out: Vec<String> = Vec::new();
    let mut i: usize = 0;
    while i < names.len()
        invariant
            nv == strings_view(names@),
            nv.len() == names@.len(),
            i <= names@.len(),
            strings_view(out@) == pruned_upto(nv, i as int),
        decreases names@.len() - i,
    {
        let ghost before = out@;
        assert(nv[i as int] == names@[i as int]@);
        if is_snapshot_file(names[i].as_str()) && snapshot_rank(names, i) >= MAX_SNAPSHOTS {
            out.push(names[i].clone());
            assert(strings_view(out@) =~= strings_view(before) + seq![nv[i as int]]);
        } else {
            assert(strings_view(out@) =~= strings_view(before) + Seq::<Seq<char>>::empty());
        }
        i += 1;
    }
    out
}

/// `names[i]` is the first of the newest snapshots: a snapshot that no other
/// snapshot sorts ahead of.
pub open spec fn is_first_newest(names: Seq<Seq<char>>, i: int) -> bool {
    0 <= i < names.len() && is_snapshot_name(names[i]) && forall|j: int|
        0 <= j < names.len() ==> !sorts_ahead(names, j, i)
}

/// The newest snapshot of a listing: the largest snapshot name (the first
/// of equal ones), or `None` when there is no snapshot file.
pub fn latest_snapshot_name(names: &Vec<String>) -> (r: Option<String>)
    ensures
        match r {
            Some(n) => exists|i: int| is_first_newest(strings_view(names@), i) && n@ == names@[i]@,
            None => forall|i: int|
                0 <= i < names@.len() ==> !is_snapshot_name(#[trigger] names@[i]@),
        },
{
    let ghost nv = strings_view(names@);
    let mut best: Option<usize> = None;
    let mut i: usize = 0;
    while i < names.len()
        invariant
            nv == strings_view(names@),
            nv.len() == names@.len(),
            i <= names@.len(),
            match best {
                Some(b) => b < i && is_snapshot_name(nv[b as int]) && forall|j: int|
                    0 <= j < i ==> !#[trigger] sorts_ahead(nv, j, b as int),
                None => forall|j: int| 0 <= j < i ==> !is_snapshot_name(#[trigger] nv[j]),
            },
        decreases names@.len() - i,
    {
        assert(nv[i as int] == names@[i as int]@);
        if is_snapshot_file(names[i].as_str()) {
            match best {
                None => {
                    best = Some(i);
                    assert forall|j: int| 0 <= j < i + 1 implies !#[trigger] sorts_ahead(
                        nv,
                        j,
                        i as int,
                    ) by {
                        if j < i {
                            assert(!is_snapshot_name(nv[j]));
                        } else {
                            lemma_lex_lt_irreflexive(nv[i as int]);
                        }
                    }
                },
                Some(b) => {
                    assert(nv[b as int] == names@[b as int]@);
                    if str_lt(names[b].as_str(), names[i].as_str()) {
                        best = Some(i);
                        assert forall|j: int| 0 <= j < i + 1 implies !#[trigger] sorts_ahead(
                            nv,
                            j,
                            i as int,
                        ) by {
                            if j < i {
                                assert(!sorts_ahead(nv, j, b as int));
                                if is_snapshot_name(nv[j]) && lex_lt(nv[i as int], nv[j]) {
                                    lemma_lex_lt_transitive(nv[b as int], nv[i as int], nv[j]);
                                }
                                if is_snapshot_name(nv[j]) && nv[j] == nv[i as int] {
                                    assert(lex_lt(nv[b as int], nv[j]));
                                }
                            } else {
                                lemma_lex_lt_irreflexive(nv[i as int]);
                            }
                        }
                    } else {
                        assert forall|j: int| 0 <= j < i + 1 implies !#[trigger] sorts_ahead(
                            nv,
                            j,
                            b as int,
                        ) by {
                            if j == i {
                                assert(!lex_lt(nv[b as int], nv[i as int]));
                            }
                        }
                    }
                },
            }
        } else {
            match best {
                Some(b) => {
                    assert forall|j: int| 0 <= j < i + 1 implies !#[trigger] sorts_ahead(
                        nv,
                        j,
                        b as int,
                    ) by {
                        if j == i {
                            assert(!is_snapshot_name(nv[j]));
                        }
                    }
                },
                None => {},
            }
        }
        i += 1;
    }
    match best {
        Some(b) => {
            let n = names[b].clone();
            assert(is_first_newest(strings_view(names@), b as int) && n@ == names@[b as int]@);
            Some(n)
        },
        None => {
            assert forall|j: int| 0 <= j < names@.len() implies !is_snapshot_name(
                #[trigger] names@[j]@,
            ) by {
                assert(nv[j] == names@[j]@);
            }
            None
        },
    }
}

/// "Sorts ahead" is transitive.
pub proof fn lemma_sorts_ahead_transitive(names: Seq<Seq<char>>, k: int, j: int, i: int)
    requires
        sorts_ahead(names, k, j),
        sorts_ahead(names, j, i),
    ensures
        sorts_ahead(names, k, i),
{
    if lex_lt(names[j], names[k]) && lex_lt(names[i], names[j]) {
        lemma_lex_lt_transitive(names[i], names[j], names[k]);
    }
}

/// A snapshot sorted behind another has a larger count of snapshots ahead of
/// it, counting over any prefix of the listing.
pub proof fn lemma_rank_upto_grows(names: Seq<Seq<char>>, j: int, i: int, n: int)
    requires
        0 <= j,
        sorts_ahead(names, j, i),
        0 <= n,
    ensures
        rank_upto(names, j, n) + (if j < n {
            1int
        } else {
            0int
        }) <= rank_upto(names, i, n),
    decreases n,
{
    if n > 0 {
        lemma_rank_upto_grows(names, j, i, n - 1);
        let k = n - 1;
        if sorts_ahead(names, k, j) {
            lemma_sorts_ahead_transitive(names, k, j, i);
        }
        if k == j {
            lemma_lex_lt_irreflexive(names[j]);
        }
    }
}

/// Two different snapshot files never share a position in the sorted order.
pub proof fn lemma_ranks_distinct(names: Seq<Seq<char>>, i: int, j: int)
    requires
        0 <= i < names.len(),
        0 <= j < names.len(),
        i != j,
        is_snapshot_name(names[i]),
        is_snapshot_name(names[j]),
    ensures
        rank(names, i) != rank(names, j),
{
    let n = names.len() as int;
    if names[i] != names[j] {
        lemma_lex_lt_total(names[i], names[j]);
        if lex_lt(names[i], names[j]) {
            lemma_rank_upto_grows(names, j, i, n);
        } else {
            lemma_rank_upto_grows(names, i, j, n);
        }
    } else if j < i {
        lemma_rank_upto_grows(names, j, i, n);
    } else {
        lemma_rank_upto_grows(names, i, j, n);
    }
}

/// The snapshot files that rotation keeps.
pub open spec fn kept_indices(names: Seq<Seq<char>>) -> Set<int> {
    Set::new(
        |i: int| 0 <= i < names.len() && is_snapshot_name(names[i]) && rank(names, i) < MAX_SNAPSHOTS,
    )
}

/// Rotation keeps at most `MAX_SNAPSHOTS` snapshot files.
pub proof fn lemma_rotation_keeps_at_most_max(names: Seq<Seq<char>>)
    ensures
        kept_indices(names).finite(),
        kept_indices(names).len() <= MAX_SNAPSHOTS,
{
    let kept = kept_indices(names);
    let all = vstd::set_lib::set_int_range(0, names.len() as int);
    vstd::set_lib::lemma_int_range(0, names.len() as int);
    assert(kept.subset_of(all));
    vstd::set_lib::lemma_len_subset(kept, all);
    let f = |i: int| rank(names, i) as int;
    assert(vstd::relations::injective_on(f, kept)) by {
        assert forall|x1: int, x2: int|
            kept.contains(x1) && kept.contains(x2) && #[trigger] f(x1) == #[trigger] f(x2) implies x1
            == x2 by {
            if x1 != x2 {
                lemma_ranks_distinct(names, x1, x2);
            }
        }
    }
    let image = kept.map(f);
    let slots = vstd::set_lib::set_int_range(0, MAX_SNAPSHOTS as int);
    vstd::set_lib::lemma_int_range(0, MAX_SNAPSHOTS as int);
    assert(image.subset_of(slots));
    vstd::set_lib::lemma_len_subset(image, slots);
    vstd::set_lib::lemma_map_size(kept, image, f);
}

/// Rotation deletes the oldest: no snapshot it keeps has a smaller name than
/// one it deletes.
pub proof fn lemma_rotation_prunes_oldest(names: Seq<Seq<char>>, kept: int, pruned: int)
    requires
        kept_indices(names).contains(kept),
        0 <= pruned < names.len(),
        is_snapshot_name(names[pruned]),
        rank(names, pruned) >= MAX_SNAPSHOTS,
    ensures
        !lex_lt(names[kept], names[pruned]),
{
    if lex_lt(names[kept], names[pruned]) {
        lemma_rank_upto_grows(names, pruned, kept, names.len() as int);
    }
}

} // verus!
