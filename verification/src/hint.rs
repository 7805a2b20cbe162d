//! Parsing of MIME-style format hints.
//!
//! A hint looks like `vision/raw; fmt=rgba8; w=1280; h=720` or `text/plain;
//! charset=utf-8`: a primary token, then semicolon-separated `key=value`
//! qualifiers, each part trimmed of surrounding blanks.

use vstd::prelude::*;
use vstd::string::StrSliceExecFns;
use vstd::string::StringExecFns;

verus! {

broadcast use vstd::string::group_string_axioms;

/// The blank characters stripped from part edges.
pub open spec fn spec_is_space(c: char) -> bool {
    c == ' ' || c == '\t' || c == '\r' || c == '\n'
}

/// Drops leading blanks.
pub open spec fn spec_trim_start(s: Seq<char>) -> Seq<char>
    decreases s.len(),
{
    if s.len() > 0 && spec_is_space(s[0]) {
        spec_trim_start(s.drop_first())
    } else {
        s
    }
}

/// Drops trailing blanks.
pub open spec fn spec_trim_end(s: Seq<char>) -> Seq<char>
    decreases s.len(),
{
    if s.len() > 0 && spec_is_space(s.last()) {
        spec_trim_end(s.drop_last())
    } else {
        s
    }
}

/// Drops blanks from both edges.
pub open spec fn spec_trim(s: Seq<char>) -> Seq<char> {
    spec_trim_end(spec_trim_start(s))
}

/// The index of the first occurrence of `c`, or the length when absent.
pub open spec fn spec_index_of(s: Seq<char>, c: char) -> int
    decreases s.len(),
{
    if s.len() == 0 {
        0
    } else if s[0] == c {
        0
    } else {
        1 + spec_index_of(s.drop_first(), c)
    }
}

/// The first-occurrence index is always between zero and the length.
pub proof fn lemma_index_of_bounds(s: Seq<char>, c: char)
    ensures
        0 <= spec_index_of(s, c) <= s.len(),
    decreases s.len(),
{
    if s.len() == 0 {
    } else if s[0] == c {
    } else {
        lemma_index_of_bounds(s.drop_first(), c);
    }
}

/// The semicolon-separated parts of a hint, in order.
pub open spec fn spec_split_semi(s: Seq<char>) -> Seq<Seq<char>>
    decreases s.len(),
    via spec_split_semi_decreases
{
    let i = spec_index_of(s, ';');
    if i >= s.len() {
        seq![s]
    } else {
        seq![s.take(i)] + spec_split_semi(s.skip(i + 1))
    }
}

#[via_fn]
proof fn spec_split_semi_decreases(s: Seq<char>) {
    lemma_index_of_bounds(s, ';');
}

/// The trimmed primary token of a hint: everything before the first
/// semicolon, with surrounding blanks dropped.
pub open spec fn spec_mime_of(h: Seq<char>) -> Seq<char> {
    spec_trim(spec_split_semi(h)[0])
}

/// The `key=value` qualifiers among the given parts: each part is trimmed;
/// parts without `=` are dropped; key and value are the trimmed text before
/// and after the first `=`.
pub open spec fn spec_kvs_of(parts: Seq<Seq<char>>) -> Seq<(Seq<char>, Seq<char>)>
    decreases parts.len(),
{
    if parts.len() == 0 {
        Seq::empty()
    } else {
        let p = spec_trim(parts[0]);
        let i = spec_index_of(p, '=');
        let rest = spec_kvs_of(parts.drop_first());
        if i >= p.len() {
            rest
        } else {
            seq![(spec_trim(p.take(i)), spec_trim(p.skip(i + 1)))] + rest
        }
    }
}

/// The qualifiers of a hint: the `key=value` pairs among the parts after
/// the primary token.
pub open spec fn spec_hint_kvs(h: Seq<char>) -> Seq<(Seq<char>, Seq<char>)> {
    spec_kvs_of(spec_split_semi(h).drop_first())
}

/// `spec_index_of` returns the unique scan position: everything before it
/// differs from `c`, and it points at `c` unless `c` is absent.
proof fn lemma_index_of_is(s: Seq<char>, c: char, j: int)
    requires
        0 <= j <= s.len(),
        forall|k: int| 0 <= k < j ==> s[k] != c,
        j < s.len() ==> s[j] == c,
    ensures
        spec_index_of(s, c) == j,
    decreases s.len(),
{
    if s.len() == 0 {
    } else if s[0] == c {
        assert(j == 0);
    } else {
        assert(j >= 1);
        let t = s.drop_first();
        assert(forall|k: int| 0 <= k < j - 1 ==> t[k] == s[k + 1] && t[k] != c);
        lemma_index_of_is(t, c, j - 1);
    }
}

/// `spec_trim_start` drops exactly the leading run of blanks.
proof fn lemma_trim_start_is(s: Seq<char>, j: int)
    requires
        0 <= j <= s.len(),
        forall|k: int| 0 <= k < j ==> spec_is_space(s[k]),
        j < s.len() ==> !spec_is_space(s[j]),
    ensures
        spec_trim_start(s) == s.skip(j),
    decreases s.len(),
{
    if s.len() == 0 {
        assert(s.skip(0) =~= s);
    } else if spec_is_space(s[0]) {
        assert(j >= 1);
        let t = s.drop_first();
        assert(forall|k: int| 0 <= k < j - 1 ==> t[k] == s[k + 1]);
        assert(j - 1 < t.len() ==> t[j - 1] == s[j]);
        lemma_trim_start_is(t, j - 1);
        assert(t.skip(j - 1) =~= s.skip(j));
    } else {
        assert(j == 0);
        assert(s.skip(0) =~= s);
    }
}

/// `spec_trim_end` drops exactly the trailing run of blanks.
proof fn lemma_trim_end_is(s: Seq<char>, j: int)
    requires
        0 <= j <= s.len(),
        forall|k: int| j <= k < s.len() ==> spec_is_space(s[k]),
        j > 0 ==> !spec_is_space(s[j - 1]),
    ensures
        spec_trim_end(s) == s.take(j),
    decreases s.len(),
{
    if s.len() == 0 {
        assert(s.take(0) =~= s);
    } else if spec_is_space(s.last()) {
        assert(j < s.len());
        let t = s.drop_last();
        lemma_trim_end_is(t, j);
        assert(t.take(j) =~= s.take(j));
    } else {
        assert(j == s.len());
        assert(s.take(j) =~= s);
    }
}

/// Collects the characters of a string slice into a vector.
pub fn str_chars_vec(s: &str) -> (v: Vec<char>)
    ensures
        v@ == s@,
{
    let n = s.unicode_len();
    let mut v: Vec<char> = Vec::new();
    let mut i: usize = 0;
    while i < n
        invariant
            n == s@.len(),
            i <= n,
            v@ =~= s@.take(i as int),
        decreases n - i,
    {
        let c = s.get_char(i);
        v.push(c);
        proof {
            assert(v@ =~= s@.take(i + 1));
        }
        i = i + 1;
    }
    proof {
        assert(s@.take(n as int) =~= s@);
    }
    v
}

/// Finds the first occurrence of `c` in `cs` at or after `from`, returning
/// its absolute index, or `cs.len()` when absent.
fn find_from(cs: &Vec<char>, from: usize, c: char) -> (j: usize)
    requires
        from <= cs@.len(),
    ensures
        from <= j <= cs@.len(),
        j - from == spec_index_of(cs@.skip(from as int), c),
        j < cs@.len() ==> cs@[j as int] == c,
        forall|k: int| from <= k < j ==> cs@[k] != c,
{
    let n = cs.len();
    let mut j = from;
    while j < n
        invariant
            from <= j <= n,
            n == cs@.len(),
            forall|k: int| from <= k < j ==> cs@[k] != c,
        decreases n - j,
    {
        if cs[j] == c {
            proof {
                let s = cs@.skip(from as int);
                assert(forall|k: int|
                    0 <= k < j - from ==> s[k] == cs@[k + from] && s[k] != c);
                assert(s[j - from] == c);
                lemma_index_of_is(s, c, j - from);
            }
            return j;
        }
        j = j + 1;
    }
    proof {
        let s = cs@.skip(from as int);
        assert(forall|k: int| 0 <= k < n - from ==> s[k] == cs@[k + from] && s[k] != c);
        lemma_index_of_is(s, c, n - from);
    }
    n
}

/// Exec mirror of [`spec_is_space`].
fn is_space(c: char) -> (r: bool)
    ensures
        r == spec_is_space(c),
{
    c == ' ' || c == '\t' || c == '\r' || c == '\n'
}

/// The trimmed sub-range of `[a, b)`: blanks are dropped from both edges.
fn trim_range(cs: &Vec<char>, a: usize, b: usize) -> (r: (usize, usize))
    requires
        a <= b <= cs@.len(),
    ensures
        a <= r.0 <= r.1 <= b,
        spec_trim(cs@.subrange(a as int, b as int)) == cs@.subrange(r.0 as int, r.1 as int),
{
    let ghost p = cs@.subrange(a as int, b as int);
    let mut ts = a;
    while ts < b && is_space(cs[ts])
        invariant
            a <= ts <= b,
            b <= cs@.len(),
            forall|k: int| a <= k < ts ==> spec_is_space(cs@[k]),
        decreases b - ts,
    {
        ts = ts + 1;
    }
    proof {
        assert(forall|k: int| 0 <= k < ts - a ==> p[k] == cs@[k + a]);
        assert(ts - a < p.len() ==> p[ts - a] == cs@[ts as int]);
        lemma_trim_start_is(p, ts - a);
    }
    let ghost q = p.skip(ts - a);
    proof {
        assert(q =~= cs@.subrange(ts as int, b as int));
    }
    let mut te = b;
    while te > ts && is_space(cs[te - 1])
        invariant
            ts <= te <= b,
            b <= cs@.len(),
            forall|k: int| te <= k < b ==> spec_is_space(cs@[k]),
        decreases te,
    {
        te = te - 1;
    }
    proof {
        assert(forall|k: int| te - ts <= k < q.len() ==> q[k] == cs@[k + ts]);
        assert(te - ts > 0 ==> q[te - ts - 1] == cs@[te - 1]);
        lemma_trim_end_is(q, te - ts);
        assert(q.take(te - ts) =~= cs@.subrange(ts as int, te as int));
    }
    (ts, te)
}

/// Compares two string slices for equality of their character sequences.
pub fn str_eq(a: &str, b: &str) -> (r: bool)
    ensures
        r == (a@ == b@),
{
    let ca = str_chars_vec(a);
    let cb = str_chars_vec(b);
    if ca.len() != cb.len() {
        return false;
    }
    let n = ca.len();
    let mut i: usize = 0;
    while i < n
        invariant
            n == ca@.len(),
            cb@.len() == n,
            ca@ == a@,
            cb@ == b@,
            i <= n,
            forall|k: int| 0 <= k < i ==> ca@[k] == cb@[k],
        decreases n - i,
    {
        if ca[i] != cb[i] {
            return false;
        }
        i = i + 1;
    }
    proof {
        assert(a@ =~= b@);
    }
    true
}

/// A parsed hint: the trimmed primary token and the `key=value` qualifiers.
#[derive(Debug, Clone)]
pub struct HintParse {
    /// Trimmed primary token, e.g. `vision/png`.
    pub mime: String,
    /// Trimmed `key=value` qualifiers, in order of appearance.
    pub kvs: Vec<(String, String)>,
}

/// Collects the `key=value` qualifiers of the parts at and after `from`.
fn collect_kvs(hint: &str, cs: &Vec<char>, from: usize, kvs: &mut Vec<(String, String)>)
    requires
        cs@ == hint@,
        from <= cs@.len(),
    ensures
        final (kvs).deep_view() =~= old(kvs).deep_view() + spec_kvs_of(
            spec_split_semi(hint@.skip(from as int)),
        ),
    decreases cs@.len() - from,
{
    let n = cs.len();
    let j = find_from(cs, from, ';');
    let ghost s = hint@.skip(from as int);
    let ghost piece = hint@.subrange(from as int, j as int);
    let ghost i = j - from;
    proof {
        assert(spec_index_of(s, ';') == i);
        if j < n {
            assert(s.take(i) =~= piece);
            assert(s.skip(i + 1) =~= hint@.skip(j + 1));
            assert(spec_split_semi(s) == seq![s.take(i)] + spec_split_semi(s.skip(i + 1)));
            assert(spec_split_semi(s) == seq![piece] + spec_split_semi(hint@.skip(j + 1)));
            assert(spec_split_semi(s).drop_first() =~= spec_split_semi(hint@.skip(j + 1)));
        } else {
            assert(s =~= piece);
            assert(spec_split_semi(s) == seq![piece]);
            assert(spec_split_semi(s).drop_first() =~= Seq::<Seq<char>>::empty());
        }
        assert(spec_split_semi(s)[0] == piece);
    }
    let (ts, te) = trim_range(cs, from, j);
    let ghost trimmed = hint@.subrange(ts as int, te as int);
    proof {
        assert(cs@.subrange(from as int, j as int) == piece);
        assert(spec_trim(piece) == trimmed);
    }
    let ghost pre = kvs.deep_view();
    let ghost parts = spec_split_semi(s);
    let e = find_from(cs, ts, '=');
    if e < te {
        // A qualifier: key before the first '=', value after it.
        proof {
            assert(forall|k: int| 0 <= k < e - ts ==> trimmed[k] == cs@[k + ts]);
            assert(trimmed[e - ts] == cs@[e as int]);
            lemma_index_of_is(trimmed, '=', e - ts);
            assert(trimmed.take(e - ts) =~= hint@.subrange(ts as int, e as int));
            assert(trimmed.skip(e - ts + 1) =~= hint@.subrange(e + 1, te as int));
        }
        let (ks, ke) = trim_range(cs, ts, e);
        let (vs, ve) = trim_range(cs, e + 1, te);
        let key = String::from_str(hint.substring_char(ks, ke));
        let value = String::from_str(hint.substring_char(vs, ve));
        proof {
            assert(key@ == spec_trim(trimmed.take(e - ts)));
            assert(value@ == spec_trim(trimmed.skip(e - ts + 1)));
        }
        kvs.push((key, value));
        proof {
            assert(kvs.deep_view() =~= pre + seq![(key@, value@)]);
            assert(spec_kvs_of(parts) == seq![(key@, value@)] + spec_kvs_of(parts.drop_first()));
        }
    } else {
        // No '=' in the trimmed part: not a qualifier.
        proof {
            assert(forall|k: int| 0 <= k < trimmed.len() ==> trimmed[k] == cs@[k + ts]);
            assert(forall|k: int| 0 <= k < trimmed.len() ==> trimmed[k] != '=');
            lemma_index_of_is(trimmed, '=', trimmed.len() as int);
            assert(spec_kvs_of(parts) == spec_kvs_of(parts.drop_first()));
        }
    }
    if j < n {
        collect_kvs(hint, cs, j + 1, kvs);
    } else {
        proof {
            assert(spec_kvs_of(Seq::<Seq<char>>::empty()) =~= Seq::<(Seq<char>, Seq<char>)>::empty());
        }
    }
}

/// Parses a hint into its trimmed primary token and `key=value` qualifiers.
pub fn parse_hint_mime(hint: &str) -> (r: HintParse)
    ensures
        r.mime@ == spec_mime_of(hint@),
        r.kvs.deep_view() =~= spec_hint_kvs(hint@),
{
    let cs = str_chars_vec(hint);
    let n = cs.len();
    let j = find_from(&cs, 0, ';');
    let ghost h = hint@;
    proof {
        assert(h.skip(0) =~= h);
        assert(spec_index_of(h, ';') == j);
        if j < n {
            assert(h.take(j as int) =~= h.subrange(0, j as int));
            assert(spec_split_semi(h)[0] == h.take(j as int));
            assert(spec_split_semi(h).drop_first() =~= spec_split_semi(h.skip(j + 1)));
        } else {
            assert(spec_split_semi(h) == seq![h]);
            assert(h.subrange(0, j as int) =~= h);
            assert(spec_split_semi(h).drop_first() =~= Seq::<Seq<char>>::empty());
        }
    }
    let (ms, me) = trim_range(&cs, 0, j);
    let mime = String::from_str(hint.substring_char(ms, me));
    let mut kvs: Vec<(String, String)> = Vec::new();
    if j < n {
        collect_kvs(hint, &cs, j + 1, &mut kvs);
    } else {
        proof {
            assert(spec_kvs_of(Seq::<Seq<char>>::empty()) =~= Seq::<(Seq<char>, Seq<char>)>::empty());
        }
    }
    HintParse { mime, kvs }
}

} // verus!
