//! Text primitives shared by every module: whitespace and trimming, line
//! splitting, substring search, decimal rendering and string assembly.
//! Each executable function is proved against a small spec over `Seq<char>`.
use vstd::prelude::*;
use vstd::std_specs::iter::IteratorSpec;
use vstd::string::StringExecFns;

verus! {

broadcast use vstd::string::group_string_axioms;

// ─── characters ──────────────────────────────────────────────────────────────

/// Unicode `White_Space` property (what `char::is_whitespace` tests).
pub open spec fn is_ws(c: char) -> bool {
    ||| ('\u{9}' <= c && c <= '\u{d}')
    ||| c == ' '
    ||| c == '\u{85}'
    ||| c == '\u{a0}'
    ||| c == '\u{1680}'
    ||| ('\u{2000}' <= c && c <= '\u{200a}')
    ||| c == '\u{2028}'
    ||| c == '\u{2029}'
    ||| c == '\u{202f}'
    ||| c == '\u{205f}'
    ||| c == '\u{3000}'
}

pub fn is_whitespace(c: char) -> (b: bool)
    ensures
        b == is_ws(c),
{
    ('\u{9}' <= c && c <= '\u{d}') || c == ' ' || c == '\u{85}' || c == '\u{a0}' || c
        == '\u{1680}' || ('\u{2000}' <= c && c <= '\u{200a}') || c == '\u{2028}' || c
        == '\u{2029}' || c == '\u{202f}' || c == '\u{205f}' || c == '\u{3000}'
}

// ─── conversions between `str`, `String` and `Vec<char>` ─────────────────────

/// The characters of `s`, in order.
pub fn chars_of(s: &str) -> (r: Vec<char>)
    ensures
        r@ == s@,
{
    let mut out: Vec<char> = Vec::new();
    for c in it: s.chars()
        invariant
            out@ == it.seq().take(it.index() as int),
            it.seq() == s@,
    {
        out.push(c);
    }
    out
}

/// `String::push`: appends one character.
#[verifier::external_body]
pub(crate) fn push_char(s: &mut String, c: char)
    ensures
        final(s)@ == old(s)@.push(c),
{
    s.push(c)
}

/// Appends `t` to `s`.
pub fn push_str(s: &mut String, t: &str)
    ensures
        final(s)@ == old(s)@ + t@,
{
    s.append(t);
}

/// A fresh `String` holding `t`.
pub fn owned(t: &str) -> (r: String)
    ensures
        r@ == t@,
{
    let mut s = String::new();
    s.append(t);
    s
}

/// The characters `v[a..b]` as a `String`.
pub fn string_of_range(v: &Vec<char>, a: usize, b: usize) -> (r: String)
    requires
        a <= b <= v@.len(),
    ensures
        r@ == v@.subrange(a as int, b as int),
{
    let mut s = String::new();
    let mut i = a;
    while i < b
        invariant
            a <= i <= b <= v@.len(),
            s@ == v@.subrange(a as int, i as int),
        decreases b - i,
    {
        push_char(&mut s, v[i]);
        i += 1;
        assert(s@ =~= v@.subrange(a as int, i as int));
    }
    s
}

/// All of `v` as a `String`.
pub fn string_of(v: &Vec<char>) -> (r: String)
    ensures
        r@ == v@,
{
    let r = string_of_range(v, 0, v.len());
    assert(v@.subrange(0, v@.len() as int) =~= v@);
    r
}

/// `s` repeated `n` times.
pub open spec fn repeat_seq(s: Seq<char>, n: nat) -> Seq<char>
    decreases n,
{
    if n == 0 {
        Seq::empty()
    } else {
        repeat_seq(s, (n - 1) as nat) + s
    }
}

pub fn repeat_str(s: &str, n: usize) -> (r: String)
    ensures
        r@ == repeat_seq(s@, n as nat),
{
    let mut out = String::new();
    let mut i: usize = 0;
    while i < n
        invariant
            i <= n,
            out@ == repeat_seq(s@, i as nat),
        decreases n - i,
    {
        out.append(s);
        i += 1;
    }
    out
}

// ─── lowercase (std) ─────────────────────────────────────────────────────────

/// What `str::to_lowercase` returns for a string (Unicode `Lowercase` mapping).
pub uninterp spec fn spec_lowercase(s: Seq<char>) -> Seq<char>;

/// `str::to_lowercase`. The contract only names the result: it is the same for
/// the same input; the Unicode case tables themselves are not restated here.
#[verifier::external_body]
pub(crate) fn to_lowercase(s: &str) -> (r: String)
    ensures
        r@ == spec_lowercase(s@),
{
    s.to_lowercase()
}

// ─── trimming ────────────────────────────────────────────────────────────────

/// `s` without its leading whitespace.
pub open spec fn trim_start_seq(s: Seq<char>) -> Seq<char>
    decreases s.len(),
{
    if s.len() > 0 && is_ws(s[0]) {
        trim_start_seq(s.drop_first())
    } else {
        s
    }
}

/// `s` without its trailing whitespace.
pub open spec fn trim_end_seq(s: Seq<char>) -> Seq<char>
    decreases s.len(),
{
    if s.len() > 0 && is_ws(s.last()) {
        trim_end_seq(s.drop_last())
    } else {
        s
    }
}

/// `s` without leading and trailing whitespace (`str::trim`).
pub open spec fn trim_seq(s: Seq<char>) -> Seq<char> {
    trim_end_seq(trim_start_seq(s))
}

proof fn lemma_trim_start_skip(s: Seq<char>, i: int)
    requires
        0 <= i <= s.len(),
        forall|j: int| 0 <= j < i ==> is_ws(#[trigger] s[j]),
    ensures
        trim_start_seq(s) == trim_start_seq(s.skip(i)),
    decreases i,
{
    if i > 0 {
        assert(s.skip(1) =~= s.drop_first());
        assert forall|j: int| 0 <= j < i - 1 implies is_ws(#[trigger] s.drop_first()[j]) by {
            assert(s.drop_first()[j] == s[j + 1]);
        }
        lemma_trim_start_skip(s.drop_first(), i - 1);
        assert(s.drop_first().skip(i - 1) =~= s.skip(i));
    } else {
        assert(s.skip(0) =~= s);
    }
}

proof fn lemma_trim_end_take(s: Seq<char>, i: int)
    requires
        0 <= i <= s.len(),
        forall|j: int| i <= j < s.len() ==> is_ws(#[trigger] s[j]),
    ensures
        trim_end_seq(s) == trim_end_seq(s.take(i)),
    decreases s.len() - i,
{
    if i < s.len() {
        assert forall|j: int| i <= j < s.drop_last().len() implies is_ws(
            #[trigger] s.drop_last()[j],
        ) by {
            assert(s.drop_last()[j] == s[j]);
        }
        lemma_trim_end_take(s.drop_last(), i);
        assert(s.drop_last().take(i) =~= s.take(i));
    } else {
        assert(s.take(i) =~= s);
    }
}

/// Index of the first non-whitespace character of `v[..end]`, or `end`.
fn skip_ws(v: &Vec<char>, start: usize, end: usize) -> (i: usize)
    requires
        start <= end <= v@.len(),
    ensures
        start <= i <= end,
        forall|j: int| start <= j < i ==> is_ws(#[trigger] v@[j]),
        i < end ==> !is_ws(v@[i as int]),
{
    let mut i = start;
    while i < end && is_whitespace(v[i])
        invariant
            start <= i <= end <= v@.len(),
            forall|j: int| start <= j < i ==> is_ws(#[trigger] v@[j]),
        decreases end - i,
    {
        i += 1;
    }
    i
}

/// Index one past the last non-whitespace character of `v[start..end]`, or `start`.
fn skip_ws_back(v: &Vec<char>, start: usize, end: usize) -> (i: usize)
    requires
        start <= end <= v@.len(),
    ensures
        start <= i <= end,
        forall|j: int| i <= j < end ==> is_ws(#[trigger] v@[j]),
        i > start ==> !is_ws(v@[i - 1]),
{
    let mut i = end;
    while i > start && is_whitespace(v[i - 1])
        invariant
            start <= i <= end <= v@.len(),
            forall|j: int| i <= j < end ==> is_ws(#[trigger] v@[j]),
        decreases i - start,
    {
        i -= 1;
    }
    i
}

/// Bounds `(a, b)` such that `v[a..b]` is the trimmed text.
pub fn trim_bounds(v: &Vec<char>) -> (r: (usize, usize))
    ensures
        r.0 <= r.1 <= v@.len(),
        v@.subrange(r.0 as int, r.1 as int) == trim_seq(v@),
{
    let a = skip_ws(v, 0, v.len());
    let b = skip_ws_back(v, a, v.len());
    proof {
        let s = v@;
        lemma_trim_start_skip(s, a as int);
        let t = s.skip(a as int);
        if a < v.len() {
            assert(t[0] == s[a as int]);
        }
        assert(trim_start_seq(t) == t);
        assert forall|j: int| (b - a) <= j < t.len() implies is_ws(#[trigger] t[j]) by {
            assert(t[j] == s[j + a]);
        }
        lemma_trim_end_take(t, b - a);
        let u = t.take(b - a);
        if b > a {
            assert(u.last() == s[b - 1]);
        }
        assert(trim_end_seq(u) == u);
        assert(u =~= s.subrange(a as int, b as int));
    }
    (a, b)
}

/// `str::trim`.
pub fn trim(s: &str) -> (r: String)
    ensures
        r@ == trim_seq(s@),
{
    let v = chars_of(s);
    let (a, b) = trim_bounds(&v);
    string_of_range(&v, a, b)
}

/// `str::trim_start`.
pub fn trim_start(s: &str) -> (r: String)
    ensures
        r@ == trim_start_seq(s@),
{
    let v = chars_of(s);
    let a = skip_ws(&v, 0, v.len());
    proof {
        lemma_trim_start_skip(v@, a as int);
        if a < v.len() {
            assert(v@.skip(a as int)[0] == v@[a as int]);
        }
        assert(v@.skip(a as int) =~= v@.subrange(a as int, v@.len() as int));
    }
    string_of_range(&v, a, v.len())
}

// ─── prefixes, suffixes, search ──────────────────────────────────────────────

pub open spec fn starts_with_seq(s: Seq<char>, p: Seq<char>) -> bool {
    p.len() <= s.len() && s.take(p.len() as int) == p
}

pub open spec fn ends_with_seq(s: Seq<char>, p: Seq<char>) -> bool {
    p.len() <= s.len() && s.skip(s.len() - p.len()) == p
}

/// `needle` occurs in `hay` at position `i`.
pub open spec fn occurs_at(hay: Seq<char>, needle: Seq<char>, i: int) -> bool {
    0 <= i && i + needle.len() <= hay.len() && hay.subrange(i, i + needle.len()) == needle
}

/// `needle` is a substring of `hay` (`str::contains`).
pub open spec fn contains_seq(hay: Seq<char>, needle: Seq<char>) -> bool {
    exists|i: int| occurs_at(hay, needle, i)
}

/// Whether `v[at..]` begins with `p`.
pub fn matches_at(v: &Vec<char>, at: usize, p: &Vec<char>) -> (b: bool)
    requires
        at <= v@.len(),
    ensures
        b == occurs_at(v@, p@, at as int),
{
    if p.len() > v.len() - at {
        return false;
    }
    let mut k: usize = 0;
    while k < p.len()
        invariant
            at + p.len() <= v.len(),
            k <= p@.len(),
            forall|j: int| 0 <= j < k ==> v@[at + j] == p@[j],
        decreases p@.len() - k,
    {
        if v[at + k] != p[k] {
            assert(v@.subrange(at as int, at + p@.len())[k as int] != p@[k as int]);
            return false;
        }
        k += 1;
    }
    assert(v@.subrange(at as int, at + p@.len()) =~= p@);
    true
}

pub fn starts_with_chars(v: &Vec<char>, p: &Vec<char>) -> (b: bool)
    ensures
        b == starts_with_seq(v@, p@),
{
    let b = matches_at(v, 0, p);
    proof {
        if p@.len() <= v@.len() {
            assert(v@.subrange(0, p@.len() as int) =~= v@.take(p@.len() as int));
        }
    }
    b
}

/// `str::starts_with` with a string pattern.
pub fn starts_with(s: &str, p: &str) -> (b: bool)
    ensures
        b == starts_with_seq(s@, p@),
{
    starts_with_chars(&chars_of(s), &chars_of(p))
}

pub fn ends_with_chars(v: &Vec<char>, p: &Vec<char>) -> (b: bool)
    ensures
        b == ends_with_seq(v@, p@),
{
    if p.len() > v.len() {
        return false;
    }
    let at = v.len() - p.len();
    let b = matches_at(v, at, p);
    assert(v@.subrange(at as int, at + p@.len()) =~= v@.skip(at as int));
    b
}

/// `str::ends_with` with a string pattern.
pub fn ends_with(s: &str, p: &str) -> (b: bool)
    ensures
        b == ends_with_seq(s@, p@),
{
    ends_with_chars(&chars_of(s), &chars_of(p))
}

/// First position at or after `from` where `p` occurs in `v`.
pub fn find_from(v: &Vec<char>, p: &Vec<char>, from: usize) -> (r: Option<usize>)
    requires
        from <= v@.len(),
    ensures
        match r {
            Some(i) => from <= i && occurs_at(v@, p@, i as int) && forall|j: int|
                from <= j < i ==> !occurs_at(v@, p@, j),
            None => forall|j: int| from <= j ==> !occurs_at(v@, p@, j),
        },
{
    let mut i = from;
    loop
        invariant
            from <= i <= v.len(),
            forall|j: int| from <= j < i ==> !occurs_at(v@, p@, j),
        decreases v@.len() - i,
    {
        if matches_at(v, i, p) {
            return Some(i);
        }
        if i == v.len() {
            assert forall|j: int| from <= j implies !occurs_at(v@, p@, j) by {
                if j > i {
                    assert(j + p@.len() > v@.len());
                }
            }
            return None;
        }
        i += 1;
    }
}

/// `str::contains` with a string pattern, on character vectors.
pub fn contains_chars(v: &Vec<char>, p: &Vec<char>) -> (b: bool)
    ensures
        b == contains_seq(v@, p@),
{
    match find_from(v, p, 0) {
        Some(_) => true,
        None => false,
    }
}

/// `str::contains` with a string pattern.
pub fn contains(s: &str, p: &str) -> (b: bool)
    ensures
        b == contains_seq(s@, p@),
{
    contains_chars(&chars_of(s), &chars_of(p))
}

// ─── single-character search ─────────────────────────────────────────────────

/// Index of the first `c` in `s`.
pub open spec fn first_index(s: Seq<char>, c: char) -> Option<nat>
    decreases s.len(),
{
    if s.len() == 0 {
        None
    } else if s[0] == c {
        Some(0)
    } else {
        match first_index(s.drop_first(), c) {
            Some(i) => Some(i + 1),
            None => None,
        }
    }
}

pub proof fn lemma_first_index_found(s: Seq<char>, c: char, i: int)
    requires
        0 <= i < s.len(),
        s[i] == c,
        forall|j: int| 0 <= j < i ==> s[j] != c,
    ensures
        first_index(s, c) == Some(i as nat),
    decreases i,
{
    if i > 0 {
        lemma_first_index_found(s.drop_first(), c, i - 1);
    }
}

pub proof fn lemma_first_index_absent(s: Seq<char>, c: char)
    requires
        forall|j: int| 0 <= j < s.len() ==> s[j] != c,
    ensures
        first_index(s, c) is None,
    decreases s.len(),
{
    if s.len() > 0 {
        lemma_first_index_absent(s.drop_first(), c);
    }
}

/// Position of the first `c` in `v[from..]`, relative to the whole vector.
pub fn find_char_from(v: &Vec<char>, c: char, from: usize) -> (r: Option<usize>)
    requires
        from <= v@.len(),
    ensures
        match r {
            Some(i) => from <= i < v@.len() && v@[i as int] == c && first_index(
                v@.skip(from as int),
                c,
            ) == Some((i - from) as nat),
            None => first_index(v@.skip(from as int), c) is None,
        },
        forall|j: int| from <= j < (if r is Some { r->0 as int } else { v@.len() as int }) ==> v@[j] != c,
{
    let mut i = from;
    while i < v.len()
        invariant
            from <= i <= v@.len(),
            forall|j: int| from <= j < i ==> v@[j] != c,
        decreases v@.len() - i,
    {
        if v[i] == c {
            proof {
                let t = v@.skip(from as int);
                assert forall|j: int| 0 <= j < i - from implies t[j] != c by {
                    assert(t[j] == v@[j + from]);
                }
                lemma_first_index_found(t, c, i - from);
            }
            return Some(i);
        }
        i += 1;
    }
    proof {
        let t = v@.skip(from as int);
        assert forall|j: int| 0 <= j < t.len() implies t[j] != c by {
            assert(t[j] == v@[j + from]);
        }
        lemma_first_index_absent(t, c);
    }
    None
}

// ─── lines ───────────────────────────────────────────────────────────────────

/// Drops one trailing `'\r'`.
pub open spec fn strip_cr(l: Seq<char>) -> Seq<char> {
    if l.len() > 0 && l.last() == '\r' {
        l.drop_last()
    } else {
        l
    }
}

/// `str::lines`: pieces separated by `'\n'` (a `"\r\n"` ending counts as one
/// line ending); a final line ending adds no empty line.
pub open spec fn lines_seq(s: Seq<char>) -> Seq<Seq<char>>
    decreases s.len(),
{
    if s.len() == 0 {
        Seq::empty()
    } else {
        match first_index(s, '\n') {
            Some(i) => if i < s.len() {
                seq![strip_cr(s.take(i as int))] + lines_seq(s.skip(i + 1 as int))
            } else {
                seq![s]
            },
            None => seq![s],
        }
    }
}

pub proof fn lemma_first_index_bound(s: Seq<char>, c: char)
    ensures
        first_index(s, c) matches Some(i) ==> i < s.len() && s[i as int] == c,
    decreases s.len(),
{
    if s.len() > 0 && s[0] != c {
        lemma_first_index_bound(s.drop_first(), c);
    }
}

/// The line that starts at `pos` and where it ends.
fn line_at(v: &Vec<char>, pos: usize) -> (r: (String, usize))
    requires
        pos < v@.len(),
    ensures
        pos < r.1 <= v@.len(),
        lines_seq(v@.skip(pos as int)) == seq![r.0@] + lines_seq(v@.skip(r.1 as int)),
{
    let ghost t = v@.skip(pos as int);
    let n = v.len();
    match find_char_from(v, '\n', pos) {
        Some(i) => {
            let mut end = i;
            if end > pos && v[end - 1] == '\r' {
                end = end - 1;
            }
            let line = string_of_range(v, pos, end);
            proof {
                let k = (i - pos) as nat;
                assert(first_index(t, '\n') == Some(k));
                assert(t.take(k as int) =~= v@.subrange(pos as int, i as int));
                assert(t.skip(k + 1 as int) =~= v@.skip(i + 1));
                if i > pos && v@[i - 1] == '\r' {
                    assert(strip_cr(t.take(k as int)) =~= v@.subrange(pos as int, end as int));
                } else {
                    assert(strip_cr(t.take(k as int)) =~= v@.subrange(pos as int, end as int));
                }
            }
            (line, i + 1)
        },
        None => {
            let line = string_of_range(v, pos, v.len());
            proof {
                assert(t =~= v@.subrange(pos as int, v@.len() as int));
                assert(v@.skip(v@.len() as int) =~= Seq::<char>::empty());
            }
            (line, v.len())
        },
    }
}

/// `str::lines` on a character vector.
pub fn lines_of_chars(v: &Vec<char>) -> (r: Vec<String>)
    ensures
        r.deep_view() == lines_seq(v@),
{
    let mut out: Vec<String> = Vec::new();
    let mut pos: usize = 0;
    assert(v@.skip(0) =~= v@);
    while pos < v.len()
        invariant
            pos <= v@.len(),
            lines_seq(v@) == out.deep_view() + lines_seq(v@.skip(pos as int)),
        decreases v@.len() - pos,
    {
        let (line, next) = line_at(v, pos);
        let ghost before = out.deep_view();
        out.push(line);
        assert(out.deep_view() =~= before.push(line@));
        pos = next;
    }
    assert(v@.skip(pos as int) =~= Seq::<char>::empty());
    assert(out.deep_view() + Seq::<Seq<char>>::empty() =~= out.deep_view());
    out
}

/// `str::lines`.
pub fn lines(s: &str) -> (r: Vec<String>)
    ensures
        r.deep_view() == lines_seq(s@),
{
    lines_of_chars(&chars_of(s))
}

/// First line of `s` or `""` (`s.lines().next().unwrap_or("")`).
pub open spec fn first_line_seq(s: Seq<char>) -> Seq<char> {
    if lines_seq(s).len() == 0 {
        Seq::empty()
    } else {
        lines_seq(s)[0]
    }
}

pub fn first_line(s: &str) -> (r: String)
    ensures
        r@ == first_line_seq(s@),
{
    let v = chars_of(s);
    if v.len() == 0 {
        return String::new();
    }
    let (line, _) = line_at(&v, 0);
    assert(v@.skip(0) =~= v@);
    line
}

// ─── joining ─────────────────────────────────────────────────────────────────

/// `parts` joined with `sep` between neighbours (`[..].join(sep)`).
pub open spec fn join_seq(parts: Seq<Seq<char>>, sep: Seq<char>) -> Seq<char>
    decreases parts.len(),
{
    if parts.len() == 0 {
        Seq::empty()
    } else if parts.len() == 1 {
        parts[0]
    } else {
        join_seq(parts.drop_last(), sep) + sep + parts.last()
    }
}

pub fn join(parts: &Vec<String>, sep: &str) -> (r: String)
    ensures
        r@ == join_seq(parts.deep_view(), sep@),
{
    let mut out = String::new();
    let mut i: usize = 0;
    while i < parts.len()
        invariant
            i <= parts@.len(),
            out@ == join_seq(parts.deep_view().take(i as int), sep@),
        decreases parts@.len() - i,
    {
        let ghost pv = parts.deep_view();
        if i > 0 {
            out.append(sep);
        }
        out.append(parts[i].as_str());
        proof {
            assert(pv.take(i + 1).drop_last() =~= pv.take(i as int));
            assert(pv.take(i + 1).last() == parts@[i as int]@);
            if i == 0 {
                assert(out@ =~= pv.take(1)[0]);
            }
        }
        i += 1;
    }
    assert(parts.deep_view().take(i as int) =~= parts.deep_view());
    out
}

/// A text that holds `b` between `a` and `c` contains `b`.
pub proof fn lemma_contains_middle(a: Seq<char>, b: Seq<char>, c: Seq<char>)
    ensures
        contains_seq(a + b + c, b),
{
    let h = a + b + c;
    assert(h.subrange(a.len() as int, (a.len() + b.len()) as int) =~= b);
    assert(occurs_at(h, b, a.len() as int));
}

/// Text put around a text keeps what it contained.
pub proof fn lemma_contains_widen(pre: Seq<char>, h: Seq<char>, post: Seq<char>, n: Seq<char>)
    requires
        contains_seq(h, n),
    ensures
        contains_seq(pre + h + post, n),
{
    let i = choose|i: int| occurs_at(h, n, i);
    let w = pre + h + post;
    assert(w.subrange(pre.len() + i, pre.len() + i + n.len()) =~= h.subrange(i, i + n.len()));
    assert(occurs_at(w, n, pre.len() + i));
}

/// Every part of a join occurs in it.
pub proof fn lemma_join_contains(parts: Seq<Seq<char>>, sep: Seq<char>, k: int)
    requires
        0 <= k < parts.len(),
    ensures
        contains_seq(join_seq(parts, sep), parts[k]),
    decreases parts.len(),
{
    if parts.len() == 1 {
        assert(Seq::<char>::empty() + parts[0] + Seq::<char>::empty() =~= parts[0]);
        lemma_contains_middle(Seq::empty(), parts[0], Seq::empty());
    } else {
        let front = join_seq(parts.drop_last(), sep);
        if k == parts.len() - 1 {
            lemma_contains_middle(front + sep, parts.last(), Seq::empty());
            assert(front + sep + parts.last() + Seq::<char>::empty() =~= join_seq(parts, sep));
        } else {
            assert(parts.drop_last()[k] == parts[k]);
            lemma_join_contains(parts.drop_last(), sep, k);
            lemma_contains_widen(Seq::empty(), front, sep + parts.last(), parts[k]);
            assert(Seq::<char>::empty() + front + (sep + parts.last()) =~= join_seq(parts, sep));
        }
    }
}

// ─── decimal numbers ─────────────────────────────────────────────────────────

pub open spec fn digit_char(d: nat) -> char {
    if d == 0 {
        '0'
    } else if d == 1 {
        '1'
    } else if d == 2 {
        '2'
    } else if d == 3 {
        '3'
    } else if d == 4 {
        '4'
    } else if d == 5 {
        '5'
    } else if d == 6 {
        '6'
    } else if d == 7 {
        '7'
    } else if d == 8 {
        '8'
    } else {
        '9'
    }
}

/// Base-10 digits of `n`, most significant first (`n.to_string()`).
pub open spec fn decimal(n: nat) -> Seq<char>
    decreases n,
{
    if n < 10 {
        seq![digit_char(n)]
    } else {
        decimal(n / 10).push(digit_char(n % 10))
    }
}

/// A signed integer in base 10 with a leading `-` when negative.
pub open spec fn signed_decimal(n: int) -> Seq<char> {
    if n < 0 {
        seq!['-'] + decimal((-n) as nat)
    } else {
        decimal(n as nat)
    }
}

fn digit(d: u64) -> (c: char)
    requires
        d < 10,
    ensures
        c == digit_char(d as nat),
{
    if d == 0 {
        '0'
    } else if d == 1 {
        '1'
    } else if d == 2 {
        '2'
    } else if d == 3 {
        '3'
    } else if d == 4 {
        '4'
    } else if d == 5 {
        '5'
    } else if d == 6 {
        '6'
    } else if d == 7 {
        '7'
    } else if d == 8 {
        '8'
    } else {
        '9'
    }
}

/// `u64::to_string`.
pub fn u64_to_string(n: u64) -> (r: String)
    ensures
        r@ == decimal(n as nat),
    decreases n,
{
    if n < 10 {
        let mut s = String::new();
        push_char(&mut s, digit(n));
        assert(s@ =~= seq![digit_char(n as nat)]);
        s
    } else {
        let mut s = u64_to_string(n / 10);
        push_char(&mut s, digit(n % 10));
        s
    }
}

/// `usize::to_string`.
pub fn usize_to_string(n: usize) -> (r: String)
    ensures
        r@ == decimal(n as nat),
{
    u64_to_string(n as u64)
}

/// `i64::to_string`.
pub fn i64_to_string(n: i64) -> (r: String)
    ensures
        r@ == signed_decimal(n as int),
{
    if n < 0 {
        let m: u64 = (0i128 - (n as i128)) as u64;
        let mut s = owned("-");
        let d = u64_to_string(m);
        s.append(d.as_str());
        proof {
            reveal_strlit("-");
        }
        assert(s@ =~= seq!['-'] + decimal((-n) as nat));
        s
    } else {
        u64_to_string(n as u64)
    }
}

/// `format!("{:<w$}", s)`: `s` followed by spaces up to `w` characters.
pub open spec fn pad_right_seq(s: Seq<char>, w: nat) -> Seq<char> {
    if s.len() >= w {
        s
    } else {
        s + Seq::new((w - s.len()) as nat, |_i: int| ' ')
    }
}

pub fn pad_right(s: &str, w: usize) -> (r: String)
    ensures
        r@ == pad_right_seq(s@, w as nat),
{
    let mut out = owned(s);
    let n = chars_of(s).len();
    if n >= w {
        return out;
    }
    let mut k = n;
    while k < w
        invariant
            n == s@.len(),
            n <= k <= w,
            out@ == s@ + Seq::new((k - n) as nat, |_i: int| ' '),
        decreases w - k,
    {
        push_char(&mut out, ' ');
        k += 1;
        assert(out@ =~= s@ + Seq::new((k - n) as nat, |_i: int| ' '));
    }
    out
}

} // verus!

verus! {

/// Exact equality of two string slices.
pub fn str_eq(a: &str, b: &str) -> (r: bool)
    ensures
        r == (a@ == b@),
{
    let x = chars_of(a);
    let y = chars_of(b);
    if x.len() != y.len() {
        return false;
    }
    let mut i: usize = 0;
    while i < x.len()
        invariant
            x@ == a@,
            y@ == b@,
            x@.len() == y@.len(),
            i <= x@.len(),
            forall|j: int| 0 <= j < i ==> x@[j] == y@[j],
        decreases x@.len() - i,
    {
        if x[i] != y[i] {
            assert(x@[i as int] != y@[i as int]);
            return false;
        }
        i += 1;
    }
    assert(x@ =~= y@);
    true
}

/// `s` with every `from` character replaced by `to`.
pub open spec fn replace_char_seq(s: Seq<char>, from: char, to: char) -> Seq<char> {
    s.map_values(|c: char| if c == from { to } else { c })
}

pub fn replace_char(s: &str, from: char, to: char) -> (r: String)
    ensures
        r@ == replace_char_seq(s@, from, to),
{
    let v = chars_of(s);
    let mut out = String::new();
    let mut i: usize = 0;
    while i < v.len()
        invariant
            i <= v@.len(),
            out@ == replace_char_seq(v@.take(i as int), from, to),
        decreases v@.len() - i,
    {
        let c = v[i];
        push_char(
            &mut out,
            if c == from {
                to
            } else {
                c
            },
        );
        assert(v@.take(i + 1) =~= v@.take(i as int).push(c));
        assert(out@ =~= replace_char_seq(v@.take(i + 1), from, to));
        i += 1;
    }
    assert(v@.take(i as int) =~= v@);
    out
}

} // verus!

verus! {

// ─── splitting on a character ────────────────────────────────────────────────

/// Index of the last `c` in `s`.
pub open spec fn last_index(s: Seq<char>, c: char) -> Option<nat>
    decreases s.len(),
{
    if s.len() == 0 {
        None
    } else if s.last() == c {
        Some((s.len() - 1) as nat)
    } else {
        last_index(s.drop_last(), c)
    }
}

/// `s.split_once(c)`: the text before and after the first `c`.
pub open spec fn split_once_seq(s: Seq<char>, c: char) -> Option<(Seq<char>, Seq<char>)> {
    match first_index(s, c) {
        Some(i) => Some((s.take(i as int), s.skip(i + 1 as int))),
        None => None,
    }
}

/// `s.split(c).next()`: the text before the first `c` (all of `s` without one).
pub open spec fn before_first(s: Seq<char>, c: char) -> Seq<char> {
    match first_index(s, c) {
        Some(i) => s.take(i as int),
        None => s,
    }
}

/// `s.rsplit(c).next()`: the text after the last `c` (all of `s` without one).
pub open spec fn after_last(s: Seq<char>, c: char) -> Seq<char> {
    match last_index(s, c) {
        Some(i) => s.skip(i + 1 as int),
        None => s,
    }
}

/// `s.trim_start_matches(c)`.
pub open spec fn trim_start_char_seq(s: Seq<char>, c: char) -> Seq<char>
    decreases s.len(),
{
    if s.len() > 0 && s[0] == c {
        trim_start_char_seq(s.drop_first(), c)
    } else {
        s
    }
}

/// `s.trim_end_matches(c)`.
pub open spec fn trim_end_char_seq(s: Seq<char>, c: char) -> Seq<char>
    decreases s.len(),
{
    if s.len() > 0 && s.last() == c {
        trim_end_char_seq(s.drop_last(), c)
    } else {
        s
    }
}

/// `s.strip_prefix(p)`.
pub open spec fn strip_prefix_seq(s: Seq<char>, p: Seq<char>) -> Option<Seq<char>> {
    if starts_with_seq(s, p) {
        Some(s.skip(p.len() as int))
    } else {
        None
    }
}

/// `s.strip_suffix(p)`.
pub open spec fn strip_suffix_seq(s: Seq<char>, p: Seq<char>) -> Option<Seq<char>> {
    if ends_with_seq(s, p) {
        Some(s.take(s.len() - p.len()))
    } else {
        None
    }
}

pub proof fn lemma_last_index_found(s: Seq<char>, c: char, i: int)
    requires
        0 <= i < s.len(),
        s[i] == c,
        forall|j: int| i < j < s.len() ==> s[j] != c,
    ensures
        last_index(s, c) == Some(i as nat),
    decreases s.len(),
{
    if i < s.len() - 1 {
        lemma_last_index_found(s.drop_last(), c, i);
    }
}

pub proof fn lemma_last_index_absent(s: Seq<char>, c: char)
    requires
        forall|j: int| 0 <= j < s.len() ==> s[j] != c,
    ensures
        last_index(s, c) is None,
    decreases s.len(),
{
    if s.len() > 0 {
        lemma_last_index_absent(s.drop_last(), c);
    }
}

/// `s.split_once(c)`.
pub fn split_once(s: &str, c: char) -> (r: Option<(String, String)>)
    ensures
        match r {
            Some(p) => split_once_seq(s@, c) == Some((p.0@, p.1@)),
            None => split_once_seq(s@, c) is None,
        },
{
    let v = chars_of(s);
    assert(v@.skip(0) =~= v@);
    match find_char_from(&v, c, 0) {
        Some(i) => {
            let a = string_of_range(&v, 0, i);
            let b = string_of_range(&v, i + 1, v.len());
            assert(a@ =~= v@.take(i as int));
            assert(b@ =~= v@.skip(i + 1));
            Some((a, b))
        },
        None => None,
    }
}

/// `s.split(c).next()`.
pub fn before_first_char(s: &str, c: char) -> (r: String)
    ensures
        r@ == before_first(s@, c),
{
    let v = chars_of(s);
    assert(v@.skip(0) =~= v@);
    match find_char_from(&v, c, 0) {
        Some(i) => {
            let a = string_of_range(&v, 0, i);
            assert(a@ =~= v@.take(i as int));
            a
        },
        None => string_of(&v),
    }
}

/// `s.rsplit(c).next()`.
pub fn after_last_char(s: &str, c: char) -> (r: String)
    ensures
        r@ == after_last(s@, c),
{
    let v = chars_of(s);
    let mut i = v.len();
    while i > 0
        invariant
            v@ == s@,
            i <= v@.len(),
            forall|j: int| i <= j < v@.len() ==> v@[j] != c,
        decreases i,
    {
        if v[i - 1] == c {
            proof {
                lemma_last_index_found(v@, c, i - 1);
            }
            let r = string_of_range(&v, i, v.len());
            assert(r@ =~= v@.skip(i as int));
            assert(after_last(v@, c) =~= v@.skip(i as int));
            return r;
        }
        i -= 1;
    }
    proof {
        lemma_last_index_absent(v@, c);
    }
    string_of(&v)
}

/// `s.trim_start_matches(c)`.
pub fn trim_start_char(s: &str, c: char) -> (r: String)
    ensures
        r@ == trim_start_char_seq(s@, c),
{
    let v = chars_of(s);
    let mut i: usize = 0;
    assert(v@.skip(0) =~= v@);
    while i < v.len() && v[i] == c
        invariant
            i <= v@.len(),
            trim_start_char_seq(v@, c) == trim_start_char_seq(v@.skip(i as int), c),
        decreases v@.len() - i,
    {
        assert(v@.skip(i as int).drop_first() =~= v@.skip(i + 1));
        i += 1;
    }
    let r = string_of_range(&v, i, v.len());
    assert(r@ =~= v@.skip(i as int));
    r
}

/// `s.trim_end_matches(c)`.
pub fn trim_end_char(s: &str, c: char) -> (r: String)
    ensures
        r@ == trim_end_char_seq(s@, c),
{
    let v = chars_of(s);
    let mut i: usize = v.len();
    assert(v@.take(i as int) =~= v@);
    while i > 0 && v[i - 1] == c
        invariant
            i <= v@.len(),
            trim_end_char_seq(v@, c) == trim_end_char_seq(v@.take(i as int), c),
        decreases i,
    {
        assert(v@.take(i as int).drop_last() =~= v@.take(i - 1));
        i -= 1;
    }
    let r = string_of_range(&v, 0, i);
    assert(r@ =~= v@.take(i as int));
    r
}

/// `s.strip_prefix(p)`.
pub fn strip_prefix(s: &str, p: &str) -> (r: Option<String>)
    ensures
        match r {
            Some(t) => strip_prefix_seq(s@, p@) == Some(t@),
            None => strip_prefix_seq(s@, p@) is None,
        },
{
    let v = chars_of(s);
    let pv = chars_of(p);
    if starts_with_chars(&v, &pv) {
        let t = string_of_range(&v, pv.len(), v.len());
        assert(t@ =~= v@.skip(pv@.len() as int));
        Some(t)
    } else {
        None
    }
}

/// `s.strip_suffix(p)`.
pub fn strip_suffix(s: &str, p: &str) -> (r: Option<String>)
    ensures
        match r {
            Some(t) => strip_suffix_seq(s@, p@) == Some(t@),
            None => strip_suffix_seq(s@, p@) is None,
        },
{
    let v = chars_of(s);
    let pv = chars_of(p);
    if ends_with_chars(&v, &pv) {
        let t = string_of_range(&v, 0, v.len() - pv.len());
        assert(t@ =~= v@.take(v@.len() - pv@.len()));
        Some(t)
    } else {
        None
    }
}

} // verus!

verus! {

/// `s.split(c)`: the pieces between occurrences of `c` (an empty text gives
/// one empty piece; a trailing `c` gives a trailing empty piece).
pub open spec fn split_seq(s: Seq<char>, c: char) -> Seq<Seq<char>>
    decreases s.len(),
{
    match first_index(s, c) {
        Some(i) => if i < s.len() {
            seq![s.take(i as int)] + split_seq(s.skip(i + 1 as int), c)
        } else {
            seq![s]
        },
        None => seq![s],
    }
}

/// `s.split(c)`.
pub fn split_char(s: &str, c: char) -> (r: Vec<String>)
    ensures
        r.deep_view() == split_seq(s@, c),
{
    let v = chars_of(s);
    let mut out: Vec<String> = Vec::new();
    let mut pos: usize = 0;
    assert(v@.skip(0) =~= v@);
    loop
        invariant
            pos <= v@.len(),
            v@ == s@,
            split_seq(v@, c) == out.deep_view() + split_seq(v@.skip(pos as int), c),
        decreases v@.len() - pos,
    {
        let ghost t = v@.skip(pos as int);
        let ghost before = out.deep_view();
        let n = v.len();
        match find_char_from(&v, c, pos) {
            Some(i) => {
                let piece = string_of_range(&v, pos, i);
                proof {
                    let k = (i - pos) as nat;
                    assert(first_index(t, c) == Some(k));
                    assert(t.take(k as int) =~= v@.subrange(pos as int, i as int));
                    assert(t.skip(k + 1 as int) =~= v@.skip(i + 1));
                }
                out.push(piece);
                assert(out.deep_view() =~= before.push(v@.subrange(pos as int, i as int)));
                pos = i + 1;
            },
            None => {
                let piece = string_of_range(&v, pos, v.len());
                assert(t =~= v@.subrange(pos as int, v@.len() as int));
                out.push(piece);
                assert(out.deep_view() =~= before.push(t));
                assert(split_seq(v@, c) =~= out.deep_view());
                return out;
            },
        }
    }
}


// ─── UTF-8 lengths and byte prefixes ────────────────────────────────────────

/// Bytes a character takes in UTF-8.
pub open spec fn utf8_width(c: char) -> nat {
    if (c as int) < 0x80 {
        1
    } else if (c as int) < 0x800 {
        2
    } else if (c as int) < 0x10000 {
        3
    } else {
        4
    }
}

/// Length in UTF-8 bytes (`str::len`).
pub open spec fn utf8_len(s: Seq<char>) -> nat
    decreases s.len(),
{
    if s.len() == 0 {
        0
    } else {
        utf8_len(s.drop_last()) + utf8_width(s.last())
    }
}

pub fn utf8_width_of(c: char) -> (n: usize)
    ensures
        n == utf8_width(c),
{
    let u = c as u32;
    if u < 0x80 {
        1
    } else if u < 0x800 {
        2
    } else if u < 0x10000 {
        3
    } else {
        4
    }
}

/// The longest prefix of `s` that fits in `n` UTF-8 bytes (`&s[..n]` cut
/// back to a character boundary; all of `s` when it is shorter).
pub open spec fn byte_prefix(s: Seq<char>, n: nat) -> Seq<char>
    decreases s.len(),
{
    if s.len() == 0 || utf8_width(s[0]) > n {
        Seq::empty()
    } else {
        seq![s[0]] + byte_prefix(s.drop_first(), (n - utf8_width(s[0])) as nat)
    }
}

pub fn byte_prefix_str(s: &str, n: usize) -> (r: String)
    ensures
        r@ == byte_prefix(s@, n as nat),
{
    let v = chars_of(s);
    let mut i: usize = 0;
    let mut rem: usize = n;
    assert(v@.skip(0) =~= v@);
    assert(v@.take(0) =~= Seq::<char>::empty());
    while i < v.len() && utf8_width_of(v[i]) <= rem
        invariant
            i <= v@.len(),
            rem <= n,
            byte_prefix(v@, n as nat) == v@.take(i as int) + byte_prefix(
                v@.skip(i as int),
                rem as nat,
            ),
        decreases v@.len() - i,
    {
        let w = utf8_width_of(v[i]);
        proof {
            let t = v@.skip(i as int);
            assert(t[0] == v@[i as int]);
            assert(t.drop_first() =~= v@.skip(i + 1));
            assert(v@.take(i + 1) =~= v@.take(i as int) + seq![v@[i as int]]);
        }
        rem = rem - w;
        i += 1;
    }
    proof {
        let t = v@.skip(i as int);
        if i < v@.len() {
            assert(t[0] == v@[i as int]);
        }
        assert(byte_prefix(t, rem as nat) =~= Seq::<char>::empty());
    }
    let r = string_of_range(&v, 0, i);
    assert(r@ =~= v@.take(i as int));
    r
}

/// Whether `v[..end]` takes at least `n` bytes in UTF-8.
pub(crate) fn utf8_at_least(v: &Vec<char>, end: usize, n: usize) -> (b: bool)
    requires
        end <= v@.len(),
        n <= 64,
    ensures
        b == (utf8_len(v@.take(end as int)) >= n),
{
    if n == 0 {
        return true;
    }
    let mut total: usize = 0;
    let mut i: usize = 0;
    while i < end
        invariant
            i <= end <= v@.len(),
            n <= 64,
            total == utf8_len(v@.take(i as int)),
            total < n,
        decreases end - i,
    {
        assert(v@.take(i + 1).drop_last() =~= v@.take(i as int));
        total = total + utf8_width_of(v[i]);
        i += 1;
        if total >= n {
            proof {
                lemma_utf8_len_prefix_mono(v@.take(end as int), i as int);
                assert(v@.take(end as int).take(i as int) =~= v@.take(i as int));
            }
            return true;
        }
    }
    false
}

proof fn lemma_utf8_len_prefix_mono(s: Seq<char>, i: int)
    requires
        0 <= i <= s.len(),
    ensures
        utf8_len(s.take(i)) <= utf8_len(s),
    decreases s.len(),
{
    if i < s.len() {
        assert(s.drop_last().take(i) =~= s.take(i));
        lemma_utf8_len_prefix_mono(s.drop_last(), i);
    } else {
        assert(s.take(i) =~= s);
    }
}

/// Cutting `s` after `n` bytes falls on a character boundary (or `s` is not longer).
pub open spec fn byte_cut_ok(s: Seq<char>, n: nat) -> bool {
    utf8_len(s) <= n || utf8_len(byte_prefix(s, n)) == n
}

/// Whether `s` can be cut after `n` bytes (see `byte_cut_ok`).
pub fn byte_cut_ok_at(s: &str, n: usize) -> (b: bool)
    requires
        n < 64,
    ensures
        b == byte_cut_ok(s@, n as nat),
{
    let v = chars_of(s);
    assert(v@.take(v@.len() as int) =~= v@);
    if !utf8_at_least(&v, v.len(), n + 1) {
        return true;
    }
    let p = byte_prefix_str(s, n);
    let pv = chars_of(p.as_str());
    assert(pv@.take(pv@.len() as int) =~= pv@);
    utf8_at_least(&pv, pv.len(), n) && !utf8_at_least(&pv, pv.len(), n + 1)
}

} // verus!
