//! Release versions: dotted-numeric comparison of a release tag with the
//! running version (the notifier only reports a newer release).
use vstd::prelude::*;
use crate::text::{chars_of, owned, split_char, split_seq, trim_start_char, trim_start_char_seq};

verus! {

/// Value of decimal digits (`None` if one is not a digit).
pub open spec fn digits_value(d: Seq<char>) -> Option<nat>
    decreases d.len(),
{
    if d.len() == 0 {
        Some(0)
    } else {
        match digits_value(d.drop_last()) {
            Some(a) => if '0' <= d.last() && d.last() <= '9' {
                Some(a * 10 + (d.last() as u32 - '0' as u32) as nat)
            } else {
                None
            },
            None => None,
        }
    }
}

/// `s.parse::<u64>()`: an optional `+`, then at least one digit, and a value
/// that fits a `u64`.
pub open spec fn parse_u64_spec(s: Seq<char>) -> Option<u64> {
    let d = if s.len() > 0 && s[0] == '+' {
        s.drop_first()
    } else {
        s
    };
    if d.len() == 0 {
        None
    } else {
        match digits_value(d) {
            Some(v) => if v <= u64::MAX {
                Some(v as u64)
            } else {
                None
            },
            None => None,
        }
    }
}

proof fn lemma_digits_value_grows(d: Seq<char>, k: int)
    requires
        0 <= k <= d.len(),
        digits_value(d) is Some,
    ensures
        digits_value(d.take(k)) is Some,
        digits_value(d.take(k))->0 <= digits_value(d)->0,
    decreases d.len(),
{
    if k < d.len() {
        assert(d.drop_last().take(k) =~= d.take(k));
        lemma_digits_value_grows(d.drop_last(), k);
    } else {
        assert(d.take(k) =~= d);
    }
}

/// `s.parse::<u64>()`.
pub fn parse_u64(s: &str) -> (r: Option<u64>)
    ensures
        r == parse_u64_spec(s@),
{
    let v = chars_of(s);
    let start: usize = if v.len() > 0 && v[0] == '+' {
        1
    } else {
        0
    };
    let ghost d = v@.skip(start as int);
    assert(start == 0 ==> d =~= v@);
    assert(start == 1 ==> d =~= v@.drop_first());
    if start == v.len() {
        return None;
    }
    let mut acc: u64 = 0;
    let mut i: usize = start;
    assert(d.take(0) =~= Seq::<char>::empty());
    while i < v.len()
        invariant
            start <= i <= v@.len(),
            d == v@.skip(start as int),
            v@ == s@,
            d.len() > 0,
            d == (if s@.len() > 0 && s@[0] == '+' {
                s@.drop_first()
            } else {
                s@
            }),
            digits_value(d.take(i - start)) == Some(acc as nat),
        decreases v@.len() - i,
    {
        assert(d.take(i + 1 - start).drop_last() =~= d.take(i - start));
        assert(d.take(i + 1 - start).last() == v@[i as int]);
        let c = v[i];
        if !('0' <= c && c <= '9') {
            proof {
                assert(digits_value(d.take(i + 1 - start)) is None);
                if digits_value(d) is Some {
                    lemma_digits_value_grows(d, i + 1 - start);
                }
            }
            return None;
        }
        let x = (c as u32 - '0' as u32) as u64;
        match acc.checked_mul(10) {
            Some(m) => match m.checked_add(x) {
                Some(n) => {
                    acc = n;
                },
                None => {
                    proof {
                        assert(digits_value(d.take(i + 1 - start)) == Some((acc * 10 + x) as nat));
                        if digits_value(d) is Some {
                            lemma_digits_value_grows(d, i + 1 - start);
                        }
                    }
                    return None;
                },
            },
            None => {
                proof {
                    assert(digits_value(d.take(i + 1 - start)) == Some((acc * 10 + x) as nat));
                    if digits_value(d) is Some {
                        lemma_digits_value_grows(d, i + 1 - start);
                    }
                }
                return None;
            },
        }
        i += 1;
    }
    assert(d.take(i - start) =~= d);
    Some(acc)
}

/// The numeric parts of a dotted version; a part that is not a number counts as 0.
pub open spec fn version_parts_spec(s: Seq<char>) -> Seq<u64> {
    split_seq(s, '.').map_values(
        |p: Seq<char>|
            match parse_u64_spec(p) {
                Some(v) => v,
                None => 0u64,
            },
    )
}

pub fn version_parts(s: &str) -> (r: Vec<u64>)
    ensures
        r@ == version_parts_spec(s@),
{
    let pieces = split_char(s, '.');
    let ghost pv = pieces.deep_view();
    let mut out: Vec<u64> = Vec::new();
    let mut i: usize = 0;
    while i < pieces.len()
        invariant
            i <= pieces@.len(),
            pv == pieces.deep_view(),
            pv == split_seq(s@, '.'),
            out@ == pv.take(i as int).map_values(
                |p: Seq<char>|
                    match parse_u64_spec(p) {
                        Some(v) => v,
                        None => 0u64,
                    },
            ),
        decreases pieces@.len() - i,
    {
        let n = match parse_u64(pieces[i].as_str()) {
            Some(v) => v,
            None => 0,
        };
        out.push(n);
        assert(pv.take(i + 1) =~= pv.take(i as int).push(pieces@[i as int]@));
        assert(out@ =~= pv.take(i + 1).map_values(
            |p: Seq<char>|
                match parse_u64_spec(p) {
                    Some(v) => v,
                    None => 0u64,
                },
        ));
        i += 1;
    }
    assert(pv.take(i as int) =~= pv);
    out
}

/// Lexicographic order of number sequences (a proper prefix first).
pub open spec fn parts_lt(a: Seq<u64>, b: Seq<u64>) -> bool
    decreases a.len(),
{
    if b.len() == 0 {
        false
    } else if a.len() == 0 {
        true
    } else if a[0] != b[0] {
        a[0] < b[0]
    } else {
        parts_lt(a.drop_first(), b.drop_first())
    }
}

/// `a` is a strictly newer version than `b`.
pub open spec fn is_newer_spec(a: Seq<char>, b: Seq<char>) -> bool {
    parts_lt(version_parts_spec(b), version_parts_spec(a))
}

fn parts_less(a: &Vec<u64>, b: &Vec<u64>) -> (r: bool)
    ensures
        r == parts_lt(a@, b@),
{
    let mut i: usize = 0;
    assert(a@.skip(0) =~= a@);
    assert(b@.skip(0) =~= b@);
    while i < a.len() && i < b.len() && a[i] == b[i]
        invariant
            i <= a@.len(),
            i <= b@.len(),
            parts_lt(a@, b@) == parts_lt(a@.skip(i as int), b@.skip(i as int)),
        decreases a@.len() - i,
    {
        assert(a@.skip(i as int).drop_first() =~= a@.skip(i + 1));
        assert(b@.skip(i as int).drop_first() =~= b@.skip(i + 1));
        i += 1;
    }
    let ghost sa = a@.skip(i as int);
    let ghost sb = b@.skip(i as int);
    if i == b.len() {
        assert(sb.len() == 0);
        false
    } else if i == a.len() {
        assert(sa.len() == 0);
        true
    } else {
        assert(sa[0] == a@[i as int] && sb[0] == b@[i as int]);
        a[i] < b[i]
    }
}

/// Dotted-numeric version compare: is `a` strictly newer than `b`?
/// Non-numeric components are treated as 0.
pub fn is_newer(a: &str, b: &str) -> (r: bool)
    ensures
        r == is_newer_spec(a@, b@),
{
    parts_less(&version_parts(b), &version_parts(a))
}

/// The version a release tag names (its leading `v`s removed), when it is
/// newer than `current`.
pub open spec fn newer_release_spec(tag: Seq<char>, current: Seq<char>) -> Option<Seq<char>> {
    let latest = trim_start_char_seq(tag, 'v');
    if is_newer_spec(latest, current) {
        Some(latest)
    } else {
        None
    }
}

pub fn newer_release(tag: &str, current: &str) -> (r: Option<String>)
    ensures
        match r {
            Some(v) => newer_release_spec(tag@, current@) == Some(v@),
            None => newer_release_spec(tag@, current@) is None,
        },
{
    let latest = trim_start_char(tag, 'v');
    if is_newer(latest.as_str(), current) {
        Some(latest)
    } else {
        None
    }
}

proof fn lemma_parts_lt_order(a: Seq<u64>, b: Seq<u64>, c: Seq<u64>)
    ensures
        !parts_lt(a, a),
        parts_lt(a, b) ==> !parts_lt(b, a),
        parts_lt(a, b) && parts_lt(b, c) ==> parts_lt(a, c),
    decreases a.len(),
{
    if a.len() > 0 && b.len() > 0 && c.len() > 0 {
        lemma_parts_lt_order(a.drop_first(), b.drop_first(), c.drop_first());
    } else if a.len() > 0 && b.len() > 0 {
        lemma_parts_lt_order(a.drop_first(), b.drop_first(), b.drop_first());
    } else if a.len() > 0 {
        lemma_parts_lt_order(a.drop_first(), a.drop_first(), a.drop_first());
    }
}

/// "Newer" is a strict order on versions: no version is newer than itself,
/// of two versions at most one is newer, and it is transitive.
pub proof fn law_newer_is_strict_order(a: Seq<char>, b: Seq<char>, c: Seq<char>)
    ensures
        !is_newer_spec(a, a),
        is_newer_spec(a, b) ==> !is_newer_spec(b, a),
        is_newer_spec(a, b) && is_newer_spec(b, c) ==> is_newer_spec(a, c),
{
    let (pa, pb, pc) = (version_parts_spec(a), version_parts_spec(b), version_parts_spec(c));
    lemma_parts_lt_order(pa, pb, pc);
    lemma_parts_lt_order(pb, pa, pc);
    lemma_parts_lt_order(pc, pb, pa);
    lemma_parts_lt_order(pb, pc, pa);
}

} // verus!
