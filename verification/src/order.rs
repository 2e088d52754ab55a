//! Text ordering and stable sorting by text keys: the order `str` compares
//! in (by code point, a proper prefix first), and a stable insertion sort of
//! positions by `(major, minor)` keys.
use vstd::prelude::*;
use crate::text::{chars_of, str_eq};

verus! {

/// `a` sorts strictly before `b`.
pub open spec fn text_lt(a: Seq<char>, b: Seq<char>) -> bool
    decreases a.len(),
{
    if b.len() == 0 {
        false
    } else if a.len() == 0 {
        true
    } else if a[0] != b[0] {
        (a[0] as u32) < (b[0] as u32)
    } else {
        text_lt(a.drop_first(), b.drop_first())
    }
}

pub proof fn lemma_text_lt_irreflexive(a: Seq<char>)
    ensures
        !text_lt(a, a),
    decreases a.len(),
{
    if a.len() > 0 {
        lemma_text_lt_irreflexive(a.drop_first());
    }
}

pub proof fn lemma_text_lt_transitive(a: Seq<char>, b: Seq<char>, c: Seq<char>)
    requires
        text_lt(a, b),
        text_lt(b, c),
    ensures
        text_lt(a, c),
    decreases a.len(),
{
    if a.len() > 0 && b.len() > 0 && c.len() > 0 && a[0] == b[0] && b[0] == c[0] {
        lemma_text_lt_transitive(a.drop_first(), b.drop_first(), c.drop_first());
    }
}

pub proof fn lemma_text_lt_total(a: Seq<char>, b: Seq<char>)
    ensures
        text_lt(a, b) || text_lt(b, a) || a == b,
    decreases a.len(),
{
    if a.len() > 0 && b.len() > 0 && a[0] == b[0] {
        lemma_text_lt_total(a.drop_first(), b.drop_first());
        if a.drop_first() == b.drop_first() {
            assert(a =~= seq![a[0]] + a.drop_first());
            assert(b =~= seq![b[0]] + b.drop_first());
        }
    } else if a.len() == 0 && b.len() == 0 {
        assert(a =~= b);
    } else if a.len() > 0 && b.len() > 0 {
        vstd::utf8::char_u32_cast(a[0], a[0] as u32);
        vstd::utf8::char_u32_cast(b[0], b[0] as u32);
    }
}

/// Whether `a` sorts strictly before `b`.
pub fn str_lt(a: &str, b: &str) -> (r: bool)
    ensures
        r == text_lt(a@, b@),
{
    let av = chars_of(a);
    let bv = chars_of(b);
    let mut i: usize = 0;
    assert(av@.skip(0) =~= av@);
    assert(bv@.skip(0) =~= bv@);
    while i < av.len() && i < bv.len() && av[i] == bv[i]
        invariant
            i <= av@.len(),
            i <= bv@.len(),
            text_lt(av@, bv@) == text_lt(av@.skip(i as int), bv@.skip(i as int)),
        decreases av@.len() - i,
    {
        assert(av@.skip(i as int).drop_first() =~= av@.skip(i + 1));
        assert(bv@.skip(i as int).drop_first() =~= bv@.skip(i + 1));
        i += 1;
    }
    let ghost sa = av@.skip(i as int);
    let ghost sb = bv@.skip(i as int);
    if i == bv.len() {
        assert(sb.len() == 0);
        false
    } else if i == av.len() {
        assert(sa.len() == 0 && sb.len() > 0);
        true
    } else {
        assert(sa[0] == av@[i as int] && sb[0] == bv@[i as int]);
        assert(sa[0] != sb[0]);
        (av[i] as u32) < (bv[i] as u32)
    }
}

/// A `(major, minor)` key: ordered by `major`, then by `minor`.
pub open spec fn key_lt(a: (Seq<char>, Seq<char>), b: (Seq<char>, Seq<char>)) -> bool {
    text_lt(a.0, b.0) || (a.0 == b.0 && text_lt(a.1, b.1))
}

pub proof fn lemma_key_lt_order(a: (Seq<char>, Seq<char>), b: (Seq<char>, Seq<char>), c: (Seq<char>, Seq<char>))
    ensures
        !key_lt(a, a),
        key_lt(a, b) && key_lt(b, c) ==> key_lt(a, c),
        key_lt(a, b) || key_lt(b, a) || a == b,
{
    lemma_text_lt_irreflexive(a.0);
    lemma_text_lt_irreflexive(a.1);
    lemma_text_lt_total(a.0, b.0);
    lemma_text_lt_total(a.1, b.1);
    if text_lt(a.0, b.0) && text_lt(b.0, c.0) {
        lemma_text_lt_transitive(a.0, b.0, c.0);
    }
    if text_lt(a.1, b.1) && text_lt(b.1, c.1) {
        lemma_text_lt_transitive(a.1, b.1, c.1);
    }
    if text_lt(a.0, b.0) && text_lt(b.0, a.0) {
        lemma_text_lt_transitive(a.0, b.0, a.0);
    }
}

/// A sort key of exec values.
pub struct SortKey {
    pub major: String,
    pub minor: String,
}

pub open spec fn key_view(k: SortKey) -> (Seq<char>, Seq<char>) {
    (k.major@, k.minor@)
}

pub open spec fn keys_view(ks: Seq<SortKey>) -> Seq<(Seq<char>, Seq<char>)> {
    ks.map_values(|k: SortKey| key_view(k))
}

pub fn key_less(a: &SortKey, b: &SortKey) -> (r: bool)
    ensures
        r == key_lt(key_view(*a), key_view(*b)),
{
    str_lt(a.major.as_str(), b.major.as_str()) || (str_eq(a.major.as_str(), b.major.as_str())
        && str_lt(a.minor.as_str(), b.minor.as_str()))
}

/// Where position `x` goes among `order`: before the first entry whose key
/// is greater than its own (so after every entry with an equal key).
pub open spec fn insert_pos(order: Seq<usize>, keys: Seq<(Seq<char>, Seq<char>)>, x: int) -> nat
    decreases order.len(),
{
    if order.len() == 0 {
        0
    } else if key_lt(keys[x], keys[order[0] as int]) {
        0
    } else {
        1 + insert_pos(order.drop_first(), keys, x)
    }
}

/// The positions `0..n` in stable order of their keys: ordered by key, and
/// positions with equal keys in their original order.
pub open spec fn stable_order(keys: Seq<(Seq<char>, Seq<char>)>, n: nat) -> Seq<usize>
    decreases n,
{
    if n == 0 {
        Seq::empty()
    } else {
        let o = stable_order(keys, (n - 1) as nat);
        o.insert(insert_pos(o, keys, n - 1) as int, (n - 1) as usize)
    }
}

pub proof fn lemma_insert_pos_bound(order: Seq<usize>, keys: Seq<(Seq<char>, Seq<char>)>, x: int)
    ensures
        insert_pos(order, keys, x) <= order.len(),
    decreases order.len(),
{
    if order.len() > 0 {
        lemma_insert_pos_bound(order.drop_first(), keys, x);
    }
}

pub proof fn lemma_stable_order_len(keys: Seq<(Seq<char>, Seq<char>)>, n: nat)
    requires
        n <= usize::MAX,
    ensures
        stable_order(keys, n).len() == n,
        forall|k: int| 0 <= k < n ==> (#[trigger] stable_order(keys, n)[k]) < n,
    decreases n,
{
    if n > 0 {
        let o = stable_order(keys, (n - 1) as nat);
        lemma_stable_order_len(keys, (n - 1) as nat);
        lemma_insert_pos_bound(o, keys, n - 1);
        let p = insert_pos(o, keys, n - 1) as int;
        let r = o.insert(p, (n - 1) as usize);
        assert forall|k: int| 0 <= k < n implies (#[trigger] r[k]) < n by {
            if k < p {
                assert(r[k] == o[k]);
            } else if k > p {
                assert(r[k] == o[k - 1]);
            }
        }
    }
}

proof fn lemma_insert_pos_props(order: Seq<usize>, keys: Seq<(Seq<char>, Seq<char>)>, x: int)
    ensures
        forall|j: int|
            0 <= j < insert_pos(order, keys, x) ==> !key_lt(keys[x], #[trigger] keys[order[j] as int]),
        insert_pos(order, keys, x) < order.len() ==> key_lt(
            keys[x],
            keys[order[insert_pos(order, keys, x) as int] as int],
        ),
    decreases order.len(),
{
    if order.len() > 0 && !key_lt(keys[x], keys[order[0] as int]) {
        let rest = order.drop_first();
        lemma_insert_pos_props(rest, keys, x);
        lemma_insert_pos_bound(rest, keys, x);
        assert forall|j: int|
            0 <= j < insert_pos(order, keys, x) implies !key_lt(keys[x], #[trigger] keys[order[j] as int]) by {
            if j > 0 {
                assert(order[j] == rest[j - 1]);
            }
        }
    }
}

/// The stable order is a permutation of `0..n`, sorted by key, and keeps
/// positions with equal keys in their original order.
pub proof fn law_stable_order(keys: Seq<(Seq<char>, Seq<char>)>, n: nat)
    requires
        n <= keys.len(),
        n <= usize::MAX,
    ensures
        stable_order(keys, n).len() == n,
        forall|k: int| 0 <= k < n ==> (#[trigger] stable_order(keys, n)[k]) < n,
        forall|a: int, b: int|
            0 <= a < n && 0 <= b < n && a != b ==> stable_order(keys, n)[a] != stable_order(
                keys,
                n,
            )[b],
        forall|a: int, b: int|
            0 <= a < b < n ==> !key_lt(
                keys[stable_order(keys, n)[b] as int],
                keys[stable_order(keys, n)[a] as int],
            ),
        forall|a: int, b: int|
            0 <= a < b < n && keys[stable_order(keys, n)[a] as int] == keys[stable_order(
                keys,
                n,
            )[b] as int] ==> stable_order(keys, n)[a] < stable_order(keys, n)[b],
    decreases n,
{
    lemma_stable_order_len(keys, n);
    if n > 0 {
        let m = (n - 1) as nat;
        let o = stable_order(keys, m);
        law_stable_order(keys, m);
        lemma_insert_pos_bound(o, keys, m as int);
        lemma_insert_pos_props(o, keys, m as int);
        let p = insert_pos(o, keys, m as int) as int;
        let r = o.insert(p, m as usize);
        assert(r == stable_order(keys, n));
        assert(r[p] == m);
        assert forall|a: int| 0 <= a < n && a != p implies (#[trigger] r[a]) < m by {
            if a < p {
                assert(r[a] == o[a]);
            } else {
                assert(r[a] == o[a - 1]);
            }
        }
        assert forall|a: int, b: int| 0 <= a < b < n implies !key_lt(
            keys[r[b] as int],
            keys[r[a] as int],
        ) && (keys[r[a] as int] == keys[r[b] as int] ==> r[a] < r[b]) by {
            let ka = keys[r[a] as int];
            let kb = keys[r[b] as int];
            if b < p {
                assert(r[a] == o[a] && r[b] == o[b]);
            } else if a > p {
                assert(r[a] == o[a - 1] && r[b] == o[b - 1]);
            } else if a < p && b > p {
                assert(r[a] == o[a] && r[b] == o[b - 1]);
            } else if a == p {
                // b > p: the inserted key is below o[p], which is at most o[b - 1].
                assert(r[b] == o[b - 1]);
                let kx = keys[m as int];
                let kp = keys[o[p] as int];
                assert(key_lt(kx, kp));
                lemma_key_lt_order(kx, kp, kb);
                lemma_key_lt_order(kp, kb, kx);
                lemma_key_lt_order(kb, kx, kp);
                if b - 1 > p {
                    assert(!key_lt(keys[o[b - 1] as int], keys[o[p] as int]));
                }
                lemma_key_lt_order(kx, kb, kx);
                assert(key_lt(kx, kb));
                lemma_key_lt_order(kb, kx, kb);
            } else {
                // b == p, a < p: entries before the insertion point are not above it.
                assert(r[a] == o[a]);
                assert(!key_lt(keys[m as int], keys[o[a] as int]));
            }
        }
    }
}

/// The positions of `keys` in stable key order.
pub fn sort_order(keys: &Vec<SortKey>) -> (r: Vec<usize>)
    ensures
        r@ == stable_order(keys_view(keys@), keys@.len()),
        r@.len() == keys@.len(),
        forall|k: int| 0 <= k < r@.len() ==> (#[trigger] r@[k]) < keys@.len(),
{
    let ghost kv = keys_view(keys@);
    let mut order: Vec<usize> = Vec::new();
    let mut i: usize = 0;
    while i < keys.len()
        invariant
            i <= keys@.len(),
            kv == keys_view(keys@),
            order@ == stable_order(kv, i as nat),
            order@.len() == i,
            forall|k: int| 0 <= k < order@.len() ==> (#[trigger] order@[k]) < i,
        decreases keys@.len() - i,
    {
        let mut j: usize = 0;
        assert(order@.skip(0) =~= order@);
        while j < order.len() && !key_less(&keys[i], &keys[order[j]])
            invariant
                i < keys@.len(),
                j <= order@.len(),
                kv == keys_view(keys@),
                order@.len() == i,
                forall|k: int| 0 <= k < order@.len() ==> (#[trigger] order@[k]) < i,
                insert_pos(order@, kv, i as int) == j + insert_pos(
                    order@.skip(j as int),
                    kv,
                    i as int,
                ),
            decreases order@.len() - j,
        {
            assert(order@.skip(j as int).drop_first() =~= order@.skip(j + 1));
            j += 1;
        }
        proof {
            if j < order@.len() {
                assert(order@.skip(j as int)[0] == order@[j as int]);
            }
        }
        let ghost before = order@;
        order.insert(j, i);
        proof {
            assert forall|k: int| 0 <= k < order@.len() implies (#[trigger] order@[k]) < i + 1 by {
                if k < j {
                    assert(order@[k] == before[k]);
                } else if k > j {
                    assert(order@[k] == before[k - 1]);
                }
            }
        }
        i += 1;
    }
    order
}

} // verus!
