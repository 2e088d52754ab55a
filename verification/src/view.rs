//! What the terminal screen shows, as styled text: panel layout choice, text
//! measuring and ellipsis by display width, relative times, status glyphs,
//! list rows, panel titles, header, footer and the detail modal's title.
use vstd::prelude::*;
use crate::app::LayoutKind;
use crate::clock::{spec_utc_parse, spec_utc_seconds_between, ts_view, utc_parse, utc_seconds_between};
use crate::text::{
    byte_prefix, byte_prefix_str, chars_of, owned, push_char, push_str, string_of_range,
    trim_start_char, trim_start_char_seq, u64_to_string, utf8_len, utf8_width, utf8_width_of,
    decimal,
};

verus! {

// ─── layout ──────────────────────────────────────────────────────────────────

/// Panel arrangement for a body area: 2×2 when wide (≥ 100) and tall (≥ 22);
/// 4 columns when short but wider still (≥ 112); otherwise 4 rows.
pub open spec fn layout_kind_spec(width: u16, height: u16) -> LayoutKind {
    if width >= 100 && height >= 22 {
        LayoutKind::Grid
    } else if height < 22 && width >= 112 {
        LayoutKind::Cols
    } else {
        LayoutKind::Rows
    }
}

pub fn layout_kind(width: u16, height: u16) -> (k: LayoutKind)
    ensures
        k == layout_kind_spec(width, height),
{
    let two_col = width >= 100;
    let two_row = height >= 22;
    if two_col && two_row {
        LayoutKind::Grid
    } else if !two_row && width >= 112 {
        LayoutKind::Cols
    } else {
        LayoutKind::Rows
    }
}

/// Header spinner frame `i` (braille, cycling through 10 frames).
pub open spec fn spinner_frame_spec(i: nat) -> Seq<char> {
    let k = i % 10;
    if k == 0 {
        "⠋"@
    } else if k == 1 {
        "⠙"@
    } else if k == 2 {
        "⠹"@
    } else if k == 3 {
        "⠸"@
    } else if k == 4 {
        "⠼"@
    } else if k == 5 {
        "⠴"@
    } else if k == 6 {
        "⠦"@
    } else if k == 7 {
        "⠧"@
    } else if k == 8 {
        "⠇"@
    } else {
        "⠏"@
    }
}

pub fn spinner_frame(i: usize) -> (r: &'static str)
    ensures
        r@ == spinner_frame_spec(i as nat),
{
    let k = i % 10;
    if k == 0 {
        "⠋"
    } else if k == 1 {
        "⠙"
    } else if k == 2 {
        "⠹"
    } else if k == 3 {
        "⠸"
    } else if k == 4 {
        "⠼"
    } else if k == 5 {
        "⠴"
    } else if k == 6 {
        "⠦"
    } else if k == 7 {
        "⠧"
    } else if k == 8 {
        "⠇"
    } else {
        "⠏"
    }
}

// ─── display width ───────────────────────────────────────────────────────────

/// Terminal cells a character takes: 2 for Hangul, CJK and fullwidth forms, else 1.
pub open spec fn char_width_spec(c: char) -> nat {
    let u = c as u32;
    if (0x1100 <= u <= 0x115F) || (0x2E80 <= u <= 0x303E) || (0x3041 <= u <= 0x33FF) || (0x3400
        <= u <= 0x4DBF) || (0x4E00 <= u <= 0x9FFF) || (0xA000 <= u <= 0xA4CF) || (0xAC00 <= u
        <= 0xD7A3) || (0xF900 <= u <= 0xFAFF) || (0xFF00 <= u <= 0xFF60) || (0xFFE0 <= u
        <= 0xFFE6) {
        2
    } else {
        1
    }
}

pub fn char_width(c: char) -> (w: usize)
    ensures
        w == char_width_spec(c),
{
    let u = c as u32;
    if (0x1100 <= u && u <= 0x115F) || (0x2E80 <= u && u <= 0x303E) || (0x3041 <= u && u
        <= 0x33FF) || (0x3400 <= u && u <= 0x4DBF) || (0x4E00 <= u && u <= 0x9FFF) || (0xA000
        <= u && u <= 0xA4CF) || (0xAC00 <= u && u <= 0xD7A3) || (0xF900 <= u && u <= 0xFAFF)
        || (0xFF00 <= u && u <= 0xFF60) || (0xFFE0 <= u && u <= 0xFFE6) {
        2
    } else {
        1
    }
}

/// Display width of a text (cell count).
pub open spec fn display_width_spec(s: Seq<char>) -> nat
    decreases s.len(),
{
    if s.len() == 0 {
        0
    } else {
        display_width_spec(s.drop_last()) + char_width_spec(s.last())
    }
}

/// The display width, saturating at `usize::MAX`.
pub fn display_width(s: &str) -> (w: usize)
    ensures
        w == (if display_width_spec(s@) <= usize::MAX {
            display_width_spec(s@)
        } else {
            usize::MAX as nat
        }),
{
    let v = chars_of(s);
    let mut w: usize = 0;
    let mut i: usize = 0;
    while i < v.len()
        invariant
            i <= v@.len(),
            w == (if display_width_spec(v@.take(i as int)) <= usize::MAX {
                display_width_spec(v@.take(i as int))
            } else {
                usize::MAX as nat
            }),
        decreases v@.len() - i,
    {
        assert(v@.take(i + 1).drop_last() =~= v@.take(i as int));
        let cw = char_width(v[i]);
        w = w.saturating_add(cw);
        i += 1;
    }
    assert(v@.take(i as int) =~= v@);
    w
}

/// Whether `v` fits in `max` cells.
fn width_at_most(v: &Vec<char>, max: usize) -> (b: bool)
    ensures
        b == (display_width_spec(v@) <= max),
{
    let mut w: u128 = 0;
    let mut i: usize = 0;
    while i < v.len()
        invariant
            i <= v@.len(),
            w == display_width_spec(v@.take(i as int)),
            w <= max,
        decreases v@.len() - i,
    {
        assert(v@.take(i + 1).drop_last() =~= v@.take(i as int));
        w = w + char_width(v[i]) as u128;
        i += 1;
        if w > max as u128 {
            proof {
                lemma_display_width_prefix(v@, i as int);
            }
            return false;
        }
    }
    assert(v@.take(i as int) =~= v@);
    true
}

proof fn lemma_display_width_prefix(s: Seq<char>, k: int)
    requires
        0 <= k <= s.len(),
    ensures
        display_width_spec(s.take(k)) <= display_width_spec(s),
    decreases s.len(),
{
    if k < s.len() {
        assert(s.drop_last().take(k) =~= s.take(k));
        lemma_display_width_prefix(s.drop_last(), k);
    } else {
        assert(s.take(k) =~= s);
    }
}

/// Cuts to `max` characters, the last replaced by `…` when it is longer.
pub open spec fn truncate_spec(s: Seq<char>, max: nat) -> Seq<char> {
    if s.len() <= max {
        s
    } else {
        s.take(
            if max >= 1 {
                max - 1
            } else {
                0
            },
        ) + "…"@
    }
}

pub fn truncate(s: &str, max: usize) -> (r: String)
    ensures
        r@ == truncate_spec(s@, max as nat),
{
    let v = chars_of(s);
    if v.len() <= max {
        owned(s)
    } else {
        let keep: usize = if max >= 1 {
            max - 1
        } else {
            0
        };
        let mut r = string_of_range(&v, 0, keep);
        push_str(&mut r, "…");
        assert(v@.subrange(0, keep as int) =~= v@.take(keep as int));
        r
    }
}

/// The longest prefix of `s` that fits in `budget` cells.
pub open spec fn width_prefix(s: Seq<char>, budget: nat) -> Seq<char>
    decreases s.len(),
{
    if s.len() == 0 || char_width_spec(s[0]) > budget {
        Seq::empty()
    } else {
        seq![s[0]] + width_prefix(s.drop_first(), (budget - char_width_spec(s[0])) as nat)
    }
}

/// Cuts by display width, ending in `…` (one cell) when it overflows.
pub open spec fn truncate_width_spec(s: Seq<char>, max: nat) -> Seq<char> {
    if display_width_spec(s) <= max {
        s
    } else {
        width_prefix(
            s,
            if max >= 1 {
                (max - 1) as nat
            } else {
                0
            },
        ) + "…"@
    }
}

pub fn truncate_width(s: &str, max: usize) -> (r: String)
    ensures
        r@ == truncate_width_spec(s@, max as nat),
{
    let v = chars_of(s);
    if width_at_most(&v, max) {
        return owned(s);
    }
    let budget: usize = if max >= 1 {
        max - 1
    } else {
        0
    };
    let mut i: usize = 0;
    let mut rem: usize = budget;
    assert(v@.skip(0) =~= v@);
    assert(v@.take(0) =~= Seq::<char>::empty());
    while i < v.len() && char_width(v[i]) <= rem
        invariant
            i <= v@.len(),
            rem <= budget,
            width_prefix(v@, budget as nat) == v@.take(i as int) + width_prefix(
                v@.skip(i as int),
                rem as nat,
            ),
        decreases v@.len() - i,
    {
        let w = char_width(v[i]);
        proof {
            let t = v@.skip(i as int);
            assert(t[0] == v@[i as int]);
            assert(t.drop_first() =~= v@.skip(i + 1));
            assert(v@.take(i + 1) =~= v@.take(i as int) + seq![v@[i as int]]);
        }
        rem = rem - w;
        i += 1;
    }
    proof {
        let t = v@.skip(i as int);
        if i < v@.len() {
            assert(t[0] == v@[i as int]);
        }
        assert(width_prefix(t, rem as nat) =~= Seq::<char>::empty());
    }
    let mut r = string_of_range(&v, 0, i);
    assert(r@ =~= v@.take(i as int));
    push_str(&mut r, "…");
    r
}

proof fn lemma_width_prefix_fits(s: Seq<char>, budget: nat)
    ensures
        display_width_spec(width_prefix(s, budget)) <= budget,
    decreases s.len(),
{
    if s.len() > 0 && char_width_spec(s[0]) <= budget {
        let rest = (budget - char_width_spec(s[0])) as nat;
        lemma_width_prefix_fits(s.drop_first(), rest);
        lemma_display_width_cons(s[0], width_prefix(s.drop_first(), rest));
    }
}

proof fn lemma_display_width_cons(c: char, t: Seq<char>)
    ensures
        display_width_spec(seq![c] + t) == char_width_spec(c) + display_width_spec(t),
    decreases t.len(),
{
    if t.len() > 0 {
        assert((seq![c] + t).drop_last() =~= seq![c] + t.drop_last());
        assert((seq![c] + t).last() == t.last());
        lemma_display_width_cons(c, t.drop_last());
    } else {
        assert(seq![c] + t =~= seq![c]);
        assert(seq![c].drop_last() =~= Seq::<char>::empty());
        assert(display_width_spec(Seq::<char>::empty()) == 0);
        assert(display_width_spec(seq![c]) == display_width_spec(seq![c].drop_last()) + char_width_spec(c));
    }
}

proof fn lemma_display_width_append(a: Seq<char>, b: Seq<char>)
    ensures
        display_width_spec(a + b) == display_width_spec(a) + display_width_spec(b),
    decreases b.len(),
{
    if b.len() > 0 {
        assert((a + b).drop_last() =~= a + b.drop_last());
        lemma_display_width_append(a, b.drop_last());
    } else {
        assert(a + b =~= a);
    }
}

/// Cutting by display width fits the width: the result of `truncate_width`
/// takes at most `max` cells (for `max` of at least one cell, which the
/// ellipsis needs).
pub proof fn law_truncate_width_fits(s: Seq<char>, max: nat)
    requires
        max >= 1,
    ensures
        display_width_spec(truncate_width_spec(s, max)) <= max,
{
    if display_width_spec(s) > max {
        let p = width_prefix(s, (max - 1) as nat);
        lemma_width_prefix_fits(s, (max - 1) as nat);
        lemma_display_width_append(p, "…"@);
        reveal_strlit("…");
        assert("…"@ =~= seq!['…']);
        assert(seq!['…'].drop_last() =~= Seq::<char>::empty());
        assert(display_width_spec(Seq::<char>::empty()) == 0);
        assert(char_width_spec('…') == 1);
        assert(display_width_spec(seq!['…']) == display_width_spec(seq!['…'].drop_last()) + char_width_spec('…'));
    }
}

/// Cutting by characters fits the length: `truncate` keeps at most `max`
/// characters (for `max` of at least one, which the ellipsis needs), and a
/// text that fits is kept as it is.
pub proof fn law_truncate_fits(s: Seq<char>, max: nat)
    requires
        max >= 1,
    ensures
        truncate_spec(s, max).len() <= max,
        s.len() <= max ==> truncate_spec(s, max) == s,
{
    reveal_strlit("…");
}

// ─── label colors ────────────────────────────────────────────────────────────

/// Value of a hex digit.
pub open spec fn hex_digit(c: char) -> Option<nat> {
    if '0' <= c && c <= '9' {
        Some((c as u32 - '0' as u32) as nat)
    } else if 'a' <= c && c <= 'f' {
        Some((c as u32 - 'a' as u32 + 10) as nat)
    } else if 'A' <= c && c <= 'F' {
        Some((c as u32 - 'A' as u32 + 10) as nat)
    } else {
        None
    }
}

/// The value of hex digits (`None` if one is not a hex digit).
pub open spec fn hex_value(d: Seq<char>) -> Option<nat>
    decreases d.len(),
{
    if d.len() == 0 {
        Some(0)
    } else {
        match (hex_value(d.drop_last()), hex_digit(d.last())) {
            (Some(a), Some(b)) => Some(a * 16 + b),
            _ => None,
        }
    }
}

/// `u8::from_str_radix(s, 16)`: an optional `+`, then at least one hex digit,
/// with a value below 256.
pub open spec fn radix16_u8(s: Seq<char>) -> Option<u8> {
    let d = if s.len() > 0 && s[0] == '+' {
        s.drop_first()
    } else {
        s
    };
    if d.len() == 0 {
        None
    } else {
        match hex_value(d) {
            Some(v) => if v < 256 {
                Some(v as u8)
            } else {
                None
            },
            None => None,
        }
    }
}

fn hex_digit_of(c: char) -> (r: Option<u32>)
    ensures
        match r {
            Some(v) => hex_digit(c) == Some(v as nat),
            None => hex_digit(c) is None,
        },
{
    if '0' <= c && c <= '9' {
        Some(c as u32 - '0' as u32)
    } else if 'a' <= c && c <= 'f' {
        Some(c as u32 - 'a' as u32 + 10)
    } else if 'A' <= c && c <= 'F' {
        Some(c as u32 - 'A' as u32 + 10)
    } else {
        None
    }
}

proof fn lemma_hex_value_grows(d: Seq<char>, k: int)
    requires
        0 <= k <= d.len(),
        hex_value(d) is Some,
    ensures
        hex_value(d.take(k)) is Some,
        hex_value(d.take(k))->0 <= hex_value(d)->0,
    decreases d.len(),
{
    if k < d.len() {
        assert(d.drop_last().take(k) =~= d.take(k));
        lemma_hex_value_grows(d.drop_last(), k);
    } else {
        assert(d.take(k) =~= d);
    }
}

/// `u8::from_str_radix(s, 16)` on a text.
pub fn parse_radix16_u8(s: &str) -> (r: Option<u8>)
    ensures
        r == radix16_u8(s@),
{
    let v = chars_of(s);
    let start: usize = if v.len() > 0 && v[0] == '+' {
        1
    } else {
        0
    };
    let ghost d = v@.skip(start as int);
    assert(start == 0 ==> d =~= v@);
    assert(start == 1 ==> d =~= v@.drop_first());
    if start == v.len() {
        return None;
    }
    let mut acc: u32 = 0;
    let mut i: usize = start;
    assert(d.take(0) =~= Seq::<char>::empty());
    while i < v.len()
        invariant
            start <= i <= v@.len(),
            d == v@.skip(start as int),
            v@ == s@,
            d.len() > 0,
            d == (if s@.len() > 0 && s@[0] == '+' {
                s@.drop_first()
            } else {
                s@
            }),
            hex_value(d.take(i - start)) == Some(acc as nat),
            acc < 256,
        decreases v@.len() - i,
    {
        assert(d.take(i + 1 - start).drop_last() =~= d.take(i - start));
        assert(d.take(i + 1 - start).last() == v@[i as int]);
        match hex_digit_of(v[i]) {
            Some(x) => {
                let next = acc * 16 + x;
                if next >= 256 {
                    proof {
                        assert(hex_value(d.take(i + 1 - start)) == Some(next as nat));
                        if hex_value(d) is Some {
                            lemma_hex_value_grows(d, i + 1 - start);
                        }
                    }
                    return None;
                }
                acc = next;
            },
            None => {
                proof {
                    assert(hex_value(d.take(i + 1 - start)) is None);
                    if hex_value(d) is Some {
                        lemma_hex_value_grows(d, i + 1 - start);
                    }
                }
                return None;
            },
        }
        i += 1;
    }
    assert(d.take(i - start) =~= d);
    Some(acc as u8)
}

/// The hex color text without its leading `#`s.
pub open spec fn hex_body(hex: Seq<char>) -> Seq<char> {
    trim_start_char_seq(hex, '#')
}

/// The first two bytes of the color text, and the text after them.
pub open spec fn hex_first(h: Seq<char>) -> Seq<char> {
    byte_prefix(h, 2)
}

pub open spec fn hex_rest(h: Seq<char>) -> Seq<char> {
    h.skip(hex_first(h).len() as int)
}

/// Cutting the six bytes of a color into pairs falls on character
/// boundaries wherever a cut is made (a cut inside a character is refused).
pub open spec fn hex_cuts_ok_spec(hex: Seq<char>) -> bool {
    let h = hex_body(hex);
    utf8_len(h) != 6 || (utf8_len(hex_first(h)) == 2 && (radix16_u8(hex_first(h)) is None
        || utf8_len(hex_first(hex_rest(h))) == 2))
}

/// `RRGGBB` (leading `#` allowed) → `(r, g, b)`; `None` unless it is six
/// bytes of three hex pairs.
pub open spec fn parse_hex_spec(hex: Seq<char>) -> Option<(u8, u8, u8)> {
    let h = hex_body(hex);
    if utf8_len(h) != 6 {
        None
    } else {
        let rest = hex_rest(h);
        match (
            radix16_u8(hex_first(h)),
            radix16_u8(hex_first(rest)),
            radix16_u8(hex_rest(rest)),
        ) {
            (Some(r), Some(g), Some(b)) => Some((r, g, b)),
            _ => None,
        }
    }
}

fn utf8_len_is(v: &Vec<char>, n: usize) -> (b: bool)
    requires
        n < 64,
    ensures
        b == (utf8_len(v@) == n),
{
    let a = crate::text::utf8_at_least(v, v.len(), n);
    let c = crate::text::utf8_at_least(v, v.len(), n + 1);
    assert(v@.take(v@.len() as int) =~= v@);
    a && !c
}

/// Whether `parse_hex` can cut this color text (see `hex_cuts_ok_spec`).
pub fn hex_cuts_ok(hex: &str) -> (b: bool)
    ensures
        b == hex_cuts_ok_spec(hex@),
{
    let h = trim_start_char(hex, '#');
    let hv = chars_of(h.as_str());
    if !utf8_len_is(&hv, 6) {
        return true;
    }
    let first = byte_prefix_str(h.as_str(), 2);
    let fv = chars_of(first.as_str());
    if !utf8_len_is(&fv, 2) {
        return false;
    }
    if parse_radix16_u8(first.as_str()).is_none() {
        return true;
    }
    proof {
        lemma_byte_prefix_is_prefix(h@, 2);
    }
    let rest = string_of_range(&hv, fv.len(), hv.len());
    assert(rest@ =~= hex_rest(h@));
    let second = byte_prefix_str(rest.as_str(), 2);
    let sv = chars_of(second.as_str());
    utf8_len_is(&sv, 2)
}

pub proof fn lemma_byte_prefix_is_prefix(s: Seq<char>, n: nat)
    ensures
        byte_prefix(s, n).len() <= s.len(),
        byte_prefix(s, n) == s.take(byte_prefix(s, n).len() as int),
    decreases s.len(),
{
    if s.len() > 0 && utf8_width(s[0]) <= n {
        lemma_byte_prefix_is_prefix(s.drop_first(), (n - utf8_width(s[0])) as nat);
        let r = byte_prefix(s.drop_first(), (n - utf8_width(s[0])) as nat);
        assert(seq![s[0]] + r =~= s.take(r.len() + 1 as int));
    }
}

/// "RRGGBB" (leading `#` allowed) → (r, g, b).
pub fn parse_hex(hex: &str) -> (r: Option<(u8, u8, u8)>)
    requires
        hex_cuts_ok_spec(hex@),
    ensures
        r == parse_hex_spec(hex@),
{
    let h = trim_start_char(hex, '#');
    let hv = chars_of(h.as_str());
    if !utf8_len_is(&hv, 6) {
        return None;
    }
    let first = byte_prefix_str(h.as_str(), 2);
    let fv = chars_of(first.as_str());
    proof {
        lemma_byte_prefix_is_prefix(h@, 2);
    }
    let r = match parse_radix16_u8(first.as_str()) {
        Some(x) => x,
        None => return None,
    };
    let rest = string_of_range(&hv, fv.len(), hv.len());
    assert(rest@ =~= hex_rest(h@));
    let second = byte_prefix_str(rest.as_str(), 2);
    let sv = chars_of(second.as_str());
    let rv = chars_of(rest.as_str());
    proof {
        lemma_byte_prefix_is_prefix(rest@, 2);
    }
    let g = match parse_radix16_u8(second.as_str()) {
        Some(x) => x,
        None => return None,
    };
    let third = string_of_range(&rv, sv.len(), rv.len());
    assert(third@ =~= hex_rest(rest@));
    let b = match parse_radix16_u8(third.as_str()) {
        Some(x) => x,
        None => return None,
    };
    Some((r, g, b))
}

// ─── relative time ───────────────────────────────────────────────────────────

/// Age in seconds of an ISO 8601 time at `now` (negative ages as 0); `None`
/// when the text is not a time.
pub open spec fn age_spec(iso: Seq<char>, now: (int, int)) -> Option<int> {
    match spec_utc_parse(iso) {
        Some(t) => match spec_utc_seconds_between(now, t) {
            Some(d) => Some(
                if d > 0 {
                    d
                } else {
                    0
                },
            ),
            None => None,
        },
        None => None,
    }
}

pub fn age_secs(iso: &str, now: (i64, u32)) -> (r: Option<i64>)
    ensures
        match r {
            Some(d) => age_spec(iso@, ts_view(now)) == Some(d as int),
            None => age_spec(iso@, ts_view(now)) is None,
        },
{
    match utc_parse(iso) {
        Some(t) => match utc_seconds_between(now, t) {
            Some(d) => Some(
                if d > 0 {
                    d
                } else {
                    0
                },
            ),
            None => None,
        },
        None => None,
    }
}

/// An age as `5s` · `3m` · `2h` · `4d`; `—` without one.
pub open spec fn rel_time_spec(age: Option<int>) -> Seq<char> {
    match age {
        None => "—"@,
        Some(s) => {
            let n: nat = if s > 0 {
                s as nat
            } else {
                0
            };
            if n < 60 {
                decimal(n) + "s"@
            } else if n < 3600 {
                decimal(n / 60) + "m"@
            } else if n < 86400 {
                decimal(n / 3600) + "h"@
            } else {
                decimal(n / 86400) + "d"@
            }
        },
    }
}

pub fn rel_time(age: Option<i64>) -> (r: String)
    requires
        age matches Some(s) ==> s >= 0,
    ensures
        r@ == rel_time_spec(
            match age {
                Some(s) => Some(s as int),
                None => None,
            },
        ),
{
    match age {
        None => owned("—"),
        Some(s) => {
            let n = s as u64;
            let (v, unit) = if n < 60 {
                (n, "s")
            } else if n < 3600 {
                (n / 60, "m")
            } else if n < 86400 {
                (n / 3600, "h")
            } else {
                (n / 86400, "d")
            };
            let mut out = u64_to_string(v);
            push_str(&mut out, unit);
            out
        },
    }
}

} // verus!
