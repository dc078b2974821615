//! User theming: the colour config read once at startup.
//!
//! It overrides **colours**, by role name, and nothing else. A `[dark]` or
//! `[light]` section maps role names to hex colours; a `[wallpaper]`
//! section names a few seed colours from which the application derives a
//! whole palette. Problems are collected as warnings and the file is
//! applied anyway: the check is a reading, not a veto.
//!
//! This module holds the reading itself — the line syntax, the comment
//! rule, the hex colours, the role vocabulary and its "did you mean"
//! suggestions, and how explicit roles combine with a derived base — as
//! functions of the text alone.
use vstd::prelude::*;
use crate::text::{
    chars_of, dec, ends_with, find_char, is_space, lemma_find_char_bounds, lemma_trim_len, lines,
    next_line, push_chars, push_dec, push_str, same_chars, slice, string_of, trim, trim_end,
    trim_end_exec, trim_exec, trim_start,
};
use crate::theme::{
    find_role, lemma_role_index_from, role_index, role_name, role_name_str, Mode, Palette, ROLE_COUNT,
};

verus! {

/// A colour as a config file writes it: four 8-bit channels.
#[derive(Debug, Clone, Copy, PartialEq, Eq, Structural)]
pub struct Rgba8 {
    pub r: u8,
    pub g: u8,
    pub b: u8,
    pub a: u8,
}

// ---------------------------------------------------------------------
// Hex colours
// ---------------------------------------------------------------------

pub open spec fn is_hex_digit(c: char) -> bool {
    ('0' <= c <= '9') || ('a' <= c <= 'f') || ('A' <= c <= 'F')
}

/// The value of a hex digit.
pub open spec fn hex_value(c: char) -> nat {
    if '0' <= c <= '9' {
        (c as u32 - '0' as u32) as nat
    } else if 'a' <= c <= 'f' {
        (c as u32 - 'a' as u32 + 10) as nat
    } else {
        (c as u32 - 'A' as u32 + 10) as nat
    }
}

/// Index of the first character at or after `i` that is not `c`.
pub open spec fn skip_char(s: Seq<char>, c: char, i: int) -> int
    decreases s.len() - i,
{
    if 0 <= i < s.len() && s[i] == c {
        skip_char(s, c, i + 1)
    } else {
        i
    }
}

/// One past the last character before `j` that is not `c`.
pub open spec fn back_char(s: Seq<char>, c: char, j: int) -> int
    decreases j,
{
    if 0 < j <= s.len() && s[j - 1] == c {
        back_char(s, c, j - 1)
    } else {
        j
    }
}

/// `str::trim_start_matches(c)`: every leading `c` removed.
pub open spec fn trim_start_char(s: Seq<char>, c: char) -> Seq<char> {
    s.skip(skip_char(s, c, 0))
}

/// `str::trim_matches(c)`: every leading and trailing `c` removed.
pub open spec fn trim_char(s: Seq<char>, c: char) -> Seq<char> {
    let t = trim_start_char(s, c);
    t.take(back_char(t, c, t.len() as int))
}

/// The digits of a colour value: trimmed, then with its leading `#`
/// removed. There is at most one, and it is optional, so a value pasted
/// from a palette tool works either way.
pub open spec fn hex_digits(value: Seq<char>) -> Seq<char> {
    let t = trim(value);
    if t.len() > 0 && t[0] == '#' {
        t.skip(1)
    } else {
        t
    }
}

/// Two hex digits as one byte.
pub open spec fn hex_byte(h: Seq<char>, i: int) -> nat {
    hex_value(h[i]) * 16 + hex_value(h[i + 1])
}

/// `#rgb`, `#rrggbb`, or `#rrggbbaa`, read as bytes. In the shorthand form
/// each digit is doubled, so `#abc` is `#aabbcc`; without an alpha the
/// colour is opaque.
pub open spec fn parse_hex(value: Seq<char>) -> Option<Rgba8> {
    let h = hex_digits(value);
    if !(forall|i: int| 0 <= i < h.len() ==> is_hex_digit(#[trigger] h[i])) {
        None
    } else if h.len() == 3 {
        Some(
            Rgba8 {
                r: (hex_value(h[0]) * 17) as u8,
                g: (hex_value(h[1]) * 17) as u8,
                b: (hex_value(h[2]) * 17) as u8,
                a: 255,
            },
        )
    } else if h.len() == 6 {
        Some(
            Rgba8 {
                r: hex_byte(h, 0) as u8,
                g: hex_byte(h, 2) as u8,
                b: hex_byte(h, 4) as u8,
                a: 255,
            },
        )
    } else if h.len() == 8 {
        Some(
            Rgba8 {
                r: hex_byte(h, 0) as u8,
                g: hex_byte(h, 2) as u8,
                b: hex_byte(h, 4) as u8,
                a: hex_byte(h, 6) as u8,
            },
        )
    } else {
        None
    }
}

/// A run of hex digits is its own colour text, and so is the same run
/// behind one `#`.
proof fn lemma_hex_digits_of_digits(s: Seq<char>)
    requires
        s.len() > 0,
        forall|i: int| 0 <= i < s.len() ==> is_hex_digit(#[trigger] s[i]),
    ensures
        hex_digits(s) == s,
        hex_digits(seq!['#'] + s) == s,
{
    assert(!is_space(s[0]));
    assert(!is_space(s[s.len() - 1]));
    assert(trim_start(s) =~= s);
    assert(trim(s) =~= s);
    let p = seq!['#'] + s;
    assert(p[0] == '#');
    assert(p[p.len() - 1] == s[s.len() - 1]);
    assert(trim_start(p) =~= p);
    assert(trim(p) =~= p);
    assert(p.skip(1) =~= s);
}

/// **An eight-digit colour is its six-digit colour plus an alpha**: for
/// digits `rrggbbaa`, with or without the `#`, red, green, blue and alpha
/// are the bytes of the digit pairs in that order, and red, green and blue
/// are those of `rrggbb`, which is opaque.
pub proof fn law_eight_digits_are_rgb_then_alpha(h: Seq<char>)
    requires
        h.len() == 8,
        forall|i: int| 0 <= i < 8 ==> is_hex_digit(#[trigger] h[i]),
    ensures
        parse_hex(h) == Some(
            Rgba8 {
                r: (hex_value(h[0]) * 16 + hex_value(h[1])) as u8,
                g: (hex_value(h[2]) * 16 + hex_value(h[3])) as u8,
                b: (hex_value(h[4]) * 16 + hex_value(h[5])) as u8,
                a: (hex_value(h[6]) * 16 + hex_value(h[7])) as u8,
            },
        ),
        parse_hex(seq!['#'] + h) == parse_hex(h),
        parse_hex(h.take(6)) == Some(
            Rgba8 { r: parse_hex(h)->0.r, g: parse_hex(h)->0.g, b: parse_hex(h)->0.b, a: 255 },
        ),
{
    lemma_hex_digits_of_digits(h);
    let six = h.take(6);
    assert forall|i: int| 0 <= i < 6 implies is_hex_digit(#[trigger] six[i]) by {
        assert(six[i] == h[i]);
    }
    lemma_hex_digits_of_digits(six);
}

fn hex_digit_exec(c: char) -> (r: Option<u8>)
    ensures
        r is Some == is_hex_digit(c),
        r matches Some(v) ==> v as nat == hex_value(c) && v < 16,
{
    if '0' <= c && c <= '9' {
        Some(((c as u32) - ('0' as u32)) as u8)
    } else if 'a' <= c && c <= 'f' {
        Some(((c as u32) - ('a' as u32) + 10) as u8)
    } else if 'A' <= c && c <= 'F' {
        Some(((c as u32) - ('A' as u32) + 10) as u8)
    } else {
        None
    }
}

/// `trim_start_matches(c)` of `v`.
pub fn trim_start_char_exec(v: &Vec<char>, c: char) -> (r: Vec<char>)
    ensures
        r@ == trim_start_char(v@, c),
{
    let mut i: usize = 0;
    while i < v.len() && v[i] == c
        invariant
            i <= v.len(),
            skip_char(v@, c, 0) == skip_char(v@, c, i as int),
        decreases v.len() - i,
    {
        i = i + 1;
    }
    slice(v, i, v.len())
}

/// `trim_matches(c)` of `v`.
pub fn trim_char_exec(v: &Vec<char>, c: char) -> (r: Vec<char>)
    ensures
        r@ == trim_char(v@, c),
{
    let t = trim_start_char_exec(v, c);
    let mut j: usize = t.len();
    while j > 0 && t[j - 1] == c
        invariant
            j <= t.len(),
            back_char(t@, c, t.len() as int) == back_char(t@, c, j as int),
        decreases j,
    {
        j = j - 1;
    }
    slice(&t, 0, j)
}

/// Reads a hex colour: `#rgb`, `#rrggbb`, or `#rrggbbaa`, the `#` optional.
pub fn parse_hex_exec(value: &Vec<char>) -> (r: Option<Rgba8>)
    ensures
        r == parse_hex(value@),
{
    let t = trim_exec(value);
    let h = if t.len() > 0 && t[0] == '#' {
        slice(&t, 1, t.len())
    } else {
        t
    };
    let ghost hs = h@;
    let mut digits: Vec<u8> = Vec::new();
    let mut i: usize = 0;
    while i < h.len()
        invariant
            hs == h@,
            hs == hex_digits(value@),
            i <= h.len(),
            digits@.len() == i,
            forall|k: int| 0 <= k < i ==> is_hex_digit(#[trigger] hs[k]),
            forall|k: int| 0 <= k < i ==> digits@[k] as nat == hex_value(hs[k]) && digits@[k] < 16,
        decreases h.len() - i,
    {
        match hex_digit_exec(h[i]) {
            Some(d) => digits.push(d),
            None => {
                assert(hs == hex_digits(value@));
                assert(!is_hex_digit(hs[i as int]));
                assert(!(forall|k: int| 0 <= k < hs.len() ==> is_hex_digit(#[trigger] hs[k])));
                return None;
            },
        }
        i = i + 1;
    }
    if h.len() == 3 {
        Some(Rgba8 { r: digits[0] * 17, g: digits[1] * 17, b: digits[2] * 17, a: 255 })
    } else if h.len() == 6 {
        Some(
            Rgba8 {
                r: digits[0] * 16 + digits[1],
                g: digits[2] * 16 + digits[3],
                b: digits[4] * 16 + digits[5],
                a: 255,
            },
        )
    } else if h.len() == 8 {
        Some(
            Rgba8 {
                r: digits[0] * 16 + digits[1],
                g: digits[2] * 16 + digits[3],
                b: digits[4] * 16 + digits[5],
                a: digits[6] * 16 + digits[7],
            },
        )
    } else {
        None
    }
}

/// `#rgb`, `#rrggbb`, or `#rrggbbaa` as four bytes, surrounding
/// whitespace aside; `None` for anything else, a second `#` included. The
/// one leading `#` is optional so a value pasted from a palette tool works
/// either way.
pub fn parse_color(value: &str) -> (r: Option<Rgba8>)
    ensures
        r == parse_hex(value@),
{
    let v = chars_of(value);
    parse_hex_exec(&v)
}

// ---------------------------------------------------------------------
// Comments
// ---------------------------------------------------------------------

/// Where a line's trailing comment begins, scanning from `i` with
/// `in_quotes` telling whether a quoted value is open.
///
/// A `#` starts a comment only outside quotes and where a value cannot
/// begin: a `#` directly after `=` is a bare colour, `accent = #89b4fa`.
pub open spec fn comment_start(s: Seq<char>, i: int, in_quotes: bool) -> int
    decreases s.len() - i,
{
    if i < 0 || i >= s.len() {
        s.len() as int
    } else if s[i] == '"' {
        comment_start(s, i + 1, !in_quotes)
    } else if s[i] == '#' && !in_quotes && !ends_with(trim_end(s.take(i)), seq!['=']) {
        i
    } else {
        comment_start(s, i + 1, in_quotes)
    }
}

/// The line with a trailing `#` comment removed, without eating a
/// `#rrggbb` value.
pub open spec fn strip_comment(s: Seq<char>) -> Seq<char> {
    s.take(comment_start(s, 0, false))
}

pub proof fn lemma_comment_start_bounds(s: Seq<char>, i: int, q: bool)
    requires
        0 <= i <= s.len(),
    ensures
        i <= comment_start(s, i, q) <= s.len(),
    decreases s.len() - i,
{
    if i < s.len() {
        if s[i] == '"' {
            lemma_comment_start_bounds(s, i + 1, !q);
        } else if s[i] == '#' && !q && !ends_with(trim_end(s.take(i)), seq!['=']) {
        } else {
            lemma_comment_start_bounds(s, i + 1, q);
        }
    }
}

/// Strip a trailing `#` comment without eating a `#rrggbb` value.
pub fn strip_comment_exec(line: &Vec<char>) -> (r: Vec<char>)
    ensures
        r@ == strip_comment(line@),
{
    let mut in_quotes = false;
    let mut i: usize = 0;
    while i < line.len()
        invariant
            i <= line.len(),
            comment_start(line@, 0, false) == comment_start(line@, i as int, in_quotes),
        decreases line.len() - i,
    {
        let c = line[i];
        if c == '"' {
            in_quotes = !in_quotes;
        } else if c == '#' && !in_quotes {
            let before = slice(line, 0, i);
            let before = trim_end_exec(&before);
            let after_equals = before.len() > 0 && before[before.len() - 1] == '=';
            proof {
                if after_equals {
                    assert(before@.skip(before@.len() - 1) =~= seq!['=']);
                } else if before@.len() >= 1 {
                    assert(before@.skip(before@.len() - 1)[0] == before@[before@.len() - 1]);
                }
            }
            if !after_equals {
                return slice(line, 0, i);
            }
        }
        i = i + 1;
    }
    slice(line, 0, line.len())
}

// ---------------------------------------------------------------------
// The role vocabulary's "did you mean"
// ---------------------------------------------------------------------

pub open spec fn min3(x: nat, y: nat, z: nat) -> nat {
    if x <= y && x <= z {
        x
    } else if y <= z {
        y
    } else {
        z
    }
}

/// Levenshtein distance: the fewest single-character insertions,
/// deletions and substitutions that turn `a` into `b`.
pub open spec fn lev(a: Seq<char>, b: Seq<char>) -> nat
    decreases a.len() + b.len(),
{
    if a.len() == 0 {
        b.len()
    } else if b.len() == 0 {
        a.len()
    } else {
        min3(
            lev(a.drop_last(), b.drop_last()) + if a.last() == b.last() {
                0nat
            } else {
                1nat
            },
            lev(a.drop_last(), b) + 1,
            lev(a, b.drop_last()) + 1,
        )
    }
}

pub proof fn lemma_lev_bound(a: Seq<char>, b: Seq<char>)
    ensures
        lev(a, b) <= if a.len() >= b.len() {
            a.len()
        } else {
            b.len()
        },
    decreases a.len() + b.len(),
{
    if a.len() > 0 && b.len() > 0 {
        lemma_lev_bound(a.drop_last(), b.drop_last());
    }
}

proof fn lemma_lev_self(a: Seq<char>)
    ensures
        lev(a, a) == 0,
    decreases a.len(),
{
    if a.len() > 0 {
        lemma_lev_self(a.drop_last());
    }
}

proof fn lemma_lev_symmetric(a: Seq<char>, b: Seq<char>)
    ensures
        lev(a, b) == lev(b, a),
    decreases a.len() + b.len(),
{
    if a.len() > 0 && b.len() > 0 {
        lemma_lev_symmetric(a.drop_last(), b.drop_last());
        lemma_lev_symmetric(a.drop_last(), b);
        lemma_lev_symmetric(a, b.drop_last());
    }
}

/// **Edit distance behaves as a distance**: a text is no edit away from
/// itself, the empty text is as many edits from any text as that text is
/// long, and the distance reads the same in both directions.
pub proof fn law_edit_distance_is_a_distance(a: Seq<char>, b: Seq<char>)
    ensures
        lev(a, a) == 0,
        lev(Seq::empty(), b) == b.len(),
        lev(b, Seq::empty()) == b.len(),
        lev(a, b) == lev(b, a),
{
    lemma_lev_self(a);
    lemma_lev_symmetric(a, b);
}

/// Levenshtein distance, two rows rather than a full matrix.
pub fn edit_distance(a: &Vec<char>, b: &Vec<char>) -> (d: usize)
    requires
        a.len() < usize::MAX,
        b.len() < usize::MAX,
    ensures
        d == lev(a@, b@),
{
    if a.len() == 0 {
        return b.len();
    }
    let n = b.len();
    // prev[j] is the distance from the first i characters of `a` to the
    // first j characters of `b`.
    let mut prev: Vec<usize> = Vec::new();
    let mut j: usize = 0;
    while j <= n
        invariant
            n == b.len(),
            n < usize::MAX,
            j <= n + 1,
            prev@.len() == j,
            forall|k: int| 0 <= k < j ==> prev@[k] == k,
        decreases n + 1 - j,
    {
        prev.push(j);
        j = j + 1;
    }
    proof {
        assert forall|k: int| 0 <= k <= n implies prev@[k] == lev(a@.take(0), b@.take(k)) by {
            assert(a@.take(0).len() == 0);
        }
    }
    let mut i: usize = 0;
    while i < a.len()
        invariant
            n == b.len(),
            n < usize::MAX,
            a.len() < usize::MAX,
            i <= a.len(),
            prev@.len() == n + 1,
            forall|k: int| 0 <= k <= n ==> prev@[k] == lev(a@.take(i as int), b@.take(k)),
        decreases a.len() - i,
    {
        let ghost ai = a@.take(i as int);
        let ghost ai1 = a@.take(i as int + 1);
        assert(ai1.drop_last() =~= ai);
        assert(ai1.last() == a@[i as int]);
        let mut cur: Vec<usize> = Vec::new();
        cur.push(i + 1);
        proof {
            assert(b@.take(0).len() == 0);
        }
        let mut j: usize = 0;
        while j < n
            invariant
                n == b.len(),
                n < usize::MAX,
                a.len() < usize::MAX,
                i < a.len(),
                j <= n,
                ai == a@.take(i as int),
                ai1 == a@.take(i as int + 1),
                ai1.drop_last() == ai,
                ai1.last() == a@[i as int],
                prev@.len() == n + 1,
                forall|k: int| 0 <= k <= n ==> prev@[k] == lev(ai, b@.take(k)),
                cur@.len() == j + 1,
                forall|k: int| 0 <= k <= j ==> cur@[k] == lev(ai1, b@.take(k)),
            decreases n - j,
        {
            let ghost bj1 = b@.take(j as int + 1);
            assert(bj1.drop_last() =~= b@.take(j as int));
            assert(bj1.last() == b@[j as int]);
            proof {
                lemma_lev_bound(ai, b@.take(j as int));
                lemma_lev_bound(ai, bj1);
                lemma_lev_bound(ai1, b@.take(j as int));
            }
            let cost: usize = if a[i] != b[j] {
                1
            } else {
                0
            };
            let sub = prev[j] + cost;
            let del = prev[j + 1] + 1;
            let ins = cur[j] + 1;
            let best = if sub <= del && sub <= ins {
                sub
            } else if del <= ins {
                del
            } else {
                ins
            };
            assert(best == lev(ai1, bj1));
            cur.push(best);
            j = j + 1;
        }
        prev = cur;
        i = i + 1;
    }
    assert(a@.take(a.len() as int) =~= a@);
    assert(b@.take(n as int) =~= b@);
    prev[n]
}

/// ASCII lower case, leaving every other character alone.
pub open spec fn ascii_lower(c: char) -> char {
    if 'A' <= c <= 'Z' {
        ((c as u32) + 32) as char
    } else {
        c
    }
}

pub open spec fn to_ascii_lowercase(s: Seq<char>) -> Seq<char> {
    s.map_values(|c: char| ascii_lower(c))
}

fn ascii_lower_exec(c: char) -> (r: char)
    ensures
        r == ascii_lower(c),
{
    if 'A' <= c && c <= 'Z' {
        ((c as u8) + 32) as char
    } else {
        c
    }
}

/// The edit-distance threshold for suggesting role `i`, which scales with
/// the name's length: two edits on a short name is a different word, on a
/// long one it is a typo.
pub open spec fn suggestion_limit(i: int) -> nat {
    let q = role_name(i).len() / 4;
    if q < 1 {
        1
    } else if q > 3 {
        3
    } else {
        q
    }
}

/// The closest of the first `k` roles to `lower` within its threshold, as
/// (distance, role); an earlier role wins a tie.
pub open spec fn nearest_among(lower: Seq<char>, k: int) -> Option<(nat, int)>
    decreases k,
{
    if k <= 0 {
        None
    } else {
        let best = nearest_among(lower, k - 1);
        let d = lev(lower, role_name(k - 1));
        if d <= suggestion_limit(k - 1) && (best is None || d < best.unwrap().0) {
            Some((d, k - 1))
        } else {
            best
        }
    }
}

/// The role to suggest for an unknown name, if any is close enough: a
/// confident wrong suggestion is worse than none.
pub open spec fn nearest_role(input: Seq<char>) -> Option<int> {
    match nearest_among(to_ascii_lowercase(input), 37) {
        Some(p) => Some(p.1),
        None => None,
    }
}

pub proof fn lemma_nearest_among_range(lower: Seq<char>, k: int)
    requires
        0 <= k <= 37,
    ensures
        nearest_among(lower, k) matches Some(p) ==> 0 <= p.1 < k && p.0 == lev(
            lower,
            role_name(p.1),
        ),
    decreases k,
{
    if k > 0 {
        lemma_nearest_among_range(lower, k - 1);
    }
}

pub proof fn lemma_nearest_among(lower: Seq<char>, k: int)
    requires
        0 <= k <= 37,
    ensures
        nearest_among(lower, k) matches Some(p) ==> {
            &&& 0 <= p.1 < k
            &&& p.0 == lev(lower, role_name(p.1))
            &&& p.0 <= suggestion_limit(p.1)
            &&& forall|j: int|
                0 <= j < k && #[trigger] lev(lower, role_name(j)) <= suggestion_limit(j) ==> p.0
                    <= lev(lower, role_name(j))
        },
        nearest_among(lower, k) is None ==> forall|j: int|
            0 <= j < k ==> #[trigger] lev(lower, role_name(j)) > suggestion_limit(j),
    decreases k,
{
    if k > 0 {
        lemma_nearest_among(lower, k - 1);
    }
}

/// **"Did you mean" only offers the closest name, and only a close one.**
/// A suggestion is within its role's edit-distance threshold and no
/// other role within its own threshold is closer; when nothing is within
/// reach, nothing is suggested, because a confident wrong suggestion is
/// worse than none.
pub proof fn law_suggestion_is_the_nearest_close_role(input: Seq<char>)
    ensures
        nearest_role(input) matches Some(i) ==> {
            let lower = to_ascii_lowercase(input);
            &&& 0 <= i < 37
            &&& lev(lower, role_name(i)) <= suggestion_limit(i)
            &&& forall|j: int|
                0 <= j < 37 && #[trigger] lev(lower, role_name(j)) <= suggestion_limit(j) ==> lev(
                    lower,
                    role_name(i),
                ) <= lev(lower, role_name(j))
        },
        nearest_role(input) is None ==> forall|j: int|
            0 <= j < 37 ==> #[trigger] lev(to_ascii_lowercase(input), role_name(j))
                > suggestion_limit(j),
{
    lemma_nearest_among(to_ascii_lowercase(input), 37);
}

/// The closest role name within a small edit distance, for "did you
/// mean". Returns `None` when nothing is close.
pub fn nearest_role_exec(input: &Vec<char>) -> (r: Option<usize>)
    requires
        input.len() < usize::MAX,
    ensures
        r matches Some(i) ==> i < ROLE_COUNT && nearest_role(input@) == Some(i as int),
        r is None ==> nearest_role(input@) is None,
{
    let mut lower: Vec<char> = Vec::new();
    let mut i: usize = 0;
    while i < input.len()
        invariant
            i <= input.len(),
            lower@ == to_ascii_lowercase(input@).take(i as int),
        decreases input.len() - i,
    {
        lower.push(ascii_lower_exec(input[i]));
        i = i + 1;
        assert(lower@ =~= to_ascii_lowercase(input@).take(i as int));
    }
    assert(lower@ =~= to_ascii_lowercase(input@));
    let mut best: Option<(usize, usize)> = None;
    let mut k: usize = 0;
    while k < ROLE_COUNT
        invariant
            k <= ROLE_COUNT,
            lower.len() < usize::MAX,
            lower@ == to_ascii_lowercase(input@),
            match best {
                Some(p) => nearest_among(lower@, k as int) == Some((p.0 as nat, p.1 as int)),
                None => nearest_among(lower@, k as int) is None,
            },
            best matches Some(p) ==> p.1 < k,
        decreases ROLE_COUNT - k,
    {
        let name = chars_of(role_name_str(k));
        proof {
            reveal_role_name_lengths(k as int);
        }
        let d = edit_distance(&lower, &name);
        let q = name.len() / 4;
        let limit = if q < 1 {
            1
        } else if q > 3 {
            3
        } else {
            q
        };
        let better = match best {
            None => true,
            Some(p) => d < p.0,
        };
        if d <= limit && better {
            best = Some((d, k));
        }
        k = k + 1;
    }
    match best {
        Some(p) => Some(p.1),
        None => None,
    }
}

/// Every role name is short, so its length fits comfortably in `usize`.
proof fn reveal_role_name_lengths(i: int)
    requires
        0 <= i < 37,
    ensures
        role_name(i).len() < 100,
{
    reveal_strlit("canvas");
    reveal_strlit("surface");
    reveal_strlit("surface_raised");
    reveal_strlit("surface_sunken");
    reveal_strlit("surface_sunken_alt");
    reveal_strlit("letterbox");
    reveal_strlit("border");
    reveal_strlit("border_raised");
    reveal_strlit("accent");
    reveal_strlit("on_accent");
    reveal_strlit("control_knob");
    reveal_strlit("control_track_off");
    reveal_strlit("success");
    reveal_strlit("danger");
    reveal_strlit("origin_mark");
    reveal_strlit("accent_tint_bg");
    reveal_strlit("accent_tint_text");
    reveal_strlit("trim_track");
    reveal_strlit("trim_range_fill");
    reveal_strlit("trim_range_edge");
    reveal_strlit("trim_range_excluded");
    reveal_strlit("playhead");
    reveal_strlit("mute");
    reveal_strlit("trim_out");
    reveal_strlit("trim_out_hover");
    reveal_strlit("stage_badge_text");
    reveal_strlit("stage_badge_text_dim");
    reveal_strlit("stage_shadow");
    reveal_strlit("text_primary");
    reveal_strlit("text_secondary");
    reveal_strlit("text_secondary_alt");
    reveal_strlit("text_muted");
    reveal_strlit("text_muted_alt");
    reveal_strlit("surface_hover");
    reveal_strlit("accent_hover");
    reveal_strlit("waveform");
    reveal_strlit("mute_border");
}

// ---------------------------------------------------------------------
// Reading a config file
// ---------------------------------------------------------------------

/// One role set by hand: in `mode`, role number `role` (an index into
/// `ROLE_NAMES`) becomes `color`.
#[derive(Debug, Clone, Copy, PartialEq)]
pub struct Override<C> {
    pub mode: Mode,
    pub role: usize,
    pub color: C,
}

/// A `[wallpaper]` line: the seed's name as written and its colour.
#[derive(Debug, Clone)]
pub struct SeedLine {
    pub line: usize,
    pub key: Vec<char>,
    pub color: Rgba8,
}

impl SeedLine {
    pub open spec fn view(&self) -> (nat, Seq<char>, Rgba8) {
        (self.line as nat, self.key@, self.color)
    }
}

/// The seed colours a user pulls out of their wallpaper. Only
/// `background` and `accent` are required; the others refine the stage
/// marks and otherwise fall back to conventional hues.
#[derive(Debug, Clone, Copy, PartialEq, Eq, Structural)]
pub struct Seeds {
    pub background: Rgba8,
    pub accent: Rgba8,
    pub danger: Option<Rgba8>,
    pub warning: Option<Rgba8>,
    pub success: Option<Rgba8>,
    pub text: Option<Rgba8>,
}

/// What a config file says, line by line: the roles it sets by hand, in
/// file order; the wallpaper seeds, if it has a usable `[wallpaper]`
/// section; and every problem found, worded for the user.
#[derive(Debug, Clone)]
pub struct ThemeConfig {
    pub overrides: Vec<Override<Rgba8>>,
    pub seeds: Option<Seeds>,
    pub warnings: Vec<String>,
}

/// The reader's state after some prefix of the file.
pub struct ReadState {
    /// The `[dark]`/`[light]` section being read, if any.
    pub section: Option<Mode>,
    /// Whether the `[wallpaper]` section is being read.
    pub wallpaper: bool,
    pub warnings: Seq<Seq<char>>,
    pub seeds: Seq<(nat, Seq<char>, Rgba8)>,
    pub overrides: Seq<Override<Rgba8>>,
}

pub open spec fn initial_read() -> ReadState {
    ReadState {
        section: None,
        wallpaper: false,
        warnings: seq![],
        seeds: seq![],
        overrides: seq![],
    }
}

pub open spec fn line_prefix(n: nat) -> Seq<char> {
    "line "@ + dec(n) + ": "@
}

pub open spec fn w_section(n: nat, name: Seq<char>) -> Seq<char> {
    line_prefix(n) + "unknown section ["@ + name
        + "] — expected [wallpaper], [dark], or [light]"@
}

pub open spec fn w_expected(n: nat) -> Seq<char> {
    line_prefix(n) + "expected `role = \"#rrggbb\"`"@
}

pub open spec fn w_colour(n: nat, value: Seq<char>) -> Seq<char> {
    line_prefix(n) + "`"@ + value + "` is not a colour — use #rgb, #rrggbb, or #rrggbbaa"@
}

pub open spec fn w_before(n: nat, key: Seq<char>) -> Seq<char> {
    line_prefix(n) + "`"@ + key + "` is before any [dark] or [light] section"@
}

pub open spec fn suggestion(key: Seq<char>) -> Seq<char> {
    match nearest_role(key) {
        Some(i) => " — did you mean `"@ + role_name(i) + "`?"@,
        None => seq![],
    }
}

pub open spec fn w_role(n: nat, key: Seq<char>) -> Seq<char> {
    line_prefix(n) + "unknown colour role `"@ + key + "`"@ + suggestion(key)
}

/// A section header: `[` ... `]`.
pub open spec fn is_header(line: Seq<char>) -> bool {
    line.len() >= 2 && line[0] == '[' && line.last() == ']'
}

/// What one line does to the reader: `n` is its 1-based number and `raw`
/// its text.
pub open spec fn read_line(st: ReadState, n: nat, raw: Seq<char>) -> ReadState {
    let line = trim(strip_comment(raw));
    if line.len() == 0 {
        st
    } else if is_header(line) {
        let name = trim(line.subrange(1, line.len() - 1));
        if name == "dark"@ {
            ReadState { section: Some(Mode::Dark), wallpaper: false, ..st }
        } else if name == "light"@ {
            ReadState { section: Some(Mode::Light), wallpaper: false, ..st }
        } else if name == "wallpaper"@ {
            ReadState { section: None, wallpaper: true, ..st }
        } else {
            ReadState {
                section: None,
                wallpaper: false,
                warnings: st.warnings.push(w_section(n, name)),
                ..st
            }
        }
    } else {
        let e = find_char(line, '=', 0);
        if e >= line.len() {
            ReadState { warnings: st.warnings.push(w_expected(n)), ..st }
        } else {
            let key = trim(line.take(e));
            let value = trim(trim_char(trim(line.skip(e + 1)), '"'));
            if st.wallpaper {
                match parse_hex(value) {
                    Some(c) => ReadState { seeds: st.seeds.push((n, key, c)), ..st },
                    None => ReadState { warnings: st.warnings.push(w_colour(n, value)), ..st },
                }
            } else {
                match st.section {
                    None => ReadState { warnings: st.warnings.push(w_before(n, key)), ..st },
                    Some(mode) => match parse_hex(value) {
                        None => ReadState { warnings: st.warnings.push(w_colour(n, value)), ..st },
                        Some(c) => match role_index(key) {
                            Some(i) => ReadState {
                                overrides: st.overrides.push(
                                    Override { mode, role: i as usize, color: c },
                                ),
                                ..st
                            },
                            None => ReadState { warnings: st.warnings.push(w_role(n, key)), ..st },
                        },
                    },
                }
            }
        }
    }
}

/// A word with no whitespace at either end is its own trim.
proof fn lemma_trim_of_word(w: Seq<char>)
    requires
        w.len() > 0,
        !is_space(w[0]),
        !is_space(w[w.len() - 1]),
    ensures
        trim(w) == w,
{
    assert(trim_start(w) =~= w);
    assert(trim(w) =~= w);
}

/// **A section header chooses the section, whatever came before**: after
/// `[dark]` or `[light]` the reader is in that mode's section and out of
/// `[wallpaper]`, and after `[wallpaper]` it is among the seeds and in no
/// mode's section; nothing read so far changes.
pub proof fn law_a_section_header_chooses_the_section(st: ReadState, n: nat, raw: Seq<char>)
    ensures
        trim(strip_comment(raw)) == "[dark]"@ ==> read_line(st, n, raw) == (ReadState {
            section: Some(Mode::Dark),
            wallpaper: false,
            ..st
        }),
        trim(strip_comment(raw)) == "[light]"@ ==> read_line(st, n, raw) == (ReadState {
            section: Some(Mode::Light),
            wallpaper: false,
            ..st
        }),
        trim(strip_comment(raw)) == "[wallpaper]"@ ==> read_line(st, n, raw) == (ReadState {
            section: None,
            wallpaper: true,
            ..st
        }),
{
    reveal_strlit("[dark]");
    reveal_strlit("[light]");
    reveal_strlit("[wallpaper]");
    reveal_strlit("dark");
    reveal_strlit("light");
    reveal_strlit("wallpaper");
    let line = trim(strip_comment(raw));
    if line == "[dark]"@ {
        assert(line.subrange(1, line.len() - 1) =~= "dark"@);
        lemma_trim_of_word("dark"@);
    }
    if line == "[light]"@ {
        assert(line.subrange(1, line.len() - 1) =~= "light"@);
        lemma_trim_of_word("light"@);
    }
    if line == "[wallpaper]"@ {
        assert(line.subrange(1, line.len() - 1) =~= "wallpaper"@);
        lemma_trim_of_word("wallpaper"@);
    }
}

/// **Seeds come only from the `[wallpaper]` section, and roles only from
/// outside it**: a line read outside `[wallpaper]` adds no seed, and a line
/// read inside it sets no role.
pub proof fn law_seeds_come_only_from_the_wallpaper_section(st: ReadState, n: nat, raw: Seq<char>)
    ensures
        !st.wallpaper ==> read_line(st, n, raw).seeds == st.seeds,
        st.wallpaper ==> read_line(st, n, raw).overrides == st.overrides,
{
}

/// **In a mode's section, `role = colour` sets that role for that mode**:
/// a line that is a key, `=`, and a value, where the key names a role and
/// the value (quotes allowed) is a colour, appends exactly that override,
/// and adds no seed and no warning.
pub proof fn law_a_role_line_sets_the_role_for_its_section(
    st: ReadState,
    n: nat,
    raw: Seq<char>,
    key: Seq<char>,
    value: Seq<char>,
)
    requires
        !st.wallpaper,
        st.section is Some,
        trim(strip_comment(raw)) == key + seq!['='] + value,
        !is_header(key + seq!['='] + value),
        forall|i: int| 0 <= i < key.len() ==> key[i] != '=',
        role_index(trim(key)) is Some,
        parse_hex(trim(trim_char(trim(value), '"'))) is Some,
    ensures
        read_line(st, n, raw) == (ReadState {
            overrides: st.overrides.push(
                Override {
                    mode: st.section->0,
                    role: role_index(trim(key))->0 as usize,
                    color: parse_hex(trim(trim_char(trim(value), '"')))->0,
                },
            ),
            ..st
        }),
{
    let line = key + seq!['='] + value;
    lemma_find_char_bounds(line, '=', 0);
    let e = find_char(line, '=', 0);
    assert(line[key.len() as int] == '=');
    if e < key.len() {
        assert(line[e] == key[e]);
    }
    assert(e == key.len());
    assert(line.take(e) =~= key);
    assert(line.skip(e + 1) =~= value);
}

/// The reader's state after every line of `ls`, numbered from 1.
pub open spec fn read_lines(ls: Seq<Seq<char>>) -> ReadState
    decreases ls.len(),
{
    if ls.len() == 0 {
        initial_read()
    } else {
        read_line(read_lines(ls.drop_last()), ls.len(), ls.last())
    }
}

pub open spec fn is_seed_name(key: Seq<char>) -> bool {
    ||| key == "background"@
    ||| key == "accent"@
    ||| key == "danger"@
    ||| key == "warning"@
    ||| key == "success"@
    ||| key == "text"@
}

pub open spec fn w_seed(n: nat, key: Seq<char>) -> Seq<char> {
    line_prefix(n) + "`"@ + key
        + "` is not a wallpaper seed — use one of background, accent, danger, warning, success, text"@
}

pub open spec fn w_needs_seeds() -> Seq<char> {
    "[wallpaper] needs `background` (the colour your wallpaper mostly is) and `accent` (the one that stands out of it)"@
}

/// The colour of the last seed line named `name`.
pub open spec fn last_seed(ls: Seq<(nat, Seq<char>, Rgba8)>, name: Seq<char>) -> Option<Rgba8>
    decreases ls.len(),
{
    if ls.len() == 0 {
        None
    } else if ls.last().1 == name {
        Some(ls.last().2)
    } else {
        last_seed(ls.drop_last(), name)
    }
}

/// One warning per seed line whose name is not a seed, in file order.
pub open spec fn unknown_seed_warnings(ls: Seq<(nat, Seq<char>, Rgba8)>) -> Seq<Seq<char>>
    decreases ls.len(),
{
    if ls.len() == 0 {
        seq![]
    } else if is_seed_name(ls.last().1) {
        unknown_seed_warnings(ls.drop_last())
    } else {
        unknown_seed_warnings(ls.drop_last()).push(w_seed(ls.last().0, ls.last().1))
    }
}

/// The seeds, when both required ones are present.
pub open spec fn seeds_of(ls: Seq<(nat, Seq<char>, Rgba8)>) -> Option<Seeds> {
    match (last_seed(ls, "background"@), last_seed(ls, "accent"@)) {
        (Some(background), Some(accent)) => Some(
            Seeds {
                background,
                accent,
                danger: last_seed(ls, "danger"@),
                warning: last_seed(ls, "warning"@),
                success: last_seed(ls, "success"@),
                text: last_seed(ls, "text"@),
            },
        ),
        _ => None,
    }
}

/// Everything said about the `[wallpaper]` lines.
pub open spec fn seed_warnings(ls: Seq<(nat, Seq<char>, Rgba8)>) -> Seq<Seq<char>> {
    if seeds_of(ls) is None {
        unknown_seed_warnings(ls).push(w_needs_seeds())
    } else {
        unknown_seed_warnings(ls)
    }
}

/// The reading of a whole file.
pub open spec fn read_config(text: Seq<char>) -> ReadState {
    read_lines(lines(text))
}

/// Any role position the vocabulary gives back is a real role.
proof fn lemma_role_index_is_a_role()
    ensures
        forall|name: Seq<char>| (#[trigger] role_index(name)) is Some ==> 0 <= role_index(name)->0
            < 37,
{
    assert forall|name: Seq<char>| (#[trigger] role_index(name)) is Some implies 0 <= role_index(
        name,
    )->0 < 37 by {
        lemma_role_index_from(name, 0);
    }
}

/// **Every colour a reading keeps lands on a real role**: each override
/// names one of the palette's roles, the one its key is called, so
/// applying a reading never drops a stated colour.
pub proof fn law_every_override_names_a_real_role(text: Seq<char>)
    ensures
        forall|k: int|
            0 <= k < read_config(text).overrides.len() ==> #[trigger] read_config(
                text,
            ).overrides[k].role < ROLE_COUNT,
{
    lemma_overrides_name_roles(lines(text));
}

proof fn lemma_overrides_name_roles(ls: Seq<Seq<char>>)
    ensures
        forall|k: int|
            0 <= k < read_lines(ls).overrides.len() ==> #[trigger] read_lines(ls).overrides[k].role
                < ROLE_COUNT,
    decreases ls.len(),
{
    if ls.len() > 0 {
        lemma_overrides_name_roles(ls.drop_last());
        lemma_role_index_is_a_role();
    }
}

/// The seeds a file provides.
pub open spec fn config_seeds(text: Seq<char>) -> Option<Seeds> {
    let st = read_config(text);
    if st.seeds.len() > 0 {
        seeds_of(st.seeds)
    } else {
        None
    }
}

/// Every warning a file earns, in the order the user will read them.
pub open spec fn config_warnings(text: Seq<char>) -> Seq<Seq<char>> {
    let st = read_config(text);
    if st.seeds.len() > 0 {
        st.warnings + seed_warnings(st.seeds)
    } else {
        st.warnings
    }
}

/// The reader's state, as it runs.
struct Reader {
    section: Option<Mode>,
    wallpaper: bool,
    warnings: Vec<String>,
    seeds: Vec<SeedLine>,
    overrides: Vec<Override<Rgba8>>,
}

impl Reader {
    spec fn view(&self) -> ReadState {
        ReadState {
            section: self.section,
            wallpaper: self.wallpaper,
            warnings: self.warnings@.map_values(|w: String| w@),
            seeds: self.seeds@.map_values(|l: SeedLine| l.view()),
            overrides: self.overrides@,
        }
    }

    fn warn(&mut self, w: Vec<char>)
        ensures
            final(self).view() == (ReadState {
                warnings: old(self).view().warnings.push(w@),
                ..old(self).view()
            }),
    {
        let s = string_of(&w);
        self.warnings.push(s);
        assert(self.view().warnings =~= old(self).view().warnings.push(w@));
    }

    fn add_seed(&mut self, n: usize, key: Vec<char>, color: Rgba8)
        ensures
            final(self).view() == (ReadState {
                seeds: old(self).view().seeds.push((n as nat, key@, color)),
                ..old(self).view()
            }),
    {
        self.seeds.push(SeedLine { line: n, key, color });
        assert(self.view().seeds =~= old(self).view().seeds.push((n as nat, key@, color)));
    }
}

fn line_prefix_exec(n: usize) -> (v: Vec<char>)
    ensures
        v@ == line_prefix(n as nat),
{
    let mut v: Vec<char> = Vec::new();
    push_str(&mut v, "line ");
    push_dec(&mut v, n as u64);
    push_str(&mut v, ": ");
    assert(v@ =~= line_prefix(n as nat));
    v
}

fn is_word(v: &Vec<char>, word: &str) -> (r: bool)
    ensures
        r == (v@ == word@),
{
    let w = chars_of(word);
    same_chars(v, &w)
}

fn read_line_exec(st: &mut Reader, n: usize, raw: &Vec<char>)
    ensures
        final(st).view() == read_line(old(st).view(), n as nat, raw@),
{
    let stripped = strip_comment_exec(raw);
    let line = trim_exec(&stripped);
    let ghost line_s = trim(strip_comment(raw@));
    assert(line@ == line_s);
    if line.len() == 0 {
        return;
    }
    if line.len() >= 2 && line[0] == '[' && line[line.len() - 1] == ']' {
        let inner = slice(&line, 1, line.len() - 1);
        let name = trim_exec(&inner);
        if is_word(&name, "dark") {
            st.section = Some(Mode::Dark);
            st.wallpaper = false;
        } else if is_word(&name, "light") {
            st.section = Some(Mode::Light);
            st.wallpaper = false;
        } else if is_word(&name, "wallpaper") {
            st.section = None;
            st.wallpaper = true;
        } else {
            st.section = None;
            st.wallpaper = false;
            let mut w = line_prefix_exec(n);
            push_str(&mut w, "unknown section [");
            push_chars(&mut w, &name);
            push_str(&mut w, "] — expected [wallpaper], [dark], or [light]");
            assert(w@ =~= w_section(n as nat, name@));
            st.warn(w);
        }
        return;
    }
    assert(!is_header(line_s));
    let mut e: usize = 0;
    while e < line.len() && line[e] != '='
        invariant
            e <= line.len(),
            find_char(line@, '=', 0) == find_char(line@, '=', e as int),
        decreases line.len() - e,
    {
        e = e + 1;
    }
    if e == line.len() {
        let mut w = line_prefix_exec(n);
        push_str(&mut w, "expected `role = \"#rrggbb\"`");
        assert(w@ =~= w_expected(n as nat));
        st.warn(w);
        return;
    }
    let before = slice(&line, 0, e);
    let key = trim_exec(&before);
    let after = slice(&line, e + 1, line.len());
    let after = trim_exec(&after);
    let unquoted = trim_char_exec(&after, '"');
    let value = trim_exec(&unquoted);
    proof {
        lemma_trim_len(line@.take(e as int));
    }
    let color = parse_hex_exec(&value);
    if st.wallpaper {
        match color {
            Some(c) => {
                st.add_seed(n, key, c);
            },
            None => {
                let mut w = line_prefix_exec(n);
                push_str(&mut w, "`");
                push_chars(&mut w, &value);
                push_str(&mut w, "` is not a colour — use #rgb, #rrggbb, or #rrggbbaa");
                assert(w@ =~= w_colour(n as nat, value@));
                st.warn(w);
            },
        }
        return;
    }
    match st.section {
        None => {
            let mut w = line_prefix_exec(n);
            push_str(&mut w, "`");
            push_chars(&mut w, &key);
            push_str(&mut w, "` is before any [dark] or [light] section");
            assert(w@ =~= w_before(n as nat, key@));
            st.warn(w);
        },
        Some(mode) => match color {
            None => {
                let mut w = line_prefix_exec(n);
                push_str(&mut w, "`");
                push_chars(&mut w, &value);
                push_str(&mut w, "` is not a colour — use #rgb, #rrggbb, or #rrggbbaa");
                assert(w@ =~= w_colour(n as nat, value@));
                st.warn(w);
            },
            Some(c) => match find_role(&key) {
                Some(i) => {
                    st.overrides.push(Override { mode, role: i, color: c });
                },
                None => {
                    let mut w = line_prefix_exec(n);
                    push_str(&mut w, "unknown colour role `");
                    push_chars(&mut w, &key);
                    push_str(&mut w, "`");
                    match nearest_role_exec(&key) {
                        Some(r) => {
                            push_str(&mut w, " — did you mean `");
                            push_str(&mut w, role_name_str(r));
                            push_str(&mut w, "`?");
                        },
                        None => {},
                    }
                    assert(w@ =~= w_role(n as nat, key@));
                    st.warn(w);
                },
            },
        },
    }
}

fn find_seed(ls: &Vec<SeedLine>, name: &str) -> (r: Option<Rgba8>)
    ensures
        r == last_seed(ls@.map_values(|l: SeedLine| l.view()), name@),
{
    let ghost v = ls@.map_values(|l: SeedLine| l.view());
    let target = chars_of(name);
    let mut i: usize = ls.len();
    assert(v.take(ls.len() as int) =~= v);
    while i > 0
        invariant
            i <= ls.len(),
            v == ls@.map_values(|l: SeedLine| l.view()),
            last_seed(v, name@) == last_seed(v.take(i as int), name@),
            target@ == name@,
        decreases i,
    {
        assert(v.take(i as int).drop_last() =~= v.take(i - 1));
        if same_chars(&ls[i - 1].key, &target) {
            return Some(ls[i - 1].color);
        }
        i = i - 1;
    }
    assert(v.take(0).len() == 0);
    None
}

fn is_seed_name_exec(key: &Vec<char>) -> (r: bool)
    ensures
        r == is_seed_name(key@),
{
    is_word(key, "background") || is_word(key, "accent") || is_word(key, "danger") || is_word(
        key,
        "warning",
    ) || is_word(key, "success") || is_word(key, "text")
}

/// Turn the `[wallpaper]` lines into seeds, reporting unknown seed names
/// and a missing `background` or `accent`.
fn seeds_from(ls: &Vec<SeedLine>, warnings: &mut Vec<String>) -> (r: Option<Seeds>)
    ensures
        r == seeds_of(ls@.map_values(|l: SeedLine| l.view())),
        final(warnings)@.map_values(|w: String| w@) == old(warnings)@.map_values(|w: String| w@)
            + seed_warnings(ls@.map_values(|l: SeedLine| l.view())),
{
    let ghost v = ls@.map_values(|l: SeedLine| l.view());
    let ghost w0 = old(warnings)@.map_values(|w: String| w@);
    let mut i: usize = 0;
    while i < ls.len()
        invariant
            i <= ls.len(),
            v == ls@.map_values(|l: SeedLine| l.view()),
            w0 == old(warnings)@.map_values(|w: String| w@),
            warnings@.map_values(|w: String| w@) == w0 + unknown_seed_warnings(v.take(i as int)),
        decreases ls.len() - i,
    {
        assert(v.take(i + 1).drop_last() =~= v.take(i as int));
        assert(v.take(i + 1).last() == v[i as int]);
        assert(v[i as int] == ls@[i as int].view());
        let ghost before = warnings@.map_values(|w: String| w@);
        let line = &ls[i];
        if !is_seed_name_exec(&line.key) {
            let mut w = line_prefix_exec(line.line);
            push_str(&mut w, "`");
            push_chars(&mut w, &line.key);
            push_str(
                &mut w,
                "` is not a wallpaper seed — use one of background, accent, danger, warning, success, text",
            );
            assert(w@ =~= w_seed(v[i as int].0, v[i as int].1));
            warnings.push(string_of(&w));
            assert(warnings@.map_values(|w: String| w@) =~= before.push(w@));
            assert(warnings@.map_values(|w: String| w@) =~= w0 + unknown_seed_warnings(
                v.take(i + 1),
            ));
        } else {
            assert(warnings@.map_values(|w: String| w@) =~= w0 + unknown_seed_warnings(
                v.take(i + 1),
            ));
        }
        i = i + 1;
    }
    assert(v.take(ls.len() as int) =~= v);
    let background = find_seed(ls, "background");
    let accent = find_seed(ls, "accent");
    match (background, accent) {
        (Some(background), Some(accent)) => Some(
            Seeds {
                background,
                accent,
                danger: find_seed(ls, "danger"),
                warning: find_seed(ls, "warning"),
                success: find_seed(ls, "success"),
                text: find_seed(ls, "text"),
            },
        ),
        _ => {
            let mut w: Vec<char> = Vec::new();
            push_str(
                &mut w,
                "[wallpaper] needs `background` (the colour your wallpaper mostly is) and `accent` (the one that stands out of it)",
            );
            let ghost before = warnings@.map_values(|w: String| w@);
            warnings.push(string_of(&w));
            assert(warnings@.map_values(|w: String| w@) =~= before.push(w@));
            None
        },
    }
}

/// Read a config text.
///
/// The format is deliberately the smallest thing that works: optional
/// `[dark]` and `[light]` sections mapping a role name to a hex colour,
/// and an optional `[wallpaper]` section of seed colours. `#` starts a
/// comment where a value cannot begin. Every problem becomes a warning
/// naming the line; nothing is fatal.
pub fn parse(text: &str) -> (r: ThemeConfig)
    ensures
        r.overrides@ == read_config(text@).overrides,
        r.seeds == config_seeds(text@),
        r.warnings@.map_values(|w: String| w@) == config_warnings(text@),
{
    let t = chars_of(text);
    let mut st = Reader {
        section: None,
        wallpaper: false,
        warnings: Vec::new(),
        seeds: Vec::new(),
        overrides: Vec::new(),
    };
    assert(st.view().warnings =~= Seq::<Seq<char>>::empty());
    assert(st.view().seeds =~= Seq::<(nat, Seq<char>, Rgba8)>::empty());
    assert(t@.skip(0) =~= t@);
    let ghost mut done: Seq<Seq<char>> = seq![];
    let mut p: usize = 0;
    let mut count: usize = 0;
    while p < t.len()
        invariant
            p <= t.len(),
            count == done.len(),
            count <= p,
            lines(t@) == done + lines(t@.skip(p as int)),
            st.view() == read_lines(done),
        decreases t.len() - p,
    {
        let (line, next) = next_line(&t, p);
        count = count + 1;
        read_line_exec(&mut st, count, &line);
        proof {
            assert(done.push(line@).drop_last() =~= done);
            assert(done + lines(t@.skip(p as int)) =~= done.push(line@) + lines(
                t@.skip(next as int),
            ));
            done = done.push(line@);
        }
        p = next;
    }
    assert(t@.skip(t.len() as int) =~= Seq::<char>::empty());
    assert(done + Seq::<Seq<char>>::empty() =~= done);
    assert(done == lines(t@));
    let mut warnings = st.warnings;
    let seeds = if st.seeds.len() > 0 {
        seeds_from(&st.seeds, &mut warnings)
    } else {
        None
    };
    ThemeConfig { overrides: st.overrides, seeds, warnings }
}


// ---------------------------------------------------------------------
// Applying a config
// ---------------------------------------------------------------------

/// `roles` with every override for `mode` applied in file order, so the
/// last statement of a role wins.
pub open spec fn apply_overrides<C>(roles: Seq<C>, mode: Mode, ovs: Seq<Override<C>>) -> Seq<C>
    decreases ovs.len(),
{
    if ovs.len() == 0 {
        roles
    } else {
        let r = apply_overrides(roles, mode, ovs.drop_last());
        let o = ovs.last();
        if o.mode == mode && o.role < 37 {
            r.update(o.role as int, o.color)
        } else {
            r
        }
    }
}

pub proof fn lemma_apply_overrides_len<C>(roles: Seq<C>, mode: Mode, ovs: Seq<Override<C>>)
    requires
        roles.len() == 37,
    ensures
        apply_overrides(roles, mode, ovs).len() == roles.len(),
    decreases ovs.len(),
{
    if ovs.len() > 0 {
        lemma_apply_overrides_len(roles, mode, ovs.drop_last());
    }
}

/// The palette for `mode`: `base` — the built-in palette, or the one
/// derived from wallpaper seeds — with every role the file set by hand
/// for that mode applied over it.
pub fn themed<C: Copy>(base: Palette<C>, mode: Mode, overrides: &Vec<Override<C>>) -> (p: Palette<
    C,
>)
    ensures
        p.roles() == apply_overrides(base.roles(), mode, overrides@),
{
    let mut p = base;
    let mut i: usize = 0;
    while i < overrides.len()
        invariant
            i <= overrides.len(),
            p.roles() == apply_overrides(base.roles(), mode, overrides@.take(i as int)),
        decreases overrides.len() - i,
    {
        assert(overrides@.take(i + 1).drop_last() =~= overrides@.take(i as int));
        let o = overrides[i];
        if o.mode == mode && o.role < ROLE_COUNT {
            p.set_role_at(o.role, o.color);
        }
        i = i + 1;
    }
    assert(overrides@.take(overrides.len() as int) =~= overrides@);
    p
}

/// **An explicit role beats the base, wherever it appears in the file.**
///
/// Whatever the base palette is — the built-in one, or one derived from a
/// `[wallpaper]` section above or below — the last colour the file states
/// for a role in a mode is the colour that role has in that mode.
pub proof fn law_explicit_role_wins<C>(base: Seq<C>, mode: Mode, ovs: Seq<Override<C>>, k: int)
    requires
        base.len() == 37,
        0 <= k < ovs.len(),
        ovs[k].mode == mode,
        ovs[k].role < 37,
        forall|j: int|
            k < j < ovs.len() ==> !(#[trigger] ovs[j].mode == mode && ovs[j].role == ovs[k].role),
    ensures
        apply_overrides(base, mode, ovs)[ovs[k].role as int] == ovs[k].color,
    decreases ovs.len(),
{
    lemma_apply_overrides_len(base, mode, ovs.drop_last());
    if k < ovs.len() - 1 {
        let prefix = ovs.drop_last();
        assert forall|j: int| k < j < prefix.len() implies !(#[trigger] prefix[j].mode == mode
            && prefix[j].role == prefix[k].role) by {
            assert(prefix[j] == ovs[j]);
        }
        law_explicit_role_wins(base, mode, prefix, k);
    }
}

/// **An override replaces only the role it names.** Every role the file
/// does not set for this mode — including everything set only for the
/// other mode — keeps the base palette's colour.
pub proof fn law_unnamed_roles_keep_the_base<C>(
    base: Seq<C>,
    mode: Mode,
    ovs: Seq<Override<C>>,
    i: int,
)
    requires
        base.len() == 37,
        0 <= i < 37,
        forall|j: int| 0 <= j < ovs.len() ==> !(#[trigger] ovs[j].mode == mode && ovs[j].role == i),
    ensures
        apply_overrides(base, mode, ovs)[i] == base[i],
    decreases ovs.len(),
{
    if ovs.len() > 0 {
        let prefix = ovs.drop_last();
        assert forall|j: int| 0 <= j < prefix.len() implies !(#[trigger] prefix[j].mode == mode
            && prefix[j].role == i) by {
            assert(prefix[j] == ovs[j]);
        }
        law_unnamed_roles_keep_the_base(base, mode, prefix, i);
        lemma_apply_overrides_len(base, mode, prefix);
        assert(!(ovs[ovs.len() - 1].mode == mode && ovs[ovs.len() - 1].role == i));
    }
}

// ---------------------------------------------------------------------
// The status pill
// ---------------------------------------------------------------------

/// The single line the status pill shows for a list of warnings.
pub open spec fn summary_text(ws: Seq<Seq<char>>) -> Option<Seq<char>> {
    if ws.len() == 0 {
        None
    } else if ws.len() == 1 {
        Some("Theme: "@ + ws[0])
    } else {
        Some(
            "Theme: "@ + ws[0] + " (and "@ + dec((ws.len() - 1) as nat) + " more issue"@ + (if ws.len()
                == 2 {
                Seq::<char>::empty()
            } else {
                "s"@
            }) + ")"@,
        )
    }
}

/// A single line for the status pill, summarising everything found.
///
/// The pill has one line, so a config with nine problems cannot list
/// them. It names the first and counts the rest; the full list goes to
/// stderr, where someone editing a theme file is already looking.
pub fn summary(warnings: &[String]) -> (r: Option<String>)
    ensures
        r matches Some(s) ==> summary_text(warnings@.map_values(|w: String| w@)) == Some(s@),
        r is None ==> summary_text(warnings@.map_values(|w: String| w@)) is None,
{
    let ghost ws = warnings@.map_values(|w: String| w@);
    let n = warnings.len();
    if n == 0 {
        return None;
    }
    let first = chars_of(warnings[0].as_str());
    let mut v: Vec<char> = Vec::new();
    push_str(&mut v, "Theme: ");
    push_chars(&mut v, &first);
    assert(ws[0] == warnings@[0]@);
    if n == 1 {
        let out = string_of(&v);
        assert(out@ =~= "Theme: "@ + ws[0]);
        return Some(out);
    }
    push_str(&mut v, " (and ");
    push_dec(&mut v, (n - 1) as u64);
    push_str(&mut v, " more issue");
    if n != 2 {
        push_str(&mut v, "s");
    }
    push_str(&mut v, ")");
    let out = string_of(&v);
    assert(out@ =~= summary_text(ws)->0);
    Some(out)
}

// ---------------------------------------------------------------------
// Where the files live
// ---------------------------------------------------------------------

/// `Path::join` of a relative name: a separator goes between the two
/// unless the directory is empty or already ends with one.
pub open spec fn join_path(dir: Seq<char>, name: Seq<char>) -> Seq<char> {
    if dir.len() == 0 || dir.last() == '/' {
        dir + name
    } else {
        dir + seq!['/'] + name
    }
}

fn join_exec(dir: &str, name: &str) -> (r: String)
    ensures
        r@ == join_path(dir@, name@),
{
    let mut v = chars_of(dir);
    if v.len() > 0 && v[v.len() - 1] != '/' {
        v.push('/');
    }
    push_str(&mut v, name);
    let r = string_of(&v);
    assert(r@ =~= join_path(dir@, name@));
    r
}

/// The plain colour config, `<config>/colors.toml`, given the config
/// directory (`None` on a machine with no user config location).
pub fn config_path(config_dir: Option<&str>) -> (r: Option<String>)
    ensures
        match config_dir {
            Some(d) => r matches Some(p) && p@ == join_path(d@, "colors.toml"@),
            None => r is None,
        },
{
    match config_dir {
        Some(d) => Some(join_exec(d, "colors.toml")),
        None => None,
    }
}

/// Where saved themes live: `<config>/themes/<name>.toml`.
///
/// A directory rather than one file, because a person who rices has more
/// than one theme and switching should not mean editing.
pub fn themes_dir(config_dir: Option<&str>) -> (r: Option<String>)
    ensures
        match config_dir {
            Some(d) => r matches Some(p) && p@ == join_path(d@, "themes"@),
            None => r is None,
        },
{
    match config_dir {
        Some(d) => Some(join_exec(d, "themes")),
        None => None,
    }
}

/// The file recording which theme was last chosen, `<config>/selected`.
///
/// Deliberately a bare name and not a path: a moved config directory
/// should keep working.
pub fn selection_path(config_dir: Option<&str>) -> (r: Option<String>)
    ensures
        match config_dir {
            Some(d) => r matches Some(p) && p@ == join_path(d@, "selected"@),
            None => r is None,
        },
{
    match config_dir {
        Some(d) => Some(join_exec(d, "selected")),
        None => None,
    }
}

} // verus!
