//! Decoding of the firmware status line `<label>=0x<hex>` into the eight
//! throttling flags.
//!
//! The line is trimmed of surrounding whitespace and split at its first `=`;
//! the left side is informational only. The right side must carry the
//! two-character `0x` prefix followed by at least one hexadecimal digit, and
//! the digits must denote a value that fits an unsigned 32-bit word. Bits 0-3
//! are the instantaneous flags, bits 16-19 the historical ones; all other
//! bits are ignored.

use vstd::prelude::*;

use crate::parser::{ParseError, Parser};

verus! {

/// The parser of the throttling status line.
#[derive(Clone, Copy, Debug)]
pub struct ThrottledParser;

/// The eight throttling flags decoded from one status word.
#[derive(Clone, Copy, Debug, PartialEq, Eq, Structural)]
pub struct ThrottledState {
    pub undervoltage_detected: bool,
    pub arm_frequency_capped: bool,
    pub currently_throttled: bool,
    pub soft_temperature_limit_active: bool,
    pub undervoltage_has_occurred: bool,
    pub arm_frequency_capping_has_occurred: bool,
    pub throttling_has_occurred: bool,
    pub soft_temperature_limit_has_occurred: bool,
}

/// Whether bit `k` of `v` is set.
pub open spec fn bit_set(v: u32, k: u32) -> bool {
    (v >> k) & 1 == 1
}

/// The flag record that the status word `v` denotes.
pub open spec fn state_of(v: u32) -> ThrottledState {
    ThrottledState {
        undervoltage_detected: bit_set(v, 0),
        arm_frequency_capped: bit_set(v, 1),
        currently_throttled: bit_set(v, 2),
        soft_temperature_limit_active: bit_set(v, 3),
        undervoltage_has_occurred: bit_set(v, 16),
        arm_frequency_capping_has_occurred: bit_set(v, 17),
        throttling_has_occurred: bit_set(v, 18),
        soft_temperature_limit_has_occurred: bit_set(v, 19),
    }
}

impl ThrottledState {
    /// Decodes the eight flags out of the status word.
    pub fn from_bits(v: u32) -> (r: ThrottledState)
        ensures
            r == state_of(v),
    {
        proof {
            assert(((v & 0x00000001u32) != 0) == ((v >> 0u32) & 1u32 == 1u32)) by (bit_vector);
            assert(((v & 0x00000002u32) != 0) == ((v >> 1u32) & 1u32 == 1u32)) by (bit_vector);
            assert(((v & 0x00000004u32) != 0) == ((v >> 2u32) & 1u32 == 1u32)) by (bit_vector);
            assert(((v & 0x00000008u32) != 0) == ((v >> 3u32) & 1u32 == 1u32)) by (bit_vector);
            assert(((v & 0x00010000u32) != 0) == ((v >> 16u32) & 1u32 == 1u32)) by (bit_vector);
            assert(((v & 0x00020000u32) != 0) == ((v >> 17u32) & 1u32 == 1u32)) by (bit_vector);
            assert(((v & 0x00040000u32) != 0) == ((v >> 18u32) & 1u32 == 1u32)) by (bit_vector);
            assert(((v & 0x00080000u32) != 0) == ((v >> 19u32) & 1u32 == 1u32)) by (bit_vector);
        }
        ThrottledState {
            undervoltage_detected: (v & 0x00000001) != 0,
            arm_frequency_capped: (v & 0x00000002) != 0,
            currently_throttled: (v & 0x00000004) != 0,
            soft_temperature_limit_active: (v & 0x00000008) != 0,
            undervoltage_has_occurred: (v & 0x00010000) != 0,
            arm_frequency_capping_has_occurred: (v & 0x00020000) != 0,
            throttling_has_occurred: (v & 0x00040000) != 0,
            soft_temperature_limit_has_occurred: (v & 0x00080000) != 0,
        }
    }
}

/// Whitespace that is tolerated around the status line: the Unicode
/// White_Space set, as `str::trim` removes it.
pub open spec fn is_space(c: char) -> bool {
    c == '\u{09}' || c == '\u{0A}' || c == '\u{0B}' || c == '\u{0C}' || c == '\u{0D}' || c == ' '
        || c == '\u{85}' || c == '\u{A0}' || c == '\u{1680}' || ('\u{2000}' as u32 <= c as u32
        && c as u32 <= '\u{200A}' as u32) || c == '\u{2028}' || c == '\u{2029}' || c == '\u{202F}'
        || c == '\u{205F}' || c == '\u{3000}'
}

/// How many whitespace characters the line starts with.
pub open spec fn trim_start_idx(s: Seq<char>) -> int
    decreases s.len(),
{
    if s.len() == 0 {
        0
    } else if is_space(s[0]) {
        1 + trim_start_idx(s.drop_first())
    } else {
        0
    }
}

/// The index just past the last non-whitespace character of the line.
pub open spec fn trim_end_idx(s: Seq<char>) -> int
    decreases s.len(),
{
    if s.len() == 0 {
        0
    } else if is_space(s.last()) {
        trim_end_idx(s.drop_last())
    } else {
        s.len() as int
    }
}

/// The line with surrounding whitespace removed.
pub open spec fn trimmed(s: Seq<char>) -> Seq<char> {
    if trim_start_idx(s) <= trim_end_idx(s) {
        s.subrange(trim_start_idx(s), trim_end_idx(s))
    } else {
        Seq::empty()
    }
}

/// The index of the first `=` in the line, or -1 when there is none.
pub open spec fn first_eq(s: Seq<char>) -> int
    decreases s.len(),
{
    if s.len() == 0 {
        -1
    } else if s[0] == '=' {
        0
    } else if first_eq(s.drop_first()) < 0 {
        -1
    } else {
        1 + first_eq(s.drop_first())
    }
}

/// Whether `c` is a hexadecimal digit.
pub open spec fn is_hex_digit(c: char) -> bool {
    ('0' as u32 <= c as u32 && c as u32 <= '9' as u32) || ('a' as u32 <= c as u32 && c as u32
        <= 'f' as u32) || ('A' as u32 <= c as u32 && c as u32 <= 'F' as u32)
}

/// The numeric value of the hexadecimal digit `c` (meaningful when
/// `is_hex_digit(c)`).
pub open spec fn hex_digit_val(c: char) -> nat {
    if '0' as u32 <= c as u32 && c as u32 <= '9' as u32 {
        (c as u32 - '0' as u32) as nat
    } else if 'a' as u32 <= c as u32 && c as u32 <= 'f' as u32 {
        (c as u32 - 'a' as u32 + 10) as nat
    } else if 'A' as u32 <= c as u32 && c as u32 <= 'F' as u32 {
        (c as u32 - 'A' as u32 + 10) as nat
    } else {
        0
    }
}

/// The numeric value of a string of hexadecimal digits, most significant
/// digit first.
pub open spec fn hex_val(s: Seq<char>) -> nat
    decreases s.len(),
{
    if s.len() == 0 {
        0
    } else {
        16 * hex_val(s.drop_last()) + hex_digit_val(s.last())
    }
}

/// The status word that the line denotes, if the line is well formed: after
/// trimming, everything past the first `=` must be `0x` followed by one or
/// more hexadecimal digits whose value fits in 32 bits.
pub open spec fn parse_value(s: Seq<char>) -> Option<u32> {
    let t = trimmed(s);
    let e = first_eq(t);
    if e < 0 {
        None
    } else {
        let rest = t.subrange(e + 1, t.len() as int);
        if rest.len() < 3 {
            None
        } else if rest[0] != '0' || rest[1] != 'x' {
            None
        } else {
            let hex = rest.subrange(2, rest.len() as int);
            if (forall|i: int| 0 <= i < hex.len() ==> is_hex_digit(hex[i])) && hex_val(hex)
                < 0x1_0000_0000 {
                Some(hex_val(hex) as u32)
            } else {
                None
            }
        }
    }
}

/// The flag record that the line denotes, if it is well formed.
pub open spec fn parse_state(s: Seq<char>) -> Option<ThrottledState> {
    match parse_value(s) {
        Some(v) => Some(state_of(v)),
        None => None,
    }
}

proof fn lemma_trim_start(s: Seq<char>)
    ensures
        0 <= trim_start_idx(s) <= s.len(),
        forall|j: int| 0 <= j < trim_start_idx(s) ==> is_space(#[trigger] s[j]),
        trim_start_idx(s) < s.len() ==> !is_space(s[trim_start_idx(s)]),
    decreases s.len(),
{
    if s.len() > 0 && is_space(s[0]) {
        lemma_trim_start(s.drop_first());
        assert forall|j: int| 0 <= j < trim_start_idx(s) implies is_space(#[trigger] s[j]) by {
            if j > 0 {
                assert(s.drop_first()[j - 1] == s[j]);
            }
        }
        if trim_start_idx(s) < s.len() {
            assert(s.drop_first()[trim_start_idx(s) - 1] == s[trim_start_idx(s)]);
        }
    }
}

proof fn lemma_trim_end(s: Seq<char>)
    ensures
        0 <= trim_end_idx(s) <= s.len(),
        forall|j: int| trim_end_idx(s) <= j < s.len() ==> is_space(#[trigger] s[j]),
        trim_end_idx(s) > 0 ==> !is_space(s[trim_end_idx(s) - 1]),
    decreases s.len(),
{
    if s.len() > 0 && is_space(s.last()) {
        lemma_trim_end(s.drop_last());
        assert forall|j: int| trim_end_idx(s) <= j < s.len() implies is_space(#[trigger] s[j]) by {
            if j < s.len() - 1 {
                assert(s.drop_last()[j] == s[j]);
            }
        }
        if trim_end_idx(s) > 0 {
            assert(s.drop_last()[trim_end_idx(s) - 1] == s[trim_end_idx(s) - 1]);
        }
    }
}

proof fn lemma_first_eq(s: Seq<char>)
    ensures
        -1 <= first_eq(s) < s.len(),
        first_eq(s) >= 0 ==> s[first_eq(s)] == '=',
        forall|j: int| 0 <= j < first_eq(s) ==> #[trigger] s[j] != '=',
        first_eq(s) < 0 ==> forall|j: int| 0 <= j < s.len() ==> #[trigger] s[j] != '=',
    decreases s.len(),
{
    if s.len() > 0 && s[0] != '=' {
        lemma_first_eq(s.drop_first());
        assert forall|j: int| 0 <= j < first_eq(s) implies #[trigger] s[j] != '=' by {
            if j > 0 {
                assert(s.drop_first()[j - 1] == s[j]);
            }
        }
        if first_eq(s) >= 0 {
            assert(s.drop_first()[first_eq(s) - 1] == s[first_eq(s)]);
        }
        if first_eq(s) < 0 {
            assert forall|j: int| 0 <= j < s.len() implies #[trigger] s[j] != '=' by {
                if j > 0 {
                    assert(s.drop_first()[j - 1] == s[j]);
                }
            }
        }
    }
}

proof fn lemma_hex_val_mono(s: Seq<char>, i: int, j: int)
    requires
        0 <= i <= j <= s.len(),
    ensures
        hex_val(s.take(i)) <= hex_val(s.take(j)),
    decreases j - i,
{
    if i < j {
        lemma_hex_val_mono(s, i, j - 1);
        assert(s.take(j).drop_last() =~= s.take(j - 1));
        assert(hex_val(s.take(j)) == 16 * hex_val(s.take(j - 1)) + hex_digit_val(s.take(j).last()));
    }
}

/// The hexadecimal digit value of `c`, or `None` when `c` is no such digit.
fn hex_digit(c: char) -> (r: Option<u64>)
    ensures
        r is Some <==> is_hex_digit(c),
        r matches Some(d) ==> d == hex_digit_val(c) && d < 16,
{
    let u = c as u32;
    if '0' as u32 <= u && u <= '9' as u32 {
        Some((u - '0' as u32) as u64)
    } else if 'a' as u32 <= u && u <= 'f' as u32 {
        Some((u - 'a' as u32) as u64 + 10)
    } else if 'A' as u32 <= u && u <= 'F' as u32 {
        Some((u - 'A' as u32) as u64 + 10)
    } else {
        None
    }
}

/// Whether `c` counts as whitespace around the status line.
fn is_space_char(c: char) -> (r: bool)
    ensures
        r == is_space(c),
{
    c == '\u{09}' || c == '\u{0A}' || c == '\u{0B}' || c == '\u{0C}' || c == '\u{0D}' || c == ' '
        || c == '\u{85}' || c == '\u{A0}' || c == '\u{1680}' || ('\u{2000}' as u32 <= c as u32
        && c as u32 <= '\u{200A}' as u32) || c == '\u{2028}' || c == '\u{2029}' || c == '\u{202F}'
        || c == '\u{205F}' || c == '\u{3000}'
}

impl Parser for ThrottledParser {
    type Item = ThrottledState;

    open spec fn parse_model(&self, input: Seq<char>) -> Option<ThrottledState> {
        parse_state(input)
    }

    fn parse(&self, input: &str) -> (r: Result<ThrottledState, ParseError>) {
        let n = input.unicode_len();

        // Trim leading whitespace.
        let mut a: usize = 0;
        while a < n && is_space_char(input.get_char(a))
            invariant
                a <= n,
                n == input@.len(),
                forall|j: int| 0 <= j < a ==> is_space(#[trigger] input@[j]),
            decreases n - a,
        {
            a = a + 1;
        }
        proof {
            lemma_trim_start(input@);
            if a < trim_start_idx(input@) {
                assert(is_space(input@[a as int]));
            }
            assert(a == trim_start_idx(input@));
        }

        // Trim trailing whitespace.
        let mut b: usize = n;
        while b > a && is_space_char(input.get_char(b - 1))
            invariant
                a <= b <= n,
                n == input@.len(),
                forall|j: int| b <= j < n ==> is_space(#[trigger] input@[j]),
            decreases b,
        {
            b = b - 1;
        }
        proof {
            lemma_trim_end(input@);
            if a == n {
                // The line is all whitespace: the trimmed line is empty.
                assert(b == n);
                if n > 0 {
                    assert(trim_end_idx(input@) == 0) by {
                        if trim_end_idx(input@) > 0 {
                            assert(is_space(input@[trim_end_idx(input@) - 1]));
                        }
                    }
                }
            } else {
                assert(!is_space(input@[a as int]));
                assert(b > a) by {
                    if b == a {
                        assert(is_space(input@[a as int]));
                    }
                }
                assert(!is_space(input@[b - 1]));
                assert(b == trim_end_idx(input@)) by {
                    if b < trim_end_idx(input@) {
                        assert(is_space(input@[trim_end_idx(input@) - 1]));
                    }
                    if b > trim_end_idx(input@) {
                        assert(is_space(input@[b - 1]));
                    }
                }
            }
        }
        let t = input.substring_char(a, b);
        proof {
            assert(t@ =~= trimmed(input@));
        }
        let m = b - a;

        // Find the first '='.
        let mut e: usize = 0;
        while e < m && !char_is_eq(t.get_char(e))
            invariant
                e <= m,
                m == t@.len(),
                forall|j: int| 0 <= j < e ==> #[trigger] t@[j] != '=',
            decreases m - e,
        {
            e = e + 1;
        }
        proof {
            lemma_first_eq(t@);
        }
        if e == m {
            proof {
                assert(first_eq(t@) < 0) by {
                    if first_eq(t@) >= 0 {
                        assert(t@[first_eq(t@)] == '=');
                    }
                }
            }
            return Err(ParseError::new(input));
        }
        proof {
            assert(t@[e as int] == '=');
            assert(e == first_eq(t@)) by {
                if first_eq(t@) < e {
                    if first_eq(t@) < 0 {
                        assert(t@[e as int] != '=');
                    } else {
                        assert(t@[first_eq(t@)] != '=');
                    }
                }
                if first_eq(t@) > e {
                    assert(t@[e as int] != '=');
                }
            }
        }
        let ghost rest = t@.subrange(e + 1, m as int);

        // The value side must be the `0x` prefix and at least one digit.
        if m - (e + 1) < 3 {
            return Err(ParseError::new(input));
        }
        if t.get_char(e + 1) != '0' || t.get_char(e + 2) != 'x' {
            proof {
                assert(rest[0] == t@[e + 1] && rest[1] == t@[e + 2]);
            }
            return Err(ParseError::new(input));
        }
        proof {
            assert(rest[0] == '0' && rest[1] == 'x');
        }

        // Decode the digits, most significant first.
        let ghost hex = rest.subrange(2, rest.len() as int);
        let start = e + 3;
        proof {
            assert(hex =~= t@.subrange(start as int, m as int));
            assert(hex.len() > 0);
        }
        let mut acc: u64 = 0;
        let mut k: usize = start;
        proof {
            assert(hex.take(0) =~= Seq::<char>::empty());
        }
        while k < m
            invariant
                start <= k <= m,
                start == e + 3,
                e < m,
                m == t@.len(),
                t@ == trimmed(input@),
                e == first_eq(t@),
                rest == t@.subrange(e + 1, m as int),
                rest.len() >= 3,
                rest[0] == '0',
                rest[1] == 'x',
                hex == rest.subrange(2, rest.len() as int),
                hex == t@.subrange(start as int, m as int),
                forall|j: int| 0 <= j < k - start ==> is_hex_digit(#[trigger] hex[j]),
                acc == hex_val(hex.take(k - start)),
                acc < 0x1_0000_0000,
            decreases m - k,
        {
            let c = t.get_char(k);
            proof {
                assert(hex[k - start] == t@[k as int]);
            }
            match hex_digit(c) {
                None => {
                    proof {
                        assert(!is_hex_digit(hex[k - start]));
                        assert(parse_value(input@) is None) by {
                            if forall|i: int| 0 <= i < hex.len() ==> is_hex_digit(#[trigger] hex[i]) {
                                assert(is_hex_digit(hex[k - start]));
                            }
                        }
                    }
                    return Err(ParseError::new(input));
                },
                Some(d) => {
                    let next: u64 = acc * 16 + d;
                    proof {
                        assert(hex.take(k - start + 1).drop_last() =~= hex.take(k - start));
                        assert(hex.take(k - start + 1).last() == hex[k - start]);
                        assert(next == hex_val(hex.take(k - start + 1)));
                    }
                    if next > 0xFFFF_FFFF {
                        proof {
                            lemma_hex_val_mono(hex, k - start + 1, hex.len() as int);
                            assert(hex.take(hex.len() as int) =~= hex);
                            assert(hex_val(hex) >= 0x1_0000_0000);
                        }
                        return Err(ParseError::new(input));
                    }
                    acc = next;
                },
            }
            k = k + 1;
        }
        proof {
            assert(hex.take(k - start) =~= hex);
            assert(parse_value(input@) == Some(hex_val(hex) as u32));
        }
        Ok(ThrottledState::from_bits(acc as u32))
    }
}

/// Whether `c` is the key-value separator.
fn char_is_eq(c: char) -> (r: bool)
    ensures
        r == (c == '='),
{
    c == '='
}

} // verus!
