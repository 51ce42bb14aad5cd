//! The hotkey setting file: a decimal hotkey index, read back leniently.
//!
//! Reading trims surrounding whitespace, accepts an optionally signed
//! decimal integer and keeps it only when it names one of the eight
//! hotkeys (0 to 7); anything else reads as the default, 0.
use vstd::prelude::*;

verus! {

/// Unicode `White_Space` characters: what trimming removes.
pub open spec fn is_white_space(c: char) -> bool {
    let v: int = c as int;
    ||| 0x9 <= v <= 0xD
    ||| v == 0x20
    ||| v == 0x85
    ||| v == 0xA0
    ||| v == 0x1680
    ||| 0x2000 <= v <= 0x200A
    ||| v == 0x2028
    ||| v == 0x2029
    ||| v == 0x202F
    ||| v == 0x205F
    ||| v == 0x3000
}

/// `s` without its leading white space.
pub open spec fn trim_start(s: Seq<char>) -> Seq<char>
    decreases s.len(),
{
    if s.len() > 0 && is_white_space(s[0]) {
        trim_start(s.drop_first())
    } else {
        s
    }
}

/// `s` without its trailing white space.
pub open spec fn trim_end(s: Seq<char>) -> Seq<char>
    decreases s.len(),
{
    if s.len() > 0 && is_white_space(s.last()) {
        trim_end(s.drop_last())
    } else {
        s
    }
}

/// `s` without leading and trailing white space.
pub open spec fn trimmed(s: Seq<char>) -> Seq<char> {
    trim_end(trim_start(s))
}

pub open spec fn is_digit(c: char) -> bool {
    '0' <= c <= '9'
}

pub open spec fn all_digits(s: Seq<char>) -> bool {
    forall|i: int| 0 <= i < s.len() ==> is_digit(#[trigger] s[i])
}

/// The value of a string of decimal digits.
pub open spec fn digits_value(s: Seq<char>) -> int
    decreases s.len(),
{
    if s.len() == 0 {
        0
    } else {
        digits_value(s.drop_last()) * 10 + (s.last() as int - '0' as int)
    }
}

/// The integer that `t` spells: an optional `+` or `-` followed by one or
/// more decimal digits; `None` for any other text.
pub open spec fn integer_value(t: Seq<char>) -> Option<int> {
    let signed = t.len() > 0 && (t[0] == '+' || t[0] == '-');
    let body = if signed { t.drop_first() } else { t };
    if body.len() > 0 && all_digits(body) {
        if signed && t[0] == '-' {
            Some(-digits_value(body))
        } else {
            Some(digits_value(body))
        }
    } else {
        None
    }
}

/// The hotkey index that a setting file holding `text` selects.
pub open spec fn setting_value(text: Seq<char>) -> i32 {
    match integer_value(trimmed(text)) {
        Some(v) => if 0 <= v <= 7 { v as i32 } else { 0 },
        None => 0,
    }
}

/// The decimal digits of a natural number.
pub open spec fn decimal_digits(n: nat) -> Seq<char>
    decreases n,
{
    if n < 10 {
        seq![(n + '0' as int) as char]
    } else {
        decimal_digits(n / 10).push(((n % 10) + '0' as int) as char)
    }
}

/// The decimal text of an integer, with a leading `-` when it is negative.
pub open spec fn decimal_text(n: int) -> Seq<char> {
    if n < 0 {
        seq!['-'] + decimal_digits((-n) as nat)
    } else {
        decimal_digits(n as nat)
    }
}

/// The bytes of an ASCII character sequence.
pub open spec fn ascii_bytes(s: Seq<char>) -> Seq<u8> {
    s.map_values(|c: char| c as u8)
}

pub fn is_white_space_char(c: char) -> (r: bool)
    ensures
        r == is_white_space(c),
{
    let v: u32 = c as u32;
    (0x9 <= v && v <= 0xD) || v == 0x20 || v == 0x85 || v == 0xA0 || v == 0x1680 || (0x2000 <= v
        && v <= 0x200A) || v == 0x2028 || v == 0x2029 || v == 0x202F || v == 0x205F || v == 0x3000
}


proof fn lemma_digits_value_nonneg(s: Seq<char>)
    requires
        all_digits(s),
    ensures
        digits_value(s) >= 0,
    decreases s.len(),
{
    if s.len() > 0 {
        assert(is_digit(s[s.len() - 1]));
        lemma_digits_value_nonneg(s.drop_last());
    }
}

/// The bounds of `chars` once leading and trailing white space is dropped.
fn trim_bounds(chars: &[char]) -> (r: (usize, usize))
    ensures
        r.0 <= r.1 <= chars@.len(),
        chars@.subrange(r.0 as int, r.1 as int) == trimmed(chars@),
{
    let len: usize = chars.len();
    let mut lo: usize = 0;
    assert(chars@.subrange(0, len as int) == chars@);
    while lo < len && is_white_space_char(chars[lo])
        invariant
            lo <= len == chars@.len(),
            trim_start(chars@) == trim_start(chars@.subrange(lo as int, len as int)),
        decreases len - lo,
    {
        assert(chars@.subrange(lo as int, len as int).drop_first() == chars@.subrange(
            lo + 1,
            len as int,
        ));
        lo += 1;
    }
    let mut hi: usize = len;
    while hi > lo && is_white_space_char(chars[hi - 1])
        invariant
            lo <= hi <= len == chars@.len(),
            trimmed(chars@) == trim_end(chars@.subrange(lo as int, hi as int)),
        decreases hi - lo,
    {
        assert(chars@.subrange(lo as int, hi as int).drop_last() == chars@.subrange(
            lo as int,
            hi - 1,
        ));
        hi -= 1;
    }
    (lo, hi)
}

/// The hotkey index that a setting file holding `text` selects: the
/// trimmed text read as a signed decimal integer, kept when it lies in
/// 0..=7, and 0 otherwise.
pub fn parse_hotkey_setting(text: &str) -> (idx: i32)
    ensures
        idx == setting_value(text@),
        0 <= idx <= 7,
{
    let chars = crate::text::chars_of(text);
    let (lo, hi) = trim_bounds(chars.as_slice());
    let ghost t = chars@.subrange(lo as int, hi as int);
    assert(t == trimmed(text@));
    let signed = lo < hi && (chars[lo] == '+' || chars[lo] == '-');
    let negative = signed && chars[lo] == '-';
    let start: usize = if signed { lo + 1 } else { lo };
    let ghost body = if signed { t.drop_first() } else { t };
    assert(body == chars@.subrange(start as int, hi as int));
    if start >= hi {
        return 0;
    }
    // `value` is the value of the digits read so far, capped at 8.
    let mut value: u32 = 0;
    let mut i: usize = start;
    while i < hi
        invariant
            start <= i <= hi <= chars@.len(),
            body == chars@.subrange(start as int, hi as int),
            t == trimmed(text@),
            chars@ == text@,
            body == if signed { t.drop_first() } else { t },
            negative == (signed && t[0] == '-'),
            signed == (t.len() > 0 && (t[0] == '+' || t[0] == '-')),
            all_digits(chars@.subrange(start as int, i as int)),
            value as int == if digits_value(chars@.subrange(start as int, i as int)) <= 8 {
                digits_value(chars@.subrange(start as int, i as int))
            } else {
                8
            },
        decreases hi - i,
    {
        let c = chars[i];
        if !('0' <= c && c <= '9') {
            assert(body[i - start] == c);
            assert(!all_digits(body));
            assert(t == trimmed(text@));
            return 0;
        }
        let ghost prev = chars@.subrange(start as int, i as int);
        let ghost next = chars@.subrange(start as int, i + 1);
        assert(next.drop_last() == prev);
        assert(all_digits(next)) by {
            assert forall|j: int| 0 <= j < next.len() implies is_digit(#[trigger] next[j]) by {
                if j < prev.len() {
                    assert(next[j] == prev[j]);
                }
            }
        }
        proof {
            lemma_digits_value_nonneg(prev);
        }
        let d: u32 = (c as u32) - ('0' as u32);
        if value >= 8 {
            value = 8;
        } else {
            value = value * 10 + d;
            if value > 8 {
                value = 8;
            }
        }
        i += 1;
    }
    assert(chars@.subrange(start as int, i as int) == body);
    proof {
        lemma_digits_value_nonneg(body);
    }
    if negative {
        0
    } else if value <= 7 {
        value as i32
    } else {
        0
    }
}

proof fn lemma_decimal_digits(n: nat)
    ensures
        decimal_digits(n).len() > 0,
        all_digits(decimal_digits(n)),
        digits_value(decimal_digits(n)) == n,
        is_digit(decimal_digits(n)[0]),
        is_digit(decimal_digits(n).last()),
    decreases n,
{
    let d = decimal_digits(n);
    let last = ((n % 10) + '0' as int) as char;
    assert(last as int == (n % 10) + '0' as int);
    assert(n == (n / 10) * 10 + n % 10) by (nonlinear_arith);
    if n < 10 {
        assert(d.drop_last() == Seq::<char>::empty());
        assert(d.last() == last);
        assert(digits_value(Seq::<char>::empty()) == 0);
        assert(digits_value(d) == n);
    }
    if n >= 10 {
        lemma_decimal_digits(n / 10);
        let p = decimal_digits(n / 10);
        assert(d.drop_last() == p);
        assert(d.last() == last);
        assert(digits_value(d) == digits_value(p) * 10 + (last as int - '0' as int));
        assert(digits_value(p) == n / 10);
        assert(digits_value(d) == n);
        assert(d[0] == p[0]);
        assert forall|i: int| 0 <= i < d.len() implies is_digit(#[trigger] d[i]) by {
            if i < p.len() {
                assert(d[i] == p[i]);
            }
        }
    }
}

proof fn lemma_no_white_space_untrimmed(s: Seq<char>)
    requires
        s.len() > 0,
        !is_white_space(s[0]),
        !is_white_space(s.last()),
    ensures
        trimmed(s) == s,
{
}

/// Law: the setting text written for a hotkey index reads back as that
/// index when it is one of the eight hotkeys (0 to 7), and as the default
/// 0 otherwise.
pub proof fn lemma_setting_round_trip(idx: i32)
    ensures
        setting_value(decimal_text(idx as int)) == if 0 <= idx <= 7 {
            idx
        } else {
            0i32
        },
{
    let t = decimal_text(idx as int);
    if idx < 0 {
        let digits = decimal_digits((-idx) as nat);
        lemma_decimal_digits((-idx) as nat);
        assert(t[0] == '-');
        assert(t.last() == digits.last());
        lemma_no_white_space_untrimmed(t);
        assert(t.drop_first() == digits);
        assert(integer_value(t) == Some(-(-idx)));
    } else {
        lemma_decimal_digits(idx as nat);
        lemma_no_white_space_untrimmed(t);
        assert(integer_value(t) == Some(idx as int));
    }
}

/// Appends the ASCII decimal digits of `n` to `out`.
fn push_decimal_digits(n: u64, out: &mut Vec<u8>)
    ensures
        final(out)@ == old(out)@ + ascii_bytes(decimal_digits(n as nat)),
    decreases n,
{
    if n >= 10 {
        push_decimal_digits(n / 10, out);
    }
    let d: u8 = (n % 10) as u8;
    out.push(d + 48);
    proof {
        let p = decimal_digits((n / 10) as nat);
        let ds = decimal_digits(n as nat);
        if n >= 10 {
            assert(ascii_bytes(ds) == ascii_bytes(p).push((d + 48) as u8));
        } else {
            assert(ascii_bytes(ds) == seq![(d + 48) as u8]);
        }
    }
}

/// The text of the setting file that selects hotkey `idx`: its decimal
/// form, as ASCII bytes.
pub fn hotkey_setting_text(idx: i32) -> (bytes: Vec<u8>)
    ensures
        bytes@ == ascii_bytes(decimal_text(idx as int)),
{
    let mut out: Vec<u8> = Vec::new();
    if idx < 0 {
        out.push(45u8);
        let magnitude: u64 = (0i64 - (idx as i64)) as u64;
        push_decimal_digits(magnitude, &mut out);
        assert(ascii_bytes(decimal_text(idx as int)) == seq![45u8] + ascii_bytes(
            decimal_digits(magnitude as nat),
        ));
    } else {
        push_decimal_digits(idx as u64, &mut out);
        assert(out@ == ascii_bytes(decimal_digits(idx as nat)));
    }
    out
}

} // verus!
