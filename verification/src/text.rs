//! Text helpers: characters of a string, UTF-16 encoding as the Windows
//! API expects it (NUL-terminated), and its little-endian byte form.
use vstd::prelude::*;

verus! {

/// The UTF-16 code units of one character.
pub open spec fn utf16_units(c: char) -> Seq<u16> {
    let v: int = c as int;
    if v < 0x10000 {
        seq![v as u16]
    } else {
        seq![(0xD800 + (v - 0x10000) / 0x400) as u16, (0xDC00 + (v - 0x10000) % 0x400) as u16]
    }
}

/// The UTF-16 encoding of a character sequence.
pub open spec fn utf16_of(s: Seq<char>) -> Seq<u16>
    decreases s.len(),
{
    if s.len() == 0 {
        seq![]
    } else {
        utf16_of(s.drop_last()) + utf16_units(s.last())
    }
}

/// The UTF-16 encoding of a character sequence followed by a NUL unit.
pub open spec fn wide_of(s: Seq<char>) -> Seq<u16> {
    utf16_of(s).push(0u16)
}

/// The characters of `s`, in order.
pub fn chars_of(s: &str) -> (v: Vec<char>)
    ensures
        v@ == s@,
{
    let mut v: Vec<char> = Vec::new();
    for c in it: s.chars()
        invariant
            v@ == it.seq().take(it.index() as int),
    {
        v.push(c);
    }
    v
}


proof fn lemma_utf16_of_push(s: Seq<char>, c: char)
    ensures
        utf16_of(s.push(c)) == utf16_of(s) + utf16_units(c),
{
    assert(s.push(c).drop_last() == s);
}

/// Appends the UTF-16 code units of `c` to `out`.
fn push_utf16(out: &mut Vec<u16>, c: char)
    ensures
        final(out)@ == old(out)@ + utf16_units(c),
{
    let v: u32 = c as u32;
    if v < 0x10000 {
        out.push(v as u16);
    } else {
        let u: u32 = v - 0x10000;
        out.push((0xD800 + u / 0x400) as u16);
        out.push((0xDC00 + u % 0x400) as u16);
    }
}

/// The UTF-16 encoding of `chars`, without a terminator.
pub fn utf16_encode(chars: &[char]) -> (units: Vec<u16>)
    ensures
        units@ == utf16_of(chars@),
{
    let mut units: Vec<u16> = Vec::new();
    let mut i: usize = 0;
    while i < chars.len()
        invariant
            i <= chars.len(),
            units@ == utf16_of(chars@.take(i as int)),
        decreases chars.len() - i,
    {
        proof {
            lemma_utf16_of_push(chars@.take(i as int), chars@[i as int]);
            assert(chars@.take(i as int).push(chars@[i as int]) == chars@.take(i + 1));
        }
        push_utf16(&mut units, chars[i]);
        i += 1;
    }
    assert(chars@.take(i as int) == chars@);
    units
}

/// The NUL-terminated UTF-16 form of `s`, as the wide-character Windows
/// functions take it.
pub fn wide(s: &str) -> (units: Vec<u16>)
    ensures
        units@ == wide_of(s@),
{
    let chars = chars_of(s);
    let mut units = utf16_encode(chars.as_slice());
    units.push(0u16);
    units
}

/// The bytes of `units` in little-endian order, two per unit: the form in
/// which a wide string is stored as registry data.
pub fn utf16_le_bytes(units: &[u16]) -> (bytes: Vec<u8>)
    ensures
        bytes@.len() == 2 * units@.len(),
        forall|i: int|
            0 <= i < units@.len() ==> bytes@[2 * i] == (units@[i] % 256) as u8 && bytes@[2 * i + 1]
                == (units@[i] / 256) as u8,
{
    let mut bytes: Vec<u8> = Vec::new();
    let mut i: usize = 0;
    while i < units.len()
        invariant
            i <= units.len(),
            bytes@.len() == 2 * i,
            forall|j: int|
                0 <= j < i ==> bytes@[2 * j] == (units@[j] % 256) as u8 && bytes@[2 * j + 1]
                    == (units@[j] / 256) as u8,
        decreases units.len() - i,
    {
        let u: u16 = units[i];
        bytes.push((u % 256) as u8);
        bytes.push((u / 256) as u8);
        i += 1;
    }
    bytes
}

} // verus!
