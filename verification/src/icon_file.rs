//! The application icon file: a single PNG image wrapped in the ICO
//! container (an icon directory with one entry that points at the PNG).
use vstd::prelude::*;

verus! {

/// The size of the icon directory and its one entry; the PNG data starts here.
pub const ICO_DATA_OFFSET: u32 = 22;

/// The four little-endian bytes of `n`.
pub open spec fn le_bytes(n: u32) -> Seq<u8> {
    seq![(n % 256) as u8, ((n / 256) % 256) as u8, ((n / 65536) % 256) as u8, (n / 16777216) as u8]
}

/// The little-endian 32-bit number stored at `at` in `s`.
pub open spec fn le_u32_at(s: Seq<u8>, at: int) -> int {
    s[at] + 256 * s[at + 1] + 65536 * s[at + 2] + 16777216 * s[at + 3]
}

/// The icon directory (reserved 0, type 1 = icon, one image) and its
/// entry (256 by 256, no palette, one plane, 32 bits per pixel, data size,
/// data offset).
pub open spec fn ico_header(data_len: u32) -> Seq<u8> {
    seq![0u8, 0, 1, 0, 1, 0, 0, 0, 0, 0, 1, 0, 32, 0] + le_bytes(data_len) + le_bytes(
        ICO_DATA_OFFSET,
    )
}

fn push_le_bytes(out: &mut Vec<u8>, n: u32)
    ensures
        final(out)@ == old(out)@ + le_bytes(n),
{
    out.push((n % 256) as u8);
    out.push(((n / 256) % 256) as u8);
    out.push(((n / 65536) % 256) as u8);
    out.push((n / 16777216) as u8);
}

/// The ICO file that holds the PNG image `png` as its only image.
pub fn ico_from_png(png: &[u8]) -> (ico: Vec<u8>)
    ensures
        ico@ == ico_header(png@.len() as u32) + png@,
{
    let png_len: u32 = png.len() as u32;
    let mut ico: Vec<u8> = Vec::new();
    ico.push(0);
    ico.push(0);
    ico.push(1);
    ico.push(0);
    ico.push(1);
    ico.push(0);
    ico.push(0);
    ico.push(0);
    ico.push(0);
    ico.push(0);
    ico.push(1);
    ico.push(0);
    ico.push(32);
    ico.push(0);
    push_le_bytes(&mut ico, png_len);
    push_le_bytes(&mut ico, ICO_DATA_OFFSET);
    assert(ico@ == ico_header(png_len));
    let ghost header = ico@;
    let mut i: usize = 0;
    while i < png.len()
        invariant
            i <= png@.len(),
            ico@ == header + png@.take(i as int),
        decreases png@.len() - i,
    {
        ico.push(png[i]);
        assert(png@.take(i + 1) == png@.take(i as int).push(png@[i as int]));
        i += 1;
    }
    assert(png@.take(i as int) == png@);
    ico
}

proof fn lemma_le_bytes_round_trip(n: u32)
    ensures
        le_u32_at(le_bytes(n), 0) == n,
{
    let b = le_bytes(n);
    assert((n % 256) + 256 * ((n / 256) % 256) + 65536 * ((n / 65536) % 256) + 16777216 * (n
        / 16777216) == n) by (bit_vector);
    assert(b[0] == n % 256);
    assert(b[1] == (n / 256) % 256);
    assert(b[2] == (n / 65536) % 256);
    assert(b[3] == n / 16777216);
}

/// Law: the icon directory describes its one image as `png` says it is
/// found: one image, whose recorded size is the PNG's length (modulo
/// 2^32) and whose recorded offset is where the PNG's bytes begin, intact.
pub proof fn lemma_ico_locates_png(png: Seq<u8>)
    ensures
        ({
            let ico = ico_header(png.len() as u32) + png;
            &&& ico.len() == ICO_DATA_OFFSET + png.len()
            &&& ico[4] + 256 * ico[5] == 1
            &&& le_u32_at(ico, 14) == png.len() as u32
            &&& le_u32_at(ico, 18) == ICO_DATA_OFFSET
            &&& ico.subrange(ICO_DATA_OFFSET as int, ico.len() as int) == png
        }),
{
    let h = ico_header(png.len() as u32);
    let ico = h + png;
    lemma_le_bytes_round_trip(png.len() as u32);
    lemma_le_bytes_round_trip(ICO_DATA_OFFSET);
    let l1 = le_bytes(png.len() as u32);
    let l2 = le_bytes(ICO_DATA_OFFSET);
    assert(h.len() == 22);
    assert(forall|k: int| 0 <= k < 4 ==> ico[14 + k] == l1[k]);
    assert(forall|k: int| 0 <= k < 4 ==> ico[18 + k] == l2[k]);
    assert(ico.subrange(22, ico.len() as int) == png);
}

} // verus!
