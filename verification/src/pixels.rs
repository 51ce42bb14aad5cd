//! Images as the overlay handles them: 8-bit RGBA pixels, decoded and
//! resampled by the `image` crate, and reordered to the BGRA layout of
//! Windows device-independent bitmaps.
use vstd::prelude::*;
use crate::decoded::{blank_image, decode_image, resize_exact_rgba};

verus! {

/// An image of `width` by `height` pixels, four bytes (red, green, blue,
/// alpha) per pixel, row by row from the top.
pub struct Bitmap {
    pub width: u32,
    pub height: u32,
    pub pixels: Vec<u8>,
}

impl Bitmap {
    /// The pixel buffer holds exactly the image's pixels.
    pub open spec fn wf(&self) -> bool {
        self.pixels@.len() == self.width as int * self.height as int * 4
    }

    /// The image as plain values: width, height and pixel bytes.
    pub open spec fn model(&self) -> (u32, u32, Seq<u8>) {
        (self.width, self.height, self.pixels@)
    }

    /// A fully transparent black image of `width` by `height` pixels.
    pub fn blank(width: u32, height: u32) -> (b: Bitmap)
        requires
            width as int * height as int * 4 <= usize::MAX,
        ensures
            b.wf(),
            b.model() == blank_model(width, height),
    {
        let n: usize = width as usize * height as usize * 4;
        let mut pixels: Vec<u8> = Vec::new();
        while pixels.len() < n
            invariant
                pixels@.len() <= n,
                forall|i: int| 0 <= i < pixels@.len() ==> pixels@[i] == 0u8,
            decreases n - pixels@.len(),
        {
            pixels.push(0u8);
        }
        assert(pixels@ == Seq::new(n as nat, |i: int| 0u8));
        Bitmap { width, height, pixels }
    }
}

/// A transparent black image of `width` by `height` pixels, as plain values.
pub open spec fn blank_model(width: u32, height: u32) -> (u32, u32, Seq<u8>) {
    (width, height, Seq::new((width as int * height as int * 4) as nat, |i: int| 0u8))
}

/// Decodes an image file held in memory into 8-bit RGBA pixels; `None`
/// when the bytes are not an image that can be decoded.
pub fn decode_rgba(data: &[u8]) -> (r: Option<Bitmap>)
    ensures
        match r {
            Some(b) => b.wf() && crate::decoded::decoded_image(data@) == Some(b.model()),
            None => crate::decoded::decoded_image(data@) is None,
        },
{
    match decode_image(data) {
        Some(d) => Some(d.into_rgba()),
        None => None,
    }
}

/// RGBA pixel bytes reordered to BGRA: red and blue swap places in every
/// pixel, green and alpha stay.
pub open spec fn bgra_of(px: Seq<u8>) -> Seq<u8> {
    Seq::new(
        px.len(),
        |i: int|
            if i % 4 == 0 {
                px[i + 2]
            } else if i % 4 == 2 {
                px[i - 2]
            } else {
                px[i]
            },
    )
}

/// Reorders RGBA pixel bytes into the BGRA order of a 32-bit DIB section.
pub fn rgba_to_bgra(px: &[u8]) -> (out: Vec<u8>)
    requires
        px@.len() % 4 == 0,
    ensures
        out@ == bgra_of(px@),
        out@.len() == px@.len(),
        forall|k: int|
            0 <= k < px@.len() / 4 ==> out@[4 * k] == px@[4 * k + 2] && out@[4 * k + 1] == px@[4
                * k + 1] && #[trigger] out@[4 * k + 2] == px@[4 * k] && out@[4 * k + 3] == px@[4 * k
                + 3],
{
    let mut out: Vec<u8> = Vec::new();
    let mut i: usize = 0;
    while i < px.len()
        invariant
            i <= px@.len(),
            px@.len() % 4 == 0,
            i % 4 == 0,
            out@.len() == i,
            forall|j: int| 0 <= j < i ==> out@[j] == #[trigger] bgra_of(px@)[j],
        decreases px@.len() - i,
    {
        out.push(px[i + 2]);
        out.push(px[i + 1]);
        out.push(px[i]);
        out.push(px[i + 3]);
        i += 4;
    }
    assert(out@ == bgra_of(px@));
    assert forall|k: int| 0 <= k < px@.len() / 4 implies out@[4 * k] == px@[4 * k + 2] && out@[4
        * k + 1] == px@[4 * k + 1] && #[trigger] out@[4 * k + 2] == px@[4 * k] && out@[4 * k + 3]
        == px@[4 * k + 3] by {
        lemma_bgra_per_pixel(px@, k);
    }
    out
}

/// Law: the reordering works pixel by pixel, whatever the pixel's alpha:
/// in every 4-byte pixel the first and third bytes (red and blue) trade
/// places, and the second and fourth (green and alpha) stay put.
pub proof fn lemma_bgra_per_pixel(px: Seq<u8>, k: int)
    requires
        px.len() % 4 == 0,
        0 <= k,
        4 * k + 4 <= px.len(),
    ensures
        bgra_of(px).len() == px.len(),
        bgra_of(px)[4 * k] == px[4 * k + 2],
        bgra_of(px)[4 * k + 1] == px[4 * k + 1],
        bgra_of(px)[4 * k + 2] == px[4 * k],
        bgra_of(px)[4 * k + 3] == px[4 * k + 3],
{
    assert((4 * k) % 4 == 0 && (4 * k + 1) % 4 == 1 && (4 * k + 2) % 4 == 2 && (4 * k + 3) % 4
        == 3);
}

/// Law: reordering twice gives back the original bytes (the reordering is
/// its own inverse).
pub proof fn lemma_bgra_involution(px: Seq<u8>)
    requires
        px.len() % 4 == 0,
    ensures
        bgra_of(bgra_of(px)) == px,
{
    let once = bgra_of(px);
    assert forall|i: int| 0 <= i < px.len() implies #[trigger] bgra_of(once)[i] == px[i] by {
        if i % 4 == 0 {
            assert(once[i + 2] == px[i]);
        } else if i % 4 == 2 {
            assert(once[i - 2] == px[i]);
        }
    }
    assert(bgra_of(once) == px);
}

/// A colour channel weighted by alpha, as an alpha-blending source that
/// carries premultiplied colour expects it: `c * a / 255`, rounded down.
pub open spec fn premultiply(c: u8, a: u8) -> u8 {
    ((c as int * a as int) / 255) as u8
}

/// RGBA pixel bytes turned into premultiplied BGRA: blue, green and red
/// each multiplied by the pixel's alpha over 255, alpha kept.
pub open spec fn premultiplied_bgra_of(px: Seq<u8>) -> Seq<u8> {
    Seq::new(
        px.len(),
        |i: int|
            if i % 4 == 0 {
                premultiply(px[i + 2], px[i + 3])
            } else if i % 4 == 1 {
                premultiply(px[i], px[i + 2])
            } else if i % 4 == 2 {
                premultiply(px[i - 2], px[i + 1])
            } else {
                px[i]
            },
    )
}

fn premultiply_channel(c: u8, a: u8) -> (r: u8)
    ensures
        r == premultiply(c, a),
{
    assert(c as int * a as int <= 255 * 255) by (nonlinear_arith);
    assert((c as int * a as int) / 255 <= 255) by (nonlinear_arith)
        requires
            0 <= c as int * a as int <= 255 * 255,
    ;
    ((c as u32 * a as u32) / 255) as u8
}

/// Turns RGBA pixel bytes into the premultiplied BGRA of a 32-bit DIB
/// section blended with per-pixel alpha (`AC_SRC_ALPHA`).
pub fn premultiplied_bgra(px: &[u8]) -> (out: Vec<u8>)
    requires
        px@.len() % 4 == 0,
    ensures
        out@ == premultiplied_bgra_of(px@),
{
    let mut out: Vec<u8> = Vec::new();
    let mut i: usize = 0;
    while i < px.len()
        invariant
            i <= px@.len(),
            px@.len() % 4 == 0,
            i % 4 == 0,
            out@.len() == i,
            forall|j: int| 0 <= j < i ==> out@[j] == #[trigger] premultiplied_bgra_of(px@)[j],
        decreases px@.len() - i,
    {
        let a: u8 = px[i + 3];
        out.push(premultiply_channel(px[i + 2], a));
        out.push(premultiply_channel(px[i + 1], a));
        out.push(premultiply_channel(px[i], a));
        out.push(a);
        i += 4;
    }
    assert(out@ == premultiplied_bgra_of(px@));
    out
}

/// Law: a fully transparent pixel contributes no colour (all four bytes
/// become 0, so the blend leaves what lies beneath unchanged), and a fully
/// opaque pixel keeps its colour, merely reordered.
pub proof fn lemma_premultiplied_extremes(px: Seq<u8>, k: int)
    requires
        px.len() % 4 == 0,
        0 <= k,
        4 * k + 4 <= px.len(),
    ensures
        px[4 * k + 3] == 0 ==> premultiplied_bgra_of(px).subrange(4 * k, 4 * k + 4) == seq![
            0u8,
            0u8,
            0u8,
            0u8,
        ],
        px[4 * k + 3] == 255 ==> premultiplied_bgra_of(px).subrange(4 * k, 4 * k + 4)
            == bgra_of(px).subrange(4 * k, 4 * k + 4),
{
    let q = premultiplied_bgra_of(px);
    let b = bgra_of(px);
    assert((4 * k) % 4 == 0 && (4 * k + 1) % 4 == 1 && (4 * k + 2) % 4 == 2 && (4 * k + 3) % 4
        == 3);
    assert forall|c: u8| #[trigger] premultiply(c, 255u8) == c by {
        assert((c as int * 255) / 255 == c as int) by (nonlinear_arith);
    }
    assert forall|c: u8| #[trigger] premultiply(c, 0u8) == 0 by {
        assert(c as int * 0 == 0) by (nonlinear_arith);
    }
    if px[4 * k + 3] == 0 {
        assert(q.subrange(4 * k, 4 * k + 4) =~= seq![0u8, 0u8, 0u8, 0u8]);
    }
    if px[4 * k + 3] == 255 {
        assert(q.subrange(4 * k, 4 * k + 4) =~= b.subrange(4 * k, 4 * k + 4));
    }
}

/// The crosshair image: the external file's image when there is one that
/// decodes, else the embedded image, else a blank 32 by 32 image.
pub open spec fn crosshair_model(external: Option<Seq<u8>>, embedded: Seq<u8>) -> (u32, u32, Seq<u8>) {
    match external {
        Some(d) if crate::decoded::decoded_image(d) is Some => crate::decoded::decoded_image(d).unwrap(),
        _ => match crate::decoded::decoded_image(embedded) {
            Some(m) => m,
            None => blank_model(32, 32),
        },
    }
}

/// Law: the user's image wins whenever its bytes decode, whatever its size
/// or content; when they do not decode (or there is no user file) the
/// embedded image is used if it decodes; otherwise the crosshair is a
/// transparent black 32 by 32 image.
pub proof fn lemma_crosshair_choice(user: Seq<u8>, embedded: Seq<u8>)
    ensures
        crate::decoded::decoded_image(user) is Some ==> crosshair_model(Some(user), embedded)
            == crate::decoded::decoded_image(user).unwrap(),
        crate::decoded::decoded_image(user) is None ==> crosshair_model(Some(user), embedded)
            == crosshair_model(None, embedded),
        crate::decoded::decoded_image(embedded) is Some ==> crosshair_model(None, embedded)
            == crate::decoded::decoded_image(embedded).unwrap(),
        crate::decoded::decoded_image(embedded) is None ==> crosshair_model(None, embedded) == (
            32u32,
            32u32,
            Seq::new(4096, |i: int| 0u8),
        ),
{
    assert(blank_model(32, 32).2 =~= Seq::new(4096, |i: int| 0u8));
}

/// Chooses and decodes the crosshair image: `external` holds the bytes of
/// the user's image file, when it could be read.
pub fn load_crosshair(external: Option<&[u8]>, embedded: &[u8]) -> (b: Bitmap)
    ensures
        b.wf(),
        b.model() == crosshair_model(
            match external {
                Some(d) => Some(d@),
                None => None,
            },
            embedded@,
        ),
{
    if let Some(data) = external {
        if let Some(img) = decode_image(data) {
            return img.into_rgba();
        }
    }
    match decode_image(embedded) {
        Some(img) => img.into_rgba(),
        None => Bitmap::blank(32, 32),
    }
}

/// The side of the tray icon, in pixels.
pub const ICON_SIZE: u32 = 32;

/// The image that the tray icon is made from: the decoded icon image, or a
/// blank 32 by 32 image when the bytes do not decode.
pub open spec fn icon_source(png: Seq<u8>) -> (u32, u32, Seq<u8>) {
    match crate::decoded::decoded_image(png) {
        Some(m) => m,
        None => blank_model(ICON_SIZE, ICON_SIZE),
    }
}

/// The tray icon's pixels from its resampled 32 by 32 RGBA image:
/// reordered to BGRA, with straight (not premultiplied) alpha as icons take it.
pub fn icon_bgra(resized: &Bitmap) -> (out: Vec<u8>)
    requires
        resized.wf(),
    ensures
        out@ == bgra_of(resized.pixels@),
{
    rgba_to_bgra(resized.pixels.as_slice())
}

/// The 32 by 32 BGRA pixels of the tray icon made from the image file
/// `png`: the decoded image (or a blank 32 by 32 image when the bytes do
/// not decode) resampled to 32 by 32 pixels with Lanczos3 in its own pixel
/// format, converted to RGBA and reordered. `None` when the image is so
/// wide that the resampler's intermediate buffer would exceed
/// `isize::MAX` bytes (it would panic there).
pub fn tray_icon_pixels(png: &[u8]) -> (r: Option<Vec<u8>>)
    ensures
        r is None <==> icon_source(png@).0 as int * 512 > isize::MAX,
        r matches Some(v) ==> v@.len() == 4096,
        crate::decoded::decoded_image(png@) is None ==> (r matches Some(v) ==> v@ == Seq::new(4096, |i: int| 0u8)),
        crate::decoded::decoded_image(png@) matches Some(m) ==> (m.0 == ICON_SIZE && m.1 == ICON_SIZE && r is Some
            ==> r.unwrap()@ == bgra_of(m.2)),
        r matches Some(v) ==> exists|m: (u32, u32, Seq<u8>)|
            crate::decoded::lanczos3_resampled(icon_source(png@), ICON_SIZE, ICON_SIZE, m) && m.0 == ICON_SIZE
                && m.1 == ICON_SIZE && #[trigger] bgra_of(m.2) == v@,
{
    let src = match decode_image(png) {
        Some(img) => img,
        None => blank_image(ICON_SIZE, ICON_SIZE),
    };
    if src.width() as u64 > (isize::MAX as u64) / 512 {
        return None;
    }
    let resized = resize_exact_rgba(&src, ICON_SIZE, ICON_SIZE);
    let out = icon_bgra(&resized);
    assert(src.model() == icon_source(png@));
    assert(crate::decoded::lanczos3_resampled(icon_source(png@), ICON_SIZE, ICON_SIZE, resized.model())
        && bgra_of(resized.model().2) == out@);
    proof {
        if crate::decoded::decoded_image(png@) is None {
            assert(out@ == bgra_of(Seq::new(4096, |i: int| 0u8)));
            assert(out@ == Seq::new(4096, |i: int| 0u8));
        }
    }
    Some(out)
}

} // verus!
