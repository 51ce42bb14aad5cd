//! Where the crosshair window goes on the screen, and which part of the
//! image is blended into it.
use vstd::prelude::*;

verus! {

/// A window's position and size on the screen.
#[derive(Clone, Copy, Debug, PartialEq, Eq, Structural)]
pub struct Placement {
    pub x: i32,
    pub y: i32,
    pub width: i32,
    pub height: i32,
}

/// A rectangle copied from the image (at `src_x`, `src_y`) into the
/// window's bitmap (at `dest_x`, `dest_y`).
#[derive(Clone, Copy, Debug, PartialEq, Eq, Structural)]
pub struct Blit {
    pub dest_x: i32,
    pub dest_y: i32,
    pub src_x: i32,
    pub src_y: i32,
    pub width: i32,
    pub height: i32,
}

pub open spec fn min_int(a: int, b: int) -> int {
    if a <= b {
        a
    } else {
        b
    }
}

/// Half of `d`, rounded toward zero (integer division as the machine does it).
pub open spec fn half_toward_zero(d: int) -> int {
    if d >= 0 {
        d / 2
    } else {
        -((-d) / 2)
    }
}

fn half_i64(d: i64) -> (r: i64)
    requires
        d > i64::MIN,
    ensures
        r == half_toward_zero(d as int),
{
    if d >= 0 {
        d / 2
    } else {
        -((-d) / 2)
    }
}

/// The crosshair window: the image's size, cut to the screen, centred on
/// the screen.
pub open spec fn window_placement_spec(screen_w: int, screen_h: int, img_w: int, img_h: int) -> Placement {
    let w: int = min_int(img_w, screen_w);
    let h: int = min_int(img_h, screen_h);
    Placement {
        x: ((screen_w - w) / 2) as i32,
        y: ((screen_h - h) / 2) as i32,
        width: w as i32,
        height: h as i32,
    }
}

/// Places the crosshair window for an image of `img_w` by `img_h` pixels
/// on a screen of `screen_w` by `screen_h` pixels.
pub fn window_placement(screen_w: i32, screen_h: i32, img_w: u32, img_h: u32) -> (p: Placement)
    requires
        img_w <= i32::MAX,
        img_h <= i32::MAX,
    ensures
        p == window_placement_spec(screen_w as int, screen_h as int, img_w as int, img_h as int),
        screen_w >= 0 ==> 0 <= p.x && p.x + p.width <= screen_w && 0 <= (screen_w - p.width) - 2
            * p.x <= 1,
        screen_h >= 0 ==> 0 <= p.y && p.y + p.height <= screen_h && 0 <= (screen_h - p.height) - 2
            * p.y <= 1,
{
    let iw: i32 = img_w as i32;
    let ih: i32 = img_h as i32;
    let w: i32 = if iw <= screen_w {
        iw
    } else {
        screen_w
    };
    let h: i32 = if ih <= screen_h {
        ih
    } else {
        screen_h
    };
    Placement { x: (screen_w - w) / 2, y: (screen_h - h) / 2, width: w, height: h }
}

/// The part of an `img_w` by `img_h` image that is blended into a window
/// of `w` by `h` pixels: the image is centred on the window; where it is
/// larger, the copy starts half the excess into the image and is as wide
/// as the window minus that offset. `None` when that width or height
/// would be negative.
pub open spec fn image_blit_spec(w: int, h: int, img_w: int, img_h: int) -> Option<Blit> {
    let x: int = half_toward_zero(w - img_w);
    let y: int = half_toward_zero(h - img_h);
    let sx: int = if x < 0 { -x } else { 0 };
    let sy: int = if y < 0 { -y } else { 0 };
    let dw: int = min_int(img_w, w) - sx;
    let dh: int = min_int(img_h, h) - sy;
    if dw < 0 || dh < 0 {
        None
    } else {
        Some(
            Blit {
                dest_x: if x > 0 { x } else { 0 } as i32,
                dest_y: if y > 0 { y } else { 0 } as i32,
                src_x: sx as i32,
                src_y: sy as i32,
                width: dw as i32,
                height: dh as i32,
            },
        )
    }
}

/// The rectangle of the image blended into the crosshair window.
pub fn image_blit(w: i32, h: i32, img_w: u32, img_h: u32) -> (r: Option<Blit>)
    requires
        w >= 0,
        h >= 0,
        img_w <= i32::MAX,
        img_h <= i32::MAX,
    ensures
        r == image_blit_spec(w as int, h as int, img_w as int, img_h as int),
        r matches Some(b) ==> 0 <= b.dest_x && b.dest_x + b.width <= w && 0 <= b.dest_y && b.dest_y
            + b.height <= h && 0 <= b.src_x && b.src_x + b.width <= img_w && 0 <= b.src_y
            && b.src_y + b.height <= img_h,
{
    let x: i64 = half_i64(w as i64 - img_w as i64);
    let y: i64 = half_i64(h as i64 - img_h as i64);
    let sx: i64 = if x < 0 {
        -x
    } else {
        0
    };
    let sy: i64 = if y < 0 {
        -y
    } else {
        0
    };
    let fit_w: i64 = if (img_w as i64) <= (w as i64) {
        img_w as i64
    } else {
        w as i64
    };
    let fit_h: i64 = if (img_h as i64) <= (h as i64) {
        img_h as i64
    } else {
        h as i64
    };
    if fit_w < sx || fit_h < sy {
        return None;
    }
    let dx: i64 = if x > 0 {
        x
    } else {
        0
    };
    let dy: i64 = if y > 0 {
        y
    } else {
        0
    };
    Some(
        Blit {
            dest_x: dx as i32,
            dest_y: dy as i32,
            src_x: sx as i32,
            src_y: sy as i32,
            width: (fit_w - sx) as i32,
            height: (fit_h - sy) as i32,
        },
    )
}

/// The rectangle blended by the full-screen overlay variant: the image's
/// top-left corner is placed where a centred image would start (clamped to
/// the screen), and the copy, taken from the image's top-left corner, is
/// the image's size cut to the screen's.
pub open spec fn full_screen_blit_spec(screen_w: int, screen_h: int, img_w: int, img_h: int) -> Blit {
    let x: int = half_toward_zero(screen_w - img_w);
    let y: int = half_toward_zero(screen_h - img_h);
    Blit {
        dest_x: if x > 0 { x } else { 0 } as i32,
        dest_y: if y > 0 { y } else { 0 } as i32,
        src_x: 0,
        src_y: 0,
        width: min_int(img_w, screen_w) as i32,
        height: min_int(img_h, screen_h) as i32,
    }
}

/// The rectangle that the full-screen overlay variant blends.
pub fn full_screen_blit(screen_w: i32, screen_h: i32, img_w: u32, img_h: u32) -> (b: Blit)
    requires
        screen_w >= 0,
        screen_h >= 0,
        img_w <= i32::MAX,
        img_h <= i32::MAX,
    ensures
        b == full_screen_blit_spec(screen_w as int, screen_h as int, img_w as int, img_h as int),
        0 <= b.dest_x && b.dest_x + b.width <= screen_w,
        0 <= b.dest_y && b.dest_y + b.height <= screen_h,
{
    let x: i64 = half_i64(screen_w as i64 - img_w as i64);
    let y: i64 = half_i64(screen_h as i64 - img_h as i64);
    let draw_w: u32 = if img_w <= screen_w as u32 {
        img_w
    } else {
        screen_w as u32
    };
    let draw_h: u32 = if img_h <= screen_h as u32 {
        img_h
    } else {
        screen_h as u32
    };
    Blit {
        dest_x: if x > 0 {
            x as i32
        } else {
            0
        },
        dest_y: if y > 0 {
            y as i32
        } else {
            0
        },
        src_x: 0,
        src_y: 0,
        width: draw_w as i32,
        height: draw_h as i32,
    }
}

} // verus!
