use any_crosshair::geometry::{full_screen_blit, image_blit, window_placement, Blit, Placement};
use any_crosshair::icon_file::ico_from_png;
use any_crosshair::pixels::{
    decode_rgba, icon_bgra, load_crosshair, premultiplied_bgra, rgba_to_bgra, tray_icon_pixels, Bitmap,
};
use std::io::Cursor;

fn png_of(width: u32, height: u32, rgba: Vec<u8>) -> Vec<u8> {
    let img = image::RgbaImage::from_raw(width, height, rgba).unwrap();
    let mut out = Vec::new();
    img.write_to(&mut Cursor::new(&mut out), image::ImageFormat::Png).unwrap();
    out
}

#[test]
fn swizzle_swaps_red_and_blue() {
    assert_eq!(rgba_to_bgra(&[1, 2, 3, 4, 5, 6, 7, 8]), vec![3, 2, 1, 4, 7, 6, 5, 8]);
    assert_eq!(rgba_to_bgra(&[]), Vec::<u8>::new());
    let px: Vec<u8> = (0..64).collect();
    assert_eq!(rgba_to_bgra(&rgba_to_bgra(&px)), px);
}

#[test]
fn blank_bitmap() {
    let b = Bitmap::blank(2, 3);
    assert_eq!((b.width, b.height), (2, 3));
    assert_eq!(b.pixels, vec![0u8; 24]);
}

#[test]
fn decodes_png() {
    let rgba = vec![255, 0, 0, 255, 0, 255, 0, 128, 0, 0, 255, 0, 10, 20, 30, 40];
    let png = png_of(2, 2, rgba.clone());
    let b = decode_rgba(&png).unwrap();
    assert_eq!((b.width, b.height), (2, 2));
    assert_eq!(b.pixels, rgba);
    assert!(decode_rgba(b"not an image").is_none());
}

#[test]
fn crosshair_prefers_external_then_embedded_then_blank() {
    let ext = png_of(1, 1, vec![1, 2, 3, 4]);
    let emb = png_of(1, 2, vec![5, 6, 7, 8, 9, 10, 11, 12]);
    let a = load_crosshair(Some(&ext), &emb);
    assert_eq!((a.width, a.height, a.pixels), (1, 1, vec![1, 2, 3, 4]));
    let b = load_crosshair(Some(b"junk"), &emb);
    assert_eq!((b.width, b.height), (1, 2));
    let c = load_crosshair(None, &emb);
    assert_eq!(c.pixels, vec![5, 6, 7, 8, 9, 10, 11, 12]);
    let d = load_crosshair(None, b"junk");
    assert_eq!((d.width, d.height, d.pixels), (32, 32, vec![0u8; 4096]));
}

#[test]
fn tray_icon_from_undecodable_bytes_is_transparent() {
    assert_eq!(tray_icon_pixels(b"junk"), Some(vec![0u8; 4096]));
}

#[test]
fn tray_icon_is_resampled_to_32_by_32() {
    let png = png_of(2, 2, [200u8, 100, 50, 255].repeat(4));
    let px = tray_icon_pixels(&png).unwrap();
    assert_eq!(px.len(), 4096);
    for p in px.chunks(4) {
        assert!((p[0] as i32 - 50).abs() <= 1, "{:?}", p);
        assert!((p[1] as i32 - 100).abs() <= 1, "{:?}", p);
        assert!((p[2] as i32 - 200).abs() <= 1, "{:?}", p);
        assert!((p[3] as i32 - 255).abs() <= 1, "{:?}", p);
    }
}

#[test]
fn tray_icon_of_32_by_32_image_is_unchanged_but_reordered() {
    let rgba: Vec<u8> = (0..4096u32).map(|i| (i % 251) as u8).collect();
    let png = png_of(32, 32, rgba.clone());
    assert_eq!(tray_icon_pixels(&png), Some(rgba_to_bgra(&rgba)));
}

#[test]
fn placement_is_centred_and_clipped() {
    assert_eq!(window_placement(1920, 1080, 64, 32), Placement { x: 928, y: 524, width: 64, height: 32 });
    assert_eq!(window_placement(1920, 1080, 65, 33), Placement { x: 927, y: 523, width: 65, height: 33 });
    assert_eq!(window_placement(100, 50, 300, 20), Placement { x: 0, y: 15, width: 100, height: 20 });
}

#[test]
fn blit_of_fitting_image_covers_it() {
    assert_eq!(
        image_blit(64, 32, 64, 32),
        Some(Blit { dest_x: 0, dest_y: 0, src_x: 0, src_y: 0, width: 64, height: 32 })
    );
    assert_eq!(
        image_blit(70, 40, 64, 31),
        Some(Blit { dest_x: 3, dest_y: 4, src_x: 0, src_y: 0, width: 64, height: 31 })
    );
}

#[test]
fn blit_of_larger_image() {
    assert_eq!(
        image_blit(50, 50, 100, 51),
        Some(Blit { dest_x: 0, dest_y: 0, src_x: 25, src_y: 0, width: 25, height: 50 })
    );
    assert_eq!(image_blit(100, 10, 1000, 10), None);
}

#[test]
fn full_screen_blit_values() {
    assert_eq!(
        full_screen_blit(1920, 1080, 64, 64),
        Blit { dest_x: 928, dest_y: 508, src_x: 0, src_y: 0, width: 64, height: 64 }
    );
    assert_eq!(
        full_screen_blit(100, 100, 300, 50),
        Blit { dest_x: 0, dest_y: 25, src_x: 0, src_y: 0, width: 100, height: 50 }
    );
}

#[test]
fn ico_wraps_png() {
    let png = vec![0x89, b'P', b'N', b'G', 1, 2, 3];
    let ico = ico_from_png(&png);
    let mut expected = vec![0, 0, 1, 0, 1, 0, 0, 0, 0, 0, 1, 0, 32, 0, 7, 0, 0, 0, 22, 0, 0, 0];
    expected.extend_from_slice(&png);
    assert_eq!(ico, expected);
    let big = vec![7u8; 0x1_0203];
    let ico = ico_from_png(&big);
    assert_eq!(&ico[14..18], &[0x03, 0x02, 0x01, 0x00]);
    assert_eq!(&ico[22..], &big[..]);
}

#[test]
fn premultiplied_pixels() {
    // opaque red, transparent white, half-transparent (128) green-blue mix
    let px = [255, 0, 0, 255, 255, 255, 255, 0, 10, 200, 100, 128];
    assert_eq!(
        premultiplied_bgra(&px),
        vec![0, 0, 255, 255, 0, 0, 0, 0, 50, 100, 5, 128]
    );
    assert_eq!(premultiplied_bgra(&[]), Vec::<u8>::new());
}

#[test]
fn icon_pixels_are_reordered() {
    let b = Bitmap { width: 1, height: 2, pixels: vec![1, 2, 3, 0, 4, 5, 6, 7] };
    assert_eq!(icon_bgra(&b), vec![3, 2, 1, 0, 6, 5, 4, 7]);
}
