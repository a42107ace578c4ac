use musicboom::surface::{PixelLayout, PixelSurface};
use musicboom::thumbnail::{
    build_placeholder_thumbnail, choose_cover_image, compositor_thumbnail, cover_image,
    to_compositor_surface, PLACEHOLDER_SIZE, THUMBNAIL_MAX,
};

fn rgba(w: u32, h: u32, px: [u8; 4]) -> PixelSurface {
    PixelSurface::filled(w, h, PixelLayout::Rgba, px)
}

fn png_bytes(w: u32, h: u32, px: [u8; 4]) -> Vec<u8> {
    let img = image::RgbaImage::from_pixel(w, h, image::Rgba(px));
    let mut out = std::io::Cursor::new(Vec::new());
    img.write_to(&mut out, image::ImageFormat::Png).unwrap();
    out.into_inner()
}

#[test]
fn small_surface_keeps_its_size() {
    for (w, h) in [(150u32, 100u32), (200, 200), (1, 1), (200, 3)] {
        let r = to_compositor_surface(rgba(w, h, [10, 20, 30, 255]));
        assert_eq!((r.width, r.height), (w, h));
        assert_eq!(r.layout, PixelLayout::PremultipliedBgra);
        assert_eq!(&r.data[0..4], &[30, 20, 10, 255]);
    }
}

#[test]
fn wide_surface_is_scaled_to_the_box() {
    let r = to_compositor_surface(rgba(400, 100, [255, 0, 0, 255]));
    assert_eq!((r.width, r.height), (200, 50));
    assert_eq!(r.data.len(), 200 * 50 * 4);
    assert_eq!(THUMBNAIL_MAX, 200);
    assert_eq!(&r.data[0..4], &[0, 0, 255, 255]);
}

#[test]
fn tall_surface_is_scaled_to_the_box() {
    let r = to_compositor_surface(rgba(100, 400, [0, 0, 0, 255]));
    assert_eq!((r.width, r.height), (50, 200));
    let r = to_compositor_surface(rgba(300, 299, [0, 0, 0, 255]));
    assert_eq!(r.width, 200);
    assert!(r.height == 199 || r.height == 200);
}

#[test]
fn placeholder_is_flat_dark_grey() {
    let p = build_placeholder_thumbnail();
    assert_eq!((p.width, p.height), (120, 120));
    assert_eq!(PLACEHOLDER_SIZE, 120);
    assert_eq!(p.data.len(), 120 * 120 * 4);
    assert!(p.data.chunks(4).all(|c| c == [30, 30, 30, 255]));
}

#[test]
fn missing_or_broken_cover_gives_the_placeholder() {
    for cover in [None, Some(vec![]), Some(vec![1, 2, 3, 4, 5])] {
        let img = cover_image(&cover);
        assert_eq!((img.width, img.height), (120, 120));
        assert!(img.data.chunks(4).all(|c| c == [30, 30, 30, 255]));
    }
    let thumb = compositor_thumbnail(&None);
    assert_eq!((thumb.width, thumb.height), (120, 120));
    assert!(thumb.data.chunks(4).all(|c| c == [30, 30, 30, 255]));
}

#[test]
fn unusable_decoder_results_give_the_placeholder() {
    let img = choose_cover_image(Some((2, 2, vec![0; 15])));
    assert_eq!((img.width, img.height), (120, 120));
    let img = choose_cover_image(Some((0, 2, vec![])));
    assert_eq!((img.width, img.height), (120, 120));
    let img = choose_cover_image(Some((1, 1, vec![1, 2, 3, 4])));
    assert_eq!((img.width, img.height), (1, 1));
    assert_eq!(img.data, vec![1, 2, 3, 4]);
}

#[test]
fn png_cover_is_decoded() {
    let bytes = png_bytes(3, 2, [200, 100, 50, 255]);
    let img = cover_image(&Some(bytes.clone()));
    assert_eq!((img.width, img.height), (3, 2));
    assert!(img.data.chunks(4).all(|c| c == [200, 100, 50, 255]));
    let thumb = compositor_thumbnail(&Some(bytes));
    assert_eq!((thumb.width, thumb.height), (3, 2));
    assert!(thumb.data.chunks(4).all(|c| c == [50, 100, 200, 255]));
}

#[test]
fn large_png_cover_is_downscaled() {
    let bytes = png_bytes(400, 100, [0, 0, 0, 255]);
    let thumb = compositor_thumbnail(&Some(bytes));
    assert_eq!((thumb.width, thumb.height), (200, 50));
}
