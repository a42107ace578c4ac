use vstd::prelude::*;

use crate::surface::{
    premultiplied_bgra, surface_len, to_premultiplied_bgra, uniform_bytes, PixelLayout,
    PixelSurface,
};

verus! {

/// Largest width or height of a thumbnail handed to the compositor.
pub const THUMBNAIL_MAX: u32 = 200;

/// Width and height of the placeholder shown when there is no usable cover.
pub const PLACEHOLDER_SIZE: u32 = 120;

/// What the image decoder makes of `bytes`: width, height and RGBA pixels, or nothing
/// when the bytes are not an image it can read.
pub uninterp spec fn decoded_image(bytes: Seq<u8>) -> Option<(u32, u32, Seq<u8>)>;

/// The image resampled with the Catmull-Rom filter so that it fits in a `max` by `max`
/// box (`max` at least 1), keeping its aspect ratio: width, height and RGBA pixels.
pub uninterp spec fn resized_image(width: u32, height: u32, rgba: Seq<u8>, max: u32) -> (
    u32,
    u32,
    Seq<u8>,
);

/// `(new_width, new_height)` scales `width` by `height` into a `max` by `max` box: the
/// larger side becomes `max` and the other is within one pixel of the exact ratio.
pub open spec fn fits_within(width: int, height: int, max: int, new_width: int, new_height: int) -> bool {
    &&& width >= height ==> {
        &&& new_width == max
        &&& new_height >= 1
        &&& new_height * width - height * max < width
        &&& height * max - new_height * width < width
    }
    &&& height > width ==> {
        &&& new_height == max
        &&& new_width >= 1
        &&& new_width * height - width * max < height
        &&& width * max - new_width * height < height
    }
}

/// Relies on `image::load_from_memory` (the format is guessed from the bytes) and
/// `DynamicImage::to_rgba8`; their result depends on the bytes alone.
#[verifier::external_body]
fn decode_rgba(bytes: &[u8]) -> (r: Option<(u32, u32, Vec<u8>)>)
    ensures
        r is Some <==> decoded_image(bytes@) is Some,
        r matches Some(t) ==> decoded_image(bytes@) == Some((t.0, t.1, t.2@)),
{
    match image::load_from_memory(bytes) {
        Ok(img) => {
            let rgba = img.to_rgba8();
            Some((rgba.width(), rgba.height(), rgba.into_raw()))
        },
        Err(_) => None,
    }
}

/// Relies on `DynamicImage::resize` with `FilterType::CatmullRom` on an RGBA image,
/// then `to_rgba8`. Its new size comes from `resize_dimensions`, which scales both
/// sides by the smaller of `max / width` and `max / height` and rounds, with at least
/// one pixel a side; the result buffer holds exactly its pixels.
#[verifier::external_body]
fn resize_rgba(src: &PixelSurface, max: u32) -> (r: (u32, u32, Vec<u8>))
    requires
        src.wf(),
        src.width >= 1,
        src.height >= 1,
        max >= 1,
        src.width > max || src.height > max,
    ensures
        (r.0, r.1, r.2@) == resized_image(src.width, src.height, src.data@, max),
        r.2@.len() == surface_len(r.0 as int, r.1 as int),
        fits_within(src.width as int, src.height as int, max as int, r.0 as int, r.1 as int),
{
    match image::RgbaImage::from_raw(src.width, src.height, src.data.clone()) {
        Some(buf) => {
            let filter = image::imageops::FilterType::CatmullRom;
            let out = image::DynamicImage::ImageRgba8(buf).resize(max, max, filter).to_rgba8();
            (out.width(), out.height(), out.into_raw())
        },
        None => (src.width, src.height, src.data.clone()),
    }
}

/// The image is non-empty and larger than the thumbnail box on some side.
pub open spec fn needs_downscale(width: u32, height: u32) -> bool {
    width >= 1 && height >= 1 && (width > THUMBNAIL_MAX || height > THUMBNAIL_MAX)
}

/// The RGBA image that goes into the thumbnail: downscaled when it is too large.
pub open spec fn thumbnail_source(width: u32, height: u32, rgba: Seq<u8>) -> (u32, u32, Seq<u8>) {
    if needs_downscale(width, height) {
        resized_image(width, height, rgba, THUMBNAIL_MAX)
    } else {
        (width, height, rgba)
    }
}

/// Prepares an RGBA image for the compositor: downscaled to fit in 200 by 200 when it
/// is larger, then converted to premultiplied BGRA.
pub fn to_compositor_surface(image: PixelSurface) -> (r: PixelSurface)
    requires
        image.wf(),
    ensures
        r.wf(),
        r.layout == PixelLayout::PremultipliedBgra,
        ({
            let src = thumbnail_source(image.width, image.height, image.data@);
            r.width == src.0 && r.height == src.1 && r.data@ == premultiplied_bgra(src.2)
        }),
        !needs_downscale(image.width, image.height) ==> r.width == image.width && r.height
            == image.height,
        needs_downscale(image.width, image.height) ==> fits_within(
            image.width as int,
            image.height as int,
            THUMBNAIL_MAX as int,
            r.width as int,
            r.height as int,
        ),
{
    let working = if image.width >= 1 && image.height >= 1 && (image.width > THUMBNAIL_MAX
        || image.height > THUMBNAIL_MAX) {
        let (w, h, data) = resize_rgba(&image, THUMBNAIL_MAX);
        PixelSurface { width: w, height: h, layout: PixelLayout::Rgba, data }
    } else {
        image
    };
    let bgra = to_premultiplied_bgra(&working);
    PixelSurface {
        width: working.width,
        height: working.height,
        layout: PixelLayout::PremultipliedBgra,
        data: bgra,
    }
}

/// The flat, fully opaque dark-grey 120 by 120 RGBA image used when no cover can be shown.
pub fn build_placeholder_thumbnail() -> (r: PixelSurface)
    ensures
        r.wf(),
        r.width == PLACEHOLDER_SIZE,
        r.height == PLACEHOLDER_SIZE,
        r.layout == PixelLayout::Rgba,
        r.data@ == uniform_bytes(
            surface_len(PLACEHOLDER_SIZE as int, PLACEHOLDER_SIZE as int),
            seq![30u8, 30u8, 30u8, 255u8],
        ),
{
    let r = PixelSurface::filled(PLACEHOLDER_SIZE, PLACEHOLDER_SIZE, PixelLayout::Rgba, [30, 30, 30, 255]);
    proof {
        assert([30u8, 30u8, 30u8, 255u8]@ =~= seq![30u8, 30u8, 30u8, 255u8]);
    }
    r
}

/// A decoder result is a usable cover: non-empty, with a buffer that matches its size.
pub open spec fn usable_image(decoded: Option<(u32, u32, Seq<u8>)>) -> bool {
    match decoded {
        Some((w, h, px)) => w >= 1 && h >= 1 && px.len() == surface_len(w as int, h as int),
        None => false,
    }
}

/// Turns a decoder result into the image to show: the decoded image when it is usable,
/// else the placeholder.
pub fn choose_cover_image(decoded: Option<(u32, u32, Vec<u8>)>) -> (r: PixelSurface)
    ensures
        r.wf(),
        r.layout == PixelLayout::Rgba,
        ({
            let d = match decoded {
                Some(t) => Some((t.0, t.1, t.2@)),
                None => None,
            };
            if usable_image(d) {
                d == Some((r.width, r.height, r.data@))
            } else {
                r.width == PLACEHOLDER_SIZE && r.height == PLACEHOLDER_SIZE && r.data@
                    == uniform_bytes(
                    surface_len(PLACEHOLDER_SIZE as int, PLACEHOLDER_SIZE as int),
                    seq![30u8, 30u8, 30u8, 255u8],
                )
            }
        }),
{
    match decoded {
        Some((w, h, data)) => {
            if w >= 1 && h >= 1 {
                match PixelSurface::new(w, h, PixelLayout::Rgba, data) {
                    Ok(s) => s,
                    Err(_) => build_placeholder_thumbnail(),
                }
            } else {
                build_placeholder_thumbnail()
            }
        },
        None => build_placeholder_thumbnail(),
    }
}

/// The cover bytes seen as a decoder result: missing or empty bytes decode to nothing.
pub open spec fn decoded_cover(cover: Option<Seq<u8>>) -> Option<(u32, u32, Seq<u8>)> {
    match cover {
        Some(b) => if b.len() > 0 {
            decoded_image(b)
        } else {
            None
        },
        None => None,
    }
}

/// The image for the thumbnail: the decoded cover when there is a usable one, else the
/// placeholder.
pub fn cover_image(cover: &Option<Vec<u8>>) -> (r: PixelSurface)
    ensures
        r.wf(),
        r.layout == PixelLayout::Rgba,
        ({
            let d = decoded_cover(
                match cover {
                    Some(b) => Some(b@),
                    None => None,
                },
            );
            if usable_image(d) {
                d == Some((r.width, r.height, r.data@))
            } else {
                r.width == PLACEHOLDER_SIZE && r.height == PLACEHOLDER_SIZE && r.data@
                    == uniform_bytes(
                    surface_len(PLACEHOLDER_SIZE as int, PLACEHOLDER_SIZE as int),
                    seq![30u8, 30u8, 30u8, 255u8],
                )
            }
        }),
{
    match cover {
        Some(bytes) => {
            if bytes.len() > 0 {
                let decoded = decode_rgba(bytes.as_slice());
                choose_cover_image(decoded)
            } else {
                choose_cover_image(None)
            }
        },
        None => choose_cover_image(None),
    }
}

/// The bytes of an optional cover.
pub open spec fn cover_bytes(cover: Option<Vec<u8>>) -> Option<Seq<u8>> {
    match cover {
        Some(b) => Some(b@),
        None => None,
    }
}

/// The placeholder image: width, height and RGBA pixels.
pub open spec fn placeholder_image() -> (u32, u32, Seq<u8>) {
    (
        PLACEHOLDER_SIZE,
        PLACEHOLDER_SIZE,
        uniform_bytes(
            surface_len(PLACEHOLDER_SIZE as int, PLACEHOLDER_SIZE as int),
            seq![30u8, 30u8, 30u8, 255u8],
        ),
    )
}

/// The RGBA image shown for a cover: the decoded cover when usable, else the placeholder.
pub open spec fn shown_image(cover: Option<Seq<u8>>) -> (u32, u32, Seq<u8>) {
    let d = decoded_cover(cover);
    if usable_image(d) {
        d.unwrap()
    } else {
        placeholder_image()
    }
}

/// The thumbnail the compositor receives for a cover: width, height and premultiplied
/// BGRA pixels.
pub open spec fn compositor_image(cover: Option<Seq<u8>>) -> (u32, u32, Seq<u8>) {
    let img = shown_image(cover);
    let src = thumbnail_source(img.0, img.1, img.2);
    (src.0, src.1, premultiplied_bgra(src.2))
}

/// Builds the compositor thumbnail for a cover: decoded (or the placeholder when
/// there is no usable cover), downscaled when larger than 200 by 200, premultiplied BGRA.
pub fn compositor_thumbnail(cover: &Option<Vec<u8>>) -> (r: PixelSurface)
    ensures
        r.wf(),
        r.layout == PixelLayout::PremultipliedBgra,
        (r.width, r.height, r.data@) == compositor_image(cover_bytes(*cover)),
{
    let image = cover_image(cover);
    proof {
        assert(cover_bytes(*cover) == match cover {
            Some(b) => Some(b@),
            None => None::<Seq<u8>>,
        });
    }
    to_compositor_surface(image)
}

} // verus!
