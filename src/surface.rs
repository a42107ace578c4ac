use vstd::prelude::*;

use crate::error::TaskbarError;

verus! {

/// Channel order of a surface's 4-byte pixels.
#[derive(Clone, Copy, Debug, PartialEq, Eq, Structural)]
pub enum PixelLayout {
    /// Red, green, blue, alpha; color not scaled by alpha.
    Rgba,
    /// Blue, green, red, alpha; color not scaled by alpha.
    Bgra,
    /// Blue, green, red, alpha; each color channel already scaled by alpha.
    PremultipliedBgra,
}

/// A rectangular grid of 4-byte pixels, row-major, tightly packed.
#[derive(Clone, Debug)]
pub struct PixelSurface {
    pub width: u32,
    pub height: u32,
    pub layout: PixelLayout,
    pub data: Vec<u8>,
}

/// Number of bytes a `width` by `height` surface holds.
pub open spec fn surface_len(width: int, height: int) -> int {
    width * height * 4
}

impl PixelSurface {
    /// The buffer holds exactly four bytes per pixel.
    pub open spec fn wf(&self) -> bool {
        self.data@.len() == surface_len(self.width as int, self.height as int)
    }

    /// Wraps a buffer as a surface; a buffer of the wrong length is refused.
    pub fn new(width: u32, height: u32, layout: PixelLayout, data: Vec<u8>) -> (r: Result<
        PixelSurface,
        TaskbarError,
    >)
        ensures
            data@.len() == surface_len(width as int, height as int) <==> r is Ok,
            r is Err ==> r == Err::<PixelSurface, TaskbarError>(TaskbarError::SizeMismatch),
            r matches Ok(s) ==> s.wf() && s.width == width && s.height == height && s.layout
                == layout && s.data@ == data@,
    {
        proof {
            assert(width as int * height as int <= 0xffff_ffff * 0xffff_ffff) by (nonlinear_arith)
                requires
                    width <= 0xffff_ffff,
                    height <= 0xffff_ffff,
            ;
        }
        let expected: u128 = width as u128 * height as u128 * 4;
        if data.len() as u128 == expected {
            Ok(PixelSurface { width, height, layout, data })
        } else {
            Err(TaskbarError::SizeMismatch)
        }
    }

    /// A surface with every pixel set to `pixel`.
    pub fn filled(width: u32, height: u32, layout: PixelLayout, pixel: [u8; 4]) -> (r: PixelSurface)
        requires
            surface_len(width as int, height as int) <= usize::MAX,
        ensures
            r.wf(),
            r.width == width,
            r.height == height,
            r.layout == layout,
            r.data@ == uniform_bytes(surface_len(width as int, height as int), pixel@),
    {
        proof {
            assert(width as int * height as int <= surface_len(width as int, height as int))
                by (nonlinear_arith);
        }
        let n: usize = (width as usize) * (height as usize) * 4;
        let mut data: Vec<u8> = Vec::with_capacity(n);
        let mut k: usize = 0;
        while k < n
            invariant
                k <= n,
                data@.len() == k,
                pixel@.len() == 4,
                forall|j: int| 0 <= j < k ==> #[trigger] data@[j] == pixel@[j % 4],
            decreases n - k,
        {
            data.push(pixel[k % 4]);
            k = k + 1;
        }
        assert(data@ =~= uniform_bytes(n as int, pixel@));
        PixelSurface { width, height, layout, data }
    }
}

/// `n` bytes repeating the 4-byte `pixel`.
pub open spec fn uniform_bytes(n: int, pixel: Seq<u8>) -> Seq<u8> {
    Seq::new(n as nat, |j: int| pixel[j % 4])
}

/// A color channel scaled by alpha, rounded to nearest.
pub open spec fn premultiplied(channel: u8, alpha: u8) -> u8 {
    ((channel as int * alpha as int + 127) / 255) as u8
}

/// Scales one color channel by `alpha`: `(channel * alpha + 127) / 255`.
pub fn premultiply(channel: u8, alpha: u8) -> (r: u8)
    ensures
        r == premultiplied(channel, alpha),
        r as int == (channel as int * alpha as int + 127) / 255,
{
    proof {
        assert(channel as int * alpha as int <= 255 * 255) by (nonlinear_arith)
            requires
                channel <= 255,
                alpha <= 255,
        ;
    }
    ((channel as u16 * alpha as u16 + 127) / 255) as u8
}

/// Start of the pixel holding byte `j`.
pub open spec fn pixel_start(j: int) -> int {
    j - j % 4
}

/// Byte `j` of `src` after swapping red and blue, so RGBA becomes BGRA (and back).
pub open spec fn swapped_byte(src: Seq<u8>, j: int) -> u8 {
    let p = pixel_start(j);
    if j % 4 == 0 {
        src[p + 2]
    } else if j % 4 == 2 {
        src[p]
    } else {
        src[j]
    }
}

/// Byte `j` of `src` (RGBA) in premultiplied BGRA.
pub open spec fn premultiplied_byte(src: Seq<u8>, j: int) -> u8 {
    let p = pixel_start(j);
    let a = src[p + 3];
    if j % 4 == 3 {
        a
    } else {
        premultiplied(swapped_byte(src, j), a)
    }
}

/// RGBA bytes with red and blue swapped in every pixel.
pub open spec fn swapped_channels(src: Seq<u8>) -> Seq<u8> {
    Seq::new(src.len(), |j: int| swapped_byte(src, j))
}

/// RGBA bytes as premultiplied BGRA.
pub open spec fn premultiplied_bgra(src: Seq<u8>) -> Seq<u8> {
    Seq::new(src.len(), |j: int| premultiplied_byte(src, j))
}

proof fn lemma_whole_pixels(w: u32, h: u32)
    ensures
        surface_len(w as int, h as int) % 4 == 0,
{
    vstd::arithmetic::div_mod::lemma_mod_multiples_basic(w as int * h as int, 4);
    assert(surface_len(w as int, h as int) == (w as int * h as int) * 4) by (nonlinear_arith);
}

/// Converts RGBA pixels to BGRA with each color channel premultiplied by alpha.
pub fn to_premultiplied_bgra(img: &PixelSurface) -> (r: Vec<u8>)
    requires
        img.wf(),
    ensures
        r@ == premultiplied_bgra(img.data@),
{
    let n = img.data.len();
    proof {
        lemma_whole_pixels(img.width, img.height);
    }
    let mut out: Vec<u8> = Vec::with_capacity(n);
    let mut k: usize = 0;
    while k < n
        invariant
            n == img.data@.len(),
            n % 4 == 0,
            k % 4 == 0,
            k <= n,
            out@ =~= premultiplied_bgra(img.data@).subrange(0, k as int),
        decreases n - k,
    {
        let r = img.data[k];
        let g = img.data[k + 1];
        let b = img.data[k + 2];
        let a = img.data[k + 3];
        out.push(premultiply(b, a));
        out.push(premultiply(g, a));
        out.push(premultiply(r, a));
        out.push(a);
        proof {
            let src = img.data@;
            assert(pixel_start(k as int) == k);
            assert(pixel_start(k + 1) == k);
            assert(pixel_start(k + 2) == k);
            assert(pixel_start(k + 3) == k);
            assert(out@ =~= premultiplied_bgra(src).subrange(0, k + 4));
        }
        k = k + 4;
    }
    out
}

/// Swaps red and blue in every pixel, leaving alpha as it is.
pub fn swap_red_blue(img: &PixelSurface) -> (r: Vec<u8>)
    requires
        img.wf(),
    ensures
        r@ == swapped_channels(img.data@),
{
    let n = img.data.len();
    proof {
        lemma_whole_pixels(img.width, img.height);
    }
    let mut out: Vec<u8> = Vec::with_capacity(n);
    let mut k: usize = 0;
    while k < n
        invariant
            n == img.data@.len(),
            n % 4 == 0,
            k % 4 == 0,
            k <= n,
            out@ =~= swapped_channels(img.data@).subrange(0, k as int),
        decreases n - k,
    {
        out.push(img.data[k + 2]);
        out.push(img.data[k + 1]);
        out.push(img.data[k]);
        out.push(img.data[k + 3]);
        proof {
            let src = img.data@;
            assert(pixel_start(k as int) == k);
            assert(pixel_start(k + 2) == k);
            assert(out@ =~= swapped_channels(src).subrange(0, k + 4));
        }
        k = k + 4;
    }
    out
}

/// Premultiplying by full opacity leaves a channel as it is, and by full transparency
/// clears it, for every channel value.
pub proof fn lemma_premultiply_extremes(channel: u8)
    ensures
        premultiplied(channel, 255) == channel,
        premultiplied(channel, 0) == 0,
{
    let c = channel as int;
    assert((c * 255 + 127) / 255 == c) by {
        vstd::arithmetic::div_mod::lemma_fundamental_div_mod_converse(c * 255 + 127, 255, c, 127);
    }
    assert(c * 0 == 0);
}

} // verus!
