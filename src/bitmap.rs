use vstd::prelude::*;

use crate::error::TaskbarError;
use crate::surface::surface_len;

verus! {

/// Size in bytes of the platform's bitmap info header.
pub const BITMAP_HEADER_SIZE: u32 = 40;

/// The platform's code for uncompressed RGB(A) pixel data.
pub const UNCOMPRESSED: u32 = 0;

/// The description of a device-independent bitmap handed to the platform: top-down
/// (negative height), one plane, 32 bits per pixel, uncompressed.
#[derive(Clone, Copy, Debug, PartialEq, Eq, Structural)]
pub struct BitmapHeader {
    pub header_size: u32,
    pub width: i32,
    pub height: i32,
    pub planes: u16,
    pub bit_count: u16,
    pub compression: u32,
    pub size_image: u32,
}

/// The header describing a top-down `width` by `height` bitmap of 4-byte pixels.
pub open spec fn top_down_header(width: i32, height: i32) -> BitmapHeader {
    BitmapHeader {
        header_size: BITMAP_HEADER_SIZE,
        width,
        height: (-height) as i32,
        planes: 1,
        bit_count: 32,
        compression: UNCOMPRESSED,
        size_image: surface_len(width as int, height as int) as u32,
    }
}

/// Checks a pixel buffer against its size and describes it as a top-down 32-bit
/// bitmap. Nothing is allocated: the platform is asked for memory only with a header
/// that this function returned.
///
/// Non-positive dimensions, and a buffer too large for the header's size field, get
/// `SurfaceAllocationFailed`; a buffer that does not hold `width * height * 4` bytes
/// gets `SizeMismatch`.
pub fn bitmap_header(pixels: &[u8], width: i32, height: i32) -> (r: Result<BitmapHeader, TaskbarError>)
    ensures
        (width <= 0 || height <= 0) ==> r == Err::<BitmapHeader, TaskbarError>(
            TaskbarError::SurfaceAllocationFailed,
        ),
        (width > 0 && height > 0 && pixels@.len() != surface_len(width as int, height as int)) ==> r
            == Err::<BitmapHeader, TaskbarError>(TaskbarError::SizeMismatch),
        (width > 0 && height > 0 && pixels@.len() == surface_len(width as int, height as int)
            && pixels@.len() > u32::MAX) ==> r == Err::<BitmapHeader, TaskbarError>(
            TaskbarError::SurfaceAllocationFailed,
        ),
        r is Ok <==> (width > 0 && height > 0 && pixels@.len() == surface_len(
            width as int,
            height as int,
        ) && pixels@.len() <= u32::MAX),
        r matches Ok(h) ==> h == top_down_header(width, height),
{
    if width <= 0 || height <= 0 {
        return Err(TaskbarError::SurfaceAllocationFailed);
    }
    proof {
        assert(width as int * height as int <= 0x7fff_ffff * 0x7fff_ffff) by (nonlinear_arith)
            requires
                0 < width <= 0x7fff_ffff,
                0 < height <= 0x7fff_ffff,
        ;
    }
    let expected: u64 = width as u64 * height as u64 * 4;
    if pixels.len() as u64 != expected {
        return Err(TaskbarError::SizeMismatch);
    }
    if expected > u32::MAX as u64 {
        return Err(TaskbarError::SurfaceAllocationFailed);
    }
    Ok(
        BitmapHeader {
            header_size: BITMAP_HEADER_SIZE,
            width,
            height: -height,
            planes: 1,
            bit_count: 32,
            compression: UNCOMPRESSED,
            size_image: expected as u32,
        },
    )
}

} // verus!
