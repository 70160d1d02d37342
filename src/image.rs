//! Pixel formats and image sizes, as far as data moves between images and
//! buffers.

use vstd::prelude::*;

verus! {

/// Bits per pixel of a format with the given per-component bit widths.
pub open spec fn pixel_bits_spec(components: [u8; 4]) -> int {
    components[0] + components[1] + components[2] + components[3]
}

/// Bits per pixel of a format, from the bit width of each of its four
/// components (zero for a component the format lacks).
pub fn pixel_bits(components: [u8; 4]) -> (r: u32)
    ensures
        r == pixel_bits_spec(components),
{
    components[0] as u32 + components[1] as u32 + components[2] as u32 + components[3] as u32
}

/// Whether a pixel type of `pixel_bytes` bytes holds exactly one pixel of the format.
pub fn pixel_size_matches(components: [u8; 4], pixel_bytes: usize) -> (r: bool)
    ensures
        r == (pixel_bits_spec(components) == pixel_bytes * 8),
{
    let bits = pixel_bits(components) as usize;
    if pixel_bytes > usize::MAX / 8 {
        // Far more bits than four 8-bit widths can add up to.
        assert(pixel_bytes * 8 > 4 * 255) by (nonlinear_arith)
            requires
                pixel_bytes > usize::MAX / 8,
                usize::MAX >= 0xffff_ffff,
        ;
        false
    } else {
        bits == pixel_bytes * 8
    }
}

/// The dimensions of an image.
#[derive(Clone, Copy, Debug, PartialEq, Eq, Structural)]
pub enum ImageExtent {
    Dim1d { width: u32, array_layers: u32 },
    Dim2d { width: u32, height: u32, array_layers: u32 },
    Dim3d { width: u32, height: u32, depth: u32 },
}

/// The number of texels in an image.
pub open spec fn texels_spec(e: ImageExtent) -> int {
    match e {
        ImageExtent::Dim1d { width, array_layers } => width * array_layers,
        ImageExtent::Dim2d { width, height, array_layers } => width * height * array_layers,
        ImageExtent::Dim3d { width, height, depth } => width * height * depth,
    }
}

/// `a * b * c`, when it fits in `u32`.
fn product3(a: u32, b: u32, c: u32) -> (r: Option<u32>)
    ensures
        a * b * c <= u32::MAX ==> r == Some((a * b * c) as u32),
        a * b * c > u32::MAX ==> r is None,
{
    if c == 0 {
        assert(a * b * c == 0);
        return Some(0);
    }
    match a.checked_mul(b) {
        None => {
            assert(a * b * c > u32::MAX) by (nonlinear_arith)
                requires
                    a * b > u32::MAX,
                    c >= 1,
            ;
            None
        },
        Some(ab) => ab.checked_mul(c),
    }
}

impl ImageExtent {
    /// Texels in the image, which is the length of a buffer it is copied
    /// into; `None` when the count does not fit in `u32`.
    pub fn texel_count(&self) -> (r: Option<u32>)
        ensures
            texels_spec(*self) <= u32::MAX ==> r == Some(texels_spec(*self) as u32),
            texels_spec(*self) > u32::MAX ==> r is None,
    {
        match *self {
            ImageExtent::Dim1d { width, array_layers } => {
                assert(width * array_layers * 1 == width * array_layers);
                product3(width, array_layers, 1)
            },
            ImageExtent::Dim2d { width, height, array_layers } => product3(width, height, array_layers),
            ImageExtent::Dim3d { width, height, depth } => product3(width, height, depth),
        }
    }
}

} // verus!
