//! Enlarging a small RGB image into a grid of tiles: each pixel becomes a
//! square tile, tiles are one pixel apart on a white background, and a black
//! line marks every second boundary between tiles, so that 2x2 quads stand out.

use vstd::prelude::*;

verus! {

/// Side of the tile each input pixel becomes.
pub const TILE_SIZE: u32 = 4;

/// Distance from one tile to the next: the tile and a one-pixel gap.
pub const TILE_PITCH: u32 = 5;

/// Output width (or height) for an input width (or height) `n`: `n` tiles and
/// the `n - 1` gaps between them.
pub open spec fn tiled_len(n: int) -> int {
    n * TILE_PITCH - 1
}

/// Whether output coordinate `o` lies on a black line across an axis of `n`
/// input pixels: the gap before every second tile, from the third on.
pub open spec fn on_line(o: int, n: int) -> bool {
    let t = (o + 1) / TILE_PITCH as int;
    &&& o % TILE_PITCH as int == TILE_SIZE as int
    &&& t % 2 == 0
    &&& 2 <= t < n
}

/// Channel `c` of output pixel `(x, y)`.
pub open spec fn tiled_channel(w: int, h: int, rgb: Seq<u8>, x: int, y: int, c: int) -> u8 {
    if on_line(y, h) || on_line(x, w) {
        0
    } else if x % TILE_PITCH as int != TILE_SIZE as int && y % TILE_PITCH as int != TILE_SIZE as int {
        rgb[((y / TILE_PITCH as int) * w + x / TILE_PITCH as int) * 3 + c]
    } else {
        255
    }
}

/// The RGB bytes, row by row, of the tiled image of a `w` by `h` image.
pub open spec fn tiled_spec(w: int, h: int, rgb: Seq<u8>) -> Seq<u8> {
    let ow = tiled_len(w);
    Seq::new(
        (ow * tiled_len(h) * 3) as nat,
        |i: int| tiled_channel(w, h, rgb, (i / 3) % ow, (i / 3) / ow, i % 3),
    )
}

/// An RGB image: three bytes per pixel, row by row.
pub struct RgbBytes {
    pub width: u32,
    pub height: u32,
    pub rgb: Vec<u8>,
}

/// Whether an output of `ow` by `oh` pixels fits in memory addressed by `usize`.
pub open spec fn tiled_fits(ow: int, oh: int) -> bool {
    ow * oh * 3 <= usize::MAX
}

/// Tiles the `width` by `height` image whose RGB bytes are `rgb`. `None` when
/// the image is empty or the result would not fit in memory.
pub fn tile_grid(width: u32, height: u32, rgb: &Vec<u8>) -> (r: Option<RgbBytes>)
    requires
        rgb@.len() == width * height * 3,
    ensures
        (width == 0 || height == 0 || tiled_len(width as int) > u32::MAX || tiled_len(height as int)
            > u32::MAX || !tiled_fits(tiled_len(width as int), tiled_len(height as int)))
            ==> r is None,
        (width > 0 && height > 0 && tiled_len(width as int) <= u32::MAX && tiled_len(height as int)
            <= u32::MAX && tiled_fits(tiled_len(width as int), tiled_len(height as int))) ==> (
        r matches Some(img) && img.width == tiled_len(width as int) && img.height == tiled_len(
            height as int,
        ) && img.rgb@ == tiled_spec(width as int, height as int, rgb@)),
{
    if width == 0 || height == 0 || width > (u32::MAX - 4) / 5 + 1 || height > (u32::MAX - 4) / 5 + 1 {
        return None;
    }
    let ow: u32 = width * TILE_PITCH - 1;
    let oh: u32 = height * TILE_PITCH - 1;
    let total: usize = match (ow as usize).checked_mul(oh as usize) {
        Some(p) => match p.checked_mul(3) {
            Some(t) => t,
            None => return None,
        },
        None => {
            assert(ow * oh * 3 > usize::MAX) by (nonlinear_arith)
                requires
                    ow * oh > usize::MAX,
            ;
            return None;
        },
    };
    let ghost spec_out = tiled_spec(width as int, height as int, rgb@);
    let mut out: Vec<u8> = Vec::new();
    let mut p: usize = 0;
    let pixels: usize = total / 3;
    while p < pixels
        invariant
            pixels == ow * oh,
            total == pixels * 3,
            ow == tiled_len(width as int),
            oh == tiled_len(height as int),
            ow > 0,
            rgb@.len() == width * height * 3,
            spec_out == tiled_spec(width as int, height as int, rgb@),
            spec_out.len() == total,
            p <= pixels,
            out@ == spec_out.take(3 * p),
        decreases pixels - p,
    {
        let xu: usize = p % ow as usize;
        let yu: usize = p / ow as usize;
        proof {
            assert(yu < oh) by (nonlinear_arith)
                requires
                    p < ow * oh,
                    yu == (p as int) / (ow as int),
                    ow > 0,
            ;
        }
        let x: u32 = xu as u32;
        let y: u32 = yu as u32;
        let mut c: usize = 0;
        while c < 3
            invariant
                0 <= c <= 3,
                p < pixels,
                pixels == ow * oh,
                total == pixels * 3,
                spec_out.len() == total,
                ow == tiled_len(width as int),
                oh == tiled_len(height as int),
                ow > 0,
                x == (p as int) % (ow as int),
                y == (p as int) / (ow as int),
                y < oh,
                rgb@.len() == width * height * 3,
                spec_out == tiled_spec(width as int, height as int, rgb@),
                out@ == spec_out.take(3 * p + c),
            decreases 3 - c,
        {
            let v = tiled_byte(width, height, rgb, x, y, c);
            proof {
                let i = 3 * p + c;
                assert(i < total) by (nonlinear_arith)
                    requires
                        p < pixels,
                        c < 3,
                        total == pixels * 3,
                        i == 3 * p + c,
                ;
                assert(i / 3 == p && i % 3 == c) by (nonlinear_arith)
                    requires
                        i == 3 * p + c,
                        c < 3,
                ;
                assert(spec_out[i] == v);
            }
            out.push(v);
            assert(out@ =~= spec_out.take(3 * p + c + 1));
            c = c + 1;
        }
        p = p + 1;
    }
    assert(out@ =~= spec_out);
    Some(RgbBytes { width: ow, height: oh, rgb: out })
}

/// Channel `c` of output pixel `(x, y)` of the tiled image.
fn tiled_byte(width: u32, height: u32, rgb: &Vec<u8>, x: u32, y: u32, c: usize) -> (r: u8)
    requires
        width > 0,
        height > 0,
        x < tiled_len(width as int),
        y < tiled_len(height as int),
        c < 3,
        rgb@.len() == width * height * 3,
    ensures
        r == tiled_channel(width as int, height as int, rgb@, x as int, y as int, c as int),
{
    let line_y = y % TILE_PITCH == TILE_SIZE && ((y + 1) / TILE_PITCH) % 2 == 0 && 2 <= (y + 1)
        / TILE_PITCH && (y + 1) / TILE_PITCH < height;
    let line_x = x % TILE_PITCH == TILE_SIZE && ((x + 1) / TILE_PITCH) % 2 == 0 && 2 <= (x + 1)
        / TILE_PITCH && (x + 1) / TILE_PITCH < width;
    if line_y || line_x {
        0
    } else if x % TILE_PITCH != TILE_SIZE && y % TILE_PITCH != TILE_SIZE {
        let tx = x / TILE_PITCH;
        let ty = y / TILE_PITCH;
        let len = rgb.len();
        proof {
            assert(tx < width && ty < height) by (nonlinear_arith)
                requires
                    x < width * 5 - 1,
                    y < height * 5 - 1,
                    tx == x / 5,
                    ty == y / 5,
            ;
            assert(ty * width + tx < width * height && (ty * width + tx) * 3 + c < width * height * 3)
                by (nonlinear_arith)
                requires
                    tx < width,
                    ty < height,
                    c < 3,
            ;
            assert(ty * width <= ty * width + tx);
        }
        rgb[((ty as usize) * (width as usize) + tx as usize) * 3 + c]
    } else {
        255
    }
}

} // verus!
