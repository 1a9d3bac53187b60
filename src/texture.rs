use vstd::prelude::*;

verus! {

/// Width and height, in pixels, of the fallback checkerboard image.
pub const CHECKERBOARD_SIZE: u32 = 16;

/// Bytes per RGBA8 pixel.
pub const PIXEL_SIZE: u32 = 4;

/// Opaque magenta as a packed pixel.
pub const MAGENTA: u32 = 0xFFFF00FF;

/// Opaque black as a packed pixel.
pub const BLACK: u32 = 0xFF000000;

/// Pixel at column `x`, row `y` of the checkerboard: magenta where exactly
/// one of the two coordinates is odd, black elsewhere.
pub open spec fn checker_pixel(x: int, y: int) -> u32 {
    if (x % 2) != (y % 2) {
        MAGENTA
    } else {
        BLACK
    }
}

/// Byte `b` (0 = least significant) of `v`.
pub open spec fn byte_of(v: u32, b: int) -> u8 {
    if b == 0 {
        (v & 0xff) as u8
    } else if b == 1 {
        ((v >> 8u32) & 0xff) as u8
    } else if b == 2 {
        ((v >> 16u32) & 0xff) as u8
    } else {
        ((v >> 24u32) & 0xff) as u8
    }
}

/// The fallback checkerboard, row after row: pixel `k` lies at column
/// `k % 16`, row `k / 16`.
pub fn checkerboard_pixels() -> (p: Vec<u32>)
    ensures
        p@.len() == CHECKERBOARD_SIZE * CHECKERBOARD_SIZE,
        forall|k: int|
            0 <= k < p@.len() ==> #[trigger] p@[k] == checker_pixel(
                k % CHECKERBOARD_SIZE as int,
                k / CHECKERBOARD_SIZE as int,
            ),
{
    let n: usize = CHECKERBOARD_SIZE as usize;
    let mut p: Vec<u32> = Vec::new();
    let mut k: usize = 0;
    while k < n * n
        invariant
            n == CHECKERBOARD_SIZE,
            k <= n * n,
            p@.len() == k,
            forall|m: int| 0 <= m < k ==> #[trigger] p@[m] == checker_pixel(m % n as int, m / n as int),
        decreases n * n - k,
    {
        let x = k % n;
        let y = k / n;
        let v = if (x % 2) != (y % 2) {
            MAGENTA
        } else {
            BLACK
        };
        p.push(v);
        k = k + 1;
    }
    p
}

/// The bytes of `pixels` as they lie in memory: each pixel's four bytes,
/// least significant first.
pub fn pixel_bytes(pixels: &Vec<u32>) -> (bytes: Vec<u8>)
    requires
        pixels@.len() * 4 <= usize::MAX,
    ensures
        bytes@.len() == pixels@.len() * 4,
        forall|m: int| 0 <= m < bytes@.len() ==> #[trigger] bytes@[m] == byte_of(pixels@[m / 4], m % 4),
{
    let mut bytes: Vec<u8> = Vec::new();
    let mut k: usize = 0;
    while k < pixels.len()
        invariant
            k <= pixels@.len(),
            pixels@.len() * 4 <= usize::MAX,
            bytes@.len() == k * 4,
            forall|m: int| 0 <= m < k * 4 ==> #[trigger] bytes@[m] == byte_of(pixels@[m / 4], m % 4),
        decreases pixels@.len() - k,
    {
        let v = pixels[k];
        bytes.push((v & 0xff) as u8);
        bytes.push(((v >> 8u32) & 0xff) as u8);
        bytes.push(((v >> 16u32) & 0xff) as u8);
        bytes.push(((v >> 24u32) & 0xff) as u8);
        assert forall|m: int| 0 <= m < (k + 1) * 4 implies #[trigger] bytes@[m] == byte_of(
            pixels@[m / 4],
            m % 4,
        ) by {
            if m >= k * 4 {
                assert(m / 4 == k);
            }
        }
        k = k + 1;
    }
    bytes
}

} // verus!
