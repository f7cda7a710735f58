use vstd::prelude::*;

verus! {

/// Index of the byte whose value lands at position `i` when red and blue trade
/// places in every whole 4-byte pixel of a buffer of `len` bytes.
pub open spec fn swapped_index(i: int, len: int) -> int {
    let base = i - i % 4;
    if base + 4 <= len {
        if i % 4 == 0 { base + 2 } else if i % 4 == 2 { base } else { i }
    } else {
        i
    }
}

/// Converts RGBA pixels to BGRA by swapping the first and third byte of every
/// whole 4-byte pixel; trailing bytes of an incomplete pixel are copied as they are.
pub fn rgba_to_bgra(data: &[u8]) -> (r: Vec<u8>)
    ensures
        r@.len() == data@.len(),
        forall|i: int| 0 <= i < data@.len() ==> #[trigger] r@[i] == data@[swapped_index(i, data@.len() as int)],
{
    let n = data.len();
    let mut out: Vec<u8> = Vec::new();
    let mut i: usize = 0;
    while i < n
        invariant
            n == data@.len(),
            0 <= i <= n,
            out@.len() == i,
            forall|k: int| 0 <= k < i ==> #[trigger] out@[k] == data@[swapped_index(k, n as int)],
        decreases n - i,
    {
        let base: usize = i - i % 4;
        let src: usize = if n >= 4 && base <= n - 4 {
            if i % 4 == 0 { base + 2 } else if i % 4 == 2 { base } else { i }
        } else {
            i
        };
        out.push(data[src]);
        i = i + 1;
    }
    out
}

/// Blue, green and red channels of a 0x00BBGGRR colour in the order the
/// gradient scales them: (high, middle, low) byte.
pub open spec fn channel(color: u32, shift: u32) -> int {
    ((color as int) / pow2(shift)) % 256
}

pub open spec fn pow2(shift: u32) -> int {
    if shift == 16 { 65536 } else if shift == 8 { 256 } else { 1 }
}

/// A channel at the bottom of the gradient: 60% of the top value, rounded down.
pub open spec fn darkened(c: int) -> int {
    c * 6 / 10
}

/// Channel value on row `y` of `height`, blending linearly from top to bottom.
pub open spec fn blend(top: int, y: int, height: int) -> int {
    (top * (height - y) + darkened(top) * y) / height
}

/// Opaque pixel (0xAARRGGBB layout, alpha 255) of row `y` of the background
/// gradient of colour `bg` (0x00BBGGRR layout read as high, middle, low byte).
pub open spec fn gradient_pixel(bg: u32, y: int, height: int) -> int {
    0xFF000000 + blend(channel(bg, 16), y, height) * 65536 + blend(channel(bg, 8), y, height) * 256
        + blend(channel(bg, 0), y, height)
}

fn blend_channel(top: u32, y: u32, height: u32) -> (r: u32)
    requires
        top < 256,
        y < height,
        height <= 100_000,
    ensures
        r == blend(top as int, y as int, height as int),
        r < 256,
{
    let bottom: u32 = top * 6 / 10;
    proof {
        let t = top as int;
        let b = bottom as int;
        let yy = y as int;
        let h = height as int;
        assert(b <= t);
        assert(0 <= t * (h - yy) <= 255 * h) by (nonlinear_arith) requires 0 <= t <= 255, 0 <= yy < h;
        assert(0 <= b * yy <= t * yy) by (nonlinear_arith) requires 0 <= b <= t, 0 <= yy;
        assert(t * (h - yy) + t * yy == t * h) by (nonlinear_arith);
        assert(t * h <= 255 * h) by (nonlinear_arith) requires 0 <= t <= 255, h > 0;
        assert((t * (h - yy) + b * yy) / h <= 255) by (nonlinear_arith)
            requires 0 <= t * (h - yy) + b * yy <= 255 * h, h > 0;
    }
    (top * (height - y) + bottom * y) / height
}

/// The background layer of a `width` x `height` window of colour `bg`: a vertical
/// gradient from the colour at the top to 60% of it at the bottom, row by row.
pub fn render_gradient(bg: u32, width: u32, height: u32) -> (r: Vec<u32>)
    requires
        width <= 100_000,
        height <= 100_000,
        width * height <= 100_000_000,
    ensures
        r@.len() == width * height,
        forall|y: int, x: int| 0 <= y < height && 0 <= x < width
            ==> #[trigger] r@[y * width + x] == gradient_pixel(bg, y, height as int),
{
    let top_r: u32 = (bg >> 16) & 0xFF;
    let top_g: u32 = (bg >> 8) & 0xFF;
    let top_b: u32 = bg & 0xFF;
    proof {
        assert(top_r == channel(bg, 16)) by (bit_vector) requires top_r == (bg >> 16) & 0xFF;
        assert(top_g == channel(bg, 8)) by (bit_vector) requires top_g == (bg >> 8) & 0xFF;
        assert(top_b == channel(bg, 0)) by (bit_vector) requires top_b == bg & 0xFF;
    }
    let mut out: Vec<u32> = Vec::new();
    let mut y: u32 = 0;
    while y < height
        invariant
            0 <= y <= height,
            width <= 100_000,
            height <= 100_000,
            width * height <= 100_000_000,
            out@.len() == y * width,
            top_r == channel(bg, 16),
            top_g == channel(bg, 8),
            top_b == channel(bg, 0),
            forall|yy: int, x: int| 0 <= yy < y && 0 <= x < width
                ==> #[trigger] out@[yy * width + x] == gradient_pixel(bg, yy, height as int),
        decreases height - y,
    {
        let r = blend_channel(top_r, y, height);
        let g = blend_channel(top_g, y, height);
        let b = blend_channel(top_b, y, height);
        let col: u32 = 0xFF000000 | (r << 16) | (g << 8) | b;
        proof {
            assert(col == 0xFF000000 + r * 65536 + g * 256 + b) by (bit_vector)
                requires col == 0xFF000000 | (r << 16) | (g << 8) | b, r < 256, g < 256, b < 256;
        }
        let ghost row_start = out@.len();
        let ghost prev = out@;
        let mut x: u32 = 0;
        while x < width
            invariant
                0 <= x <= width,
                0 <= y < height,
                width <= 100_000,
                height <= 100_000,
                width * height <= 100_000_000,
                row_start == y * width,
                out@.len() == row_start + x,
                col == gradient_pixel(bg, y as int, height as int),
                prev.len() == row_start,
                out@.subrange(0, row_start as int) == prev,
                forall|yy: int, xx: int| 0 <= yy < y && 0 <= xx < width
                    ==> #[trigger] prev[yy * width + xx] == gradient_pixel(bg, yy, height as int),
                forall|xx: int| 0 <= xx < x ==> #[trigger] out@[row_start + xx] == col,
            decreases width - x,
        {
            proof {
                assert(y * width + x < width * height) by (nonlinear_arith)
                    requires y < height, x < width, 0 <= y, 0 <= x;
            }
            out.push(col);
            proof {
                assert(out@.subrange(0, row_start as int) =~= prev);
            }
            x = x + 1;
        }
        proof {
            assert forall|yy: int, xx: int| 0 <= yy < y + 1 && 0 <= xx < width
                implies #[trigger] out@[yy * width + xx] == gradient_pixel(bg, yy, height as int) by {
                if yy == y {
                    assert(out@[row_start + xx] == col);
                } else {
                    assert(yy * width + xx < y * width) by (nonlinear_arith)
                        requires yy < y, xx < width, 0 <= yy, 0 <= xx;
                    assert(0 <= yy * width + xx) by (nonlinear_arith) requires 0 <= yy, 0 <= xx, width >= 0;
                    assert(out@.subrange(0, row_start as int)[yy * width + xx] == out@[yy * width + xx]);
                }
            }
            assert((y + 1) * width == y * width + width) by (nonlinear_arith);
        }
        y = y + 1;
    }
    proof {
        assert(y * width == width * height) by (nonlinear_arith) requires y == height;
    }
    out
}

} // verus!
