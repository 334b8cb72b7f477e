//! Pixel buffers: the colour search of the mining bot, and the byte-level
//! transforms applied to captures before OCR.
use vstd::prelude::*;

verus! {

/// Distance between two channel values.
pub open spec fn channel_gap(a: u8, b: u8) -> int {
    if a >= b {
        a - b
    } else {
        b - a
    }
}

/// Whether pixel number `k` of a BGRA buffer is within `tolerance` of the RGB
/// `target` on each of its three colour channels.
pub open spec fn pixel_matches(pixels: Seq<u8>, k: int, target: [u8; 3], tolerance: u8) -> bool {
    &&& channel_gap(pixels[4 * k + 2], target@[0]) <= tolerance
    &&& channel_gap(pixels[4 * k + 1], target@[1]) <= tolerance
    &&& channel_gap(pixels[4 * k], target@[2]) <= tolerance
}

/// How many of the first `n` pixels match.
pub open spec fn count_matches(pixels: Seq<u8>, n: int, target: [u8; 3], tolerance: u8) -> nat
    decreases n,
{
    if n <= 0 {
        0
    } else {
        count_matches(pixels, n - 1, target, tolerance) + if pixel_matches(
            pixels,
            n - 1,
            target,
            tolerance,
        ) {
            1nat
        } else {
            0nat
        }
    }
}

/// Scans a BGRA buffer of `width` × `height` pixels, row by row from the top and
/// left to right, for pixels within `tolerance` of the RGB `target` on every
/// channel. Returns the position of the first such pixel and how many there are
/// in all, or `None` when there is none (or the zone is empty).
pub fn find_color_pixel(pixels: &[u8], width: i32, height: i32, target: [u8; 3], tolerance: u8) -> (r:
    Option<(i32, i32, u32)>)
    requires
        width > 0 && height > 0 ==> {
            &&& 4 * (width * height - 1) <= i32::MAX
            &&& pixels@.len() >= 4 * width * height - 1
        },
    ensures
        width <= 0 || height <= 0 ==> r is None,
        width > 0 && height > 0 ==> {
            let n = width * height;
            &&& r is None <==> count_matches(pixels@, n, target, tolerance) == 0
            &&& r matches Some((x, y, c)) ==> {
                &&& 0 <= x < width
                &&& 0 <= y < height
                &&& pixel_matches(pixels@, y * width + x, target, tolerance)
                &&& forall|k: int|
                    0 <= k < y * width + x ==> !#[trigger] pixel_matches(
                        pixels@,
                        k,
                        target,
                        tolerance,
                    )
                &&& c == count_matches(pixels@, n, target, tolerance)
            }
        },
{
    if width <= 0 || height <= 0 {
        return None;
    }
    let tol = tolerance;
    let tr = target[0];
    let tg = target[1];
    let tb = target[2];
    let ghost n: int = width * height;
    let mut first: Option<(i32, i32)> = None;
    let mut count: u32 = 0;
    let mut k: usize = 0;
    let mut y: i32 = 0;
    proof {
        assert(n >= 1) by (nonlinear_arith)
            requires
                width > 0,
                height > 0,
                n == width * height,
        ;
        assert(4 * width * height == 4 * n) by (nonlinear_arith)
            requires
                n == width * height,
        ;
    }
    while y < height
        invariant
            0 < width,
            0 <= y <= height,
            n == width * height,
            k == y * width,
            4 * (n - 1) <= i32::MAX,
            pixels@.len() >= 4 * n - 1,
            target@ == seq![tr, tg, tb],
            tol == tolerance,
            count == count_matches(pixels@, k as int, target, tolerance),
            count <= k,
            first is None <==> count == 0,
            first matches Some((fx, fy)) ==> {
                &&& 0 <= fx < width
                &&& 0 <= fy < y
                &&& fy * width + fx < k
                &&& pixel_matches(pixels@, fy * width + fx, target, tolerance)
                &&& forall|j: int|
                    0 <= j < fy * width + fx ==> !#[trigger] pixel_matches(
                        pixels@,
                        j,
                        target,
                        tolerance,
                    )
            },
        decreases height - y,
    {
        proof {
            assert(y * width + width <= n) by (nonlinear_arith)
                requires
                    y < height,
                    n == width * height,
                    0 <= y,
                    0 < width,
            ;
        }
        let mut x: i32 = 0;
        while x < width
            invariant
                0 < width,
                0 <= y < height,
                0 <= x <= width,
                n == width * height,
                y * width + width <= n,
                k == y * width + x,
                4 * (n - 1) <= i32::MAX,
                pixels@.len() >= 4 * n - 1,
                target@ == seq![tr, tg, tb],
                tol == tolerance,
                count == count_matches(pixels@, k as int, target, tolerance),
                count <= k,
                first is None <==> count == 0,
                first matches Some((fx, fy)) ==> {
                    &&& 0 <= fx < width
                    &&& 0 <= fy <= y
                    &&& fy * width + fx < k
                    &&& pixel_matches(pixels@, fy * width + fx, target, tolerance)
                    &&& forall|j: int|
                        0 <= j < fy * width + fx ==> !#[trigger] pixel_matches(
                            pixels@,
                            j,
                            target,
                            tolerance,
                        )
                },
            decreases width - x,
        {
            let i = 4 * k;
            let b = pixels[i];
            let g = pixels[i + 1];
            let r = pixels[i + 2];
            let dr = if r >= tr { r - tr } else { tr - r };
            let dg = if g >= tg { g - tg } else { tg - g };
            let db = if b >= tb { b - tb } else { tb - b };
            if dr <= tol && dg <= tol && db <= tol {
                proof {
                    assert(pixel_matches(pixels@, k as int, target, tolerance));
                    if count == 0 {
                        lemma_count_zero_inv(pixels@, k as int, target, tolerance);
                    }
                }
                count = count + 1;
                if first.is_none() {
                    first = Some((x, y));
                }
            } else {
                assert(!pixel_matches(pixels@, k as int, target, tolerance));
            }
            k = k + 1;
            x = x + 1;
        }
        proof {
            if let Some((fx, fy)) = first {
                assert(fy * width + fx < y * width + width);
                assert(fy <= y);
            }
        }
        y = y + 1;
        assert(k == y * width) by (nonlinear_arith)
            requires
                k == (y - 1) * width + width,
        ;
    }
    assert(k == n) by (nonlinear_arith)
        requires
            k == y * width,
            y == height,
            n == width * height,
    ;
    match first {
        Some((fx, fy)) => Some((fx, fy, count)),
        None => None,
    }
}

/// With no matching pixel among the first `n`, none is counted.
pub(crate) proof fn lemma_no_match_count(pixels: Seq<u8>, n: int, target: [u8; 3], tolerance: u8)
    requires
        forall|k: int| 0 <= k < n ==> !#[trigger] pixel_matches(pixels, k, target, tolerance),
    ensures
        count_matches(pixels, n, target, tolerance) == 0,
    decreases n,
{
    if n > 0 {
        lemma_no_match_count(pixels, n - 1, target, tolerance);
    }
}

proof fn lemma_count_zero_inv(pixels: Seq<u8>, n: int, target: [u8; 3], tolerance: u8)
    requires
        count_matches(pixels, n, target, tolerance) == 0,
    ensures
        forall|k: int| 0 <= k < n ==> !#[trigger] pixel_matches(pixels, k, target, tolerance),
    decreases n,
{
    if n > 0 {
        lemma_count_zero_inv(pixels, n - 1, target, tolerance);
    }
}

/// Number of bytes of a 32-bit-per-pixel capture of `width` × `height`
/// pixels, or `None` when the zone has no area.
pub fn capture_byte_count(width: i32, height: i32) -> (r: Option<usize>)
    requires
        width > 0 && height > 0 ==> width * height * 4 <= i32::MAX,
    ensures
        r is None <==> (width <= 0 || height <= 0),
        r matches Some(n) ==> n == width * height * 4,
{
    if width <= 0 || height <= 0 {
        return None;
    }
    proof {
        assert(width * height >= 1) by (nonlinear_arith)
            requires
                width > 0,
                height > 0,
        ;
        assert(width * height <= width * height * 4) by (nonlinear_arith)
            requires
                width * height >= 1,
        ;
    }
    let area = width * height;
    Some((area * 4) as usize)
}

/// The byte that ends up at position `i` when the first and third byte of
/// every whole group of four are exchanged.
pub open spec fn swapped_index(len: int, i: int) -> int {
    if i >= len - len % 4 {
        i
    } else if i % 4 == 0 {
        i + 2
    } else if i % 4 == 2 {
        i - 2
    } else {
        i
    }
}

/// The bytes with the first and third of every whole group of four exchanged.
pub open spec fn red_blue_swapped(data: Seq<u8>) -> Seq<u8> {
    Seq::new(data.len(), |i: int| data[swapped_index(data.len() as int, i)])
}

/// Exchanges the first and third byte of every whole group of four: turns BGRA
/// pixel data into RGBA and back. Bytes after the last whole group stay.
pub fn swap_red_blue(data: &mut Vec<u8>)
    ensures
        final(data)@ == red_blue_swapped(old(data)@),
{
    let n = data.len();
    let whole = n - n % 4;
    let ghost orig = data@;
    let mut p: usize = 0;
    while p < whole
        invariant
            whole == n - n % 4,
            p % 4 == 0,
            p <= whole,
            data@.len() == n == orig.len(),
            forall|i: int| 0 <= i < p ==> #[trigger] data@[i] == orig[swapped_index(n as int, i)],
            forall|i: int| p <= i < n ==> #[trigger] data@[i] == orig[i],
        decreases whole - p,
    {
        let red = data[p + 2];
        let blue = data[p];
        data.set(p, red);
        data.set(p + 2, blue);
        p = p + 4;
    }
    assert forall|i: int| 0 <= i < n implies #[trigger] data@[i] == orig[swapped_index(n as int, i)] by {
        if i >= p {
            assert(swapped_index(n as int, i) == i);
        }
    }
    assert(data@ =~= red_blue_swapped(orig));
}

/// Exchanging the first and third byte of each group of four twice gives back
/// the bytes it started from: BGRA to RGBA and back is lossless.
pub proof fn swap_red_blue_twice(data: Seq<u8>)
    ensures
        red_blue_swapped(red_blue_swapped(data)) == data,
{
    let n = data.len() as int;
    assert forall|i: int| 0 <= i < n implies 0 <= #[trigger] swapped_index(n, i) < n
        && swapped_index(n, swapped_index(n, i)) == i by {}
    assert(red_blue_swapped(red_blue_swapped(data)) =~= data);
}

/// The colour negative of RGBA bytes: in each whole group of four, the first
/// three bytes (red, green, blue) become 255 minus themselves; alpha and any
/// trailing bytes stay.
pub open spec fn inverted(data: Seq<u8>) -> Seq<u8> {
    Seq::new(
        data.len(),
        |i: int|
            if i % 4 == 3 || i >= data.len() - data.len() % 4 {
                data[i]
            } else {
                (255 - data[i]) as u8
            },
    )
}

/// Taking the negative twice gives back the image.
pub proof fn invert_twice(data: Seq<u8>)
    ensures
        inverted(inverted(data)) == data,
{
    assert(inverted(inverted(data)) =~= data);
}

/// The colour negative of an RGBA image: each of red, green and blue becomes
/// 255 minus itself; alpha stays.
pub fn invert(data: &Vec<u8>) -> (r: Vec<u8>)
    ensures
        r@ == inverted(data@),
{
    let n = data.len();
    let whole = n - n % 4;
    let mut r: Vec<u8> = Vec::new();
    let mut i: usize = 0;
    while i < n
        invariant
            whole == n - n % 4,
            n == data@.len(),
            i <= n,
            r@.len() == i,
            forall|j: int|
                0 <= j < i ==> #[trigger] r@[j] == if j % 4 == 3 || j >= whole {
                    data@[j]
                } else {
                    (255 - data@[j]) as u8
                },
        decreases n - i,
    {
        let v = data[i];
        if i % 4 == 3 || i >= whole {
            r.push(v);
        } else {
            r.push(255 - v);
        }
        i = i + 1;
    }
    assert(r@ =~= inverted(data@));
    r
}

/// The width of the part of `[start, start + len)` that lies within `[0, limit)`,
/// for a start within the limit.
pub open spec fn clipped_len(start: int, len: int, limit: int) -> int {
    if start + len <= limit {
        len
    } else {
        limit - start
    }
}

/// Cuts the rectangle of `w` × `h` pixels at column `x`, row `y` out of an RGBA
/// image of `width` × `height` pixels (clipped to the image). Returns the new
/// image's bytes, width and height.
pub fn crop_region(data: &Vec<u8>, width: u32, height: u32, x: u32, y: u32, w: u32, h: u32) -> (r: (
    Vec<u8>,
    u32,
    u32,
))
    requires
        data@.len() == 4 * width * height,
        x <= width,
        y <= height,
        x + w <= u32::MAX,
        y + h <= u32::MAX,
    ensures
        r.1 == clipped_len(x as int, w as int, width as int),
        r.2 == clipped_len(y as int, h as int, height as int),
        r.0@.len() == 4 * r.1 * r.2,
        forall|dy: int, dx: int, c: int|
            0 <= dy < r.2 && 0 <= dx < r.1 && 0 <= c < 4 ==> #[trigger] r.0@[4 * (dy * r.1 + dx) + c]
                == data@[4 * ((y + dy) * width + x + dx) + c],
{
    let x2 = if x + w < width { x + w } else { width };
    let y2 = if y + h < height { y + h } else { height };
    let cw = x2 - x;
    let ch = y2 - y;
    let ghost iw = width as int;
    let ghost ih = height as int;
    let ghost rw = 4 * cw as int;
    let mut out: Vec<u8> = Vec::new();
    let mut dy: u32 = 0;
    assert(data@.len() == data.len());
    while dy < ch
        invariant
            cw as int == clipped_len(x as int, w as int, iw),
            ch as int == clipped_len(y as int, h as int, ih),
            x + cw <= iw,
            y + ch <= ih,
            iw == width,
            ih == height,
            rw == 4 * cw,
            data@.len() == 4 * iw * ih,
            data@.len() <= usize::MAX,
            dy <= ch,
            out@.len() == rw * dy,
            forall|r: int, j: int|
                0 <= r < dy && 0 <= j < rw ==> #[trigger] out@[rw * r + j] == data@[4 * ((y + r) * iw + x) + j],
        decreases ch - dy,
    {
        let ghost row = (y + dy) as int;
        let ghost before = out@;
        proof {
            assert(row * iw + x + cw <= iw * ih) by (nonlinear_arith)
                requires
                    0 <= row < ih,
                    x + cw <= iw,
                    0 <= x,
                    0 <= cw,
            ;
            assert(4 * iw * ih == 4 * (iw * ih)) by (nonlinear_arith);
            assert(rw * (dy + 1) == rw * dy + rw) by (nonlinear_arith);
            assert(0 <= row * iw) by (nonlinear_arith)
                requires
                    0 <= row,
                    0 <= iw,
            ;
        }
        let row_len: usize = 4 * (cw as usize);
        let start: usize = 4 * (((y + dy) as usize) * (width as usize) + (x as usize));
        let mut j: usize = 0;
        while j < row_len
            invariant
                row == y + dy,
                dy < ch,
                row_len == rw == 4 * cw,
                start == 4 * (row * iw + x),
                row * iw + x + cw <= iw * ih,
                data@.len() == 4 * (iw * ih),
                data@.len() <= usize::MAX,
                j <= row_len,
                out@.len() == rw * dy + j,
                before.len() == rw * dy,
                forall|idx: int| 0 <= idx < rw * dy ==> #[trigger] out@[idx] == before[idx],
                forall|k: int| 0 <= k < j ==> #[trigger] out@[rw * dy + k] == data@[start + k],
            decreases row_len - j,
        {
            out.push(data[start + j]);
            j = j + 1;
        }
        proof {
            assert forall|r: int, k: int|
                0 <= r < dy + 1 && 0 <= k < rw implies #[trigger] out@[rw * r + k] == data@[4 * ((y + r) * iw + x) + k] by {
                if r == dy {
                    assert(out@[rw * dy + k] == data@[start + k]);
                } else {
                    assert(rw * r + k < rw * dy) by (nonlinear_arith)
                        requires
                            0 <= r < dy,
                            0 <= k < rw,
                    ;
                    assert(0 <= rw * r) by (nonlinear_arith)
                        requires
                            0 <= r,
                            0 <= rw,
                    ;
                    assert(out@[rw * r + k] == before[rw * r + k]);
                }
            }
        }
        dy = dy + 1;
    }
    proof {
        assert forall|ry: int, rx: int, c: int|
            0 <= ry < ch && 0 <= rx < cw && 0 <= c < 4 implies #[trigger] out@[4 * (ry * cw + rx) + c]
                == data@[4 * ((y + ry) * width + x + rx) + c] by {
            assert(4 * (ry * cw + rx) + c == rw * ry + (4 * rx + c)) by (nonlinear_arith)
                requires
                    rw == 4 * cw,
            ;
            assert(out@[rw * ry + (4 * rx + c)] == data@[4 * ((y + ry) * iw + x) + (4 * rx + c)]);
        }
        assert(rw * ch == 4 * cw * ch) by (nonlinear_arith)
            requires
                rw == 4 * cw,
        ;
    }
    (out, cw, ch)
}

/// How a captured pixel is read: the bytes are blue, green, red, alpha, and
/// each colour channel must be within the tolerance of the target's red,
/// green and blue. A pixel of exactly the target colour matches; one whose
/// red, green or blue is farther off than the tolerance does not.
pub proof fn bgra_pixels_against_rgb_target(pixels: Seq<u8>, k: int, target: [u8; 3], tolerance: u8)
    ensures
        (pixels[4 * k + 2] == target@[0] && pixels[4 * k + 1] == target@[1] && pixels[4 * k] == target@[2])
            ==> pixel_matches(pixels, k, target, tolerance),
        (pixels[4 * k + 2] > target@[0] + tolerance || target@[0] > pixels[4 * k + 2] + tolerance) ==> !pixel_matches(
            pixels,
            k,
            target,
            tolerance,
        ),
        (pixels[4 * k + 1] > target@[1] + tolerance || target@[1] > pixels[4 * k + 1] + tolerance) ==> !pixel_matches(
            pixels,
            k,
            target,
            tolerance,
        ),
        (pixels[4 * k] > target@[2] + tolerance || target@[2] > pixels[4 * k] + tolerance) ==> !pixel_matches(
            pixels,
            k,
            target,
            tolerance,
        ),
{
}

/// What the byte transforms do to each byte of a whole pixel: the negative
/// turns each colour byte `v` into `255 - v` and keeps alpha; the swap
/// exchanges the first and third byte of each pixel and keeps the others.
pub proof fn pixel_transforms_bytewise(data: Seq<u8>, k: int)
    requires
        0 <= k,
        4 * k + 4 <= data.len(),
    ensures
        inverted(data)[4 * k] + data[4 * k] == 255,
        inverted(data)[4 * k + 1] + data[4 * k + 1] == 255,
        inverted(data)[4 * k + 2] + data[4 * k + 2] == 255,
        inverted(data)[4 * k + 3] == data[4 * k + 3],
        red_blue_swapped(data)[4 * k] == data[4 * k + 2],
        red_blue_swapped(data)[4 * k + 1] == data[4 * k + 1],
        red_blue_swapped(data)[4 * k + 2] == data[4 * k],
        red_blue_swapped(data)[4 * k + 3] == data[4 * k + 3],
{
    let n = data.len() as int;
    assert(n - n % 4 >= 4 * k + 4) by (nonlinear_arith)
        requires
            0 <= k,
            4 * k + 4 <= n,
    ;
    assert((4 * k) % 4 == 0 && (4 * k + 1) % 4 == 1 && (4 * k + 2) % 4 == 2 && (4 * k + 3) % 4 == 3) by (nonlinear_arith)
        requires
            0 <= k,
    ;
}

} // verus!
