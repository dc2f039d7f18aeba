//! From packed pixels to planes.
//!
//! A captured frame holds four bytes a pixel: blue, green, red and one that is
//! not used, row after row, each row `stride` bytes long. The encoder takes
//! three planes one after the other: a luma sample for every pixel, then one
//! sample of each chroma for every second pixel of every second row. The
//! samples follow the usual integer form of the studio-range transform.

use vstd::prelude::*;

verus! {

/// One of the three planes of a converted frame.
#[derive(Clone, Copy, Debug, PartialEq, Eq, Structural)]
pub enum Plane {
    /// Luma.
    Y,
    /// Blue-difference chroma.
    U,
    /// Red-difference chroma.
    V,
}

/// `n` divided by 256, rounded toward zero.
pub open spec fn spec_scale(n: int) -> int {
    if n >= 0 {
        n / 256
    } else {
        -((-n) / 256)
    }
}

/// `x` brought into the range of a byte.
pub open spec fn spec_clamp(x: int) -> u8 {
    if x < 0 {
        0
    } else if x > 255 {
        255
    } else {
        x as u8
    }
}

/// The sample of `plane` for the colour (`r`, `g`, `b`).
pub open spec fn spec_sample(plane: Plane, r: int, g: int, b: int) -> u8 {
    match plane {
        Plane::Y => spec_clamp(spec_scale(66 * r + 129 * g + 25 * b + 128) + 16),
        Plane::U => spec_clamp(spec_scale(112 * b - 38 * r - 74 * g + 128) + 128),
        Plane::V => spec_clamp(spec_scale(112 * r - 94 * g - 18 * b + 128) + 128),
    }
}

/// Where the pixel (`x`, `y`) begins in a frame whose rows are `stride`
/// bytes long.
pub open spec fn spec_offset(stride: int, x: int, y: int) -> int {
    y * stride + 4 * x
}

/// The sample of `plane` for the pixel (`x`, `y`) of the frame `src`.
pub open spec fn spec_sample_at(src: Seq<u8>, stride: int, plane: Plane, x: int, y: int) -> u8 {
    let o = spec_offset(stride, x, y);
    spec_sample(plane, src[o + 2] as int, src[o + 1] as int, src[o] as int)
}

/// How many samples a plane has along a side of `n` pixels: all of them for
/// luma, every second one, the first included, for chroma.
pub open spec fn spec_count(n: int, plane: Plane) -> int {
    match plane {
        Plane::Y => n,
        _ => (n + 1) / 2,
    }
}

/// The pixel that the sample `k` along a side is taken from.
pub open spec fn spec_pixel(k: int, plane: Plane) -> int {
    match plane {
        Plane::Y => k,
        _ => 2 * k,
    }
}

/// Where the sample of row `r` and column `c` stands in a plane of `cols`
/// columns that begins at `base`.
pub open spec fn spec_index(base: int, cols: int, r: int, c: int) -> int {
    base + r * cols + c
}

/// The length of the rows of a frame of `len` bytes and `height` rows.
pub open spec fn spec_stride(len: int, height: int) -> int
    recommends
        height > 0,
{
    len / height
}

/// Whether `dest` holds, from `base` on, the plane `plane` of the frame
/// `src`, row after row.
pub open spec fn spec_holds_plane(
    dest: Seq<u8>,
    base: int,
    src: Seq<u8>,
    stride: int,
    width: int,
    height: int,
    plane: Plane,
) -> bool {
    let cols = spec_count(width, plane);
    let rows = spec_count(height, plane);
    &&& dest.len() >= base + rows * cols
    &&& forall|r: int, c: int|
        0 <= r < rows && 0 <= c < cols ==> #[trigger] dest[spec_index(base, cols, r, c)]
            == spec_sample_at(src, stride, plane, spec_pixel(c, plane), spec_pixel(r, plane))
}

fn scale(n: i32) -> (q: i32)
    requires
        -0x100_0000 <= n <= 0x100_0000,
    ensures
        q == spec_scale(n as int),
{
    if n >= 0 {
        n / 256
    } else {
        -((-n) / 256)
    }
}

fn clamp(x: i32) -> (b: u8)
    ensures
        b == spec_clamp(x as int),
{
    if x < 0 {
        0
    } else if x > 255 {
        255
    } else {
        x as u8
    }
}

/// The sample of `plane` for the colour (`r`, `g`, `b`).
pub fn sample(plane: Plane, r: u8, g: u8, b: u8) -> (s: u8)
    ensures
        s == spec_sample(plane, r as int, g as int, b as int),
{
    let r: i32 = r as i32;
    let g: i32 = g as i32;
    let b: i32 = b as i32;
    match plane {
        Plane::Y => clamp(scale(66 * r + 129 * g + 25 * b + 128) + 16),
        Plane::U => clamp(scale(112 * b - 38 * r - 74 * g + 128) + 128),
        Plane::V => clamp(scale(112 * r - 94 * g - 18 * b + 128) + 128),
    }
}

/// Every sample of a colour stays within the studio range: luma from 16 to
/// 235, chroma from 16 to 240. Nothing is ever cut off at the ends of a byte.
pub proof fn lemma_samples_stay_in_studio_range(plane: Plane, r: u8, g: u8, b: u8)
    ensures
        16 <= spec_sample(plane, r as int, g as int, b as int) <= 240,
        plane == Plane::Y ==> spec_sample(plane, r as int, g as int, b as int) <= 235,
{
}

proof fn lemma_row_fits(y: int, height: int, stride: int, len: int)
    requires
        0 <= y < height,
        0 <= stride,
        height * stride <= len,
    ensures
        0 <= y * stride,
        y * stride + stride <= len,
{
    assert(0 <= y * stride && y * stride + stride <= height * stride) by (nonlinear_arith)
        requires
            0 <= y < height,
            0 <= stride,
    ;
}

proof fn lemma_next_row(base: int, cols: int, r: int)
    ensures
        spec_index(base, cols, r, cols) == spec_index(base, cols, r + 1, 0),
{
    assert(r * cols + cols == (r + 1) * cols) by (nonlinear_arith);
}

proof fn lemma_index_ordered(base: int, cols: int, r: int, c: int, r2: int, c2: int)
    requires
        0 <= c < cols,
        0 <= c2 <= cols,
        0 <= r < r2,
    ensures
        spec_index(base, cols, r, c) < spec_index(base, cols, r2, c2),
{
    assert(r * cols + cols <= r2 * cols) by (nonlinear_arith)
        requires
            r + 1 <= r2,
            0 <= cols,
    ;
}

/// Appends the plane `plane` of the frame `src` to `dest`.
fn push_plane(
    width: usize,
    height: usize,
    src: &[u8],
    stride: usize,
    plane: Plane,
    dest: &mut Vec<u8>,
)
    requires
        height * stride <= src@.len(),
        4 * width <= stride,
    ensures
        final(dest)@.len() == old(dest)@.len() + spec_count(height as int, plane) * spec_count(
            width as int,
            plane,
        ),
        final(dest)@.take(old(dest)@.len() as int) == old(dest)@,
        spec_holds_plane(
            final(dest)@,
            old(dest)@.len() as int,
            src@,
            stride as int,
            width as int,
            height as int,
            plane,
        ),
{
    let len: usize = src.len();
    let ghost before = dest@;
    let ghost base = dest@.len() as int;
    let ghost cols = spec_count(width as int, plane);
    let ghost rows = spec_count(height as int, plane);
    let step: usize = match plane {
        Plane::Y => 1,
        _ => 2,
    };
    let ghost mut r: int = 0;
    let mut y: usize = 0;
    while y < height
        invariant
            step == spec_pixel(1, plane),
            len == src@.len(),
            height * stride <= src@.len(),
            4 * width <= stride,
            cols == spec_count(width as int, plane),
            rows == spec_count(height as int, plane),
            base == before.len(),
            0 <= r <= rows,
            y == spec_pixel(r, plane) || (r == rows && y >= height),
            y < height ==> r < rows,
            dest@.len() == spec_index(base, cols, r, 0),
            dest@.take(base) == before,
            forall|r0: int, c0: int|
                0 <= r0 < r && 0 <= c0 < cols ==> #[trigger] dest@[spec_index(base, cols, r0, c0)]
                    == spec_sample_at(
                    src@,
                    stride as int,
                    plane,
                    spec_pixel(c0, plane),
                    spec_pixel(r0, plane),
                ),
        decreases height - y,
    {
        proof {
            lemma_row_fits(y as int, height as int, stride as int, src@.len() as int);
        }
        let row: usize = y * stride;
        let ghost mut c: int = 0;
        let mut x: usize = 0;
        while x < width
            invariant
                step == spec_pixel(1, plane),
                len == src@.len(),
                4 * width <= stride,
                row == y * stride,
                row + stride <= src@.len(),
                cols == spec_count(width as int, plane),
                base == before.len(),
                0 <= r < rows,
                y == spec_pixel(r, plane),
                0 <= c <= cols,
                x == spec_pixel(c, plane) || (c == cols && x >= width),
                x < width ==> c < cols,
                dest@.len() == spec_index(base, cols, r, c),
                dest@.take(base) == before,
                forall|r0: int, c0: int|
                    0 <= r0 < r && 0 <= c0 < cols ==> #[trigger] dest@[spec_index(
                        base,
                        cols,
                        r0,
                        c0,
                    )] == spec_sample_at(
                        src@,
                        stride as int,
                        plane,
                        spec_pixel(c0, plane),
                        spec_pixel(r0, plane),
                    ),
                forall|c0: int|
                    0 <= c0 < c ==> #[trigger] dest@[spec_index(base, cols, r, c0)]
                        == spec_sample_at(
                        src@,
                        stride as int,
                        plane,
                        spec_pixel(c0, plane),
                        spec_pixel(r, plane),
                    ),
            decreases width - x,
        {
            let o: usize = row + 4 * x;
            let s = sample(plane, src[o + 2], src[o + 1], src[o]);
            let ghost held = dest@;
            dest.push(s);
            proof {
                assert(o == spec_offset(stride as int, x as int, y as int));
                assert(dest@.take(base) =~= held.take(base));
                assert forall|r0: int, c0: int| 0 <= r0 < r && 0 <= c0 < cols implies #[trigger] dest@[spec_index(
                    base,
                    cols,
                    r0,
                    c0,
                )] == spec_sample_at(
                    src@,
                    stride as int,
                    plane,
                    spec_pixel(c0, plane),
                    spec_pixel(r0, plane),
                ) by {
                    lemma_index_ordered(base, cols, r0, c0, r, c);
                    assert(dest@[spec_index(base, cols, r0, c0)] == held[spec_index(
                        base,
                        cols,
                        r0,
                        c0,
                    )]);
                }
                assert forall|c0: int| 0 <= c0 < c + 1 implies #[trigger] dest@[spec_index(
                    base,
                    cols,
                    r,
                    c0,
                )] == spec_sample_at(
                    src@,
                    stride as int,
                    plane,
                    spec_pixel(c0, plane),
                    spec_pixel(r, plane),
                ) by {
                    if c0 < c {
                        assert(dest@[spec_index(base, cols, r, c0)] == held[spec_index(
                            base,
                            cols,
                            r,
                            c0,
                        )]);
                    }
                }
                c = c + 1;
            }
            x = if width - x > step {
                x + step
            } else {
                width
            };
        }
        proof {
            lemma_next_row(base, cols, r);
            r = r + 1;
        }
        y = if height - y > step {
            y + step
        } else {
            height
        };
    }
    proof {
        assert(dest@.len() == base + rows * cols);
    }
}

/// Converts the frame `src` of `width` by `height` pixels into its three
/// planes, which replace what `dest` held: luma first, then the two chromas.
pub fn argb_to_i420(width: usize, height: usize, src: &[u8], dest: &mut Vec<u8>)
    requires
        height > 0,
        4 * width <= spec_stride(src@.len() as int, height as int),
    ensures
        final(dest)@.len() == width * height + 2 * (spec_count(height as int, Plane::U)
            * spec_count(width as int, Plane::U)),
        2 * final(dest)@.len() >= 3 * (width * height),
        spec_holds_plane(
            final(dest)@,
            0,
            src@,
            spec_stride(src@.len() as int, height as int),
            width as int,
            height as int,
            Plane::Y,
        ),
        spec_holds_plane(
            final(dest)@,
            width * height,
            src@,
            spec_stride(src@.len() as int, height as int),
            width as int,
            height as int,
            Plane::U,
        ),
        spec_holds_plane(
            final(dest)@,
            width * height + spec_count(height as int, Plane::U) * spec_count(
                width as int,
                Plane::U,
            ),
            src@,
            spec_stride(src@.len() as int, height as int),
            width as int,
            height as int,
            Plane::V,
        ),
{
    let stride: usize = src.len() / height;
    proof {
        assert(height * stride <= src@.len()) by (nonlinear_arith)
            requires
                height > 0,
                stride == (src@.len() as int) / (height as int),
        ;
    }
    dest.clear();
    push_plane(width, height, src, stride, Plane::Y, dest);
    let ghost luma = dest@;
    push_plane(width, height, src, stride, Plane::U, dest);
    let ghost two = dest@;
    push_plane(width, height, src, stride, Plane::V, dest);
    proof {
        let w = width as int;
        let h = height as int;
        let cw = spec_count(w, Plane::U);
        let ch = spec_count(h, Plane::U);
        assert(luma.len() == h * w);
        assert(h * w == w * h) by (nonlinear_arith);
        assert(two.len() == w * h + ch * cw);
        assert(0 <= ch * cw) by (nonlinear_arith)
            requires
                0 <= ch,
                0 <= cw,
        ;
        assert(4 * (ch * cw) >= w * h) by (nonlinear_arith)
            requires
                2 * cw >= w >= 0,
                2 * ch >= h >= 0,
        ;
        assert forall|r: int, c: int| 0 <= r < h && 0 <= c < w implies #[trigger] dest@[spec_index(
            0,
            w,
            r,
            c,
        )] == spec_sample_at(src@, stride as int, Plane::Y, c, r) by {
            lemma_index_ordered(0, w, r, c, h, 0);
            let k = spec_index(0, w, r, c);
            assert(0 <= r * w) by (nonlinear_arith)
                requires
                    0 <= r,
                    0 <= w,
            ;
            assert(two.take(luma.len() as int)[k] == luma[k]);
            assert(dest@.take(two.len() as int)[k] == two[k]);
        }
        assert forall|r: int, c: int| 0 <= r < ch && 0 <= c < cw implies #[trigger] dest@[spec_index(
            w * h,
            cw,
            r,
            c,
        )] == spec_sample_at(src@, stride as int, Plane::U, 2 * c, 2 * r) by {
            lemma_index_ordered(w * h, cw, r, c, ch, 0);
            let k = spec_index(w * h, cw, r, c);
            assert(0 <= r * cw) by (nonlinear_arith)
                requires
                    0 <= r,
                    0 <= cw,
            ;
            assert(dest@.take(two.len() as int)[k] == two[k]);
        }
    }
}

} // verus!
