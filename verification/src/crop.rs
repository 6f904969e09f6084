use vstd::prelude::*;

use crate::img::{Image, ImageView, Pixel};

verus! {

/// The side of the centered square that the crop cuts out: the smaller of
/// the two dimensions.
pub open spec fn crop_size(v: ImageView) -> int {
    if v.width <= v.height {
        v.width as int
    } else {
        v.height as int
    }
}

/// Horizontal offset of the centered square, truncating division.
pub open spec fn crop_x_off(v: ImageView) -> int {
    (v.width as int - crop_size(v)) / 2
}

/// Vertical offset of the centered square, truncating division.
pub open spec fn crop_y_off(v: ImageView) -> int {
    (v.height as int - crop_size(v)) / 2
}

/// Whether pixel (x, y) of a size x size square lies inside the inscribed
/// circle of radius size/2 centered at (size/2, size/2). This is the exact
/// condition distance(x, y, center) <= radius with both sides scaled by 2
/// and squared, so it stays in the integers; pixels exactly on the
/// boundary are included.
pub open spec fn in_circle(x: int, y: int, size: int) -> bool {
    (2 * x - size) * (2 * x - size) + (2 * y - size) * (2 * y - size) <= size * size
}

/// The pixel the crop writes at (x, y) of the output: the input pixel at
/// the corresponding coordinate of the centered square when (x, y) lies
/// inside the circle, fully transparent black otherwise.
pub open spec fn cropped_pixel(v: ImageView, x: int, y: int) -> Pixel {
    if in_circle(x, y, crop_size(v)) {
        v.pixels[(y + crop_y_off(v)) * v.width + (x + crop_x_off(v))]
    } else {
        Pixel::transparent()
    }
}

/// The whole crop contract: `out` is the circular crop of `inp`. Both
/// output dimensions equal the smaller input dimension, and every output
/// pixel is fixed by `cropped_pixel`.
pub open spec fn is_circular_crop(inp: ImageView, out: ImageView) -> bool {
    &&& out.width == crop_size(inp)
    &&& out.height == crop_size(inp)
    &&& out.pixels.len() == crop_size(inp) * crop_size(inp)
    &&& forall|x: int, y: int|
        0 <= x < out.width && 0 <= y < out.height ==> out.pixels[y * out.width + x]
            == cropped_pixel(inp, x, y)
}

/// The circular crop as a function of the image model: the value that
/// `is_circular_crop` relates each input to.
pub open spec fn crop_view(v: ImageView) -> ImageView {
    ImageView {
        width: crop_size(v) as u32,
        height: crop_size(v) as u32,
        pixels: Seq::new(
            (crop_size(v) * crop_size(v)) as nat,
            |i: int| cropped_pixel(v, i % crop_size(v), i / crop_size(v)),
        ),
    }
}

/// The crop relation is the graph of `crop_view`: any output it relates an
/// input to is `crop_view` of that input.
pub proof fn lemma_circular_crop_is_crop_view(inp: ImageView, out: ImageView)
    requires
        is_circular_crop(inp, out),
    ensures
        out == crop_view(inp),
{
    let size = crop_size(inp);
    if size == 0 {
        assert(size * size == 0) by (nonlinear_arith)
            requires
                size == 0,
        ;
        assert(out.pixels =~= crop_view(inp).pixels);
    } else {
        assert forall|i: int| 0 <= i < out.pixels.len() implies out.pixels[i] == crop_view(
            inp,
        ).pixels[i] by {
            let x = i % size;
            let y = i / size;
            vstd::arithmetic::div_mod::lemma_fundamental_div_mod(i, size);
            vstd::arithmetic::div_mod::lemma_mod_bound(i, size);
            assert(0 <= y < size) by (nonlinear_arith)
                requires
                    i == size * y + x,
                    0 <= x < size,
                    0 <= i < size * size,
            ;
            assert(out.pixels[y * size + x] == cropped_pixel(inp, x, y));
        }
        assert(out.pixels =~= crop_view(inp).pixels);
    }
    assert(out =~= crop_view(inp));
}

/// Determinism law: the circular-crop relation pins its output down
/// completely, so identical inputs yield identical outputs, dimension for
/// dimension and pixel for pixel.
pub proof fn lemma_crop_deterministic(inp: ImageView, a: ImageView, b: ImageView)
    requires
        is_circular_crop(inp, a),
        is_circular_crop(inp, b),
    ensures
        a == b,
{
    lemma_circular_crop_is_crop_view(inp, a);
    lemma_circular_crop_is_crop_view(inp, b);
}

/// On an already-square image the crop shrinks nothing before masking: the
/// square side is the full width, both offsets are zero, and every output
/// pixel inside the circle is the input pixel at the very same coordinate.
pub proof fn lemma_square_crop_identity(inp: ImageView, out: ImageView)
    requires
        inp.width == inp.height,
        is_circular_crop(inp, out),
    ensures
        crop_size(inp) == inp.width,
        crop_x_off(inp) == 0,
        crop_y_off(inp) == 0,
        forall|x: int, y: int|
            0 <= x < out.width && 0 <= y < out.height && in_circle(x, y, crop_size(inp))
                ==> out.pixels[y * out.width + x] == inp.pixels[y * inp.width + x],
{
    assert forall|x: int, y: int|
        0 <= x < out.width && 0 <= y < out.height && in_circle(x, y, crop_size(inp)) implies
        out.pixels[y * out.width + x] == inp.pixels[y * inp.width + x] by {
        assert(out.pixels[y * out.width + x] == cropped_pixel(inp, x, y));
    }
}

/// Decides `in_circle` for machine integers, without overflow.
fn pixel_in_circle(x: u32, y: u32, size: u32) -> (r: bool)
    ensures
        r == in_circle(x as int, y as int, size as int),
{
    let tx: u64 = 2 * (x as u64);
    let ty: u64 = 2 * (y as u64);
    let s: u64 = size as u64;
    let dx: u64 = if tx >= s {
        tx - s
    } else {
        s - tx
    };
    let dy: u64 = if ty >= s {
        ty - s
    } else {
        s - ty
    };
    proof {
        let xi = x as int;
        let yi = y as int;
        let si = size as int;
        assert(dx * dx == (2 * xi - si) * (2 * xi - si)) by (nonlinear_arith)
            requires
                dx == 2 * xi - si || dx == si - 2 * xi,
        ;
        assert(dy * dy == (2 * yi - si) * (2 * yi - si)) by (nonlinear_arith)
            requires
                dy == 2 * yi - si || dy == si - 2 * yi,
        ;
        assert(dx * dx <= 0x2_0000_0000 * 0x2_0000_0000 && dy * dy <= 0x2_0000_0000
            * 0x2_0000_0000 && s * s <= 0x2_0000_0000 * 0x2_0000_0000) by (nonlinear_arith)
            requires
                0 <= dx <= 0x2_0000_0000,
                0 <= dy <= 0x2_0000_0000,
                0 <= s <= 0x2_0000_0000,
        ;
    }
    let lhs: u128 = (dx as u128) * (dx as u128) + (dy as u128) * (dy as u128);
    let rhs: u128 = (s as u128) * (s as u128);
    lhs <= rhs
}

/// Masks the centered square of the image into a circle: pixels inside the
/// inscribed circle keep the source color, pixels outside become fully
/// transparent black. Total, and the output is pinned pixel by pixel by
/// `is_circular_crop`.
pub fn apply_circular_crop(img: &Image) -> (out: Image)
    requires
        img.wf(),
    ensures
        out.wf(),
        is_circular_crop(img@, out@),
        out@ == crop_view(img@),
{
    let w = img.width();
    let h = img.height();
    let size = if w < h {
        w
    } else {
        h
    };
    let x_off = (w - size) / 2;
    let y_off = (h - size) / 2;
    let mut pixels: Vec<Pixel> = Vec::new();
    let mut y: u32 = 0;
    while y < size
        invariant
            img.wf(),
            size == crop_size(img@),
            x_off == crop_x_off(img@),
            y_off == crop_y_off(img@),
            size <= img@.width && size <= img@.height,
            x_off + size <= img@.width && y_off + size <= img@.height,
            y <= size,
            pixels@.len() == y * size,
            forall|yy: int, xx: int|
                0 <= yy < y && 0 <= xx < size ==> pixels@[yy * size + xx] == cropped_pixel(
                    img@,
                    xx,
                    yy,
                ),
        decreases size - y,
    {
        let mut x: u32 = 0;
        while x < size
            invariant
                img.wf(),
                size == crop_size(img@),
                x_off == crop_x_off(img@),
                y_off == crop_y_off(img@),
                size <= img@.width && size <= img@.height,
                x_off + size <= img@.width && y_off + size <= img@.height,
                y < size,
                x <= size,
                pixels@.len() == y * size + x,
                forall|yy: int, xx: int|
                    0 <= yy < y && 0 <= xx < size ==> pixels@[yy * size + xx] == cropped_pixel(
                        img@,
                        xx,
                        yy,
                    ),
                forall|xx: int|
                    0 <= xx < x ==> pixels@[y * size + xx] == cropped_pixel(img@, xx, y as int),
            decreases size - x,
        {
            let p = if pixel_in_circle(x, y, size) {
                img.pixel(x + x_off, y + y_off)
            } else {
                Pixel::transparent_exec()
            };
            pixels.push(p);
            proof {
                assert(p == cropped_pixel(img@, x as int, y as int));
                assert forall|yy: int, xx: int| 0 <= yy < y && 0 <= xx < size implies pixels@[yy
                    * size + xx] == cropped_pixel(img@, xx, yy) by {
                    assert(yy * size + xx < y * size + x) by (nonlinear_arith)
                        requires
                            0 <= yy < y,
                            0 <= xx < size,
                            0 <= x,
                    ;
                }
            }
            x += 1;
        }
        y += 1;
        proof {
            assert((y - 1) * size + size == y * size) by (nonlinear_arith);
            assert forall|yy: int, xx: int| 0 <= yy < y && 0 <= xx < size implies pixels@[yy * size
                + xx] == cropped_pixel(img@, xx, yy) by {
                if yy < y - 1 {
                    assert(pixels@[yy * size + xx] == cropped_pixel(img@, xx, yy));
                } else {
                    assert(pixels@[(y - 1) * size + xx] == cropped_pixel(img@, xx, y - 1));
                }
            }
        }
    }
    proof {
        assert(size * size == crop_size(img@) * crop_size(img@));
    }
    let out_opt = Image::new(size, size, pixels);
    match out_opt {
        Some(out) => {
            proof {
                assert forall|x: int, y: int| 0 <= x < out@.width && 0 <= y < out@.height implies
                    out@.pixels[y * out@.width + x] == cropped_pixel(img@, x, y) by {
                    assert(out@.pixels[y * size + x] == cropped_pixel(img@, x, y));
                }
                lemma_circular_crop_is_crop_view(img@, out@);
            }
            out
        },
        None => vstd::pervasive::unreached(),
    }
}

} // verus!
