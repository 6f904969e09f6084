use vstd::prelude::*;

verus! {

/// One 4-channel pixel: red, green, blue, alpha, 8 bits each.
#[derive(Clone, Copy, Debug, PartialEq, Eq, Structural)]
pub struct Pixel {
    pub r: u8,
    pub g: u8,
    pub b: u8,
    pub a: u8,
}

impl Pixel {
    /// Fully transparent black, the value written outside the circle.
    pub open spec fn transparent() -> Pixel {
        Pixel { r: 0, g: 0, b: 0, a: 0 }
    }

    pub fn transparent_exec() -> (p: Pixel)
        ensures
            p == Pixel::transparent(),
    {
        Pixel { r: 0, g: 0, b: 0, a: 0 }
    }
}

/// The pixel read from the 4-byte group at position `i` of a raw RGBA
/// byte sequence.
pub open spec fn pixel_at_raw(raw: Seq<u8>, i: int) -> Pixel {
    Pixel { r: raw[4 * i], g: raw[4 * i + 1], b: raw[4 * i + 2], a: raw[4 * i + 3] }
}

/// The pixels encoded by a raw RGBA byte sequence, 4 bytes per pixel.
pub open spec fn pixels_of_raw(raw: Seq<u8>) -> Seq<Pixel> {
    Seq::new((raw.len() / 4) as nat, |i: int| pixel_at_raw(raw, i))
}

/// The raw RGBA byte sequence of a pixel sequence: each pixel contributes
/// its red, green, blue and alpha bytes in that order.
pub open spec fn raw_of_pixels(pixels: Seq<Pixel>) -> Seq<u8>
    decreases pixels.len(),
{
    if pixels.len() == 0 {
        Seq::empty()
    } else {
        raw_of_pixels(pixels.drop_last()) + seq![
            pixels.last().r,
            pixels.last().g,
            pixels.last().b,
            pixels.last().a,
        ]
    }
}

pub proof fn lemma_raw_of_pixels_len(pixels: Seq<Pixel>)
    ensures
        raw_of_pixels(pixels).len() == 4 * pixels.len(),
    decreases pixels.len(),
{
    if pixels.len() > 0 {
        lemma_raw_of_pixels_len(pixels.drop_last());
    }
}

/// The mathematical model of an image: its dimensions and its pixels in
/// row-major order.
#[verifier::ext_equal]
pub ghost struct ImageView {
    pub width: u32,
    pub height: u32,
    pub pixels: Seq<Pixel>,
}

/// A width x height grid of RGBA pixels, stored row-major.
#[derive(Debug, PartialEq, Eq)]
pub struct Image {
    width: u32,
    height: u32,
    pixels: Vec<Pixel>,
}

impl View for Image {
    type V = ImageView;

    closed spec fn view(&self) -> ImageView {
        ImageView { width: self.width, height: self.height, pixels: self.pixels@ }
    }
}

impl Image {
    /// Well-formedness: both dimensions are positive and the pixel store
    /// holds exactly width * height entries.
    pub open spec fn wf(self) -> bool {
        &&& self@.width >= 1
        &&& self@.height >= 1
        &&& self@.pixels.len() == self@.width * self@.height
    }

    /// Builds an image from its parts; returns `None` exactly when the
    /// parts do not satisfy the image invariant.
    pub fn new(width: u32, height: u32, pixels: Vec<Pixel>) -> (r: Option<Image>)
        ensures
            r is Some <==> width >= 1 && height >= 1 && pixels@.len() == width * height,
            r matches Some(img) ==> img.wf() && img@ == (ImageView {
                width,
                height,
                pixels: pixels@,
            }),
    {
        proof {
            assert(width * height <= 0xffff_ffffu64 * 0xffff_ffffu64) by (nonlinear_arith)
                requires
                    width <= 0xffff_ffffu64,
                    height <= 0xffff_ffffu64,
            ;
        }
        if width >= 1 && height >= 1 && pixels.len() as u64 == (width as u64) * (height as u64) {
            Some(Image { width, height, pixels })
        } else {
            None
        }
    }

    pub fn width(&self) -> (w: u32)
        ensures
            w == self@.width,
    {
        self.width
    }

    pub fn height(&self) -> (h: u32)
        ensures
            h == self@.height,
    {
        self.height
    }

    /// The pixel at column `x` of row `y`.
    pub fn pixel(&self, x: u32, y: u32) -> (p: Pixel)
        requires
            self.wf(),
            x < self@.width,
            y < self@.height,
        ensures
            p == self@.pixels[y * self@.width + x],
    {
        let n: usize = self.pixels.len();
        proof {
            let wi = self@.width as int;
            let hi = self@.height as int;
            assert(y * wi + x < wi * hi && y * wi + x < hi * wi) by (nonlinear_arith)
                requires
                    0 <= x < wi,
                    0 <= y < hi,
            ;
            assert(y * wi + x < n);
        }
        self.pixels[(y as usize) * (self.width as usize) + (x as usize)]
    }

    /// The image's pixels flattened to raw RGBA bytes, the payload handed
    /// to the clipboard and to the encoder.
    pub fn to_rgba_bytes(&self) -> (r: Vec<u8>)
        ensures
            r@ == raw_of_pixels(self@.pixels),
    {
        let mut out: Vec<u8> = Vec::new();
        let mut i: usize = 0;
        let n: usize = self.pixels.len();
        while i < n
            invariant
                n == self@.pixels.len(),
                i <= n,
                out@ == raw_of_pixels(self@.pixels.take(i as int)),
            decreases n - i,
        {
            let p = self.pixels[i];
            out.push(p.r);
            out.push(p.g);
            out.push(p.b);
            out.push(p.a);
            proof {
                let s = self@.pixels.take(i + 1);
                assert(s.drop_last() =~= self@.pixels.take(i as int));
                assert(out@ =~= raw_of_pixels(s));
            }
            i += 1;
        }
        proof {
            assert(self@.pixels.take(n as int) =~= self@.pixels);
        }
        out
    }
}

/// Groups a raw RGBA byte sequence back into pixels, 4 bytes per pixel;
/// trailing bytes that do not fill a whole pixel are ignored.
pub fn pixels_from_raw(raw: &Vec<u8>) -> (r: Vec<Pixel>)
    ensures
        r@ == pixels_of_raw(raw@),
{
    let len: usize = raw.len();
    let n: usize = len / 4;
    let mut out: Vec<Pixel> = Vec::new();
    let mut i: usize = 0;
    while i < n
        invariant
            len == raw@.len(),
            n == raw@.len() / 4,
            i <= n,
            out@.len() == i,
            forall|j: int| 0 <= j < i ==> out@[j] == pixel_at_raw(raw@, j),
        decreases n - i,
    {
        proof {
            assert(4 * (raw@.len() / 4) <= raw@.len()) by (nonlinear_arith);
            assert(4 * i + 3 < raw@.len());
        }
        let p = Pixel { r: raw[4 * i], g: raw[4 * i + 1], b: raw[4 * i + 2], a: raw[4 * i + 3] };
        out.push(p);
        i += 1;
    }
    proof {
        assert(out@ =~= pixels_of_raw(raw@));
    }
    out
}

} // verus!
