//! Raster images as flat byte buffers, four bytes (red, green, blue, alpha)
//! per pixel, rows stored top to bottom.

use vstd::prelude::*;
use vstd::pervasive::VecAdditionalExecFns;

verus! {

/// A raster image. Pixel `(x, y)` occupies the four bytes starting at
/// offset `4 * (y * width + x)`.
#[derive(Clone)]
pub struct Image {
    pub width: usize,
    pub height: usize,
    pub pixels: Vec<u8>,
}

impl Image {
    /// An image is well formed when its buffer holds exactly four bytes per
    /// pixel.
    pub open spec fn wf(self) -> bool {
        self.pixels@.len() == 4 * self.width * self.height
    }

    /// The four bytes of pixel `(x, y)`.
    pub open spec fn pix(self, x: int, y: int) -> Seq<u8> {
        self.pixels@.subrange(
            4 * (y * self.width + x),
            4 * (y * self.width + x) + 4,
        )
    }
}

/// The byte offset of a pixel stays inside a well-formed buffer.
pub proof fn lemma_pix_offset_bounds(w: int, h: int, x: int, y: int)
    requires
        0 <= x < w,
        0 <= y < h,
    ensures
        0 <= 4 * (y * w + x),
        4 * (y * w + x) + 4 <= 4 * w * h,
{
    assert(0 <= 4 * (y * w + x) && 4 * (y * w + x) + 4 <= 4 * w * h) by (nonlinear_arith)
        requires
            0 <= x < w,
            0 <= y < h,
    ;
}

/// Distinct pixel coordinates with columns in range have distinct cell
/// numbers `y * w + x`.
pub proof fn lemma_pix_offset_injective(w: int, x1: int, y1: int, x2: int, y2: int)
    requires
        0 <= x1 < w,
        0 <= x2 < w,
        0 <= y1,
        0 <= y2,
        !(x1 == x2 && y1 == y2),
    ensures
        y1 * w + x1 != y2 * w + x2,
{
    assert(y1 * w + x1 != y2 * w + x2) by (nonlinear_arith)
        requires
            0 <= x1 < w,
            0 <= x2 < w,
            0 <= y1,
            0 <= y2,
            !(x1 == x2 && y1 == y2),
    ;
}

/// Byte `i` of a well-formed image is byte `i % 4` of the pixel at column
/// `(i / 4) % width` and row `(i / 4) / width`.
pub proof fn lemma_byte_index(img: Image, i: int)
    requires
        img.wf(),
        img.width > 0,
        0 <= i < img.pixels@.len(),
    ensures
        0 <= (i / 4) % (img.width as int) < img.width,
        0 <= (i / 4) / (img.width as int) < img.height,
        0 <= i % 4 < 4,
        img.pixels@[i] == img.pix(
            (i / 4) % (img.width as int),
            (i / 4) / (img.width as int),
        )[i % 4],
{
    let w = img.width as int;
    let h = img.height as int;
    let q = i / 4;
    let r = i % 4;
    vstd::arithmetic::div_mod::lemma_fundamental_div_mod(i, 4);
    vstd::arithmetic::div_mod::lemma_mod_bound(i, 4);
    assert(0 <= q);
    let x = q % w;
    let y = q / w;
    vstd::arithmetic::div_mod::lemma_fundamental_div_mod(q, w);
    vstd::arithmetic::div_mod::lemma_mod_bound(q, w);
    assert(0 <= y < h) by (nonlinear_arith)
        requires
            w > 0,
            h >= 0,
            q == w * y + x,
            0 <= x < w,
            0 <= q,
            i == 4 * q + r,
            0 <= r < 4,
            0 <= i < 4 * w * h,
    ;
    assert(y * w + x == q);
    lemma_pix_offset_bounds(w, h, x, y);
    assert(img.pix(x, y)[r] == img.pixels@[4 * (y * w + x) + r]);
}

/// Read the four bytes of pixel `(x, y)`.
pub fn get_pix(img: &Image, x: usize, y: usize) -> (p: (u8, u8, u8, u8))
    requires
        img.wf(),
        x < img.width,
        y < img.height,
    ensures
        img.pix(x as int, y as int) == seq![p.0, p.1, p.2, p.3],
{
    let n = img.pixels.len();
    proof {
        lemma_pix_offset_bounds(img.width as int, img.height as int, x as int, y as int);
    }
    let base: usize = 4 * (y * img.width + x);
    let p = (img.pixels[base], img.pixels[base + 1], img.pixels[base + 2], img.pixels[base + 3]);
    proof {
        assert(img.pix(x as int, y as int) =~= seq![p.0, p.1, p.2, p.3]);
    }
    p
}

/// Overwrite the four bytes of pixel `(x, y)`; every other pixel keeps its
/// value.
pub fn set_pix(img: &mut Image, x: usize, y: usize, p: (u8, u8, u8, u8))
    requires
        old(img).wf(),
        x < old(img).width,
        y < old(img).height,
    ensures
        final(img).wf(),
        final(img).width == old(img).width,
        final(img).height == old(img).height,
        final(img).pix(x as int, y as int) == seq![p.0, p.1, p.2, p.3],
        forall|i: int, j: int|
            0 <= i < old(img).width && 0 <= j < old(img).height && !(i == x && j == y)
                ==> final(img).pix(i, j) == old(img).pix(i, j),
{
    let n = img.pixels.len();
    proof {
        lemma_pix_offset_bounds(img.width as int, img.height as int, x as int, y as int);
    }
    let base: usize = 4 * (y * img.width + x);
    img.pixels.set(base, p.0);
    img.pixels.set(base + 1, p.1);
    img.pixels.set(base + 2, p.2);
    img.pixels.set(base + 3, p.3);
    proof {
        assert(img.pix(x as int, y as int) =~= seq![p.0, p.1, p.2, p.3]);
        assert forall|i: int, j: int|
            0 <= i < old(img).width && 0 <= j < old(img).height && !(i == x as int && j == y as int)
                implies img.pix(i, j) == old(img).pix(i, j) by {
            lemma_pix_offset_bounds(img.width as int, img.height as int, i, j);
            lemma_pix_offset_injective(img.width as int, i, j, x as int, y as int);
            assert(img.pix(i, j) =~= old(img).pix(i, j));
        }
    }
}

/// A fresh image with the same size and pixel contents as `src`.
pub fn clone_image(src: &Image) -> (r: Image)
    requires
        src.wf(),
    ensures
        r.wf(),
        r.width == src.width,
        r.height == src.height,
        r.pixels@ == src.pixels@,
{
    let mut pixels: Vec<u8> = Vec::new();
    let n = src.pixels.len();
    let mut i: usize = 0;
    while i < n
        invariant
            i <= n,
            n == src.pixels@.len(),
            pixels@ == src.pixels@.subrange(0, i as int),
        decreases n - i,
    {
        pixels.push(src.pixels[i]);
        proof {
            assert(pixels@ =~= src.pixels@.subrange(0, i + 1));
        }
        i += 1;
    }
    proof {
        assert(pixels@ =~= src.pixels@);
    }
    Image { width: src.width, height: src.height, pixels }
}

/// Copy `src` whole into `dst` with its top-left corner at `(ox, oy)`.
/// Pixels outside the copied rectangle keep their values.
#[verifier::loop_isolation(false)]
pub fn blit(dst: &mut Image, src: &Image, ox: usize, oy: usize)
    requires
        old(dst).wf(),
        src.wf(),
        ox + src.width <= old(dst).width,
        oy + src.height <= old(dst).height,
    ensures
        final(dst).wf(),
        final(dst).width == old(dst).width,
        final(dst).height == old(dst).height,
        forall|i: int, j: int|
            0 <= i < old(dst).width && 0 <= j < old(dst).height
                ==> final(dst).pix(i, j) == (if ox <= i < ox + src.width && oy <= j < oy
                + src.height {
                    src.pix(i - ox, j - oy)
                } else {
                    old(dst).pix(i, j)
                }),
{
    let mut ty: usize = 0;
    while ty < src.height
        invariant
            ty <= src.height,
            dst.wf(),
            dst.width == old(dst).width,
            dst.height == old(dst).height,
            forall|i: int, j: int|
                0 <= i < old(dst).width && 0 <= j < old(dst).height
                    ==> #[trigger] dst.pix(i, j) == (if ox <= i < ox + src.width && oy <= j < oy
                    + ty {
                        src.pix(i - ox, j - oy)
                    } else {
                        old(dst).pix(i, j)
                    }),
        decreases src.height - ty,
    {
        let mut tx: usize = 0;
        while tx < src.width
            invariant
                tx <= src.width,
                ty < src.height,
                dst.wf(),
                dst.width == old(dst).width,
                dst.height == old(dst).height,
                forall|i: int, j: int|
                    0 <= i < old(dst).width && 0 <= j < old(dst).height
                        ==> #[trigger] dst.pix(i, j) == (if ox <= i < ox + src.width && (oy <= j
                        < oy + ty || (j == oy + ty && ox <= i < ox + tx)) {
                            src.pix(i - ox, j - oy)
                        } else {
                            old(dst).pix(i, j)
                        }),
            decreases src.width - tx,
        {
            let p = get_pix(src, tx, ty);
            set_pix(dst, ox + tx, oy + ty, p);
            tx += 1;
        }
        ty += 1;
    }
}

} // verus!
