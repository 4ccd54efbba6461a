use vstd::prelude::*;

use crate::format::{ColorModel, PixelLayout};

verus! {

proof fn lemma_mul_succ(k: int, c: int)
    ensures
        (k + 1) * c == k * c + c,
{
    assert((k + 1) * c == k * c + c) by (nonlinear_arith);
}

proof fn lemma_mul_mono(k: int, n: int, c: int)
    requires
        0 <= k <= n,
        0 <= c,
    ensures
        0 <= k * c <= n * c,
{
    assert(0 <= k * c <= n * c) by (nonlinear_arith)
        requires
            0 <= k <= n,
            0 <= c,
    ;
}

/// Offset of the first byte of each row of a `width` by `height` buffer
/// with `bpp` bytes per pixel: one entry per row, row `i` at
/// `i * width * bpp`.
pub fn plan_rows(width: u32, height: u32, bpp: usize) -> (rows: Vec<usize>)
    requires
        width as int * height as int * bpp as int <= usize::MAX,
    ensures
        rows@.len() == height as int,
        forall|i: int| 0 <= i < height ==> #[trigger] rows@[i] == i * (width as int * bpp as int),
{
    let ghost stride_int = width as int * bpp as int;
    proof {
        if height > 0 {
            lemma_mul_mono(1, height as int, stride_int);
            assert(width as int * height as int * bpp as int == height as int * stride_int)
                by (nonlinear_arith)
                requires
                    stride_int == width as int * bpp as int,
            ;
        }
    }
    let stride: usize = if height > 0 {
        width as usize * bpp
    } else {
        0
    };
    let mut rows: Vec<usize> = Vec::new();
    let mut offset: usize = 0;
    let mut i: u32 = 0;
    while i < height
        invariant
            i <= height,
            width as int * height as int * bpp as int <= usize::MAX,
            height > 0 ==> stride == stride_int,
            height > 0 ==> width as int * height as int * bpp as int == height as int * stride_int,
            i < height ==> offset == i * stride_int,
            rows@.len() == i,
            forall|r: int| 0 <= r < i ==> #[trigger] rows@[r] == r * stride_int,
        decreases height - i,
    {
        rows.push(offset);
        proof {
            lemma_mul_succ(i as int, stride_int);
            lemma_mul_mono(i as int + 1, height as int, stride_int);
        }
        if i + 1 < height {
            offset = offset + stride;
        }
        i = i + 1;
    }
    proof {
        assert forall|r: int| 0 <= r < height implies #[trigger] rows@[r] == r * (width as int
            * bpp as int) by {}
    }
    rows
}

/// Whether rows of model `from` can be laid out as `to`: the same model, or
/// any model but a palette widened to RGBA.
pub open spec fn widens(from: ColorModel, to: PixelLayout) -> bool {
    if to == PixelLayout::RGBA8 {
        from != ColorModel::Palette
    } else {
        from == to.model_spec()
    }
}

/// Sample `j` of pixel `k` once rows of model `from` are laid out as `to`:
/// a gray sample fills red, green and blue, and an alpha that the source
/// lacks is opaque.
pub open spec fn canonical_sample(
    from: ColorModel,
    to: PixelLayout,
    raw: Seq<u8>,
    k: int,
    j: int,
) -> u8 {
    let c = from.channels_spec() as int;
    if to == PixelLayout::RGBA8 && j == 3 && !from.has_alpha() {
        255
    } else if to == PixelLayout::RGBA8 && (from == ColorModel::Gray || from
        == ColorModel::GrayAlpha) {
        if j < 3 {
            raw[k * c]
        } else {
            raw[k * c + 1]
        }
    } else {
        raw[k * c + j]
    }
}

proof fn lemma_direct_sample_in_pixel(from: ColorModel, to: PixelLayout, j: int)
    requires
        widens(from, to),
        0 <= j < to.bpp_spec(),
        !(to == PixelLayout::RGBA8 && j == 3 && !from.has_alpha()),
        !(to == PixelLayout::RGBA8 && (from == ColorModel::Gray || from == ColorModel::GrayAlpha)),
    ensures
        j < from.channels_spec(),
{
}

/// Lays `count` pixels of model `from` out as `to`.
pub fn widen_pixels(raw: &Vec<u8>, from: ColorModel, to: PixelLayout, count: usize) -> (out: Vec<
    u8,
>)
    requires
        widens(from, to),
        raw@.len() == count * from.channels_spec(),
        count * to.bpp_spec() <= usize::MAX,
    ensures
        out@.len() == count * to.bpp_spec(),
        forall|k: int, j: int|
            0 <= k < count && 0 <= j < to.bpp_spec() ==> out@[k * to.bpp_spec() + j]
                == #[trigger] canonical_sample(from, to, raw@, k, j),
{
    let n = raw.len();
    let c = from.channels();
    let b = to.bytes_per_pixel();
    let ghost ci = c as int;
    let ghost bi = b as int;
    let rgba = match to {
        PixelLayout::RGBA8 => true,
        _ => false,
    };
    let gray = match from {
        ColorModel::Gray => true,
        ColorModel::GrayAlpha => true,
        _ => false,
    };
    let opaque = match from {
        ColorModel::GrayAlpha => false,
        ColorModel::Rgba => false,
        _ => true,
    };
    let mut out: Vec<u8> = Vec::new();
    let mut k: usize = 0;
    let mut base: usize = 0;
    while k < count
        invariant
            widens(from, to),
            raw@.len() == count * ci,
            n == raw@.len(),
            c == from.channels_spec(),
            b == to.bpp_spec(),
            ci == c as int,
            bi == b as int,
            rgba == (to == PixelLayout::RGBA8),
            gray == (from == ColorModel::Gray || from == ColorModel::GrayAlpha),
            opaque == !from.has_alpha(),
            k <= count,
            base == k * ci,
            out@.len() == k * bi,
            forall|k2: int, j2: int|
                0 <= k2 < k && 0 <= j2 < bi ==> out@[k2 * bi + j2]
                    == #[trigger] canonical_sample(from, to, raw@, k2, j2),
        decreases count - k,
    {
        proof {
            lemma_mul_succ(k as int, ci);
            lemma_mul_mono(k as int + 1, count as int, ci);
            lemma_mul_succ(k as int, bi);
            lemma_mul_mono(k as int + 1, count as int, bi);
        }
        let ghost start = out@.len();
        let mut j: usize = 0;
        while j < b
            invariant
                widens(from, to),
                raw@.len() == count * ci,
                n == raw@.len(),
                c == from.channels_spec(),
                b == to.bpp_spec(),
                ci == c as int,
                bi == b as int,
                rgba == (to == PixelLayout::RGBA8),
                gray == (from == ColorModel::Gray || from == ColorModel::GrayAlpha),
                opaque == !from.has_alpha(),
                k < count,
                base == k * ci,
                base + ci <= raw@.len(),
                start == k * bi,
                (k + 1) * bi <= count * bi,
                (k + 1) * bi == k * bi + bi,
                j <= b,
                out@.len() == start + j,
                forall|k2: int, j2: int|
                    0 <= k2 < k && 0 <= j2 < bi ==> out@[k2 * bi + j2]
                        == #[trigger] canonical_sample(from, to, raw@, k2, j2),
                forall|j2: int|
                    0 <= j2 < j ==> out@[start + j2] == #[trigger] canonical_sample(
                        from,
                        to,
                        raw@,
                        k as int,
                        j2,
                    ),
            decreases b - j,
        {
            let v: u8 = if rgba && j == 3 && opaque {
                255
            } else if rgba && gray {
                if j < 3 {
                    raw[base]
                } else {
                    raw[base + 1]
                }
            } else {
                proof {
                    lemma_direct_sample_in_pixel(from, to, j as int);
                }
                raw[base + j]
            };
            assert(v == canonical_sample(from, to, raw@, k as int, j as int));
            out.push(v);
            j = j + 1;
        }
        proof {
            assert forall|k2: int, j2: int|
                0 <= k2 < k + 1 && 0 <= j2 < bi implies out@[k2 * bi + j2]
                == #[trigger] canonical_sample(from, to, raw@, k2, j2) by {
                if k2 == k {
                    assert(out@[start + j2] == canonical_sample(from, to, raw@, k as int, j2));
                }
            }
        }
        k = k + 1;
        base = base + c;
    }
    out
}

} // verus!
