use vstd::prelude::*;

use crate::engine::{
    encoded_header, engine_encode, engine_info, engine_rows, png_encoded, png_header,
    png_output_format, png_rows,
};
use crate::format::{CodecError, ColorModel, ColorReport, ColorType, Image, Phase, PixelLayout};
use crate::negotiate::{
    canonical_format, canonical_layout, encode_settings, engine_transforms,
    engine_transforms_spec, negotiate, negotiated, post_transform_report, post_transform_spec,
    unsupported, Directives, COMPRESSION_DEFAULT, FILTER_NONE,
};
use crate::pixels::{canonical_sample, widen_pixels, widens};
use crate::stream::{has_png_signature, is_png, png_signature, ImageData, SinkBuffer};

verus! {

pub open spec fn read_failure() -> CodecError {
    CodecError::EngineSignaledFailure { phase: Phase::Read }
}

pub open spec fn write_failure() -> CodecError {
    CodecError::EngineSignaledFailure { phase: Phase::Write }
}

/// How the rows that the engine produces become the pixels of an image.
#[derive(Clone, Copy, Debug, PartialEq, Eq, Structural)]
pub struct FramePlan {
    /// Layout of the image handed back.
    pub layout: PixelLayout,
    /// Colour model of the engine's rows, eight bits per sample.
    pub engine_model: ColorModel,
    /// Width times height.
    pub pixel_count: usize,
    /// Bytes the engine writes.
    pub engine_len: usize,
}

/// The image's bytes fit in memory.
pub open spec fn frame_fits(width: u32, height: u32, l: PixelLayout) -> bool {
    width as int * height as int * l.bpp_spec() <= usize::MAX
}

pub open spec fn frame_plan_spec(
    width: u32,
    height: u32,
    d: Directives,
    engine_out: ColorReport,
) -> Result<FramePlan, CodecError> {
    let post = post_transform_spec(engine_out, d);
    match canonical_layout(post) {
        None => Err(unsupported(post)),
        Some(l) => if !widens(engine_out.model, l) {
            Err(unsupported(post))
        } else if !frame_fits(width, height, l) {
            Err(read_failure())
        } else {
            Ok(
                FramePlan {
                    layout: l,
                    engine_model: engine_out.model,
                    pixel_count: (width as int * height as int) as usize,
                    engine_len: (width as int * height as int
                        * engine_out.model.channels_spec()) as usize,
                },
            )
        },
    }
}

proof fn lemma_widen_grows(from: ColorModel, to: PixelLayout)
    requires
        widens(from, to),
    ensures
        1 <= from.channels_spec() <= to.bpp_spec(),
{
}

/// Decides, from what the engine reports of its rows, the layout of the
/// image and the size of the buffer the engine fills: the post-transform
/// report goes through the decision table; rows that cannot be widened to
/// the layout (palette indices) are `UnsupportedFormat` too, and an image
/// too large for memory is a read failure.
pub fn plan_frame(width: u32, height: u32, d: Directives, engine_out: ColorReport) -> (r: Result<
    FramePlan,
    CodecError,
>)
    ensures
        r == frame_plan_spec(width, height, d, engine_out),
        r matches Ok(p) ==> {
            &&& widens(p.engine_model, p.layout)
            &&& frame_fits(width, height, p.layout)
            &&& p.pixel_count == width as int * height as int
            &&& p.engine_len == p.pixel_count * p.engine_model.channels_spec()
        },
{
    let post = post_transform_report(engine_out, d);
    let (layout, bpp) = match canonical_format(post) {
        Ok(found) => found,
        Err(e) => {
            return Err(e);
        },
    };
    let m = engine_out.model;
    let fits = match layout {
        PixelLayout::RGBA8 => match m {
            ColorModel::Palette => false,
            _ => true,
        },
        _ => layout.model() == m,
    };
    if !fits {
        return Err(
            CodecError::UnsupportedFormat { color_type: post.model.code(), bit_depth: post.bit_depth },
        );
    }
    let c = m.channels();
    let w = width as u128;
    let h = height as u128;
    proof {
        lemma_widen_grows(m, layout);
        assert(w * h <= 0xffff_ffffu128 * 0xffff_ffffu128) by (nonlinear_arith)
            requires
                w <= 0xffff_ffffu128,
                h <= 0xffff_ffffu128,
        ;
        assert(w * h * (bpp as u128) <= 0xffff_ffffu128 * 0xffff_ffffu128 * 4) by (nonlinear_arith)
            requires
                w * h <= 0xffff_ffffu128 * 0xffff_ffffu128,
                bpp <= 4,
        ;
    }
    let total: u128 = w * h * (bpp as u128);
    if total > usize::MAX as u128 {
        return Err(CodecError::EngineSignaledFailure { phase: Phase::Read });
    }
    proof {
        assert(w * h <= w * h * (bpp as u128) && w * h * (c as u128) <= w * h * (bpp as u128))
            by (nonlinear_arith)
            requires
                1 <= c <= bpp,
        ;
    }
    let count = (width as usize) * (height as usize);
    Ok(FramePlan { layout, engine_model: m, pixel_count: count, engine_len: count * c })
}

/// A gray image is handed out as RGBA: whatever gray rows of eight bits the
/// engine produces for a gray header are planned as RGBA8, each sample
/// copied to red, green and blue, and alpha kept or, lacking, opaque.
pub proof fn gray_rows_become_rgba(
    pre: ColorReport,
    has_trns: bool,
    engine_out: ColorReport,
    width: u32,
    height: u32,
    raw: Seq<u8>,
    k: int,
)
    requires
        pre.model == ColorModel::Gray || pre.model == ColorModel::GrayAlpha,
        engine_out.model == ColorModel::Gray || engine_out.model == ColorModel::GrayAlpha,
        engine_out.bit_depth == 8,
        frame_fits(width, height, PixelLayout::RGBA8),
    ensures
        frame_plan_spec(width, height, negotiated(pre, has_trns), engine_out) matches Ok(p) && p.layout
            == PixelLayout::RGBA8,
        ({
            let c = engine_out.model.channels_spec() as int;
            &&& canonical_sample(engine_out.model, PixelLayout::RGBA8, raw, k, 0) == raw[k * c]
            &&& canonical_sample(engine_out.model, PixelLayout::RGBA8, raw, k, 1) == raw[k * c]
            &&& canonical_sample(engine_out.model, PixelLayout::RGBA8, raw, k, 2) == raw[k * c]
            &&& canonical_sample(engine_out.model, PixelLayout::RGBA8, raw, k, 3) == if engine_out.model
                == ColorModel::Gray {
                255u8
            } else {
                raw[k * c + 1]
            }
        }),
{
}

/// `img` holds the rows `raw` of a `width` by `height` frame laid out as
/// `plan` says.
pub open spec fn frame_image(
    img: Image,
    width: u32,
    height: u32,
    plan: FramePlan,
    raw: Seq<u8>,
) -> bool {
    &&& img.width == width
    &&& img.height == height
    &&& img.pixels.layout() == plan.layout
    &&& img.pixels.bytes().len() == plan.pixel_count * plan.layout.bpp_spec()
    &&& forall|k: int, j: int|
        0 <= k < plan.pixel_count && 0 <= j < plan.layout.bpp_spec() ==> img.pixels.bytes()[k
            * plan.layout.bpp_spec() + j] == #[trigger] canonical_sample(
            plan.engine_model,
            plan.layout,
            raw,
            k,
            j,
        )
}

/// Builds the image from the engine's rows `raw`, widening each pixel to
/// the planned layout.
pub fn assemble_image(width: u32, height: u32, plan: FramePlan, raw: Vec<u8>) -> (img: Image)
    requires
        widens(plan.engine_model, plan.layout),
        frame_fits(width, height, plan.layout),
        plan.pixel_count == width as int * height as int,
        raw@.len() == plan.pixel_count * plan.engine_model.channels_spec(),
    ensures
        frame_image(img, width, height, plan, raw@),
        img.wf(),
{
    proof {
        assert(plan.pixel_count * plan.layout.bpp_spec() == width as int * height as int
            * plan.layout.bpp_spec()) by (nonlinear_arith)
            requires
                plan.pixel_count == width as int * height as int,
        ;
    }
    let bytes = widen_pixels(&raw, plan.engine_model, plan.layout, plan.pixel_count);
    Image { width, height, pixels: plan.layout.wrap(bytes) }
}

pub open spec fn report_of_codes_spec(color_code: u8, bit_depth: u8) -> Result<
    ColorReport,
    CodecError,
> {
    match ColorModel::from_code_spec(color_code) {
        Some(model) => Ok(ColorReport { model, bit_depth }),
        None => Err(CodecError::UnsupportedFormat { color_type: color_code, bit_depth }),
    }
}

/// The report named by the wire codes of a colour type and a bit depth, or
/// `UnsupportedFormat` for a code that names no colour model.
pub fn report_of_codes(color_code: u8, bit_depth: u8) -> (r: Result<ColorReport, CodecError>)
    ensures
        r == report_of_codes_spec(color_code, bit_depth),
{
    match ColorModel::from_code(color_code) {
        Some(model) => Ok(ColorReport { model, bit_depth }),
        None => Err(CodecError::UnsupportedFormat { color_type: color_code, bit_depth }),
    }
}

pub open spec fn header_directives_spec(color_code: u8, bit_depth: u8, has_trns: bool) -> Result<
    Directives,
    CodecError,
> {
    match report_of_codes_spec(color_code, bit_depth) {
        Ok(pre) => if ColorType::is_legal(pre) {
            Ok(negotiated(pre, has_trns))
        } else {
            Err(CodecError::UnsupportedFormat { color_type: color_code, bit_depth })
        },
        Err(e) => Err(e),
    }
}

/// The transforms for an image whose header gives these wire codes and
/// transparency flag; a pair that is no legal colour type is
/// `UnsupportedFormat`.
pub fn header_directives(color_code: u8, bit_depth: u8, has_trns: bool) -> (r: Result<
    Directives,
    CodecError,
>)
    ensures
        r == header_directives_spec(color_code, bit_depth, has_trns),
{
    let pre = match report_of_codes(color_code, bit_depth) {
        Ok(pre) => pre,
        Err(e) => {
            return Err(e);
        },
    };
    if ColorType::from_report(pre).is_none() {
        return Err(CodecError::UnsupportedFormat { color_type: color_code, bit_depth });
    }
    Ok(negotiate(pre, has_trns))
}

/// Transform set under which the header is first read: none.
pub const ENGINE_IDENTITY: u32 = 0;

/// What decoding `bytes` comes to: the size, the plan and the engine's rows
/// of the image, or the error. Input without the signature is refused; the
/// engine reads the header without transforms, the negotiated transforms
/// follow from it, and the engine reads the image again under them; a
/// second reading that disagrees with the first is a read failure.
pub open spec fn decode_spec(bytes: Seq<u8>) -> Result<(u32, u32, FramePlan, Seq<u8>), CodecError> {
    if !has_png_signature(bytes) {
        Err(read_failure())
    } else {
        match png_header(bytes, ENGINE_IDENTITY) {
            None => Err(read_failure()),
            Some(h) => match header_directives_spec(h.2, h.3, h.4) {
                Err(e) => Err(e),
                Ok(d) => {
                    let bits = engine_transforms_spec(d);
                    match png_header(bytes, bits) {
                        None => Err(read_failure()),
                        Some(h2) => if h2 != h {
                            Err(read_failure())
                        } else {
                            match report_of_codes_spec(
                            png_output_format(h2.2, h2.3, h2.4, bits).0,
                            png_output_format(h2.2, h2.3, h2.4, bits).1,
                        ) {
                            Err(e) => Err(e),
                            Ok(eo) => match frame_plan_spec(h2.0, h2.1, d, eo) {
                                Err(e) => Err(e),
                                Ok(p) => match png_rows(bytes, bits, p.engine_len as nat) {
                                    None => Err(read_failure()),
                                    Some(raw) => Ok((h2.0, h2.1, p, raw)),
                                },
                            },
                        }
                        },
                    }
                },
            },
        }
    }
}

proof fn lemma_legal_format_widens_to_rgba(c: u8, depth: u8, trns: bool)
    requires
        header_directives_spec(c, depth, trns) is Ok,
    ensures
        ({
            let d = header_directives_spec(c, depth, trns)->Ok_0;
            let out = png_output_format(c, depth, trns, engine_transforms_spec(d));
            &&& report_of_codes_spec(out.0, out.1) matches Ok(eo) && {
                &&& canonical_layout(post_transform_spec(eo, d)) == Some(PixelLayout::RGBA8)
                &&& widens(eo.model, PixelLayout::RGBA8)
            }
        }),
{
    let pre = report_of_codes_spec(c, depth)->Ok_0;
    let ct = choose|ct: ColorType| ct.report_spec() == pre;
    assert(ct.report_spec() == pre);
    match ct {
        ColorType::K1 => {},
        ColorType::K2 => {},
        ColorType::K4 => {},
        ColorType::K8 => {},
        ColorType::K16 => {},
        ColorType::KA8 => {},
        ColorType::KA16 => {},
        ColorType::Pal1 => {},
        ColorType::Pal2 => {},
        ColorType::Pal4 => {},
        ColorType::Pal8 => {},
        ColorType::RGB8 => {},
        ColorType::RGB16 => {},
        ColorType::RGBA8 => {},
        ColorType::RGBA16 => {},
    }
}

/// The engine reads a legal header, and reads it the same way again under
/// the negotiated transforms, for an image whose RGBA bytes fit in memory.
pub open spec fn reads_consistently(bytes: Seq<u8>) -> bool {
    match png_header(bytes, ENGINE_IDENTITY) {
        Some(h) => match header_directives_spec(h.2, h.3, h.4) {
            Ok(d) => png_header(bytes, engine_transforms_spec(d)) == Some(h) && frame_fits(
                h.0,
                h.1,
                PixelLayout::RGBA8,
            ),
            Err(_) => false,
        },
        None => false,
    }
}

/// Every legal colour type and bit depth, with or without transparency,
/// decodes to RGBA: once the engine has read the header the same way
/// twice, decoding fails only where the engine produces no rows, and
/// otherwise hands out four bytes per pixel.
pub proof fn legal_images_decode_to_rgba(bytes: Seq<u8>)
    requires
        has_png_signature(bytes),
        reads_consistently(bytes),
    ensures
        decode_spec(bytes) is Ok || decode_spec(bytes) == Err::<
            (u32, u32, FramePlan, Seq<u8>),
            CodecError,
        >(read_failure()),
        decode_spec(bytes) matches Ok((w, h, p, raw)) ==> (p.layout == PixelLayout::RGBA8 && w
            == png_header(bytes, ENGINE_IDENTITY)->Some_0.0 && h == png_header(
            bytes,
            ENGINE_IDENTITY,
        )->Some_0.1),
{
    let h = png_header(bytes, ENGINE_IDENTITY)->Some_0;
    lemma_legal_format_widens_to_rgba(h.2, h.3, h.4);
}

/// Decodes an encoded image into one of the canonical layouts.
///
/// Input without the signature is refused before the engine sees it. The
/// engine reads the header once to report the colour type, then again with
/// the negotiated transforms to produce the rows.
pub fn load_png_from_memory(image: &[u8]) -> (r: Result<Image, CodecError>)
    ensures
        match decode_spec(image@) {
            Ok((w, h, p, raw)) => r matches Ok(img) && frame_image(img, w, h, p, raw),
            Err(e) => r == Err::<Image, CodecError>(e),
        },
        !has_png_signature(image@) ==> r == Err::<Image, CodecError>(read_failure()),
        r matches Ok(img) ==> img.wf() && img.pixels.layout() != PixelLayout::RGB8,
        r matches Err(e) ==> e == read_failure() || e is UnsupportedFormat,
{
    if !is_png(image) {
        return Err(CodecError::EngineSignaledFailure { phase: Phase::Read });
    }
    let header = match engine_info(ImageData::new(image), ENGINE_IDENTITY) {
        Some(info) => info,
        None => {
            return Err(CodecError::EngineSignaledFailure { phase: Phase::Read });
        },
    };
    let directives = match header_directives(header.color_code, header.bit_depth, header.has_trns) {
        Ok(d) => d,
        Err(e) => {
            return Err(e);
        },
    };
    let bits = engine_transforms(directives);
    let info = match engine_info(ImageData::new(image), bits) {
        Some(info) => info,
        None => {
            return Err(CodecError::EngineSignaledFailure { phase: Phase::Read });
        },
    };
    if info.width != header.width || info.height != header.height || info.color_code
        != header.color_code || info.bit_depth != header.bit_depth || info.has_trns
        != header.has_trns {
        return Err(CodecError::EngineSignaledFailure { phase: Phase::Read });
    }
    let engine_out = match report_of_codes(info.out_code, info.out_depth) {
        Ok(report) => report,
        Err(e) => {
            return Err(e);
        },
    };
    let plan = match plan_frame(info.width, info.height, directives, engine_out) {
        Ok(plan) => plan,
        Err(e) => {
            return Err(e);
        },
    };
    let raw = match engine_rows(ImageData::new(image), bits, plan.engine_len) {
        Some(raw) => raw,
        None => {
            return Err(CodecError::EngineSignaledFailure { phase: Phase::Read });
        },
    };
    Ok(assemble_image(info.width, info.height, plan, raw))
}

/// What encoding `img` comes to: for a well-formed image of non-zero size,
/// png's encoding of its bytes with eight bits per sample in the layout's
/// own colour model, default compression and unfiltered rows; otherwise
/// the write failure.
pub open spec fn to_vec_spec(img: Image) -> Result<Seq<u8>, CodecError> {
    if img.wf() && img.width > 0 && img.height > 0 {
        Ok(
            png_encoded(
                img.width,
                img.height,
                img.pixels.layout().model_spec().code_spec(),
                8,
                COMPRESSION_DEFAULT,
                FILTER_NONE,
                img.pixels.bytes(),
            ),
        )
    } else {
        Err(write_failure())
    }
}

/// Encoding depends on the image alone: two images with the same size,
/// layout and pixel bytes encode to the same result.
pub proof fn encoding_depends_only_on_the_image(a: Image, b: Image)
    requires
        a.width == b.width,
        a.height == b.height,
        a.pixels.layout() == b.pixels.layout(),
        a.pixels.bytes() == b.pixels.bytes(),
    ensures
        to_vec_spec(a) == to_vec_spec(b),
{
}

/// Encodes `img` with eight bits per sample in its own colour model, no
/// interlacing, default compression and unfiltered rows. The image is left
/// as it was. Pixel bytes that do not match the size and the layout, and
/// an image without pixels, are a write failure.
pub fn to_vec(img: &mut Image) -> (r: Result<Vec<u8>, CodecError>)
    ensures
        *final(img) == *old(img),
        match to_vec_spec(*old(img)) {
            Ok(b) => r matches Ok(v) && v@ == b,
            Err(e) => r == Err::<Vec<u8>, CodecError>(e),
        },
        r matches Ok(v) ==> v@.len() >= 29 && has_png_signature(v@) && v@.subrange(0, 29)
            == encoded_header(
            old(img).width,
            old(img).height,
            8,
            old(img).pixels.layout().model_spec().code_spec(),
        ),
{
    if !img.is_well_formed() || img.width == 0 || img.height == 0 {
        return Err(CodecError::EngineSignaledFailure { phase: Phase::Write });
    }
    let settings = encode_settings(img.width, img.height, img.pixels.pixel_layout());
    let mut sink = SinkBuffer::new();
    let result = engine_encode(
        &mut sink,
        settings.width,
        settings.height,
        settings.report.model.code(),
        settings.report.bit_depth,
        settings.compression,
        settings.filter,
        img.pixels.as_bytes().as_slice(),
    );
    match result {
        Ok(()) => {
            let bytes = sink.bytes;
            proof {
                let head = encoded_header(
                    img.width,
                    img.height,
                    8,
                    img.pixels.layout().model_spec().code_spec(),
                );
                assert(bytes@.subrange(0, 29).subrange(0, 8) =~= bytes@.subrange(0, 8));
                assert(head.subrange(0, 8) =~= png_signature());
            }
            Ok(bytes)
        },
        Err(_) => Err(CodecError::EngineSignaledFailure { phase: Phase::Write }),
    }
}

} // verus!
