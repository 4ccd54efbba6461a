use vstd::prelude::*;

use crate::format::{CodecError, ColorModel, ColorReport, PixelLayout};

verus! {

/// Bit of the engine's transform set that strips 16-bit samples to 8 bits.
pub const ENGINE_STRIP_16: u32 = 0x1;

/// Bit of the engine's transform set that expands palettes, sub-byte samples
/// and transparency chunks.
pub const ENGINE_EXPAND: u32 = 0x10;

/// Bit of the engine's transform set that adds an alpha channel, opaque
/// unless a transparency chunk says otherwise.
pub const ENGINE_ALPHA: u32 = 0x10000;

/// The transforms requested before pixels are materialized.
#[derive(Clone, Copy, Debug, PartialEq, Eq, Structural)]
pub struct Directives {
    pub palette_to_rgb: bool,
    pub gray_to_rgb: bool,
    pub strip_16: bool,
    pub add_filler_alpha: bool,
    pub trns_to_alpha: bool,
    pub expand_packing: bool,
    pub deinterlace: bool,
}

/// The transforms that normalize an image reported as `pre`.
pub open spec fn negotiated(pre: ColorReport, has_trns: bool) -> Directives {
    Directives {
        palette_to_rgb: pre.model == ColorModel::Palette,
        gray_to_rgb: pre.model == ColorModel::Gray || pre.model == ColorModel::GrayAlpha,
        strip_16: pre.bit_depth == 16,
        add_filler_alpha: !pre.model.has_alpha() && !has_trns,
        trns_to_alpha: has_trns,
        expand_packing: true,
        deinterlace: true,
    }
}

/// Decides the transforms for an image whose header reports `pre`, with
/// `has_trns` telling whether it carries a transparency chunk.
pub fn negotiate(pre: ColorReport, has_trns: bool) -> (d: Directives)
    ensures
        d == negotiated(pre, has_trns),
{
    let gray = match pre.model {
        ColorModel::Gray => true,
        ColorModel::GrayAlpha => true,
        _ => false,
    };
    let alpha = match pre.model {
        ColorModel::GrayAlpha => true,
        ColorModel::Rgba => true,
        _ => false,
    };
    let palette = match pre.model {
        ColorModel::Palette => true,
        _ => false,
    };
    Directives {
        palette_to_rgb: palette,
        gray_to_rgb: gray,
        strip_16: pre.bit_depth == 16,
        add_filler_alpha: !alpha && !has_trns,
        trns_to_alpha: has_trns,
        expand_packing: true,
        deinterlace: true,
    }
}

/// The engine's transform set for the directives it carries out itself:
/// expansion of palettes, packed samples and transparency, stripping of
/// 16-bit samples, and the filler alpha channel. Interlaced images are
/// always de-interlaced by the engine; gray-to-RGB is left to this layer.
pub open spec fn engine_transforms_spec(d: Directives) -> u32 {
    ((if d.palette_to_rgb || d.trns_to_alpha || d.expand_packing {
        ENGINE_EXPAND
    } else {
        0
    }) + (if d.strip_16 {
        ENGINE_STRIP_16
    } else {
        0
    }) + (if d.add_filler_alpha {
        ENGINE_ALPHA
    } else {
        0
    })) as u32
}

pub fn engine_transforms(d: Directives) -> (bits: u32)
    ensures
        bits == engine_transforms_spec(d),
{
    let expand: u32 = if d.palette_to_rgb || d.trns_to_alpha || d.expand_packing {
        ENGINE_EXPAND
    } else {
        0
    };
    let strip: u32 = if d.strip_16 {
        ENGINE_STRIP_16
    } else {
        0
    };
    let alpha: u32 = if d.add_filler_alpha {
        ENGINE_ALPHA
    } else {
        0
    };
    expand + strip + alpha
}

/// The report after this layer's own step: the gray-to-RGB directive turns
/// gray rows that the engine produced into RGB rows.
pub open spec fn post_transform_spec(engine_out: ColorReport, d: Directives) -> ColorReport {
    if d.gray_to_rgb && engine_out.model == ColorModel::Gray {
        ColorReport { model: ColorModel::Rgb, bit_depth: engine_out.bit_depth }
    } else if d.gray_to_rgb && engine_out.model == ColorModel::GrayAlpha {
        ColorReport { model: ColorModel::Rgba, bit_depth: engine_out.bit_depth }
    } else {
        engine_out
    }
}

pub fn post_transform_report(engine_out: ColorReport, d: Directives) -> (r: ColorReport)
    ensures
        r == post_transform_spec(engine_out, d),
{
    if d.gray_to_rgb {
        match engine_out.model {
            ColorModel::Gray => ColorReport { model: ColorModel::Rgb, bit_depth: engine_out.bit_depth },
            ColorModel::GrayAlpha => ColorReport {
                model: ColorModel::Rgba,
                bit_depth: engine_out.bit_depth,
            },
            _ => engine_out,
        }
    } else {
        engine_out
    }
}

/// The decision table from a post-transform report to a canonical layout.
pub open spec fn canonical_layout(post: ColorReport) -> Option<PixelLayout> {
    if post.bit_depth != 8 {
        None
    } else {
        match post.model {
            ColorModel::Rgb => Some(PixelLayout::RGBA8),
            ColorModel::Rgba => Some(PixelLayout::RGBA8),
            ColorModel::Palette => Some(PixelLayout::RGBA8),
            ColorModel::Gray => Some(PixelLayout::K8),
            ColorModel::GrayAlpha => Some(PixelLayout::KA8),
        }
    }
}

/// Every layout the decision table yields has eight bits per sample and no
/// palette: decoding never hands out a `Pal*` or a 16-bit colour type.
pub proof fn table_yields_eight_bit_layouts(post: ColorReport)
    ensures
        canonical_layout(post) matches Some(l) ==> {
            &&& l.color_type_spec().report_spec().bit_depth == 8
            &&& l.color_type_spec().report_spec().model != ColorModel::Palette
            &&& l != PixelLayout::RGB8
        },
{
}

pub open spec fn unsupported(r: ColorReport) -> CodecError {
    CodecError::UnsupportedFormat { color_type: r.model.code_spec(), bit_depth: r.bit_depth }
}

/// Looks `post` up in the decision table: the layout and its bytes per
/// pixel, or `UnsupportedFormat` for any pair outside the table.
pub fn canonical_format(post: ColorReport) -> (r: Result<(PixelLayout, usize), CodecError>)
    ensures
        match canonical_layout(post) {
            Some(l) => r == Ok::<(PixelLayout, usize), CodecError>((l, l.bpp_spec() as usize)),
            None => r == Err::<(PixelLayout, usize), CodecError>(unsupported(post)),
        },
{
    if post.bit_depth != 8 {
        return Err(CodecError::UnsupportedFormat {
            color_type: post.model.code(),
            bit_depth: post.bit_depth,
        });
    }
    match post.model {
        ColorModel::Rgb => Ok((PixelLayout::RGBA8, 4)),
        ColorModel::Rgba => Ok((PixelLayout::RGBA8, 4)),
        ColorModel::Palette => Ok((PixelLayout::RGBA8, 4)),
        ColorModel::Gray => Ok((PixelLayout::K8, 1)),
        ColorModel::GrayAlpha => Ok((PixelLayout::KA8, 2)),
    }
}

/// Compression code for the encoder's default effort.
pub const COMPRESSION_DEFAULT: u8 = 0;

/// Filter method code for rows written unfiltered.
pub const FILTER_NONE: u8 = 0;

/// The header fields an image is written with.
#[derive(Clone, Copy, Debug, PartialEq, Eq, Structural)]
pub struct EncodeSettings {
    pub width: u32,
    pub height: u32,
    pub report: ColorReport,
    pub compression: u8,
    pub filter: u8,
}

/// An image of layout `l` is written with eight bits per sample, the
/// layout's own colour model, default compression and no filtering.
pub open spec fn encode_settings_spec(width: u32, height: u32, l: PixelLayout) -> EncodeSettings {
    EncodeSettings {
        width,
        height,
        report: ColorReport { model: l.model_spec(), bit_depth: 8 },
        compression: COMPRESSION_DEFAULT,
        filter: FILTER_NONE,
    }
}

pub fn encode_settings(width: u32, height: u32, l: PixelLayout) -> (s: EncodeSettings)
    ensures
        s == encode_settings_spec(width, height, l),
{
    EncodeSettings {
        width,
        height,
        report: ColorReport { model: l.model(), bit_depth: 8 },
        compression: COMPRESSION_DEFAULT,
        filter: FILTER_NONE,
    }
}

} // verus!
