use vstd::prelude::*;

use crate::format::ColorModel;
use crate::negotiate::{ENGINE_ALPHA, ENGINE_EXPAND, ENGINE_STRIP_16};
use crate::stream::{ImageData, SinkBuffer};

verus! {

#[verifier::external_type_specification]
#[verifier::external_body]
pub struct ExEncodingError(png::EncodingError);

/// What png's decoder reads from `bytes` under the transform set `bits`:
/// width, height, wire codes of colour type and bit depth, and whether a
/// transparency chunk is present; `None` when it refuses the metadata.
pub uninterp spec fn png_header(bytes: Seq<u8>, bits: u32) -> Option<(u32, u32, u8, u8, bool)>;

/// Whether the transform set `bits` holds the flag `flag`, a power of two.
pub open spec fn has_flag(bits: u32, flag: u32) -> bool {
    (bits / flag) % 2 == 1
}

/// Wire codes of colour type and bit depth of the rows png's decoder
/// produces for a header of `color` and `depth`, with or without a
/// transparency chunk, under the transform set `bits`: 16-bit samples are
/// stripped by `STRIP_16`; expansion (`EXPAND` or `ALPHA`) widens sub-byte
/// samples to 8 bits, turns palettes into RGB, and adds alpha where a
/// transparency chunk is present or `ALPHA` asks for it.
pub open spec fn png_output_format(color: u8, depth: u8, trns: bool, bits: u32) -> (u8, u8) {
    let strip = has_flag(bits, ENGINE_STRIP_16);
    let alpha = has_flag(bits, ENGINE_ALPHA);
    let expand = has_flag(bits, ENGINE_EXPAND) || alpha;
    let out_depth = if depth == 16 && strip {
        8u8
    } else if depth < 8 && expand {
        8u8
    } else {
        depth
    };
    let has_alpha = trns || alpha;
    let out_color = if !expand {
        color
    } else if color == 0 && has_alpha {
        4u8
    } else if color == 2 && has_alpha {
        6u8
    } else if color == 3 && has_alpha {
        6u8
    } else if color == 3 {
        2u8
    } else {
        color
    };
    (out_color, out_depth)
}

/// The frame that png's decoder writes into a zeroed buffer of `len` bytes,
/// or `None` when it fails.
pub uninterp spec fn png_rows(bytes: Seq<u8>, bits: u32, len: nat) -> Option<Seq<u8>>;

/// The bytes png's encoder writes for an image of these header fields,
/// compression code (0 default, 1 fast, 2 best), filter code and rows.
pub uninterp spec fn png_encoded(
    width: u32,
    height: u32,
    color_code: u8,
    bit_depth: u8,
    compression: u8,
    filter: u8,
    data: Seq<u8>,
) -> Seq<u8>;

pub open spec fn be32(x: u32) -> Seq<u8> {
    seq![(x / 0x1000000) as u8, ((x / 0x10000) % 0x100) as u8, ((x / 0x100) % 0x100) as u8, (x % 0x100) as u8]
}

/// The signature and the header chunk up to its checksum: length 13, the
/// chunk type, width and height big-endian, bit depth, colour type, and
/// zero for compression method, filter method and interlacing.
pub open spec fn encoded_header(width: u32, height: u32, bit_depth: u8, color_code: u8) -> Seq<u8> {
    seq![0x89u8, 0x50u8, 0x4Eu8, 0x47u8, 0x0Du8, 0x0Au8, 0x1Au8, 0x0Au8, 0u8, 0u8, 0u8, 13u8, 0x49u8, 0x48u8, 0x44u8, 0x52u8]
        + be32(width) + be32(height) + seq![bit_depth, color_code, 0u8, 0u8, 0u8]
}

/// Header fields and output format as png's decoder reports them.
#[derive(Clone, Copy, Debug, PartialEq, Eq, Structural)]
pub struct EngineInfo {
    pub width: u32,
    pub height: u32,
    pub color_code: u8,
    pub bit_depth: u8,
    pub has_trns: bool,
    pub out_code: u8,
    pub out_depth: u8,
}

/// Relies on png::Decoder::new, Decoder::set_transformations,
/// Decoder::read_info, Reader::info and Reader::output_color_type: the
/// metadata that png reads through `src`, a function of its bytes and of
/// `bits`, and the output format that output_color_type computes from it.
#[verifier::external_body]
pub(crate) fn engine_info<'a>(src: ImageData<'a>, bits: u32) -> (r: Option<EngineInfo>)
    requires
        src.position() == 0,
    ensures
        r matches Some(i) ==> png_header(src.source(), bits) == Some(
            (i.width, i.height, i.color_code, i.bit_depth, i.has_trns),
        ) && (i.out_code, i.out_depth) == png_output_format(
            i.color_code,
            i.bit_depth,
            i.has_trns,
            bits,
        ),
        r is None ==> png_header(src.source(), bits) is None,
{
    let mut decoder = png::Decoder::new(src);
    decoder.set_transformations(png::Transformations::from_bits_truncate(bits));
    let reader = decoder.read_info().ok()?;
    let info = reader.info();
    let (out, depth) = reader.output_color_type();
    let (width, height, has_trns) = (info.width, info.height, info.trns.is_some());
    let (color_code, bit_depth) = (info.color_type as u8, info.bit_depth as u8);
    let (out_code, out_depth) = (out as u8, depth as u8);
    Some(EngineInfo { width, height, color_code, bit_depth, has_trns, out_code, out_depth })
}

/// Relies on png::Decoder::new, Decoder::set_transformations,
/// Decoder::read_info and Reader::next_frame: the de-interlaced frame that
/// png writes into a zeroed buffer of `len` bytes, whose length it keeps.
#[verifier::external_body]
pub(crate) fn engine_rows<'a>(src: ImageData<'a>, bits: u32, len: usize) -> (r: Option<Vec<u8>>)
    requires
        src.position() == 0,
    ensures
        r matches Some(v) ==> v@.len() == len && png_rows(src.source(), bits, len as nat) == Some(
            v@,
        ),
        r is None ==> png_rows(src.source(), bits, len as nat) is None,
{
    let mut decoder = png::Decoder::new(src);
    decoder.set_transformations(png::Transformations::from_bits_truncate(bits));
    let mut reader = decoder.read_info().ok()?;
    let mut buf = vec![0u8; len];
    reader.next_frame(&mut buf).ok()?;
    Some(buf)
}

/// Relies on png::Encoder (new, set_color, set_depth, set_compression,
/// set_filter, write_header) and png::Writer (write_image_data, finish)
/// writing into `sink`, whose writes never fail; ColorType::from_u8,
/// BitDepth::from_u8 and FilterType::from_u8 give a value for each code
/// that `requires` admits. The header write fails only on a zero size or a
/// bad colour and depth pair; the image write fails on a size mismatch, or
/// on a palette colour type when no palette was set, which is why
/// `requires` leaves both out. The output opens with the signature and the
/// header chunk.
#[verifier::external_body]
pub(crate) fn engine_encode(
    sink: &mut SinkBuffer,
    width: u32,
    height: u32,
    color_code: u8,
    bit_depth: u8,
    compression: u8,
    filter: u8,
    data: &[u8],
) -> (r: Result<(), png::EncodingError>)
    requires
        old(sink).bytes@.len() == 0,
        ColorModel::from_code_spec(color_code) is Some,
        color_code != 3,
        bit_depth == 8,
        compression <= 2,
        filter <= 4,
        data@.len() == width as int * height as int * ColorModel::from_code_spec(
            color_code,
        )->Some_0.channels_spec(),
    ensures
        width > 0 && height > 0 ==> r is Ok,
        r is Ok ==> final(sink).bytes@ == png_encoded(
            width,
            height,
            color_code,
            bit_depth,
            compression,
            filter,
            data@,
        ),
        r is Ok ==> final(sink).bytes@.len() >= 29 && final(sink).bytes@.subrange(0, 29)
            == encoded_header(width, height, bit_depth, color_code),
{
    let mut encoder = png::Encoder::new(&mut *sink, width, height);
    encoder.set_color(png::ColorType::from_u8(color_code).unwrap());
    encoder.set_depth(png::BitDepth::from_u8(bit_depth).unwrap());
    let levels = [png::Compression::Default, png::Compression::Fast, png::Compression::Best];
    encoder.set_compression(levels[compression as usize]);
    encoder.set_filter(png::FilterType::from_u8(filter).unwrap());
    let mut writer = encoder.write_header()?;
    writer.write_image_data(data)?;
    writer.finish()
}

} // verus!
