//! Decoding and encoding of PNG images through the png crate, with the
//! engine's many pixel formats normalized to four canonical layouts.

pub mod codec;
mod engine;
pub mod format;
pub mod negotiate;
pub mod pixels;
pub mod stream;

pub use format::{
    CodecError, ColorModel, ColorReport, ColorType, Image, Phase, PixelLayout, PixelsByColorType,
};
pub use negotiate::{
    canonical_format, encode_settings, engine_transforms, negotiate, post_transform_report,
    Directives, EncodeSettings, COMPRESSION_DEFAULT, FILTER_NONE,
};
pub use pixels::{plan_rows, widen_pixels};
pub use stream::{
    flush_data_to_buf, is_png, read_data, write_data_to_buf, ImageData, SinkBuffer,
};
pub use codec::{
    assemble_image, header_directives, load_png_from_memory, plan_frame, report_of_codes, to_vec,
    FramePlan,
};
