use std::io::{Read, Write};

use png_codec::{
    assemble_image, header_directives, report_of_codes, canonical_format, encode_settings, engine_transforms, flush_data_to_buf,
    is_png, negotiate, plan_frame, plan_rows, post_transform_report, read_data, widen_pixels,
    write_data_to_buf, CodecError, ColorModel, ColorReport, ColorType, COMPRESSION_DEFAULT, FILTER_NONE,
    Directives, FramePlan, ImageData, Phase, PixelLayout, PixelsByColorType, SinkBuffer,
};

fn report(model: ColorModel, bit_depth: u8) -> ColorReport {
    ColorReport { model, bit_depth }
}

fn all_on() -> Directives {
    Directives {
        palette_to_rgb: false,
        gray_to_rgb: true,
        strip_16: false,
        add_filler_alpha: true,
        trns_to_alpha: false,
        expand_packing: true,
        deinterlace: true,
    }
}

#[test]
fn signature_is_recognized() {
    assert!(is_png(&[0x89, 0x50, 0x4E, 0x47, 0x0D, 0x0A, 0x1A, 0x0A]));
    assert!(is_png(&[0x89, 0x50, 0x4E, 0x47, 0x0D, 0x0A, 0x1A, 0x0A, 0, 1, 2]));
}

#[test]
fn empty_short_or_mutated_signature_is_not_recognized() {
    assert!(!is_png(&[]));
    assert!(!is_png(&[0x89, 0x50, 0x4E, 0x47, 0x0D, 0x0A, 0x1A]));
    assert!(!is_png(&[0x89, 0x50, 0x4E, 0x47, 0x0D, 0x0A, 0x1A, 0x0B]));
    assert!(!is_png(&[0x88, 0x50, 0x4E, 0x47, 0x0D, 0x0A, 0x1A, 0x0A]));
}

#[test]
fn gray_without_transparency_gets_rgb_and_filler() {
    let d = negotiate(report(ColorModel::Gray, 8), false);
    assert_eq!(
        d,
        Directives {
            palette_to_rgb: false,
            gray_to_rgb: true,
            strip_16: false,
            add_filler_alpha: true,
            trns_to_alpha: false,
            expand_packing: true,
            deinterlace: true,
        }
    );
}

#[test]
fn palette_with_transparency_converts_it_to_alpha() {
    let d = negotiate(report(ColorModel::Palette, 4), true);
    assert!(d.palette_to_rgb);
    assert!(!d.gray_to_rgb);
    assert!(!d.add_filler_alpha);
    assert!(d.trns_to_alpha);
    assert!(!d.strip_16);
}

#[test]
fn sixteen_bit_rgba_is_stripped_without_filler() {
    let d = negotiate(report(ColorModel::Rgba, 16), false);
    assert!(d.strip_16);
    assert!(!d.add_filler_alpha);
    assert!(!d.gray_to_rgb);
    assert!(!d.palette_to_rgb);
}

#[test]
fn engine_transform_bits() {
    assert_eq!(engine_transforms(negotiate(report(ColorModel::Gray, 8), false)), 0x10010);
    assert_eq!(engine_transforms(negotiate(report(ColorModel::Rgba, 16), false)), 0x11);
    assert_eq!(engine_transforms(negotiate(report(ColorModel::Rgb, 16), true)), 0x11);
    assert_eq!(engine_transforms(negotiate(report(ColorModel::Palette, 2), false)), 0x10010);
}

#[test]
fn post_report_applies_gray_to_rgb() {
    let d = all_on();
    assert_eq!(
        post_transform_report(report(ColorModel::GrayAlpha, 8), d),
        report(ColorModel::Rgba, 8)
    );
    assert_eq!(post_transform_report(report(ColorModel::Gray, 8), d), report(ColorModel::Rgb, 8));
    assert_eq!(post_transform_report(report(ColorModel::Rgb, 8), d), report(ColorModel::Rgb, 8));
    let keep = Directives { gray_to_rgb: false, ..d };
    assert_eq!(
        post_transform_report(report(ColorModel::GrayAlpha, 8), keep),
        report(ColorModel::GrayAlpha, 8)
    );
}

#[test]
fn decision_table_rows() {
    assert_eq!(canonical_format(report(ColorModel::Rgb, 8)), Ok((PixelLayout::RGBA8, 4)));
    assert_eq!(canonical_format(report(ColorModel::Rgba, 8)), Ok((PixelLayout::RGBA8, 4)));
    assert_eq!(canonical_format(report(ColorModel::Palette, 8)), Ok((PixelLayout::RGBA8, 4)));
    assert_eq!(canonical_format(report(ColorModel::Gray, 8)), Ok((PixelLayout::K8, 1)));
    assert_eq!(canonical_format(report(ColorModel::GrayAlpha, 8)), Ok((PixelLayout::KA8, 2)));
}

#[test]
fn decision_table_misses_are_unsupported() {
    assert_eq!(
        canonical_format(report(ColorModel::Rgba, 16)),
        Err(CodecError::UnsupportedFormat { color_type: 6, bit_depth: 16 })
    );
    assert_eq!(
        canonical_format(report(ColorModel::Gray, 4)),
        Err(CodecError::UnsupportedFormat { color_type: 0, bit_depth: 4 })
    );
}

#[test]
fn color_types_of_reports() {
    assert_eq!(ColorType::from_report(report(ColorModel::Gray, 2)), Some(ColorType::K2));
    assert_eq!(ColorType::from_report(report(ColorModel::Palette, 8)), Some(ColorType::Pal8));
    assert_eq!(ColorType::from_report(report(ColorModel::Rgba, 16)), Some(ColorType::RGBA16));
    assert_eq!(ColorType::from_report(report(ColorModel::Rgb, 4)), None);
    assert_eq!(ColorType::from_report(report(ColorModel::Palette, 16)), None);
    assert_eq!(ColorType::KA16.report(), report(ColorModel::GrayAlpha, 16));
}

#[test]
fn color_model_codes() {
    for code in 0u8..=255 {
        match ColorModel::from_code(code) {
            Some(m) => assert_eq!(m.code(), code),
            None => assert!(![0u8, 2, 3, 4, 6].contains(&code)),
        }
    }
    assert_eq!(ColorModel::Rgb.channels(), 3);
    assert_eq!(ColorModel::Palette.channels(), 1);
}

#[test]
fn row_offsets() {
    assert_eq!(plan_rows(10, 3, 4), vec![0, 40, 80]);
    assert_eq!(plan_rows(5, 1, 3), vec![0]);
    assert_eq!(plan_rows(7, 0, 2), Vec::<usize>::new());
    assert_eq!(plan_rows(0, 2, 4), vec![0, 0]);
}

#[test]
fn widening_gray_and_rgb() {
    assert_eq!(
        widen_pixels(&vec![1, 2], ColorModel::Gray, PixelLayout::RGBA8, 2),
        vec![1, 1, 1, 255, 2, 2, 2, 255]
    );
    assert_eq!(
        widen_pixels(&vec![1, 2, 3, 4, 5, 6], ColorModel::Rgb, PixelLayout::RGBA8, 2),
        vec![1, 2, 3, 255, 4, 5, 6, 255]
    );
    assert_eq!(
        widen_pixels(&vec![9, 8], ColorModel::GrayAlpha, PixelLayout::RGBA8, 1),
        vec![9, 9, 9, 8]
    );
    assert_eq!(widen_pixels(&vec![9, 8], ColorModel::GrayAlpha, PixelLayout::KA8, 1), vec![9, 8]);
}

#[test]
fn frame_plan_for_gray_alpha_rows() {
    let plan = plan_frame(3, 2, all_on(), report(ColorModel::GrayAlpha, 8)).unwrap();
    assert_eq!(
        plan,
        FramePlan {
            layout: PixelLayout::RGBA8,
            engine_model: ColorModel::GrayAlpha,
            pixel_count: 6,
            engine_len: 12,
        }
    );
}

#[test]
fn frame_plan_refuses_palette_rows_and_wide_samples() {
    assert_eq!(
        plan_frame(3, 2, all_on(), report(ColorModel::Palette, 8)),
        Err(CodecError::UnsupportedFormat { color_type: 3, bit_depth: 8 })
    );
    assert_eq!(
        plan_frame(3, 2, all_on(), report(ColorModel::GrayAlpha, 16)),
        Err(CodecError::UnsupportedFormat { color_type: 6, bit_depth: 16 })
    );
}

#[test]
fn frame_plan_too_large_for_memory() {
    let r = plan_frame(u32::MAX, u32::MAX, all_on(), report(ColorModel::Rgba, 8));
    assert_eq!(r, Err(CodecError::EngineSignaledFailure { phase: Phase::Read }));
}

#[test]
fn assembling_an_image() {
    let plan = plan_frame(2, 1, all_on(), report(ColorModel::Gray, 8)).unwrap();
    let img = assemble_image(2, 1, plan, vec![3, 4]);
    assert_eq!(img.width, 2);
    assert_eq!(img.height, 1);
    assert!(img.is_well_formed());
    match img.pixels {
        PixelsByColorType::RGBA8(ref v) => assert_eq!(v, &vec![3, 3, 3, 255, 4, 4, 4, 255]),
        _ => panic!("Expected RGBA8"),
    }
}

#[test]
fn reading_from_a_cursor() {
    let source = [1u8, 2, 3, 4, 5];
    let mut cursor = ImageData::new(&source);
    let mut dest = [0u8; 3];
    assert_eq!(read_data(&mut cursor, &mut dest), 3);
    assert_eq!(dest, [1, 2, 3]);
    assert_eq!(cursor.offset(), 3);
}

#[test]
fn short_read_leaves_the_rest_untouched() {
    let source = [1u8, 2, 3, 4, 5];
    let mut cursor = ImageData::new(&source);
    let mut dest = [0u8; 4];
    read_data(&mut cursor, &mut dest);
    let mut dest = [9u8; 4];
    assert_eq!(read_data(&mut cursor, &mut dest), 1);
    assert_eq!(dest, [5, 9, 9, 9]);
    assert_eq!(cursor.offset(), 5);
    assert_eq!(read_data(&mut cursor, &mut dest), 0);
    assert_eq!(dest, [5, 9, 9, 9]);
}

#[test]
fn cursor_serves_std_read() {
    let source = [7u8, 8, 9];
    let mut cursor = ImageData::new(&source);
    let mut all = Vec::new();
    cursor.read_to_end(&mut all).unwrap();
    assert_eq!(all, vec![7, 8, 9]);
}

#[test]
fn appending_to_a_buffer() {
    let mut dest = vec![1u8];
    write_data_to_buf(&mut dest, &[2, 3]);
    assert_eq!(dest, vec![1, 2, 3]);
    write_data_to_buf(&mut dest, &[]);
    flush_data_to_buf(&mut dest);
    assert_eq!(dest, vec![1, 2, 3]);
}

#[test]
fn sink_serves_std_write() {
    let mut sink = SinkBuffer::new();
    sink.write_all(&[4, 5]).unwrap();
    sink.flush().unwrap();
    assert_eq!(sink.bytes, vec![4, 5]);
}

#[test]
fn encoder_settings_follow_the_layout() {
    let s = encode_settings(4, 5, PixelLayout::KA8);
    assert_eq!(s.width, 4);
    assert_eq!(s.height, 5);
    assert_eq!(s.report, report(ColorModel::GrayAlpha, 8));
    assert_eq!(s.compression, COMPRESSION_DEFAULT);
    assert_eq!(s.filter, FILTER_NONE);
    assert_eq!(encode_settings(1, 1, PixelLayout::RGB8).report, report(ColorModel::Rgb, 8));
}

#[test]
fn layouts_report_their_sizes() {
    assert_eq!(PixelLayout::K8.bytes_per_pixel(), 1);
    assert_eq!(PixelLayout::RGB8.bytes_per_pixel(), 3);
    assert_eq!(PixelLayout::RGBA8.color_type(), ColorType::RGBA8);
    let p = PixelLayout::KA8.wrap(vec![1, 2]);
    assert_eq!(p.pixel_layout(), PixelLayout::KA8);
    assert_eq!(p.as_bytes(), &vec![1, 2]);
}

#[test]
fn reports_from_wire_codes() {
    assert_eq!(report_of_codes(6, 8), Ok(report(ColorModel::Rgba, 8)));
    assert_eq!(report_of_codes(3, 1), Ok(report(ColorModel::Palette, 1)));
    assert_eq!(
        report_of_codes(5, 8),
        Err(CodecError::UnsupportedFormat { color_type: 5, bit_depth: 8 })
    );
}

#[test]
fn directives_from_a_header() {
    assert_eq!(header_directives(0, 8, false), Ok(negotiate(report(ColorModel::Gray, 8), false)));
    assert_eq!(
        header_directives(2, 16, true),
        Ok(negotiate(report(ColorModel::Rgb, 16), true))
    );
    assert_eq!(
        header_directives(2, 4, false),
        Err(CodecError::UnsupportedFormat { color_type: 2, bit_depth: 4 })
    );
    assert_eq!(
        header_directives(7, 8, false),
        Err(CodecError::UnsupportedFormat { color_type: 7, bit_depth: 8 })
    );
}
