use vstd::prelude::*;

verus! {

/// Colour model of pixel data, with the codes the wire format gives them.
#[derive(Clone, Copy, Debug, PartialEq, Eq, Structural)]
pub enum ColorModel {
    Gray,
    GrayAlpha,
    Rgb,
    Rgba,
    Palette,
}

impl ColorModel {
    pub open spec fn code_spec(self) -> u8 {
        match self {
            ColorModel::Gray => 0,
            ColorModel::Rgb => 2,
            ColorModel::Palette => 3,
            ColorModel::GrayAlpha => 4,
            ColorModel::Rgba => 6,
        }
    }

    pub open spec fn from_code_spec(code: u8) -> Option<ColorModel> {
        if code == 0 {
            Some(ColorModel::Gray)
        } else if code == 2 {
            Some(ColorModel::Rgb)
        } else if code == 3 {
            Some(ColorModel::Palette)
        } else if code == 4 {
            Some(ColorModel::GrayAlpha)
        } else if code == 6 {
            Some(ColorModel::Rgba)
        } else {
            None
        }
    }

    /// Samples per pixel.
    pub open spec fn channels_spec(self) -> nat {
        match self {
            ColorModel::Gray => 1,
            ColorModel::GrayAlpha => 2,
            ColorModel::Rgb => 3,
            ColorModel::Rgba => 4,
            ColorModel::Palette => 1,
        }
    }

    pub open spec fn has_alpha(self) -> bool {
        self == ColorModel::GrayAlpha || self == ColorModel::Rgba
    }

    pub fn code(self) -> (c: u8)
        ensures
            c == self.code_spec(),
    {
        match self {
            ColorModel::Gray => 0,
            ColorModel::Rgb => 2,
            ColorModel::Palette => 3,
            ColorModel::GrayAlpha => 4,
            ColorModel::Rgba => 6,
        }
    }

    pub fn from_code(code: u8) -> (r: Option<ColorModel>)
        ensures
            r == Self::from_code_spec(code),
    {
        if code == 0 {
            Some(ColorModel::Gray)
        } else if code == 2 {
            Some(ColorModel::Rgb)
        } else if code == 3 {
            Some(ColorModel::Palette)
        } else if code == 4 {
            Some(ColorModel::GrayAlpha)
        } else if code == 6 {
            Some(ColorModel::Rgba)
        } else {
            None
        }
    }

    pub fn channels(self) -> (n: usize)
        ensures
            n == self.channels_spec(),
    {
        match self {
            ColorModel::Gray => 1,
            ColorModel::GrayAlpha => 2,
            ColorModel::Rgb => 3,
            ColorModel::Rgba => 4,
            ColorModel::Palette => 1,
        }
    }
}

/// A colour model together with the bits per sample, as the engine reports it
/// before and after its transforms.
#[derive(Clone, Copy, Debug, PartialEq, Eq, Structural)]
pub struct ColorReport {
    pub model: ColorModel,
    pub bit_depth: u8,
}

/// The legal pairs of colour model and bit depth of an encoded image.
#[derive(Clone, Copy, Debug, PartialEq, Eq, Structural)]
pub enum ColorType {
    K1,
    K2,
    K4,
    K8,
    K16,
    KA8,
    KA16,
    Pal1,
    Pal2,
    Pal4,
    Pal8,
    RGB8,
    RGB16,
    RGBA8,
    RGBA16,
}

impl ColorType {
    pub open spec fn report_spec(self) -> ColorReport {
        match self {
            ColorType::K1 => ColorReport { model: ColorModel::Gray, bit_depth: 1 },
            ColorType::K2 => ColorReport { model: ColorModel::Gray, bit_depth: 2 },
            ColorType::K4 => ColorReport { model: ColorModel::Gray, bit_depth: 4 },
            ColorType::K8 => ColorReport { model: ColorModel::Gray, bit_depth: 8 },
            ColorType::K16 => ColorReport { model: ColorModel::Gray, bit_depth: 16 },
            ColorType::KA8 => ColorReport { model: ColorModel::GrayAlpha, bit_depth: 8 },
            ColorType::KA16 => ColorReport { model: ColorModel::GrayAlpha, bit_depth: 16 },
            ColorType::Pal1 => ColorReport { model: ColorModel::Palette, bit_depth: 1 },
            ColorType::Pal2 => ColorReport { model: ColorModel::Palette, bit_depth: 2 },
            ColorType::Pal4 => ColorReport { model: ColorModel::Palette, bit_depth: 4 },
            ColorType::Pal8 => ColorReport { model: ColorModel::Palette, bit_depth: 8 },
            ColorType::RGB8 => ColorReport { model: ColorModel::Rgb, bit_depth: 8 },
            ColorType::RGB16 => ColorReport { model: ColorModel::Rgb, bit_depth: 16 },
            ColorType::RGBA8 => ColorReport { model: ColorModel::Rgba, bit_depth: 8 },
            ColorType::RGBA16 => ColorReport { model: ColorModel::Rgba, bit_depth: 16 },
        }
    }

    /// A report names a legal pair when some colour type has it.
    pub open spec fn is_legal(r: ColorReport) -> bool {
        exists|t: ColorType| t.report_spec() == r
    }

    pub fn report(self) -> (r: ColorReport)
        ensures
            r == self.report_spec(),
    {
        match self {
            ColorType::K1 => ColorReport { model: ColorModel::Gray, bit_depth: 1 },
            ColorType::K2 => ColorReport { model: ColorModel::Gray, bit_depth: 2 },
            ColorType::K4 => ColorReport { model: ColorModel::Gray, bit_depth: 4 },
            ColorType::K8 => ColorReport { model: ColorModel::Gray, bit_depth: 8 },
            ColorType::K16 => ColorReport { model: ColorModel::Gray, bit_depth: 16 },
            ColorType::KA8 => ColorReport { model: ColorModel::GrayAlpha, bit_depth: 8 },
            ColorType::KA16 => ColorReport { model: ColorModel::GrayAlpha, bit_depth: 16 },
            ColorType::Pal1 => ColorReport { model: ColorModel::Palette, bit_depth: 1 },
            ColorType::Pal2 => ColorReport { model: ColorModel::Palette, bit_depth: 2 },
            ColorType::Pal4 => ColorReport { model: ColorModel::Palette, bit_depth: 4 },
            ColorType::Pal8 => ColorReport { model: ColorModel::Palette, bit_depth: 8 },
            ColorType::RGB8 => ColorReport { model: ColorModel::Rgb, bit_depth: 8 },
            ColorType::RGB16 => ColorReport { model: ColorModel::Rgb, bit_depth: 16 },
            ColorType::RGBA8 => ColorReport { model: ColorModel::Rgba, bit_depth: 8 },
            ColorType::RGBA16 => ColorReport { model: ColorModel::Rgba, bit_depth: 16 },
        }
    }

    /// The colour type of a report, if the pair is legal.
    pub fn from_report(r: ColorReport) -> (t: Option<ColorType>)
        ensures
            t matches Some(c) ==> c.report_spec() == r,
            t is None <==> !Self::is_legal(r),
    {
        let d = r.bit_depth;
        let t = match r.model {
            ColorModel::Gray => if d == 1 {
                Some(ColorType::K1)
            } else if d == 2 {
                Some(ColorType::K2)
            } else if d == 4 {
                Some(ColorType::K4)
            } else if d == 8 {
                Some(ColorType::K8)
            } else if d == 16 {
                Some(ColorType::K16)
            } else {
                None
            },
            ColorModel::GrayAlpha => if d == 8 {
                Some(ColorType::KA8)
            } else if d == 16 {
                Some(ColorType::KA16)
            } else {
                None
            },
            ColorModel::Palette => if d == 1 {
                Some(ColorType::Pal1)
            } else if d == 2 {
                Some(ColorType::Pal2)
            } else if d == 4 {
                Some(ColorType::Pal4)
            } else if d == 8 {
                Some(ColorType::Pal8)
            } else {
                None
            },
            ColorModel::Rgb => if d == 8 {
                Some(ColorType::RGB8)
            } else if d == 16 {
                Some(ColorType::RGB16)
            } else {
                None
            },
            ColorModel::Rgba => if d == 8 {
                Some(ColorType::RGBA8)
            } else if d == 16 {
                Some(ColorType::RGBA16)
            } else {
                None
            },
        };
        proof {
            if t is None {
                assert forall|c: ColorType| c.report_spec() != r by {}
            }
        }
        t
    }
}

/// The four canonical pixel layouts, without their bytes.
#[derive(Clone, Copy, Debug, PartialEq, Eq, Structural)]
pub enum PixelLayout {
    K8,
    KA8,
    RGB8,
    RGBA8,
}

impl PixelLayout {
    pub open spec fn bpp_spec(self) -> nat {
        match self {
            PixelLayout::K8 => 1,
            PixelLayout::KA8 => 2,
            PixelLayout::RGB8 => 3,
            PixelLayout::RGBA8 => 4,
        }
    }

    /// The colour model of the layout; every layout has eight bits per sample.
    pub open spec fn model_spec(self) -> ColorModel {
        match self {
            PixelLayout::K8 => ColorModel::Gray,
            PixelLayout::KA8 => ColorModel::GrayAlpha,
            PixelLayout::RGB8 => ColorModel::Rgb,
            PixelLayout::RGBA8 => ColorModel::Rgba,
        }
    }

    pub open spec fn color_type_spec(self) -> ColorType {
        match self {
            PixelLayout::K8 => ColorType::K8,
            PixelLayout::KA8 => ColorType::KA8,
            PixelLayout::RGB8 => ColorType::RGB8,
            PixelLayout::RGBA8 => ColorType::RGBA8,
        }
    }

    pub fn bytes_per_pixel(self) -> (n: usize)
        ensures
            n == self.bpp_spec(),
    {
        match self {
            PixelLayout::K8 => 1,
            PixelLayout::KA8 => 2,
            PixelLayout::RGB8 => 3,
            PixelLayout::RGBA8 => 4,
        }
    }

    pub fn model(self) -> (m: ColorModel)
        ensures
            m == self.model_spec(),
    {
        match self {
            PixelLayout::K8 => ColorModel::Gray,
            PixelLayout::KA8 => ColorModel::GrayAlpha,
            PixelLayout::RGB8 => ColorModel::Rgb,
            PixelLayout::RGBA8 => ColorModel::Rgba,
        }
    }

    pub fn color_type(self) -> (t: ColorType)
        ensures
            t == self.color_type_spec(),
    {
        match self {
            PixelLayout::K8 => ColorType::K8,
            PixelLayout::KA8 => ColorType::KA8,
            PixelLayout::RGB8 => ColorType::RGB8,
            PixelLayout::RGBA8 => ColorType::RGBA8,
        }
    }

    /// Gives `bytes` this layout.
    pub fn wrap(self, bytes: Vec<u8>) -> (p: PixelsByColorType)
        ensures
            p.layout() == self,
            p.bytes() == bytes@,
    {
        match self {
            PixelLayout::K8 => PixelsByColorType::K8(bytes),
            PixelLayout::KA8 => PixelsByColorType::KA8(bytes),
            PixelLayout::RGB8 => PixelsByColorType::RGB8(bytes),
            PixelLayout::RGBA8 => PixelsByColorType::RGBA8(bytes),
        }
    }
}

/// Pixel bytes in row-major order, tightly packed, tagged with their layout.
#[derive(Clone, Debug)]
pub enum PixelsByColorType {
    K8(Vec<u8>),
    KA8(Vec<u8>),
    RGB8(Vec<u8>),
    RGBA8(Vec<u8>),
}

impl PixelsByColorType {
    pub open spec fn layout(&self) -> PixelLayout {
        match self {
            PixelsByColorType::K8(_) => PixelLayout::K8,
            PixelsByColorType::KA8(_) => PixelLayout::KA8,
            PixelsByColorType::RGB8(_) => PixelLayout::RGB8,
            PixelsByColorType::RGBA8(_) => PixelLayout::RGBA8,
        }
    }

    pub open spec fn bytes(&self) -> Seq<u8> {
        match self {
            PixelsByColorType::K8(v) => v@,
            PixelsByColorType::KA8(v) => v@,
            PixelsByColorType::RGB8(v) => v@,
            PixelsByColorType::RGBA8(v) => v@,
        }
    }

    pub fn pixel_layout(&self) -> (l: PixelLayout)
        ensures
            l == self.layout(),
    {
        match self {
            PixelsByColorType::K8(_) => PixelLayout::K8,
            PixelsByColorType::KA8(_) => PixelLayout::KA8,
            PixelsByColorType::RGB8(_) => PixelLayout::RGB8,
            PixelsByColorType::RGBA8(_) => PixelLayout::RGBA8,
        }
    }

    pub fn as_bytes(&self) -> (b: &Vec<u8>)
        ensures
            b@ == self.bytes(),
    {
        match self {
            PixelsByColorType::K8(v) => v,
            PixelsByColorType::KA8(v) => v,
            PixelsByColorType::RGB8(v) => v,
            PixelsByColorType::RGBA8(v) => v,
        }
    }
}

/// A decoded image: its size in pixels and its pixel bytes.
#[derive(Clone, Debug)]
pub struct Image {
    pub width: u32,
    pub height: u32,
    pub pixels: PixelsByColorType,
}

impl Image {
    /// The number of pixel bytes agrees with the size and the layout.
    pub open spec fn wf(&self) -> bool {
        self.pixels.bytes().len() == self.width as int * self.height as int
            * self.pixels.layout().bpp_spec()
    }

    /// Tells whether the pixel bytes agree with the size and the layout.
    pub fn is_well_formed(&self) -> (b: bool)
        ensures
            b == self.wf(),
    {
        let bpp = self.pixels.pixel_layout().bytes_per_pixel() as u128;
        let w = self.width as u128;
        let h = self.height as u128;
        assert(w * h <= 0xffff_ffffu128 * 0xffff_ffffu128) by (nonlinear_arith)
            requires
                w <= 0xffff_ffffu128,
                h <= 0xffff_ffffu128,
        ;
        assert(w * h * bpp <= 0xffff_ffffu128 * 0xffff_ffffu128 * 4) by (nonlinear_arith)
            requires
                w * h <= 0xffff_ffffu128 * 0xffff_ffffu128,
                bpp <= 4,
        ;
        let expected: u128 = w * h * bpp;
        self.pixels.as_bytes().len() as u128 == expected
    }
}

/// Which direction of the engine failed.
#[derive(Clone, Copy, Debug, PartialEq, Eq, Structural)]
pub enum Phase {
    Read,
    Write,
}

/// Why a decode or an encode did not succeed.
#[derive(Clone, Debug, PartialEq, Eq)]
pub enum CodecError {
    HandleCreationFailed,
    InfoCreationFailed,
    EngineSignaledFailure { phase: Phase },
    UnsupportedFormat { color_type: u8, bit_depth: u8 },
    IOFailure { cause: String },
}

} // verus!
