//! Pixel formats, color spaces, and the typed model of an image buffer.

use vstd::prelude::*;

verus! {

/// Native format bit: the image is stored in planes.
pub const IMG_FMT_PLANAR: u32 = 0x100;
/// Native format bit: the U and V planes are swapped.
pub const IMG_FMT_UV_FLIP: u32 = 0x200;
/// Native format bit: the image carries an alpha plane.
pub const IMG_FMT_HAS_ALPHA: u32 = 0x400;
/// Native format bit: samples are wider than eight bits.
pub const IMG_FMT_HIGHBITDEPTH: u32 = 0x800;

/// Native code of the planar YVU format.
pub const IMG_FMT_YV12: u32 = IMG_FMT_PLANAR + IMG_FMT_UV_FLIP + 1;
/// Native code of the library-layout planar YVU format.
pub const IMG_FMT_VPXYV12: u32 = IMG_FMT_PLANAR + IMG_FMT_UV_FLIP + 3;
/// Native code of the library-layout planar YUV format.
pub const IMG_FMT_VPXI420: u32 = IMG_FMT_PLANAR + 4;
/// Native code of the planar YUV 4:2:0 format.
pub const IMG_FMT_I420: u32 = IMG_FMT_PLANAR + 2;
/// Native code of the planar YUV 4:2:2 format.
pub const IMG_FMT_I422: u32 = IMG_FMT_PLANAR + 5;
/// Native code of the planar YUV 4:4:4 format.
pub const IMG_FMT_I444: u32 = IMG_FMT_PLANAR + 6;
/// Native code of the planar YUV 4:4:0 format.
pub const IMG_FMT_I440: u32 = IMG_FMT_PLANAR + 7;
/// Native code of the planar YUV 4:4:4 format with an alpha plane.
pub const IMG_FMT_444A: u32 = IMG_FMT_PLANAR + IMG_FMT_HAS_ALPHA + 6;
/// Native code of the high-bit-depth planar YUV 4:2:0 format.
pub const IMG_FMT_I42016: u32 = IMG_FMT_I420 + IMG_FMT_HIGHBITDEPTH;
/// Native code of the high-bit-depth planar YUV 4:2:2 format.
pub const IMG_FMT_I42216: u32 = IMG_FMT_I422 + IMG_FMT_HIGHBITDEPTH;
/// Native code of the high-bit-depth planar YUV 4:4:4 format.
pub const IMG_FMT_I44416: u32 = IMG_FMT_I444 + IMG_FMT_HIGHBITDEPTH;
/// Native code of the high-bit-depth planar YUV 4:4:0 format.
pub const IMG_FMT_I44016: u32 = IMG_FMT_I440 + IMG_FMT_HIGHBITDEPTH;

/// The pixel formats the binding supports, mirroring the native library's
/// closed set of image format codes.
#[derive(Clone, Copy, Eq, PartialEq, Structural, Hash, Debug)]
#[allow(non_camel_case_types)]
pub enum Format {
    /// 24 bit packed RGB.
    RGB24,
    /// 32 bit packed RGB, with a little-endian variant.
    RGB32 { le: bool },
    /// 16 bit packed RGB, 5-6-5, with a little-endian variant.
    RGB565 { le: bool },
    /// 16 bit packed RGB, 5-5-5, with a little-endian variant.
    RGB555 { le: bool },
    /// Packed YUV, U-Y-V-Y order.
    UYVY,
    /// Packed YUV, Y-U-Y-V order.
    YUY2,
    /// Packed YUV, Y-V-Y-U order.
    YVYU,
    /// 24 bit packed BGR.
    BGR24,
    /// 32 bit packed ARGB.
    ARGB,
    /// 32 bit packed BGRA.
    BGRA,
    /// Planar YVU in the native library's own layout.
    YV12_VPX,
    /// Planar YUV in the native library's own layout.
    I420_VPX,
    /// Planar YVU.
    YV12,
    /// Planar YUV 4:2:0, with a high-bit-depth variant.
    I420 { hi_bit_depth: bool },
    /// Planar YUV 4:2:2, with a high-bit-depth variant.
    I422 { hi_bit_depth: bool },
    /// Planar YUV 4:4:0, with a high-bit-depth variant.
    I440 { hi_bit_depth: bool },
    /// Planar YUV 4:4:4, with a high-bit-depth variant.
    I444 { hi_bit_depth: bool },
    /// Planar YUV 4:4:4 with an alpha plane. Should be named `444A`.
    I444A,
}

/// The native numeric code of each supported pixel format.
pub open spec fn spec_format_code(f: Format) -> u32 {
    match f {
        Format::RGB24 => 1u32,
        Format::RGB32 { le: false } => 2u32,
        Format::RGB32 { le: true } => 9u32,
        Format::RGB565 { le: false } => 3u32,
        Format::RGB565 { le: true } => 12u32,
        Format::RGB555 { le: false } => 4u32,
        Format::RGB555 { le: true } => 13u32,
        Format::UYVY => 5u32,
        Format::YUY2 => 6u32,
        Format::YVYU => 7u32,
        Format::BGR24 => 8u32,
        Format::ARGB => 10u32,
        Format::BGRA => 11u32,
        Format::YV12_VPX => IMG_FMT_VPXYV12,
        Format::I420_VPX => IMG_FMT_VPXI420,
        Format::YV12 => IMG_FMT_YV12,
        Format::I420 { hi_bit_depth: false } => IMG_FMT_I420,
        Format::I422 { hi_bit_depth: false } => IMG_FMT_I422,
        Format::I440 { hi_bit_depth: false } => IMG_FMT_I440,
        Format::I444 { hi_bit_depth: false } => IMG_FMT_I444,
        Format::I420 { hi_bit_depth: true } => IMG_FMT_I42016,
        Format::I422 { hi_bit_depth: true } => IMG_FMT_I42216,
        Format::I440 { hi_bit_depth: true } => IMG_FMT_I44016,
        Format::I444 { hi_bit_depth: true } => IMG_FMT_I44416,
        Format::I444A => IMG_FMT_444A,
    }
}

/// The supported pixel format a native code stands for, if any.
pub open spec fn spec_format_of_code(c: u32) -> Option<Format> {
    if c == 1u32 {
        Some(Format::RGB24)
    } else if c == 2u32 {
        Some(Format::RGB32 { le: false })
    } else if c == 9u32 {
        Some(Format::RGB32 { le: true })
    } else if c == 3u32 {
        Some(Format::RGB565 { le: false })
    } else if c == 12u32 {
        Some(Format::RGB565 { le: true })
    } else if c == 4u32 {
        Some(Format::RGB555 { le: false })
    } else if c == 13u32 {
        Some(Format::RGB555 { le: true })
    } else if c == 5u32 {
        Some(Format::UYVY)
    } else if c == 6u32 {
        Some(Format::YUY2)
    } else if c == 7u32 {
        Some(Format::YVYU)
    } else if c == 8u32 {
        Some(Format::BGR24)
    } else if c == 10u32 {
        Some(Format::ARGB)
    } else if c == 11u32 {
        Some(Format::BGRA)
    } else if c == IMG_FMT_VPXYV12 {
        Some(Format::YV12_VPX)
    } else if c == IMG_FMT_VPXI420 {
        Some(Format::I420_VPX)
    } else if c == IMG_FMT_YV12 {
        Some(Format::YV12)
    } else if c == IMG_FMT_I420 {
        Some(Format::I420 { hi_bit_depth: false })
    } else if c == IMG_FMT_I422 {
        Some(Format::I422 { hi_bit_depth: false })
    } else if c == IMG_FMT_I440 {
        Some(Format::I440 { hi_bit_depth: false })
    } else if c == IMG_FMT_I444 {
        Some(Format::I444 { hi_bit_depth: false })
    } else if c == IMG_FMT_I42016 {
        Some(Format::I420 { hi_bit_depth: true })
    } else if c == IMG_FMT_I42216 {
        Some(Format::I422 { hi_bit_depth: true })
    } else if c == IMG_FMT_I44016 {
        Some(Format::I440 { hi_bit_depth: true })
    } else if c == IMG_FMT_I44416 {
        Some(Format::I444 { hi_bit_depth: true })
    } else if c == IMG_FMT_444A {
        Some(Format::I444A)
    } else {
        None
    }
}

impl Format {
    /// The native numeric code of this format.
    pub fn to_code(self) -> (r: u32)
        ensures
            r == spec_format_code(self),
    {
        match self {
            Format::RGB24 => 1u32,
            Format::RGB32 { le: false } => 2u32,
            Format::RGB32 { le: true } => 9u32,
            Format::RGB565 { le: false } => 3u32,
            Format::RGB565 { le: true } => 12u32,
            Format::RGB555 { le: false } => 4u32,
            Format::RGB555 { le: true } => 13u32,
            Format::UYVY => 5u32,
            Format::YUY2 => 6u32,
            Format::YVYU => 7u32,
            Format::BGR24 => 8u32,
            Format::ARGB => 10u32,
            Format::BGRA => 11u32,
            Format::YV12_VPX => IMG_FMT_VPXYV12,
            Format::I420_VPX => IMG_FMT_VPXI420,
            Format::YV12 => IMG_FMT_YV12,
            Format::I420 { hi_bit_depth: false } => IMG_FMT_I420,
            Format::I422 { hi_bit_depth: false } => IMG_FMT_I422,
            Format::I440 { hi_bit_depth: false } => IMG_FMT_I440,
            Format::I444 { hi_bit_depth: false } => IMG_FMT_I444,
            Format::I420 { hi_bit_depth: true } => IMG_FMT_I42016,
            Format::I422 { hi_bit_depth: true } => IMG_FMT_I42216,
            Format::I440 { hi_bit_depth: true } => IMG_FMT_I44016,
            Format::I444 { hi_bit_depth: true } => IMG_FMT_I44416,
            Format::I444A => IMG_FMT_444A,
        }
    }

    /// The supported format a native code stands for, or `None` for a code
    /// outside the supported set.
    pub fn from_code(c: u32) -> (r: Option<Format>)
        ensures
            r == spec_format_of_code(c),
    {
        if c == 1u32 {
            Some(Format::RGB24)
        } else if c == 2u32 {
            Some(Format::RGB32 { le: false })
        } else if c == 9u32 {
            Some(Format::RGB32 { le: true })
        } else if c == 3u32 {
            Some(Format::RGB565 { le: false })
        } else if c == 12u32 {
            Some(Format::RGB565 { le: true })
        } else if c == 4u32 {
            Some(Format::RGB555 { le: false })
        } else if c == 13u32 {
            Some(Format::RGB555 { le: true })
        } else if c == 5u32 {
            Some(Format::UYVY)
        } else if c == 6u32 {
            Some(Format::YUY2)
        } else if c == 7u32 {
            Some(Format::YVYU)
        } else if c == 8u32 {
            Some(Format::BGR24)
        } else if c == 10u32 {
            Some(Format::ARGB)
        } else if c == 11u32 {
            Some(Format::BGRA)
        } else if c == IMG_FMT_VPXYV12 {
            Some(Format::YV12_VPX)
        } else if c == IMG_FMT_VPXI420 {
            Some(Format::I420_VPX)
        } else if c == IMG_FMT_YV12 {
            Some(Format::YV12)
        } else if c == IMG_FMT_I420 {
            Some(Format::I420 { hi_bit_depth: false })
        } else if c == IMG_FMT_I422 {
            Some(Format::I422 { hi_bit_depth: false })
        } else if c == IMG_FMT_I440 {
            Some(Format::I440 { hi_bit_depth: false })
        } else if c == IMG_FMT_I444 {
            Some(Format::I444 { hi_bit_depth: false })
        } else if c == IMG_FMT_I42016 {
            Some(Format::I420 { hi_bit_depth: true })
        } else if c == IMG_FMT_I42216 {
            Some(Format::I422 { hi_bit_depth: true })
        } else if c == IMG_FMT_I44016 {
            Some(Format::I440 { hi_bit_depth: true })
        } else if c == IMG_FMT_I44416 {
            Some(Format::I444 { hi_bit_depth: true })
        } else if c == IMG_FMT_444A {
            Some(Format::I444A)
        } else {
            None
        }
    }
}

/// Law: translating a supported format to its native code and back yields
/// the same format, so the translation is a bijection between the supported
/// set and its codes.
pub proof fn lemma_format_round_trip(f: Format)
    ensures
        spec_format_of_code(spec_format_code(f)) == Some(f),
{
}

/// Law: a native code recognized by the reverse translation maps back to the
/// exact code it came from.
pub proof fn lemma_format_code_round_trip(c: u32)
    ensures
        spec_format_of_code(c) matches Some(f) ==> spec_format_code(f) == c,
{
}

/// The color spaces the binding supports, mirroring the native library's
/// closed set of color-space codes.
#[derive(Clone, Copy, Eq, PartialEq, Structural, Hash, Debug)]
pub enum ColorSpace {
    /// ITU-R BT.601.
    BT601,
    /// ITU-R BT.709.
    BT709,
    /// SMPTE 170.
    SMPTE170,
    /// SMPTE 240.
    SMPTE240,
    /// ITU-R BT.2020.
    BT2020,
    /// sRGB.
    SRGB,
}

/// The native numeric code of each supported color space.
pub open spec fn spec_color_space_code(cs: ColorSpace) -> u32 {
    match cs {
        ColorSpace::BT601 => 1u32,
        ColorSpace::BT709 => 2u32,
        ColorSpace::SMPTE170 => 3u32,
        ColorSpace::SMPTE240 => 4u32,
        ColorSpace::BT2020 => 5u32,
        ColorSpace::SRGB => 7u32,
    }
}

/// The supported color space a native code stands for, if any.
pub open spec fn spec_color_space_of_code(c: u32) -> Option<ColorSpace> {
    if c == 1u32 {
        Some(ColorSpace::BT601)
    } else if c == 2u32 {
        Some(ColorSpace::BT709)
    } else if c == 3u32 {
        Some(ColorSpace::SMPTE170)
    } else if c == 4u32 {
        Some(ColorSpace::SMPTE240)
    } else if c == 5u32 {
        Some(ColorSpace::BT2020)
    } else if c == 7u32 {
        Some(ColorSpace::SRGB)
    } else {
        None
    }
}

impl ColorSpace {
    /// The native numeric code of this color space.
    pub fn to_code(self) -> (r: u32)
        ensures
            r == spec_color_space_code(self),
    {
        match self {
            ColorSpace::BT601 => 1u32,
            ColorSpace::BT709 => 2u32,
            ColorSpace::SMPTE170 => 3u32,
            ColorSpace::SMPTE240 => 4u32,
            ColorSpace::BT2020 => 5u32,
            ColorSpace::SRGB => 7u32,
        }
    }

    /// The supported color space a native code stands for, or `None` for a
    /// code outside the supported set.
    pub fn from_code(c: u32) -> (r: Option<ColorSpace>)
        ensures
            r == spec_color_space_of_code(c),
    {
        if c == 1u32 {
            Some(ColorSpace::BT601)
        } else if c == 2u32 {
            Some(ColorSpace::BT709)
        } else if c == 3u32 {
            Some(ColorSpace::SMPTE170)
        } else if c == 4u32 {
            Some(ColorSpace::SMPTE240)
        } else if c == 5u32 {
            Some(ColorSpace::BT2020)
        } else if c == 7u32 {
            Some(ColorSpace::SRGB)
        } else {
            None
        }
    }
}

/// Law: translating a supported color space to its native code and back
/// yields the same color space.
pub proof fn lemma_color_space_round_trip(cs: ColorSpace)
    ensures
        spec_color_space_of_code(spec_color_space_code(cs)) == Some(cs),
{
}

/// Law: a native code recognized by the reverse color-space translation maps
/// back to the exact code it came from.
pub proof fn lemma_color_space_code_round_trip(c: u32)
    ensures
        spec_color_space_of_code(c) matches Some(cs) ==> spec_color_space_code(cs) == c,
{
}

/// The active sub-rectangle of an image.
#[derive(Clone, Copy, Eq, PartialEq, Structural, Debug)]
pub struct Rect {
    /// Leftmost column of the rectangle.
    pub x: u32,
    /// Topmost row of the rectangle.
    pub y: u32,
    /// Width of the rectangle.
    pub w: u32,
    /// Height of the rectangle.
    pub h: u32,
}

/// Whether a rectangle lies within an image of the given dimensions.
pub open spec fn spec_rect_within(rect: Rect, width: u32, height: u32) -> bool {
    rect.x + rect.w <= width && rect.y + rect.h <= height
}

/// The typed description of an image buffer: the geometry and tags the
/// binding reads and updates. The pixel bytes themselves stay with the
/// caller, and the binding does not check that they suffice for this
/// geometry; that remains the caller's responsibility.
#[derive(Clone, Copy, Eq, PartialEq, Structural, Debug)]
pub struct Image {
    /// Pixel format of the buffer.
    pub format: Format,
    /// Color space of the buffer.
    pub color_space: ColorSpace,
    /// Width of the image in pixels.
    pub width: u32,
    /// Height of the image in pixels.
    pub height: u32,
    /// Distance in bytes between the starts of two rows.
    pub stride: u32,
    /// The active sub-rectangle, initially the whole image.
    pub rect: Rect,
    /// Whether the image has been flipped to bottom-up orientation.
    pub flipped: bool,
}

/// Whether an image's active rectangle lies within its dimensions.
pub open spec fn spec_image_wf(img: Image) -> bool {
    spec_rect_within(img.rect, img.width, img.height)
}

impl Image {
    /// Describes a caller-owned buffer of the given format and geometry. The
    /// active rectangle starts as the whole image.
    pub fn new(format: Format, color_space: ColorSpace, width: u32, height: u32, stride: u32) -> (r:
        Image)
        ensures
            r.format == format,
            r.color_space == color_space,
            r.width == width,
            r.height == height,
            r.stride == stride,
            r.rect == (Rect { x: 0u32, y: 0u32, w: width, h: height }),
            !r.flipped,
            spec_image_wf(r),
    {
        Image {
            format,
            color_space,
            width,
            height,
            stride,
            rect: Rect { x: 0u32, y: 0u32, w: width, h: height },
            flipped: false,
        }
    }

    /// The pixel format of this image.
    pub fn get_format(&self) -> (r: Format)
        ensures
            r == self.format,
    {
        self.format
    }

    /// Narrows the active rectangle, if it lies within the image; otherwise
    /// leaves the image unchanged and reports failure, as the native call
    /// does.
    pub fn set_rect(&mut self, rect: Rect) -> (r: Result<(), ()>)
        ensures
            spec_rect_within(rect, old(self).width, old(self).height) ==> r == Ok::<(), ()>(())
                && *final(self) == (Image { rect, ..*old(self) }),
            !spec_rect_within(rect, old(self).width, old(self).height) ==> r == Err::<(), ()>(())
                && *final(self) == *old(self),
            spec_image_wf(*old(self)) ==> spec_image_wf(*final(self)),
    {
        if rect.x as u64 + rect.w as u64 <= self.width as u64 && rect.y as u64 + rect.h as u64
            <= self.height as u64 {
            self.rect = rect;
            Ok(())
        } else {
            Err(())
        }
    }

    /// Flips the image's vertical orientation in place.
    pub fn flip(&mut self)
        ensures
            *final(self) == (Image { flipped: !old(self).flipped, ..*old(self) }),
    {
        self.flipped = !self.flipped;
    }
}

} // verus!
