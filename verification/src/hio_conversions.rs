//! Conversions between render-buffer formats and image I/O formats.

use vstd::prelude::*;
use crate::render_buffer::HdFormat;

verus! {

/// Pixel format of the image I/O subsystem.
#[derive(Debug, Clone, Copy, PartialEq, Eq, Hash, Structural)]
pub enum HioFormat {
    UNorm8,
    UNorm8Vec2,
    UNorm8Vec3,
    UNorm8Vec4,
    Float16,
    Float16Vec2,
    Float16Vec3,
    Float16Vec4,
    Float32,
    Float32Vec2,
    Float32Vec3,
    Float32Vec4,
    Int32,
    Invalid,
}

impl Default for HioFormat {
    fn default() -> (f: Self)
        ensures
            f is Invalid,
    {
        HioFormat::Invalid
    }
}

/// The image I/O format of a render-buffer format.
pub open spec fn spec_hd_to_hio(f: HdFormat) -> HioFormat {
    match f {
        HdFormat::UNorm8Vec4 => HioFormat::UNorm8Vec4,
        HdFormat::UNorm8Vec3 => HioFormat::UNorm8Vec3,
        HdFormat::Float16Vec4 => HioFormat::Float16Vec4,
        HdFormat::Float32Vec4 => HioFormat::Float32Vec4,
        HdFormat::Float32 => HioFormat::Float32,
        HdFormat::Int32 => HioFormat::Int32,
    }
}

/// The render-buffer format of an image I/O format, when there is one.
pub open spec fn spec_hio_to_hd(f: HioFormat) -> Option<HdFormat> {
    match f {
        HioFormat::UNorm8Vec4 => Some(HdFormat::UNorm8Vec4),
        HioFormat::UNorm8Vec3 => Some(HdFormat::UNorm8Vec3),
        HioFormat::Float16Vec4 => Some(HdFormat::Float16Vec4),
        HioFormat::Float32Vec4 => Some(HdFormat::Float32Vec4),
        HioFormat::Float32 => Some(HdFormat::Float32),
        HioFormat::Int32 => Some(HdFormat::Int32),
        _ => None,
    }
}

/// Converts a render-buffer format to the image I/O format.
pub fn hd_to_hio(hd_format: HdFormat) -> (f: HioFormat)
    ensures
        f == spec_hd_to_hio(hd_format),
{
    match hd_format {
        HdFormat::UNorm8Vec4 => HioFormat::UNorm8Vec4,
        HdFormat::UNorm8Vec3 => HioFormat::UNorm8Vec3,
        HdFormat::Float16Vec4 => HioFormat::Float16Vec4,
        HdFormat::Float32Vec4 => HioFormat::Float32Vec4,
        HdFormat::Float32 => HioFormat::Float32,
        HdFormat::Int32 => HioFormat::Int32,
    }
}

/// Converts an image I/O format to a render-buffer format; `None` for
/// formats without a render-buffer counterpart.
pub fn hio_to_hd(hio_format: HioFormat) -> (f: Option<HdFormat>)
    ensures
        f == spec_hio_to_hd(hio_format),
{
    match hio_format {
        HioFormat::UNorm8Vec4 => Some(HdFormat::UNorm8Vec4),
        HioFormat::UNorm8Vec3 => Some(HdFormat::UNorm8Vec3),
        HioFormat::Float16Vec4 => Some(HdFormat::Float16Vec4),
        HioFormat::Float32Vec4 => Some(HdFormat::Float32Vec4),
        HioFormat::Float32 => Some(HdFormat::Float32),
        HioFormat::Int32 => Some(HdFormat::Int32),
        _ => None,
    }
}

/// Class-style access to the conversions.
pub struct HioConversions;

impl HioConversions {
    /// The image I/O format of a render-buffer format.
    pub fn get_hio_format(hd_format: HdFormat) -> (f: HioFormat)
        ensures
            f == spec_hd_to_hio(hd_format),
    {
        hd_to_hio(hd_format)
    }

    /// The render-buffer format of an image I/O format, if any.
    pub fn get_hd_format(hio_format: HioFormat) -> (f: Option<HdFormat>)
        ensures
            f == spec_hio_to_hd(hio_format),
    {
        hio_to_hd(hio_format)
    }
}

/// Every render-buffer format survives the round trip through image I/O.
pub proof fn lemma_hd_hio_roundtrip(f: HdFormat)
    ensures
        spec_hio_to_hd(spec_hd_to_hio(f)) == Some(f),
{
}

/// An image I/O format that maps back maps back to the format it came from.
pub proof fn lemma_hio_hd_inverse(h: HioFormat, f: HdFormat)
    ensures
        spec_hio_to_hd(h) == Some(f) ==> spec_hd_to_hio(f) == h,
{
}

/// Channels, bytes per channel and kind (0 normalized unsigned, 1 float,
/// 2 integer) of a render-buffer format.
pub open spec fn render_format_layout(f: HdFormat) -> (nat, nat, nat) {
    match f {
        HdFormat::UNorm8Vec4 => (4, 1, 0),
        HdFormat::UNorm8Vec3 => (3, 1, 0),
        HdFormat::Float16Vec4 => (4, 2, 1),
        HdFormat::Float32Vec4 => (4, 4, 1),
        HdFormat::Float32 => (1, 4, 1),
        HdFormat::Int32 => (1, 4, 2),
    }
}

/// Channels, bytes per channel and kind (as above) of an image I/O format.
pub open spec fn hio_format_layout(f: HioFormat) -> (nat, nat, nat) {
    match f {
        HioFormat::UNorm8 => (1, 1, 0),
        HioFormat::UNorm8Vec2 => (2, 1, 0),
        HioFormat::UNorm8Vec3 => (3, 1, 0),
        HioFormat::UNorm8Vec4 => (4, 1, 0),
        HioFormat::Float16 => (1, 2, 1),
        HioFormat::Float16Vec2 => (2, 2, 1),
        HioFormat::Float16Vec3 => (3, 2, 1),
        HioFormat::Float16Vec4 => (4, 2, 1),
        HioFormat::Float32 => (1, 4, 1),
        HioFormat::Float32Vec2 => (2, 4, 1),
        HioFormat::Float32Vec3 => (3, 4, 1),
        HioFormat::Float32Vec4 => (4, 4, 1),
        HioFormat::Int32 => (1, 4, 2),
        HioFormat::Invalid => (0, 0, 0),
    }
}

/// A render buffer is written to and read from images in a format with
/// the same pixel layout: as many channels, as many bytes per channel and
/// the same kind of channel, in both directions.
pub proof fn lemma_hio_format_keeps_layout(f: HdFormat, h: HioFormat)
    ensures
        hio_format_layout(spec_hd_to_hio(f)) == render_format_layout(f),
        spec_hio_to_hd(h) matches Some(g) ==> render_format_layout(g) == hio_format_layout(h),
{
}

} // verus!
