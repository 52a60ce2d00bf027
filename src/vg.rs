//! Parameter codes of the vector-graphics backend for paths and paints.

use vstd::prelude::*;

verus! {

/// Number formats of path coordinates.
#[allow(non_camel_case_types)]
#[derive(Clone, Copy, Debug, PartialEq, Eq, Structural)]
pub enum VGPathDatatype {
    VG_PATH_DATATYPE_S_8,
    VG_PATH_DATATYPE_S_16,
    VG_PATH_DATATYPE_S_32,
    VG_PATH_DATATYPE_F,
}

impl VGPathDatatype {
    pub open spec fn spec_code(self) -> u32 {
        match self {
            VGPathDatatype::VG_PATH_DATATYPE_S_8 => 0,
            VGPathDatatype::VG_PATH_DATATYPE_S_16 => 1,
            VGPathDatatype::VG_PATH_DATATYPE_S_32 => 2,
            VGPathDatatype::VG_PATH_DATATYPE_F => 3,
        }
    }

    /// The value that the backend expects for this parameter.
    pub fn code(&self) -> (r: u32)
        ensures
            r == self.spec_code(),
    {
        match self {
            VGPathDatatype::VG_PATH_DATATYPE_S_8 => 0,
            VGPathDatatype::VG_PATH_DATATYPE_S_16 => 1,
            VGPathDatatype::VG_PATH_DATATYPE_S_32 => 2,
            VGPathDatatype::VG_PATH_DATATYPE_F => 3,
        }
    }
}

/// What a paint applies to: strokes or fills (bit flags).
#[allow(non_camel_case_types)]
#[derive(Clone, Copy, Debug, PartialEq, Eq, Structural)]
pub enum VGPaintMode {
    VG_STROKE_PATH,
    VG_FILL_PATH,
}

impl VGPaintMode {
    pub open spec fn spec_code(self) -> u32 {
        match self {
            VGPaintMode::VG_STROKE_PATH => 1,
            VGPaintMode::VG_FILL_PATH => 2,
        }
    }

    /// The value that the backend expects for this parameter.
    pub fn code(&self) -> (r: u32)
        ensures
            r == self.spec_code(),
    {
        match self {
            VGPaintMode::VG_STROKE_PATH => 1,
            VGPaintMode::VG_FILL_PATH => 2,
        }
    }
}

/// Operations that a path allows (bit flags).
#[allow(non_camel_case_types)]
#[derive(Clone, Copy, Debug, PartialEq, Eq, Structural)]
pub enum VGPathCapabilities {
    VG_PATH_CAPABILITY_APPEND_FROM,
    VG_PATH_CAPABILITY_APPEND_TO,
    VG_PATH_CAPABILITY_MODIFY,
    VG_PATH_CAPABILITY_TRANSFORM_FROM,
    VG_PATH_CAPABILITY_TRANSFORM_TO,
    VG_PATH_CAPABILITY_INTERPOLATE_FROM,
    VG_PATH_CAPABILITY_INTERPOLATE_TO,
    VG_PATH_CAPABILITY_PATH_LENGTH,
    VG_PATH_CAPABILITY_POINT_ALONG_PATH,
    VG_PATH_CAPABILITY_TANGENT_ALONG_PATH,
    VG_PATH_CAPABILITY_PATH_BOUNDS,
    VG_PATH_CAPABILITY_PATH_TRANSFORMED_BOUNDS,
    VG_PATH_CAPABILITY_ALL,
}

impl VGPathCapabilities {
    pub open spec fn spec_code(self) -> u32 {
        match self {
            VGPathCapabilities::VG_PATH_CAPABILITY_APPEND_FROM => 1,
            VGPathCapabilities::VG_PATH_CAPABILITY_APPEND_TO => 2,
            VGPathCapabilities::VG_PATH_CAPABILITY_MODIFY => 4,
            VGPathCapabilities::VG_PATH_CAPABILITY_TRANSFORM_FROM => 8,
            VGPathCapabilities::VG_PATH_CAPABILITY_TRANSFORM_TO => 16,
            VGPathCapabilities::VG_PATH_CAPABILITY_INTERPOLATE_FROM => 32,
            VGPathCapabilities::VG_PATH_CAPABILITY_INTERPOLATE_TO => 64,
            VGPathCapabilities::VG_PATH_CAPABILITY_PATH_LENGTH => 128,
            VGPathCapabilities::VG_PATH_CAPABILITY_POINT_ALONG_PATH => 256,
            VGPathCapabilities::VG_PATH_CAPABILITY_TANGENT_ALONG_PATH => 512,
            VGPathCapabilities::VG_PATH_CAPABILITY_PATH_BOUNDS => 1024,
            VGPathCapabilities::VG_PATH_CAPABILITY_PATH_TRANSFORMED_BOUNDS => 2048,
            VGPathCapabilities::VG_PATH_CAPABILITY_ALL => 4095,
        }
    }

    /// The value that the backend expects for this parameter.
    pub fn code(&self) -> (r: u32)
        ensures
            r == self.spec_code(),
    {
        match self {
            VGPathCapabilities::VG_PATH_CAPABILITY_APPEND_FROM => 1,
            VGPathCapabilities::VG_PATH_CAPABILITY_APPEND_TO => 2,
            VGPathCapabilities::VG_PATH_CAPABILITY_MODIFY => 4,
            VGPathCapabilities::VG_PATH_CAPABILITY_TRANSFORM_FROM => 8,
            VGPathCapabilities::VG_PATH_CAPABILITY_TRANSFORM_TO => 16,
            VGPathCapabilities::VG_PATH_CAPABILITY_INTERPOLATE_FROM => 32,
            VGPathCapabilities::VG_PATH_CAPABILITY_INTERPOLATE_TO => 64,
            VGPathCapabilities::VG_PATH_CAPABILITY_PATH_LENGTH => 128,
            VGPathCapabilities::VG_PATH_CAPABILITY_POINT_ALONG_PATH => 256,
            VGPathCapabilities::VG_PATH_CAPABILITY_TANGENT_ALONG_PATH => 512,
            VGPathCapabilities::VG_PATH_CAPABILITY_PATH_BOUNDS => 1024,
            VGPathCapabilities::VG_PATH_CAPABILITY_PATH_TRANSFORMED_BOUNDS => 2048,
            VGPathCapabilities::VG_PATH_CAPABILITY_ALL => 4095,
        }
    }
}

/// Parameters of a paint object.
#[allow(non_camel_case_types)]
#[derive(Clone, Copy, Debug, PartialEq, Eq, Structural)]
pub enum VGPaintParamType {
    VG_PAINT_TYPE,
    VG_PAINT_COLOR,
    VG_PAINT_COLOR_RAMP_SPREAD_MODE,
    VG_PAINT_COLOR_RAMP_PREMULTIPLIED,
    VG_PAINT_COLOR_RAMP_STOPS,
    VG_PAINT_LINEAR_GRADIENT,
    VG_PAINT_RADIAL_GRADIENT,
    VG_PAINT_PATTERN_TILING_MODE,
}

impl VGPaintParamType {
    pub open spec fn spec_code(self) -> u32 {
        match self {
            VGPaintParamType::VG_PAINT_TYPE => 0x1A00,
            VGPaintParamType::VG_PAINT_COLOR => 0x1A01,
            VGPaintParamType::VG_PAINT_COLOR_RAMP_SPREAD_MODE => 0x1A02,
            VGPaintParamType::VG_PAINT_COLOR_RAMP_PREMULTIPLIED => 0x1A07,
            VGPaintParamType::VG_PAINT_COLOR_RAMP_STOPS => 0x1A03,
            VGPaintParamType::VG_PAINT_LINEAR_GRADIENT => 0x1A04,
            VGPaintParamType::VG_PAINT_RADIAL_GRADIENT => 0x1A05,
            VGPaintParamType::VG_PAINT_PATTERN_TILING_MODE => 0x1A06,
        }
    }

    /// The value that the backend expects for this parameter.
    pub fn code(&self) -> (r: u32)
        ensures
            r == self.spec_code(),
    {
        match self {
            VGPaintParamType::VG_PAINT_TYPE => 0x1A00,
            VGPaintParamType::VG_PAINT_COLOR => 0x1A01,
            VGPaintParamType::VG_PAINT_COLOR_RAMP_SPREAD_MODE => 0x1A02,
            VGPaintParamType::VG_PAINT_COLOR_RAMP_PREMULTIPLIED => 0x1A07,
            VGPaintParamType::VG_PAINT_COLOR_RAMP_STOPS => 0x1A03,
            VGPaintParamType::VG_PAINT_LINEAR_GRADIENT => 0x1A04,
            VGPaintParamType::VG_PAINT_RADIAL_GRADIENT => 0x1A05,
            VGPaintParamType::VG_PAINT_PATTERN_TILING_MODE => 0x1A06,
        }
    }
}

/// Kinds of paint.
#[allow(non_camel_case_types)]
#[derive(Clone, Copy, Debug, PartialEq, Eq, Structural)]
pub enum VGPaintType {
    VG_PAINT_TYPE_COLOR,
    VG_PAINT_TYPE_LINEAR_GRADIENT,
    VG_PAINT_TYPE_RADIAL_GRADIENT,
    VG_PAINT_TYPE_PATTERN,
}

impl VGPaintType {
    pub open spec fn spec_code(self) -> u32 {
        match self {
            VGPaintType::VG_PAINT_TYPE_COLOR => 0x1B00,
            VGPaintType::VG_PAINT_TYPE_LINEAR_GRADIENT => 0x1B01,
            VGPaintType::VG_PAINT_TYPE_RADIAL_GRADIENT => 0x1B02,
            VGPaintType::VG_PAINT_TYPE_PATTERN => 0x1B03,
        }
    }

    /// The value that the backend expects for this parameter.
    pub fn code(&self) -> (r: u32)
        ensures
            r == self.spec_code(),
    {
        match self {
            VGPaintType::VG_PAINT_TYPE_COLOR => 0x1B00,
            VGPaintType::VG_PAINT_TYPE_LINEAR_GRADIENT => 0x1B01,
            VGPaintType::VG_PAINT_TYPE_RADIAL_GRADIENT => 0x1B02,
            VGPaintType::VG_PAINT_TYPE_PATTERN => 0x1B03,
        }
    }
}

/// Whether a colour is set for strokes or for fills.
#[derive(Clone, Copy, Debug, PartialEq, Eq, Structural)]
pub enum PaintMode {
    Stroke,
    Fill,
}

impl PaintMode {
    pub open spec fn spec_to_vg(self) -> VGPaintMode {
        match self {
            PaintMode::Stroke => VGPaintMode::VG_STROKE_PATH,
            PaintMode::Fill => VGPaintMode::VG_FILL_PATH,
        }
    }

    /// The backend's paint mode for this mode.
    pub fn to_vg(&self) -> (r: VGPaintMode)
        ensures
            r == self.spec_to_vg(),
    {
        match self {
            PaintMode::Stroke => VGPaintMode::VG_STROKE_PATH,
            PaintMode::Fill => VGPaintMode::VG_FILL_PATH,
        }
    }
}

} // verus!
