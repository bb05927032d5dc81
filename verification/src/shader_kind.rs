//! The closed set of shader stages, each with the numeric tag the external
//! graphics API assigns to it.

use vstd::prelude::*;

verus! {

/// A shader stage.
#[derive(Clone, Copy, PartialEq, Eq, Structural)]
pub enum ShaderKind {
    Compute,
    Fragment,
    Geometry,
    Vertex,
    TesselationControl,
    TesselationEvaluation,
}

impl ShaderKind {
    /// The numeric tag the external API documents for this stage.
    pub open spec fn spec_u32(&self) -> u32 {
        match *self {
            ShaderKind::Compute => 0x91B9,
            ShaderKind::Fragment => 0x8B30,
            ShaderKind::Geometry => 0x8DD9,
            ShaderKind::Vertex => 0x8B31,
            ShaderKind::TesselationControl => 0x8E88,
            ShaderKind::TesselationEvaluation => 0x8E87,
        }
    }

    /// The numeric tag, for creation calls into the external API.
    pub fn as_u32(&self) -> (r: u32)
        ensures
            r == self.spec_u32(),
    {
        match *self {
            ShaderKind::Compute => 0x91B9,
            ShaderKind::Fragment => 0x8B30,
            ShaderKind::Geometry => 0x8DD9,
            ShaderKind::Vertex => 0x8B31,
            ShaderKind::TesselationControl => 0x8E88,
            ShaderKind::TesselationEvaluation => 0x8E87,
        }
    }
}

} // verus!
