//! The parameters a program object can be queried for, one marker type per
//! parameter, so a query's numeric tag and its value type travel together.

use vstd::prelude::*;

verus! {

/// A parameter accepted by the external API's program query call. `Value`
/// is the type the query fills in.
pub trait GetProgramivParam {
    type Value;

    /// The numeric tag the external API documents for this parameter.
    spec fn spec_u32() -> u32;

    /// The numeric tag, for query calls into the external API.
    fn as_u32() -> (r: u32)
        ensures
            r == Self::spec_u32(),
    ;
}

/// Whether the program is currently flagged for deletion.
pub struct DeleteStatus();

impl GetProgramivParam for DeleteStatus {
    type Value = i32;

    closed spec fn spec_u32() -> u32 {
        0x8B80
    }

    fn as_u32() -> (r: u32)
        ensures
            r == Self::spec_u32(),
    {
        0x8B80
    }
}

/// Whether the last link operation on the program was successful.
pub struct LinkStatus();

impl GetProgramivParam for LinkStatus {
    type Value = i32;

    closed spec fn spec_u32() -> u32 {
        0x8B82
    }

    fn as_u32() -> (r: u32)
        ensures
            r == Self::spec_u32(),
    {
        0x8B82
    }
}

/// Whether the last validation operation on the program was successful.
pub struct ValidateStatus();

impl GetProgramivParam for ValidateStatus {
    type Value = i32;

    closed spec fn spec_u32() -> u32 {
        0x8B83
    }

    fn as_u32() -> (r: u32)
        ensures
            r == Self::spec_u32(),
    {
        0x8B83
    }
}

/// The number of characters in the program's information log, including the
/// terminating null; zero when there is no log.
pub struct InfoLogLength();

impl GetProgramivParam for InfoLogLength {
    type Value = i32;

    closed spec fn spec_u32() -> u32 {
        0x8B84
    }

    fn as_u32() -> (r: u32)
        ensures
            r == Self::spec_u32(),
    {
        0x8B84
    }
}

/// The number of shader objects attached to the program.
pub struct AttachedShaders();

impl GetProgramivParam for AttachedShaders {
    type Value = i32;

    closed spec fn spec_u32() -> u32 {
        0x8B85
    }

    fn as_u32() -> (r: u32)
        ensures
            r == Self::spec_u32(),
    {
        0x8B85
    }
}

/// The number of active atomic counter buffers used by the program.
pub struct ActiveAtomicCounterBuffers();

impl GetProgramivParam for ActiveAtomicCounterBuffers {
    type Value = i32;

    closed spec fn spec_u32() -> u32 {
        0x92D9
    }

    fn as_u32() -> (r: u32)
        ensures
            r == Self::spec_u32(),
    {
        0x92D9
    }
}

/// The number of active attribute variables in the program.
pub struct ActiveAttributes();

impl GetProgramivParam for ActiveAttributes {
    type Value = i32;

    closed spec fn spec_u32() -> u32 {
        0x8B89
    }

    fn as_u32() -> (r: u32)
        ensures
            r == Self::spec_u32(),
    {
        0x8B89
    }
}

/// The length of the longest active attribute name, including the
/// terminating null.
pub struct ActiveAttributeMaxLength();

impl GetProgramivParam for ActiveAttributeMaxLength {
    type Value = i32;

    closed spec fn spec_u32() -> u32 {
        0x8B8A
    }

    fn as_u32() -> (r: u32)
        ensures
            r == Self::spec_u32(),
    {
        0x8B8A
    }
}

/// The number of active uniform variables in the program.
pub struct ActiveUniforms();

impl GetProgramivParam for ActiveUniforms {
    type Value = i32;

    closed spec fn spec_u32() -> u32 {
        0x8B86
    }

    fn as_u32() -> (r: u32)
        ensures
            r == Self::spec_u32(),
    {
        0x8B86
    }
}

/// The length of the longest active uniform variable name, including the
/// terminating null.
pub struct ActiveUniformMaxLength();

impl GetProgramivParam for ActiveUniformMaxLength {
    type Value = i32;

    closed spec fn spec_u32() -> u32 {
        0x8B87
    }

    fn as_u32() -> (r: u32)
        ensures
            r == Self::spec_u32(),
    {
        0x8B87
    }
}

/// The length in bytes of the program binary; zero while the program is not
/// successfully linked.
pub struct ProgramBinaryLength();

impl GetProgramivParam for ProgramBinaryLength {
    type Value = i32;

    closed spec fn spec_u32() -> u32 {
        0x8741
    }

    fn as_u32() -> (r: u32)
        ensures
            r == Self::spec_u32(),
    {
        0x8741
    }
}

/// The local work group size of a linked compute program.
pub struct ComputeWorkGroupSize();

impl GetProgramivParam for ComputeWorkGroupSize {
    type Value = [i32; 3];

    closed spec fn spec_u32() -> u32 {
        0x8267
    }

    fn as_u32() -> (r: u32)
        ensures
            r == Self::spec_u32(),
    {
        0x8267
    }
}

/// The buffer mode used when transform feedback is active.
pub struct TransformFeedbackBufferMode();

impl GetProgramivParam for TransformFeedbackBufferMode {
    type Value = i32;

    closed spec fn spec_u32() -> u32 {
        0x8C7F
    }

    fn as_u32() -> (r: u32)
        ensures
            r == Self::spec_u32(),
    {
        0x8C7F
    }
}

/// The number of varying variables captured in transform feedback mode.
pub struct TransformFeedbackVaryings();

impl GetProgramivParam for TransformFeedbackVaryings {
    type Value = i32;

    closed spec fn spec_u32() -> u32 {
        0x8C83
    }

    fn as_u32() -> (r: u32)
        ensures
            r == Self::spec_u32(),
    {
        0x8C83
    }
}

/// The length of the longest transform feedback varying name, including the
/// terminating null.
pub struct TransformFeedbackVaryingMaxLength();

impl GetProgramivParam for TransformFeedbackVaryingMaxLength {
    type Value = i32;

    closed spec fn spec_u32() -> u32 {
        0x8C76
    }

    fn as_u32() -> (r: u32)
        ensures
            r == Self::spec_u32(),
    {
        0x8C76
    }
}

/// The maximum number of vertices the program's geometry shader will emit.
pub struct GeometryVerticesOut();

impl GetProgramivParam for GeometryVerticesOut {
    type Value = i32;

    closed spec fn spec_u32() -> u32 {
        0x8916
    }

    fn as_u32() -> (r: u32)
        ensures
            r == Self::spec_u32(),
    {
        0x8916
    }
}

/// The primitive type accepted as input by the program's geometry shader.
pub struct GeometryInputType();

impl GetProgramivParam for GeometryInputType {
    type Value = i32;

    closed spec fn spec_u32() -> u32 {
        0x8917
    }

    fn as_u32() -> (r: u32)
        ensures
            r == Self::spec_u32(),
    {
        0x8917
    }
}

/// The primitive type emitted by the program's geometry shader.
pub struct GeometryOutputType();

impl GetProgramivParam for GeometryOutputType {
    type Value = i32;

    closed spec fn spec_u32() -> u32 {
        0x8918
    }

    fn as_u32() -> (r: u32)
        ensures
            r == Self::spec_u32(),
    {
        0x8918
    }
}

} // verus!
