//! The destination universe: the stable, documentation-oriented vocabulary
//! that the translation produces.
//!
//! The types mirror their source counterparts in [`crate::ir`], with two
//! deliberate differences: the storage address space materializes its access
//! flags as two named booleans, and a location binding carries a
//! `second_blend_source` field that the translation always emits as `false`
//! (the field exists in the schema for future use; nothing in the source IR
//! derives it yet). A floating-point literal is carried as the IEEE-754 bit
//! pattern of the 64-bit value, copied verbatim from the source.

use vstd::prelude::*;

verus! {

/// A literal constant value.
///
/// `F64` holds the IEEE-754 bit pattern of the 64-bit value.
#[derive(Clone, Copy, Debug, PartialEq, Eq)]
pub enum Literal {
    I64(i64),
    U64(u64),
    F64(u64),
    Bool(bool),
}

/// A constant expression: a literal, or the sentinel for any constant shape
/// the schema does not represent. `Unknown` is an expected value, not an
/// error: it marks information intentionally left unmodeled.
#[derive(Clone, Copy, Debug, PartialEq, Eq)]
pub enum Expression {
    Literal(Literal),
    Unknown,
}

/// A resource binding slot: a bind group index and a binding index.
#[derive(Clone, Copy, Debug, PartialEq, Eq)]
pub struct ResourceBinding {
    pub group: u32,
    pub binding: u32,
}

/// A memory address-space tag. `Storage` carries its access flags as two
/// named booleans; all four flag combinations are representable.
#[derive(Clone, Copy, Debug, PartialEq, Eq)]
pub enum AddressSpace {
    Function,
    Private,
    WorkGroup,
    Uniform,
    Storage { load: bool, store: bool },
    Handle,
    PushConstant,
}

/// An interpolation mode for a location-bound value.
#[derive(Clone, Copy, Debug, PartialEq, Eq)]
pub enum Interpolation {
    Perspective,
    Linear,
    Flat,
}

/// A sampling mode for a location-bound value.
#[derive(Clone, Copy, Debug, PartialEq, Eq)]
pub enum Sampling {
    Center,
    Centroid,
    Sample,
}

/// A built-in shader-stage semantic tag. `Position` carries its
/// `invariant` flag; every other variant is payload-free.
#[derive(Clone, Copy, Debug, PartialEq, Eq)]
pub enum BuiltIn {
    Position { invariant: bool },
    ViewIndex,
    BaseInstance,
    BaseVertex,
    ClipDistance,
    CullDistance,
    InstanceIndex,
    PointSize,
    VertexIndex,
    FragDepth,
    PointCoord,
    FrontFacing,
    PrimitiveIndex,
    SampleIndex,
    SampleMask,
    GlobalInvocationId,
    LocalInvocationId,
    LocalInvocationIndex,
    WorkGroupId,
    WorkGroupSize,
    NumWorkGroups,
}

/// An I/O binding: either a built-in semantic tag, or a numbered location
/// with optional interpolation and sampling modes. Absence of a mode in the
/// source propagates as absence here, never as a default variant.
#[derive(Clone, Copy, Debug, PartialEq, Eq)]
pub enum Binding {
    BuiltIn(BuiltIn),
    Location {
        location: u32,
        second_blend_source: bool,
        interpolation: Option<Interpolation>,
        sampling: Option<Sampling>,
    },
}

} // verus!
