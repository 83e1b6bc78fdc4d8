//! The source universe: the slice of the upstream shader-IR type system that
//! the translation reads.
//!
//! These types carry, as plain values, exactly the information the mapping
//! functions inspect. A floating-point scalar is carried as the IEEE-754
//! bit pattern of the upstream `f64` value: the translation copies the value
//! verbatim and never interprets it numerically, so the bit pattern is the
//! faithful representation. The storage-access flag set is carried as its
//! raw bits, with one named constant per flag.

use vstd::prelude::*;

verus! {

/// Flag bit: the storage address space permits loads.
pub const STORAGE_ACCESS_LOAD: u32 = 1;

/// Flag bit: the storage address space permits stores.
pub const STORAGE_ACCESS_STORE: u32 = 2;

/// A set of storage-access flags, kept as raw bits.
///
/// Bits other than [`STORAGE_ACCESS_LOAD`] and [`STORAGE_ACCESS_STORE`] may
/// be present; the translation only ever tests those two.
#[derive(Clone, Copy, Debug, PartialEq, Eq)]
pub struct StorageAccess {
    pub bits: u32,
}

impl StorageAccess {
    /// Whether the load flag is set.
    pub open spec fn spec_contains_load(self) -> bool {
        self.bits & STORAGE_ACCESS_LOAD != 0
    }

    /// Whether the store flag is set.
    pub open spec fn spec_contains_store(self) -> bool {
        self.bits & STORAGE_ACCESS_STORE != 0
    }

    /// The flag set that holds exactly the given pair of flags.
    pub open spec fn spec_from_flags(load: bool, store: bool) -> StorageAccess {
        StorageAccess {
            bits: (if load {
                STORAGE_ACCESS_LOAD
            } else {
                0u32
            }) | (if store {
                STORAGE_ACCESS_STORE
            } else {
                0u32
            }),
        }
    }

    pub fn contains_load(&self) -> (r: bool)
        ensures
            r == self.spec_contains_load(),
    {
        self.bits & STORAGE_ACCESS_LOAD != 0
    }

    pub fn contains_store(&self) -> (r: bool)
        ensures
            r == self.spec_contains_store(),
    {
        self.bits & STORAGE_ACCESS_STORE != 0
    }
}

/// A scalar constant value: one signed integer, unsigned integer,
/// floating-point, or boolean payload.
///
/// `Float` holds the IEEE-754 bit pattern of the upstream 64-bit value.
#[derive(Clone, Copy, Debug, PartialEq, Eq)]
pub enum ScalarValue {
    Sint(i64),
    Uint(u64),
    Float(u64),
    Bool(bool),
}

/// The shape of a constant: a scalar with a byte width and a value, or a
/// composite (struct/array) constant, whose contents the schema does not
/// represent and the translation never reads.
#[derive(Clone, Copy, Debug, PartialEq, Eq)]
pub enum ConstantInner {
    Scalar { width: u8, value: ScalarValue },
    Composite,
}

/// A resource binding slot: a bind group index and a binding index.
#[derive(Clone, Copy, Debug, PartialEq, Eq)]
pub struct ResourceBinding {
    pub group: u32,
    pub binding: u32,
}

/// A memory address-space tag. `Storage` carries its access-flag set.
#[derive(Clone, Copy, Debug, PartialEq, Eq)]
pub enum AddressSpace {
    Function,
    Private,
    WorkGroup,
    Uniform,
    Storage { access: StorageAccess },
    Handle,
    PushConstant,
}

/// An interpolation mode for a location-bound value.
#[derive(Clone, Copy, Debug, PartialEq, Eq)]
pub enum Interpolation {
    Perspective,
    Linear,
    Flat,
}

/// A sampling mode for a location-bound value.
#[derive(Clone, Copy, Debug, PartialEq, Eq)]
pub enum Sampling {
    Center,
    Centroid,
    Sample,
}

/// A built-in shader-stage semantic tag. `Position` carries its
/// `invariant` flag; every other variant is payload-free.
#[derive(Clone, Copy, Debug, PartialEq, Eq)]
pub enum BuiltIn {
    Position { invariant: bool },
    ViewIndex,
    BaseInstance,
    BaseVertex,
    ClipDistance,
    CullDistance,
    InstanceIndex,
    PointSize,
    VertexIndex,
    FragDepth,
    PointCoord,
    FrontFacing,
    PrimitiveIndex,
    SampleIndex,
    SampleMask,
    GlobalInvocationId,
    LocalInvocationId,
    LocalInvocationIndex,
    WorkGroupId,
    WorkGroupSize,
    NumWorkGroups,
}

/// An I/O binding: either a built-in semantic tag, or a numbered location
/// with optional interpolation and sampling modes.
#[derive(Clone, Copy, Debug, PartialEq, Eq)]
pub enum Binding {
    BuiltIn(BuiltIn),
    Location {
        location: u32,
        interpolation: Option<Interpolation>,
        sampling: Option<Sampling>,
    },
}

} // verus!
