//! The translation functions: six total, pure mappings from the source
//! universe in [`crate::ir`] to the destination vocabulary in
//! [`crate::schema`].
//!
//! Each executable function is specified against a spec function that states
//! the whole mapping, variant by variant, so the contract pins the result for
//! every input. Every mapping is total: no input is rejected and no branch
//! can fail. The matches are exhaustive over the closed source enumerations,
//! so a new source variant forces a visible change here rather than a silent
//! runtime default.

use vstd::prelude::*;

use crate::ir;
use crate::schema;

verus! {

/// The literal produced for a scalar constant value: the corresponding
/// variant tag, with the payload copied unchanged.
pub open spec fn spec_build_literal(value: ir::ScalarValue) -> schema::Literal {
    match value {
        ir::ScalarValue::Sint(v) => schema::Literal::I64(v),
        ir::ScalarValue::Uint(v) => schema::Literal::U64(v),
        ir::ScalarValue::Float(v) => schema::Literal::F64(v),
        ir::ScalarValue::Bool(v) => schema::Literal::Bool(v),
    }
}

/// The expression produced for a constant: a literal for a scalar (the
/// scalar's byte width is not part of the schema and is dropped), and the
/// `Unknown` sentinel for every other constant shape.
pub open spec fn spec_build_expression(constant_inner: ir::ConstantInner) -> schema::Expression {
    match constant_inner {
        ir::ConstantInner::Scalar { width: _, value } => (schema::Expression::Literal(
            spec_build_literal(value),
        )),
        ir::ConstantInner::Composite => schema::Expression::Unknown,
    }
}

/// The resource binding produced: both indices copied unchanged.
pub open spec fn spec_build_resource_binding(binding: ir::ResourceBinding) -> schema::ResourceBinding {
    schema::ResourceBinding { group: binding.group, binding: binding.binding }
}

/// The address space produced: a one-to-one tag remap, with the storage
/// access-flag set decoded into the two named booleans.
pub open spec fn spec_build_address_space(address_space: ir::AddressSpace) -> schema::AddressSpace {
    match address_space {
        ir::AddressSpace::Function => schema::AddressSpace::Function,
        ir::AddressSpace::Private => schema::AddressSpace::Private,
        ir::AddressSpace::WorkGroup => schema::AddressSpace::WorkGroup,
        ir::AddressSpace::Uniform => schema::AddressSpace::Uniform,
        ir::AddressSpace::Storage { access } => (schema::AddressSpace::Storage {
            load: access.spec_contains_load(),
            store: access.spec_contains_store(),
        }),
        ir::AddressSpace::Handle => schema::AddressSpace::Handle,
        ir::AddressSpace::PushConstant => schema::AddressSpace::PushConstant,
    }
}

/// The built-in tag produced: a one-to-one remap across all variants, with
/// the `invariant` flag of `Position` carried through unchanged.
pub open spec fn spec_build_builtin(builtin: ir::BuiltIn) -> schema::BuiltIn {
    match builtin {
        ir::BuiltIn::Position { invariant } => schema::BuiltIn::Position { invariant },
        ir::BuiltIn::ViewIndex => schema::BuiltIn::ViewIndex,
        ir::BuiltIn::BaseInstance => schema::BuiltIn::BaseInstance,
        ir::BuiltIn::BaseVertex => schema::BuiltIn::BaseVertex,
        ir::BuiltIn::ClipDistance => schema::BuiltIn::ClipDistance,
        ir::BuiltIn::CullDistance => schema::BuiltIn::CullDistance,
        ir::BuiltIn::InstanceIndex => schema::BuiltIn::InstanceIndex,
        ir::BuiltIn::PointSize => schema::BuiltIn::PointSize,
        ir::BuiltIn::VertexIndex => schema::BuiltIn::VertexIndex,
        ir::BuiltIn::FragDepth => schema::BuiltIn::FragDepth,
        ir::BuiltIn::PointCoord => schema::BuiltIn::PointCoord,
        ir::BuiltIn::FrontFacing => schema::BuiltIn::FrontFacing,
        ir::BuiltIn::PrimitiveIndex => schema::BuiltIn::PrimitiveIndex,
        ir::BuiltIn::SampleIndex => schema::BuiltIn::SampleIndex,
        ir::BuiltIn::SampleMask => schema::BuiltIn::SampleMask,
        ir::BuiltIn::GlobalInvocationId => schema::BuiltIn::GlobalInvocationId,
        ir::BuiltIn::LocalInvocationId => schema::BuiltIn::LocalInvocationId,
        ir::BuiltIn::LocalInvocationIndex => schema::BuiltIn::LocalInvocationIndex,
        ir::BuiltIn::WorkGroupId => schema::BuiltIn::WorkGroupId,
        ir::BuiltIn::WorkGroupSize => schema::BuiltIn::WorkGroupSize,
        ir::BuiltIn::NumWorkGroups => schema::BuiltIn::NumWorkGroups,
    }
}

/// The interpolation mode produced: a one-to-one tag remap.
pub open spec fn spec_build_interpolation(interpolation: ir::Interpolation) -> schema::Interpolation {
    match interpolation {
        ir::Interpolation::Perspective => schema::Interpolation::Perspective,
        ir::Interpolation::Linear => schema::Interpolation::Linear,
        ir::Interpolation::Flat => schema::Interpolation::Flat,
    }
}

/// The sampling mode produced: a one-to-one tag remap.
pub open spec fn spec_build_sampling(sampling: ir::Sampling) -> schema::Sampling {
    match sampling {
        ir::Sampling::Center => schema::Sampling::Center,
        ir::Sampling::Centroid => schema::Sampling::Centroid,
        ir::Sampling::Sample => schema::Sampling::Sample,
    }
}

/// An optional interpolation mode, mapped under `Some`: absence propagates
/// as absence, never as a default variant.
pub open spec fn spec_map_interpolation(interpolation: Option<ir::Interpolation>) -> Option<
    schema::Interpolation,
> {
    match interpolation {
        Some(i) => Some(spec_build_interpolation(i)),
        None => None,
    }
}

/// An optional sampling mode, mapped under `Some`: absence propagates as
/// absence, never as a default variant.
pub open spec fn spec_map_sampling(sampling: Option<ir::Sampling>) -> Option<schema::Sampling> {
    match sampling {
        Some(s) => Some(spec_build_sampling(s)),
        None => None,
    }
}

/// The I/O binding produced: a built-in tag is remapped; a location binding
/// copies its location, maps each optional mode under `Some`, and emits
/// `second_blend_source` as `false` (the source IR carries nothing to
/// derive it from).
pub open spec fn spec_build_binding(binding: ir::Binding) -> schema::Binding {
    match binding {
        ir::Binding::BuiltIn(builtin) => schema::Binding::BuiltIn(spec_build_builtin(builtin)),
        ir::Binding::Location { location, interpolation, sampling } => (schema::Binding::Location {
            location,
            second_blend_source: false,
            interpolation: spec_map_interpolation(interpolation),
            sampling: spec_map_sampling(sampling),
        }),
    }
}

/// Translate a constant into a schema expression. Total: a scalar becomes
/// the corresponding literal with its value copied unchanged, and every
/// other constant shape becomes the `Unknown` sentinel, never a failure.
pub fn build_expression(constant_inner: &ir::ConstantInner) -> (r: schema::Expression)
    ensures
        r == spec_build_expression(*constant_inner),
{
    match constant_inner {
        ir::ConstantInner::Scalar { value, .. } => schema::Expression::Literal(
            match *value {
                ir::ScalarValue::Sint(v) => schema::Literal::I64(v),
                ir::ScalarValue::Uint(v) => schema::Literal::U64(v),
                ir::ScalarValue::Float(v) => schema::Literal::F64(v),
                ir::ScalarValue::Bool(v) => schema::Literal::Bool(v),
            },
        ),
        ir::ConstantInner::Composite => schema::Expression::Unknown,
    }
}

/// Translate a resource binding: a pure field copy, with no validation of
/// the index values.
pub fn build_resource_binding(binding: &ir::ResourceBinding) -> (r: schema::ResourceBinding)
    ensures
        r == spec_build_resource_binding(*binding),
{
    schema::ResourceBinding { group: binding.group, binding: binding.binding }
}

/// Translate an address-space tag, decoding the storage access-flag set
/// into the two named booleans. All four flag combinations pass through
/// exactly; none is rejected.
pub fn build_address_space(address_space: &ir::AddressSpace) -> (r: schema::AddressSpace)
    ensures
        r == spec_build_address_space(*address_space),
{
    match address_space {
        ir::AddressSpace::Function => schema::AddressSpace::Function,
        ir::AddressSpace::Private => schema::AddressSpace::Private,
        ir::AddressSpace::WorkGroup => schema::AddressSpace::WorkGroup,
        ir::AddressSpace::Uniform => schema::AddressSpace::Uniform,
        ir::AddressSpace::Storage { access } => schema::AddressSpace::Storage {
            load: access.contains_load(),
            store: access.contains_store(),
        },
        ir::AddressSpace::Handle => schema::AddressSpace::Handle,
        ir::AddressSpace::PushConstant => schema::AddressSpace::PushConstant,
    }
}

/// Translate an I/O binding, recursing into the built-in, interpolation and
/// sampling translations. Absence of an optional mode in the source
/// propagates as absence in the result.
pub fn build_binding(binding: &ir::Binding) -> (r: schema::Binding)
    ensures
        r == spec_build_binding(*binding),
{
    match binding {
        ir::Binding::BuiltIn(builtin) => schema::Binding::BuiltIn(build_builtin(builtin)),
        ir::Binding::Location { location, interpolation, sampling } => schema::Binding::Location {
            location: *location,
            second_blend_source: false,
            interpolation: match interpolation {
                Some(i) => Some(build_interpolation(i)),
                None => None,
            },
            sampling: match sampling {
                Some(s) => Some(build_sampling(s)),
                None => None,
            },
        },
    }
}

/// Translate a built-in semantic tag: an exhaustive one-to-one remap, with
/// the `invariant` flag of `Position` carried through unchanged.
pub fn build_builtin(builtin: &ir::BuiltIn) -> (r: schema::BuiltIn)
    ensures
        r == spec_build_builtin(*builtin),
{
    match builtin {
        ir::BuiltIn::Position { invariant } => schema::BuiltIn::Position { invariant: *invariant },
        ir::BuiltIn::ViewIndex => schema::BuiltIn::ViewIndex,
        ir::BuiltIn::BaseInstance => schema::BuiltIn::BaseInstance,
        ir::BuiltIn::BaseVertex => schema::BuiltIn::BaseVertex,
        ir::BuiltIn::ClipDistance => schema::BuiltIn::ClipDistance,
        ir::BuiltIn::CullDistance => schema::BuiltIn::CullDistance,
        ir::BuiltIn::InstanceIndex => schema::BuiltIn::InstanceIndex,
        ir::BuiltIn::PointSize => schema::BuiltIn::PointSize,
        ir::BuiltIn::VertexIndex => schema::BuiltIn::VertexIndex,
        ir::BuiltIn::FragDepth => schema::BuiltIn::FragDepth,
        ir::BuiltIn::PointCoord => schema::BuiltIn::PointCoord,
        ir::BuiltIn::FrontFacing => schema::BuiltIn::FrontFacing,
        ir::BuiltIn::PrimitiveIndex => schema::BuiltIn::PrimitiveIndex,
        ir::BuiltIn::SampleIndex => schema::BuiltIn::SampleIndex,
        ir::BuiltIn::SampleMask => schema::BuiltIn::SampleMask,
        ir::BuiltIn::GlobalInvocationId => schema::BuiltIn::GlobalInvocationId,
        ir::BuiltIn::LocalInvocationId => schema::BuiltIn::LocalInvocationId,
        ir::BuiltIn::LocalInvocationIndex => schema::BuiltIn::LocalInvocationIndex,
        ir::BuiltIn::WorkGroupId => schema::BuiltIn::WorkGroupId,
        ir::BuiltIn::WorkGroupSize => schema::BuiltIn::WorkGroupSize,
        ir::BuiltIn::NumWorkGroups => schema::BuiltIn::NumWorkGroups,
    }
}

/// Translate an interpolation mode: an exhaustive one-to-one remap.
pub fn build_interpolation(interpolation: &ir::Interpolation) -> (r: schema::Interpolation)
    ensures
        r == spec_build_interpolation(*interpolation),
{
    match interpolation {
        ir::Interpolation::Perspective => schema::Interpolation::Perspective,
        ir::Interpolation::Linear => schema::Interpolation::Linear,
        ir::Interpolation::Flat => schema::Interpolation::Flat,
    }
}

/// Translate a sampling mode: an exhaustive one-to-one remap.
pub fn build_sampling(sampling: &ir::Sampling) -> (r: schema::Sampling)
    ensures
        r == spec_build_sampling(*sampling),
{
    match sampling {
        ir::Sampling::Center => schema::Sampling::Center,
        ir::Sampling::Centroid => schema::Sampling::Centroid,
        ir::Sampling::Sample => schema::Sampling::Sample,
    }
}

} // verus!
