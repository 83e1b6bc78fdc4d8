//! The guarantees of the translation, stated and proved as public proof
//! functions over the spec functions in [`crate::translate`].
//!
//! Together they establish: the mapping is a stable function of its argument
//! alone; on the enumerations it is one-to-one (information-preserving), with
//! the storage address space one-to-one up to the two access flags actually
//! decoded; every flag combination is representable; optional modes propagate
//! their absence; and every non-scalar constant falls back to the `Unknown`
//! sentinel.

use vstd::prelude::*;

use crate::ir;
use crate::ir::STORAGE_ACCESS_LOAD;
use crate::ir::STORAGE_ACCESS_STORE;
use crate::schema;
use crate::translate::spec_build_address_space;
use crate::translate::spec_build_binding;
use crate::translate::spec_build_builtin;
use crate::translate::spec_build_expression;
use crate::translate::spec_build_interpolation;
use crate::translate::spec_build_sampling;
use crate::translate::spec_map_interpolation;
use crate::translate::spec_map_sampling;

verus! {

/// Translating the same address-space tag twice yields the same result.
pub proof fn lemma_build_address_space_stable(
    a: ir::AddressSpace,
    r1: schema::AddressSpace,
    r2: schema::AddressSpace,
)
    requires
        r1 == spec_build_address_space(a),
        r2 == spec_build_address_space(a),
    ensures
        r1 == r2,
{
}

/// Translating the same I/O binding twice yields the same result.
pub proof fn lemma_build_binding_stable(b: ir::Binding, r1: schema::Binding, r2: schema::Binding)
    requires
        r1 == spec_build_binding(b),
        r2 == spec_build_binding(b),
    ensures
        r1 == r2,
{
}

/// Translating the same built-in tag twice yields the same result.
pub proof fn lemma_build_builtin_stable(b: ir::BuiltIn, r1: schema::BuiltIn, r2: schema::BuiltIn)
    requires
        r1 == spec_build_builtin(b),
        r2 == spec_build_builtin(b),
    ensures
        r1 == r2,
{
}

/// Translating the same interpolation mode twice yields the same result.
pub proof fn lemma_build_interpolation_stable(
    i: ir::Interpolation,
    r1: schema::Interpolation,
    r2: schema::Interpolation,
)
    requires
        r1 == spec_build_interpolation(i),
        r2 == spec_build_interpolation(i),
    ensures
        r1 == r2,
{
}

/// Translating the same sampling mode twice yields the same result.
pub proof fn lemma_build_sampling_stable(s: ir::Sampling, r1: schema::Sampling, r2: schema::Sampling)
    requires
        r1 == spec_build_sampling(s),
        r2 == spec_build_sampling(s),
    ensures
        r1 == r2,
{
}

/// Translating the same constant twice yields the same result: the
/// `Unknown` fallback, like every other outcome, is deterministic.
pub proof fn lemma_build_expression_stable(
    c: ir::ConstantInner,
    r1: schema::Expression,
    r2: schema::Expression,
)
    requires
        r1 == spec_build_expression(c),
        r2 == spec_build_expression(c),
    ensures
        r1 == r2,
{
}

/// The built-in remap is one-to-one: distinct source tags (or distinct
/// `Position` payloads) never collapse to the same destination value.
pub proof fn lemma_build_builtin_injective(a: ir::BuiltIn, b: ir::BuiltIn)
    requires
        spec_build_builtin(a) == spec_build_builtin(b),
    ensures
        a == b,
{
}

/// The built-in remap reaches every destination tag: together with
/// injectivity, the mapping is a bijection on the built-in enumeration.
pub proof fn lemma_build_builtin_surjective(y: schema::BuiltIn)
    ensures
        exists|x: ir::BuiltIn| spec_build_builtin(x) == y,
{
    match y {
        schema::BuiltIn::Position { invariant } => {
            assert(spec_build_builtin(ir::BuiltIn::Position { invariant }) == y);
        },
        schema::BuiltIn::ViewIndex => {
            assert(spec_build_builtin(ir::BuiltIn::ViewIndex) == y);
        },
        schema::BuiltIn::BaseInstance => {
            assert(spec_build_builtin(ir::BuiltIn::BaseInstance) == y);
        },
        schema::BuiltIn::BaseVertex => {
            assert(spec_build_builtin(ir::BuiltIn::BaseVertex) == y);
        },
        schema::BuiltIn::ClipDistance => {
            assert(spec_build_builtin(ir::BuiltIn::ClipDistance) == y);
        },
        schema::BuiltIn::CullDistance => {
            assert(spec_build_builtin(ir::BuiltIn::CullDistance) == y);
        },
        schema::BuiltIn::InstanceIndex => {
            assert(spec_build_builtin(ir::BuiltIn::InstanceIndex) == y);
        },
        schema::BuiltIn::PointSize => {
            assert(spec_build_builtin(ir::BuiltIn::PointSize) == y);
        },
        schema::BuiltIn::VertexIndex => {
            assert(spec_build_builtin(ir::BuiltIn::VertexIndex) == y);
        },
        schema::BuiltIn::FragDepth => {
            assert(spec_build_builtin(ir::BuiltIn::FragDepth) == y);
        },
        schema::BuiltIn::PointCoord => {
            assert(spec_build_builtin(ir::BuiltIn::PointCoord) == y);
        },
        schema::BuiltIn::FrontFacing => {
            assert(spec_build_builtin(ir::BuiltIn::FrontFacing) == y);
        },
        schema::BuiltIn::PrimitiveIndex => {
            assert(spec_build_builtin(ir::BuiltIn::PrimitiveIndex) == y);
        },
        schema::BuiltIn::SampleIndex => {
            assert(spec_build_builtin(ir::BuiltIn::SampleIndex) == y);
        },
        schema::BuiltIn::SampleMask => {
            assert(spec_build_builtin(ir::BuiltIn::SampleMask) == y);
        },
        schema::BuiltIn::GlobalInvocationId => {
            assert(spec_build_builtin(ir::BuiltIn::GlobalInvocationId) == y);
        },
        schema::BuiltIn::LocalInvocationId => {
            assert(spec_build_builtin(ir::BuiltIn::LocalInvocationId) == y);
        },
        schema::BuiltIn::LocalInvocationIndex => {
            assert(spec_build_builtin(ir::BuiltIn::LocalInvocationIndex) == y);
        },
        schema::BuiltIn::WorkGroupId => {
            assert(spec_build_builtin(ir::BuiltIn::WorkGroupId) == y);
        },
        schema::BuiltIn::WorkGroupSize => {
            assert(spec_build_builtin(ir::BuiltIn::WorkGroupSize) == y);
        },
        schema::BuiltIn::NumWorkGroups => {
            assert(spec_build_builtin(ir::BuiltIn::NumWorkGroups) == y);
        },
    }
}

/// The interpolation remap is one-to-one.
pub proof fn lemma_build_interpolation_injective(a: ir::Interpolation, b: ir::Interpolation)
    requires
        spec_build_interpolation(a) == spec_build_interpolation(b),
    ensures
        a == b,
{
}

/// The sampling remap is one-to-one.
pub proof fn lemma_build_sampling_injective(a: ir::Sampling, b: ir::Sampling)
    requires
        spec_build_sampling(a) == spec_build_sampling(b),
    ensures
        a == b,
{
}

/// Mapping an optional interpolation mode is one-to-one.
pub proof fn lemma_map_interpolation_injective(
    a: Option<ir::Interpolation>,
    b: Option<ir::Interpolation>,
)
    requires
        spec_map_interpolation(a) == spec_map_interpolation(b),
    ensures
        a == b,
{
    match (a, b) {
        (Some(x), Some(y)) => {
            lemma_build_interpolation_injective(x, y);
        },
        _ => {},
    }
}

/// Mapping an optional sampling mode is one-to-one.
pub proof fn lemma_map_sampling_injective(a: Option<ir::Sampling>, b: Option<ir::Sampling>)
    requires
        spec_map_sampling(a) == spec_map_sampling(b),
    ensures
        a == b,
{
    match (a, b) {
        (Some(x), Some(y)) => {
            lemma_build_sampling_injective(x, y);
        },
        _ => {},
    }
}

/// The I/O binding translation is one-to-one: no information of the source
/// binding is lost (the constant `second_blend_source` field adds none).
pub proof fn lemma_build_binding_injective(a: ir::Binding, b: ir::Binding)
    requires
        spec_build_binding(a) == spec_build_binding(b),
    ensures
        a == b,
{
    match (a, b) {
        (ir::Binding::BuiltIn(x), ir::Binding::BuiltIn(y)) => {
            lemma_build_builtin_injective(x, y);
        },
        (
            ir::Binding::Location { interpolation: i1, sampling: s1, .. },
            ir::Binding::Location { interpolation: i2, sampling: s2, .. },
        ) => {
            lemma_map_interpolation_injective(i1, i2);
            lemma_map_sampling_injective(s1, s2);
        },
        _ => {},
    }
}

/// The address-space translation is one-to-one on the information it
/// decodes: distinct tags never collapse, and two storage flag sets that
/// hold no bits beyond the load and store flags are recovered exactly from
/// the two booleans.
pub proof fn lemma_build_address_space_injective(a: ir::AddressSpace, b: ir::AddressSpace)
    requires
        spec_build_address_space(a) == spec_build_address_space(b),
        a matches ir::AddressSpace::Storage { access } ==> access.bits & (STORAGE_ACCESS_LOAD
            | STORAGE_ACCESS_STORE) == access.bits,
        b matches ir::AddressSpace::Storage { access } ==> access.bits & (STORAGE_ACCESS_LOAD
            | STORAGE_ACCESS_STORE) == access.bits,
    ensures
        a == b,
{
    match (a, b) {
        (ir::AddressSpace::Storage { access: x }, ir::AddressSpace::Storage { access: y }) => {
            let xb = x.bits;
            let yb = y.bits;
            assert(xb == yb) by (bit_vector)
                requires
                    xb & (STORAGE_ACCESS_LOAD | STORAGE_ACCESS_STORE) == xb,
                    yb & (STORAGE_ACCESS_LOAD | STORAGE_ACCESS_STORE) == yb,
                    (xb & STORAGE_ACCESS_LOAD != 0) == (yb & STORAGE_ACCESS_LOAD != 0),
                    (xb & STORAGE_ACCESS_STORE != 0) == (yb & STORAGE_ACCESS_STORE != 0),
            ;
        },
        _ => {},
    }
}

/// Every combination of the two storage flags is independently
/// representable: the flag set built from any pair of booleans translates
/// to exactly that pair.
pub proof fn lemma_storage_flags_representable(load: bool, store: bool)
    ensures
        spec_build_address_space(
            ir::AddressSpace::Storage { access: ir::StorageAccess::spec_from_flags(load, store) },
        ) == (schema::AddressSpace::Storage { load, store }),
{
    let bits = ir::StorageAccess::spec_from_flags(load, store).bits;
    if load {
        if store {
            assert(bits == STORAGE_ACCESS_LOAD | STORAGE_ACCESS_STORE);
            assert((STORAGE_ACCESS_LOAD | STORAGE_ACCESS_STORE) & STORAGE_ACCESS_LOAD != 0)
                by (bit_vector);
            assert((STORAGE_ACCESS_LOAD | STORAGE_ACCESS_STORE) & STORAGE_ACCESS_STORE != 0)
                by (bit_vector);
        } else {
            assert(bits == STORAGE_ACCESS_LOAD | 0u32);
            assert((STORAGE_ACCESS_LOAD | 0u32) & STORAGE_ACCESS_LOAD != 0) by (bit_vector);
            assert((STORAGE_ACCESS_LOAD | 0u32) & STORAGE_ACCESS_STORE == 0) by (bit_vector);
        }
    } else {
        if store {
            assert(bits == 0u32 | STORAGE_ACCESS_STORE);
            assert((0u32 | STORAGE_ACCESS_STORE) & STORAGE_ACCESS_LOAD == 0) by (bit_vector);
            assert((0u32 | STORAGE_ACCESS_STORE) & STORAGE_ACCESS_STORE != 0) by (bit_vector);
        } else {
            assert(bits == 0u32 | 0u32);
            assert((0u32 | 0u32) & STORAGE_ACCESS_LOAD == 0) by (bit_vector);
            assert((0u32 | 0u32) & STORAGE_ACCESS_STORE == 0) by (bit_vector);
        }
    }
}

/// Absence of an optional mode propagates as absence, and presence as
/// presence: a location binding's translation keeps the location, emits
/// `second_blend_source` as `false`, and maps each optional mode under
/// `Some` without ever substituting a default.
pub proof fn lemma_optionality_propagation(binding: ir::Binding)
    ensures
        binding matches ir::Binding::Location { location, interpolation, sampling }
            ==> spec_build_binding(binding) == (schema::Binding::Location {
            location,
            second_blend_source: false,
            interpolation: spec_map_interpolation(interpolation),
            sampling: spec_map_sampling(sampling),
        }) && (spec_map_interpolation(interpolation) is Some <==> interpolation is Some) && (
        spec_map_sampling(sampling) is Some <==> sampling is Some),
{
}

/// Every constant that is not a scalar — whatever its shape — translates
/// to the `Unknown` sentinel: the fallback is explicit, total and never a
/// failure.
pub proof fn lemma_lossy_fallback(constant_inner: ir::ConstantInner)
    requires
        constant_inner !is Scalar,
    ensures
        spec_build_expression(constant_inner) is Unknown,
{
}

} // verus!
