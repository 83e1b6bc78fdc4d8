use shader_doc_ir::ir;
use shader_doc_ir::schema;
use shader_doc_ir::translate::build_address_space;
use shader_doc_ir::translate::build_binding;
use shader_doc_ir::translate::build_builtin;
use shader_doc_ir::translate::build_expression;
use shader_doc_ir::translate::build_interpolation;
use shader_doc_ir::translate::build_resource_binding;
use shader_doc_ir::translate::build_sampling;

#[test]
fn literal_unsigned_round_trip() {
    let c = ir::ConstantInner::Scalar {
        width: 4,
        value: ir::ScalarValue::Uint(42),
    };
    assert_eq!(
        build_expression(&c),
        schema::Expression::Literal(schema::Literal::U64(42))
    );
}

#[test]
fn literal_signed_round_trip() {
    let c = ir::ConstantInner::Scalar {
        width: 4,
        value: ir::ScalarValue::Sint(-7),
    };
    assert_eq!(
        build_expression(&c),
        schema::Expression::Literal(schema::Literal::I64(-7))
    );
}

#[test]
fn literal_float_round_trip() {
    let c = ir::ConstantInner::Scalar {
        width: 8,
        value: ir::ScalarValue::Float(2.5f64.to_bits()),
    };
    assert_eq!(
        build_expression(&c),
        schema::Expression::Literal(schema::Literal::F64(2.5f64.to_bits()))
    );
}

#[test]
fn literal_bool_round_trip() {
    let c = ir::ConstantInner::Scalar {
        width: 1,
        value: ir::ScalarValue::Bool(true),
    };
    assert_eq!(
        build_expression(&c),
        schema::Expression::Literal(schema::Literal::Bool(true))
    );
}

#[test]
fn composite_constant_falls_back_to_unknown() {
    assert_eq!(
        build_expression(&ir::ConstantInner::Composite),
        schema::Expression::Unknown
    );
}

#[test]
fn resource_binding_copied_exactly() {
    let b = ir::ResourceBinding {
        group: 1,
        binding: 2,
    };
    let out = build_resource_binding(&b);
    assert_eq!(
        out,
        schema::ResourceBinding {
            group: 1,
            binding: 2,
        }
    );
}

#[test]
fn storage_access_all_four_combinations() {
    for (bits, load, store) in [
        (0u32, false, false),
        (ir::STORAGE_ACCESS_LOAD, true, false),
        (ir::STORAGE_ACCESS_STORE, false, true),
        (ir::STORAGE_ACCESS_LOAD | ir::STORAGE_ACCESS_STORE, true, true),
    ] {
        let a = ir::AddressSpace::Storage {
            access: ir::StorageAccess { bits },
        };
        assert_eq!(
            build_address_space(&a),
            schema::AddressSpace::Storage { load, store }
        );
    }
}

#[test]
fn address_space_tagless_variants() {
    let cases = [
        (ir::AddressSpace::Function, schema::AddressSpace::Function),
        (ir::AddressSpace::Private, schema::AddressSpace::Private),
        (ir::AddressSpace::WorkGroup, schema::AddressSpace::WorkGroup),
        (ir::AddressSpace::Uniform, schema::AddressSpace::Uniform),
        (ir::AddressSpace::Handle, schema::AddressSpace::Handle),
        (
            ir::AddressSpace::PushConstant,
            schema::AddressSpace::PushConstant,
        ),
    ];
    for (src, expected) in cases {
        assert_eq!(build_address_space(&src), expected);
    }
}

#[test]
fn position_invariant_payload_carried() {
    assert_eq!(
        build_builtin(&ir::BuiltIn::Position { invariant: true }),
        schema::BuiltIn::Position { invariant: true }
    );
    assert_eq!(
        build_builtin(&ir::BuiltIn::Position { invariant: false }),
        schema::BuiltIn::Position { invariant: false }
    );
}

#[test]
fn builtin_every_variant_maps_to_its_counterpart() {
    let cases = [
        (ir::BuiltIn::ViewIndex, schema::BuiltIn::ViewIndex),
        (ir::BuiltIn::BaseInstance, schema::BuiltIn::BaseInstance),
        (ir::BuiltIn::BaseVertex, schema::BuiltIn::BaseVertex),
        (ir::BuiltIn::ClipDistance, schema::BuiltIn::ClipDistance),
        (ir::BuiltIn::CullDistance, schema::BuiltIn::CullDistance),
        (ir::BuiltIn::InstanceIndex, schema::BuiltIn::InstanceIndex),
        (ir::BuiltIn::PointSize, schema::BuiltIn::PointSize),
        (ir::BuiltIn::VertexIndex, schema::BuiltIn::VertexIndex),
        (ir::BuiltIn::FragDepth, schema::BuiltIn::FragDepth),
        (ir::BuiltIn::PointCoord, schema::BuiltIn::PointCoord),
        (ir::BuiltIn::FrontFacing, schema::BuiltIn::FrontFacing),
        (ir::BuiltIn::PrimitiveIndex, schema::BuiltIn::PrimitiveIndex),
        (ir::BuiltIn::SampleIndex, schema::BuiltIn::SampleIndex),
        (ir::BuiltIn::SampleMask, schema::BuiltIn::SampleMask),
        (
            ir::BuiltIn::GlobalInvocationId,
            schema::BuiltIn::GlobalInvocationId,
        ),
        (
            ir::BuiltIn::LocalInvocationId,
            schema::BuiltIn::LocalInvocationId,
        ),
        (
            ir::BuiltIn::LocalInvocationIndex,
            schema::BuiltIn::LocalInvocationIndex,
        ),
        (ir::BuiltIn::WorkGroupId, schema::BuiltIn::WorkGroupId),
        (ir::BuiltIn::WorkGroupSize, schema::BuiltIn::WorkGroupSize),
        (ir::BuiltIn::NumWorkGroups, schema::BuiltIn::NumWorkGroups),
    ];
    for (src, expected) in cases {
        assert_eq!(build_builtin(&src), expected);
    }
}

#[test]
fn interpolation_every_variant_maps_to_its_counterpart() {
    let cases = [
        (
            ir::Interpolation::Perspective,
            schema::Interpolation::Perspective,
        ),
        (ir::Interpolation::Linear, schema::Interpolation::Linear),
        (ir::Interpolation::Flat, schema::Interpolation::Flat),
    ];
    for (src, expected) in cases {
        assert_eq!(build_interpolation(&src), expected);
    }
}

#[test]
fn sampling_every_variant_maps_to_its_counterpart() {
    let cases = [
        (ir::Sampling::Center, schema::Sampling::Center),
        (ir::Sampling::Centroid, schema::Sampling::Centroid),
        (ir::Sampling::Sample, schema::Sampling::Sample),
    ];
    for (src, expected) in cases {
        assert_eq!(build_sampling(&src), expected);
    }
}

#[test]
fn location_binding_propagates_optionality() {
    let b = ir::Binding::Location {
        location: 3,
        interpolation: None,
        sampling: Some(ir::Sampling::Center),
    };
    assert_eq!(
        build_binding(&b),
        schema::Binding::Location {
            location: 3,
            second_blend_source: false,
            interpolation: None,
            sampling: Some(schema::Sampling::Center),
        }
    );
}

#[test]
fn location_binding_with_both_modes_present() {
    let b = ir::Binding::Location {
        location: 0,
        interpolation: Some(ir::Interpolation::Flat),
        sampling: Some(ir::Sampling::Sample),
    };
    assert_eq!(
        build_binding(&b),
        schema::Binding::Location {
            location: 0,
            second_blend_source: false,
            interpolation: Some(schema::Interpolation::Flat),
            sampling: Some(schema::Sampling::Sample),
        }
    );
}

#[test]
fn location_binding_with_both_modes_absent() {
    let b = ir::Binding::Location {
        location: u32::MAX,
        interpolation: None,
        sampling: None,
    };
    assert_eq!(
        build_binding(&b),
        schema::Binding::Location {
            location: u32::MAX,
            second_blend_source: false,
            interpolation: None,
            sampling: None,
        }
    );
}

#[test]
fn builtin_binding_recurses_into_builtin_translation() {
    let b = ir::Binding::BuiltIn(ir::BuiltIn::Position { invariant: true });
    assert_eq!(
        build_binding(&b),
        schema::Binding::BuiltIn(schema::BuiltIn::Position { invariant: true })
    );
}

#[test]
fn repeated_calls_are_stable() {
    let c = ir::ConstantInner::Scalar {
        width: 8,
        value: ir::ScalarValue::Float(0.1f64.to_bits()),
    };
    assert_eq!(build_expression(&c), build_expression(&c));
    let a = ir::AddressSpace::Storage {
        access: ir::StorageAccess { bits: 3 },
    };
    assert_eq!(build_address_space(&a), build_address_space(&a));
    let b = ir::Binding::BuiltIn(ir::BuiltIn::SampleMask);
    assert_eq!(build_binding(&b), build_binding(&b));
}

#[test]
fn extreme_values_pass_through_unchanged() {
    let c = ir::ConstantInner::Scalar {
        width: 8,
        value: ir::ScalarValue::Sint(i64::MIN),
    };
    assert_eq!(
        build_expression(&c),
        schema::Expression::Literal(schema::Literal::I64(i64::MIN))
    );
    let b = ir::ResourceBinding {
        group: u32::MAX,
        binding: 0,
    };
    assert_eq!(
        build_resource_binding(&b),
        schema::ResourceBinding {
            group: u32::MAX,
            binding: 0,
        }
    );
}

#[test]
fn storage_access_ignores_unrelated_bits() {
    let a = ir::AddressSpace::Storage {
        access: ir::StorageAccess {
            bits: ir::STORAGE_ACCESS_LOAD | 0x80,
        },
    };
    assert_eq!(
        build_address_space(&a),
        schema::AddressSpace::Storage {
            load: true,
            store: false,
        }
    );
}
