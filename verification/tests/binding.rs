use runen_gpu::binding::{
    layout_entries, layout_entry, GpuBindGroupLayoutDescriptor, GpuBindingDeclaration,
    GpuBindingKind, GpuBindingLayoutReason, GpuLoweredBindingType, GpuLoweredBufferType,
    GpuProgramBindingRealizationErrorCategory, GpuSamplerClass, GpuShaderStages,
    GpuStorageBufferAccess, GpuTextureSampleClass,
};
use runen_gpu::capabilities::GpuBindingClass;
use runen_gpu::native::{GpuNativeFeature, GpuNativeFeatures};
use runen_gpu::texture_resource::GpuTextureViewDimension;

fn kind(class: GpuBindingClass) -> GpuBindingKind {
    GpuBindingKind {
        class,
        uses_dynamic_offset: false,
        minimum_buffer_size: None,
        storage_buffer_access: None,
        texture_sample_class: None,
        texture_view_dimension: None,
        multisampled_texture: false,
        storage_texture_access: None,
        storage_texture_format: None,
        sampler_class: None,
    }
}

fn declaration(binding: u32, kind: GpuBindingKind, array_count: Option<u32>) -> GpuBindingDeclaration {
    GpuBindingDeclaration {
        binding,
        visibility: GpuShaderStages { compute: false, vertex: false, fragment: true },
        kind,
        array_count,
    }
}

fn sampled_texture() -> GpuBindingKind {
    GpuBindingKind {
        texture_sample_class: Some(GpuTextureSampleClass::FloatFilterable),
        texture_view_dimension: Some(GpuTextureViewDimension::D2),
        ..kind(GpuBindingClass::SampledTexture)
    }
}

#[test]
fn buffers_lower_with_their_access_and_offsets() {
    let storage = GpuBindingKind {
        storage_buffer_access: Some(GpuStorageBufferAccess::ReadOnly),
        uses_dynamic_offset: true,
        minimum_buffer_size: Some(16),
        ..kind(GpuBindingClass::StorageBuffer)
    };
    let entry = layout_entry(GpuNativeFeatures::empty(), &declaration(2, storage, None)).unwrap();
    assert_eq!(entry.binding, 2);
    assert_eq!(entry.count, None);
    assert_eq!(
        entry.ty,
        GpuLoweredBindingType::Buffer {
            ty: GpuLoweredBufferType::Storage { read_only: true },
            has_dynamic_offset: true,
            min_binding_size: Some(16),
        }
    );
}

#[test]
fn incomplete_declarations_are_refused_with_their_reason() {
    let no_view = GpuBindingKind {
        texture_sample_class: Some(GpuTextureSampleClass::Depth),
        ..kind(GpuBindingClass::SampledTexture)
    };
    assert_eq!(
        layout_entry(GpuNativeFeatures::empty(), &declaration(0, no_view, None)),
        Err(GpuBindingLayoutReason::SampledTextureWithoutViewDimension)
    );
    assert_eq!(
        layout_entry(GpuNativeFeatures::empty(), &declaration(0, kind(GpuBindingClass::SampledTexture), None)),
        Err(GpuBindingLayoutReason::SampledTextureWithoutSampleClass)
    );
    assert_eq!(
        layout_entry(GpuNativeFeatures::empty(), &declaration(0, kind(GpuBindingClass::Sampler), None)),
        Err(GpuBindingLayoutReason::SamplerWithoutClass)
    );
    assert_eq!(
        layout_entry(GpuNativeFeatures::empty(), &declaration(0, kind(GpuBindingClass::StorageTexture), None)),
        Err(GpuBindingLayoutReason::StorageTextureWithoutAccess)
    );
}

#[test]
fn binding_arrays_need_their_native_features() {
    let array = declaration(0, sampled_texture(), Some(4));
    assert_eq!(
        layout_entry(GpuNativeFeatures::empty(), &array),
        Err(GpuBindingLayoutReason::BindingArrayFeaturesMissing)
    );
    let features = GpuNativeFeatures::empty().with(GpuNativeFeature::TextureBindingArray);
    let entry = layout_entry(features, &array).unwrap();
    assert_eq!(entry.count, Some(4));
    let sampler = GpuBindingKind {
        sampler_class: Some(GpuSamplerClass::Comparison),
        ..kind(GpuBindingClass::Sampler)
    };
    assert_eq!(
        layout_entry(features, &declaration(1, sampler, Some(2))).unwrap().ty,
        GpuLoweredBindingType::Sampler(GpuSamplerClass::Comparison)
    );
}

#[test]
fn a_group_with_a_binding_array_cannot_hold_a_uniform_buffer() {
    let features = GpuNativeFeatures::empty().with(GpuNativeFeature::TextureBindingArray);
    let descriptor = GpuBindGroupLayoutDescriptor {
        group: 3,
        bindings: vec![
            declaration(0, sampled_texture(), Some(4)),
            declaration(1, kind(GpuBindingClass::UniformBuffer), None),
        ],
    };
    let error = layout_entries(features, &descriptor).unwrap_err();
    assert_eq!(error.category, GpuProgramBindingRealizationErrorCategory::LayoutDescriptorInvalid);
    assert_eq!(error.group, 3);
    assert_eq!(error.reason, GpuBindingLayoutReason::BindingArrayWithUniformOrDynamicOffset);

    let fine = GpuBindGroupLayoutDescriptor {
        group: 0,
        bindings: vec![
            declaration(0, kind(GpuBindingClass::UniformBuffer), None),
            declaration(1, sampled_texture(), None),
        ],
    };
    let entries = layout_entries(GpuNativeFeatures::empty(), &fine).unwrap();
    assert_eq!(entries.len(), 2);
    assert_eq!(entries[1].binding, 1);

    let second_refused = GpuBindGroupLayoutDescriptor {
        group: 7,
        bindings: vec![
            declaration(0, sampled_texture(), None),
            declaration(1, kind(GpuBindingClass::Sampler), None),
        ],
    };
    let error = layout_entries(GpuNativeFeatures::empty(), &second_refused).unwrap_err();
    assert_eq!(error.group, 7);
    assert_eq!(error.reason, GpuBindingLayoutReason::SamplerWithoutClass);
}
