use runen_gpu::binding::{GpuShaderStage, GpuShaderStages};
use runen_gpu::capabilities::{
    fixed_array_compilation_capabilities, fixed_array_layout_capabilities, GpuBindingClass,
};
use runen_gpu::native::{
    apply_format_prerequisites, format_capabilities, normalized_features, GpuBackendFamily,
    GpuNativeDownlevelFlags, GpuNativeFeature, GpuNativeFeatures, GpuNativeFormatFeatures,
};
use runen_gpu::render_state::{
    GpuColorWriteMask, GpuCompareFunction, GpuStencilFaceStateDescriptor, GpuStencilOperation,
    GpuStencilStateDescriptor,
};
use runen_gpu::texture_format::{
    all_texture_formats, canonical_copy_aspect, copy_block_size, logical_copy_footprint,
    paired_view_format, supports_aspect, tightly_packed_copy_byte_len, view_compatible,
    GpuTextureAspect, GpuTextureFormat,
};

const ASPECTS: [GpuTextureAspect; 4] = [
    GpuTextureAspect::All,
    GpuTextureAspect::Color,
    GpuTextureAspect::DepthOnly,
    GpuTextureAspect::StencilOnly,
];

#[test]
fn paired_view_formats_pair_back() {
    for format in all_texture_formats() {
        if let Some(paired) = paired_view_format(format) {
            assert_ne!(paired, format);
            assert_eq!(paired_view_format(paired), Some(format));
        }
    }
}

#[test]
fn view_compatibility_is_reflexive_and_symmetric() {
    let census = all_texture_formats();
    for a in &census {
        assert!(view_compatible(*a, *a));
        for b in &census {
            assert_eq!(view_compatible(*a, *b), view_compatible(*b, *a));
        }
    }
}

#[test]
fn canonical_copy_aspects_are_explicit_and_present() {
    for format in all_texture_formats() {
        for aspect in ASPECTS {
            if let Some(canonical) = canonical_copy_aspect(format, aspect) {
                assert_ne!(canonical, GpuTextureAspect::All);
                assert!(supports_aspect(format, canonical));
            }
            if let Some(size) = copy_block_size(format, aspect) {
                assert!(size > 0);
            }
        }
    }
    assert_eq!(canonical_copy_aspect(GpuTextureFormat::Depth24PlusStencil8, GpuTextureAspect::All), None);
    assert_eq!(
        canonical_copy_aspect(GpuTextureFormat::Depth24PlusStencil8, GpuTextureAspect::StencilOnly),
        Some(GpuTextureAspect::StencilOnly)
    );
}

#[test]
fn packed_length_is_the_footprint_times_the_layers() {
    for format in all_texture_formats() {
        if let Some((row_bytes, rows)) = logical_copy_footprint(format, GpuTextureAspect::All, 9, 7) {
            assert_eq!(
                tightly_packed_copy_byte_len(format, GpuTextureAspect::All, 9, 7, 2),
                Some(u64::from(row_bytes) * u64::from(rows) * 2)
            );
        }
    }
    assert_eq!(logical_copy_footprint(GpuTextureFormat::Bc1RgbaUnorm, GpuTextureAspect::All, 9, 7), Some((24, 2)));
    assert_eq!(logical_copy_footprint(GpuTextureFormat::Rgba8Unorm, GpuTextureAspect::All, 0, 7), None);
}

#[test]
fn format_prerequisites_only_remove_roles() {
    let everything = GpuNativeFormatFeatures { allowed_usages: 0x1f, flags: 0x7ff };
    for format in all_texture_formats() {
        let observed = format_capabilities(format, everything);
        assert!(!(observed.color_attachment && observed.depth_stencil));
        let clamped = apply_format_prerequisites(format, GpuNativeFeatures::empty(), observed);
        assert!(!clamped.sampled || observed.sampled);
        assert!(!clamped.color_attachment || observed.color_attachment);
        assert!(!clamped.depth_stencil || observed.depth_stencil);
        assert!(!clamped.storage_write || observed.storage_write);
    }
}

#[test]
fn fixed_array_compilation_needs_no_more_than_layout() {
    for class in [
        GpuBindingClass::UniformBuffer,
        GpuBindingClass::StorageBuffer,
        GpuBindingClass::SampledTexture,
        GpuBindingClass::StorageTexture,
        GpuBindingClass::Sampler,
    ] {
        let layout = fixed_array_layout_capabilities(class);
        for feature in fixed_array_compilation_capabilities(class) {
            assert!(layout.contains(&feature), "{class:?} {feature:?}");
        }
    }
}

#[test]
fn write_mask_containment_is_a_partial_order() {
    let masks = (0u8..16).map(|bits| GpuColorWriteMask::from_bits(bits).unwrap()).collect::<Vec<_>>();
    for a in &masks {
        assert!(a.contains(*a));
        assert!(GpuColorWriteMask::all().contains(*a));
        assert!(a.contains(GpuColorWriteMask::none()));
        for b in &masks {
            if a.contains(*b) && b.contains(*a) {
                assert_eq!(a, b);
            }
            for c in &masks {
                if a.contains(*b) && b.contains(*c) {
                    assert!(a.contains(*c));
                }
            }
        }
    }
}

#[test]
fn stencil_state_without_mask_or_writing_operation_never_writes() {
    let replace = GpuStencilFaceStateDescriptor::new(
        GpuCompareFunction::Always,
        GpuStencilOperation::Keep,
        GpuStencilOperation::Keep,
        GpuStencilOperation::Replace,
    );
    let keep = GpuStencilFaceStateDescriptor::new(
        GpuCompareFunction::Always,
        GpuStencilOperation::Keep,
        GpuStencilOperation::Keep,
        GpuStencilOperation::Keep,
    );
    assert!(!GpuStencilStateDescriptor::new(replace, replace, 0xff, 0).may_write());
    assert!(!GpuStencilStateDescriptor::new(keep, keep, 0xff, 0xff).may_write());
    assert!(GpuStencilStateDescriptor::new(keep, replace, 0xff, 1).may_write());
}

#[test]
fn shader_stage_sets_answer_membership() {
    let stages = GpuShaderStages { compute: true, vertex: false, fragment: true };
    assert!(stages.contains(GpuShaderStage::Compute));
    assert!(!stages.contains(GpuShaderStage::Vertex));
    assert!(stages.contains(GpuShaderStage::Fragment));
}

#[test]
fn bytes_per_texel_is_the_whole_format_copy_size() {
    for format in all_texture_formats() {
        assert_eq!(
            format.bytes_per_texel(),
            copy_block_size(format, GpuTextureAspect::All).unwrap_or(0),
            "{format:?}"
        );
    }
    assert_eq!(GpuTextureFormat::Depth24PlusStencil8.bytes_per_texel(), 0);
    assert_eq!(GpuTextureFormat::Stencil8.bytes_per_texel(), 1);
}

#[test]
fn normalized_features_never_repeat() {
    let features = GpuNativeFeatures::empty()
        .with(GpuNativeFeature::TimestampQuery)
        .with(GpuNativeFeature::TextureBindingArray);
    let list = normalized_features(
        GpuBackendFamily::Vulkan,
        features,
        GpuNativeDownlevelFlags { bits: wgpu::DownlevelFlags::all().bits() },
        true,
        true,
    );
    for (i, a) in list.iter().enumerate() {
        for b in &list[i + 1..] {
            assert_ne!(a, b);
        }
    }
}
