use runen_gpu::capabilities::GpuCapabilityFeature;
use runen_gpu::native::{
    adapter_format_capabilities, adapter_supported_features, apply_format_prerequisites,
    format_capabilities, format_prerequisites_available, is_presentation_format, known_formats,
    is_webgpu_compliant, normalized_features, select_device_request_profile, GpuBackendFamily,
    GpuDeviceRequestProfile, GpuNativeDownlevelFlags, GpuNativeFeature, GpuNativeFeatures,
    GpuNativeFormatFeatures, GpuNativeShaderModel, GpuTextureFormatCapabilities,
};
use runen_gpu::texture_format::{all_texture_formats, GpuTextureAspect, GpuTextureFormat};
use wgpu::{DownlevelCapabilities, DownlevelFlags, DownlevelLimits, ShaderModel, TextureFormatFeatureFlags, TextureUsages};

fn downlevel(flags: DownlevelFlags) -> GpuNativeDownlevelFlags {
    GpuNativeDownlevelFlags { bits: flags.bits() }
}

fn format_features(usages: TextureUsages, flags: TextureFormatFeatureFlags) -> GpuNativeFormatFeatures {
    GpuNativeFormatFeatures { allowed_usages: usages.bits(), flags: flags.bits() }
}

fn features(list: &[GpuNativeFeature]) -> GpuNativeFeatures {
    let mut set = GpuNativeFeatures::empty();
    for feature in list {
        set = set.with(*feature);
    }
    set
}

#[test]
fn downlevel_mapping_claims_only_explicitly_proven_operations() {
    let full = normalized_features(
        GpuBackendFamily::Vulkan,
        features(&[GpuNativeFeature::TimestampQuery]),
        downlevel(DownlevelFlags::all()),
        true,
        false,
    );
    assert!(full.contains(&GpuCapabilityFeature::Compute));
    assert!(full.contains(&GpuCapabilityFeature::IndirectExecution));
    assert!(full.contains(&GpuCapabilityFeature::RenderPipeline));
    assert!(full.contains(&GpuCapabilityFeature::Copy));
    assert!(full.contains(&GpuCapabilityFeature::DepthBiasClamp));
    assert!(!full.contains(&GpuCapabilityFeature::Presentation));

    let missing_compute = normalized_features(
        GpuBackendFamily::Vulkan,
        GpuNativeFeatures::empty(),
        downlevel(DownlevelFlags::empty()),
        false,
        false,
    );
    assert!(!missing_compute.contains(&GpuCapabilityFeature::Compute));
    assert!(!missing_compute.contains(&GpuCapabilityFeature::IndirectExecution));
    assert!(!missing_compute.contains(&GpuCapabilityFeature::RenderPipeline));
    assert!(!missing_compute.contains(&GpuCapabilityFeature::Copy));
    assert!(!missing_compute.contains(&GpuCapabilityFeature::DepthBiasClamp));

    let clamp_only = normalized_features(
        GpuBackendFamily::Vulkan,
        GpuNativeFeatures::empty(),
        downlevel(DownlevelFlags::DEPTH_BIAS_CLAMP),
        false,
        false,
    );
    assert!(clamp_only.contains(&GpuCapabilityFeature::DepthBiasClamp));

    let unknown = normalized_features(
        GpuBackendFamily::Vulkan,
        GpuNativeFeatures::empty(),
        GpuNativeDownlevelFlags { bits: DownlevelFlags::all().bits() | (1 << 31) },
        true,
        true,
    );
    assert!(!unknown.contains(&GpuCapabilityFeature::Compute));
    assert!(!unknown.contains(&GpuCapabilityFeature::IndirectExecution));
    assert!(!unknown.contains(&GpuCapabilityFeature::RenderPipeline));
    assert!(!unknown.contains(&GpuCapabilityFeature::Copy));
    assert!(!unknown.contains(&GpuCapabilityFeature::DepthBiasClamp));
    assert!(unknown.contains(&GpuCapabilityFeature::Presentation));
}

#[test]
fn metal_does_not_claim_timestamp_query_from_the_advertised_backend_bit() {
    let metal = normalized_features(
        GpuBackendFamily::Metal,
        features(&[GpuNativeFeature::TimestampQuery]),
        downlevel(DownlevelFlags::all()),
        true,
        false,
    );
    assert!(!metal.contains(&GpuCapabilityFeature::TimestampQuery));

    let vulkan = normalized_features(
        GpuBackendFamily::Vulkan,
        features(&[GpuNativeFeature::TimestampQuery]),
        downlevel(DownlevelFlags::all()),
        true,
        false,
    );
    assert!(vulkan.contains(&GpuCapabilityFeature::TimestampQuery));
}

#[test]
fn native_binding_array_features_preserve_the_accepted_normalized_profile() {
    let normalized = normalized_features(
        GpuBackendFamily::Vulkan,
        features(&[
            GpuNativeFeature::TextureBindingArray,
            GpuNativeFeature::BufferBindingArray,
            GpuNativeFeature::StorageResourceBindingArray,
            GpuNativeFeature::UniformBufferBindingArrays,
        ]),
        downlevel(DownlevelFlags::empty()),
        false,
        false,
    );

    assert!(normalized.contains(&GpuCapabilityFeature::TextureBindingArray));
    assert!(normalized.contains(&GpuCapabilityFeature::BufferBindingArray));
    assert!(normalized.contains(&GpuCapabilityFeature::StorageResourceBindingArray));
    assert!(
        !normalized.contains(&GpuCapabilityFeature::UniformBufferBindingArray),
        "the backend refresh must not expand the normalized profile without RunenGPU authority"
    );
}

#[test]
fn normalized_features_come_in_a_fixed_order() {
    let all = normalized_features(
        GpuBackendFamily::Vulkan,
        features(&[
            GpuNativeFeature::TimestampQuery,
            GpuNativeFeature::TextureBindingArray,
            GpuNativeFeature::BufferBindingArray,
            GpuNativeFeature::StorageResourceBindingArray,
        ]),
        downlevel(DownlevelFlags::all()),
        true,
        true,
    );
    assert_eq!(
        all,
        vec![
            GpuCapabilityFeature::RenderPipeline,
            GpuCapabilityFeature::Copy,
            GpuCapabilityFeature::Compute,
            GpuCapabilityFeature::IndirectExecution,
            GpuCapabilityFeature::DepthBiasClamp,
            GpuCapabilityFeature::TimestampQuery,
            GpuCapabilityFeature::TextureBindingArray,
            GpuCapabilityFeature::BufferBindingArray,
            GpuCapabilityFeature::StorageResourceBindingArray,
            GpuCapabilityFeature::Presentation,
        ]
    );
    let indirect_without_compute = normalized_features(
        GpuBackendFamily::Vulkan,
        GpuNativeFeatures::empty(),
        downlevel(DownlevelFlags::INDIRECT_EXECUTION),
        false,
        false,
    );
    assert!(indirect_without_compute.is_empty());
}

#[test]
fn bc_family_is_complete_feature_gated_and_portable_role_clamped() {
    let bc = [
        GpuTextureFormat::Bc1RgbaUnorm,
        GpuTextureFormat::Bc1RgbaUnormSrgb,
        GpuTextureFormat::Bc2RgbaUnorm,
        GpuTextureFormat::Bc2RgbaUnormSrgb,
        GpuTextureFormat::Bc3RgbaUnorm,
        GpuTextureFormat::Bc3RgbaUnormSrgb,
        GpuTextureFormat::Bc4RUnorm,
        GpuTextureFormat::Bc4RSnorm,
        GpuTextureFormat::Bc5RgUnorm,
        GpuTextureFormat::Bc5RgSnorm,
        GpuTextureFormat::Bc6hRgbUfloat,
        GpuTextureFormat::Bc6hRgbFloat,
        GpuTextureFormat::Bc7RgbaUnorm,
        GpuTextureFormat::Bc7RgbaUnormSrgb,
    ];
    assert_eq!(bc.len(), 14);
    let census = all_texture_formats();
    for format in bc {
        assert!(census.contains(&format));
        let backend = format_features(
            TextureUsages::TEXTURE_BINDING
                | TextureUsages::STORAGE_BINDING
                | TextureUsages::RENDER_ATTACHMENT
                | TextureUsages::COPY_SRC
                | TextureUsages::COPY_DST,
            TextureFormatFeatureFlags::FILTERABLE | TextureFormatFeatureFlags::STORAGE_READ_WRITE,
        );
        let absent = apply_format_prerequisites(
            format,
            GpuNativeFeatures::empty(),
            format_capabilities(format, backend),
        );
        assert_eq!(absent, GpuTextureFormatCapabilities::none(), "{format:?}");
        let present = apply_format_prerequisites(
            format,
            features(&[GpuNativeFeature::TextureCompressionBc]),
            format_capabilities(format, backend),
        );
        assert!(present.sampled, "{format:?}");
        assert!(present.copy_source, "{format:?}");
        assert!(present.copy_destination, "{format:?}");
        assert!(present.filterable, "{format:?}");
        assert!(!present.storage_read, "{format:?}");
        assert!(!present.storage_write, "{format:?}");
        assert!(!present.color_attachment, "{format:?}");
        assert!(!present.depth_stencil, "{format:?}");
    }
}

#[test]
fn presentation_format_census_is_closed_against_texture_growth() {
    assert_eq!(known_formats().len(), 15);
    assert!(known_formats().contains(&GpuTextureFormat::Rgba32Float));
    let census = all_texture_formats();
    for format in [
        GpuTextureFormat::Rgba8Snorm,
        GpuTextureFormat::Rgba8Uint,
        GpuTextureFormat::Rgba8Sint,
        GpuTextureFormat::Rgba16Uint,
        GpuTextureFormat::Rgba16Sint,
        GpuTextureFormat::Rgba16Float,
    ] {
        assert!(!known_formats().contains(&format));
        assert!(census.contains(&format));
    }
}

#[test]
fn baseline_32bit_format_census_is_complete() {
    let census = all_texture_formats();
    for format in [
        GpuTextureFormat::R32Uint,
        GpuTextureFormat::R32Sint,
        GpuTextureFormat::R32Float,
        GpuTextureFormat::Rg32Uint,
        GpuTextureFormat::Rg32Sint,
        GpuTextureFormat::Rg32Float,
        GpuTextureFormat::Rgba32Uint,
        GpuTextureFormat::Rgba32Sint,
        GpuTextureFormat::Rgba32Float,
    ] {
        assert!(census.contains(&format));
    }
}

fn assert_optional_roles_follow_backend_facts(format: GpuTextureFormat) {
    let absent = format_capabilities(
        format,
        format_features(TextureUsages::COPY_SRC, TextureFormatFeatureFlags::empty()),
    );
    assert!(absent.copy_source);
    assert!(!absent.copy_destination);
    assert!(!absent.sampled);
    assert!(!absent.filterable);
    assert!(!absent.storage_read);
    assert!(!absent.storage_write);
    assert!(!absent.color_attachment);
    assert!(!absent.depth_stencil);
    let observed = format_capabilities(
        format,
        format_features(
            TextureUsages::TEXTURE_BINDING
                | TextureUsages::STORAGE_BINDING
                | TextureUsages::RENDER_ATTACHMENT
                | TextureUsages::COPY_DST,
            TextureFormatFeatureFlags::FILTERABLE | TextureFormatFeatureFlags::STORAGE_READ_WRITE,
        ),
    );
    assert!(observed.sampled);
    assert!(observed.filterable);
    assert!(observed.storage_read);
    assert!(observed.storage_write);
    assert!(observed.color_attachment);
    assert!(observed.copy_destination);
    assert!(!observed.copy_source);
}

#[test]
fn rgba8_core_format_census_and_optional_roles_follow_backend_facts() {
    assert_eq!(all_texture_formats().len(), 57);
    for format in [
        GpuTextureFormat::Rgba8Snorm,
        GpuTextureFormat::Rgba8Uint,
        GpuTextureFormat::Rgba8Sint,
    ] {
        assert!(all_texture_formats().contains(&format));
        assert_optional_roles_follow_backend_facts(format);
    }
}

#[test]
fn rgba16_format_census_and_optional_roles_follow_backend_facts() {
    assert_eq!(all_texture_formats().len(), 57);
    for format in [
        GpuTextureFormat::Rgba16Uint,
        GpuTextureFormat::Rgba16Sint,
        GpuTextureFormat::Rgba16Float,
    ] {
        assert!(all_texture_formats().contains(&format));
        assert_optional_roles_follow_backend_facts(format);
    }
}

#[test]
fn r32float_mapping_preserves_backend_reported_roles() {
    assert!(all_texture_formats().contains(&GpuTextureFormat::R32Float));
    let sampled_copy_source = format_capabilities(
        GpuTextureFormat::R32Float,
        format_features(
            TextureUsages::TEXTURE_BINDING | TextureUsages::COPY_SRC,
            TextureFormatFeatureFlags::empty(),
        ),
    );
    assert!(sampled_copy_source.sampled);
    assert!(sampled_copy_source.copy_source);
    assert!(!sampled_copy_source.copy_destination);
    assert!(!sampled_copy_source.filterable);
    assert!(!sampled_copy_source.storage_read);
    assert!(!sampled_copy_source.storage_write);
    assert!(!sampled_copy_source.depth_stencil);
    assert_eq!(sampled_copy_source.block_dimensions, None);
    assert_eq!(sampled_copy_source.block_copy_size, None);

    let richer = format_capabilities(
        GpuTextureFormat::R32Float,
        format_features(
            TextureUsages::TEXTURE_BINDING | TextureUsages::STORAGE_BINDING | TextureUsages::COPY_DST,
            TextureFormatFeatureFlags::FILTERABLE | TextureFormatFeatureFlags::STORAGE_READ_WRITE,
        ),
    );
    assert!(richer.sampled);
    assert!(richer.filterable);
    assert!(richer.storage_read);
    assert!(richer.storage_write);
    assert!(richer.copy_destination);
    assert!(!richer.copy_source);
}

#[test]
fn new_32bit_structure_does_not_manufacture_backend_roles() {
    for format in [GpuTextureFormat::Rg32Float, GpuTextureFormat::Rgba32Float] {
        let facts = format_capabilities(
            format,
            format_features(TextureUsages::COPY_SRC, TextureFormatFeatureFlags::empty()),
        );
        assert!(facts.copy_source);
        assert!(!facts.copy_destination);
        assert!(!facts.sampled);
        assert!(!facts.filterable);
        assert!(!facts.storage_read);
        assert!(!facts.storage_write);
        assert!(!facts.color_attachment);
        assert!(!facts.depth_stencil);
        assert_eq!(facts.block_dimensions, None);
        assert_eq!(facts.block_copy_size, None);
    }
}

#[test]
fn texture_mapping_preserves_normalized_roles_without_owning_structure() {
    let native = format_features(
        TextureUsages::TEXTURE_BINDING
            | TextureUsages::RENDER_ATTACHMENT
            | TextureUsages::COPY_SRC
            | TextureUsages::COPY_DST,
        TextureFormatFeatureFlags::FILTERABLE,
    );
    let color = format_capabilities(GpuTextureFormat::Rgba8Unorm, native);
    assert!(color.color_attachment);
    assert!(!color.depth_stencil);
    assert_eq!(color.block_dimensions, None);
    assert_eq!(color.block_copy_size, None);
    let depth = format_capabilities(GpuTextureFormat::Depth32Float, native);
    assert!(depth.depth_stencil);
    assert!(!depth.color_attachment);
    assert_eq!(depth.block_dimensions, None);
    assert_eq!(depth.block_copy_size, None);
}

#[test]
fn stencil8_maps_exactly_and_preserves_observed_roles() {
    let format = GpuTextureFormat::Stencil8;
    assert!(all_texture_formats().contains(&format));
    assert!(!is_presentation_format(format));
    assert_eq!(format.copy_block_size(GpuTextureAspect::All), Some(1));
    let facts = format_capabilities(
        format,
        format_features(
            TextureUsages::TEXTURE_BINDING
                | TextureUsages::RENDER_ATTACHMENT
                | TextureUsages::COPY_SRC
                | TextureUsages::COPY_DST,
            TextureFormatFeatureFlags::empty(),
        ),
    );
    assert!(facts.sampled);
    assert!(facts.depth_stencil);
    assert!(facts.copy_source);
    assert!(facts.copy_destination);
    assert!(!facts.color_attachment);
    assert!(!facts.storage_read);
    assert!(!facts.storage_write);
}

#[test]
fn packed32_mappings_preserve_roles_and_gate_only_rg11b10_renderability() {
    for format in [
        GpuTextureFormat::Rgb9e5Ufloat,
        GpuTextureFormat::Rgb10a2Uint,
        GpuTextureFormat::Rgb10a2Unorm,
        GpuTextureFormat::Rg11b10Ufloat,
    ] {
        assert!(all_texture_formats().contains(&format));
        assert!(!is_presentation_format(format));
    }

    let native = format_features(
        TextureUsages::TEXTURE_BINDING
            | TextureUsages::RENDER_ATTACHMENT
            | TextureUsages::COPY_SRC
            | TextureUsages::COPY_DST,
        TextureFormatFeatureFlags::FILTERABLE,
    );
    let ordinary = apply_format_prerequisites(
        GpuTextureFormat::Rgb10a2Unorm,
        GpuNativeFeatures::empty(),
        format_capabilities(GpuTextureFormat::Rgb10a2Unorm, native),
    );
    assert!(ordinary.sampled);
    assert!(ordinary.filterable);
    assert!(ordinary.color_attachment);
    assert!(ordinary.copy_source);
    assert!(ordinary.copy_destination);

    let absent = apply_format_prerequisites(
        GpuTextureFormat::Rg11b10Ufloat,
        GpuNativeFeatures::empty(),
        format_capabilities(GpuTextureFormat::Rg11b10Ufloat, native),
    );
    assert!(absent.sampled);
    assert!(absent.filterable);
    assert!(!absent.color_attachment);
    assert!(absent.copy_source);
    assert!(absent.copy_destination);

    let present = apply_format_prerequisites(
        GpuTextureFormat::Rg11b10Ufloat,
        features(&[GpuNativeFeature::Rg11b10UfloatRenderable]),
        format_capabilities(GpuTextureFormat::Rg11b10Ufloat, native),
    );
    assert!(present.sampled);
    assert!(present.filterable);
    assert!(present.color_attachment);
    assert!(present.copy_source);
    assert!(present.copy_destination);
}

#[test]
fn depth32float_stencil8_roles_fail_closed_without_private_prerequisite() {
    let format = GpuTextureFormat::Depth32FloatStencil8;
    assert!(all_texture_formats().contains(&format));
    assert!(!is_presentation_format(format));

    let native = format_features(
        TextureUsages::TEXTURE_BINDING
            | TextureUsages::RENDER_ATTACHMENT
            | TextureUsages::COPY_SRC
            | TextureUsages::COPY_DST,
        TextureFormatFeatureFlags::empty(),
    );
    let present_features = features(&[GpuNativeFeature::Depth32FloatStencil8]);
    assert!(!format_prerequisites_available(format, GpuNativeFeatures::empty()));
    assert!(format_prerequisites_available(format, present_features));

    let absent = if format_prerequisites_available(format, GpuNativeFeatures::empty()) {
        format_capabilities(format, native)
    } else {
        GpuTextureFormatCapabilities::none()
    };
    assert!(!absent.sampled);
    assert!(!absent.depth_stencil);
    assert!(!absent.copy_source);
    assert!(!absent.copy_destination);

    let present = if format_prerequisites_available(format, present_features) {
        format_capabilities(format, native)
    } else {
        GpuTextureFormatCapabilities::none()
    };
    assert!(present.sampled);
    assert!(present.depth_stencil);
    assert!(present.copy_source);
    assert!(present.copy_destination);
    assert!(!present.color_attachment);
    assert!(!present.storage_read);
    assert!(!present.storage_write);
}

#[test]
fn baseline_depth_formats_map_exactly_and_preserve_observed_roles() {
    for (format, expected_copy_size) in [
        (GpuTextureFormat::Depth16Unorm, Some(2)),
        (GpuTextureFormat::Depth24Plus, None),
        (GpuTextureFormat::Depth24PlusStencil8, None),
    ] {
        assert!(all_texture_formats().contains(&format));
        assert!(!is_presentation_format(format));
        assert_eq!(format.copy_block_size(GpuTextureAspect::All), expected_copy_size);

        let facts = format_capabilities(
            format,
            format_features(
                TextureUsages::TEXTURE_BINDING
                    | TextureUsages::RENDER_ATTACHMENT
                    | TextureUsages::COPY_SRC
                    | TextureUsages::COPY_DST,
                TextureFormatFeatureFlags::FILTERABLE,
            ),
        );
        assert!(facts.sampled);
        assert!(facts.filterable);
        assert!(facts.depth_stencil);
        assert!(facts.copy_source);
        assert!(facts.copy_destination);
        assert!(!facts.color_attachment);
        assert!(!facts.storage_read);
        assert!(!facts.storage_write);
        assert_eq!(facts.block_dimensions, None);
        assert_eq!(facts.block_copy_size, None);
    }
}

#[test]
fn shared_texture_mapping_is_unique_and_preserves_closed_presentation() {
    let census = all_texture_formats();
    assert_eq!(census.len(), 57);
    let mut normalized = Vec::new();
    for format in &census {
        assert!(!normalized.contains(format));
        normalized.push(*format);
    }
    assert_eq!(known_formats().len(), 15);
    for format in [
        GpuTextureFormat::R8Snorm,
        GpuTextureFormat::R8Uint,
        GpuTextureFormat::R8Sint,
        GpuTextureFormat::Rg8Unorm,
        GpuTextureFormat::Rg8Snorm,
        GpuTextureFormat::Rg8Uint,
        GpuTextureFormat::Rg8Sint,
        GpuTextureFormat::R16Uint,
        GpuTextureFormat::R16Sint,
        GpuTextureFormat::R16Float,
        GpuTextureFormat::Rg16Uint,
        GpuTextureFormat::Rg16Sint,
        GpuTextureFormat::Rg16Float,
    ] {
        assert!(!is_presentation_format(format));
        assert!(census.contains(&format));
    }
}

#[test]
fn device_request_profile_follows_backend_and_compliance() {
    let compliant = downlevel(DownlevelFlags::compliant());
    let without_compute = downlevel(DownlevelFlags::compliant() - DownlevelFlags::COMPUTE_SHADERS);
    assert_eq!(
        select_device_request_profile(GpuBackendFamily::BrowserWebGpu, without_compute, GpuNativeShaderModel::Sm2),
        GpuDeviceRequestProfile::BrowserWebGpu
    );
    assert_eq!(
        select_device_request_profile(GpuBackendFamily::OpenGl, without_compute, GpuNativeShaderModel::Sm5),
        GpuDeviceRequestProfile::DownlevelWebGl2
    );
    assert_eq!(
        select_device_request_profile(GpuBackendFamily::Vulkan, compliant, GpuNativeShaderModel::Sm4),
        GpuDeviceRequestProfile::Downlevel
    );
    assert_eq!(
        select_device_request_profile(GpuBackendFamily::OpenGl, compliant, GpuNativeShaderModel::Sm5),
        GpuDeviceRequestProfile::ModernPortable
    );
}

#[test]
fn webgpu_compliance_needs_every_compliant_flag_and_shader_model_5() {
    let cases = [
        (DownlevelFlags::all(), ShaderModel::Sm5, GpuNativeShaderModel::Sm5),
        (DownlevelFlags::compliant(), ShaderModel::Sm5, GpuNativeShaderModel::Sm5),
        (DownlevelFlags::all(), ShaderModel::Sm4, GpuNativeShaderModel::Sm4),
        (DownlevelFlags::all(), ShaderModel::Sm2, GpuNativeShaderModel::Sm2),
        (DownlevelFlags::compliant() - DownlevelFlags::INDIRECT_EXECUTION, ShaderModel::Sm5, GpuNativeShaderModel::Sm5),
        (DownlevelFlags::empty(), ShaderModel::Sm5, GpuNativeShaderModel::Sm5),
    ];
    for (flags, native_model, model) in cases {
        let native = DownlevelCapabilities { flags, limits: DownlevelLimits::default(), shader_model: native_model };
        assert_eq!(is_webgpu_compliant(downlevel(flags), model), native.is_webgpu_compliant());
    }
    assert!(is_webgpu_compliant(downlevel(DownlevelFlags::compliant()), GpuNativeShaderModel::Sm5));
    assert!(!is_webgpu_compliant(downlevel(DownlevelFlags::all()), GpuNativeShaderModel::Sm4));
    assert!(!is_webgpu_compliant(
        GpuNativeDownlevelFlags { bits: 0x03FF_FBFE },
        GpuNativeShaderModel::Sm5
    ));
}

#[test]
fn multisample_support_follows_the_native_sample_count_flags() {
    let none = format_features(TextureUsages::empty(), TextureFormatFeatureFlags::empty());
    assert!(none.sample_count_supported(1));
    assert!(!none.sample_count_supported(4));
    let four = format_features(
        TextureUsages::empty(),
        TextureFormatFeatureFlags::MULTISAMPLE_X4,
    );
    assert!(four.sample_count_supported(4));
    assert!(!four.sample_count_supported(2));
    assert!(!four.sample_count_supported(3));
}

#[test]
fn adapter_features_add_storage_textures_and_depth_attachments_only_when_shown() {
    let storage = format_features(
        TextureUsages::TEXTURE_BINDING | TextureUsages::STORAGE_BINDING,
        TextureFormatFeatureFlags::STORAGE_WRITE_ONLY,
    );
    let sampled = format_features(TextureUsages::TEXTURE_BINDING, TextureFormatFeatureFlags::empty());
    let observed = vec![
        (GpuTextureFormat::Rgba8Unorm, sampled),
        (GpuTextureFormat::R32Float, storage),
    ];
    let capabilities = adapter_format_capabilities(GpuNativeFeatures::empty(), &observed);
    assert_eq!(capabilities.len(), 2);
    assert!(!capabilities[0].1.storage_write);
    assert!(capabilities[1].1.storage_write);
    let depth = format_features(TextureUsages::RENDER_ATTACHMENT, TextureFormatFeatureFlags::empty());
    let supported = adapter_supported_features(
        GpuBackendFamily::Vulkan,
        GpuNativeFeatures::empty(),
        downlevel(DownlevelFlags::all()),
        GpuNativeShaderModel::Sm5,
        false,
        &capabilities,
        depth,
    );
    assert_eq!(supported[supported.len() - 2], GpuCapabilityFeature::StorageTexture);
    assert_eq!(supported[supported.len() - 1], GpuCapabilityFeature::DepthAttachment);

    let downlevel_only = adapter_supported_features(
        GpuBackendFamily::Vulkan,
        GpuNativeFeatures::empty(),
        downlevel(DownlevelFlags::all()),
        GpuNativeShaderModel::Sm4,
        false,
        &capabilities,
        depth,
    );
    assert!(!downlevel_only.contains(&GpuCapabilityFeature::StorageTexture));
    assert!(!downlevel_only.contains(&GpuCapabilityFeature::DepthAttachment));
    let bc_only = adapter_format_capabilities(
        GpuNativeFeatures::empty(),
        &vec![(GpuTextureFormat::Bc7RgbaUnorm, storage)],
    );
    assert_eq!(bc_only[0].1, GpuTextureFormatCapabilities::none());
}
