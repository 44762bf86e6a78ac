use runen_gpu::capabilities::GpuCapabilityFeature;
use runen_gpu::device_request::{
    backend_selected_fallback_status, native_features_for, native_selection_route,
    ordinary_enumeration_fallback_status, requested_alignment, requested_features,
    take_selected_candidate, verify_requested_features, GpuCandidateId,
    GpuContextRequestErrorCategory, GpuNativeAdapterCandidate,
};
use runen_gpu::native::{
    GpuFallbackStatus, GpuFormatRole, GpuNativeFeature, GpuNativeFeatures,
    GpuSoftwareFallbackPolicy, NativeAdapterSelectionRoute,
};
use runen_gpu::texture_format::GpuTextureFormat;

#[test]
fn native_fallback_policies_have_only_the_explicit_selection_routes() {
    assert_eq!(
        native_selection_route(GpuSoftwareFallbackPolicy::Allow),
        NativeAdapterSelectionRoute::Enumerated
    );
    assert_eq!(
        native_selection_route(GpuSoftwareFallbackPolicy::Forbid),
        NativeAdapterSelectionRoute::Enumerated
    );
    assert_eq!(
        native_selection_route(GpuSoftwareFallbackPolicy::Require),
        NativeAdapterSelectionRoute::ForcedFallback
    );
    assert_eq!(
        ordinary_enumeration_fallback_status(),
        GpuFallbackStatus::Unknown,
        "native enumeration must not claim non-fallback evidence without backend proof"
    );
    assert_eq!(backend_selected_fallback_status(true), GpuFallbackStatus::ConfirmedFallback);
    assert_eq!(backend_selected_fallback_status(false), GpuFallbackStatus::Unknown);
}

fn only(feature: GpuNativeFeature) -> GpuNativeFeatures {
    GpuNativeFeatures::empty().with(feature)
}

fn requested_for_role(format: GpuTextureFormat, role: GpuFormatRole) -> GpuNativeFeatures {
    requested_features(&Vec::new(), &vec![(format, role)])
}

#[test]
fn created_device_must_verify_every_requested_wgpu_feature() {
    let empty = GpuNativeFeatures::empty();
    for feature in [
        GpuNativeFeature::TimestampQuery,
        GpuNativeFeature::Depth32FloatStencil8,
        GpuNativeFeature::Rg11b10UfloatRenderable,
    ] {
        let error = verify_requested_features(only(feature), empty).unwrap_err();
        assert_eq!(error.category(), GpuContextRequestErrorCategory::BackendDeviceRequestFailure);
        assert_eq!(error.message(), "created device did not expose every admitted WGPU feature");
        assert!(verify_requested_features(only(feature), only(feature)).is_ok());
    }
}

#[test]
fn depth32float_stencil8_roles_request_only_the_private_backend_prerequisite() {
    assert!(!requested_features(&Vec::new(), &Vec::new()).has(GpuNativeFeature::Depth32FloatStencil8));
    for role in [
        GpuFormatRole::Sampled,
        GpuFormatRole::DepthStencil,
        GpuFormatRole::CopySource,
        GpuFormatRole::CopyDestination,
    ] {
        let requested = requested_for_role(GpuTextureFormat::Depth32FloatStencil8, role);
        assert!(requested.has(GpuNativeFeature::Depth32FloatStencil8), "{role:?}");
        assert!(!requested.has(GpuNativeFeature::TextureCompressionBc), "{role:?}");
    }
}

#[test]
fn rg11b10_render_role_requests_only_its_private_backend_prerequisite() {
    assert!(!requested_features(&Vec::new(), &Vec::new()).has(GpuNativeFeature::Rg11b10UfloatRenderable));
    for role in [
        GpuFormatRole::Sampled,
        GpuFormatRole::CopySource,
        GpuFormatRole::CopyDestination,
    ] {
        assert!(
            !requested_for_role(GpuTextureFormat::Rg11b10Ufloat, role)
                .has(GpuNativeFeature::Rg11b10UfloatRenderable),
            "{role:?}"
        );
    }
    assert!(requested_for_role(GpuTextureFormat::Rg11b10Ufloat, GpuFormatRole::ColorAttachment)
        .has(GpuNativeFeature::Rg11b10UfloatRenderable));
}

#[test]
fn shader_f16_requests_the_exact_wgpu_feature() {
    assert_eq!(native_features_for(GpuCapabilityFeature::ShaderF16), only(GpuNativeFeature::ShaderF16));
}

#[test]
fn depth_bias_clamp_is_an_admission_fact_not_a_wgpu_feature_request() {
    assert_eq!(native_features_for(GpuCapabilityFeature::DepthBiasClamp), GpuNativeFeatures::empty());
}

#[test]
fn binding_array_capabilities_request_their_exact_backend_feature_bits() {
    let enabled = vec![
        GpuCapabilityFeature::TextureBindingArray,
        GpuCapabilityFeature::BufferBindingArray,
        GpuCapabilityFeature::StorageResourceBindingArray,
    ];
    assert_eq!(
        requested_features(&enabled, &Vec::new()),
        only(GpuNativeFeature::TextureBindingArray)
            .with(GpuNativeFeature::BufferBindingArray)
            .with(GpuNativeFeature::StorageResourceBindingArray)
    );
    assert_eq!(
        native_features_for(GpuCapabilityFeature::UniformBufferBindingArray),
        only(GpuNativeFeature::UniformBufferBindingArrays)
    );
}

#[test]
fn bc_format_roles_request_the_private_compression_feature_without_public_duplication() {
    assert!(!requested_features(&Vec::new(), &Vec::new()).has(GpuNativeFeature::TextureCompressionBc));
    let formats = [
        GpuTextureFormat::Bc1RgbaUnorm,
        GpuTextureFormat::Bc1RgbaUnormSrgb,
        GpuTextureFormat::Bc2RgbaUnorm,
        GpuTextureFormat::Bc2RgbaUnormSrgb,
        GpuTextureFormat::Bc3RgbaUnorm,
        GpuTextureFormat::Bc3RgbaUnormSrgb,
        GpuTextureFormat::Bc4RUnorm,
        GpuTextureFormat::Bc4RSnorm,
        GpuTextureFormat::Bc5RgUnorm,
        GpuTextureFormat::Bc5RgSnorm,
        GpuTextureFormat::Bc6hRgbUfloat,
        GpuTextureFormat::Bc6hRgbFloat,
        GpuTextureFormat::Bc7RgbaUnorm,
        GpuTextureFormat::Bc7RgbaUnormSrgb,
    ];
    for format in formats {
        for role in [
            GpuFormatRole::Sampled,
            GpuFormatRole::CopySource,
            GpuFormatRole::CopyDestination,
        ] {
            assert_eq!(
                requested_for_role(format, role),
                only(GpuNativeFeature::TextureCompressionBc),
                "{format:?} {role:?}"
            );
        }
    }
}

#[test]
fn timestamp_and_format_requests_combine() {
    let requested = requested_features(
        &vec![GpuCapabilityFeature::TimestampQuery, GpuCapabilityFeature::Compute],
        &vec![(GpuTextureFormat::Depth32FloatStencil8, GpuFormatRole::DepthStencil)],
    );
    assert_eq!(
        requested,
        only(GpuNativeFeature::TimestampQuery).with(GpuNativeFeature::Depth32FloatStencil8)
    );
}

#[test]
fn requested_alignment_is_narrowed_or_refused() {
    assert_eq!(requested_alignment(Some(256), "uniform dynamic offset").unwrap(), 256);
    let missing = requested_alignment(None, "uniform dynamic offset").unwrap_err();
    assert_eq!(missing.category(), GpuContextRequestErrorCategory::AlignmentIncompatibility);
    assert_eq!(missing.message(), "uniform dynamic offset has no requestable admitted value");
    let wide = requested_alignment(Some(u64::from(u32::MAX) + 1), "storage dynamic offset").unwrap_err();
    assert_eq!(wide.category(), GpuContextRequestErrorCategory::AlignmentIncompatibility);
    assert_eq!(wide.message(), "storage dynamic offset exceeds the pinned WGPU alignment domain");
    assert_eq!(requested_alignment(Some(u64::from(u32::MAX)), "x").unwrap(), u32::MAX);
}

#[test]
fn the_selected_candidate_is_taken_or_refused() {
    let candidates = vec![
        GpuNativeAdapterCandidate { id: GpuCandidateId(3), adapter: "a" },
        GpuNativeAdapterCandidate { id: GpuCandidateId(5), adapter: "b" },
        GpuNativeAdapterCandidate { id: GpuCandidateId(5), adapter: "c" },
    ];
    assert_eq!(take_selected_candidate(candidates, GpuCandidateId(5)).unwrap(), "b");
    let candidates = vec![GpuNativeAdapterCandidate { id: GpuCandidateId(3), adapter: "a" }];
    let error = take_selected_candidate(candidates, GpuCandidateId(9)).unwrap_err();
    assert_eq!(error.category(), GpuContextRequestErrorCategory::BackendAdapterRequestFailure);
    assert_eq!(error.message(), "selected candidate ID is absent from the native candidate set");
}
