use runen_gpu::device_request::GpuContextRequestErrorCategory;
use runen_gpu::limits::{
    check_created_device, check_requested_limits, limits_within, profile_limits_preset,
    requested_limits, GpuNativeLimits, GpuNativeLimitsPreset,
};
use runen_gpu::native::{GpuDeviceRequestProfile, GpuNativeFeature, GpuNativeFeatures};
use wgpu::Limits;

fn native_limits(limits: &Limits) -> GpuNativeLimits {
    GpuNativeLimits {
        max_texture_dimension_1d: limits.max_texture_dimension_1d,
        max_texture_dimension_2d: limits.max_texture_dimension_2d,
        max_texture_dimension_3d: limits.max_texture_dimension_3d,
        max_texture_array_layers: limits.max_texture_array_layers,
        max_bind_groups: limits.max_bind_groups,
        max_bind_groups_plus_vertex_buffers: limits.max_bind_groups_plus_vertex_buffers,
        max_bindings_per_bind_group: limits.max_bindings_per_bind_group,
        max_dynamic_uniform_buffers_per_pipeline_layout: limits.max_dynamic_uniform_buffers_per_pipeline_layout,
        max_dynamic_storage_buffers_per_pipeline_layout: limits.max_dynamic_storage_buffers_per_pipeline_layout,
        max_sampled_textures_per_shader_stage: limits.max_sampled_textures_per_shader_stage,
        max_samplers_per_shader_stage: limits.max_samplers_per_shader_stage,
        max_storage_buffers_per_shader_stage: limits.max_storage_buffers_per_shader_stage,
        max_storage_textures_per_shader_stage: limits.max_storage_textures_per_shader_stage,
        max_uniform_buffers_per_shader_stage: limits.max_uniform_buffers_per_shader_stage,
        max_binding_array_elements_per_shader_stage: limits.max_binding_array_elements_per_shader_stage,
        max_binding_array_acceleration_structure_elements_per_shader_stage: limits.max_binding_array_acceleration_structure_elements_per_shader_stage,
        max_binding_array_sampler_elements_per_shader_stage: limits.max_binding_array_sampler_elements_per_shader_stage,
        max_uniform_buffer_binding_size: limits.max_uniform_buffer_binding_size,
        max_storage_buffer_binding_size: limits.max_storage_buffer_binding_size,
        max_vertex_buffers: limits.max_vertex_buffers,
        max_buffer_size: limits.max_buffer_size,
        max_vertex_attributes: limits.max_vertex_attributes,
        max_vertex_buffer_array_stride: limits.max_vertex_buffer_array_stride,
        max_inter_stage_shader_variables: limits.max_inter_stage_shader_variables,
        min_uniform_buffer_offset_alignment: limits.min_uniform_buffer_offset_alignment,
        min_storage_buffer_offset_alignment: limits.min_storage_buffer_offset_alignment,
        max_color_attachments: limits.max_color_attachments,
        max_color_attachment_bytes_per_sample: limits.max_color_attachment_bytes_per_sample,
        max_compute_workgroup_storage_size: limits.max_compute_workgroup_storage_size,
        max_compute_invocations_per_workgroup: limits.max_compute_invocations_per_workgroup,
        max_compute_workgroup_size_x: limits.max_compute_workgroup_size_x,
        max_compute_workgroup_size_y: limits.max_compute_workgroup_size_y,
        max_compute_workgroup_size_z: limits.max_compute_workgroup_size_z,
        max_compute_workgroups_per_dimension: limits.max_compute_workgroups_per_dimension,
        max_immediate_size: limits.max_immediate_size,
        max_non_sampler_bindings: limits.max_non_sampler_bindings,
        max_task_workgroup_total_count: limits.max_task_workgroup_total_count,
        max_task_workgroups_per_dimension: limits.max_task_workgroups_per_dimension,
        max_mesh_workgroup_total_count: limits.max_mesh_workgroup_total_count,
        max_mesh_workgroups_per_dimension: limits.max_mesh_workgroups_per_dimension,
        max_task_invocations_per_workgroup: limits.max_task_invocations_per_workgroup,
        max_task_invocations_per_dimension: limits.max_task_invocations_per_dimension,
        max_mesh_invocations_per_workgroup: limits.max_mesh_invocations_per_workgroup,
        max_mesh_invocations_per_dimension: limits.max_mesh_invocations_per_dimension,
        max_task_payload_size: limits.max_task_payload_size,
        max_mesh_output_vertices: limits.max_mesh_output_vertices,
        max_mesh_output_primitives: limits.max_mesh_output_primitives,
        max_mesh_output_layers: limits.max_mesh_output_layers,
        max_mesh_multiview_view_count: limits.max_mesh_multiview_view_count,
        max_blas_primitive_count: limits.max_blas_primitive_count,
        max_blas_geometry_count: limits.max_blas_geometry_count,
        max_tlas_instance_count: limits.max_tlas_instance_count,
        max_acceleration_structures_per_shader_stage: limits.max_acceleration_structures_per_shader_stage,
        max_buffers_and_acceleration_structures_per_shader_stage: limits.max_buffers_and_acceleration_structures_per_shader_stage,
        max_multiview_view_count: limits.max_multiview_view_count,
        max_ray_dispatch_count: limits.max_ray_dispatch_count,
        max_ray_recursion_depth: limits.max_ray_recursion_depth,
    }
}

#[test]
fn limits_within_compares_as_wgpu_check_limits() {
    let presets = [Limits::defaults(), Limits::downlevel_defaults(), Limits::downlevel_webgl2_defaults()];
    for requested in &presets {
        for allowed in &presets {
            assert_eq!(
                limits_within(&native_limits(requested), &native_limits(allowed)),
                requested.check_limits(allowed)
            );
        }
    }
    assert!(limits_within(&native_limits(&Limits::downlevel_defaults()), &native_limits(&Limits::defaults())));
    assert!(!limits_within(&native_limits(&Limits::defaults()), &native_limits(&Limits::downlevel_defaults())));
}

#[test]
fn a_smaller_alignment_or_a_larger_maximum_is_not_within() {
    let allowed = Limits::defaults();
    let finer = Limits { min_uniform_buffer_offset_alignment: 64, ..Limits::defaults() };
    assert!(!finer.check_limits(&allowed));
    assert!(!limits_within(&native_limits(&finer), &native_limits(&allowed)));
    let coarser = Limits { min_storage_buffer_offset_alignment: 512, ..Limits::defaults() };
    assert!(limits_within(&native_limits(&coarser), &native_limits(&allowed)));
    let larger = Limits { max_ray_recursion_depth: 1, ..Limits::defaults() };
    assert!(!limits_within(&native_limits(&larger), &native_limits(&allowed)));
    assert_eq!(
        limits_within(&native_limits(&larger), &native_limits(&allowed)),
        larger.check_limits(&allowed)
    );
}

#[test]
fn limits_within_is_reflexive_and_transitive() {
    let webgl2 = native_limits(&Limits::downlevel_webgl2_defaults());
    let downlevel = native_limits(&Limits::downlevel_defaults());
    let modern = native_limits(&Limits::defaults());
    assert!(limits_within(&modern, &modern));
    assert!(limits_within(&webgl2, &downlevel));
    assert!(limits_within(&downlevel, &modern));
    assert!(limits_within(&webgl2, &modern));
}

#[test]
fn profiles_start_from_their_presets() {
    assert_eq!(profile_limits_preset(GpuDeviceRequestProfile::ModernPortable), GpuNativeLimitsPreset::Defaults);
    assert_eq!(profile_limits_preset(GpuDeviceRequestProfile::BrowserWebGpu), GpuNativeLimitsPreset::Defaults);
    assert_eq!(profile_limits_preset(GpuDeviceRequestProfile::Downlevel), GpuNativeLimitsPreset::DownlevelDefaults);
    assert_eq!(
        profile_limits_preset(GpuDeviceRequestProfile::DownlevelWebGl2),
        GpuNativeLimitsPreset::DownlevelWebGl2Defaults
    );
}

fn budget() -> GpuNativeLimits {
    let mut budget = native_limits(&Limits::downlevel_webgl2_defaults());
    budget.max_texture_dimension_2d = 4096;
    budget.max_buffer_size = 1 << 20;
    budget.max_binding_array_elements_per_shader_stage = 3;
    budget.max_compute_workgroup_storage_size = 7;
    budget
}

#[test]
fn requested_limits_write_the_budget_and_alignments_over_the_profile() {
    let base = native_limits(&Limits::defaults());
    let limits = requested_limits(&base, &budget(), Some(64), Some(128)).unwrap();
    assert_eq!(limits.max_texture_dimension_2d, 4096);
    assert_eq!(limits.max_buffer_size, 1 << 20);
    assert_eq!(limits.max_binding_array_elements_per_shader_stage, 3);
    assert_eq!(limits.max_uniform_buffer_binding_size, budget().max_uniform_buffer_binding_size);
    assert_eq!(limits.min_uniform_buffer_offset_alignment, 64);
    assert_eq!(limits.min_storage_buffer_offset_alignment, 128);
    // Limits outside the budget keep the profile's values.
    assert_eq!(limits.max_compute_workgroup_storage_size, base.max_compute_workgroup_storage_size);
    assert_eq!(limits.max_inter_stage_shader_variables, base.max_inter_stage_shader_variables);
}

#[test]
fn requested_limits_refuse_missing_or_oversized_alignments() {
    let base = native_limits(&Limits::defaults());
    let missing = requested_limits(&base, &budget(), None, Some(256)).unwrap_err();
    assert_eq!(missing.category(), GpuContextRequestErrorCategory::AlignmentIncompatibility);
    assert_eq!(missing.message(), "uniform dynamic offset has no requestable admitted value");
    let oversized = requested_limits(&base, &budget(), Some(256), Some(1 << 40)).unwrap_err();
    assert_eq!(oversized.category(), GpuContextRequestErrorCategory::AlignmentIncompatibility);
    assert_eq!(oversized.message(), "storage dynamic offset exceeds the pinned WGPU alignment domain");
    let both = requested_limits(&base, &budget(), Some(1 << 33), None).unwrap_err();
    assert_eq!(both.message(), "uniform dynamic offset exceeds the pinned WGPU alignment domain");
    assert!(requested_limits(&base, &budget(), Some(u64::from(u32::MAX)), Some(4)).is_ok());
}

#[test]
fn an_adapter_short_of_the_requested_limits_is_refused() {
    let requested = native_limits(&Limits::defaults());
    assert!(check_requested_limits(&requested, &requested).is_ok());
    let error = check_requested_limits(&requested, &native_limits(&Limits::downlevel_webgl2_defaults())).unwrap_err();
    assert_eq!(error.category(), GpuContextRequestErrorCategory::DeviceRequestProfileUnsupported);
    assert_eq!(error.message(), "selected adapter cannot satisfy the complete requested device profile");
}

#[test]
fn a_created_device_must_expose_the_requested_features_and_limits() {
    let limits = native_limits(&Limits::downlevel_defaults());
    let timestamps = GpuNativeFeatures::empty().with(GpuNativeFeature::TimestampQuery);
    assert!(check_created_device(timestamps, &limits, timestamps, &limits).is_ok());
    let missing_feature = check_created_device(timestamps, &limits, GpuNativeFeatures::empty(), &limits).unwrap_err();
    assert_eq!(missing_feature.category(), GpuContextRequestErrorCategory::BackendDeviceRequestFailure);
    assert_eq!(missing_feature.message(), "created device did not expose every admitted WGPU feature");
    let weaker = native_limits(&Limits::downlevel_webgl2_defaults());
    let missing_limit = check_created_device(timestamps, &limits, timestamps, &weaker).unwrap_err();
    assert_eq!(missing_limit.category(), GpuContextRequestErrorCategory::BackendDeviceRequestFailure);
    assert_eq!(missing_limit.message(), "created device did not expose the complete admitted request profile");
    let both = check_created_device(timestamps, &limits, GpuNativeFeatures::empty(), &weaker).unwrap_err();
    assert_eq!(both.message(), "created device did not expose every admitted WGPU feature");
}
