//! Native device limits: the limits a device request asks for, and the checks that an adapter
//! and a created device meet them.

use vstd::prelude::*;
use crate::device_request::{
    requested_alignment, verify_requested_features, GpuContextRequestError,
    GpuContextRequestErrorCategory,
};
use crate::native::{GpuDeviceRequestProfile, GpuNativeFeatures};

verus! {

/// Every limit of a native device, as wgpu reports and requests it.
#[derive(Debug, Clone, Copy, PartialEq, Eq, Structural, Hash)]
pub struct GpuNativeLimits {
    pub max_texture_dimension_1d: u32,
    pub max_texture_dimension_2d: u32,
    pub max_texture_dimension_3d: u32,
    pub max_texture_array_layers: u32,
    pub max_bind_groups: u32,
    pub max_bind_groups_plus_vertex_buffers: u32,
    pub max_bindings_per_bind_group: u32,
    pub max_dynamic_uniform_buffers_per_pipeline_layout: u32,
    pub max_dynamic_storage_buffers_per_pipeline_layout: u32,
    pub max_sampled_textures_per_shader_stage: u32,
    pub max_samplers_per_shader_stage: u32,
    pub max_storage_buffers_per_shader_stage: u32,
    pub max_storage_textures_per_shader_stage: u32,
    pub max_uniform_buffers_per_shader_stage: u32,
    pub max_binding_array_elements_per_shader_stage: u32,
    pub max_binding_array_acceleration_structure_elements_per_shader_stage: u32,
    pub max_binding_array_sampler_elements_per_shader_stage: u32,
    pub max_uniform_buffer_binding_size: u64,
    pub max_storage_buffer_binding_size: u64,
    pub max_vertex_buffers: u32,
    pub max_buffer_size: u64,
    pub max_vertex_attributes: u32,
    pub max_vertex_buffer_array_stride: u32,
    pub max_inter_stage_shader_variables: u32,
    pub min_uniform_buffer_offset_alignment: u32,
    pub min_storage_buffer_offset_alignment: u32,
    pub max_color_attachments: u32,
    pub max_color_attachment_bytes_per_sample: u32,
    pub max_compute_workgroup_storage_size: u32,
    pub max_compute_invocations_per_workgroup: u32,
    pub max_compute_workgroup_size_x: u32,
    pub max_compute_workgroup_size_y: u32,
    pub max_compute_workgroup_size_z: u32,
    pub max_compute_workgroups_per_dimension: u32,
    pub max_immediate_size: u32,
    pub max_non_sampler_bindings: u32,
    pub max_task_workgroup_total_count: u32,
    pub max_task_workgroups_per_dimension: u32,
    pub max_mesh_workgroup_total_count: u32,
    pub max_mesh_workgroups_per_dimension: u32,
    pub max_task_invocations_per_workgroup: u32,
    pub max_task_invocations_per_dimension: u32,
    pub max_mesh_invocations_per_workgroup: u32,
    pub max_mesh_invocations_per_dimension: u32,
    pub max_task_payload_size: u32,
    pub max_mesh_output_vertices: u32,
    pub max_mesh_output_primitives: u32,
    pub max_mesh_output_layers: u32,
    pub max_mesh_multiview_view_count: u32,
    pub max_blas_primitive_count: u32,
    pub max_blas_geometry_count: u32,
    pub max_tlas_instance_count: u32,
    pub max_acceleration_structures_per_shader_stage: u32,
    pub max_buffers_and_acceleration_structures_per_shader_stage: u32,
    pub max_multiview_view_count: u32,
    pub max_ray_dispatch_count: u32,
    pub max_ray_recursion_depth: u32,
}

/// Whether every limit of `requested` stays within `allowed`: a maximum may not exceed the
/// allowed maximum, and a minimum alignment may not undercut the allowed alignment.
pub open spec fn spec_limits_within(requested: GpuNativeLimits, allowed: GpuNativeLimits) -> bool {
    &&& requested.max_texture_dimension_1d <= allowed.max_texture_dimension_1d
    &&& requested.max_texture_dimension_2d <= allowed.max_texture_dimension_2d
    &&& requested.max_texture_dimension_3d <= allowed.max_texture_dimension_3d
    &&& requested.max_texture_array_layers <= allowed.max_texture_array_layers
    &&& requested.max_bind_groups <= allowed.max_bind_groups
    &&& requested.max_bind_groups_plus_vertex_buffers <= allowed.max_bind_groups_plus_vertex_buffers
    &&& requested.max_bindings_per_bind_group <= allowed.max_bindings_per_bind_group
    &&& requested.max_dynamic_uniform_buffers_per_pipeline_layout <= allowed.max_dynamic_uniform_buffers_per_pipeline_layout
    &&& requested.max_dynamic_storage_buffers_per_pipeline_layout <= allowed.max_dynamic_storage_buffers_per_pipeline_layout
    &&& requested.max_sampled_textures_per_shader_stage <= allowed.max_sampled_textures_per_shader_stage
    &&& requested.max_samplers_per_shader_stage <= allowed.max_samplers_per_shader_stage
    &&& requested.max_storage_buffers_per_shader_stage <= allowed.max_storage_buffers_per_shader_stage
    &&& requested.max_storage_textures_per_shader_stage <= allowed.max_storage_textures_per_shader_stage
    &&& requested.max_uniform_buffers_per_shader_stage <= allowed.max_uniform_buffers_per_shader_stage
    &&& requested.max_binding_array_elements_per_shader_stage <= allowed.max_binding_array_elements_per_shader_stage
    &&& requested.max_binding_array_acceleration_structure_elements_per_shader_stage <= allowed.max_binding_array_acceleration_structure_elements_per_shader_stage
    &&& requested.max_binding_array_sampler_elements_per_shader_stage <= allowed.max_binding_array_sampler_elements_per_shader_stage
    &&& requested.max_uniform_buffer_binding_size <= allowed.max_uniform_buffer_binding_size
    &&& requested.max_storage_buffer_binding_size <= allowed.max_storage_buffer_binding_size
    &&& requested.max_vertex_buffers <= allowed.max_vertex_buffers
    &&& requested.max_buffer_size <= allowed.max_buffer_size
    &&& requested.max_vertex_attributes <= allowed.max_vertex_attributes
    &&& requested.max_vertex_buffer_array_stride <= allowed.max_vertex_buffer_array_stride
    &&& requested.max_inter_stage_shader_variables <= allowed.max_inter_stage_shader_variables
    &&& requested.min_uniform_buffer_offset_alignment >= allowed.min_uniform_buffer_offset_alignment
    &&& requested.min_storage_buffer_offset_alignment >= allowed.min_storage_buffer_offset_alignment
    &&& requested.max_color_attachments <= allowed.max_color_attachments
    &&& requested.max_color_attachment_bytes_per_sample <= allowed.max_color_attachment_bytes_per_sample
    &&& requested.max_compute_workgroup_storage_size <= allowed.max_compute_workgroup_storage_size
    &&& requested.max_compute_invocations_per_workgroup <= allowed.max_compute_invocations_per_workgroup
    &&& requested.max_compute_workgroup_size_x <= allowed.max_compute_workgroup_size_x
    &&& requested.max_compute_workgroup_size_y <= allowed.max_compute_workgroup_size_y
    &&& requested.max_compute_workgroup_size_z <= allowed.max_compute_workgroup_size_z
    &&& requested.max_compute_workgroups_per_dimension <= allowed.max_compute_workgroups_per_dimension
    &&& requested.max_immediate_size <= allowed.max_immediate_size
    &&& requested.max_non_sampler_bindings <= allowed.max_non_sampler_bindings
    &&& requested.max_task_workgroup_total_count <= allowed.max_task_workgroup_total_count
    &&& requested.max_task_workgroups_per_dimension <= allowed.max_task_workgroups_per_dimension
    &&& requested.max_mesh_workgroup_total_count <= allowed.max_mesh_workgroup_total_count
    &&& requested.max_mesh_workgroups_per_dimension <= allowed.max_mesh_workgroups_per_dimension
    &&& requested.max_task_invocations_per_workgroup <= allowed.max_task_invocations_per_workgroup
    &&& requested.max_task_invocations_per_dimension <= allowed.max_task_invocations_per_dimension
    &&& requested.max_mesh_invocations_per_workgroup <= allowed.max_mesh_invocations_per_workgroup
    &&& requested.max_mesh_invocations_per_dimension <= allowed.max_mesh_invocations_per_dimension
    &&& requested.max_task_payload_size <= allowed.max_task_payload_size
    &&& requested.max_mesh_output_vertices <= allowed.max_mesh_output_vertices
    &&& requested.max_mesh_output_primitives <= allowed.max_mesh_output_primitives
    &&& requested.max_mesh_output_layers <= allowed.max_mesh_output_layers
    &&& requested.max_mesh_multiview_view_count <= allowed.max_mesh_multiview_view_count
    &&& requested.max_blas_primitive_count <= allowed.max_blas_primitive_count
    &&& requested.max_blas_geometry_count <= allowed.max_blas_geometry_count
    &&& requested.max_tlas_instance_count <= allowed.max_tlas_instance_count
    &&& requested.max_acceleration_structures_per_shader_stage <= allowed.max_acceleration_structures_per_shader_stage
    &&& requested.max_buffers_and_acceleration_structures_per_shader_stage <= allowed.max_buffers_and_acceleration_structures_per_shader_stage
    &&& requested.max_multiview_view_count <= allowed.max_multiview_view_count
    &&& requested.max_ray_dispatch_count <= allowed.max_ray_dispatch_count
    &&& requested.max_ray_recursion_depth <= allowed.max_ray_recursion_depth
}

/// Whether every limit of `requested` stays within `allowed`, compared limit by limit as
/// `wgpu::Limits::check_limits` compares them.
pub fn limits_within(requested: &GpuNativeLimits, allowed: &GpuNativeLimits) -> (r: bool)
    ensures
        r == spec_limits_within(*requested, *allowed),
{
    requested.max_texture_dimension_1d <= allowed.max_texture_dimension_1d
        && requested.max_texture_dimension_2d <= allowed.max_texture_dimension_2d
        && requested.max_texture_dimension_3d <= allowed.max_texture_dimension_3d
        && requested.max_texture_array_layers <= allowed.max_texture_array_layers
        && requested.max_bind_groups <= allowed.max_bind_groups
        && requested.max_bind_groups_plus_vertex_buffers <= allowed.max_bind_groups_plus_vertex_buffers
        && requested.max_bindings_per_bind_group <= allowed.max_bindings_per_bind_group
        && requested.max_dynamic_uniform_buffers_per_pipeline_layout <= allowed.max_dynamic_uniform_buffers_per_pipeline_layout
        && requested.max_dynamic_storage_buffers_per_pipeline_layout <= allowed.max_dynamic_storage_buffers_per_pipeline_layout
        && requested.max_sampled_textures_per_shader_stage <= allowed.max_sampled_textures_per_shader_stage
        && requested.max_samplers_per_shader_stage <= allowed.max_samplers_per_shader_stage
        && requested.max_storage_buffers_per_shader_stage <= allowed.max_storage_buffers_per_shader_stage
        && requested.max_storage_textures_per_shader_stage <= allowed.max_storage_textures_per_shader_stage
        && requested.max_uniform_buffers_per_shader_stage <= allowed.max_uniform_buffers_per_shader_stage
        && requested.max_binding_array_elements_per_shader_stage <= allowed.max_binding_array_elements_per_shader_stage
        && requested.max_binding_array_acceleration_structure_elements_per_shader_stage <= allowed.max_binding_array_acceleration_structure_elements_per_shader_stage
        && requested.max_binding_array_sampler_elements_per_shader_stage <= allowed.max_binding_array_sampler_elements_per_shader_stage
        && requested.max_uniform_buffer_binding_size <= allowed.max_uniform_buffer_binding_size
        && requested.max_storage_buffer_binding_size <= allowed.max_storage_buffer_binding_size
        && requested.max_vertex_buffers <= allowed.max_vertex_buffers
        && requested.max_buffer_size <= allowed.max_buffer_size
        && requested.max_vertex_attributes <= allowed.max_vertex_attributes
        && requested.max_vertex_buffer_array_stride <= allowed.max_vertex_buffer_array_stride
        && requested.max_inter_stage_shader_variables <= allowed.max_inter_stage_shader_variables
        && requested.min_uniform_buffer_offset_alignment >= allowed.min_uniform_buffer_offset_alignment
        && requested.min_storage_buffer_offset_alignment >= allowed.min_storage_buffer_offset_alignment
        && requested.max_color_attachments <= allowed.max_color_attachments
        && requested.max_color_attachment_bytes_per_sample <= allowed.max_color_attachment_bytes_per_sample
        && requested.max_compute_workgroup_storage_size <= allowed.max_compute_workgroup_storage_size
        && requested.max_compute_invocations_per_workgroup <= allowed.max_compute_invocations_per_workgroup
        && requested.max_compute_workgroup_size_x <= allowed.max_compute_workgroup_size_x
        && requested.max_compute_workgroup_size_y <= allowed.max_compute_workgroup_size_y
        && requested.max_compute_workgroup_size_z <= allowed.max_compute_workgroup_size_z
        && requested.max_compute_workgroups_per_dimension <= allowed.max_compute_workgroups_per_dimension
        && requested.max_immediate_size <= allowed.max_immediate_size
        && requested.max_non_sampler_bindings <= allowed.max_non_sampler_bindings
        && requested.max_task_workgroup_total_count <= allowed.max_task_workgroup_total_count
        && requested.max_task_workgroups_per_dimension <= allowed.max_task_workgroups_per_dimension
        && requested.max_mesh_workgroup_total_count <= allowed.max_mesh_workgroup_total_count
        && requested.max_mesh_workgroups_per_dimension <= allowed.max_mesh_workgroups_per_dimension
        && requested.max_task_invocations_per_workgroup <= allowed.max_task_invocations_per_workgroup
        && requested.max_task_invocations_per_dimension <= allowed.max_task_invocations_per_dimension
        && requested.max_mesh_invocations_per_workgroup <= allowed.max_mesh_invocations_per_workgroup
        && requested.max_mesh_invocations_per_dimension <= allowed.max_mesh_invocations_per_dimension
        && requested.max_task_payload_size <= allowed.max_task_payload_size
        && requested.max_mesh_output_vertices <= allowed.max_mesh_output_vertices
        && requested.max_mesh_output_primitives <= allowed.max_mesh_output_primitives
        && requested.max_mesh_output_layers <= allowed.max_mesh_output_layers
        && requested.max_mesh_multiview_view_count <= allowed.max_mesh_multiview_view_count
        && requested.max_blas_primitive_count <= allowed.max_blas_primitive_count
        && requested.max_blas_geometry_count <= allowed.max_blas_geometry_count
        && requested.max_tlas_instance_count <= allowed.max_tlas_instance_count
        && requested.max_acceleration_structures_per_shader_stage <= allowed.max_acceleration_structures_per_shader_stage
        && requested.max_buffers_and_acceleration_structures_per_shader_stage <= allowed.max_buffers_and_acceleration_structures_per_shader_stage
        && requested.max_multiview_view_count <= allowed.max_multiview_view_count
        && requested.max_ray_dispatch_count <= allowed.max_ray_dispatch_count
        && requested.max_ray_recursion_depth <= allowed.max_ray_recursion_depth
}

/// The limits a device request asks for: `base` with the admitted workload budget and the
/// two dynamic-offset alignments written over it.
pub open spec fn spec_requested_limits(
    base: GpuNativeLimits,
    budget: GpuNativeLimits,
    uniform_alignment: u32,
    storage_alignment: u32,
) -> GpuNativeLimits {
    GpuNativeLimits {
        max_uniform_buffer_binding_size: budget.max_uniform_buffer_binding_size,
        max_storage_buffer_binding_size: budget.max_storage_buffer_binding_size,
        max_color_attachments: budget.max_color_attachments,
        max_vertex_buffers: budget.max_vertex_buffers,
        max_bindings_per_bind_group: budget.max_bindings_per_bind_group,
        max_texture_dimension_2d: budget.max_texture_dimension_2d,
        max_bind_groups: budget.max_bind_groups,
        max_bind_groups_plus_vertex_buffers: budget.max_bind_groups_plus_vertex_buffers,
        max_dynamic_uniform_buffers_per_pipeline_layout: budget.max_dynamic_uniform_buffers_per_pipeline_layout,
        max_dynamic_storage_buffers_per_pipeline_layout: budget.max_dynamic_storage_buffers_per_pipeline_layout,
        max_compute_workgroups_per_dimension: budget.max_compute_workgroups_per_dimension,
        max_buffer_size: budget.max_buffer_size,
        max_texture_dimension_1d: budget.max_texture_dimension_1d,
        max_texture_dimension_3d: budget.max_texture_dimension_3d,
        max_texture_array_layers: budget.max_texture_array_layers,
        max_vertex_attributes: budget.max_vertex_attributes,
        max_vertex_buffer_array_stride: budget.max_vertex_buffer_array_stride,
        max_binding_array_elements_per_shader_stage: budget.max_binding_array_elements_per_shader_stage,
        max_binding_array_sampler_elements_per_shader_stage: budget.max_binding_array_sampler_elements_per_shader_stage,
        min_uniform_buffer_offset_alignment: uniform_alignment,
        min_storage_buffer_offset_alignment: storage_alignment,
        ..base
    }
}

/// Limits always stay within themselves, and staying within is transitive: a device exposing
/// exactly the requested limits passes the check, and limits within a profile's limits stay
/// within every adapter that satisfies the profile.
pub proof fn lemma_limits_within_is_a_preorder(
    a: GpuNativeLimits,
    b: GpuNativeLimits,
    c: GpuNativeLimits,
)
    ensures
        spec_limits_within(a, a),
        spec_limits_within(a, b) && spec_limits_within(b, c) ==> spec_limits_within(a, c),
{
}

/// Requested limits carry every budgeted limit from the budget, the two dynamic-offset
/// alignments as admitted, and every other limit from the base the profile starts from.
pub proof fn lemma_requested_limits_take_the_budget_and_keep_the_base(
    base: GpuNativeLimits,
    budget: GpuNativeLimits,
    uniform_alignment: u32,
    storage_alignment: u32,
)
    ensures
        ({
            let r = spec_requested_limits(base, budget, uniform_alignment, storage_alignment);
            &&& r.max_uniform_buffer_binding_size == budget.max_uniform_buffer_binding_size
            &&& r.max_storage_buffer_binding_size == budget.max_storage_buffer_binding_size
            &&& r.max_color_attachments == budget.max_color_attachments
            &&& r.max_vertex_buffers == budget.max_vertex_buffers
            &&& r.max_bindings_per_bind_group == budget.max_bindings_per_bind_group
            &&& r.max_texture_dimension_2d == budget.max_texture_dimension_2d
            &&& r.max_bind_groups == budget.max_bind_groups
            &&& r.max_bind_groups_plus_vertex_buffers == budget.max_bind_groups_plus_vertex_buffers
            &&& r.max_dynamic_uniform_buffers_per_pipeline_layout == budget.max_dynamic_uniform_buffers_per_pipeline_layout
            &&& r.max_dynamic_storage_buffers_per_pipeline_layout == budget.max_dynamic_storage_buffers_per_pipeline_layout
            &&& r.max_compute_workgroups_per_dimension == budget.max_compute_workgroups_per_dimension
            &&& r.max_buffer_size == budget.max_buffer_size
            &&& r.max_texture_dimension_1d == budget.max_texture_dimension_1d
            &&& r.max_texture_dimension_3d == budget.max_texture_dimension_3d
            &&& r.max_texture_array_layers == budget.max_texture_array_layers
            &&& r.max_vertex_attributes == budget.max_vertex_attributes
            &&& r.max_vertex_buffer_array_stride == budget.max_vertex_buffer_array_stride
            &&& r.max_binding_array_elements_per_shader_stage == budget.max_binding_array_elements_per_shader_stage
            &&& r.max_binding_array_sampler_elements_per_shader_stage == budget.max_binding_array_sampler_elements_per_shader_stage
            &&& r.min_uniform_buffer_offset_alignment == uniform_alignment
            &&& r.min_storage_buffer_offset_alignment == storage_alignment
            &&& r.max_sampled_textures_per_shader_stage == base.max_sampled_textures_per_shader_stage
            &&& r.max_samplers_per_shader_stage == base.max_samplers_per_shader_stage
            &&& r.max_storage_buffers_per_shader_stage == base.max_storage_buffers_per_shader_stage
            &&& r.max_storage_textures_per_shader_stage == base.max_storage_textures_per_shader_stage
            &&& r.max_uniform_buffers_per_shader_stage == base.max_uniform_buffers_per_shader_stage
            &&& r.max_binding_array_acceleration_structure_elements_per_shader_stage == base.max_binding_array_acceleration_structure_elements_per_shader_stage
            &&& r.max_inter_stage_shader_variables == base.max_inter_stage_shader_variables
            &&& r.max_color_attachment_bytes_per_sample == base.max_color_attachment_bytes_per_sample
            &&& r.max_compute_workgroup_storage_size == base.max_compute_workgroup_storage_size
            &&& r.max_compute_invocations_per_workgroup == base.max_compute_invocations_per_workgroup
            &&& r.max_compute_workgroup_size_x == base.max_compute_workgroup_size_x
            &&& r.max_compute_workgroup_size_y == base.max_compute_workgroup_size_y
            &&& r.max_compute_workgroup_size_z == base.max_compute_workgroup_size_z
            &&& r.max_immediate_size == base.max_immediate_size
            &&& r.max_non_sampler_bindings == base.max_non_sampler_bindings
            &&& r.max_task_workgroup_total_count == base.max_task_workgroup_total_count
            &&& r.max_task_workgroups_per_dimension == base.max_task_workgroups_per_dimension
            &&& r.max_mesh_workgroup_total_count == base.max_mesh_workgroup_total_count
            &&& r.max_mesh_workgroups_per_dimension == base.max_mesh_workgroups_per_dimension
            &&& r.max_task_invocations_per_workgroup == base.max_task_invocations_per_workgroup
            &&& r.max_task_invocations_per_dimension == base.max_task_invocations_per_dimension
            &&& r.max_mesh_invocations_per_workgroup == base.max_mesh_invocations_per_workgroup
            &&& r.max_mesh_invocations_per_dimension == base.max_mesh_invocations_per_dimension
            &&& r.max_task_payload_size == base.max_task_payload_size
            &&& r.max_mesh_output_vertices == base.max_mesh_output_vertices
            &&& r.max_mesh_output_primitives == base.max_mesh_output_primitives
            &&& r.max_mesh_output_layers == base.max_mesh_output_layers
            &&& r.max_mesh_multiview_view_count == base.max_mesh_multiview_view_count
            &&& r.max_blas_primitive_count == base.max_blas_primitive_count
            &&& r.max_blas_geometry_count == base.max_blas_geometry_count
            &&& r.max_tlas_instance_count == base.max_tlas_instance_count
            &&& r.max_acceleration_structures_per_shader_stage == base.max_acceleration_structures_per_shader_stage
            &&& r.max_buffers_and_acceleration_structures_per_shader_stage == base.max_buffers_and_acceleration_structures_per_shader_stage
            &&& r.max_multiview_view_count == base.max_multiview_view_count
            &&& r.max_ray_dispatch_count == base.max_ray_dispatch_count
            &&& r.max_ray_recursion_depth == base.max_ray_recursion_depth
        }),
{
}

/// The native limit presets a device request can start from.
#[derive(Debug, Clone, Copy, PartialEq, Eq, Structural, PartialOrd, Ord, Hash)]
pub enum GpuNativeLimitsPreset {
    /// `wgpu::Limits::defaults()`: every modern backend and WebGPU.
    Defaults,
    /// `wgpu::Limits::downlevel_defaults()`: downlevel backends short of WebGL2.
    DownlevelDefaults,
    /// `wgpu::Limits::downlevel_webgl2_defaults()`: WebGL2.
    DownlevelWebGl2Defaults,
}

/// The preset a device-request profile starts from.
pub open spec fn spec_profile_limits_preset(profile: GpuDeviceRequestProfile) -> GpuNativeLimitsPreset {
    match profile {
        GpuDeviceRequestProfile::ModernPortable | GpuDeviceRequestProfile::BrowserWebGpu => {
            GpuNativeLimitsPreset::Defaults
        },
        GpuDeviceRequestProfile::Downlevel => GpuNativeLimitsPreset::DownlevelDefaults,
        GpuDeviceRequestProfile::DownlevelWebGl2 => GpuNativeLimitsPreset::DownlevelWebGl2Defaults,
    }
}

/// The preset a device-request profile starts from: modern and browser profiles use the
/// defaults, the downlevel profiles their downlevel presets.
pub fn profile_limits_preset(profile: GpuDeviceRequestProfile) -> (r: GpuNativeLimitsPreset)
    ensures
        r == spec_profile_limits_preset(profile),
{
    match profile {
        GpuDeviceRequestProfile::ModernPortable | GpuDeviceRequestProfile::BrowserWebGpu => {
            GpuNativeLimitsPreset::Defaults
        },
        GpuDeviceRequestProfile::Downlevel => GpuNativeLimitsPreset::DownlevelDefaults,
        GpuDeviceRequestProfile::DownlevelWebGl2 => GpuNativeLimitsPreset::DownlevelWebGl2Defaults,
    }
}

/// The limits a device request asks for: `base`, the limits of the profile's preset, with the
/// admitted workload budget and the admitted dynamic-offset alignments written over it. Refuses
/// an alignment that is missing or does not fit the native `u32` domain, the uniform one first.
pub fn requested_limits(
    base: &GpuNativeLimits,
    budget: &GpuNativeLimits,
    uniform_dynamic_offset: Option<u64>,
    storage_dynamic_offset: Option<u64>,
) -> (r: Result<GpuNativeLimits, GpuContextRequestError>)
    ensures
        r is Ok <==> (uniform_dynamic_offset matches Some(u) && u <= u32::MAX)
            && (storage_dynamic_offset matches Some(s) && s <= u32::MAX),
        r matches Ok(limits) ==> limits == spec_requested_limits(
            *base,
            *budget,
            uniform_dynamic_offset.unwrap() as u32,
            storage_dynamic_offset.unwrap() as u32,
        ),
        r matches Err(e) ==> e.spec_category() == GpuContextRequestErrorCategory::AlignmentIncompatibility
            && e.spec_message() == if !(uniform_dynamic_offset matches Some(u) && u <= u32::MAX) {
            "uniform dynamic offset"@ + if uniform_dynamic_offset is None {
                " has no requestable admitted value"@
            } else {
                " exceeds the pinned WGPU alignment domain"@
            }
        } else {
            "storage dynamic offset"@ + if storage_dynamic_offset is None {
                " has no requestable admitted value"@
            } else {
                " exceeds the pinned WGPU alignment domain"@
            }
        },
{
    let uniform_alignment = requested_alignment(uniform_dynamic_offset, "uniform dynamic offset")?;
    let storage_alignment = requested_alignment(storage_dynamic_offset, "storage dynamic offset")?;
    let limits = GpuNativeLimits {
        max_uniform_buffer_binding_size: budget.max_uniform_buffer_binding_size,
        max_storage_buffer_binding_size: budget.max_storage_buffer_binding_size,
        max_color_attachments: budget.max_color_attachments,
        max_vertex_buffers: budget.max_vertex_buffers,
        max_bindings_per_bind_group: budget.max_bindings_per_bind_group,
        max_texture_dimension_2d: budget.max_texture_dimension_2d,
        max_bind_groups: budget.max_bind_groups,
        max_bind_groups_plus_vertex_buffers: budget.max_bind_groups_plus_vertex_buffers,
        max_dynamic_uniform_buffers_per_pipeline_layout: budget.max_dynamic_uniform_buffers_per_pipeline_layout,
        max_dynamic_storage_buffers_per_pipeline_layout: budget.max_dynamic_storage_buffers_per_pipeline_layout,
        max_compute_workgroups_per_dimension: budget.max_compute_workgroups_per_dimension,
        max_buffer_size: budget.max_buffer_size,
        max_texture_dimension_1d: budget.max_texture_dimension_1d,
        max_texture_dimension_3d: budget.max_texture_dimension_3d,
        max_texture_array_layers: budget.max_texture_array_layers,
        max_vertex_attributes: budget.max_vertex_attributes,
        max_vertex_buffer_array_stride: budget.max_vertex_buffer_array_stride,
        max_binding_array_elements_per_shader_stage: budget.max_binding_array_elements_per_shader_stage,
        max_binding_array_sampler_elements_per_shader_stage: budget.max_binding_array_sampler_elements_per_shader_stage,
        min_uniform_buffer_offset_alignment: uniform_alignment,
        min_storage_buffer_offset_alignment: storage_alignment,
        ..*base
    };
    Ok(limits)
}

/// Refuses an adapter whose limits cannot satisfy the whole requested profile.
pub fn check_requested_limits(requested: &GpuNativeLimits, adapter: &GpuNativeLimits) -> (r: Result<
    (),
    GpuContextRequestError,
>)
    ensures
        r is Ok <==> spec_limits_within(*requested, *adapter),
        r matches Err(e) ==> e.spec_category()
            == GpuContextRequestErrorCategory::DeviceRequestProfileUnsupported && e.spec_message()
            == "selected adapter cannot satisfy the complete requested device profile"@,
{
    if limits_within(requested, adapter) {
        Ok(())
    } else {
        Err(
            GpuContextRequestError::new(
                GpuContextRequestErrorCategory::DeviceRequestProfileUnsupported,
                "selected adapter cannot satisfy the complete requested device profile".to_owned(),
            ),
        )
    }
}

/// Refuses a created device that lacks a requested native feature or does not expose the
/// requested limits; the features are checked first.
pub fn check_created_device(
    requested_features: GpuNativeFeatures,
    requested_limits: &GpuNativeLimits,
    device_features: GpuNativeFeatures,
    device_limits: &GpuNativeLimits,
) -> (r: Result<(), GpuContextRequestError>)
    ensures
        r is Ok <==> device_features.spec_contains(requested_features) && spec_limits_within(
            *requested_limits,
            *device_limits,
        ),
        r matches Err(e) ==> e.spec_category()
            == GpuContextRequestErrorCategory::BackendDeviceRequestFailure && e.spec_message() == if !device_features.spec_contains(requested_features) {
            "created device did not expose every admitted WGPU feature"@
        } else {
            "created device did not expose the complete admitted request profile"@
        },
{
    verify_requested_features(requested_features, device_features)?;
    if limits_within(requested_limits, device_limits) {
        Ok(())
    } else {
        Err(
            GpuContextRequestError::new(
                GpuContextRequestErrorCategory::BackendDeviceRequestFailure,
                "created device did not expose the complete admitted request profile".to_owned(),
            ),
        )
    }
}

} // verus!
