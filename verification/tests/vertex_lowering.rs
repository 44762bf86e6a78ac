use runen_gpu::lowering::{
    lower_vertex_buffers, validate_attachment_support, validate_color_target_count,
    GpuPipelineRealizationReason, GpuVertexLimits,
};
use runen_gpu::native::GpuNativeFormatFeatures;
use runen_gpu::vertex::{
    GpuVertexAttribute, GpuVertexBufferLayout, GpuVertexFormat, GpuVertexInputState,
    GpuVertexStepMode,
};
use wgpu::{TextureFormatFeatureFlags, TextureUsages};

fn limits(buffers: u32, attributes: u32, stride: u32) -> GpuVertexLimits {
    GpuVertexLimits {
        max_vertex_buffers: buffers,
        max_vertex_attributes: attributes,
        max_vertex_buffer_array_stride: stride,
    }
}

fn layout(slot: u32, stride: u64, attributes: usize) -> GpuVertexBufferLayout {
    GpuVertexBufferLayout {
        slot,
        array_stride: stride,
        step_mode: GpuVertexStepMode::Instance,
        attributes: (0..attributes)
            .map(|i| GpuVertexAttribute {
                format: GpuVertexFormat::Float32x4,
                offset: 16 * i as u64,
                shader_location: i as u32,
            })
            .collect(),
    }
}

#[test]
fn vertex_input_requires_increasing_slots() {
    assert!(GpuVertexInputState::new(vec![layout(0, 16, 1), layout(2, 16, 1)]).is_ok());
    assert!(GpuVertexInputState::new(vec![layout(2, 16, 1), layout(2, 16, 1)]).is_err());
    assert!(GpuVertexInputState::new(vec![layout(3, 16, 1), layout(1, 16, 1)]).is_err());
}

#[test]
fn sparse_slots_lower_to_present_empty_layouts() {
    let input = GpuVertexInputState::new(vec![layout(0, 32, 2), layout(2, 64, 1)]).unwrap();
    let lowered = lower_vertex_buffers(&input, limits(8, 16, 2048), limits(8, 16, 2048), "p").unwrap();
    assert_eq!(lowered.len(), 3);
    assert_eq!(lowered[0].array_stride, 32);
    assert_eq!(lowered[0].attributes.len(), 2);
    assert_eq!(lowered[1].array_stride, 0);
    assert_eq!(lowered[1].step_mode, GpuVertexStepMode::Vertex);
    assert!(lowered[1].attributes.is_empty());
    assert_eq!(lowered[2].array_stride, 64);
    assert_eq!(lowered[2].step_mode, GpuVertexStepMode::Instance);
    let empty = GpuVertexInputState::new(Vec::new()).unwrap();
    assert!(lower_vertex_buffers(&empty, limits(0, 0, 0), limits(0, 0, 0), "p").unwrap().is_empty());
}

#[test]
fn vertex_limits_refuse_in_order() {
    let input = GpuVertexInputState::new(vec![layout(0, 32, 2), layout(2, 64, 1)]).unwrap();
    let slots = lower_vertex_buffers(&input, limits(2, 16, 2048), limits(8, 16, 2048), "p").unwrap_err();
    assert_eq!(slots.reason(), GpuPipelineRealizationReason::VertexBufferLimit);
    assert_eq!(slots.request(), "p");
    let attributes = lower_vertex_buffers(&input, limits(8, 16, 2048), limits(8, 2, 2048), "p").unwrap_err();
    assert_eq!(attributes.reason(), GpuPipelineRealizationReason::VertexAttributeLimit);
    let stride = lower_vertex_buffers(&input, limits(8, 16, 63), limits(8, 16, 2048), "p").unwrap_err();
    assert_eq!(stride.reason(), GpuPipelineRealizationReason::VertexStrideLimit);
    let top = GpuVertexInputState::new(vec![layout(u32::MAX, 4, 0)]).unwrap();
    let domain = lower_vertex_buffers(&top, limits(u32::MAX, 16, 2048), limits(u32::MAX, 16, 2048), "p").unwrap_err();
    assert_eq!(domain.reason(), GpuPipelineRealizationReason::VertexSlotDomain);
}

#[test]
fn color_target_counts_respect_both_limits() {
    assert!(validate_color_target_count(4, 8, 4, "p").is_ok());
    let error = validate_color_target_count(5, 8, 4, "p").unwrap_err();
    assert_eq!(error.reason(), GpuPipelineRealizationReason::ColorTargetLimit);
    assert!(validate_color_target_count(0, 0, 0, "p").is_ok());
}

#[test]
fn attachments_need_render_usage_and_the_sample_count() {
    let renderable = GpuNativeFormatFeatures {
        allowed_usages: TextureUsages::RENDER_ATTACHMENT.bits(),
        flags: TextureFormatFeatureFlags::MULTISAMPLE_X4.bits(),
    };
    assert_eq!(validate_attachment_support(renderable, 4, "p").unwrap(), renderable);
    assert_eq!(
        validate_attachment_support(renderable, 8, "p").unwrap_err().reason(),
        GpuPipelineRealizationReason::SampleCountUnsupported
    );
    let sampled_only = GpuNativeFormatFeatures {
        allowed_usages: TextureUsages::TEXTURE_BINDING.bits(),
        flags: TextureFormatFeatureFlags::MULTISAMPLE_X4.bits(),
    };
    assert_eq!(
        validate_attachment_support(sampled_only, 1, "p").unwrap_err().reason(),
        GpuPipelineRealizationReason::RenderAttachmentUnsupported
    );
}
