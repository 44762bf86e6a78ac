use runen_gpu::blend::{GpuBlendComponent, GpuBlendFactor, GpuBlendOperation, GpuBlendState};
use runen_gpu::lowering::{validate_color_blend_support, GpuPipelineRealizationErrorCategory};

#[test]
fn alpha_blending_requires_a_blendable_color_format() {
    let component =
        GpuBlendComponent::new(GpuBlendFactor::One, GpuBlendFactor::Zero, GpuBlendOperation::Add)
            .unwrap();
    let blend = GpuBlendState::new(component, component);
    assert!(validate_color_blend_support(None, false, "test").is_ok());
    assert!(validate_color_blend_support(Some(blend), true, "test").is_ok());

    let error = validate_color_blend_support(Some(blend), false, "test")
        .expect_err("alpha blending must reject a non-blendable color format");
    assert_eq!(
        error.category(),
        GpuPipelineRealizationErrorCategory::FormatOrAlignmentNotAdmitted
    );
    assert!(error
        .detail()
        .is_some_and(|detail| detail.contains("does not support blending")));
}
