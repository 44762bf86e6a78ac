use runen_gpu::render_state::{
    GpuBlendMode, GpuColorTargetStateDescriptor, GpuColorWriteMask, GpuCompareFunction,
    GpuDepthStateDescriptor, GpuDepthStencilStateDescriptor, GpuStencilFaceStateDescriptor,
    GpuStencilOperation, GpuStencilStateDescriptor,
};
use runen_gpu::shader_io::GpuShaderIoScalarClass;
use runen_gpu::texture_format::GpuTextureFormat;

fn target(format: GpuTextureFormat) -> GpuColorTargetStateDescriptor {
    GpuColorTargetStateDescriptor::new(format, GpuBlendMode::Replace, GpuColorWriteMask::all())
        .unwrap()
}

#[test]
fn render_output_structure_follows_normalized_texture_format_authority() {
    for (format, class, width, alpha) in [
        (GpuTextureFormat::R8Unorm, GpuShaderIoScalarClass::Float, 1, false),
        (GpuTextureFormat::Rgba8Unorm, GpuShaderIoScalarClass::Float, 4, true),
        (GpuTextureFormat::Rgba8UnormSrgb, GpuShaderIoScalarClass::Float, 4, true),
        (GpuTextureFormat::Bgra8Unorm, GpuShaderIoScalarClass::Float, 4, true),
        (GpuTextureFormat::Bgra8UnormSrgb, GpuShaderIoScalarClass::Float, 4, true),
        (GpuTextureFormat::R32Uint, GpuShaderIoScalarClass::Uint, 1, false),
        (GpuTextureFormat::R32Sint, GpuShaderIoScalarClass::Sint, 1, false),
        (GpuTextureFormat::R32Float, GpuShaderIoScalarClass::Float, 1, false),
        (GpuTextureFormat::Rg32Uint, GpuShaderIoScalarClass::Uint, 2, false),
        (GpuTextureFormat::Rg32Sint, GpuShaderIoScalarClass::Sint, 2, false),
        (GpuTextureFormat::Rg32Float, GpuShaderIoScalarClass::Float, 2, false),
        (GpuTextureFormat::Rgba32Uint, GpuShaderIoScalarClass::Uint, 4, true),
        (GpuTextureFormat::Rgba32Sint, GpuShaderIoScalarClass::Sint, 4, true),
        (GpuTextureFormat::Rgba32Float, GpuShaderIoScalarClass::Float, 4, true),
    ] {
        let target = target(format);
        assert_eq!(target.shader_io_type().scalar_class(), class);
        assert_eq!(target.shader_io_type().vector_width().get(), width);
        assert_eq!(target.has_blendable_alpha_channel(), alpha);
    }
}

#[test]
fn render_target_role_checks_keep_current_depth_and_integer_behavior() {
    for format in [
        GpuTextureFormat::Depth16Unorm,
        GpuTextureFormat::Depth24Plus,
        GpuTextureFormat::Depth32Float,
    ] {
        assert!(GpuColorTargetStateDescriptor::new(
            format,
            GpuBlendMode::Replace,
            GpuColorWriteMask::all(),
        )
        .is_err());
        assert!(GpuDepthStencilStateDescriptor::new(
            format,
            Some(GpuDepthStateDescriptor::new(true, GpuCompareFunction::LessEqual)),
            None,
        )
        .is_ok());
    }
    for format in [
        GpuTextureFormat::R32Uint,
        GpuTextureFormat::R32Sint,
        GpuTextureFormat::Rgba32Uint,
        GpuTextureFormat::Rgba32Sint,
    ] {
        assert!(GpuColorTargetStateDescriptor::new(
            format,
            GpuBlendMode::Alpha,
            GpuColorWriteMask::all(),
        )
        .is_err());
        assert!(GpuColorTargetStateDescriptor::new(
            format,
            GpuBlendMode::Replace,
            GpuColorWriteMask::all(),
        )
        .is_ok());
    }
    assert!(GpuColorTargetStateDescriptor::new(
        GpuTextureFormat::Rgba8Unorm,
        GpuBlendMode::Alpha,
        GpuColorWriteMask::all(),
    )
    .is_ok());

    let keep = GpuStencilFaceStateDescriptor::new(
        GpuCompareFunction::Always,
        GpuStencilOperation::Keep,
        GpuStencilOperation::Keep,
        GpuStencilOperation::Keep,
    );
    let replace = GpuStencilFaceStateDescriptor::new(
        GpuCompareFunction::Equal,
        GpuStencilOperation::Keep,
        GpuStencilOperation::Keep,
        GpuStencilOperation::Replace,
    );
    let stencil = GpuStencilStateDescriptor::new(keep, replace, u32::MAX, 0xff);
    let state = GpuDepthStencilStateDescriptor::new(GpuTextureFormat::Stencil8, None, Some(stencil))
        .unwrap();
    assert_eq!(state.stencil(), Some(stencil));
    assert!(stencil.may_write());

    let depth = GpuDepthStateDescriptor::new(true, GpuCompareFunction::LessEqual);
    assert!(GpuDepthStencilStateDescriptor::new(
        GpuTextureFormat::Depth24PlusStencil8,
        Some(depth),
        None,
    )
    .is_ok());
    assert!(GpuDepthStencilStateDescriptor::new(
        GpuTextureFormat::Depth24PlusStencil8,
        None,
        Some(stencil),
    )
    .is_ok());
    let combined = GpuDepthStencilStateDescriptor::new(
        GpuTextureFormat::Depth24PlusStencil8,
        Some(depth),
        Some(stencil),
    )
    .unwrap();
    assert_eq!(combined.depth(), Some(depth));
    assert_eq!(combined.stencil(), Some(stencil));
    assert!(GpuDepthStencilStateDescriptor::new(
        GpuTextureFormat::Stencil8,
        Some(GpuDepthStateDescriptor::new(false, GpuCompareFunction::Always)),
        None,
    )
    .is_err());
    assert!(GpuDepthStencilStateDescriptor::new(
        GpuTextureFormat::Depth32Float,
        None,
        Some(stencil),
    )
    .is_err());
}
