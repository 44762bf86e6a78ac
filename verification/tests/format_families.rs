use runen_gpu::render_state::{
    GpuBlendMode, GpuColorTargetStateDescriptor, GpuColorWriteMask,
    GpuFragmentOutputStateDescriptor,
};
use runen_gpu::shader_io::{GpuEntryPointName, GpuShaderIoScalarClass};
use runen_gpu::texture_format::{GpuTextureAspect, GpuTextureFormat};

struct BcCase {
    format: GpuTextureFormat,
    block_bytes: u32,
    srgb: bool,
}

const BC_CASES: [BcCase; 14] = [
    BcCase { format: GpuTextureFormat::Bc1RgbaUnorm, block_bytes: 8, srgb: false },
    BcCase { format: GpuTextureFormat::Bc1RgbaUnormSrgb, block_bytes: 8, srgb: true },
    BcCase { format: GpuTextureFormat::Bc2RgbaUnorm, block_bytes: 16, srgb: false },
    BcCase { format: GpuTextureFormat::Bc2RgbaUnormSrgb, block_bytes: 16, srgb: true },
    BcCase { format: GpuTextureFormat::Bc3RgbaUnorm, block_bytes: 16, srgb: false },
    BcCase { format: GpuTextureFormat::Bc3RgbaUnormSrgb, block_bytes: 16, srgb: true },
    BcCase { format: GpuTextureFormat::Bc4RUnorm, block_bytes: 8, srgb: false },
    BcCase { format: GpuTextureFormat::Bc4RSnorm, block_bytes: 8, srgb: false },
    BcCase { format: GpuTextureFormat::Bc5RgUnorm, block_bytes: 16, srgb: false },
    BcCase { format: GpuTextureFormat::Bc5RgSnorm, block_bytes: 16, srgb: false },
    BcCase { format: GpuTextureFormat::Bc6hRgbUfloat, block_bytes: 16, srgb: false },
    BcCase { format: GpuTextureFormat::Bc6hRgbFloat, block_bytes: 16, srgb: false },
    BcCase { format: GpuTextureFormat::Bc7RgbaUnorm, block_bytes: 16, srgb: false },
    BcCase { format: GpuTextureFormat::Bc7RgbaUnormSrgb, block_bytes: 16, srgb: true },
];

const PACKED_FORMATS: [(GpuTextureFormat, GpuShaderIoScalarClass, u8, bool); 4] = [
    (GpuTextureFormat::Rgb9e5Ufloat, GpuShaderIoScalarClass::Float, 3, false),
    (GpuTextureFormat::Rgb10a2Uint, GpuShaderIoScalarClass::Uint, 4, true),
    (GpuTextureFormat::Rgb10a2Unorm, GpuShaderIoScalarClass::Float, 4, true),
    (GpuTextureFormat::Rg11b10Ufloat, GpuShaderIoScalarClass::Float, 3, false),
];

#[test]
fn baseline_32bit_formats_expose_exact_public_copy_block_sizes() {
    for (format, bytes) in [
        (GpuTextureFormat::R32Sint, 4),
        (GpuTextureFormat::Rg32Uint, 8),
        (GpuTextureFormat::Rg32Sint, 8),
        (GpuTextureFormat::Rg32Float, 8),
        (GpuTextureFormat::Rgba32Uint, 16),
        (GpuTextureFormat::Rgba32Sint, 16),
        (GpuTextureFormat::Rgba32Float, 16),
    ] {
        assert_eq!(format.block_dimensions(), (1, 1));
        assert_eq!(format.copy_block_size(GpuTextureAspect::All), Some(bytes));
        assert_eq!(format.copy_block_size(GpuTextureAspect::Color), Some(bytes));
        assert_eq!(format.copy_block_size(GpuTextureAspect::DepthOnly), None);
        assert!(!format.is_depth());
        assert!(!format.is_srgb());
    }
}

#[test]
fn fragment_output_shape_and_integer_blend_rules_follow_format_semantics() {
    for (format, class, width, alpha) in [
        (GpuTextureFormat::R32Sint, GpuShaderIoScalarClass::Sint, 1, false),
        (GpuTextureFormat::Rg32Float, GpuShaderIoScalarClass::Float, 2, false),
        (GpuTextureFormat::Rgba32Uint, GpuShaderIoScalarClass::Uint, 4, true),
        (GpuTextureFormat::Rgba32Sint, GpuShaderIoScalarClass::Sint, 4, true),
        (GpuTextureFormat::Rgba32Float, GpuShaderIoScalarClass::Float, 4, true),
    ] {
        let target = GpuColorTargetStateDescriptor::new(
            format,
            GpuBlendMode::Replace,
            GpuColorWriteMask::all(),
        )
        .unwrap();
        let signature = GpuFragmentOutputStateDescriptor::new(vec![target])
            .expected_signature(GpuEntryPointName::new("fragment_main").unwrap())
            .unwrap();
        let output = signature.locations()[0];
        assert_eq!(output.value_type().scalar_class(), class);
        assert_eq!(output.value_type().vector_width().get(), width);
        assert_eq!(target.has_blendable_alpha_channel(), alpha);
    }

    for format in [
        GpuTextureFormat::R32Uint,
        GpuTextureFormat::R32Sint,
        GpuTextureFormat::Rgba32Uint,
        GpuTextureFormat::Rgba32Sint,
    ] {
        assert!(GpuColorTargetStateDescriptor::new(
            format,
            GpuBlendMode::Alpha,
            GpuColorWriteMask::all(),
        )
        .is_err());
        assert!(GpuColorTargetStateDescriptor::new(
            format,
            GpuBlendMode::Replace,
            GpuColorWriteMask::all(),
        )
        .is_ok());
    }
}

#[test]
fn bc_public_format_census_has_exact_block_semantics() {
    assert_eq!(BC_CASES.len(), 14);
    for case in BC_CASES {
        assert_eq!(case.format.block_dimensions(), (4, 4), "{:?}", case.format);
        assert_eq!(
            case.format.copy_block_size(GpuTextureAspect::Color),
            Some(case.block_bytes),
            "{:?}",
            case.format
        );
        assert_eq!(
            case.format.copy_block_size(GpuTextureAspect::All),
            Some(case.block_bytes),
            "{:?}",
            case.format
        );
        assert_eq!(case.format.copy_block_size(GpuTextureAspect::DepthOnly), None, "{:?}", case.format);
        assert_eq!(case.format.is_srgb(), case.srgb, "{:?}", case.format);
        assert!(!case.format.is_depth(), "{:?}", case.format);
        assert!(!case.format.is_stencil(), "{:?}", case.format);
    }
}

#[test]
fn packed32_public_semantics_and_program_typing_are_exact() {
    for (format, class, width, alpha) in PACKED_FORMATS {
        assert_eq!(format.block_dimensions(), (1, 1));
        assert_eq!(format.copy_block_size(GpuTextureAspect::All), Some(4));
        assert_eq!(format.copy_block_size(GpuTextureAspect::Color), Some(4));
        assert_eq!(format.copy_block_size(GpuTextureAspect::DepthOnly), None);
        assert_eq!(format.copy_block_size(GpuTextureAspect::StencilOnly), None);
        assert!(!format.is_depth());
        assert!(!format.is_stencil());
        assert!(!format.is_srgb());

        let target = GpuColorTargetStateDescriptor::new(
            format,
            GpuBlendMode::Replace,
            GpuColorWriteMask::all(),
        )
        .unwrap();
        let signature = GpuFragmentOutputStateDescriptor::new(vec![target])
            .expected_signature(GpuEntryPointName::new("fragment_main").unwrap())
            .unwrap();
        let output = signature.locations()[0];
        assert_eq!(output.value_type().scalar_class(), class);
        assert_eq!(output.value_type().vector_width().get(), width);
        assert_eq!(target.has_blendable_alpha_channel(), alpha);

        let alpha_result =
            GpuColorTargetStateDescriptor::new(format, GpuBlendMode::Alpha, GpuColorWriteMask::all());
        if class == GpuShaderIoScalarClass::Uint {
            assert!(alpha_result.is_err());
        } else {
            assert!(alpha_result.is_ok());
        }
    }
}

#[test]
fn r32float_is_public_backend_neutral_and_four_bytes_per_texel() {
    let format = GpuTextureFormat::R32Float;

    assert_eq!(format.bytes_per_texel(), 4);
    assert!(!format.is_depth());
    assert!(!format.is_srgb());
}

#[test]
fn fragment_signatures_follow_target_locations() {
    let targets = vec![
        GpuColorTargetStateDescriptor::new(GpuTextureFormat::R32Float, GpuBlendMode::Replace, GpuColorWriteMask::red())
            .unwrap(),
        GpuColorTargetStateDescriptor::new(GpuTextureFormat::Rgba8Unorm, GpuBlendMode::Alpha, GpuColorWriteMask::all())
            .unwrap(),
    ];
    let signature = GpuFragmentOutputStateDescriptor::new(targets)
        .expected_signature(GpuEntryPointName::new("fragment_main").unwrap())
        .unwrap();
    assert_eq!(signature.entry_point().as_str(), "fragment_main");
    assert_eq!(signature.locations().len(), 2);
    assert_eq!(signature.locations()[0].location(), 0);
    assert_eq!(signature.locations()[1].location(), 1);
    assert_eq!(signature.locations()[1].value_type().vector_width().get(), 4);
    assert!(GpuEntryPointName::new("").is_err());
}
