//! Normalized texture-format semantics.
//!
//! Every structural fact the library knows about a texture format (aspects, copy block
//! sizes, block dimensions, sRGB pairing, scalar class, component count, alpha, and
//! compression family) comes from one table, [`format_semantics`]. Every query below is
//! specified over that table.

use vstd::prelude::*;

verus! {

/// Backend-neutral texture formats.
#[derive(Debug, Clone, Copy, PartialEq, Eq, Structural, PartialOrd, Ord, Hash)]
pub enum GpuTextureFormat {
    R8Unorm,
    R8Snorm,
    R8Uint,
    R8Sint,
    Rg8Unorm,
    Rg8Snorm,
    Rg8Uint,
    Rg8Sint,
    R16Uint,
    R16Sint,
    R16Float,
    Rg16Uint,
    Rg16Sint,
    Rg16Float,
    Rgba8Unorm,
    Rgba8UnormSrgb,
    Rgba8Snorm,
    Rgba8Uint,
    Rgba8Sint,
    Bgra8Unorm,
    Bgra8UnormSrgb,
    Rgb9e5Ufloat,
    Rgb10a2Uint,
    Rgb10a2Unorm,
    Rg11b10Ufloat,
    R32Uint,
    R32Sint,
    R32Float,
    Rg32Uint,
    Rg32Sint,
    Rg32Float,
    Rgba32Uint,
    Rgba32Sint,
    Rgba32Float,
    Rgba16Uint,
    Rgba16Sint,
    Rgba16Float,
    Bc1RgbaUnorm,
    Bc1RgbaUnormSrgb,
    Bc2RgbaUnorm,
    Bc2RgbaUnormSrgb,
    Bc3RgbaUnorm,
    Bc3RgbaUnormSrgb,
    Bc4RUnorm,
    Bc4RSnorm,
    Bc5RgUnorm,
    Bc5RgSnorm,
    Bc6hRgbUfloat,
    Bc6hRgbFloat,
    Bc7RgbaUnorm,
    Bc7RgbaUnormSrgb,
    Stencil8,
    Depth16Unorm,
    Depth24Plus,
    Depth24PlusStencil8,
    Depth32Float,
    Depth32FloatStencil8,
}

/// Texture aspects selectable by views, copies, and attachments.
#[derive(Debug, Clone, Copy, PartialEq, Eq, Structural, PartialOrd, Ord, Hash)]
pub enum GpuTextureAspect {
    All,
    Color,
    DepthOnly,
    StencilOnly,
}

/// Scalar class of the values stored in a texture format.
#[derive(Debug, Clone, Copy, PartialEq, Eq, Structural, PartialOrd, Ord, Hash)]
pub enum GpuTextureScalarClass {
    Float,
    Sint,
    Uint,
}

/// Block-compression families.
#[derive(Debug, Clone, Copy, PartialEq, Eq, Structural, PartialOrd, Ord, Hash)]
pub enum GpuTextureCompressionFamily {
    Bc,
}

/// The normalized structural record of one texture format.
#[derive(Debug, Clone, Copy)]
pub struct GpuTextureFormatSemantics {
    pub block_dimensions: (u32, u32),
    pub color_aspect: bool,
    pub depth_aspect: bool,
    pub stencil_aspect: bool,
    pub color_copy_block_size: Option<u32>,
    pub depth_copy_block_size: Option<u32>,
    pub stencil_copy_block_size: Option<u32>,
    pub srgb: bool,
    pub paired_view_format: Option<GpuTextureFormat>,
    pub scalar_class: GpuTextureScalarClass,
    pub component_count: u8,
    pub has_alpha: bool,
    pub compression_family: Option<GpuTextureCompressionFamily>,
}

/// An uncompressed color format with 1x1 blocks.
pub open spec fn spec_color(
    bytes: u32,
    class: GpuTextureScalarClass,
    components: u8,
    alpha: bool,
    srgb: bool,
    pair: Option<GpuTextureFormat>,
) -> GpuTextureFormatSemantics {
    GpuTextureFormatSemantics {
        block_dimensions: (1, 1),
        color_aspect: true,
        depth_aspect: false,
        stencil_aspect: false,
        color_copy_block_size: Some(bytes),
        depth_copy_block_size: None,
        stencil_copy_block_size: None,
        srgb,
        paired_view_format: pair,
        scalar_class: class,
        component_count: components,
        has_alpha: alpha,
        compression_family: None,
    }
}

/// A BC-compressed float color format with 4x4 blocks.
pub open spec fn spec_compressed(
    bytes: u32,
    components: u8,
    alpha: bool,
    srgb: bool,
    pair: Option<GpuTextureFormat>,
) -> GpuTextureFormatSemantics {
    GpuTextureFormatSemantics {
        block_dimensions: (4, 4),
        color_aspect: true,
        depth_aspect: false,
        stencil_aspect: false,
        color_copy_block_size: Some(bytes),
        depth_copy_block_size: None,
        stencil_copy_block_size: None,
        srgb,
        paired_view_format: pair,
        scalar_class: GpuTextureScalarClass::Float,
        component_count: components,
        has_alpha: alpha,
        compression_family: Some(GpuTextureCompressionFamily::Bc),
    }
}

/// A depth and/or stencil format. A present stencil aspect always copies one byte per texel.
pub open spec fn spec_depth_stencil(
    depth: bool,
    depth_copy: Option<u32>,
    stencil: bool,
    class: GpuTextureScalarClass,
) -> GpuTextureFormatSemantics {
    GpuTextureFormatSemantics {
        block_dimensions: (1, 1),
        color_aspect: false,
        depth_aspect: depth,
        stencil_aspect: stencil,
        color_copy_block_size: None,
        depth_copy_block_size: depth_copy,
        stencil_copy_block_size: if stencil { Some(1) } else { None },
        srgb: false,
        paired_view_format: None,
        scalar_class: class,
        component_count: 1,
        has_alpha: false,
        compression_family: None,
    }
}

/// The one normalized table of texture-format structure.
pub open spec fn format_semantics(format: GpuTextureFormat) -> GpuTextureFormatSemantics {
    match format {
        GpuTextureFormat::R8Unorm => spec_color(1, GpuTextureScalarClass::Float, 1, false, false, None),
        GpuTextureFormat::R8Snorm => spec_color(1, GpuTextureScalarClass::Float, 1, false, false, None),
        GpuTextureFormat::R8Uint => spec_color(1, GpuTextureScalarClass::Uint, 1, false, false, None),
        GpuTextureFormat::R8Sint => spec_color(1, GpuTextureScalarClass::Sint, 1, false, false, None),
        GpuTextureFormat::Rg8Unorm => spec_color(2, GpuTextureScalarClass::Float, 2, false, false, None),
        GpuTextureFormat::Rg8Snorm => spec_color(2, GpuTextureScalarClass::Float, 2, false, false, None),
        GpuTextureFormat::Rg8Uint => spec_color(2, GpuTextureScalarClass::Uint, 2, false, false, None),
        GpuTextureFormat::Rg8Sint => spec_color(2, GpuTextureScalarClass::Sint, 2, false, false, None),
        GpuTextureFormat::R16Uint => spec_color(2, GpuTextureScalarClass::Uint, 1, false, false, None),
        GpuTextureFormat::R16Sint => spec_color(2, GpuTextureScalarClass::Sint, 1, false, false, None),
        GpuTextureFormat::R16Float => spec_color(2, GpuTextureScalarClass::Float, 1, false, false, None),
        GpuTextureFormat::Rg16Uint => spec_color(4, GpuTextureScalarClass::Uint, 2, false, false, None),
        GpuTextureFormat::Rg16Sint => spec_color(4, GpuTextureScalarClass::Sint, 2, false, false, None),
        GpuTextureFormat::Rg16Float => spec_color(4, GpuTextureScalarClass::Float, 2, false, false, None),
        GpuTextureFormat::Rgba8Unorm => spec_color(4, GpuTextureScalarClass::Float, 4, true, false, Some(GpuTextureFormat::Rgba8UnormSrgb)),
        GpuTextureFormat::Rgba8UnormSrgb => spec_color(4, GpuTextureScalarClass::Float, 4, true, true, Some(GpuTextureFormat::Rgba8Unorm)),
        GpuTextureFormat::Rgba8Snorm => spec_color(4, GpuTextureScalarClass::Float, 4, true, false, None),
        GpuTextureFormat::Rgba8Uint => spec_color(4, GpuTextureScalarClass::Uint, 4, true, false, None),
        GpuTextureFormat::Rgba8Sint => spec_color(4, GpuTextureScalarClass::Sint, 4, true, false, None),
        GpuTextureFormat::Bgra8Unorm => spec_color(4, GpuTextureScalarClass::Float, 4, true, false, Some(GpuTextureFormat::Bgra8UnormSrgb)),
        GpuTextureFormat::Bgra8UnormSrgb => spec_color(4, GpuTextureScalarClass::Float, 4, true, true, Some(GpuTextureFormat::Bgra8Unorm)),
        GpuTextureFormat::Rgb9e5Ufloat => spec_color(4, GpuTextureScalarClass::Float, 3, false, false, None),
        GpuTextureFormat::Rgb10a2Uint => spec_color(4, GpuTextureScalarClass::Uint, 4, true, false, None),
        GpuTextureFormat::Rgb10a2Unorm => spec_color(4, GpuTextureScalarClass::Float, 4, true, false, None),
        GpuTextureFormat::Rg11b10Ufloat => spec_color(4, GpuTextureScalarClass::Float, 3, false, false, None),
        GpuTextureFormat::R32Uint => spec_color(4, GpuTextureScalarClass::Uint, 1, false, false, None),
        GpuTextureFormat::R32Sint => spec_color(4, GpuTextureScalarClass::Sint, 1, false, false, None),
        GpuTextureFormat::R32Float => spec_color(4, GpuTextureScalarClass::Float, 1, false, false, None),
        GpuTextureFormat::Rg32Uint => spec_color(8, GpuTextureScalarClass::Uint, 2, false, false, None),
        GpuTextureFormat::Rg32Sint => spec_color(8, GpuTextureScalarClass::Sint, 2, false, false, None),
        GpuTextureFormat::Rg32Float => spec_color(8, GpuTextureScalarClass::Float, 2, false, false, None),
        GpuTextureFormat::Rgba32Uint => spec_color(16, GpuTextureScalarClass::Uint, 4, true, false, None),
        GpuTextureFormat::Rgba32Sint => spec_color(16, GpuTextureScalarClass::Sint, 4, true, false, None),
        GpuTextureFormat::Rgba32Float => spec_color(16, GpuTextureScalarClass::Float, 4, true, false, None),
        GpuTextureFormat::Rgba16Uint => spec_color(8, GpuTextureScalarClass::Uint, 4, true, false, None),
        GpuTextureFormat::Rgba16Sint => spec_color(8, GpuTextureScalarClass::Sint, 4, true, false, None),
        GpuTextureFormat::Rgba16Float => spec_color(8, GpuTextureScalarClass::Float, 4, true, false, None),
        GpuTextureFormat::Bc1RgbaUnorm => spec_compressed(8, 4, true, false, Some(GpuTextureFormat::Bc1RgbaUnormSrgb)),
        GpuTextureFormat::Bc1RgbaUnormSrgb => spec_compressed(8, 4, true, true, Some(GpuTextureFormat::Bc1RgbaUnorm)),
        GpuTextureFormat::Bc2RgbaUnorm => spec_compressed(16, 4, true, false, Some(GpuTextureFormat::Bc2RgbaUnormSrgb)),
        GpuTextureFormat::Bc2RgbaUnormSrgb => spec_compressed(16, 4, true, true, Some(GpuTextureFormat::Bc2RgbaUnorm)),
        GpuTextureFormat::Bc3RgbaUnorm => spec_compressed(16, 4, true, false, Some(GpuTextureFormat::Bc3RgbaUnormSrgb)),
        GpuTextureFormat::Bc3RgbaUnormSrgb => spec_compressed(16, 4, true, true, Some(GpuTextureFormat::Bc3RgbaUnorm)),
        GpuTextureFormat::Bc4RUnorm => spec_compressed(8, 1, false, false, None),
        GpuTextureFormat::Bc4RSnorm => spec_compressed(8, 1, false, false, None),
        GpuTextureFormat::Bc5RgUnorm => spec_compressed(16, 2, false, false, None),
        GpuTextureFormat::Bc5RgSnorm => spec_compressed(16, 2, false, false, None),
        GpuTextureFormat::Bc6hRgbUfloat => spec_compressed(16, 3, false, false, None),
        GpuTextureFormat::Bc6hRgbFloat => spec_compressed(16, 3, false, false, None),
        GpuTextureFormat::Bc7RgbaUnorm => spec_compressed(16, 4, true, false, Some(GpuTextureFormat::Bc7RgbaUnormSrgb)),
        GpuTextureFormat::Bc7RgbaUnormSrgb => spec_compressed(16, 4, true, true, Some(GpuTextureFormat::Bc7RgbaUnorm)),
        GpuTextureFormat::Stencil8 => spec_depth_stencil(false, None, true, GpuTextureScalarClass::Uint),
        GpuTextureFormat::Depth16Unorm => spec_depth_stencil(true, Some(2), false, GpuTextureScalarClass::Float),
        GpuTextureFormat::Depth24Plus => spec_depth_stencil(true, None, false, GpuTextureScalarClass::Float),
        GpuTextureFormat::Depth24PlusStencil8 => spec_depth_stencil(true, None, true, GpuTextureScalarClass::Float),
        GpuTextureFormat::Depth32Float => spec_depth_stencil(true, Some(4), false, GpuTextureScalarClass::Float),
        GpuTextureFormat::Depth32FloatStencil8 => spec_depth_stencil(true, Some(4), true, GpuTextureScalarClass::Float),
    }
}

fn color(
    bytes: u32,
    class: GpuTextureScalarClass,
    components: u8,
    alpha: bool,
    srgb: bool,
    pair: Option<GpuTextureFormat>,
) -> (s: GpuTextureFormatSemantics)
    ensures
        s == spec_color(bytes, class, components, alpha, srgb, pair),
{
    GpuTextureFormatSemantics {
        block_dimensions: (1, 1),
        color_aspect: true,
        depth_aspect: false,
        stencil_aspect: false,
        color_copy_block_size: Some(bytes),
        depth_copy_block_size: None,
        stencil_copy_block_size: None,
        srgb,
        paired_view_format: pair,
        scalar_class: class,
        component_count: components,
        has_alpha: alpha,
        compression_family: None,
    }
}

fn compressed(
    bytes: u32,
    components: u8,
    alpha: bool,
    srgb: bool,
    pair: Option<GpuTextureFormat>,
) -> (s: GpuTextureFormatSemantics)
    ensures
        s == spec_compressed(bytes, components, alpha, srgb, pair),
{
    GpuTextureFormatSemantics {
        block_dimensions: (4, 4),
        color_aspect: true,
        depth_aspect: false,
        stencil_aspect: false,
        color_copy_block_size: Some(bytes),
        depth_copy_block_size: None,
        stencil_copy_block_size: None,
        srgb,
        paired_view_format: pair,
        scalar_class: GpuTextureScalarClass::Float,
        component_count: components,
        has_alpha: alpha,
        compression_family: Some(GpuTextureCompressionFamily::Bc),
    }
}

fn depth_stencil(
    depth: bool,
    depth_copy: Option<u32>,
    stencil: bool,
    class: GpuTextureScalarClass,
) -> (s: GpuTextureFormatSemantics)
    ensures
        s == spec_depth_stencil(depth, depth_copy, stencil, class),
{
    GpuTextureFormatSemantics {
        block_dimensions: (1, 1),
        color_aspect: false,
        depth_aspect: depth,
        stencil_aspect: stencil,
        color_copy_block_size: None,
        depth_copy_block_size: depth_copy,
        stencil_copy_block_size: if stencil { Some(1) } else { None },
        srgb: false,
        paired_view_format: None,
        scalar_class: class,
        component_count: 1,
        has_alpha: false,
        compression_family: None,
    }
}

/// Looks up the normalized structural record of `format`.
#[verifier::rlimit(100)]
#[verifier::spinoff_prover]
pub fn semantics(format: GpuTextureFormat) -> (s: GpuTextureFormatSemantics)
    ensures
        s == format_semantics(format),
{
    match format {
        GpuTextureFormat::R8Unorm => color(1, GpuTextureScalarClass::Float, 1, false, false, None),
        GpuTextureFormat::R8Snorm => color(1, GpuTextureScalarClass::Float, 1, false, false, None),
        GpuTextureFormat::R8Uint => color(1, GpuTextureScalarClass::Uint, 1, false, false, None),
        GpuTextureFormat::R8Sint => color(1, GpuTextureScalarClass::Sint, 1, false, false, None),
        GpuTextureFormat::Rg8Unorm => color(2, GpuTextureScalarClass::Float, 2, false, false, None),
        GpuTextureFormat::Rg8Snorm => color(2, GpuTextureScalarClass::Float, 2, false, false, None),
        GpuTextureFormat::Rg8Uint => color(2, GpuTextureScalarClass::Uint, 2, false, false, None),
        GpuTextureFormat::Rg8Sint => color(2, GpuTextureScalarClass::Sint, 2, false, false, None),
        GpuTextureFormat::R16Uint => color(2, GpuTextureScalarClass::Uint, 1, false, false, None),
        GpuTextureFormat::R16Sint => color(2, GpuTextureScalarClass::Sint, 1, false, false, None),
        GpuTextureFormat::R16Float => color(2, GpuTextureScalarClass::Float, 1, false, false, None),
        GpuTextureFormat::Rg16Uint => color(4, GpuTextureScalarClass::Uint, 2, false, false, None),
        GpuTextureFormat::Rg16Sint => color(4, GpuTextureScalarClass::Sint, 2, false, false, None),
        GpuTextureFormat::Rg16Float => color(4, GpuTextureScalarClass::Float, 2, false, false, None),
        GpuTextureFormat::Rgba8Unorm => color(4, GpuTextureScalarClass::Float, 4, true, false, Some(GpuTextureFormat::Rgba8UnormSrgb)),
        GpuTextureFormat::Rgba8UnormSrgb => color(4, GpuTextureScalarClass::Float, 4, true, true, Some(GpuTextureFormat::Rgba8Unorm)),
        GpuTextureFormat::Rgba8Snorm => color(4, GpuTextureScalarClass::Float, 4, true, false, None),
        GpuTextureFormat::Rgba8Uint => color(4, GpuTextureScalarClass::Uint, 4, true, false, None),
        GpuTextureFormat::Rgba8Sint => color(4, GpuTextureScalarClass::Sint, 4, true, false, None),
        GpuTextureFormat::Bgra8Unorm => color(4, GpuTextureScalarClass::Float, 4, true, false, Some(GpuTextureFormat::Bgra8UnormSrgb)),
        GpuTextureFormat::Bgra8UnormSrgb => color(4, GpuTextureScalarClass::Float, 4, true, true, Some(GpuTextureFormat::Bgra8Unorm)),
        GpuTextureFormat::Rgb9e5Ufloat => color(4, GpuTextureScalarClass::Float, 3, false, false, None),
        GpuTextureFormat::Rgb10a2Uint => color(4, GpuTextureScalarClass::Uint, 4, true, false, None),
        GpuTextureFormat::Rgb10a2Unorm => color(4, GpuTextureScalarClass::Float, 4, true, false, None),
        GpuTextureFormat::Rg11b10Ufloat => color(4, GpuTextureScalarClass::Float, 3, false, false, None),
        GpuTextureFormat::R32Uint => color(4, GpuTextureScalarClass::Uint, 1, false, false, None),
        GpuTextureFormat::R32Sint => color(4, GpuTextureScalarClass::Sint, 1, false, false, None),
        GpuTextureFormat::R32Float => color(4, GpuTextureScalarClass::Float, 1, false, false, None),
        GpuTextureFormat::Rg32Uint => color(8, GpuTextureScalarClass::Uint, 2, false, false, None),
        GpuTextureFormat::Rg32Sint => color(8, GpuTextureScalarClass::Sint, 2, false, false, None),
        GpuTextureFormat::Rg32Float => color(8, GpuTextureScalarClass::Float, 2, false, false, None),
        GpuTextureFormat::Rgba32Uint => color(16, GpuTextureScalarClass::Uint, 4, true, false, None),
        GpuTextureFormat::Rgba32Sint => color(16, GpuTextureScalarClass::Sint, 4, true, false, None),
        GpuTextureFormat::Rgba32Float => color(16, GpuTextureScalarClass::Float, 4, true, false, None),
        GpuTextureFormat::Rgba16Uint => color(8, GpuTextureScalarClass::Uint, 4, true, false, None),
        GpuTextureFormat::Rgba16Sint => color(8, GpuTextureScalarClass::Sint, 4, true, false, None),
        GpuTextureFormat::Rgba16Float => color(8, GpuTextureScalarClass::Float, 4, true, false, None),
        GpuTextureFormat::Bc1RgbaUnorm => compressed(8, 4, true, false, Some(GpuTextureFormat::Bc1RgbaUnormSrgb)),
        GpuTextureFormat::Bc1RgbaUnormSrgb => compressed(8, 4, true, true, Some(GpuTextureFormat::Bc1RgbaUnorm)),
        GpuTextureFormat::Bc2RgbaUnorm => compressed(16, 4, true, false, Some(GpuTextureFormat::Bc2RgbaUnormSrgb)),
        GpuTextureFormat::Bc2RgbaUnormSrgb => compressed(16, 4, true, true, Some(GpuTextureFormat::Bc2RgbaUnorm)),
        GpuTextureFormat::Bc3RgbaUnorm => compressed(16, 4, true, false, Some(GpuTextureFormat::Bc3RgbaUnormSrgb)),
        GpuTextureFormat::Bc3RgbaUnormSrgb => compressed(16, 4, true, true, Some(GpuTextureFormat::Bc3RgbaUnorm)),
        GpuTextureFormat::Bc4RUnorm => compressed(8, 1, false, false, None),
        GpuTextureFormat::Bc4RSnorm => compressed(8, 1, false, false, None),
        GpuTextureFormat::Bc5RgUnorm => compressed(16, 2, false, false, None),
        GpuTextureFormat::Bc5RgSnorm => compressed(16, 2, false, false, None),
        GpuTextureFormat::Bc6hRgbUfloat => compressed(16, 3, false, false, None),
        GpuTextureFormat::Bc6hRgbFloat => compressed(16, 3, false, false, None),
        GpuTextureFormat::Bc7RgbaUnorm => compressed(16, 4, true, false, Some(GpuTextureFormat::Bc7RgbaUnormSrgb)),
        GpuTextureFormat::Bc7RgbaUnormSrgb => compressed(16, 4, true, true, Some(GpuTextureFormat::Bc7RgbaUnorm)),
        GpuTextureFormat::Stencil8 => depth_stencil(false, None, true, GpuTextureScalarClass::Uint),
        GpuTextureFormat::Depth16Unorm => depth_stencil(true, Some(2), false, GpuTextureScalarClass::Float),
        GpuTextureFormat::Depth24Plus => depth_stencil(true, None, false, GpuTextureScalarClass::Float),
        GpuTextureFormat::Depth24PlusStencil8 => depth_stencil(true, None, true, GpuTextureScalarClass::Float),
        GpuTextureFormat::Depth32Float => depth_stencil(true, Some(4), false, GpuTextureScalarClass::Float),
        GpuTextureFormat::Depth32FloatStencil8 => depth_stencil(true, Some(4), true, GpuTextureScalarClass::Float),
    }
}

/// Every normalized texture format, in census order.
pub open spec fn spec_texture_format_census() -> Seq<GpuTextureFormat> {
    seq![
        GpuTextureFormat::R8Unorm,
        GpuTextureFormat::R8Snorm,
        GpuTextureFormat::R8Uint,
        GpuTextureFormat::R8Sint,
        GpuTextureFormat::Rg8Unorm,
        GpuTextureFormat::Rg8Snorm,
        GpuTextureFormat::Rg8Uint,
        GpuTextureFormat::Rg8Sint,
        GpuTextureFormat::R16Uint,
        GpuTextureFormat::R16Sint,
        GpuTextureFormat::R16Float,
        GpuTextureFormat::Rg16Uint,
        GpuTextureFormat::Rg16Sint,
        GpuTextureFormat::Rg16Float,
        GpuTextureFormat::Rgba8Unorm,
        GpuTextureFormat::Rgba8UnormSrgb,
        GpuTextureFormat::Rgba8Snorm,
        GpuTextureFormat::Rgba8Uint,
        GpuTextureFormat::Rgba8Sint,
        GpuTextureFormat::Bgra8Unorm,
        GpuTextureFormat::Bgra8UnormSrgb,
        GpuTextureFormat::Rgb9e5Ufloat,
        GpuTextureFormat::Rgb10a2Uint,
        GpuTextureFormat::Rgb10a2Unorm,
        GpuTextureFormat::Rg11b10Ufloat,
        GpuTextureFormat::R32Uint,
        GpuTextureFormat::R32Sint,
        GpuTextureFormat::R32Float,
        GpuTextureFormat::Rg32Uint,
        GpuTextureFormat::Rg32Sint,
        GpuTextureFormat::Rg32Float,
        GpuTextureFormat::Rgba32Uint,
        GpuTextureFormat::Rgba32Sint,
        GpuTextureFormat::Rgba32Float,
        GpuTextureFormat::Rgba16Uint,
        GpuTextureFormat::Rgba16Sint,
        GpuTextureFormat::Rgba16Float,
        GpuTextureFormat::Bc1RgbaUnorm,
        GpuTextureFormat::Bc1RgbaUnormSrgb,
        GpuTextureFormat::Bc2RgbaUnorm,
        GpuTextureFormat::Bc2RgbaUnormSrgb,
        GpuTextureFormat::Bc3RgbaUnorm,
        GpuTextureFormat::Bc3RgbaUnormSrgb,
        GpuTextureFormat::Bc4RUnorm,
        GpuTextureFormat::Bc4RSnorm,
        GpuTextureFormat::Bc5RgUnorm,
        GpuTextureFormat::Bc5RgSnorm,
        GpuTextureFormat::Bc6hRgbUfloat,
        GpuTextureFormat::Bc6hRgbFloat,
        GpuTextureFormat::Bc7RgbaUnorm,
        GpuTextureFormat::Bc7RgbaUnormSrgb,
        GpuTextureFormat::Stencil8,
        GpuTextureFormat::Depth16Unorm,
        GpuTextureFormat::Depth24Plus,
        GpuTextureFormat::Depth24PlusStencil8,
        GpuTextureFormat::Depth32Float,
        GpuTextureFormat::Depth32FloatStencil8,
    ]
}

/// Every normalized texture format, in census order.
pub fn all_texture_formats() -> (formats: Vec<GpuTextureFormat>)
    ensures
        formats@ == spec_texture_format_census(),
        formats@.len() == 57,
        forall|f: GpuTextureFormat| #[trigger] formats@.contains(f),
        formats@.no_duplicates(),
{
    let formats = vec![
        GpuTextureFormat::R8Unorm,
        GpuTextureFormat::R8Snorm,
        GpuTextureFormat::R8Uint,
        GpuTextureFormat::R8Sint,
        GpuTextureFormat::Rg8Unorm,
        GpuTextureFormat::Rg8Snorm,
        GpuTextureFormat::Rg8Uint,
        GpuTextureFormat::Rg8Sint,
        GpuTextureFormat::R16Uint,
        GpuTextureFormat::R16Sint,
        GpuTextureFormat::R16Float,
        GpuTextureFormat::Rg16Uint,
        GpuTextureFormat::Rg16Sint,
        GpuTextureFormat::Rg16Float,
        GpuTextureFormat::Rgba8Unorm,
        GpuTextureFormat::Rgba8UnormSrgb,
        GpuTextureFormat::Rgba8Snorm,
        GpuTextureFormat::Rgba8Uint,
        GpuTextureFormat::Rgba8Sint,
        GpuTextureFormat::Bgra8Unorm,
        GpuTextureFormat::Bgra8UnormSrgb,
        GpuTextureFormat::Rgb9e5Ufloat,
        GpuTextureFormat::Rgb10a2Uint,
        GpuTextureFormat::Rgb10a2Unorm,
        GpuTextureFormat::Rg11b10Ufloat,
        GpuTextureFormat::R32Uint,
        GpuTextureFormat::R32Sint,
        GpuTextureFormat::R32Float,
        GpuTextureFormat::Rg32Uint,
        GpuTextureFormat::Rg32Sint,
        GpuTextureFormat::Rg32Float,
        GpuTextureFormat::Rgba32Uint,
        GpuTextureFormat::Rgba32Sint,
        GpuTextureFormat::Rgba32Float,
        GpuTextureFormat::Rgba16Uint,
        GpuTextureFormat::Rgba16Sint,
        GpuTextureFormat::Rgba16Float,
        GpuTextureFormat::Bc1RgbaUnorm,
        GpuTextureFormat::Bc1RgbaUnormSrgb,
        GpuTextureFormat::Bc2RgbaUnorm,
        GpuTextureFormat::Bc2RgbaUnormSrgb,
        GpuTextureFormat::Bc3RgbaUnorm,
        GpuTextureFormat::Bc3RgbaUnormSrgb,
        GpuTextureFormat::Bc4RUnorm,
        GpuTextureFormat::Bc4RSnorm,
        GpuTextureFormat::Bc5RgUnorm,
        GpuTextureFormat::Bc5RgSnorm,
        GpuTextureFormat::Bc6hRgbUfloat,
        GpuTextureFormat::Bc6hRgbFloat,
        GpuTextureFormat::Bc7RgbaUnorm,
        GpuTextureFormat::Bc7RgbaUnormSrgb,
        GpuTextureFormat::Stencil8,
        GpuTextureFormat::Depth16Unorm,
        GpuTextureFormat::Depth24Plus,
        GpuTextureFormat::Depth24PlusStencil8,
        GpuTextureFormat::Depth32Float,
        GpuTextureFormat::Depth32FloatStencil8,
    ];
    proof {
        assert(formats@ =~= spec_texture_format_census());
        assert forall|f: GpuTextureFormat| #[trigger] formats@.contains(f) by {
            match f {
                GpuTextureFormat::R8Unorm => assert(formats@[0] == f),
                GpuTextureFormat::R8Snorm => assert(formats@[1] == f),
                GpuTextureFormat::R8Uint => assert(formats@[2] == f),
                GpuTextureFormat::R8Sint => assert(formats@[3] == f),
                GpuTextureFormat::Rg8Unorm => assert(formats@[4] == f),
                GpuTextureFormat::Rg8Snorm => assert(formats@[5] == f),
                GpuTextureFormat::Rg8Uint => assert(formats@[6] == f),
                GpuTextureFormat::Rg8Sint => assert(formats@[7] == f),
                GpuTextureFormat::R16Uint => assert(formats@[8] == f),
                GpuTextureFormat::R16Sint => assert(formats@[9] == f),
                GpuTextureFormat::R16Float => assert(formats@[10] == f),
                GpuTextureFormat::Rg16Uint => assert(formats@[11] == f),
                GpuTextureFormat::Rg16Sint => assert(formats@[12] == f),
                GpuTextureFormat::Rg16Float => assert(formats@[13] == f),
                GpuTextureFormat::Rgba8Unorm => assert(formats@[14] == f),
                GpuTextureFormat::Rgba8UnormSrgb => assert(formats@[15] == f),
                GpuTextureFormat::Rgba8Snorm => assert(formats@[16] == f),
                GpuTextureFormat::Rgba8Uint => assert(formats@[17] == f),
                GpuTextureFormat::Rgba8Sint => assert(formats@[18] == f),
                GpuTextureFormat::Bgra8Unorm => assert(formats@[19] == f),
                GpuTextureFormat::Bgra8UnormSrgb => assert(formats@[20] == f),
                GpuTextureFormat::Rgb9e5Ufloat => assert(formats@[21] == f),
                GpuTextureFormat::Rgb10a2Uint => assert(formats@[22] == f),
                GpuTextureFormat::Rgb10a2Unorm => assert(formats@[23] == f),
                GpuTextureFormat::Rg11b10Ufloat => assert(formats@[24] == f),
                GpuTextureFormat::R32Uint => assert(formats@[25] == f),
                GpuTextureFormat::R32Sint => assert(formats@[26] == f),
                GpuTextureFormat::R32Float => assert(formats@[27] == f),
                GpuTextureFormat::Rg32Uint => assert(formats@[28] == f),
                GpuTextureFormat::Rg32Sint => assert(formats@[29] == f),
                GpuTextureFormat::Rg32Float => assert(formats@[30] == f),
                GpuTextureFormat::Rgba32Uint => assert(formats@[31] == f),
                GpuTextureFormat::Rgba32Sint => assert(formats@[32] == f),
                GpuTextureFormat::Rgba32Float => assert(formats@[33] == f),
                GpuTextureFormat::Rgba16Uint => assert(formats@[34] == f),
                GpuTextureFormat::Rgba16Sint => assert(formats@[35] == f),
                GpuTextureFormat::Rgba16Float => assert(formats@[36] == f),
                GpuTextureFormat::Bc1RgbaUnorm => assert(formats@[37] == f),
                GpuTextureFormat::Bc1RgbaUnormSrgb => assert(formats@[38] == f),
                GpuTextureFormat::Bc2RgbaUnorm => assert(formats@[39] == f),
                GpuTextureFormat::Bc2RgbaUnormSrgb => assert(formats@[40] == f),
                GpuTextureFormat::Bc3RgbaUnorm => assert(formats@[41] == f),
                GpuTextureFormat::Bc3RgbaUnormSrgb => assert(formats@[42] == f),
                GpuTextureFormat::Bc4RUnorm => assert(formats@[43] == f),
                GpuTextureFormat::Bc4RSnorm => assert(formats@[44] == f),
                GpuTextureFormat::Bc5RgUnorm => assert(formats@[45] == f),
                GpuTextureFormat::Bc5RgSnorm => assert(formats@[46] == f),
                GpuTextureFormat::Bc6hRgbUfloat => assert(formats@[47] == f),
                GpuTextureFormat::Bc6hRgbFloat => assert(formats@[48] == f),
                GpuTextureFormat::Bc7RgbaUnorm => assert(formats@[49] == f),
                GpuTextureFormat::Bc7RgbaUnormSrgb => assert(formats@[50] == f),
                GpuTextureFormat::Stencil8 => assert(formats@[51] == f),
                GpuTextureFormat::Depth16Unorm => assert(formats@[52] == f),
                GpuTextureFormat::Depth24Plus => assert(formats@[53] == f),
                GpuTextureFormat::Depth24PlusStencil8 => assert(formats@[54] == f),
                GpuTextureFormat::Depth32Float => assert(formats@[55] == f),
                GpuTextureFormat::Depth32FloatStencil8 => assert(formats@[56] == f),
            }
        }
    }
    formats
}

/// Whether `format` has `aspect`; `All` asks whether the format has any aspect at all.
pub open spec fn spec_supports_aspect(format: GpuTextureFormat, aspect: GpuTextureAspect) -> bool {
    let s = format_semantics(format);
    match aspect {
        GpuTextureAspect::All => s.color_aspect || s.depth_aspect || s.stencil_aspect,
        GpuTextureAspect::Color => s.color_aspect,
        GpuTextureAspect::DepthOnly => s.depth_aspect,
        GpuTextureAspect::StencilOnly => s.stencil_aspect,
    }
}

/// The single explicit aspect that a copy of `aspect` addresses, if it is unambiguous.
pub open spec fn spec_canonical_copy_aspect(
    format: GpuTextureFormat,
    aspect: GpuTextureAspect,
) -> Option<GpuTextureAspect> {
    let s = format_semantics(format);
    match aspect {
        GpuTextureAspect::Color => if s.color_aspect {
            Some(GpuTextureAspect::Color)
        } else {
            None
        },
        GpuTextureAspect::DepthOnly => if s.depth_aspect {
            Some(GpuTextureAspect::DepthOnly)
        } else {
            None
        },
        GpuTextureAspect::StencilOnly => if s.stencil_aspect {
            Some(GpuTextureAspect::StencilOnly)
        } else {
            None
        },
        GpuTextureAspect::All => if s.color_aspect && !s.depth_aspect && !s.stencil_aspect {
            Some(GpuTextureAspect::Color)
        } else if !s.color_aspect && s.depth_aspect && !s.stencil_aspect {
            Some(GpuTextureAspect::DepthOnly)
        } else if !s.color_aspect && !s.depth_aspect && s.stencil_aspect {
            Some(GpuTextureAspect::StencilOnly)
        } else {
            None
        },
    }
}

/// Bytes per copy block of the canonical aspect that `aspect` selects, if it is copyable.
pub open spec fn spec_copy_block_size(format: GpuTextureFormat, aspect: GpuTextureAspect) -> Option<
    u32,
> {
    let s = format_semantics(format);
    match spec_canonical_copy_aspect(format, aspect) {
        Some(GpuTextureAspect::Color) => s.color_copy_block_size,
        Some(GpuTextureAspect::DepthOnly) => s.depth_copy_block_size,
        Some(GpuTextureAspect::StencilOnly) => s.stencil_copy_block_size,
        _ => None,
    }
}

/// Bytes per texel block of the whole format: its copy block size when the whole format is
/// copyable as one aspect, or 0 when it is not.
pub open spec fn spec_bytes_per_texel(format: GpuTextureFormat) -> u32 {
    match spec_copy_block_size(format, GpuTextureAspect::All) {
        Some(size) => size,
        None => 0,
    }
}

/// Two formats may view (and raw-copy) one another when they are equal or sRGB-paired.
pub open spec fn spec_view_compatible(parent: GpuTextureFormat, view: GpuTextureFormat) -> bool {
    parent == view || format_semantics(parent).paired_view_format == Some(view)
}

/// The scalar class of a format's color aspect, if it has one.
pub open spec fn spec_color_scalar_class(format: GpuTextureFormat) -> Option<GpuTextureScalarClass> {
    if format_semantics(format).color_aspect {
        Some(format_semantics(format).scalar_class)
    } else {
        None
    }
}

/// Ceiling division over the integers.
pub open spec fn spec_ceil_div(extent: int, block: int) -> int {
    (extent + block - 1) / block
}

/// Row bytes and block rows of a logical copy, if the copy is well formed and representable.
pub open spec fn spec_logical_copy_footprint(
    format: GpuTextureFormat,
    aspect: GpuTextureAspect,
    width: u32,
    height: u32,
) -> Option<(u32, u32)> {
    if width == 0 || height == 0 {
        None
    } else {
        match spec_copy_block_size(format, aspect) {
            None => None,
            Some(bytes) => {
                let block_width = format_semantics(format).block_dimensions.0;
                let block_height = format_semantics(format).block_dimensions.1;
                let wide = spec_ceil_div(width as int, block_width as int);
                let rows = spec_ceil_div(height as int, block_height as int);
                if wide * bytes <= u32::MAX {
                    Some(((wide * bytes) as u32, rows as u32))
                } else {
                    None
                }
            },
        }
    }
}

/// The byte length of a tightly packed copy, if well formed and representable in a `u64`.
pub open spec fn spec_tightly_packed_copy_byte_len(
    format: GpuTextureFormat,
    aspect: GpuTextureAspect,
    width: u32,
    height: u32,
    depth_or_layers: u32,
) -> Option<u64> {
    match spec_logical_copy_footprint(format, aspect, width, height) {
        None => None,
        Some(footprint) => {
            let total = footprint.0 * footprint.1 * depth_or_layers;
            if total <= u64::MAX {
                Some(total as u64)
            } else {
                None
            }
        },
    }
}

/// Bytes per texel block of the whole format `format`, or 0 when it is not copyable as one
/// aspect.
pub fn bytes_per_texel(format: GpuTextureFormat) -> (r: u32)
    ensures
        r == spec_bytes_per_texel(format),
{
    match copy_block_size(format, GpuTextureAspect::All) {
        Some(size) => size,
        None => 0,
    }
}

/// Whether `format` has a depth aspect.
pub fn is_depth(format: GpuTextureFormat) -> (r: bool)
    ensures
        r == format_semantics(format).depth_aspect,
{
    semantics(format).depth_aspect
}

/// Whether `format` has a stencil aspect.
pub fn is_stencil(format: GpuTextureFormat) -> (r: bool)
    ensures
        r == format_semantics(format).stencil_aspect,
{
    semantics(format).stencil_aspect
}

/// Whether `format` stores sRGB-encoded color.
pub fn is_srgb(format: GpuTextureFormat) -> (r: bool)
    ensures
        r == format_semantics(format).srgb,
{
    semantics(format).srgb
}

/// Texel block width and height of `format`.
pub fn block_dimensions(format: GpuTextureFormat) -> (r: (u32, u32))
    ensures
        r == format_semantics(format).block_dimensions,
        r.0 >= 1 && r.1 >= 1,
{
    semantics(format).block_dimensions
}

/// The copy block size of the whole format, when its aspects make that unambiguous.
pub fn default_copy_block_size(format: GpuTextureFormat) -> (r: Option<u32>)
    ensures
        r == spec_copy_block_size(format, GpuTextureAspect::All),
{
    copy_block_size(format, GpuTextureAspect::All)
}

/// Whether `format` has `aspect` (`All`: whether it has any aspect).
pub fn supports_aspect(format: GpuTextureFormat, aspect: GpuTextureAspect) -> (r: bool)
    ensures
        r == spec_supports_aspect(format, aspect),
{
    let value = semantics(format);
    match aspect {
        GpuTextureAspect::All => value.color_aspect || value.depth_aspect || value.stencil_aspect,
        GpuTextureAspect::Color => value.color_aspect,
        GpuTextureAspect::DepthOnly => value.depth_aspect,
        GpuTextureAspect::StencilOnly => value.stencil_aspect,
    }
}

/// The explicit aspect a copy of `aspect` addresses; `All` canonicalizes only when unambiguous.
pub fn canonical_copy_aspect(format: GpuTextureFormat, aspect: GpuTextureAspect) -> (r: Option<
    GpuTextureAspect,
>)
    ensures
        r == spec_canonical_copy_aspect(format, aspect),
{
    let value = semantics(format);
    match aspect {
        GpuTextureAspect::Color => if value.color_aspect {
            Some(GpuTextureAspect::Color)
        } else {
            None
        },
        GpuTextureAspect::DepthOnly => if value.depth_aspect {
            Some(GpuTextureAspect::DepthOnly)
        } else {
            None
        },
        GpuTextureAspect::StencilOnly => if value.stencil_aspect {
            Some(GpuTextureAspect::StencilOnly)
        } else {
            None
        },
        GpuTextureAspect::All => {
            if value.color_aspect && !value.depth_aspect && !value.stencil_aspect {
                Some(GpuTextureAspect::Color)
            } else if !value.color_aspect && value.depth_aspect && !value.stencil_aspect {
                Some(GpuTextureAspect::DepthOnly)
            } else if !value.color_aspect && !value.depth_aspect && value.stencil_aspect {
                Some(GpuTextureAspect::StencilOnly)
            } else {
                None
            }
        },
    }
}

/// Bytes per copy block of the aspect that `aspect` canonically selects, if it is copyable.
pub fn copy_block_size(format: GpuTextureFormat, aspect: GpuTextureAspect) -> (r: Option<u32>)
    ensures
        r == spec_copy_block_size(format, aspect),
{
    let value = semantics(format);
    match canonical_copy_aspect(format, aspect) {
        Some(GpuTextureAspect::Color) => value.color_copy_block_size,
        Some(GpuTextureAspect::DepthOnly) => value.depth_copy_block_size,
        Some(GpuTextureAspect::StencilOnly) => value.stencil_copy_block_size,
        _ => None,
    }
}

/// The sRGB partner a view of `format` may use, if any.
pub fn paired_view_format(format: GpuTextureFormat) -> (r: Option<GpuTextureFormat>)
    ensures
        r == format_semantics(format).paired_view_format,
{
    semantics(format).paired_view_format
}

/// Whether a view of a `parent` texture may use format `view`.
pub fn view_compatible(parent: GpuTextureFormat, view: GpuTextureFormat) -> (r: bool)
    ensures
        r == spec_view_compatible(parent, view),
{
    if parent == view {
        return true;
    }
    match paired_view_format(parent) {
        Some(paired) => paired == view,
        None => false,
    }
}

/// Whether texel bytes may be copied verbatim from `source` into `destination`.
pub fn raw_copy_compatible(source: GpuTextureFormat, destination: GpuTextureFormat) -> (r: bool)
    ensures
        r == spec_view_compatible(source, destination),
{
    if source == destination {
        return true;
    }
    match paired_view_format(source) {
        Some(paired) => paired == destination,
        None => false,
    }
}

/// Scalar class of the values stored in `format`.
pub fn scalar_class(format: GpuTextureFormat) -> (r: GpuTextureScalarClass)
    ensures
        r == format_semantics(format).scalar_class,
{
    semantics(format).scalar_class
}

/// Scalar class of the color aspect of `format`, if it has one.
pub fn color_scalar_class(format: GpuTextureFormat) -> (r: Option<GpuTextureScalarClass>)
    ensures
        r == spec_color_scalar_class(format),
{
    let value = semantics(format);
    if value.color_aspect {
        Some(value.scalar_class)
    } else {
        None
    }
}

/// Number of components stored in `format`.
pub fn component_count(format: GpuTextureFormat) -> (r: u8)
    ensures
        r == format_semantics(format).component_count,
        1 <= r <= 4,
{
    semantics(format).component_count
}

/// Whether `format` stores an alpha channel.
pub fn has_alpha(format: GpuTextureFormat) -> (r: bool)
    ensures
        r == format_semantics(format).has_alpha,
{
    semantics(format).has_alpha
}

/// The block-compression family of `format`, if it is compressed.
pub fn compression_family(format: GpuTextureFormat) -> (r: Option<GpuTextureCompressionFamily>)
    ensures
        r == format_semantics(format).compression_family,
{
    semantics(format).compression_family
}

/// Number of `block`-sized blocks needed to cover `extent`.
pub fn block_count(extent: u32, block: u32) -> (r: u32)
    requires
        block > 0,
    ensures
        r == spec_ceil_div(extent as int, block as int),
{
    let quotient = extent / block;
    let remainder = extent % block;
    proof {
        lemma_ceil_div_from_div_mod(extent as int, block as int, quotient as int, remainder as int);
    }
    if remainder != 0 {
        quotient + 1
    } else {
        quotient
    }
}

proof fn lemma_ceil_div_from_div_mod(extent: int, block: int, quotient: int, remainder: int)
    requires
        0 <= extent <= u32::MAX,
        block > 0,
        quotient == extent / block,
        remainder == extent % block,
    ensures
        remainder != 0 ==> quotient + 1 <= u32::MAX && spec_ceil_div(extent, block) == quotient + 1,
        remainder == 0 ==> spec_ceil_div(extent, block) == quotient,
{
    vstd::arithmetic::div_mod::lemma_fundamental_div_mod(extent, block);
    vstd::arithmetic::div_mod::lemma_mod_bound(extent, block);
    let c = spec_ceil_div(extent, block);
    vstd::arithmetic::div_mod::lemma_fundamental_div_mod(extent + block - 1, block);
    vstd::arithmetic::div_mod::lemma_mod_bound(extent + block - 1, block);
    assert(extent == block * quotient + remainder);
    assert(extent + block - 1 == block * c + (extent + block - 1) % block);
    if remainder != 0 {
        assert(block * c <= block * quotient + remainder + block - 1);
        assert(block * c > block * quotient + remainder - 1);
        assert(c == quotient + 1) by (nonlinear_arith)
            requires
                block * c <= block * quotient + remainder + block - 1,
                block * c > block * quotient + remainder - 1,
                1 <= remainder < block,
                block > 0,
        ;
        assert(block >= 2);
        assert(quotient * block <= extent) by (nonlinear_arith)
            requires
                extent == block * quotient + remainder,
                remainder >= 0,
        ;
        assert(quotient * 2 <= quotient * block) by (nonlinear_arith)
            requires
                block >= 2,
                quotient >= 0,
        ;
    } else {
        assert(c == quotient) by (nonlinear_arith)
            requires
                block * c <= block * quotient + block - 1,
                block * c > block * quotient - 1,
                block > 0,
        ;
    }
}

/// Row bytes and block rows of a logical copy of `width` x `height` texels of `aspect`.
pub fn logical_copy_footprint(
    format: GpuTextureFormat,
    aspect: GpuTextureAspect,
    width: u32,
    height: u32,
) -> (r: Option<(u32, u32)>)
    ensures
        r == spec_logical_copy_footprint(format, aspect, width, height),
{
    if width == 0 || height == 0 {
        return None;
    }
    let (block_width, block_height) = block_dimensions(format);
    let bytes_per_block = match copy_block_size(format, aspect) {
        Some(value) => value,
        None => return None,
    };
    let blocks_wide = block_count(width, block_width);
    let block_rows = block_count(height, block_height);
    match blocks_wide.checked_mul(bytes_per_block) {
        Some(row_bytes) => Some((row_bytes, block_rows)),
        None => None,
    }
}

/// Byte length of a tightly packed copy of `depth_or_layers` footprints.
pub fn tightly_packed_copy_byte_len(
    format: GpuTextureFormat,
    aspect: GpuTextureAspect,
    width: u32,
    height: u32,
    depth_or_layers: u32,
) -> (r: Option<u64>)
    ensures
        r == spec_tightly_packed_copy_byte_len(format, aspect, width, height, depth_or_layers),
{
    let (row_bytes, block_rows) = match logical_copy_footprint(format, aspect, width, height) {
        Some(value) => value,
        None => return None,
    };
    proof {
        assert(row_bytes * block_rows <= u32::MAX * u32::MAX) by (nonlinear_arith)
            requires
                row_bytes <= u32::MAX,
                block_rows <= u32::MAX,
        ;
    }
    let rows = match (row_bytes as u64).checked_mul(block_rows as u64) {
        Some(value) => value,
        None => return None,
    };
    rows.checked_mul(depth_or_layers as u64)
}

impl GpuTextureFormat {
    /// Whether this format has a depth aspect.
    pub fn is_depth(self) -> (r: bool)
        ensures
            r == format_semantics(self).depth_aspect,
    {
        is_depth(self)
    }

    /// Whether this format has a stencil aspect.
    pub fn is_stencil(self) -> (r: bool)
        ensures
            r == format_semantics(self).stencil_aspect,
    {
        is_stencil(self)
    }

    /// Bytes per copy block of `aspect` of this format, if copyable.
    pub fn copy_block_size(self, aspect: GpuTextureAspect) -> (r: Option<u32>)
        ensures
            r == spec_copy_block_size(self, aspect),
    {
        copy_block_size(self, aspect)
    }

    /// Whether this format stores sRGB-encoded color.
    pub fn is_srgb(self) -> (r: bool)
        ensures
            r == format_semantics(self).srgb,
    {
        is_srgb(self)
    }

    /// Texel block width and height of this format.
    pub fn block_dimensions(self) -> (r: (u32, u32))
        ensures
            r == format_semantics(self).block_dimensions,
    {
        block_dimensions(self)
    }

    /// Bytes per texel block of this whole format, or 0 when it is not copyable as one aspect.
    pub fn bytes_per_texel(self) -> (r: u32)
        ensures
            r == spec_bytes_per_texel(self),
    {
        bytes_per_texel(self)
    }
}

/// sRGB pairing is an involution between two distinct formats that share all storage structure
/// and differ only in sRGB encoding.
pub proof fn lemma_paired_view_format_is_an_involution(format: GpuTextureFormat)
    ensures
        format_semantics(format).paired_view_format matches Some(paired) ==> {
            let s = format_semantics(format);
            let t = format_semantics(paired);
            &&& paired != format
            &&& t.paired_view_format == Some(format)
            &&& t.srgb != s.srgb
            &&& t.block_dimensions == s.block_dimensions
            &&& t.color_copy_block_size == s.color_copy_block_size
            &&& t.scalar_class == s.scalar_class
            &&& t.component_count == s.component_count
            &&& t.has_alpha == s.has_alpha
            &&& t.compression_family == s.compression_family
        },
{
}

/// View compatibility is reflexive and symmetric, and raw-copy compatibility is the same relation.
pub proof fn lemma_view_compatibility_is_a_symmetric_pairing(a: GpuTextureFormat, b: GpuTextureFormat)
    ensures
        spec_view_compatible(a, a),
        spec_view_compatible(a, b) == spec_view_compatible(b, a),
        spec_view_compatible(a, b) && a != b ==> format_semantics(a).srgb != format_semantics(b).srgb,
{
    lemma_paired_view_format_is_an_involution(a);
    lemma_paired_view_format_is_an_involution(b);
}

/// A canonical copy aspect is always explicit and present; an explicit aspect canonicalizes to
/// itself exactly when the format has it.
pub proof fn lemma_canonical_copy_aspect_is_explicit_and_present(
    format: GpuTextureFormat,
    aspect: GpuTextureAspect,
)
    ensures
        spec_canonical_copy_aspect(format, aspect) matches Some(c) ==> c != GpuTextureAspect::All
            && spec_supports_aspect(format, c) && spec_supports_aspect(format, aspect),
        aspect != GpuTextureAspect::All ==> (spec_canonical_copy_aspect(format, aspect) == Some(
            aspect,
        ) <==> spec_supports_aspect(format, aspect)),
        spec_copy_block_size(format, aspect) matches Some(size) ==> size > 0 && spec_supports_aspect(
            format,
            aspect,
        ),
{
}

/// Bytes per texel is the whole format's copy block size. On a format with a single aspect it
/// is the copy block size of that aspect, and on a copyable single-aspect format it is nonzero.
pub proof fn lemma_bytes_per_texel_is_the_whole_format_copy_size(format: GpuTextureFormat)
    ensures
        spec_copy_block_size(format, GpuTextureAspect::All) matches Some(size)
            ==> spec_bytes_per_texel(format) == size && size > 0,
        spec_copy_block_size(format, GpuTextureAspect::All) is None ==> spec_bytes_per_texel(format)
            == 0,
        ({
            let s = format_semantics(format);
            &&& s.color_aspect && !s.depth_aspect && !s.stencil_aspect ==> spec_bytes_per_texel(format)
                == match s.color_copy_block_size {
                Some(size) => size,
                None => 0u32,
            }
            &&& !s.color_aspect && s.depth_aspect && !s.stencil_aspect ==> spec_bytes_per_texel(format)
                == match s.depth_copy_block_size {
                Some(size) => size,
                None => 0u32,
            }
            &&& !s.color_aspect && !s.depth_aspect && s.stencil_aspect ==> spec_bytes_per_texel(format)
                == match s.stencil_copy_block_size {
                Some(size) => size,
                None => 0u32,
            }
        }),
{
    lemma_canonical_copy_aspect_is_explicit_and_present(format, GpuTextureAspect::All);
}

/// Every format has at least one aspect, and a color aspect never coexists with depth or stencil.
pub proof fn lemma_aspects_are_exclusive_between_color_and_depth_stencil(format: GpuTextureFormat)
    ensures
        spec_supports_aspect(format, GpuTextureAspect::All),
        format_semantics(format).color_aspect <==> !(format_semantics(format).depth_aspect
            || format_semantics(format).stencil_aspect),
{
}

/// A tightly packed copy is exactly row bytes times block rows times layers, and exists only
/// for nonempty extents of a copyable aspect.
pub proof fn lemma_tightly_packed_len_is_the_footprint_product(
    format: GpuTextureFormat,
    aspect: GpuTextureAspect,
    width: u32,
    height: u32,
    depth_or_layers: u32,
)
    ensures
        spec_tightly_packed_copy_byte_len(format, aspect, width, height, depth_or_layers) matches Some(
            len,
        ) ==> {
            &&& width > 0 && height > 0
            &&& spec_copy_block_size(format, aspect) is Some
            &&& spec_logical_copy_footprint(format, aspect, width, height) matches Some(fp)
            &&& len == fp.0 * fp.1 * depth_or_layers
        },
        spec_copy_block_size(format, aspect) is None ==> spec_tightly_packed_copy_byte_len(
            format,
            aspect,
            width,
            height,
            depth_or_layers,
        ) is None,
{
}

} // verus!
