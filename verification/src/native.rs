//! Decisions of the native (wgpu) realization over plain facts read from the adapter:
//! which portable capabilities an adapter proves, which device-request profile it gets,
//! which format roles its format features support, and which native features a device
//! request must enable.

use vstd::prelude::*;
use crate::capabilities::GpuCapabilityFeature;
use crate::texture_format::{
    self, format_semantics, spec_supports_aspect, GpuTextureAspect, GpuTextureCompressionFamily,
    GpuTextureFormat,
};

verus! {

/// Backend families a native adapter runs on.
#[derive(Debug, Clone, Copy, PartialEq, Eq, Structural, PartialOrd, Ord, Hash)]
pub enum GpuBackendFamily {
    Vulkan,
    Metal,
    Direct3D12,
    OpenGl,
    BrowserWebGpu,
    UnknownBackend,
}

/// Physical class of an adapter.
#[derive(Debug, Clone, Copy, PartialEq, Eq, Structural, PartialOrd, Ord, Hash)]
pub enum GpuAdapterClass {
    Discrete,
    Integrated,
    Virtual,
    Cpu,
    Other,
}

/// Whether an adapter is known to be a software implementation.
#[derive(Debug, Clone, Copy, PartialEq, Eq, Structural, PartialOrd, Ord, Hash)]
pub enum GpuSoftwareStatus {
    Hardware,
    Software,
    Unknown,
}

/// What is known about whether an adapter is a fallback adapter.
#[derive(Debug, Clone, Copy, PartialEq, Eq, Structural, PartialOrd, Ord, Hash)]
pub enum GpuFallbackStatus {
    ConfirmedFallback,
    ConfirmedNotFallback,
    Unknown,
}

/// Whether a context request allows, forbids, or requires a software fallback adapter.
#[derive(Debug, Clone, Copy, PartialEq, Eq, Structural, PartialOrd, Ord, Hash)]
pub enum GpuSoftwareFallbackPolicy {
    Allow,
    Forbid,
    Require,
}

/// The complete limit profile a device request starts from.
#[derive(Debug, Clone, Copy, PartialEq, Eq, Structural, PartialOrd, Ord, Hash)]
pub enum GpuDeviceRequestProfile {
    ModernPortable,
    BrowserWebGpu,
    Downlevel,
    DownlevelWebGl2,
}

/// How the native backend finds adapters for a fallback policy.
#[derive(Debug, Clone, Copy, PartialEq, Eq, Structural, PartialOrd, Ord, Hash)]
pub enum NativeAdapterSelectionRoute {
    Enumerated,
    ForcedFallback,
}

/// Roles a texture format can be required to play.
#[derive(Debug, Clone, Copy, PartialEq, Eq, Structural, PartialOrd, Ord, Hash)]
pub enum GpuFormatRole {
    Sampled,
    Filterable,
    StorageRead,
    StorageWrite,
    ColorAttachment,
    DepthStencil,
    CopySource,
    CopyDestination,
}

/// The software status an adapter class proves: only a CPU adapter is known to be software.
pub fn software_status(class: GpuAdapterClass) -> (r: GpuSoftwareStatus)
    ensures
        r == if class == GpuAdapterClass::Cpu {
            GpuSoftwareStatus::Software
        } else {
            GpuSoftwareStatus::Unknown
        },
{
    match class {
        GpuAdapterClass::Cpu => GpuSoftwareStatus::Software,
        _ => GpuSoftwareStatus::Unknown,
    }
}

/// Native device features the realization reads or requests.
#[derive(Debug, Clone, Copy, PartialEq, Eq, Structural, PartialOrd, Ord, Hash)]
pub enum GpuNativeFeature {
    TimestampQuery,
    TextureBindingArray,
    BufferBindingArray,
    StorageResourceBindingArray,
    UniformBufferBindingArrays,
    ShaderF16,
    TextureCompressionBc,
    Depth32FloatStencil8,
    Rg11b10UfloatRenderable,
    TextureAdapterSpecificFormatFeatures,
}

/// A set of native device features.
#[derive(Debug, Clone, Copy, PartialEq, Eq, Structural, PartialOrd, Ord, Hash)]
pub struct GpuNativeFeatures {
    timestamp_query: bool,
    texture_binding_array: bool,
    buffer_binding_array: bool,
    storage_resource_binding_array: bool,
    uniform_buffer_binding_arrays: bool,
    shader_f16: bool,
    texture_compression_bc: bool,
    depth32float_stencil8: bool,
    rg11b10ufloat_renderable: bool,
    texture_adapter_specific_format_features: bool,
}

impl GpuNativeFeatures {
    pub closed spec fn spec_has(self, feature: GpuNativeFeature) -> bool {
        match feature {
            GpuNativeFeature::TimestampQuery => self.timestamp_query,
            GpuNativeFeature::TextureBindingArray => self.texture_binding_array,
            GpuNativeFeature::BufferBindingArray => self.buffer_binding_array,
            GpuNativeFeature::StorageResourceBindingArray => self.storage_resource_binding_array,
            GpuNativeFeature::UniformBufferBindingArrays => self.uniform_buffer_binding_arrays,
            GpuNativeFeature::ShaderF16 => self.shader_f16,
            GpuNativeFeature::TextureCompressionBc => self.texture_compression_bc,
            GpuNativeFeature::Depth32FloatStencil8 => self.depth32float_stencil8,
            GpuNativeFeature::Rg11b10UfloatRenderable => self.rg11b10ufloat_renderable,
            GpuNativeFeature::TextureAdapterSpecificFormatFeatures => self.texture_adapter_specific_format_features,
        }
    }

    /// Whether every feature of `other` is in this set.
    pub open spec fn spec_contains(self, other: Self) -> bool {
        forall|f: GpuNativeFeature| #[trigger] other.spec_has(f) ==> self.spec_has(f)
    }

    /// The empty set.
    pub fn empty() -> (r: Self)
        ensures
            forall|f: GpuNativeFeature| !r.spec_has(f),
    {
        GpuNativeFeatures {
            timestamp_query: false,
            texture_binding_array: false,
            buffer_binding_array: false,
            storage_resource_binding_array: false,
            uniform_buffer_binding_arrays: false,
            shader_f16: false,
            texture_compression_bc: false,
            depth32float_stencil8: false,
            rg11b10ufloat_renderable: false,
            texture_adapter_specific_format_features: false,
        }
    }

    /// This set with `feature` added.
    pub fn with(self, feature: GpuNativeFeature) -> (r: Self)
        ensures
            forall|f: GpuNativeFeature| r.spec_has(f) == (self.spec_has(f) || f == feature),
    {
        let mut r = self;
        match feature {
            GpuNativeFeature::TimestampQuery => r.timestamp_query = true,
            GpuNativeFeature::TextureBindingArray => r.texture_binding_array = true,
            GpuNativeFeature::BufferBindingArray => r.buffer_binding_array = true,
            GpuNativeFeature::StorageResourceBindingArray => r.storage_resource_binding_array = true,
            GpuNativeFeature::UniformBufferBindingArrays => r.uniform_buffer_binding_arrays = true,
            GpuNativeFeature::ShaderF16 => r.shader_f16 = true,
            GpuNativeFeature::TextureCompressionBc => r.texture_compression_bc = true,
            GpuNativeFeature::Depth32FloatStencil8 => r.depth32float_stencil8 = true,
            GpuNativeFeature::Rg11b10UfloatRenderable => r.rg11b10ufloat_renderable = true,
            GpuNativeFeature::TextureAdapterSpecificFormatFeatures => r.texture_adapter_specific_format_features = true,
        }
        r
    }

    /// The union of two sets.
    pub fn union(self, other: Self) -> (r: Self)
        ensures
            forall|f: GpuNativeFeature| r.spec_has(f) == (self.spec_has(f) || other.spec_has(f)),
    {
        GpuNativeFeatures {
            timestamp_query: self.timestamp_query || other.timestamp_query,
            texture_binding_array: self.texture_binding_array || other.texture_binding_array,
            buffer_binding_array: self.buffer_binding_array || other.buffer_binding_array,
            storage_resource_binding_array: self.storage_resource_binding_array
                || other.storage_resource_binding_array,
            uniform_buffer_binding_arrays: self.uniform_buffer_binding_arrays
                || other.uniform_buffer_binding_arrays,
            shader_f16: self.shader_f16 || other.shader_f16,
            texture_compression_bc: self.texture_compression_bc || other.texture_compression_bc,
            depth32float_stencil8: self.depth32float_stencil8 || other.depth32float_stencil8,
            rg11b10ufloat_renderable: self.rg11b10ufloat_renderable
                || other.rg11b10ufloat_renderable,
            texture_adapter_specific_format_features: self.texture_adapter_specific_format_features
                || other.texture_adapter_specific_format_features,
        }
    }

    /// Whether `feature` is in this set.
    pub fn has(self, feature: GpuNativeFeature) -> (r: bool)
        ensures
            r == self.spec_has(feature),
    {
        match feature {
            GpuNativeFeature::TimestampQuery => self.timestamp_query,
            GpuNativeFeature::TextureBindingArray => self.texture_binding_array,
            GpuNativeFeature::BufferBindingArray => self.buffer_binding_array,
            GpuNativeFeature::StorageResourceBindingArray => self.storage_resource_binding_array,
            GpuNativeFeature::UniformBufferBindingArrays => self.uniform_buffer_binding_arrays,
            GpuNativeFeature::ShaderF16 => self.shader_f16,
            GpuNativeFeature::TextureCompressionBc => self.texture_compression_bc,
            GpuNativeFeature::Depth32FloatStencil8 => self.depth32float_stencil8,
            GpuNativeFeature::Rg11b10UfloatRenderable => self.rg11b10ufloat_renderable,
            GpuNativeFeature::TextureAdapterSpecificFormatFeatures => self.texture_adapter_specific_format_features,
        }
    }

    /// Whether every feature of `other` is in this set.
    pub fn contains(self, other: Self) -> (r: bool)
        ensures
            r == self.spec_contains(other),
    {
        let r = (!other.timestamp_query || self.timestamp_query) && (!other.texture_binding_array
            || self.texture_binding_array) && (!other.buffer_binding_array
            || self.buffer_binding_array) && (!other.storage_resource_binding_array
            || self.storage_resource_binding_array) && (!other.uniform_buffer_binding_arrays
            || self.uniform_buffer_binding_arrays) && (!other.shader_f16 || self.shader_f16) && (
        !other.texture_compression_bc || self.texture_compression_bc) && (
        !other.depth32float_stencil8 || self.depth32float_stencil8) && (
        !other.rg11b10ufloat_renderable || self.rg11b10ufloat_renderable) && (
        !other.texture_adapter_specific_format_features
            || self.texture_adapter_specific_format_features);
        proof {
            if !r {
                if other.timestamp_query && !self.timestamp_query {
                    assert(other.spec_has(GpuNativeFeature::TimestampQuery));
                } else if other.texture_binding_array && !self.texture_binding_array {
                    assert(other.spec_has(GpuNativeFeature::TextureBindingArray));
                } else if other.buffer_binding_array && !self.buffer_binding_array {
                    assert(other.spec_has(GpuNativeFeature::BufferBindingArray));
                } else if other.storage_resource_binding_array
                    && !self.storage_resource_binding_array {
                    assert(other.spec_has(GpuNativeFeature::StorageResourceBindingArray));
                } else if other.uniform_buffer_binding_arrays
                    && !self.uniform_buffer_binding_arrays {
                    assert(other.spec_has(GpuNativeFeature::UniformBufferBindingArrays));
                } else if other.shader_f16 && !self.shader_f16 {
                    assert(other.spec_has(GpuNativeFeature::ShaderF16));
                } else if other.texture_compression_bc && !self.texture_compression_bc {
                    assert(other.spec_has(GpuNativeFeature::TextureCompressionBc));
                } else if other.depth32float_stencil8 && !self.depth32float_stencil8 {
                    assert(other.spec_has(GpuNativeFeature::Depth32FloatStencil8));
                } else if other.rg11b10ufloat_renderable && !self.rg11b10ufloat_renderable {
                    assert(other.spec_has(GpuNativeFeature::Rg11b10UfloatRenderable));
                } else {
                    assert(other.spec_has(GpuNativeFeature::TextureAdapterSpecificFormatFeatures));
                }
            }
        }
        r
    }
}

/// The native downlevel flags an adapter reports, as their raw bits.
#[derive(Debug, Clone, Copy, PartialEq, Eq, Structural, PartialOrd, Ord, Hash)]
pub struct GpuNativeDownlevelFlags {
    pub bits: u32,
}

/// Downlevel flags the realization reads.
#[derive(Debug, Clone, Copy, PartialEq, Eq, Structural, PartialOrd, Ord, Hash)]
pub enum GpuNativeDownlevelFlag {
    ComputeShaders,
    IndirectExecution,
    WebGpuTextureFormatSupport,
    DepthBiasClamp,
}

/// The bit wgpu assigns to a downlevel flag.
pub open spec fn spec_downlevel_flag_bit(flag: GpuNativeDownlevelFlag) -> u32 {
    match flag {
        GpuNativeDownlevelFlag::ComputeShaders => 0x1u32,
        GpuNativeDownlevelFlag::IndirectExecution => 0x4u32,
        GpuNativeDownlevelFlag::WebGpuTextureFormatSupport => 0x4000u32,
        GpuNativeDownlevelFlag::DepthBiasClamp => 0x4_0000u32,
    }
}

/// The union of every downlevel flag wgpu defines (bits 0 through 25).
pub open spec fn spec_known_downlevel_bits() -> u32 {
    0x03FF_FFFFu32
}

/// Calls `wgpu::DownlevelFlags::all().bits()`: the union of the downlevel flags wgpu
/// defines, bits 0 through 25.
#[verifier::external_body]
fn native_known_downlevel_bits() -> (r: u32)
    ensures
        r == spec_known_downlevel_bits(),
{
    wgpu::DownlevelFlags::all().bits()
}

/// Calls `wgpu::DownlevelFlags::contains` on the flags with raw `bits`: true exactly when every
/// bit of the named flag is set.
#[verifier::external_body]
fn native_downlevel_flags_contain(bits: u32, flag: GpuNativeDownlevelFlag) -> (r: bool)
    ensures
        r == (bits & spec_downlevel_flag_bit(flag) == spec_downlevel_flag_bit(flag)),
{
    let flag = match flag {
        GpuNativeDownlevelFlag::ComputeShaders => wgpu::DownlevelFlags::COMPUTE_SHADERS,
        GpuNativeDownlevelFlag::IndirectExecution => wgpu::DownlevelFlags::INDIRECT_EXECUTION,
        GpuNativeDownlevelFlag::WebGpuTextureFormatSupport => wgpu::DownlevelFlags::WEBGPU_TEXTURE_FORMAT_SUPPORT,
        GpuNativeDownlevelFlag::DepthBiasClamp => wgpu::DownlevelFlags::DEPTH_BIAS_CLAMP,
    };
    wgpu::DownlevelFlags::from_bits_retain(bits).contains(flag)
}

/// The shader model an adapter reports, in terms of D3D's shader models.
#[derive(Debug, Clone, Copy, PartialEq, Eq, Structural, PartialOrd, Ord, Hash)]
pub enum GpuNativeShaderModel {
    Sm2,
    Sm4,
    Sm5,
}

/// The downlevel flags a WebGPU-compliant adapter must report: every flag wgpu defines except
/// anisotropic filtering (bit 10).
pub open spec fn spec_compliant_downlevel_bits() -> u32 {
    0x03FF_FBFFu32
}

/// Whether downlevel facts describe a WebGPU-compliant adapter: every compliant flag is set and
/// the shaders reach shader model 5.
pub open spec fn spec_webgpu_compliant(
    flags: GpuNativeDownlevelFlags,
    shader_model: GpuNativeShaderModel,
) -> bool {
    flags.bits & spec_compliant_downlevel_bits() == spec_compliant_downlevel_bits()
        && shader_model == GpuNativeShaderModel::Sm5
}

/// Calls `wgpu::DownlevelCapabilities::is_webgpu_compliant` on capabilities with the raw flag
/// bits, default downlevel limits (which hold no value) and `shader_model`: true exactly when the
/// flags contain `DownlevelFlags::compliant()` (all defined flags but anisotropic filtering) and
/// the shader model is at least `Sm5`, the highest.
#[verifier::external_body]
fn native_downlevel_webgpu_compliant(
    flags: GpuNativeDownlevelFlags,
    shader_model: GpuNativeShaderModel,
) -> (r: bool)
    ensures
        r == spec_webgpu_compliant(flags, shader_model),
{
    let shader_model = match shader_model {
        GpuNativeShaderModel::Sm2 => wgpu::ShaderModel::Sm2,
        GpuNativeShaderModel::Sm4 => wgpu::ShaderModel::Sm4,
        GpuNativeShaderModel::Sm5 => wgpu::ShaderModel::Sm5,
    };
    wgpu::DownlevelCapabilities {
        flags: wgpu::DownlevelFlags::from_bits_retain(flags.bits),
        limits: wgpu::DownlevelLimits::default(),
        shader_model,
    }.is_webgpu_compliant()
}

/// Whether downlevel facts describe a WebGPU-compliant adapter.
pub fn is_webgpu_compliant(flags: GpuNativeDownlevelFlags, shader_model: GpuNativeShaderModel) -> (r:
    bool)
    ensures
        r == spec_webgpu_compliant(flags, shader_model),
{
    native_downlevel_webgpu_compliant(flags, shader_model)
}

impl GpuNativeDownlevelFlags {
    pub open spec fn spec_has(self, flag: GpuNativeDownlevelFlag) -> bool {
        self.bits & spec_downlevel_flag_bit(flag) == spec_downlevel_flag_bit(flag)
    }

    /// Whether any bit outside the flags wgpu defines is set.
    pub open spec fn spec_has_unknown_bits(self) -> bool {
        self.bits & !spec_known_downlevel_bits() != 0
    }

    /// Whether the named flag is set.
    pub fn has(self, flag: GpuNativeDownlevelFlag) -> (r: bool)
        ensures
            r == self.spec_has(flag),
    {
        native_downlevel_flags_contain(self.bits, flag)
    }

    /// Whether any bit outside the flags wgpu defines is set.
    pub fn has_unknown_bits(self) -> (r: bool)
        ensures
            r == self.spec_has_unknown_bits(),
    {
        self.bits & !native_known_downlevel_bits() != 0
    }
}

/// Whether the native facts prove capability `f`. Unknown downlevel bits suppress every
/// downlevel-derived claim; Metal never claims timestamp queries.
pub open spec fn spec_normalized_feature_claimed(
    backend: GpuBackendFamily,
    features: GpuNativeFeatures,
    flags: GpuNativeDownlevelFlags,
    webgpu_compliant: bool,
    surface_compatible: bool,
    f: GpuCapabilityFeature,
) -> bool {
    let unknown = flags.spec_has_unknown_bits();
    let compute = !unknown && flags.spec_has(GpuNativeDownlevelFlag::ComputeShaders);
    ||| (f == GpuCapabilityFeature::RenderPipeline || f == GpuCapabilityFeature::Copy)
        && webgpu_compliant && !unknown
    ||| f == GpuCapabilityFeature::Compute && compute
    ||| f == GpuCapabilityFeature::IndirectExecution && compute && flags.spec_has(
        GpuNativeDownlevelFlag::IndirectExecution,
    )
    ||| f == GpuCapabilityFeature::DepthBiasClamp && !unknown && flags.spec_has(
        GpuNativeDownlevelFlag::DepthBiasClamp,
    )
    ||| f == GpuCapabilityFeature::TimestampQuery && backend != GpuBackendFamily::Metal
        && features.spec_has(GpuNativeFeature::TimestampQuery)
    ||| f == GpuCapabilityFeature::TextureBindingArray && features.spec_has(
        GpuNativeFeature::TextureBindingArray,
    )
    ||| f == GpuCapabilityFeature::BufferBindingArray && features.spec_has(
        GpuNativeFeature::BufferBindingArray,
    )
    ||| f == GpuCapabilityFeature::StorageResourceBindingArray && features.spec_has(
        GpuNativeFeature::StorageResourceBindingArray,
    )
    ||| f == GpuCapabilityFeature::Presentation && surface_compatible
}

/// The order in which normalized capabilities are listed.
pub open spec fn spec_normalized_order() -> Seq<GpuCapabilityFeature> {
    seq![
        GpuCapabilityFeature::RenderPipeline,
        GpuCapabilityFeature::Copy,
        GpuCapabilityFeature::Compute,
        GpuCapabilityFeature::IndirectExecution,
        GpuCapabilityFeature::DepthBiasClamp,
        GpuCapabilityFeature::TimestampQuery,
        GpuCapabilityFeature::TextureBindingArray,
        GpuCapabilityFeature::BufferBindingArray,
        GpuCapabilityFeature::StorageResourceBindingArray,
        GpuCapabilityFeature::Presentation,
    ]
}

/// The portable capabilities the native facts explicitly prove, in the normalized order.
pub open spec fn spec_normalized_features(
    backend: GpuBackendFamily,
    features: GpuNativeFeatures,
    flags: GpuNativeDownlevelFlags,
    webgpu_compliant: bool,
    surface_compatible: bool,
) -> Seq<GpuCapabilityFeature> {
    spec_normalized_order().filter(
        |f: GpuCapabilityFeature|
            spec_normalized_feature_claimed(
                backend,
                features,
                flags,
                webgpu_compliant,
                surface_compatible,
                f,
            ),
    )
}

/// The normalized order, as a vector.
fn normalized_order() -> (r: Vec<GpuCapabilityFeature>)
    ensures
        r@ == spec_normalized_order(),
{
    let r = vec![
        GpuCapabilityFeature::RenderPipeline,
        GpuCapabilityFeature::Copy,
        GpuCapabilityFeature::Compute,
        GpuCapabilityFeature::IndirectExecution,
        GpuCapabilityFeature::DepthBiasClamp,
        GpuCapabilityFeature::TimestampQuery,
        GpuCapabilityFeature::TextureBindingArray,
        GpuCapabilityFeature::BufferBindingArray,
        GpuCapabilityFeature::StorageResourceBindingArray,
        GpuCapabilityFeature::Presentation,
    ];
    proof {
        assert(r@ =~= spec_normalized_order());
    }
    r
}

/// Whether the native facts prove capability `f`.
fn normalized_feature_claimed(
    backend: GpuBackendFamily,
    features: GpuNativeFeatures,
    flags: GpuNativeDownlevelFlags,
    webgpu_compliant: bool,
    surface_compatible: bool,
    f: GpuCapabilityFeature,
) -> (r: bool)
    ensures
        r == spec_normalized_feature_claimed(
            backend,
            features,
            flags,
            webgpu_compliant,
            surface_compatible,
            f,
        ),
{
    let unknown_flags = flags.has_unknown_bits();
    let compute = !unknown_flags && flags.has(GpuNativeDownlevelFlag::ComputeShaders);
    match f {
        GpuCapabilityFeature::RenderPipeline | GpuCapabilityFeature::Copy => webgpu_compliant
            && !unknown_flags,
        GpuCapabilityFeature::Compute => compute,
        GpuCapabilityFeature::IndirectExecution => compute && flags.has(
            GpuNativeDownlevelFlag::IndirectExecution,
        ),
        GpuCapabilityFeature::DepthBiasClamp => !unknown_flags && flags.has(
            GpuNativeDownlevelFlag::DepthBiasClamp,
        ),
        // A Metal timestamp surface is not sufficient evidence of ordered marker semantics, so
        // the normalized capability stays conservative there.
        GpuCapabilityFeature::TimestampQuery => backend != GpuBackendFamily::Metal && features.has(
            GpuNativeFeature::TimestampQuery,
        ),
        GpuCapabilityFeature::TextureBindingArray => features.has(
            GpuNativeFeature::TextureBindingArray,
        ),
        GpuCapabilityFeature::BufferBindingArray => features.has(
            GpuNativeFeature::BufferBindingArray,
        ),
        GpuCapabilityFeature::StorageResourceBindingArray => features.has(
            GpuNativeFeature::StorageResourceBindingArray,
        ),
        GpuCapabilityFeature::Presentation => surface_compatible,
        _ => false,
    }
}

/// Maps only the downlevel capabilities the native facts explicitly prove. Unknown flag bits
/// suppress broad capability claims rather than being guessed into the portable baseline.
pub fn normalized_features(
    backend: GpuBackendFamily,
    features: GpuNativeFeatures,
    flags: GpuNativeDownlevelFlags,
    webgpu_compliant: bool,
    surface_compatible: bool,
) -> (r: Vec<GpuCapabilityFeature>)
    ensures
        r@ == spec_normalized_features(
            backend,
            features,
            flags,
            webgpu_compliant,
            surface_compatible,
        ),
{
    let order = normalized_order();
    let ghost claimed = |f: GpuCapabilityFeature|
        spec_normalized_feature_claimed(
            backend,
            features,
            flags,
            webgpu_compliant,
            surface_compatible,
            f,
        );
    let mut supported: Vec<GpuCapabilityFeature> = Vec::new();
    let mut i: usize = 0;
    while i < order.len()
        invariant
            order@ == spec_normalized_order(),
            claimed == (|f: GpuCapabilityFeature|
                spec_normalized_feature_claimed(
                    backend,
                    features,
                    flags,
                    webgpu_compliant,
                    surface_compatible,
                    f,
                )),
            0 <= i <= order@.len(),
            supported@ == order@.take(i as int).filter(claimed),
        decreases order@.len() - i,
    {
        let f = order[i];
        proof {
            assert(order@.take(i + 1) =~= order@.take(i as int).push(f));
            order@.take(i as int).lemma_filter_push(f, claimed);
        }
        if normalized_feature_claimed(
            backend,
            features,
            flags,
            webgpu_compliant,
            surface_compatible,
            f,
        ) {
            supported.push(f);
        }
        i = i + 1;
    }
    proof {
        assert(order@.take(order@.len() as int) =~= order@);
    }
    supported
}

/// The position a capability takes in the normalized order.
spec fn normalized_rank(f: GpuCapabilityFeature) -> int {
    match f {
        GpuCapabilityFeature::RenderPipeline => 0,
        GpuCapabilityFeature::Copy => 1,
        GpuCapabilityFeature::Compute => 2,
        GpuCapabilityFeature::IndirectExecution => 3,
        GpuCapabilityFeature::DepthBiasClamp => 4,
        GpuCapabilityFeature::TimestampQuery => 5,
        GpuCapabilityFeature::TextureBindingArray => 6,
        GpuCapabilityFeature::BufferBindingArray => 7,
        GpuCapabilityFeature::StorageResourceBindingArray => 8,
        GpuCapabilityFeature::Presentation => 9,
        _ => 10,
    }
}

/// Each listed capability stands at its rank, and only the listed ones rank below ten.
proof fn lemma_normalized_order_ranks()
    ensures
        spec_normalized_order().len() == 10,
        forall|i: int|
            0 <= i < 10 ==> normalized_rank(#[trigger] spec_normalized_order()[i]) == i,
        forall|f: GpuCapabilityFeature|
            normalized_rank(f) < 10 ==> spec_normalized_order()[#[trigger] normalized_rank(f)] == f,
{
    let s = spec_normalized_order();
    assert forall|i: int| 0 <= i < 10 implies normalized_rank(#[trigger] s[i]) == i by {
        if i == 0 {
        } else if i == 1 {
        } else if i == 2 {
        } else if i == 3 {
        } else if i == 4 {
        } else if i == 5 {
        } else if i == 6 {
        } else if i == 7 {
        } else if i == 8 {
        } else {
        }
    }
}

/// Filtering keeps a sequence free of duplicates.
proof fn lemma_filter_keeps_no_duplicates<A>(s: Seq<A>, p: spec_fn(A) -> bool)
    requires
        s.no_duplicates(),
    ensures
        s.filter(p).no_duplicates(),
    decreases s.len(),
{
    reveal(Seq::filter);
    if s.len() > 0 {
        let rest = s.drop_last();
        let last = s.last();
        assert(rest.no_duplicates()) by {
            assert forall|i: int, j: int|
                0 <= i < rest.len() && 0 <= j < rest.len() && i != j implies rest[i] != rest[j] by {
                assert(rest[i] == s[i] && rest[j] == s[j]);
            }
        }
        lemma_filter_keeps_no_duplicates(rest, p);
        let kept = rest.filter(p);
        if p(last) {
            assert(!kept.contains(last)) by {
                if kept.contains(last) {
                    rest.lemma_filter_contains_rev(p, last);
                    let k = choose|k: int| 0 <= k < rest.len() && rest[k] == last;
                    assert(s[k] == s[s.len() - 1]);
                }
            }
            let pushed = kept.push(last);
            assert forall|i: int, j: int|
                0 <= i < pushed.len() && 0 <= j < pushed.len() && i != j implies pushed[i]
                != pushed[j] by {
                if i < kept.len() && j < kept.len() {
                    assert(pushed[i] == kept[i] && pushed[j] == kept[j]);
                } else if i < kept.len() {
                    assert(pushed[i] == kept[i]);
                } else if j < kept.len() {
                    assert(pushed[j] == kept[j]);
                }
            }
        }
    }
}

/// A capability is in the normalized list exactly when the native facts claim it.
pub proof fn lemma_normalized_features_contain_exactly_the_claimed(
    backend: GpuBackendFamily,
    features: GpuNativeFeatures,
    flags: GpuNativeDownlevelFlags,
    webgpu_compliant: bool,
    surface_compatible: bool,
    f: GpuCapabilityFeature,
)
    ensures
        spec_normalized_features(backend, features, flags, webgpu_compliant, surface_compatible).contains(f)
            == spec_normalized_feature_claimed(
            backend,
            features,
            flags,
            webgpu_compliant,
            surface_compatible,
            f,
        ),
{
    let claimed = |g: GpuCapabilityFeature|
        spec_normalized_feature_claimed(
            backend,
            features,
            flags,
            webgpu_compliant,
            surface_compatible,
            g,
        );
    let order = spec_normalized_order();
    let s = order.filter(claimed);
    if s.contains(f) {
        let j = choose|j: int| 0 <= j < s.len() && s[j] == f;
        order.lemma_filter_pred(claimed, j);
    }
    if claimed(f) {
        lemma_normalized_order_ranks();
        assert(normalized_rank(f) < 10);
        order.lemma_filter_contains(claimed, normalized_rank(f));
    }
}

/// The normalized capability list never names a capability twice.
pub proof fn lemma_normalized_features_have_no_duplicates(
    backend: GpuBackendFamily,
    features: GpuNativeFeatures,
    flags: GpuNativeDownlevelFlags,
    webgpu_compliant: bool,
    surface_compatible: bool,
)
    ensures
        spec_normalized_features(
            backend,
            features,
            flags,
            webgpu_compliant,
            surface_compatible,
        ).no_duplicates(),
{
    let order = spec_normalized_order();
    lemma_normalized_order_ranks();
    assert forall|i: int, j: int|
        0 <= i < order.len() && 0 <= j < order.len() && i != j implies order[i] != order[j] by {
        assert(normalized_rank(order[i]) == i && normalized_rank(order[j]) == j);
    }
    lemma_filter_keeps_no_duplicates(
        order,
        |g: GpuCapabilityFeature|
            spec_normalized_feature_claimed(
                backend,
                features,
                flags,
                webgpu_compliant,
                surface_compatible,
                g,
            ),
    );
}

/// Which capabilities the normalized list holds, read straight from the native evidence: the
/// baseline operations need a WebGPU-compliant adapter with only known downlevel bits; compute,
/// indirect execution and depth-bias clamp follow their downlevel flags alone (and only known
/// bits); timestamp queries need the native feature off Metal; the binding arrays follow their
/// native features; presentation follows surface compatibility; nothing else is ever listed.
pub proof fn lemma_normalized_capabilities_follow_their_native_evidence(
    backend: GpuBackendFamily,
    features: GpuNativeFeatures,
    flags: GpuNativeDownlevelFlags,
    webgpu_compliant: bool,
    surface_compatible: bool,
)
    ensures
        ({
            let s = spec_normalized_features(
                backend,
                features,
                flags,
                webgpu_compliant,
                surface_compatible,
            );
            let known = flags.bits & !0x03FF_FFFFu32 == 0;
            let compute = flags.bits & 0x1u32 == 0x1u32;
            &&& s.contains(GpuCapabilityFeature::RenderPipeline) == (webgpu_compliant && known)
            &&& s.contains(GpuCapabilityFeature::Copy) == (webgpu_compliant && known)
            &&& s.contains(GpuCapabilityFeature::Compute) == (known && compute)
            &&& s.contains(GpuCapabilityFeature::IndirectExecution) == (known && compute
                && flags.bits & 0x4u32 == 0x4u32)
            &&& s.contains(GpuCapabilityFeature::DepthBiasClamp) == (known && flags.bits
                & 0x4_0000u32 == 0x4_0000u32)
            &&& s.contains(GpuCapabilityFeature::TimestampQuery) == (backend
                != GpuBackendFamily::Metal && features.spec_has(GpuNativeFeature::TimestampQuery))
            &&& s.contains(GpuCapabilityFeature::TextureBindingArray) == features.spec_has(
                GpuNativeFeature::TextureBindingArray,
            )
            &&& s.contains(GpuCapabilityFeature::BufferBindingArray) == features.spec_has(
                GpuNativeFeature::BufferBindingArray,
            )
            &&& s.contains(GpuCapabilityFeature::StorageResourceBindingArray) == features.spec_has(
                GpuNativeFeature::StorageResourceBindingArray,
            )
            &&& s.contains(GpuCapabilityFeature::Presentation) == surface_compatible
            &&& forall|f: GpuCapabilityFeature|
                #![trigger s.contains(f)]
                s.contains(f) ==> f == GpuCapabilityFeature::RenderPipeline || f
                    == GpuCapabilityFeature::Copy || f == GpuCapabilityFeature::Compute || f
                    == GpuCapabilityFeature::IndirectExecution || f
                    == GpuCapabilityFeature::DepthBiasClamp || f
                    == GpuCapabilityFeature::TimestampQuery || f
                    == GpuCapabilityFeature::TextureBindingArray || f
                    == GpuCapabilityFeature::BufferBindingArray || f
                    == GpuCapabilityFeature::StorageResourceBindingArray || f
                    == GpuCapabilityFeature::Presentation
        }),
{
    let s = spec_normalized_features(backend, features, flags, webgpu_compliant, surface_compatible);
    lemma_normalized_features_contain_exactly_the_claimed(backend, features, flags, webgpu_compliant, surface_compatible, GpuCapabilityFeature::RenderPipeline);
    lemma_normalized_features_contain_exactly_the_claimed(backend, features, flags, webgpu_compliant, surface_compatible, GpuCapabilityFeature::Copy);
    lemma_normalized_features_contain_exactly_the_claimed(backend, features, flags, webgpu_compliant, surface_compatible, GpuCapabilityFeature::Compute);
    lemma_normalized_features_contain_exactly_the_claimed(backend, features, flags, webgpu_compliant, surface_compatible, GpuCapabilityFeature::IndirectExecution);
    lemma_normalized_features_contain_exactly_the_claimed(backend, features, flags, webgpu_compliant, surface_compatible, GpuCapabilityFeature::DepthBiasClamp);
    lemma_normalized_features_contain_exactly_the_claimed(backend, features, flags, webgpu_compliant, surface_compatible, GpuCapabilityFeature::TimestampQuery);
    lemma_normalized_features_contain_exactly_the_claimed(backend, features, flags, webgpu_compliant, surface_compatible, GpuCapabilityFeature::TextureBindingArray);
    lemma_normalized_features_contain_exactly_the_claimed(backend, features, flags, webgpu_compliant, surface_compatible, GpuCapabilityFeature::BufferBindingArray);
    lemma_normalized_features_contain_exactly_the_claimed(backend, features, flags, webgpu_compliant, surface_compatible, GpuCapabilityFeature::StorageResourceBindingArray);
    lemma_normalized_features_contain_exactly_the_claimed(backend, features, flags, webgpu_compliant, surface_compatible, GpuCapabilityFeature::Presentation);
    assert forall|f: GpuCapabilityFeature| #![trigger s.contains(f)] s.contains(f) implies f
        == GpuCapabilityFeature::RenderPipeline || f == GpuCapabilityFeature::Copy || f
        == GpuCapabilityFeature::Compute || f == GpuCapabilityFeature::IndirectExecution || f
        == GpuCapabilityFeature::DepthBiasClamp || f == GpuCapabilityFeature::TimestampQuery || f
        == GpuCapabilityFeature::TextureBindingArray || f
        == GpuCapabilityFeature::BufferBindingArray || f
        == GpuCapabilityFeature::StorageResourceBindingArray || f
        == GpuCapabilityFeature::Presentation by {
        lemma_normalized_features_contain_exactly_the_claimed(backend, features, flags, webgpu_compliant, surface_compatible, f);
    }
}

/// Unknown downlevel bits never yield a downlevel-derived capability, a Metal adapter never
/// claims timestamp queries, and indirect execution is only claimed with compute.
pub proof fn lemma_normalized_features_claim_only_proven_operations(
    backend: GpuBackendFamily,
    features: GpuNativeFeatures,
    flags: GpuNativeDownlevelFlags,
    webgpu_compliant: bool,
    surface_compatible: bool,
)
    ensures
        ({
            let s = spec_normalized_features(
                backend,
                features,
                flags,
                webgpu_compliant,
                surface_compatible,
            );
            &&& flags.spec_has_unknown_bits() ==> {
                &&& !s.contains(GpuCapabilityFeature::RenderPipeline)
                &&& !s.contains(GpuCapabilityFeature::Copy)
                &&& !s.contains(GpuCapabilityFeature::Compute)
                &&& !s.contains(GpuCapabilityFeature::IndirectExecution)
                &&& !s.contains(GpuCapabilityFeature::DepthBiasClamp)
            }
            &&& backend == GpuBackendFamily::Metal ==> !s.contains(
                GpuCapabilityFeature::TimestampQuery,
            )
            &&& s.contains(GpuCapabilityFeature::IndirectExecution) ==> s.contains(
                GpuCapabilityFeature::Compute,
            )
        }),
{
    lemma_normalized_features_contain_exactly_the_claimed(backend, features, flags, webgpu_compliant, surface_compatible, GpuCapabilityFeature::RenderPipeline);
    lemma_normalized_features_contain_exactly_the_claimed(backend, features, flags, webgpu_compliant, surface_compatible, GpuCapabilityFeature::Copy);
    lemma_normalized_features_contain_exactly_the_claimed(backend, features, flags, webgpu_compliant, surface_compatible, GpuCapabilityFeature::Compute);
    lemma_normalized_features_contain_exactly_the_claimed(backend, features, flags, webgpu_compliant, surface_compatible, GpuCapabilityFeature::IndirectExecution);
    lemma_normalized_features_contain_exactly_the_claimed(backend, features, flags, webgpu_compliant, surface_compatible, GpuCapabilityFeature::DepthBiasClamp);
    lemma_normalized_features_contain_exactly_the_claimed(backend, features, flags, webgpu_compliant, surface_compatible, GpuCapabilityFeature::TimestampQuery);
}

/// The device-request profile for an adapter: browser WebGPU keeps its own profile; other
/// non-compliant adapters get the WebGL2 downlevel profile on GL and the downlevel profile elsewhere.
pub open spec fn spec_device_request_profile(
    backend: GpuBackendFamily,
    flags: GpuNativeDownlevelFlags,
    shader_model: GpuNativeShaderModel,
) -> GpuDeviceRequestProfile {
    let compliant = spec_webgpu_compliant(flags, shader_model);
    if backend == GpuBackendFamily::BrowserWebGpu {
        GpuDeviceRequestProfile::BrowserWebGpu
    } else if !compliant && backend == GpuBackendFamily::OpenGl {
        GpuDeviceRequestProfile::DownlevelWebGl2
    } else if !compliant {
        GpuDeviceRequestProfile::Downlevel
    } else {
        GpuDeviceRequestProfile::ModernPortable
    }
}

/// The device-request profile for an adapter with the given backend and downlevel facts.
pub fn select_device_request_profile(
    backend: GpuBackendFamily,
    flags: GpuNativeDownlevelFlags,
    shader_model: GpuNativeShaderModel,
) -> (r: GpuDeviceRequestProfile)
    ensures
        r == spec_device_request_profile(backend, flags, shader_model),
{
    if backend == GpuBackendFamily::BrowserWebGpu {
        GpuDeviceRequestProfile::BrowserWebGpu
    } else if !is_webgpu_compliant(flags, shader_model) && backend == GpuBackendFamily::OpenGl {
        GpuDeviceRequestProfile::DownlevelWebGl2
    } else if !is_webgpu_compliant(flags, shader_model) {
        GpuDeviceRequestProfile::Downlevel
    } else {
        GpuDeviceRequestProfile::ModernPortable
    }
}

/// The closed presentation vocabulary: texture-format growth cannot expand it.
pub open spec fn spec_is_presentation_format(format: GpuTextureFormat) -> bool {
    match format {
        GpuTextureFormat::R8Unorm | GpuTextureFormat::Rgba8Unorm | GpuTextureFormat::Rgba8UnormSrgb
        | GpuTextureFormat::Bgra8Unorm | GpuTextureFormat::Bgra8UnormSrgb
        | GpuTextureFormat::R32Uint | GpuTextureFormat::R32Sint | GpuTextureFormat::R32Float
        | GpuTextureFormat::Rg32Uint | GpuTextureFormat::Rg32Sint | GpuTextureFormat::Rg32Float
        | GpuTextureFormat::Rgba32Uint | GpuTextureFormat::Rgba32Sint
        | GpuTextureFormat::Rgba32Float | GpuTextureFormat::Depth32Float => true,
        _ => false,
    }
}

/// Whether `format` belongs to the closed presentation vocabulary.
pub fn is_presentation_format(format: GpuTextureFormat) -> (r: bool)
    ensures
        r == spec_is_presentation_format(format),
{
    match format {
        GpuTextureFormat::R8Unorm | GpuTextureFormat::Rgba8Unorm | GpuTextureFormat::Rgba8UnormSrgb
        | GpuTextureFormat::Bgra8Unorm | GpuTextureFormat::Bgra8UnormSrgb
        | GpuTextureFormat::R32Uint | GpuTextureFormat::R32Sint | GpuTextureFormat::R32Float
        | GpuTextureFormat::Rg32Uint | GpuTextureFormat::Rg32Sint | GpuTextureFormat::Rg32Float
        | GpuTextureFormat::Rgba32Uint | GpuTextureFormat::Rgba32Sint
        | GpuTextureFormat::Rgba32Float | GpuTextureFormat::Depth32Float => true,
        _ => false,
    }
}

/// The census formats in the presentation vocabulary, in census order.
pub fn known_formats() -> (r: Vec<GpuTextureFormat>)
    ensures
        r@ == texture_format::spec_texture_format_census().filter(
            |f: GpuTextureFormat| spec_is_presentation_format(f),
        ),
{
    let census = texture_format::all_texture_formats();
    let ghost pred = |f: GpuTextureFormat| spec_is_presentation_format(f);
    let mut r: Vec<GpuTextureFormat> = Vec::new();
    let mut i: usize = 0;
    while i < census.len()
        invariant
            census@ == texture_format::spec_texture_format_census(),
            pred == (|f: GpuTextureFormat| spec_is_presentation_format(f)),
            0 <= i <= census@.len(),
            r@ == census@.take(i as int).filter(pred),
        decreases census@.len() - i,
    {
        let format = census[i];
        proof {
            let next = census@.take(i + 1);
            assert(next.drop_last() =~= census@.take(i as int));
            assert(next.last() == format);
            assert(next.len() > 0);
            reveal_with_fuel(Seq::<_>::filter, 1);
            assert(next.filter(pred) == if pred(format) {
                census@.take(i as int).filter(pred).push(format)
            } else {
                census@.take(i as int).filter(pred)
            });
        }
        if is_presentation_format(format) {
            r.push(format);
        }
        proof {
            assert(pred(format) == spec_is_presentation_format(format));
            assert(r@ =~= census@.take(i + 1).filter(pred));
        }
        i = i + 1;
    }
    proof {
        assert(census@.take(census@.len() as int) =~= census@);
    }
    r
}

/// Which roles a texture format supports on an adapter.
#[derive(Debug, Clone, Copy, PartialEq, Eq, PartialOrd, Ord, Hash)]
pub struct GpuTextureFormatCapabilities {
    pub sampled: bool,
    pub filterable: bool,
    pub storage_read: bool,
    pub storage_write: bool,
    pub color_attachment: bool,
    pub depth_stencil: bool,
    pub copy_source: bool,
    pub copy_destination: bool,
    pub block_dimensions: Option<(u32, u32)>,
    pub block_copy_size: Option<u32>,
}

impl GpuTextureFormatCapabilities {
    /// No role at all.
    pub fn none() -> (r: Self)
        ensures
            !r.sampled && !r.filterable && !r.storage_read && !r.storage_write
                && !r.color_attachment && !r.depth_stencil && !r.copy_source && !r.copy_destination,
            r.block_dimensions is None && r.block_copy_size is None,
    {
        GpuTextureFormatCapabilities {
            sampled: false,
            filterable: false,
            storage_read: false,
            storage_write: false,
            color_attachment: false,
            depth_stencil: false,
            copy_source: false,
            copy_destination: false,
            block_dimensions: None,
            block_copy_size: None,
        }
    }
}

/// Whether `format`'s native prerequisites are among the adapter features: BC formats need
/// BC compression and Depth32FloatStencil8 needs its own feature.
pub open spec fn spec_format_prerequisites_available(
    format: GpuTextureFormat,
    features: GpuNativeFeatures,
) -> bool {
    &&& format_semantics(format).compression_family == Some(GpuTextureCompressionFamily::Bc)
        ==> features.spec_has(GpuNativeFeature::TextureCompressionBc)
    &&& format == GpuTextureFormat::Depth32FloatStencil8 ==> features.spec_has(
        GpuNativeFeature::Depth32FloatStencil8,
    )
}

/// Whether `format`'s native prerequisites are among the adapter features.
pub fn format_prerequisites_available(format: GpuTextureFormat, features: GpuNativeFeatures) -> (r:
    bool)
    ensures
        r == spec_format_prerequisites_available(format, features),
{
    let bc = match texture_format::compression_family(format) {
        Some(GpuTextureCompressionFamily::Bc) => true,
        None => false,
    };
    if bc && !features.has(GpuNativeFeature::TextureCompressionBc) {
        return false;
    }
    match format {
        GpuTextureFormat::Depth32FloatStencil8 => features.has(
            GpuNativeFeature::Depth32FloatStencil8,
        ),
        _ => true,
    }
}

/// Clamps observed format roles to what the format may portably do: nothing without its
/// prerequisites, no Rg11b10 color attachment without its feature, and only sampling and
/// copies for compressed formats.
pub open spec fn spec_apply_format_prerequisites(
    format: GpuTextureFormat,
    features: GpuNativeFeatures,
    c: GpuTextureFormatCapabilities,
) -> GpuTextureFormatCapabilities {
    if !spec_format_prerequisites_available(format, features) {
        GpuTextureFormatCapabilities {
            sampled: false,
            filterable: false,
            storage_read: false,
            storage_write: false,
            color_attachment: false,
            depth_stencil: false,
            copy_source: false,
            copy_destination: false,
            block_dimensions: None,
            block_copy_size: None,
        }
    } else {
        let rg11 = format == GpuTextureFormat::Rg11b10Ufloat && !features.spec_has(
            GpuNativeFeature::Rg11b10UfloatRenderable,
        );
        let compressed = format_semantics(format).compression_family is Some;
        GpuTextureFormatCapabilities {
            storage_read: c.storage_read && !compressed,
            storage_write: c.storage_write && !compressed,
            color_attachment: c.color_attachment && !rg11 && !compressed,
            depth_stencil: c.depth_stencil && !compressed,
            ..c
        }
    }
}

/// Clamps observed format roles to what the format may portably do.
pub fn apply_format_prerequisites(
    format: GpuTextureFormat,
    features: GpuNativeFeatures,
    capabilities: GpuTextureFormatCapabilities,
) -> (r: GpuTextureFormatCapabilities)
    ensures
        r == spec_apply_format_prerequisites(format, features, capabilities),
{
    if !format_prerequisites_available(format, features) {
        return GpuTextureFormatCapabilities::none();
    }
    let mut capabilities = capabilities;
    if format == GpuTextureFormat::Rg11b10Ufloat && !features.has(
        GpuNativeFeature::Rg11b10UfloatRenderable,
    ) {
        capabilities.color_attachment = false;
    }
    if texture_format::compression_family(format).is_some() {
        capabilities.storage_read = false;
        capabilities.storage_write = false;
        capabilities.color_attachment = false;
        capabilities.depth_stencil = false;
    }
    capabilities
}

/// Applying prerequisites only ever removes roles.
pub proof fn lemma_format_prerequisites_only_remove_roles(
    format: GpuTextureFormat,
    features: GpuNativeFeatures,
    c: GpuTextureFormatCapabilities,
)
    ensures
        ({
            let r = spec_apply_format_prerequisites(format, features, c);
            &&& r.sampled ==> c.sampled
            &&& r.filterable ==> c.filterable
            &&& r.storage_read ==> c.storage_read
            &&& r.storage_write ==> c.storage_write
            &&& r.color_attachment ==> c.color_attachment
            &&& r.depth_stencil ==> c.depth_stencil
            &&& r.copy_source ==> c.copy_source
            &&& r.copy_destination ==> c.copy_destination
            &&& format_semantics(format).compression_family is Some ==> !r.storage_read
                && !r.storage_write && !r.color_attachment && !r.depth_stencil
        }),
{
}

/// Texture usages wgpu reports as allowed for a format.
#[derive(Debug, Clone, Copy, PartialEq, Eq, Structural, PartialOrd, Ord, Hash)]
pub enum GpuNativeTextureUsage {
    CopySource,
    CopyDestination,
    TextureBinding,
    StorageBinding,
    RenderAttachment,
}

/// The bit wgpu assigns to a texture usage.
pub open spec fn spec_native_texture_usage_bit(usage: GpuNativeTextureUsage) -> u32 {
    match usage {
        GpuNativeTextureUsage::CopySource => 0x1u32,
        GpuNativeTextureUsage::CopyDestination => 0x2u32,
        GpuNativeTextureUsage::TextureBinding => 0x4u32,
        GpuNativeTextureUsage::StorageBinding => 0x8u32,
        GpuNativeTextureUsage::RenderAttachment => 0x10u32,
    }
}

/// Texture-format feature flags wgpu reports for a format.
#[derive(Debug, Clone, Copy, PartialEq, Eq, Structural, PartialOrd, Ord, Hash)]
pub enum GpuNativeFormatFlag {
    Filterable,
    StorageReadOnly,
    StorageWriteOnly,
    StorageReadWrite,
    Blendable,
}

/// The bit wgpu assigns to a texture-format feature flag.
pub open spec fn spec_native_format_flag_bit(flag: GpuNativeFormatFlag) -> u32 {
    match flag {
        GpuNativeFormatFlag::Filterable => 0x1u32,
        GpuNativeFormatFlag::StorageReadOnly => 0x40u32,
        GpuNativeFormatFlag::StorageWriteOnly => 0x80u32,
        GpuNativeFormatFlag::StorageReadWrite => 0x100u32,
        GpuNativeFormatFlag::Blendable => 0x400u32,
    }
}

/// Calls `wgpu::TextureUsages::contains` on the usages with raw `bits`: true exactly when every
/// bit of the named usage is set.
#[verifier::external_body]
fn native_texture_usages_contain(bits: u32, usage: GpuNativeTextureUsage) -> (r: bool)
    ensures
        r == (bits & spec_native_texture_usage_bit(usage) == spec_native_texture_usage_bit(usage)),
{
    let usage = match usage {
        GpuNativeTextureUsage::CopySource => wgpu::TextureUsages::COPY_SRC,
        GpuNativeTextureUsage::CopyDestination => wgpu::TextureUsages::COPY_DST,
        GpuNativeTextureUsage::TextureBinding => wgpu::TextureUsages::TEXTURE_BINDING,
        GpuNativeTextureUsage::StorageBinding => wgpu::TextureUsages::STORAGE_BINDING,
        GpuNativeTextureUsage::RenderAttachment => wgpu::TextureUsages::RENDER_ATTACHMENT,
    };
    wgpu::TextureUsages::from_bits_retain(bits).contains(usage)
}

/// Calls `wgpu::TextureFormatFeatureFlags::contains` on the flags with raw `bits`: true exactly
/// when every bit of the named flag is set.
#[verifier::external_body]
fn native_format_flags_contain(bits: u32, flag: GpuNativeFormatFlag) -> (r: bool)
    ensures
        r == (bits & spec_native_format_flag_bit(flag) == spec_native_format_flag_bit(flag)),
{
    let flag = match flag {
        GpuNativeFormatFlag::Filterable => wgpu::TextureFormatFeatureFlags::FILTERABLE,
        GpuNativeFormatFlag::StorageReadOnly => wgpu::TextureFormatFeatureFlags::STORAGE_READ_ONLY,
        GpuNativeFormatFlag::StorageWriteOnly => wgpu::TextureFormatFeatureFlags::STORAGE_WRITE_ONLY,
        GpuNativeFormatFlag::StorageReadWrite => wgpu::TextureFormatFeatureFlags::STORAGE_READ_WRITE,
        GpuNativeFormatFlag::Blendable => wgpu::TextureFormatFeatureFlags::BLENDABLE,
    };
    wgpu::TextureFormatFeatureFlags::from_bits_retain(bits).contains(flag)
}

/// Whether texture-format feature flags with raw `bits` allow `count` samples.
pub open spec fn spec_native_sample_count_supported(bits: u32, count: u32) -> bool {
    if count == 1 {
        true
    } else if count == 2 {
        bits & 0x2u32 == 0x2u32
    } else if count == 4 {
        bits & 0x4u32 == 0x4u32
    } else if count == 8 {
        bits & 0x8u32 == 0x8u32
    } else if count == 16 {
        bits & 0x10u32 == 0x10u32
    } else {
        false
    }
}

/// Calls `wgpu::TextureFormatFeatureFlags::sample_count_supported`: one sample always; 2, 4, 8,
/// and 16 samples when the matching multisample flag (bits 1 through 4) is set; any other
/// count never.
#[verifier::external_body]
fn native_sample_count_supported(bits: u32, count: u32) -> (r: bool)
    ensures
        r == spec_native_sample_count_supported(bits, count),
{
    wgpu::TextureFormatFeatureFlags::from_bits_retain(bits).sample_count_supported(count)
}

/// Native format features: allowed usages and feature flags, as raw wgpu bits.
#[derive(Debug, Clone, Copy, PartialEq, Eq, Structural, PartialOrd, Ord, Hash)]
pub struct GpuNativeFormatFeatures {
    pub allowed_usages: u32,
    pub flags: u32,
}

impl GpuNativeFormatFeatures {
    pub open spec fn spec_allows(self, usage: GpuNativeTextureUsage) -> bool {
        self.allowed_usages & spec_native_texture_usage_bit(usage) == spec_native_texture_usage_bit(
            usage,
        )
    }

    pub open spec fn spec_has_flag(self, flag: GpuNativeFormatFlag) -> bool {
        self.flags & spec_native_format_flag_bit(flag) == spec_native_format_flag_bit(flag)
    }

    /// Whether the format allows `usage`.
    pub fn allows(self, usage: GpuNativeTextureUsage) -> (r: bool)
        ensures
            r == self.spec_allows(usage),
    {
        native_texture_usages_contain(self.allowed_usages, usage)
    }

    /// Whether the format has feature flag `flag`.
    pub fn has_flag(self, flag: GpuNativeFormatFlag) -> (r: bool)
        ensures
            r == self.spec_has_flag(flag),
    {
        native_format_flags_contain(self.flags, flag)
    }

    /// Whether the format supports `count` samples.
    pub fn sample_count_supported(self, count: u32) -> (r: bool)
        ensures
            r == spec_native_sample_count_supported(self.flags, count),
    {
        native_sample_count_supported(self.flags, count)
    }
}

/// The roles observed native format features give `format`. Attachment roles follow the
/// format's own aspects; block structure is not reported from native facts.
pub open spec fn spec_format_capabilities(
    format: GpuTextureFormat,
    features: GpuNativeFormatFeatures,
) -> GpuTextureFormatCapabilities {
    let render = features.spec_allows(GpuNativeTextureUsage::RenderAttachment);
    GpuTextureFormatCapabilities {
        sampled: features.spec_allows(GpuNativeTextureUsage::TextureBinding),
        filterable: features.spec_has_flag(GpuNativeFormatFlag::Filterable),
        storage_read: features.spec_has_flag(GpuNativeFormatFlag::StorageReadOnly)
            || features.spec_has_flag(GpuNativeFormatFlag::StorageReadWrite),
        storage_write: features.spec_has_flag(GpuNativeFormatFlag::StorageWriteOnly)
            || features.spec_has_flag(GpuNativeFormatFlag::StorageReadWrite),
        color_attachment: render && spec_supports_aspect(format, GpuTextureAspect::Color),
        depth_stencil: render && (spec_supports_aspect(format, GpuTextureAspect::DepthOnly)
            || spec_supports_aspect(format, GpuTextureAspect::StencilOnly)),
        copy_source: features.spec_allows(GpuNativeTextureUsage::CopySource),
        copy_destination: features.spec_allows(GpuNativeTextureUsage::CopyDestination),
        block_dimensions: None,
        block_copy_size: None,
    }
}

/// The roles observed native format features give `format`.
pub fn format_capabilities(format: GpuTextureFormat, features: GpuNativeFormatFeatures) -> (r:
    GpuTextureFormatCapabilities)
    ensures
        r == spec_format_capabilities(format, features),
{
    let render_attachment = features.allows(GpuNativeTextureUsage::RenderAttachment);
    GpuTextureFormatCapabilities {
        sampled: features.allows(GpuNativeTextureUsage::TextureBinding),
        filterable: features.has_flag(GpuNativeFormatFlag::Filterable),
        storage_read: features.has_flag(GpuNativeFormatFlag::StorageReadOnly) || features.has_flag(
            GpuNativeFormatFlag::StorageReadWrite,
        ),
        storage_write: features.has_flag(GpuNativeFormatFlag::StorageWriteOnly)
            || features.has_flag(GpuNativeFormatFlag::StorageReadWrite),
        color_attachment: render_attachment && texture_format::supports_aspect(
            format,
            GpuTextureAspect::Color,
        ),
        depth_stencil: render_attachment && (texture_format::supports_aspect(
            format,
            GpuTextureAspect::DepthOnly,
        ) || texture_format::supports_aspect(format, GpuTextureAspect::StencilOnly)),
        copy_source: features.allows(GpuNativeTextureUsage::CopySource),
        copy_destination: features.allows(GpuNativeTextureUsage::CopyDestination),
        block_dimensions: None,
        block_copy_size: None,
    }
}

/// A format never gets both attachment roles: color formats are never depth/stencil attachments.
pub proof fn lemma_attachment_roles_follow_format_aspects(
    format: GpuTextureFormat,
    features: GpuNativeFormatFeatures,
)
    ensures
        !(spec_format_capabilities(format, features).color_attachment && spec_format_capabilities(
            format,
            features,
        ).depth_stencil),
{
    texture_format::lemma_aspects_are_exclusive_between_color_and_depth_stencil(format);
}


/// The roles each queried format gets on an adapter: its observed native roles clamped by the
/// format's prerequisites.
pub open spec fn spec_adapter_format_capabilities(
    features: GpuNativeFeatures,
    observed: Seq<(GpuTextureFormat, GpuNativeFormatFeatures)>,
) -> Seq<(GpuTextureFormat, GpuTextureFormatCapabilities)> {
    observed.map_values(
        |o: (GpuTextureFormat, GpuNativeFormatFeatures)|
            (o.0, spec_apply_format_prerequisites(o.0, features, spec_format_capabilities(o.0, o.1))),
    )
}

/// The roles each queried format gets on an adapter, in the order the formats were queried.
pub fn adapter_format_capabilities(
    features: GpuNativeFeatures,
    observed: &Vec<(GpuTextureFormat, GpuNativeFormatFeatures)>,
) -> (r: Vec<(GpuTextureFormat, GpuTextureFormatCapabilities)>)
    ensures
        r@ == spec_adapter_format_capabilities(features, observed@),
{
    let mut r: Vec<(GpuTextureFormat, GpuTextureFormatCapabilities)> = Vec::new();
    let mut i: usize = 0;
    while i < observed.len()
        invariant
            0 <= i <= observed@.len(),
            r@ =~= spec_adapter_format_capabilities(features, observed@.take(i as int)),
        decreases observed@.len() - i,
    {
        let (format, native) = observed[i];
        let capabilities = apply_format_prerequisites(
            format,
            features,
            format_capabilities(format, native),
        );
        r.push((format, capabilities));
        proof {
            assert(observed@.take(i + 1) =~= observed@.take(i as int).push(observed@[i as int]));
        }
        i = i + 1;
    }
    proof {
        assert(observed@.take(observed@.len() as int) =~= observed@);
    }
    r
}

/// Whether some format may be bound as a storage texture.
pub open spec fn spec_any_storage_texture(
    capabilities: Seq<(GpuTextureFormat, GpuTextureFormatCapabilities)>,
) -> bool {
    exists|i: int|
        0 <= i < capabilities.len() && ((#[trigger] capabilities[i]).1.storage_read
            || capabilities[i].1.storage_write)
}

/// The capabilities an adapter supports: the normalized native features, then storage textures
/// and depth attachments, each only on a WebGPU-compliant adapter that shows a format for it.
pub open spec fn spec_adapter_supported_features(
    backend: GpuBackendFamily,
    features: GpuNativeFeatures,
    flags: GpuNativeDownlevelFlags,
    shader_model: GpuNativeShaderModel,
    surface_compatible: bool,
    capabilities: Seq<(GpuTextureFormat, GpuTextureFormatCapabilities)>,
    depth32_float: GpuNativeFormatFeatures,
) -> Seq<GpuCapabilityFeature> {
    let compliant = spec_webgpu_compliant(flags, shader_model);
    let base = spec_normalized_features(backend, features, flags, compliant, surface_compatible);
    let with_storage = if compliant && spec_any_storage_texture(capabilities) {
        base.push(GpuCapabilityFeature::StorageTexture)
    } else {
        base
    };
    if compliant && depth32_float.spec_allows(GpuNativeTextureUsage::RenderAttachment) {
        with_storage.push(GpuCapabilityFeature::DepthAttachment)
    } else {
        with_storage
    }
}

/// The capabilities an adapter supports, from its native features, downlevel facts, the
/// clamped format roles, and the native features of `Depth32Float`.
pub fn adapter_supported_features(
    backend: GpuBackendFamily,
    features: GpuNativeFeatures,
    flags: GpuNativeDownlevelFlags,
    shader_model: GpuNativeShaderModel,
    surface_compatible: bool,
    capabilities: &Vec<(GpuTextureFormat, GpuTextureFormatCapabilities)>,
    depth32_float: GpuNativeFormatFeatures,
) -> (r: Vec<GpuCapabilityFeature>)
    ensures
        r@ == spec_adapter_supported_features(
            backend,
            features,
            flags,
            shader_model,
            surface_compatible,
            capabilities@,
            depth32_float,
        ),
{
    let compliant = is_webgpu_compliant(flags, shader_model);
    let mut supported = normalized_features(backend, features, flags, compliant, surface_compatible);
    let mut storage = false;
    let mut i: usize = 0;
    while i < capabilities.len()
        invariant
            0 <= i <= capabilities@.len(),
            storage == exists|k: int|
                0 <= k < i && ((#[trigger] capabilities@[k]).1.storage_read
                    || capabilities@[k].1.storage_write),
        decreases capabilities@.len() - i,
    {
        let facts = capabilities[i].1;
        if facts.storage_read || facts.storage_write {
            storage = true;
        }
        proof {
            assert(capabilities@[i as int].1 == facts);
        }
        i = i + 1;
    }
    if compliant && storage {
        supported.push(GpuCapabilityFeature::StorageTexture);
    }
    if compliant && depth32_float.allows(GpuNativeTextureUsage::RenderAttachment) {
        supported.push(GpuCapabilityFeature::DepthAttachment);
    }
    supported
}

} // verus!
