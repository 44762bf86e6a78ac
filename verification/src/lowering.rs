//! Checks and lowering that turn a validated render-pipeline description into the plain
//! layout the native realization builds from.

use vstd::prelude::*;
use crate::blend::GpuBlendState;
use crate::native::{
    spec_native_sample_count_supported, GpuNativeDownlevelFlag, GpuNativeDownlevelFlags,
    GpuNativeFeature, GpuNativeFeatures, GpuNativeFormatFeatures, GpuNativeFormatFlag,
    GpuNativeTextureUsage,
};
use crate::render_state::{
    GpuBlendMode, GpuColorTargetStateDescriptor, GpuDepthStencilStateDescriptor,
    GpuFragmentOutputStateDescriptor,
};
use crate::texture_format::GpuTextureFormat;
use crate::vertex::{
    spec_slots_increasing, GpuMultisampleStateDescriptor, GpuPrimitiveStateDescriptor,
    GpuVertexAttribute, GpuVertexBufferLayout, GpuVertexInputState, GpuVertexStepMode,
};

verus! {

/// Categories of refused pipeline realizations.
#[derive(Debug, Clone, Copy, PartialEq, Eq, Structural, PartialOrd, Ord, Hash)]
pub enum GpuPipelineRealizationErrorCategory {
    FormatOrAlignmentNotAdmitted,
}

/// Why a pipeline realization was refused.
#[derive(Debug, Clone, Copy, PartialEq, Eq, Structural, PartialOrd, Ord, Hash)]
pub enum GpuPipelineRealizationReason {
    VertexSlotDomain,
    VertexBufferLimit,
    VertexAttributeDomain,
    VertexAttributeLimit,
    VertexStrideLimit,
    ColorTargetDomain,
    ColorTargetLimit,
    RenderAttachmentUnsupported,
    SampleCountUnsupported,
    BlendUnsupported,
}

/// A refused pipeline realization.
#[derive(Debug, Clone, PartialEq, Eq, Hash)]
pub struct GpuPipelineRealizationError {
    category: GpuPipelineRealizationErrorCategory,
    request: String,
    reason: GpuPipelineRealizationReason,
}

impl GpuPipelineRealizationError {
    pub closed spec fn spec_category(&self) -> GpuPipelineRealizationErrorCategory {
        self.category
    }

    pub closed spec fn spec_request(&self) -> Seq<char> {
        self.request@
    }

    pub closed spec fn spec_reason(&self) -> GpuPipelineRealizationReason {
        self.reason
    }

    pub fn category(&self) -> (r: GpuPipelineRealizationErrorCategory)
        ensures
            r == self.spec_category(),
    {
        self.category
    }

    pub fn request(&self) -> (r: &str)
        ensures
            r@ == self.spec_request(),
    {
        self.request.as_str()
    }

    pub fn reason(&self) -> (r: GpuPipelineRealizationReason)
        ensures
            r == self.spec_reason(),
    {
        self.reason
    }

    /// A sentence describing the refusal.
    pub fn detail(&self) -> (r: Option<&'static str>)
        ensures
            r == Some(reason_detail(self.spec_reason())),
    {
        Some(reason_detail(self.reason))
    }
}

/// The sentence that describes a refusal for `reason`.
#[verifier::allow_in_spec]
pub fn reason_detail(reason: GpuPipelineRealizationReason) -> &'static str
    returns
        match reason {
            GpuPipelineRealizationReason::VertexSlotDomain => "the highest vertex-buffer slot exceeds the normalized u32 slot domain",
            GpuPipelineRealizationReason::VertexBufferLimit => "the highest vertex-buffer slot exceeds an admitted or created-device limit",
            GpuPipelineRealizationReason::VertexAttributeDomain => "the vertex attribute count exceeds the normalized u32 limit domain",
            GpuPipelineRealizationReason::VertexAttributeLimit => "the vertex attribute count exceeds an admitted or created-device limit",
            GpuPipelineRealizationReason::VertexStrideLimit => "a vertex-buffer stride exceeds an admitted or created-device limit",
            GpuPipelineRealizationReason::ColorTargetDomain => "the color-target count exceeds the normalized u32 limit domain",
            GpuPipelineRealizationReason::ColorTargetLimit => "the color-target count exceeds an admitted or created-device limit",
            GpuPipelineRealizationReason::RenderAttachmentUnsupported => "the created device cannot use the selected format as a render attachment",
            GpuPipelineRealizationReason::SampleCountUnsupported => "the selected attachment format does not support the requested sample count",
            GpuPipelineRealizationReason::BlendUnsupported => "the selected color attachment format does not support blending required by the pipeline state",
        },
{
    match reason {
            GpuPipelineRealizationReason::VertexSlotDomain => "the highest vertex-buffer slot exceeds the normalized u32 slot domain",
            GpuPipelineRealizationReason::VertexBufferLimit => "the highest vertex-buffer slot exceeds an admitted or created-device limit",
            GpuPipelineRealizationReason::VertexAttributeDomain => "the vertex attribute count exceeds the normalized u32 limit domain",
            GpuPipelineRealizationReason::VertexAttributeLimit => "the vertex attribute count exceeds an admitted or created-device limit",
            GpuPipelineRealizationReason::VertexStrideLimit => "a vertex-buffer stride exceeds an admitted or created-device limit",
            GpuPipelineRealizationReason::ColorTargetDomain => "the color-target count exceeds the normalized u32 limit domain",
            GpuPipelineRealizationReason::ColorTargetLimit => "the color-target count exceeds an admitted or created-device limit",
            GpuPipelineRealizationReason::RenderAttachmentUnsupported => "the created device cannot use the selected format as a render attachment",
            GpuPipelineRealizationReason::SampleCountUnsupported => "the selected attachment format does not support the requested sample count",
            GpuPipelineRealizationReason::BlendUnsupported => "the selected color attachment format does not support blending required by the pipeline state",
    }
}

/// The refusal of a format or limit the admitted device cannot honor.
pub fn incompatible(request: &str, reason: GpuPipelineRealizationReason) -> (e: GpuPipelineRealizationError)
    ensures
        e.spec_category() == GpuPipelineRealizationErrorCategory::FormatOrAlignmentNotAdmitted,
        e.spec_request() == request@,
        e.spec_reason() == reason,
{
    GpuPipelineRealizationError {
        category: GpuPipelineRealizationErrorCategory::FormatOrAlignmentNotAdmitted,
        request: request.to_owned(),
        reason,
    }
}

/// Refuses more color targets than the `u32` domain, the created device, or the workload admits.
pub fn validate_color_target_count(
    color_target_count: usize,
    device_limit: u32,
    workload_limit: u32,
    request: &str,
) -> (r: Result<(), GpuPipelineRealizationError>)
    ensures
        r is Ok <==> color_target_count <= device_limit && color_target_count <= workload_limit,
        r matches Err(e) ==> e.spec_request() == request@ && e.spec_reason() == if color_target_count
            > u32::MAX {
            GpuPipelineRealizationReason::ColorTargetDomain
        } else {
            GpuPipelineRealizationReason::ColorTargetLimit
        },
{
    if color_target_count > u32::MAX as usize {
        return Err(incompatible(request, GpuPipelineRealizationReason::ColorTargetDomain));
    }
    let count = color_target_count as u32;
    if count > device_limit || count > workload_limit {
        return Err(incompatible(request, GpuPipelineRealizationReason::ColorTargetLimit));
    }
    Ok(())
}

/// Refuses blending on a color format the device cannot blend.
pub fn validate_color_blend_support(
    blend: Option<GpuBlendState>,
    blendable: bool,
    request: &str,
) -> (r: Result<(), GpuPipelineRealizationError>)
    ensures
        r is Ok <==> (blend is None || blendable),
        r matches Err(e) ==> e.spec_request() == request@ && e.spec_reason()
            == GpuPipelineRealizationReason::BlendUnsupported,
{
    if blend.is_some() && !blendable {
        return Err(incompatible(request, GpuPipelineRealizationReason::BlendUnsupported));
    }
    Ok(())
}

/// Where a created device's format features come from.
#[derive(Debug, Clone, Copy, PartialEq, Eq, Structural, PartialOrd, Ord, Hash)]
pub enum GpuFormatFeatureSource {
    /// What the adapter reports for the format.
    AdapterReported,
    /// What the format guarantees under the device's enabled features.
    Guaranteed,
}

/// The adapter's own report counts when the device enabled adapter-specific format features or
/// the adapter lacks WebGPU texture-format support; otherwise only the guaranteed features do.
pub fn device_format_features_source(
    device_features: GpuNativeFeatures,
    downlevel: GpuNativeDownlevelFlags,
) -> (r: GpuFormatFeatureSource)
    ensures
        r == if device_features.spec_has(GpuNativeFeature::TextureAdapterSpecificFormatFeatures)
            || !downlevel.spec_has(GpuNativeDownlevelFlag::WebGpuTextureFormatSupport) {
            GpuFormatFeatureSource::AdapterReported
        } else {
            GpuFormatFeatureSource::Guaranteed
        },
{
    if device_features.has(GpuNativeFeature::TextureAdapterSpecificFormatFeatures) || !downlevel.has(
        GpuNativeDownlevelFlag::WebGpuTextureFormatSupport,
    ) {
        GpuFormatFeatureSource::AdapterReported
    } else {
        GpuFormatFeatureSource::Guaranteed
    }
}

/// Refuses a format the device cannot render to, or cannot render to with `sample_count` samples.
pub fn validate_attachment_support(
    features: GpuNativeFormatFeatures,
    sample_count: u32,
    request: &str,
) -> (r: Result<GpuNativeFormatFeatures, GpuPipelineRealizationError>)
    ensures
        r is Ok <==> features.spec_allows(GpuNativeTextureUsage::RenderAttachment)
            && spec_native_sample_count_supported(features.flags, sample_count),
        r matches Ok(f) ==> f == features,
        r matches Err(e) ==> e.spec_request() == request@ && e.spec_reason() == if !features.spec_allows(
            GpuNativeTextureUsage::RenderAttachment,
        ) {
            GpuPipelineRealizationReason::RenderAttachmentUnsupported
        } else {
            GpuPipelineRealizationReason::SampleCountUnsupported
        },
{
    if !features.allows(GpuNativeTextureUsage::RenderAttachment) {
        return Err(incompatible(request, GpuPipelineRealizationReason::RenderAttachmentUnsupported));
    }
    if !features.sample_count_supported(sample_count) {
        return Err(incompatible(request, GpuPipelineRealizationReason::SampleCountUnsupported));
    }
    Ok(features)
}

/// Vertex-input limits of a created device or an admitted workload.
#[derive(Debug, Clone, Copy, PartialEq, Eq, Structural, PartialOrd, Ord, Hash)]
pub struct GpuVertexLimits {
    pub max_vertex_buffers: u32,
    pub max_vertex_attributes: u32,
    pub max_vertex_buffer_array_stride: u32,
}

/// The native layout of one vertex-buffer slot.
#[derive(Debug, Clone, PartialEq, Eq, Hash)]
pub struct GpuLoweredVertexBuffer {
    pub array_stride: u64,
    pub step_mode: GpuVertexStepMode,
    pub attributes: Vec<GpuVertexAttribute>,
}

/// Number of positional slots: one past the highest declared slot.
pub open spec fn spec_positional_count(layouts: Seq<GpuVertexBufferLayout>) -> int {
    if layouts.len() == 0 {
        0
    } else {
        layouts.last().slot + 1
    }
}

/// Total number of vertex attributes over all layouts.
pub open spec fn spec_total_attributes(layouts: Seq<GpuVertexBufferLayout>) -> int
    decreases layouts.len(),
{
    if layouts.len() == 0 {
        0
    } else {
        spec_total_attributes(layouts.drop_last()) + layouts.last().attributes@.len()
    }
}

/// Whether a layout's stride exceeds either limit.
pub open spec fn spec_stride_exceeds(
    layout: GpuVertexBufferLayout,
    device: GpuVertexLimits,
    workload: GpuVertexLimits,
) -> bool {
    layout.array_stride > device.max_vertex_buffer_array_stride || layout.array_stride
        > workload.max_vertex_buffer_array_stride
}

/// The first reason vertex input cannot be lowered, if any.
pub open spec fn spec_vertex_lowering_refusal(
    layouts: Seq<GpuVertexBufferLayout>,
    device: GpuVertexLimits,
    workload: GpuVertexLimits,
) -> Option<GpuPipelineRealizationReason> {
    let positional = spec_positional_count(layouts);
    let total = spec_total_attributes(layouts);
    if positional > u32::MAX {
        Some(GpuPipelineRealizationReason::VertexSlotDomain)
    } else if positional > device.max_vertex_buffers || positional > workload.max_vertex_buffers {
        Some(GpuPipelineRealizationReason::VertexBufferLimit)
    } else if total > u32::MAX {
        Some(GpuPipelineRealizationReason::VertexAttributeDomain)
    } else if total > device.max_vertex_attributes || total > workload.max_vertex_attributes {
        Some(GpuPipelineRealizationReason::VertexAttributeLimit)
    } else if exists|k: int|
        0 <= k < layouts.len() && spec_stride_exceeds(#[trigger] layouts[k], device, workload) {
        Some(GpuPipelineRealizationReason::VertexStrideLimit)
    } else {
        None
    }
}

/// Whether a lowered slot carries exactly `layout`'s stride, step mode, and attributes.
pub open spec fn spec_lowered_from(buffer: GpuLoweredVertexBuffer, layout: GpuVertexBufferLayout) -> bool {
    &&& buffer.array_stride == layout.array_stride
    &&& buffer.step_mode == layout.step_mode
    &&& buffer.attributes@ == layout.attributes@
}

/// Whether a lowered slot is a present but empty layout.
pub open spec fn spec_lowered_empty(buffer: GpuLoweredVertexBuffer) -> bool {
    &&& buffer.array_stride == 0
    &&& buffer.step_mode == GpuVertexStepMode::Vertex
    &&& buffer.attributes@.len() == 0
}

/// Whether `lowered` is the positional lowering of `layouts`: one slot per position up to the
/// highest declared slot, declared slots carrying their layouts, the rest empty.
pub open spec fn spec_vertex_buffers_lowered(
    layouts: Seq<GpuVertexBufferLayout>,
    lowered: Seq<GpuLoweredVertexBuffer>,
) -> bool {
    &&& lowered.len() == spec_positional_count(layouts)
    &&& forall|k: int|
        0 <= k < layouts.len() ==> spec_lowered_from(
            lowered[(#[trigger] layouts[k]).slot as int],
            layouts[k],
        )
    &&& forall|i: int|
        0 <= i < lowered.len() && (forall|k: int|
            0 <= k < layouts.len() ==> (#[trigger] layouts[k]).slot != i) ==> spec_lowered_empty(
            #[trigger] lowered[i],
        )
}

proof fn lemma_total_attributes_prefix(layouts: Seq<GpuVertexBufferLayout>, i: int)
    requires
        0 <= i <= layouts.len(),
    ensures
        spec_total_attributes(layouts.take(i)) <= spec_total_attributes(layouts),
        spec_total_attributes(layouts.take(i)) >= 0,
    decreases layouts.len(),
{
    if i == layouts.len() {
        assert(layouts.take(i) =~= layouts);
        lemma_total_attributes_nonnegative(layouts);
    } else {
        lemma_total_attributes_prefix(layouts.drop_last(), i);
        assert(layouts.drop_last().take(i) =~= layouts.take(i));
    }
}

proof fn lemma_total_attributes_nonnegative(layouts: Seq<GpuVertexBufferLayout>)
    ensures
        spec_total_attributes(layouts) >= 0,
    decreases layouts.len(),
{
    if layouts.len() > 0 {
        lemma_total_attributes_nonnegative(layouts.drop_last());
    }
}

fn copy_attributes(attributes: &Vec<GpuVertexAttribute>) -> (r: Vec<GpuVertexAttribute>)
    ensures
        r@ == attributes@,
{
    let mut r: Vec<GpuVertexAttribute> = Vec::new();
    let mut i: usize = 0;
    while i < attributes.len()
        invariant
            0 <= i <= attributes@.len(),
            r@ == attributes@.take(i as int),
        decreases attributes@.len() - i,
    {
        r.push(attributes[i]);
        proof {
            assert(r@ =~= attributes@.take(i + 1));
        }
        i = i + 1;
    }
    proof {
        assert(attributes@.take(attributes@.len() as int) =~= attributes@);
    }
    r
}

/// Lowers vertex input to positional slots: slots up to the highest declared one are all
/// present, declared slots carry their layout, and undeclared slots are empty layouts.
#[verifier::loop_isolation(false)]
pub fn lower_vertex_buffers(
    input: &GpuVertexInputState,
    device: GpuVertexLimits,
    workload: GpuVertexLimits,
    request: &str,
) -> (r: Result<Vec<GpuLoweredVertexBuffer>, GpuPipelineRealizationError>)
    ensures
        r is Ok <==> spec_vertex_lowering_refusal(input@, device, workload) is None,
        r matches Err(e) ==> e.spec_request() == request@ && Some(e.spec_reason())
            == spec_vertex_lowering_refusal(input@, device, workload),
        r matches Ok(lowered) ==> spec_vertex_buffers_lowered(input@, lowered@),
{
    let layouts = input.layouts();
    let n = layouts.len();
    let positional_count_u32: u32 = if n == 0 {
        0
    } else {
        let highest = layouts[n - 1].slot;
        if highest == u32::MAX {
            return Err(incompatible(request, GpuPipelineRealizationReason::VertexSlotDomain));
        }
        highest + 1
    };
    if positional_count_u32 > device.max_vertex_buffers || positional_count_u32
        > workload.max_vertex_buffers {
        return Err(incompatible(request, GpuPipelineRealizationReason::VertexBufferLimit));
    }
    let mut total: u32 = 0;
    let mut k: usize = 0;
    while k < n
        invariant
            n == layouts@.len(),
            0 <= k <= n,
            total == spec_total_attributes(layouts@.take(k as int)),
        decreases n - k,
    {
        let count = layouts[k].attributes.len();
        proof {
            assert(layouts@.take(k + 1).drop_last() =~= layouts@.take(k as int));
            assert(layouts@.take(k + 1).last() == layouts@[k as int]);
        }
        if count > (u32::MAX - total) as usize {
            proof {
                lemma_total_attributes_prefix(layouts@, k + 1);
            }
            return Err(incompatible(request, GpuPipelineRealizationReason::VertexAttributeDomain));
        }
        total = total + count as u32;
        k = k + 1;
    }
    proof {
        assert(layouts@.take(n as int) =~= layouts@);
    }
    if total > device.max_vertex_attributes || total > workload.max_vertex_attributes {
        return Err(incompatible(request, GpuPipelineRealizationReason::VertexAttributeLimit));
    }
    let positional_count = positional_count_u32 as usize;
    let mut lowered: Vec<GpuLoweredVertexBuffer> = Vec::new();
    let mut i: usize = 0;
    while i < positional_count
        invariant
            0 <= i <= positional_count,
            lowered@.len() == i,
            forall|j: int| 0 <= j < i ==> spec_lowered_empty(#[trigger] lowered@[j]),
        decreases positional_count - i,
    {
        lowered.push(
            GpuLoweredVertexBuffer {
                array_stride: 0,
                step_mode: GpuVertexStepMode::Vertex,
                attributes: Vec::new(),
            },
        );
        i = i + 1;
    }
    let mut k: usize = 0;
    while k < n
        invariant
            n == layouts@.len(),
            layouts@ == input@,
            spec_slots_increasing(layouts@),
            n > 0 ==> positional_count == layouts@[n - 1].slot + 1,
            n == 0 ==> positional_count == 0,
            0 <= k <= n,
            lowered@.len() == positional_count,
            forall|k2: int|
                0 <= k2 < k ==> !spec_stride_exceeds(#[trigger] layouts@[k2], device, workload),
            forall|k2: int|
                0 <= k2 < k ==> spec_lowered_from(
                    lowered@[(#[trigger] layouts@[k2]).slot as int],
                    layouts@[k2],
                ),
            forall|j: int|
                0 <= j < lowered@.len() && (forall|k2: int|
                    0 <= k2 < k ==> (#[trigger] layouts@[k2]).slot != j) ==> spec_lowered_empty(
                    #[trigger] lowered@[j],
                ),
        decreases n - k,
    {
        let layout = &layouts[k];
        if layout.array_stride > device.max_vertex_buffer_array_stride as u64 || layout.array_stride
            > workload.max_vertex_buffer_array_stride as u64 {
            proof {
                assert(spec_stride_exceeds(layouts@[k as int], device, workload));
            }
            return Err(incompatible(request, GpuPipelineRealizationReason::VertexStrideLimit));
        }
        let slot = layout.slot as usize;
        proof {
            if k < n - 1 {
                assert(layouts@[k as int].slot < layouts@[n - 1].slot);
            }
        }
        let buffer = GpuLoweredVertexBuffer {
            array_stride: layout.array_stride,
            step_mode: layout.step_mode,
            attributes: copy_attributes(&layout.attributes),
        };
        let ghost previous = lowered@;
        lowered.set(slot, buffer);
        proof {
            assert forall|k2: int| 0 <= k2 < k + 1 implies spec_lowered_from(
                lowered@[(#[trigger] layouts@[k2]).slot as int],
                layouts@[k2],
            ) by {
                if k2 < k {
                    assert(layouts@[k2].slot < layouts@[k as int].slot);
                }
            }
        }
        k = k + 1;
    }
    proof {
        assert(!(exists|k2: int|
            0 <= k2 < layouts@.len() && spec_stride_exceeds(#[trigger] layouts@[k2], device, workload)));
    }
    Ok(lowered)
}

/// Native format features of `format` in a device table: the first entry for it, or none.
pub open spec fn spec_lookup_format_features(
    table: Seq<(GpuTextureFormat, GpuNativeFormatFeatures)>,
    format: GpuTextureFormat,
) -> GpuNativeFormatFeatures
    decreases table.len(),
{
    if table.len() == 0 {
        GpuNativeFormatFeatures { allowed_usages: 0, flags: 0 }
    } else if table[0].0 == format {
        table[0].1
    } else {
        spec_lookup_format_features(table.skip(1), format)
    }
}

/// Native format features of `format` in a device table: the first entry for it, or none.
pub fn lookup_format_features(
    table: &Vec<(GpuTextureFormat, GpuNativeFormatFeatures)>,
    format: GpuTextureFormat,
) -> (r: GpuNativeFormatFeatures)
    ensures
        r == spec_lookup_format_features(table@, format),
{
    let mut i: usize = 0;
    proof {
        assert(table@.skip(0) =~= table@);
    }
    while i < table.len()
        invariant
            0 <= i <= table@.len(),
            spec_lookup_format_features(table@, format) == spec_lookup_format_features(
                table@.skip(i as int),
                format,
            ),
        decreases table@.len() - i,
    {
        let (f, features) = table[i];
        proof {
            assert(table@.skip(i as int)[0] == table@[i as int]);
            assert(table@.skip(i as int).skip(1) =~= table@.skip(i + 1));
        }
        if f == format {
            return features;
        }
        i = i + 1;
    }
    proof {
        assert(table@.skip(i as int).len() == 0);
    }
    GpuNativeFormatFeatures { allowed_usages: 0, flags: 0 }
}

/// The first reason a color target cannot be realized on the device, if any.
pub open spec fn spec_color_target_refusal(
    target: GpuColorTargetStateDescriptor,
    table: Seq<(GpuTextureFormat, GpuNativeFormatFeatures)>,
    sample_count: u32,
) -> Option<GpuPipelineRealizationReason> {
    let features = spec_lookup_format_features(table, target.format());
    if !features.spec_allows(GpuNativeTextureUsage::RenderAttachment) {
        Some(GpuPipelineRealizationReason::RenderAttachmentUnsupported)
    } else if !spec_native_sample_count_supported(features.flags, sample_count) {
        Some(GpuPipelineRealizationReason::SampleCountUnsupported)
    } else if target.blend() == GpuBlendMode::Alpha && !features.spec_has_flag(
        GpuNativeFormatFlag::Blendable,
    ) {
        Some(GpuPipelineRealizationReason::BlendUnsupported)
    } else {
        None
    }
}

/// The refusal of the first color target that cannot be realized, if any.
pub open spec fn spec_first_color_target_refusal(
    targets: Seq<GpuColorTargetStateDescriptor>,
    table: Seq<(GpuTextureFormat, GpuNativeFormatFeatures)>,
    sample_count: u32,
) -> Option<GpuPipelineRealizationReason>
    decreases targets.len(),
{
    if targets.len() == 0 {
        None
    } else {
        match spec_color_target_refusal(targets[0], table, sample_count) {
            Some(reason) => Some(reason),
            None => spec_first_color_target_refusal(targets.skip(1), table, sample_count),
        }
    }
}

/// Device and workload limits a render pipeline is checked against.
#[derive(Debug, Clone, Copy, PartialEq, Eq, Structural, PartialOrd, Ord, Hash)]
pub struct GpuRenderLimits {
    pub device_vertex: GpuVertexLimits,
    pub workload_vertex: GpuVertexLimits,
    pub device_max_color_attachments: u32,
    pub workload_max_color_attachments: u32,
}

/// The render state of a pipeline.
pub struct GpuRenderStateDescriptor {
    pub vertex_input: GpuVertexInputState,
    pub primitive: GpuPrimitiveStateDescriptor,
    pub fragment_output: Option<GpuFragmentOutputStateDescriptor>,
    pub depth_stencil: Option<GpuDepthStencilStateDescriptor>,
    pub multisample: GpuMultisampleStateDescriptor,
}

/// The color targets of a render state, in location order.
pub open spec fn spec_color_targets(state: GpuRenderStateDescriptor) -> Seq<GpuColorTargetStateDescriptor> {
    match state.fragment_output {
        Some(output) => output@,
        None => Seq::empty(),
    }
}

/// The first reason a render state cannot be realized on the device, if any: vertex input,
/// then each color target in order, then the color-target count, then the depth/stencil format.
pub open spec fn spec_render_pipeline_refusal(
    state: GpuRenderStateDescriptor,
    limits: GpuRenderLimits,
    table: Seq<(GpuTextureFormat, GpuNativeFormatFeatures)>,
) -> Option<GpuPipelineRealizationReason> {
    let sample_count = state.multisample.sample_count;
    let targets = spec_color_targets(state);
    let vertex = spec_vertex_lowering_refusal(
        state.vertex_input@,
        limits.device_vertex,
        limits.workload_vertex,
    );
    let color = spec_first_color_target_refusal(targets, table, sample_count);
    if vertex is Some {
        vertex
    } else if color is Some {
        color
    } else if targets.len() > u32::MAX {
        Some(GpuPipelineRealizationReason::ColorTargetDomain)
    } else if targets.len() > limits.device_max_color_attachments || targets.len()
        > limits.workload_max_color_attachments {
        Some(GpuPipelineRealizationReason::ColorTargetLimit)
    } else if state.depth_stencil matches Some(ds) && !spec_lookup_format_features(
        table,
        ds.format(),
    ).spec_allows(GpuNativeTextureUsage::RenderAttachment) {
        Some(GpuPipelineRealizationReason::RenderAttachmentUnsupported)
    } else if state.depth_stencil matches Some(ds) && !spec_native_sample_count_supported(
        spec_lookup_format_features(table, ds.format()).flags,
        sample_count,
    ) {
        Some(GpuPipelineRealizationReason::SampleCountUnsupported)
    } else {
        None
    }
}

/// The features a device table gives a format are those of its first entry for the format, and
/// none at all (no usage, no flag) when the table has no entry for it.
pub proof fn lemma_lookup_reads_the_first_entry(
    table: Seq<(GpuTextureFormat, GpuNativeFormatFeatures)>,
    format: GpuTextureFormat,
)
    ensures
        (forall|i: int| 0 <= i < table.len() ==> (#[trigger] table[i]).0 != format)
            ==> spec_lookup_format_features(table, format) == (GpuNativeFormatFeatures {
            allowed_usages: 0,
            flags: 0,
        }),
        forall|i: int|
            0 <= i < table.len() && (#[trigger] table[i]).0 == format && (forall|j: int|
                0 <= j < i ==> (#[trigger] table[j]).0 != format) ==> spec_lookup_format_features(
                table,
                format,
            ) == table[i].1,
{
    if forall|i: int| 0 <= i < table.len() ==> (#[trigger] table[i]).0 != format {
        lemma_lookup_without_entry(table, format);
    }
    assert forall|i: int|
        0 <= i < table.len() && (#[trigger] table[i]).0 == format && (forall|j: int|
            0 <= j < i ==> (#[trigger] table[j]).0 != format) implies spec_lookup_format_features(
        table,
        format,
    ) == table[i].1 by {
        lemma_lookup_at_first_entry(table, format, i);
    }
}

proof fn lemma_lookup_without_entry(
    table: Seq<(GpuTextureFormat, GpuNativeFormatFeatures)>,
    format: GpuTextureFormat,
)
    requires
        forall|i: int| 0 <= i < table.len() ==> (#[trigger] table[i]).0 != format,
    ensures
        spec_lookup_format_features(table, format) == (GpuNativeFormatFeatures {
            allowed_usages: 0,
            flags: 0,
        }),
    decreases table.len(),
{
    if table.len() > 0 {
        let rest = table.skip(1);
        assert(table[0].0 != format);
        assert forall|i: int| 0 <= i < rest.len() implies (#[trigger] rest[i]).0 != format by {
            assert(rest[i] == table[i + 1]);
        }
        lemma_lookup_without_entry(rest, format);
    }
}

proof fn lemma_lookup_at_first_entry(
    table: Seq<(GpuTextureFormat, GpuNativeFormatFeatures)>,
    format: GpuTextureFormat,
    i: int,
)
    requires
        0 <= i < table.len(),
        table[i].0 == format,
        forall|j: int| 0 <= j < i ==> (#[trigger] table[j]).0 != format,
    ensures
        spec_lookup_format_features(table, format) == table[i].1,
    decreases i,
{
    if i > 0 {
        let rest = table.skip(1);
        assert(table[0].0 != format);
        assert(rest[i - 1] == table[i]);
        assert forall|j: int| 0 <= j < i - 1 implies (#[trigger] rest[j]).0 != format by {
            assert(rest[j] == table[j + 1]);
        }
        lemma_lookup_at_first_entry(rest, format, i - 1);
    }
}

/// Every color target passes exactly when no target is refused.
proof fn lemma_first_color_target_refusal_is_none_exactly_when_all_pass(
    targets: Seq<GpuColorTargetStateDescriptor>,
    table: Seq<(GpuTextureFormat, GpuNativeFormatFeatures)>,
    sample_count: u32,
)
    ensures
        spec_first_color_target_refusal(targets, table, sample_count) is None <==> forall|k: int|
            0 <= k < targets.len() ==> spec_color_target_refusal(
                #[trigger] targets[k],
                table,
                sample_count,
            ) is None,
    decreases targets.len(),
{
    if targets.len() > 0 {
        let rest = targets.skip(1);
        lemma_first_color_target_refusal_is_none_exactly_when_all_pass(rest, table, sample_count);
        assert forall|k: int| 0 <= k < rest.len() implies rest[k] == targets[k + 1] by {}
        if forall|k: int|
            0 <= k < targets.len() ==> spec_color_target_refusal(
                #[trigger] targets[k],
                table,
                sample_count,
            ) is None {
            assert(spec_color_target_refusal(targets[0], table, sample_count) is None);
            assert forall|k: int| 0 <= k < rest.len() implies spec_color_target_refusal(
                #[trigger] rest[k],
                table,
                sample_count,
            ) is None by {
                assert(rest[k] == targets[k + 1]);
            }
        }
        if spec_first_color_target_refusal(targets, table, sample_count) is None {
            assert forall|k: int| 0 <= k < targets.len() implies spec_color_target_refusal(
                #[trigger] targets[k],
                table,
                sample_count,
            ) is None by {
                if k > 0 {
                    assert(targets[k] == rest[k - 1]);
                }
            }
        }
    }
}

/// A render state is lowered only when each of its color targets is a render attachment on the
/// device supporting the pipeline's sample count (and blendable when it blends), and there are
/// no more targets than the device and the workload allow.
pub proof fn lemma_lowered_color_targets_are_renderable(
    state: GpuRenderStateDescriptor,
    limits: GpuRenderLimits,
    table: Seq<(GpuTextureFormat, GpuNativeFormatFeatures)>,
)
    ensures
        spec_render_pipeline_refusal(state, limits, table) is None ==> {
            let targets = spec_color_targets(state);
            &&& targets.len() <= limits.device_max_color_attachments
            &&& targets.len() <= limits.workload_max_color_attachments
            &&& forall|k: int|
                0 <= k < targets.len() ==> {
                    let features = spec_lookup_format_features(table, (#[trigger] targets[k]).format());
                    &&& features.spec_allows(GpuNativeTextureUsage::RenderAttachment)
                    &&& spec_native_sample_count_supported(
                        features.flags,
                        state.multisample.sample_count,
                    )
                    &&& targets[k].blend() == GpuBlendMode::Alpha ==> features.spec_has_flag(
                        GpuNativeFormatFlag::Blendable,
                    )
                }
        },
{
    lemma_first_color_target_refusal_is_none_exactly_when_all_pass(
        spec_color_targets(state),
        table,
        state.multisample.sample_count,
    );
}

/// A render state with a depth/stencil state is lowered only when the device table has an entry
/// for its format, and the first such entry allows render attachments and the pipeline's sample
/// count.
pub proof fn lemma_lowered_depth_stencil_format_is_renderable(
    state: GpuRenderStateDescriptor,
    limits: GpuRenderLimits,
    table: Seq<(GpuTextureFormat, GpuNativeFormatFeatures)>,
)
    ensures
        spec_render_pipeline_refusal(state, limits, table) is None && state.depth_stencil is Some
            ==> {
            let format = state.depth_stencil->0.format();
            &&& exists|i: int| 0 <= i < table.len() && (#[trigger] table[i]).0 == format
            &&& forall|i: int|
                0 <= i < table.len() && (#[trigger] table[i]).0 == format && (forall|j: int|
                    0 <= j < i ==> (#[trigger] table[j]).0 != format) ==> table[i].1.spec_allows(
                    GpuNativeTextureUsage::RenderAttachment,
                ) && spec_native_sample_count_supported(
                    table[i].1.flags,
                    state.multisample.sample_count,
                )
        },
{
    if spec_render_pipeline_refusal(state, limits, table) is None && state.depth_stencil is Some {
        let format = state.depth_stencil->0.format();
        let features = spec_lookup_format_features(table, format);
        assert(features.spec_allows(GpuNativeTextureUsage::RenderAttachment));
        assert(spec_native_sample_count_supported(features.flags, state.multisample.sample_count));
        lemma_lookup_reads_the_first_entry(table, format);
        assert(0u32 & 0x10u32 != 0x10u32) by (bit_vector);
    }
}

/// Once vertex input, the color targets and the color-target count pass, a depth/stencil state is
/// checked against the first table entry for its format: refused as no render attachment
/// without that usage (or without any entry), refused for the sample count when the entry lacks
/// it, and accepted otherwise.
pub proof fn lemma_depth_stencil_format_decides_the_remaining_refusal(
    state: GpuRenderStateDescriptor,
    limits: GpuRenderLimits,
    table: Seq<(GpuTextureFormat, GpuNativeFormatFeatures)>,
)
    requires
        spec_vertex_lowering_refusal(
            state.vertex_input@,
            limits.device_vertex,
            limits.workload_vertex,
        ) is None,
        spec_first_color_target_refusal(
            spec_color_targets(state),
            table,
            state.multisample.sample_count,
        ) is None,
        spec_color_targets(state).len() <= limits.device_max_color_attachments,
        spec_color_targets(state).len() <= limits.workload_max_color_attachments,
        state.depth_stencil is Some,
    ensures
        ({
            let format = state.depth_stencil->0.format();
            let sample_count = state.multisample.sample_count;
            &&& (forall|i: int| 0 <= i < table.len() ==> (#[trigger] table[i]).0 != format)
                ==> spec_render_pipeline_refusal(state, limits, table) == Some(
                GpuPipelineRealizationReason::RenderAttachmentUnsupported,
            )
            &&& forall|i: int|
                0 <= i < table.len() && (#[trigger] table[i]).0 == format && (forall|j: int|
                    0 <= j < i ==> (#[trigger] table[j]).0 != format)
                    ==> spec_render_pipeline_refusal(state, limits, table) == if !table[i].1.spec_allows(
                    GpuNativeTextureUsage::RenderAttachment,
                ) {
                    Some(GpuPipelineRealizationReason::RenderAttachmentUnsupported)
                } else if !spec_native_sample_count_supported(table[i].1.flags, sample_count) {
                    Some(GpuPipelineRealizationReason::SampleCountUnsupported)
                } else {
                    None::<GpuPipelineRealizationReason>
                }
        }),
{
    let format = state.depth_stencil->0.format();
    lemma_lookup_reads_the_first_entry(table, format);
    assert(0u32 & 0x10u32 != 0x10u32) by (bit_vector);
}

/// A render pipeline checked against the device and lowered to native layout.
pub struct GpuLoweredRenderPipeline {
    pub vertex_buffers: Vec<GpuLoweredVertexBuffer>,
    pub color_targets: Vec<GpuColorTargetStateDescriptor>,
    pub primitive: GpuPrimitiveStateDescriptor,
    pub depth_stencil: Option<GpuDepthStencilStateDescriptor>,
    pub multisample: GpuMultisampleStateDescriptor,
}

/// Checks a render state against the device's limits and format features and lowers it.
#[verifier::loop_isolation(false)]
pub fn lower_render_pipeline(
    state: &GpuRenderStateDescriptor,
    limits: GpuRenderLimits,
    format_features: &Vec<(GpuTextureFormat, GpuNativeFormatFeatures)>,
    request: &str,
) -> (r: Result<GpuLoweredRenderPipeline, GpuPipelineRealizationError>)
    ensures
        r is Ok <==> spec_render_pipeline_refusal(*state, limits, format_features@) is None,
        r matches Err(e) ==> e.spec_request() == request@ && Some(e.spec_reason())
            == spec_render_pipeline_refusal(*state, limits, format_features@),
        r matches Ok(p) ==> {
            &&& spec_vertex_buffers_lowered(state.vertex_input@, p.vertex_buffers@)
            &&& p.color_targets@ == spec_color_targets(*state)
            &&& p.primitive == state.primitive
            &&& p.depth_stencil == state.depth_stencil
            &&& p.multisample == state.multisample
        },
{
    let vertex_buffers = lower_vertex_buffers(
        &state.vertex_input,
        limits.device_vertex,
        limits.workload_vertex,
        request,
    )?;
    let sample_count = state.multisample.sample_count;
    let mut color_targets: Vec<GpuColorTargetStateDescriptor> = Vec::new();
    let ghost targets = spec_color_targets(*state);
    if let Some(output) = &state.fragment_output {
        let source = output.color_targets();
        let mut i: usize = 0;
        proof {
            assert(targets.skip(0) =~= targets);
        }
        while i < source.len()
            invariant
                source@ == targets,
                targets == spec_color_targets(*state),
                0 <= i <= source@.len(),
                color_targets@ == source@.take(i as int),
                spec_first_color_target_refusal(targets, format_features@, sample_count)
                    == spec_first_color_target_refusal(
                    targets.skip(i as int),
                    format_features@,
                    sample_count,
                ),
            decreases source@.len() - i,
        {
            let target = source[i];
            proof {
                assert(targets.skip(i as int)[0] == targets[i as int]);
                assert(targets.skip(i as int).skip(1) =~= targets.skip(i + 1));
            }
            let features = validate_attachment_support(
                lookup_format_features(format_features, target.format()),
                sample_count,
                request,
            )?;
            validate_color_blend_support(
                target.blend().blend_state(),
                features.has_flag(GpuNativeFormatFlag::Blendable),
                request,
            )?;
            color_targets.push(target);
            proof {
                assert(color_targets@ =~= source@.take(i + 1));
            }
            i = i + 1;
        }
        proof {
            assert(source@.take(source@.len() as int) =~= source@);
            assert(targets.skip(i as int).len() == 0);
        }
    } else {
        proof {
            assert(color_targets@ =~= targets);
        }
    }
    validate_color_target_count(
        color_targets.len(),
        limits.device_max_color_attachments,
        limits.workload_max_color_attachments,
        request,
    )?;
    if let Some(depth_stencil) = &state.depth_stencil {
        validate_attachment_support(
            lookup_format_features(format_features, depth_stencil.format()),
            sample_count,
            request,
        )?;
    }
    Ok(
        GpuLoweredRenderPipeline {
            vertex_buffers,
            color_targets,
            primitive: state.primitive,
            depth_stencil: state.depth_stencil,
            multisample: state.multisample,
        },
    )
}

} // verus!
