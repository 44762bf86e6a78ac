//! Normalized capability features and the features fixed binding arrays need.

use vstd::prelude::*;

verus! {

/// Portable capability features a context may admit.
#[derive(Debug, Clone, Copy, PartialEq, Eq, Structural, PartialOrd, Ord, Hash)]
pub enum GpuCapabilityFeature {
    RenderPipeline,
    Copy,
    Compute,
    IndirectExecution,
    DepthBiasClamp,
    TimestampQuery,
    TextureBindingArray,
    BufferBindingArray,
    StorageResourceBindingArray,
    UniformBufferBindingArray,
    ShaderF16,
    Presentation,
    StorageTexture,
    DepthAttachment,
}

/// Classes of shader resource bindings.
#[derive(Debug, Clone, Copy, PartialEq, Eq, Structural, PartialOrd, Ord, Hash)]
pub enum GpuBindingClass {
    UniformBuffer,
    StorageBuffer,
    SampledTexture,
    StorageTexture,
    Sampler,
}

/// Whole-module features required merely for a fixed binding-array declaration of `class` to exist.
pub open spec fn spec_fixed_array_compilation_capabilities(class: GpuBindingClass) -> Seq<
    GpuCapabilityFeature,
> {
    match class {
        GpuBindingClass::UniformBuffer => seq![GpuCapabilityFeature::BufferBindingArray],
        GpuBindingClass::StorageBuffer => seq![
            GpuCapabilityFeature::BufferBindingArray,
            GpuCapabilityFeature::StorageResourceBindingArray,
        ],
        GpuBindingClass::SampledTexture | GpuBindingClass::Sampler => seq![
            GpuCapabilityFeature::TextureBindingArray,
        ],
        GpuBindingClass::StorageTexture => seq![
            GpuCapabilityFeature::TextureBindingArray,
            GpuCapabilityFeature::StorageResourceBindingArray,
        ],
    }
}

/// Features required when a fixed binding array of `class` participates in the selected layout.
pub open spec fn spec_fixed_array_layout_capabilities(class: GpuBindingClass) -> Seq<
    GpuCapabilityFeature,
> {
    match class {
        GpuBindingClass::UniformBuffer => seq![
            GpuCapabilityFeature::BufferBindingArray,
            GpuCapabilityFeature::UniformBufferBindingArray,
        ],
        _ => spec_fixed_array_compilation_capabilities(class),
    }
}

/// Whole-module features required merely for a fixed binding-array declaration to exist.
///
/// This is intentionally narrower than the selected-layout requirements for uniform-buffer
/// arrays: declaring such an array needs buffer binding arrays, while selecting it in a layout
/// needs uniform-buffer binding arrays as well.
pub fn fixed_array_compilation_capabilities(class: GpuBindingClass) -> (r: Vec<
    GpuCapabilityFeature,
>)
    ensures
        r@ == spec_fixed_array_compilation_capabilities(class),
{
    let r = match class {
        GpuBindingClass::UniformBuffer => vec![GpuCapabilityFeature::BufferBindingArray],
        GpuBindingClass::StorageBuffer => vec![
            GpuCapabilityFeature::BufferBindingArray,
            GpuCapabilityFeature::StorageResourceBindingArray,
        ],
        GpuBindingClass::SampledTexture | GpuBindingClass::Sampler => vec![
            GpuCapabilityFeature::TextureBindingArray,
        ],
        GpuBindingClass::StorageTexture => vec![
            GpuCapabilityFeature::TextureBindingArray,
            GpuCapabilityFeature::StorageResourceBindingArray,
        ],
    };
    proof {
        assert(r@ =~= spec_fixed_array_compilation_capabilities(class));
    }
    r
}

/// Features required when a fixed binding array participates in the selected public layout.
pub fn fixed_array_layout_capabilities(class: GpuBindingClass) -> (r: Vec<GpuCapabilityFeature>)
    ensures
        r@ == spec_fixed_array_layout_capabilities(class),
{
    match class {
        GpuBindingClass::UniformBuffer => {
            let r = vec![
                GpuCapabilityFeature::BufferBindingArray,
                GpuCapabilityFeature::UniformBufferBindingArray,
            ];
            proof {
                assert(r@ =~= spec_fixed_array_layout_capabilities(class));
            }
            r
        },
        class => fixed_array_compilation_capabilities(class),
    }
}

/// Declaring a fixed binding array never needs more than selecting it in a layout: every
/// compilation requirement is also a layout requirement, and only uniform buffers add one.
pub proof fn lemma_fixed_array_compilation_is_narrower_than_layout(class: GpuBindingClass)
    ensures
        forall|f: GpuCapabilityFeature|
            #[trigger] spec_fixed_array_compilation_capabilities(class).contains(f)
                ==> spec_fixed_array_layout_capabilities(class).contains(f),
        class != GpuBindingClass::UniformBuffer ==> spec_fixed_array_layout_capabilities(class)
            == spec_fixed_array_compilation_capabilities(class),
{
    assert forall|f: GpuCapabilityFeature|
        #[trigger] spec_fixed_array_compilation_capabilities(class).contains(
            f,
        ) implies spec_fixed_array_layout_capabilities(class).contains(f) by {
        if class == GpuBindingClass::UniformBuffer {
            let c = spec_fixed_array_compilation_capabilities(class);
            let k = choose|k: int| 0 <= k < c.len() && c[k] == f;
            assert(spec_fixed_array_layout_capabilities(class)[0] == f);
        }
    }
}

} // verus!
