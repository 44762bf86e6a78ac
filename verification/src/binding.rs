//! Bind-group layout declarations and their lowering to native layout entries.

use vstd::prelude::*;
use crate::capabilities::GpuBindingClass;
use crate::native::{GpuNativeFeature, GpuNativeFeatures};
use crate::texture_format::GpuTextureFormat;
use crate::texture_resource::GpuTextureViewDimension;

verus! {

/// Access of a storage-buffer binding.
#[derive(Debug, Clone, Copy, PartialEq, Eq, Structural, PartialOrd, Ord, Hash)]
pub enum GpuStorageBufferAccess {
    ReadOnly,
    ReadWrite,
}

/// Access of a storage-texture binding.
#[derive(Debug, Clone, Copy, PartialEq, Eq, Structural, PartialOrd, Ord, Hash)]
pub enum GpuStorageTextureAccess {
    ReadOnly,
    WriteOnly,
    ReadWrite,
}

/// How a sampled texture binding is read.
#[derive(Debug, Clone, Copy, PartialEq, Eq, Structural, PartialOrd, Ord, Hash)]
pub enum GpuTextureSampleClass {
    FloatFilterable,
    FloatUnfilterable,
    Depth,
    Sint,
    Uint,
}

/// Kinds of sampler bindings.
#[derive(Debug, Clone, Copy, PartialEq, Eq, Structural, PartialOrd, Ord, Hash)]
pub enum GpuSamplerClass {
    Filtering,
    NonFiltering,
    Comparison,
}

/// Shader stages.
#[derive(Debug, Clone, Copy, PartialEq, Eq, Structural, PartialOrd, Ord, Hash)]
pub enum GpuShaderStage {
    Compute,
    Vertex,
    Fragment,
}

/// A set of shader stages.
#[derive(Debug, Clone, Copy, PartialEq, Eq, Structural, PartialOrd, Ord, Hash)]
pub struct GpuShaderStages {
    pub compute: bool,
    pub vertex: bool,
    pub fragment: bool,
}

impl GpuShaderStages {
    pub open spec fn spec_contains(self, stage: GpuShaderStage) -> bool {
        match stage {
            GpuShaderStage::Compute => self.compute,
            GpuShaderStage::Vertex => self.vertex,
            GpuShaderStage::Fragment => self.fragment,
        }
    }

    /// Whether `stage` is in this set.
    pub fn contains(self, stage: GpuShaderStage) -> (r: bool)
        ensures
            r == self.spec_contains(stage),
    {
        match stage {
            GpuShaderStage::Compute => self.compute,
            GpuShaderStage::Vertex => self.vertex,
            GpuShaderStage::Fragment => self.fragment,
        }
    }
}

/// What one binding declares, by class; fields that do not apply to the class are `None`.
#[derive(Debug, Clone, Copy, PartialEq, Eq, PartialOrd, Ord, Hash)]
pub struct GpuBindingKind {
    pub class: GpuBindingClass,
    pub uses_dynamic_offset: bool,
    pub minimum_buffer_size: Option<u64>,
    pub storage_buffer_access: Option<GpuStorageBufferAccess>,
    pub texture_sample_class: Option<GpuTextureSampleClass>,
    pub texture_view_dimension: Option<GpuTextureViewDimension>,
    pub multisampled_texture: bool,
    pub storage_texture_access: Option<GpuStorageTextureAccess>,
    pub storage_texture_format: Option<GpuTextureFormat>,
    pub sampler_class: Option<GpuSamplerClass>,
}

/// One binding of a bind-group layout.
#[derive(Debug, Clone, Copy, PartialEq, Eq, PartialOrd, Ord, Hash)]
pub struct GpuBindingDeclaration {
    pub binding: u32,
    pub visibility: GpuShaderStages,
    pub kind: GpuBindingKind,
    pub array_count: Option<u32>,
}

/// A bind-group layout: the group index and its bindings.
#[derive(Debug, Clone, PartialEq, Eq, Hash)]
pub struct GpuBindGroupLayoutDescriptor {
    pub group: u32,
    pub bindings: Vec<GpuBindingDeclaration>,
}

/// Buffer binding types of the native layout.
#[derive(Debug, Clone, Copy, PartialEq, Eq, Structural, PartialOrd, Ord, Hash)]
pub enum GpuLoweredBufferType {
    Uniform,
    Storage { read_only: bool },
}

/// Binding types of the native layout.
#[derive(Debug, Clone, Copy, PartialEq, Eq, PartialOrd, Ord, Hash)]
pub enum GpuLoweredBindingType {
    Buffer {
        ty: GpuLoweredBufferType,
        has_dynamic_offset: bool,
        min_binding_size: Option<u64>,
    },
    Texture {
        sample_type: GpuTextureSampleClass,
        view_dimension: GpuTextureViewDimension,
        multisampled: bool,
    },
    StorageTexture {
        access: GpuStorageTextureAccess,
        format: GpuTextureFormat,
        view_dimension: GpuTextureViewDimension,
    },
    Sampler(GpuSamplerClass),
}

/// One entry of a native bind-group layout.
#[derive(Debug, Clone, Copy, PartialEq, Eq, PartialOrd, Ord, Hash)]
pub struct GpuLoweredLayoutEntry {
    pub binding: u32,
    pub visibility: GpuShaderStages,
    pub ty: GpuLoweredBindingType,
    pub count: Option<u32>,
}

/// Why a bind-group layout cannot be lowered.
#[derive(Debug, Clone, Copy, PartialEq, Eq, Structural, PartialOrd, Ord, Hash)]
pub enum GpuBindingLayoutReason {
    BindingArrayWithUniformOrDynamicOffset,
    SampledTextureWithoutSampleClass,
    SampledTextureWithoutViewDimension,
    StorageTextureWithoutAccess,
    StorageTextureWithoutFormat,
    StorageTextureWithoutViewDimension,
    SamplerWithoutClass,
    BindingArrayFeaturesMissing,
}

/// Categories of refused program-binding realizations.
#[derive(Debug, Clone, Copy, PartialEq, Eq, Structural, PartialOrd, Ord, Hash)]
pub enum GpuProgramBindingRealizationErrorCategory {
    LayoutDescriptorInvalid,
}

/// A refused bind-group layout.
#[derive(Debug, Clone, Copy, PartialEq, Eq, Structural, PartialOrd, Ord, Hash)]
pub struct GpuProgramBindingRealizationError {
    pub category: GpuProgramBindingRealizationErrorCategory,
    pub group: u32,
    pub reason: GpuBindingLayoutReason,
}

/// The native features a fixed binding array of `class` needs on the created device.
pub open spec fn spec_array_features_present(class: GpuBindingClass, features: GpuNativeFeatures) -> bool {
    match class {
        GpuBindingClass::UniformBuffer => features.spec_has(GpuNativeFeature::BufferBindingArray)
            && features.spec_has(GpuNativeFeature::UniformBufferBindingArrays),
        GpuBindingClass::StorageBuffer => features.spec_has(GpuNativeFeature::BufferBindingArray)
            && features.spec_has(GpuNativeFeature::StorageResourceBindingArray),
        GpuBindingClass::SampledTexture | GpuBindingClass::Sampler => features.spec_has(
            GpuNativeFeature::TextureBindingArray,
        ),
        GpuBindingClass::StorageTexture => features.spec_has(GpuNativeFeature::TextureBindingArray)
            && features.spec_has(GpuNativeFeature::StorageResourceBindingArray),
    }
}

/// Whether a declaration is well formed: a binding array holds at least one element and a
/// minimum buffer size is at least one byte.
pub open spec fn spec_binding_well_formed(binding: GpuBindingDeclaration) -> bool {
    &&& binding.array_count != Some(0u32)
    &&& binding.kind.minimum_buffer_size != Some(0u64)
}

/// The native layout entry of one binding, or why it has none.
pub open spec fn spec_layout_entry(
    features: GpuNativeFeatures,
    binding: GpuBindingDeclaration,
) -> Result<GpuLoweredLayoutEntry, GpuBindingLayoutReason> {
    let kind = binding.kind;
    let ty: Result<GpuLoweredBindingType, GpuBindingLayoutReason> = match kind.class {
        GpuBindingClass::UniformBuffer => Ok(
            GpuLoweredBindingType::Buffer {
                ty: GpuLoweredBufferType::Uniform,
                has_dynamic_offset: kind.uses_dynamic_offset,
                min_binding_size: kind.minimum_buffer_size,
            },
        ),
        GpuBindingClass::StorageBuffer => Ok(
            GpuLoweredBindingType::Buffer {
                ty: GpuLoweredBufferType::Storage {
                    read_only: kind.storage_buffer_access == Some(GpuStorageBufferAccess::ReadOnly),
                },
                has_dynamic_offset: kind.uses_dynamic_offset,
                min_binding_size: kind.minimum_buffer_size,
            },
        ),
        GpuBindingClass::SampledTexture => match (kind.texture_sample_class, kind.texture_view_dimension) {
            (None, _) => Err(GpuBindingLayoutReason::SampledTextureWithoutSampleClass),
            (Some(_), None) => Err(GpuBindingLayoutReason::SampledTextureWithoutViewDimension),
            (Some(sample_type), Some(view_dimension)) => Ok(
                GpuLoweredBindingType::Texture {
                    sample_type,
                    view_dimension,
                    multisampled: kind.multisampled_texture,
                },
            ),
        },
        GpuBindingClass::StorageTexture => match (
            kind.storage_texture_access,
            kind.storage_texture_format,
            kind.texture_view_dimension,
        ) {
            (None, _, _) => Err(GpuBindingLayoutReason::StorageTextureWithoutAccess),
            (Some(_), None, _) => Err(GpuBindingLayoutReason::StorageTextureWithoutFormat),
            (Some(_), Some(_), None) => Err(GpuBindingLayoutReason::StorageTextureWithoutViewDimension),
            (Some(access), Some(format), Some(view_dimension)) => Ok(
                GpuLoweredBindingType::StorageTexture { access, format, view_dimension },
            ),
        },
        GpuBindingClass::Sampler => match kind.sampler_class {
            None => Err(GpuBindingLayoutReason::SamplerWithoutClass),
            Some(class) => Ok(GpuLoweredBindingType::Sampler(class)),
        },
    };
    match ty {
        Err(reason) => Err(reason),
        Ok(ty) => if binding.array_count is Some && !spec_array_features_present(kind.class, features) {
            Err(GpuBindingLayoutReason::BindingArrayFeaturesMissing)
        } else {
            Ok(
                GpuLoweredLayoutEntry {
                    binding: binding.binding,
                    visibility: binding.visibility,
                    ty,
                    count: binding.array_count,
                },
            )
        },
    }
}

/// A buffer binding the device can hold (no array, or an array whose native features are
/// present) always lowers: to a uniform buffer for a uniform declaration, and to a storage
/// buffer that is read-only exactly when it was declared read-only, keeping the binding
/// number, visibility, dynamic offset, minimum size, and array count as declared.
pub proof fn lemma_buffer_bindings_lower_to_their_declared_access(
    features: GpuNativeFeatures,
    binding: GpuBindingDeclaration,
)
    requires
        binding.kind.class == GpuBindingClass::UniformBuffer || binding.kind.class
            == GpuBindingClass::StorageBuffer,
        binding.array_count is None || spec_array_features_present(binding.kind.class, features),
    ensures
        match spec_layout_entry(features, binding) {
            Ok(e) => {
                &&& e.binding == binding.binding
                &&& e.visibility == binding.visibility
                &&& e.count == binding.array_count
                &&& match e.ty {
                    GpuLoweredBindingType::Buffer { ty, has_dynamic_offset, min_binding_size } => {
                        &&& has_dynamic_offset == binding.kind.uses_dynamic_offset
                        &&& min_binding_size == binding.kind.minimum_buffer_size
                        &&& match ty {
                            GpuLoweredBufferType::Uniform => binding.kind.class
                                == GpuBindingClass::UniformBuffer,
                            GpuLoweredBufferType::Storage { read_only } => {
                                &&& binding.kind.class == GpuBindingClass::StorageBuffer
                                &&& read_only <==> binding.kind.storage_buffer_access == Some(
                                    GpuStorageBufferAccess::ReadOnly,
                                )
                            },
                        }
                    },
                    _ => false,
                }
            },
            Err(_) => false,
        },
{
}

/// A lowered entry keeps the declaration's binding number, visibility and array count, exists
/// for an array only when the device has the array's native features, and has the type the
/// declaration names with exactly the declared sample class, view dimension, storage access
/// and format, or sampler class.
pub proof fn lemma_lowered_entries_keep_the_declared_resource(
    features: GpuNativeFeatures,
    binding: GpuBindingDeclaration,
)
    ensures
        spec_layout_entry(features, binding) matches Ok(e) ==> {
            let kind = binding.kind;
            &&& e.binding == binding.binding
            &&& e.visibility == binding.visibility
            &&& e.count == binding.array_count
            &&& binding.array_count is Some ==> spec_array_features_present(kind.class, features)
            &&& match kind.class {
                GpuBindingClass::UniformBuffer | GpuBindingClass::StorageBuffer => e.ty is Buffer,
                GpuBindingClass::SampledTexture => e.ty == GpuLoweredBindingType::Texture {
                    sample_type: kind.texture_sample_class->0,
                    view_dimension: kind.texture_view_dimension->0,
                    multisampled: kind.multisampled_texture,
                } && kind.texture_sample_class is Some && kind.texture_view_dimension is Some,
                GpuBindingClass::StorageTexture => e.ty == GpuLoweredBindingType::StorageTexture {
                    access: kind.storage_texture_access->0,
                    format: kind.storage_texture_format->0,
                    view_dimension: kind.texture_view_dimension->0,
                } && kind.storage_texture_access is Some && kind.storage_texture_format is Some
                    && kind.texture_view_dimension is Some,
                GpuBindingClass::Sampler => e.ty == GpuLoweredBindingType::Sampler(
                    kind.sampler_class->0,
                ) && kind.sampler_class is Some,
            }
        },
{
}

/// Refuses a fixed binding array whose native features the created device did not enable.
pub fn validate_array_feature(features: GpuNativeFeatures, binding: &GpuBindingDeclaration) -> (r: Result<
    (),
    GpuBindingLayoutReason,
>)
    ensures
        r is Ok <==> (binding.array_count is None || spec_array_features_present(binding.kind.class, features)),
        r matches Err(reason) ==> reason == GpuBindingLayoutReason::BindingArrayFeaturesMissing,
{
    if binding.array_count.is_none() {
        return Ok(());
    }
    let present = match binding.kind.class {
        GpuBindingClass::UniformBuffer => features.has(GpuNativeFeature::BufferBindingArray)
            && features.has(GpuNativeFeature::UniformBufferBindingArrays),
        GpuBindingClass::StorageBuffer => features.has(GpuNativeFeature::BufferBindingArray)
            && features.has(GpuNativeFeature::StorageResourceBindingArray),
        GpuBindingClass::SampledTexture | GpuBindingClass::Sampler => features.has(
            GpuNativeFeature::TextureBindingArray,
        ),
        GpuBindingClass::StorageTexture => features.has(GpuNativeFeature::TextureBindingArray)
            && features.has(GpuNativeFeature::StorageResourceBindingArray),
    };
    if !present {
        return Err(GpuBindingLayoutReason::BindingArrayFeaturesMissing);
    }
    Ok(())
}

/// The native layout entry of one binding, or why it has none.
pub fn layout_entry(features: GpuNativeFeatures, binding: &GpuBindingDeclaration) -> (r: Result<
    GpuLoweredLayoutEntry,
    GpuBindingLayoutReason,
>)
    requires
        spec_binding_well_formed(*binding),
    ensures
        r == spec_layout_entry(features, *binding),
{
    let kind = binding.kind;
    let ty = match kind.class {
        GpuBindingClass::UniformBuffer => GpuLoweredBindingType::Buffer {
            ty: GpuLoweredBufferType::Uniform,
            has_dynamic_offset: kind.uses_dynamic_offset,
            min_binding_size: kind.minimum_buffer_size,
        },
        GpuBindingClass::StorageBuffer => GpuLoweredBindingType::Buffer {
            ty: GpuLoweredBufferType::Storage {
                read_only: match kind.storage_buffer_access {
                    Some(GpuStorageBufferAccess::ReadOnly) => true,
                    _ => false,
                },
            },
            has_dynamic_offset: kind.uses_dynamic_offset,
            min_binding_size: kind.minimum_buffer_size,
        },
        GpuBindingClass::SampledTexture => {
            let sample_type = match kind.texture_sample_class {
                Some(class) => class,
                None => return Err(GpuBindingLayoutReason::SampledTextureWithoutSampleClass),
            };
            let view_dimension = match kind.texture_view_dimension {
                Some(dimension) => dimension,
                None => return Err(GpuBindingLayoutReason::SampledTextureWithoutViewDimension),
            };
            GpuLoweredBindingType::Texture {
                sample_type,
                view_dimension,
                multisampled: kind.multisampled_texture,
            }
        },
        GpuBindingClass::StorageTexture => {
            let access = match kind.storage_texture_access {
                Some(access) => access,
                None => return Err(GpuBindingLayoutReason::StorageTextureWithoutAccess),
            };
            let format = match kind.storage_texture_format {
                Some(format) => format,
                None => return Err(GpuBindingLayoutReason::StorageTextureWithoutFormat),
            };
            let view_dimension = match kind.texture_view_dimension {
                Some(dimension) => dimension,
                None => return Err(GpuBindingLayoutReason::StorageTextureWithoutViewDimension),
            };
            GpuLoweredBindingType::StorageTexture { access, format, view_dimension }
        },
        GpuBindingClass::Sampler => match kind.sampler_class {
            Some(class) => GpuLoweredBindingType::Sampler(class),
            None => return Err(GpuBindingLayoutReason::SamplerWithoutClass),
        },
    };
    validate_array_feature(features, binding)?;
    Ok(
        GpuLoweredLayoutEntry {
            binding: binding.binding,
            visibility: binding.visibility,
            ty,
            count: binding.array_count,
        },
    )
}

/// The refusal of `descriptor`'s layout for `reason`.
pub fn layout_error(descriptor: &GpuBindGroupLayoutDescriptor, reason: GpuBindingLayoutReason) -> (e:
    GpuProgramBindingRealizationError)
    ensures
        e.category == GpuProgramBindingRealizationErrorCategory::LayoutDescriptorInvalid,
        e.group == descriptor.group,
        e.reason == reason,
{
    GpuProgramBindingRealizationError {
        category: GpuProgramBindingRealizationErrorCategory::LayoutDescriptorInvalid,
        group: descriptor.group,
        reason,
    }
}

/// Whether a group both holds a binding array and a uniform buffer or dynamic offset.
pub open spec fn spec_array_group_conflict(bindings: Seq<GpuBindingDeclaration>) -> bool {
    &&& exists|i: int| 0 <= i < bindings.len() && (#[trigger] bindings[i]).array_count is Some
    &&& exists|j: int|
        0 <= j < bindings.len() && ((#[trigger] bindings[j]).kind.uses_dynamic_offset
            || bindings[j].kind.class == GpuBindingClass::UniformBuffer)
}

/// The first binding refusal in `bindings`, if any.
pub open spec fn spec_first_entry_refusal(
    features: GpuNativeFeatures,
    bindings: Seq<GpuBindingDeclaration>,
) -> Option<GpuBindingLayoutReason>
    decreases bindings.len(),
{
    if bindings.len() == 0 {
        None
    } else {
        match spec_layout_entry(features, bindings[0]) {
            Err(reason) => Some(reason),
            Ok(_) => spec_first_entry_refusal(features, bindings.skip(1)),
        }
    }
}

/// Lowers a bind-group layout: a group with a binding array may hold no uniform buffer and
/// no dynamic offset; then each binding lowers in order.
pub fn layout_entries(features: GpuNativeFeatures, descriptor: &GpuBindGroupLayoutDescriptor) -> (r:
    Result<Vec<GpuLoweredLayoutEntry>, GpuProgramBindingRealizationError>)
    requires
        forall|i: int|
            0 <= i < descriptor.bindings@.len() ==> spec_binding_well_formed(
                #[trigger] descriptor.bindings@[i],
            ),
    ensures
        r is Ok <==> !spec_array_group_conflict(descriptor.bindings@) && spec_first_entry_refusal(
            features,
            descriptor.bindings@,
        ) is None,
        r matches Ok(entries) ==> entries@.len() == descriptor.bindings@.len() && forall|i: int|
            0 <= i < entries@.len() ==> spec_layout_entry(features, descriptor.bindings@[i]) == Ok::<
                GpuLoweredLayoutEntry,
                GpuBindingLayoutReason,
            >(#[trigger] entries@[i]),
        r matches Err(e) ==> e.category == GpuProgramBindingRealizationErrorCategory::LayoutDescriptorInvalid
            && e.group == descriptor.group && e.reason == if spec_array_group_conflict(
            descriptor.bindings@,
        ) {
            GpuBindingLayoutReason::BindingArrayWithUniformOrDynamicOffset
        } else {
            spec_first_entry_refusal(features, descriptor.bindings@)->0
        },
{
    let bindings = &descriptor.bindings;
    let n = bindings.len();
    let mut has_binding_array = false;
    let mut has_uniform_or_dynamic = false;
    let mut i: usize = 0;
    while i < n
        invariant
            n == bindings@.len(),
            0 <= i <= n,
            has_binding_array == exists|k: int| 0 <= k < i && (#[trigger] bindings@[k]).array_count is Some,
            has_uniform_or_dynamic == exists|k: int|
                0 <= k < i && ((#[trigger] bindings@[k]).kind.uses_dynamic_offset
                    || bindings@[k].kind.class == GpuBindingClass::UniformBuffer),
        decreases n - i,
    {
        let binding = &bindings[i];
        if binding.array_count.is_some() {
            has_binding_array = true;
        }
        if binding.kind.uses_dynamic_offset || binding.kind.class == GpuBindingClass::UniformBuffer {
            has_uniform_or_dynamic = true;
        }
        proof {
            assert(bindings@[i as int] == *binding);
        }
        i = i + 1;
    }
    if has_binding_array && has_uniform_or_dynamic {
        return Err(
            layout_error(descriptor, GpuBindingLayoutReason::BindingArrayWithUniformOrDynamicOffset),
        );
    }
    let mut entries: Vec<GpuLoweredLayoutEntry> = Vec::new();
    let mut j: usize = 0;
    proof {
        assert(bindings@.skip(0) =~= bindings@);
    }
    while j < n
        invariant
            n == bindings@.len(),
            bindings@ == descriptor.bindings@,
            forall|k: int| 0 <= k < n ==> spec_binding_well_formed(#[trigger] bindings@[k]),
            0 <= j <= n,
            !spec_array_group_conflict(bindings@),
            entries@.len() == j,
            forall|k: int|
                0 <= k < j ==> spec_layout_entry(features, bindings@[k]) == Ok::<
                    GpuLoweredLayoutEntry,
                    GpuBindingLayoutReason,
                >(#[trigger] entries@[k]),
            spec_first_entry_refusal(features, bindings@) == spec_first_entry_refusal(
                features,
                bindings@.skip(j as int),
            ),
        decreases n - j,
    {
        proof {
            assert(bindings@.skip(j as int)[0] == bindings@[j as int]);
            assert(bindings@.skip(j as int).skip(1) =~= bindings@.skip(j + 1));
        }
        match layout_entry(features, &bindings[j]) {
            Ok(entry) => entries.push(entry),
            Err(reason) => {
                proof {
                    let rest = bindings@.skip(j as int);
                    assert(rest.len() > 0);
                    assert(spec_first_entry_refusal(features, rest) == Some(reason));
                }
                return Err(layout_error(descriptor, reason));
            },
        }
        j = j + 1;
    }
    Ok(entries)
}

} // verus!
