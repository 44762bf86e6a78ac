//! Textures, views, subresource ranges, and checked texture accesses.

use vstd::prelude::*;
use crate::texture_format::{
    self, format_semantics, spec_canonical_copy_aspect, spec_supports_aspect,
    spec_view_compatible, GpuTextureAspect, GpuTextureFormat,
};

verus! {

/// Identity of one allocated GPU resource.
#[derive(Debug, Clone, Copy, PartialEq, Eq, Structural, PartialOrd, Ord, Hash)]
pub struct GpuResourceId(pub u64);

/// Ways a texture may be used.
#[derive(Debug, Clone, Copy, PartialEq, Eq, Structural, PartialOrd, Ord, Hash)]
pub enum GpuTextureUsage {
    CopySource,
    CopyDestination,
    Sampled,
    StorageRead,
    StorageWrite,
    ColorAttachment,
    DepthStencilAttachment,
    TransientAttachment,
}

/// A set of texture usages.
#[derive(Debug, Clone, Copy, PartialEq, Eq, Structural, PartialOrd, Ord, Hash)]
pub struct GpuTextureUsages {
    copy_source: bool,
    copy_destination: bool,
    sampled: bool,
    storage_read: bool,
    storage_write: bool,
    color_attachment: bool,
    depth_stencil_attachment: bool,
    transient_attachment: bool,
}

impl GpuTextureUsages {
    pub closed spec fn spec_contains(self, usage: GpuTextureUsage) -> bool {
        match usage {
            GpuTextureUsage::CopySource => self.copy_source,
            GpuTextureUsage::CopyDestination => self.copy_destination,
            GpuTextureUsage::Sampled => self.sampled,
            GpuTextureUsage::StorageRead => self.storage_read,
            GpuTextureUsage::StorageWrite => self.storage_write,
            GpuTextureUsage::ColorAttachment => self.color_attachment,
            GpuTextureUsage::DepthStencilAttachment => self.depth_stencil_attachment,
            GpuTextureUsage::TransientAttachment => self.transient_attachment,
        }
    }

    /// The empty usage set.
    pub fn empty() -> (r: Self)
        ensures
            forall|u: GpuTextureUsage| !r.contains(u),
    {
        GpuTextureUsages {
            copy_source: false,
            copy_destination: false,
            sampled: false,
            storage_read: false,
            storage_write: false,
            color_attachment: false,
            depth_stencil_attachment: false,
            transient_attachment: false,
        }
    }

    /// This set with `usage` added.
    pub fn with(self, usage: GpuTextureUsage) -> (r: Self)
        ensures
            forall|u: GpuTextureUsage| r.contains(u) == (self.contains(u) || u == usage),
    {
        let mut r = self;
        match usage {
            GpuTextureUsage::CopySource => r.copy_source = true,
            GpuTextureUsage::CopyDestination => r.copy_destination = true,
            GpuTextureUsage::Sampled => r.sampled = true,
            GpuTextureUsage::StorageRead => r.storage_read = true,
            GpuTextureUsage::StorageWrite => r.storage_write = true,
            GpuTextureUsage::ColorAttachment => r.color_attachment = true,
            GpuTextureUsage::DepthStencilAttachment => r.depth_stencil_attachment = true,
            GpuTextureUsage::TransientAttachment => r.transient_attachment = true,
        }
        r
    }

    /// The set of the listed usages.
    pub fn from_usages(usages: &Vec<GpuTextureUsage>) -> (r: Self)
        ensures
            forall|u: GpuTextureUsage| r.contains(u) == usages@.contains(u),
    {
        let mut set = GpuTextureUsages::empty();
        let mut i: usize = 0;
        while i < usages.len()
            invariant
                0 <= i <= usages@.len(),
                forall|u: GpuTextureUsage| set.contains(u) == usages@.take(i as int).contains(u),
            decreases usages@.len() - i,
        {
            proof {
                let prev = usages@.take(i as int);
                let next = usages@.take(i + 1);
                assert(next == prev.push(usages@[i as int]));
                assert forall|u: GpuTextureUsage|
                    next.contains(u) == (prev.contains(u) || u == usages@[i as int]) by {
                    if next.contains(u) {
                        let k = choose|k: int| 0 <= k < next.len() && next[k] == u;
                        if k < prev.len() {
                            assert(prev[k] == u);
                        }
                    }
                    if prev.contains(u) {
                        let k = choose|k: int| 0 <= k < prev.len() && prev[k] == u;
                        assert(next[k] == u);
                    }
                    if u == usages@[i as int] {
                        assert(next[i as int] == u);
                    }
                }
            }
            set = set.with(usages[i]);
            i = i + 1;
        }
        proof {
            assert(usages@.take(usages@.len() as int) == usages@);
        }
        set
    }

    #[verifier::when_used_as_spec(spec_contains)]
    pub fn contains(self, usage: GpuTextureUsage) -> (r: bool)
        ensures
            r == self.contains(usage),
    {
        match usage {
            GpuTextureUsage::CopySource => self.copy_source,
            GpuTextureUsage::CopyDestination => self.copy_destination,
            GpuTextureUsage::Sampled => self.sampled,
            GpuTextureUsage::StorageRead => self.storage_read,
            GpuTextureUsage::StorageWrite => self.storage_write,
            GpuTextureUsage::ColorAttachment => self.color_attachment,
            GpuTextureUsage::DepthStencilAttachment => self.depth_stencil_attachment,
            GpuTextureUsage::TransientAttachment => self.transient_attachment,
        }
    }
}

/// Texture dimensionality.
#[derive(Debug, Clone, Copy, PartialEq, Eq, Structural, PartialOrd, Ord, Hash)]
pub enum GpuTextureDimension {
    D1,
    D2,
    D3,
}

/// Texture-view dimensionality.
#[derive(Debug, Clone, Copy, PartialEq, Eq, Structural, PartialOrd, Ord, Hash)]
pub enum GpuTextureViewDimension {
    D1,
    D2,
    D2Array,
    Cube,
    CubeArray,
    D3,
}

/// Why a texture, view, subresource range, or texture access was refused.
#[derive(Debug, Clone, Copy, PartialEq, Eq, Structural, PartialOrd, Ord, Hash)]
pub enum GpuTextureAccessError {
    EmptyExtent,
    InvalidMipLevelCount,
    InvalidSampleCount,
    EmptySubresourceRange,
    SubresourceRangeOutOfBounds,
    AspectNotPresent,
    ViewFormatIncompatible,
    MissingColorAttachmentUsage,
    MissingDepthStencilAttachmentUsage,
    AttachmentAspectMismatch,
    MultisampledResolveDestination,
    TransientAttachmentNotClearDiscard,
}

/// Whether texture-descriptor fields are well formed.
pub open spec fn spec_texture_descriptor_valid(
    width: u32,
    height: u32,
    depth_or_array_layers: u32,
    mip_level_count: u32,
    sample_count: u32,
) -> bool {
    &&& width >= 1 && height >= 1 && depth_or_array_layers >= 1
    &&& 1 <= mip_level_count <= 32
    &&& sample_count >= 1
}

/// Description of one texture.
#[derive(Debug, Clone, PartialEq, Eq, PartialOrd, Ord, Hash)]
pub struct GpuTextureDescriptor {
    label: String,
    format: GpuTextureFormat,
    dimension: GpuTextureDimension,
    width: u32,
    height: u32,
    depth_or_array_layers: u32,
    mip_level_count: u32,
    sample_count: u32,
    usages: GpuTextureUsages,
}

impl GpuTextureDescriptor {
    pub closed spec fn spec_label(&self) -> String {
        self.label
    }

    pub closed spec fn spec_format(&self) -> GpuTextureFormat {
        self.format
    }

    pub closed spec fn spec_dimension(&self) -> GpuTextureDimension {
        self.dimension
    }

    pub closed spec fn spec_width(&self) -> u32 {
        self.width
    }

    pub closed spec fn spec_height(&self) -> u32 {
        self.height
    }

    pub closed spec fn spec_depth_or_array_layers(&self) -> u32 {
        self.depth_or_array_layers
    }

    pub closed spec fn spec_mip_level_count(&self) -> u32 {
        self.mip_level_count
    }

    pub closed spec fn spec_sample_count(&self) -> u32 {
        self.sample_count
    }

    pub closed spec fn spec_usages(&self) -> GpuTextureUsages {
        self.usages
    }

    /// Layers addressable by views: one for a 3D texture, else the array-layer count.
    pub open spec fn spec_array_layer_count(&self) -> u32 {
        if self.spec_dimension() == GpuTextureDimension::D3 {
            1
        } else {
            self.spec_depth_or_array_layers()
        }
    }

    /// Accepts nonempty extents, 1 through 32 mip levels, and a nonzero sample count.
    pub fn new(
        label: String,
        format: GpuTextureFormat,
        dimension: GpuTextureDimension,
        width: u32,
        height: u32,
        depth_or_array_layers: u32,
        mip_level_count: u32,
        sample_count: u32,
        usages: GpuTextureUsages,
    ) -> (r: Result<Self, GpuTextureAccessError>)
        ensures
            r is Ok <==> spec_texture_descriptor_valid(
                width,
                height,
                depth_or_array_layers,
                mip_level_count,
                sample_count,
            ),
            r matches Ok(d) ==> {
                &&& d.spec_label() == label
                &&& d.spec_format() == format
                &&& d.spec_dimension() == dimension
                &&& d.spec_width() == width
                &&& d.spec_height() == height
                &&& d.spec_depth_or_array_layers() == depth_or_array_layers
                &&& d.spec_mip_level_count() == mip_level_count
                &&& d.spec_sample_count() == sample_count
                &&& d.spec_usages() == usages
            },
            r matches Err(e) ==> e == if width == 0 || height == 0 || depth_or_array_layers == 0 {
                GpuTextureAccessError::EmptyExtent
            } else if mip_level_count == 0 || mip_level_count > 32 {
                GpuTextureAccessError::InvalidMipLevelCount
            } else {
                GpuTextureAccessError::InvalidSampleCount
            },
    {
        if width == 0 || height == 0 || depth_or_array_layers == 0 {
            return Err(GpuTextureAccessError::EmptyExtent);
        }
        if mip_level_count == 0 || mip_level_count > 32 {
            return Err(GpuTextureAccessError::InvalidMipLevelCount);
        }
        if sample_count == 0 {
            return Err(GpuTextureAccessError::InvalidSampleCount);
        }
        Ok(
            GpuTextureDescriptor {
                label,
                format,
                dimension,
                width,
                height,
                depth_or_array_layers,
                mip_level_count,
                sample_count,
                usages,
            },
        )
    }

    /// The label diagnostics name this texture by.
    pub fn label(&self) -> (r: &str)
        ensures
            r@ == self.spec_label()@,
    {
        self.label.as_str()
    }

    /// An owned copy of this texture's label.
    pub(crate) fn owned_label(&self) -> (r: String)
        ensures
            r == self.spec_label(),
    {
        self.label.clone()
    }

    pub fn format(&self) -> (r: GpuTextureFormat)
        ensures
            r == self.spec_format(),
    {
        self.format
    }

    pub fn dimension(&self) -> (r: GpuTextureDimension)
        ensures
            r == self.spec_dimension(),
    {
        self.dimension
    }

    pub fn width(&self) -> (r: u32)
        ensures
            r == self.spec_width(),
    {
        self.width
    }

    pub fn height(&self) -> (r: u32)
        ensures
            r == self.spec_height(),
    {
        self.height
    }

    pub fn depth_or_array_layers(&self) -> (r: u32)
        ensures
            r == self.spec_depth_or_array_layers(),
    {
        self.depth_or_array_layers
    }

    pub fn mip_level_count(&self) -> (r: u32)
        ensures
            r == self.spec_mip_level_count(),
    {
        self.mip_level_count
    }

    pub fn sample_count(&self) -> (r: u32)
        ensures
            r == self.spec_sample_count(),
    {
        self.sample_count
    }

    pub fn usages(&self) -> (r: GpuTextureUsages)
        ensures
            r == self.spec_usages(),
    {
        self.usages
    }

    /// Layers addressable by views of this texture.
    pub fn array_layer_count(&self) -> (r: u32)
        ensures
            r == self.spec_array_layer_count(),
    {
        match self.dimension {
            GpuTextureDimension::D3 => 1,
            _ => self.depth_or_array_layers,
        }
    }
}

/// One allocated texture: its identity and its checked descriptor.
#[derive(Debug, Clone, PartialEq, Eq, PartialOrd, Ord, Hash)]
pub struct GpuTextureHandle {
    id: GpuResourceId,
    descriptor: GpuTextureDescriptor,
}

impl GpuTextureHandle {
    pub closed spec fn spec_id(&self) -> GpuResourceId {
        self.id
    }

    pub closed spec fn spec_descriptor(&self) -> GpuTextureDescriptor {
        self.descriptor
    }

    pub fn new(id: GpuResourceId, descriptor: GpuTextureDescriptor) -> (r: Self)
        ensures
            r.spec_id() == id,
            r.spec_descriptor() == descriptor,
    {
        GpuTextureHandle { id, descriptor }
    }

    pub fn id(&self) -> (r: GpuResourceId)
        ensures
            r == self.spec_id(),
    {
        self.id
    }

    /// The identity reported in diagnostics about this texture.
    pub fn diagnostic_identity(&self) -> (r: GpuResourceId)
        ensures
            r == self.spec_id(),
    {
        self.id
    }

    pub fn descriptor(&self) -> (r: &GpuTextureDescriptor)
        ensures
            *r == self.spec_descriptor(),
    {
        &self.descriptor
    }
}

/// Whether a subresource range is nonempty and representable.
pub open spec fn spec_subresource_range_valid(
    base_mip_level: u32,
    mip_level_count: u32,
    base_array_layer: u32,
    array_layer_count: u32,
) -> bool {
    &&& mip_level_count >= 1 && array_layer_count >= 1
    &&& base_mip_level + mip_level_count <= u32::MAX
    &&& base_array_layer + array_layer_count <= u32::MAX
}

/// A contiguous block of mip levels and array layers of one aspect.
#[derive(Debug, Clone, Copy, PartialEq, Eq, Structural, PartialOrd, Ord, Hash)]
pub struct GpuTextureSubresourceRange {
    base_mip_level: u32,
    mip_level_count: u32,
    base_array_layer: u32,
    array_layer_count: u32,
    aspect: GpuTextureAspect,
}

impl GpuTextureSubresourceRange {
    pub closed spec fn spec_base_mip_level(self) -> u32 {
        self.base_mip_level
    }

    pub closed spec fn spec_mip_level_count(self) -> u32 {
        self.mip_level_count
    }

    pub closed spec fn spec_base_array_layer(self) -> u32 {
        self.base_array_layer
    }

    pub closed spec fn spec_array_layer_count(self) -> u32 {
        self.array_layer_count
    }

    pub closed spec fn spec_aspect(self) -> GpuTextureAspect {
        self.aspect
    }

    #[verifier::type_invariant]
    spec fn range_is_valid(self) -> bool {
        spec_subresource_range_valid(
            self.base_mip_level,
            self.mip_level_count,
            self.base_array_layer,
            self.array_layer_count,
        )
    }

    /// Accepts nonempty ranges whose ends are representable.
    pub fn new(
        base_mip_level: u32,
        mip_level_count: u32,
        base_array_layer: u32,
        array_layer_count: u32,
        aspect: GpuTextureAspect,
    ) -> (r: Result<Self, GpuTextureAccessError>)
        ensures
            r is Ok <==> spec_subresource_range_valid(
                base_mip_level,
                mip_level_count,
                base_array_layer,
                array_layer_count,
            ),
            r matches Ok(range) ==> range.base_mip_level() == base_mip_level
                && range.mip_level_count() == mip_level_count && range.base_array_layer()
                == base_array_layer && range.array_layer_count() == array_layer_count
                && range.aspect() == aspect,
            r matches Err(e) ==> e == GpuTextureAccessError::EmptySubresourceRange,
    {
        if mip_level_count == 0 || array_layer_count == 0 || base_mip_level > u32::MAX
            - mip_level_count || base_array_layer > u32::MAX - array_layer_count {
            return Err(GpuTextureAccessError::EmptySubresourceRange);
        }
        Ok(
            GpuTextureSubresourceRange {
                base_mip_level,
                mip_level_count,
                base_array_layer,
                array_layer_count,
                aspect,
            },
        )
    }

    /// The same levels and layers of another aspect.
    pub closed spec fn spec_with_aspect(self, aspect: GpuTextureAspect) -> Self {
        GpuTextureSubresourceRange { aspect, ..self }
    }

    /// The same levels and layers of another aspect.
    pub fn with_aspect(self, aspect: GpuTextureAspect) -> (r: Self)
        ensures
            r == self.spec_with_aspect(aspect),
            r.base_mip_level() == self.base_mip_level(),
            r.mip_level_count() == self.mip_level_count(),
            r.base_array_layer() == self.base_array_layer(),
            r.array_layer_count() == self.array_layer_count(),
            r.aspect() == aspect,
    {
        proof {
            use_type_invariant(&self);
        }
        GpuTextureSubresourceRange { aspect, ..self }
    }

    #[verifier::when_used_as_spec(spec_base_mip_level)]
    pub fn base_mip_level(self) -> (r: u32)
        ensures
            r == self.base_mip_level(),
    {
        self.base_mip_level
    }

    #[verifier::when_used_as_spec(spec_mip_level_count)]
    pub fn mip_level_count(self) -> (r: u32)
        ensures
            r == self.mip_level_count(),
            r >= 1,
            self.base_mip_level() + r <= u32::MAX,
    {
        proof {
            use_type_invariant(&self);
        }
        self.mip_level_count
    }

    #[verifier::when_used_as_spec(spec_base_array_layer)]
    pub fn base_array_layer(self) -> (r: u32)
        ensures
            r == self.base_array_layer(),
    {
        self.base_array_layer
    }

    #[verifier::when_used_as_spec(spec_array_layer_count)]
    pub fn array_layer_count(self) -> (r: u32)
        ensures
            r == self.array_layer_count(),
            r >= 1,
            self.base_array_layer() + r <= u32::MAX,
    {
        proof {
            use_type_invariant(&self);
        }
        self.array_layer_count
    }

    #[verifier::when_used_as_spec(spec_aspect)]
    pub fn aspect(self) -> (r: GpuTextureAspect)
        ensures
            r == self.aspect(),
    {
        self.aspect
    }
}

/// Whether `range` lies inside the mip levels and array layers of `texture`.
pub open spec fn spec_range_within_texture(
    texture: GpuTextureDescriptor,
    range: GpuTextureSubresourceRange,
) -> bool {
    &&& range.base_mip_level() + range.mip_level_count() <= texture.spec_mip_level_count()
    &&& range.base_array_layer() + range.array_layer_count() <= texture.spec_array_layer_count()
}

/// The first reason a view of `texture` would be refused, if any.
pub open spec fn spec_view_error(
    texture: GpuTextureDescriptor,
    format: Option<GpuTextureFormat>,
    subresources: GpuTextureSubresourceRange,
) -> Option<GpuTextureAccessError> {
    if !spec_range_within_texture(texture, subresources) {
        Some(GpuTextureAccessError::SubresourceRangeOutOfBounds)
    } else if format matches Some(f) && !spec_view_compatible(texture.spec_format(), f) {
        Some(GpuTextureAccessError::ViewFormatIncompatible)
    } else if !spec_supports_aspect(texture.spec_format(), subresources.aspect()) {
        Some(GpuTextureAccessError::AspectNotPresent)
    } else {
        None
    }
}

fn range_within_texture(texture: &GpuTextureDescriptor, range: GpuTextureSubresourceRange) -> (r:
    bool)
    ensures
        r == spec_range_within_texture(*texture, range),
{
    let mip_end = range.base_mip_level() + range.mip_level_count();
    let layer_end = range.base_array_layer() + range.array_layer_count();
    mip_end <= texture.mip_level_count() && layer_end <= texture.array_layer_count()
}

/// Description of one view of a texture.
#[derive(Debug, Clone, PartialEq, Eq, PartialOrd, Ord, Hash)]
pub struct GpuTextureViewDescriptor {
    label: String,
    texture: GpuTextureHandle,
    format: Option<GpuTextureFormat>,
    dimension: GpuTextureViewDimension,
    subresources: GpuTextureSubresourceRange,
}

impl GpuTextureViewDescriptor {
    pub closed spec fn spec_label(&self) -> String {
        self.label
    }

    pub closed spec fn spec_texture(&self) -> GpuTextureHandle {
        self.texture
    }

    pub closed spec fn spec_format(&self) -> Option<GpuTextureFormat> {
        self.format
    }

    pub closed spec fn spec_dimension(&self) -> GpuTextureViewDimension {
        self.dimension
    }

    pub closed spec fn spec_subresources(&self) -> GpuTextureSubresourceRange {
        self.subresources
    }

    /// Accepts a range inside the texture, an optional view-compatible format, and an aspect
    /// the texture has.
    pub fn new(
        label: String,
        texture: GpuTextureHandle,
        format: Option<GpuTextureFormat>,
        dimension: GpuTextureViewDimension,
        subresources: GpuTextureSubresourceRange,
    ) -> (r: Result<Self, GpuTextureAccessError>)
        ensures
            r is Ok <==> spec_view_error(texture.spec_descriptor(), format, subresources) is None,
            r matches Ok(view) ==> view.spec_label() == label && view.spec_texture() == texture
                && view.spec_format() == format
                && view.spec_dimension() == dimension && view.spec_subresources() == subresources,
            r matches Err(e) ==> spec_view_error(texture.spec_descriptor(), format, subresources)
                == Some(e),
    {
        let descriptor = texture.descriptor();
        if !range_within_texture(descriptor, subresources) {
            return Err(GpuTextureAccessError::SubresourceRangeOutOfBounds);
        }
        if let Some(f) = format {
            if !texture_format::view_compatible(descriptor.format(), f) {
                return Err(GpuTextureAccessError::ViewFormatIncompatible);
            }
        }
        if !texture_format::supports_aspect(descriptor.format(), subresources.aspect()) {
            return Err(GpuTextureAccessError::AspectNotPresent);
        }
        Ok(GpuTextureViewDescriptor { label, texture, format, dimension, subresources })
    }

    /// The label diagnostics name this view by.
    pub fn label(&self) -> (r: &str)
        ensures
            r@ == self.spec_label()@,
    {
        self.label.as_str()
    }

    /// An owned copy of this view's label.
    pub(crate) fn owned_label(&self) -> (r: String)
        ensures
            r == self.spec_label(),
    {
        self.label.clone()
    }

    pub fn texture(&self) -> (r: &GpuTextureHandle)
        ensures
            *r == self.spec_texture(),
    {
        &self.texture
    }

    pub fn format(&self) -> (r: Option<GpuTextureFormat>)
        ensures
            r == self.spec_format(),
    {
        self.format
    }

    pub fn dimension(&self) -> (r: GpuTextureViewDimension)
        ensures
            r == self.spec_dimension(),
    {
        self.dimension
    }

    pub fn subresources(&self) -> (r: GpuTextureSubresourceRange)
        ensures
            r == self.spec_subresources(),
    {
        self.subresources
    }
}

/// One allocated texture view: its identity and its checked descriptor.
#[derive(Debug, Clone, PartialEq, Eq, PartialOrd, Ord, Hash)]
pub struct GpuTextureViewHandle {
    id: GpuResourceId,
    descriptor: GpuTextureViewDescriptor,
}

impl GpuTextureViewHandle {
    pub closed spec fn spec_id(&self) -> GpuResourceId {
        self.id
    }

    pub closed spec fn spec_descriptor(&self) -> GpuTextureViewDescriptor {
        self.descriptor
    }

    pub fn new(id: GpuResourceId, descriptor: GpuTextureViewDescriptor) -> (r: Self)
        ensures
            r.spec_id() == id,
            r.spec_descriptor() == descriptor,
    {
        GpuTextureViewHandle { id, descriptor }
    }

    pub fn id(&self) -> (r: GpuResourceId)
        ensures
            r == self.spec_id(),
    {
        self.id
    }

    /// The identity reported in diagnostics about this view.
    pub fn diagnostic_identity(&self) -> (r: GpuResourceId)
        ensures
            r == self.spec_id(),
    {
        self.id
    }

    pub fn descriptor(&self) -> (r: &GpuTextureViewDescriptor)
        ensures
            *r == self.spec_descriptor(),
    {
        &self.descriptor
    }
}

/// The format a view reads and writes: its own format, else its texture's.
pub open spec fn spec_effective_view_format(view: GpuTextureViewHandle) -> GpuTextureFormat {
    match view.spec_descriptor().spec_format() {
        Some(f) => f,
        None => view.spec_descriptor().spec_texture().spec_descriptor().spec_format(),
    }
}

/// The format a view reads and writes: its own format, else its texture's.
pub fn effective_view_format(view: &GpuTextureViewHandle) -> (r: GpuTextureFormat)
    ensures
        r == spec_effective_view_format(*view),
{
    match view.descriptor().format() {
        Some(f) => f,
        None => view.descriptor().texture().descriptor().format(),
    }
}

/// A copy of a texture descriptor.
pub(crate) fn copy_texture_descriptor(d: &GpuTextureDescriptor) -> (r: GpuTextureDescriptor)
    ensures
        r == *d,
{
    GpuTextureDescriptor {
        label: d.label.clone(),
        format: d.format,
        dimension: d.dimension,
        width: d.width,
        height: d.height,
        depth_or_array_layers: d.depth_or_array_layers,
        mip_level_count: d.mip_level_count,
        sample_count: d.sample_count,
        usages: d.usages,
    }
}

/// A copy of a texture handle.
pub(crate) fn copy_texture(t: &GpuTextureHandle) -> (r: GpuTextureHandle)
    ensures
        r == *t,
{
    GpuTextureHandle { id: t.id, descriptor: copy_texture_descriptor(&t.descriptor) }
}

/// A copy of a texture-view handle.
pub(crate) fn copy_view(v: &GpuTextureViewHandle) -> (r: GpuTextureViewHandle)
    ensures
        r == *v,
{
    GpuTextureViewHandle {
        id: v.id,
        descriptor: GpuTextureViewDescriptor {
            label: v.descriptor.label.clone(),
            texture: copy_texture(&v.descriptor.texture),
            format: v.descriptor.format,
            dimension: v.descriptor.dimension,
            subresources: v.descriptor.subresources,
        },
    }
}

/// Whether two handles name the same texture: the same identity and equal descriptors, labels
/// compared by their text.
pub open spec fn spec_same_texture(a: GpuTextureHandle, b: GpuTextureHandle) -> bool {
    let x = a.spec_descriptor();
    let y = b.spec_descriptor();
    &&& a.spec_id() == b.spec_id()
    &&& x.spec_label()@ == y.spec_label()@
    &&& x.spec_format() == y.spec_format()
    &&& x.spec_dimension() == y.spec_dimension()
    &&& x.spec_width() == y.spec_width()
    &&& x.spec_height() == y.spec_height()
    &&& x.spec_depth_or_array_layers() == y.spec_depth_or_array_layers()
    &&& x.spec_mip_level_count() == y.spec_mip_level_count()
    &&& x.spec_sample_count() == y.spec_sample_count()
    &&& x.spec_usages() == y.spec_usages()
}

/// Whether two handles name the same texture.
pub fn same_texture(a: &GpuTextureHandle, b: &GpuTextureHandle) -> (r: bool)
    ensures
        r == spec_same_texture(*a, *b),
{
    let x = &a.descriptor;
    let y = &b.descriptor;
    a.id == b.id && x.label == y.label && x.format == y.format && x.dimension == y.dimension
        && x.width == y.width && x.height == y.height && x.depth_or_array_layers
        == y.depth_or_array_layers && x.mip_level_count == y.mip_level_count && x.sample_count
        == y.sample_count && x.usages == y.usages
}

/// Load behavior of an attachment aspect.
#[derive(Debug, Clone, Copy, PartialEq, Eq, Structural, PartialOrd, Ord, Hash)]
pub enum GpuAttachmentLoadKind {
    Load,
    Clear,
}

/// Store behavior of an attachment aspect.
#[derive(Debug, Clone, Copy, PartialEq, Eq, Structural, PartialOrd, Ord, Hash)]
pub enum GpuAttachmentStore {
    Store,
    Discard,
}

/// Whether a depth or stencil aspect is written by a render pass.
#[derive(Debug, Clone, Copy, PartialEq, Eq, Structural, PartialOrd, Ord, Hash)]
pub enum GpuDepthStencilAccess {
    ReadOnly,
    ReadWrite,
}

/// The resource a texture access addresses.
#[derive(Debug, Clone, PartialEq, Eq, PartialOrd, Ord, Hash)]
pub enum GpuTextureAccessResource {
    Texture(GpuTextureHandle),
    TextureView(GpuTextureViewHandle),
}

/// How a texture is accessed.
#[derive(Debug, Clone, Copy, PartialEq, Eq, Structural, PartialOrd, Ord, Hash)]
pub enum GpuTextureAccessKind {
    ColorAttachment { load_kind: GpuAttachmentLoadKind, store: GpuAttachmentStore },
    MultisampleResolveDestination,
    DepthStencilAttachment {
        access: GpuDepthStencilAccess,
        load_kind: GpuAttachmentLoadKind,
        store: GpuAttachmentStore,
    },
}

/// The texture a resource addresses.
pub open spec fn spec_resource_texture(resource: GpuTextureAccessResource) -> GpuTextureHandle {
    match resource {
        GpuTextureAccessResource::Texture(texture) => texture,
        GpuTextureAccessResource::TextureView(view) => view.spec_descriptor().spec_texture(),
    }
}

/// The format an access of `resource` reads and writes.
pub open spec fn spec_effective_texture_format(resource: GpuTextureAccessResource) -> GpuTextureFormat {
    match resource {
        GpuTextureAccessResource::Texture(texture) => texture.spec_descriptor().spec_format(),
        GpuTextureAccessResource::TextureView(view) => spec_effective_view_format(view),
    }
}

/// The explicit aspect an access of `aspect` on `format` addresses: `All` resolves to the
/// format's only aspect when it has exactly one.
pub open spec fn spec_normalized_aspect(format: GpuTextureFormat, aspect: GpuTextureAspect) -> GpuTextureAspect {
    if aspect == GpuTextureAspect::All {
        match spec_canonical_copy_aspect(format, GpuTextureAspect::All) {
            Some(a) => a,
            None => GpuTextureAspect::All,
        }
    } else {
        aspect
    }
}

/// Whether an access kind is an attachment whose contents are cleared on load and discarded on store.
pub open spec fn spec_clear_discard_kind(kind: GpuTextureAccessKind) -> bool {
    match kind {
        GpuTextureAccessKind::ColorAttachment { load_kind, store } => load_kind
            == GpuAttachmentLoadKind::Clear && store == GpuAttachmentStore::Discard,
        GpuTextureAccessKind::MultisampleResolveDestination => false,
        GpuTextureAccessKind::DepthStencilAttachment { access, load_kind, store } => access
            == GpuDepthStencilAccess::ReadWrite && load_kind == GpuAttachmentLoadKind::Clear && store
            == GpuAttachmentStore::Discard,
    }
}

/// The usage a texture needs for an access of `kind`: color attachments and resolve
/// destinations need the color-attachment usage, depth/stencil attachments their own.
pub open spec fn spec_attachment_usage(kind: GpuTextureAccessKind) -> GpuTextureUsage {
    match kind {
        GpuTextureAccessKind::DepthStencilAttachment { .. } => GpuTextureUsage::DepthStencilAttachment,
        _ => GpuTextureUsage::ColorAttachment,
    }
}

/// The refusal for a texture that lacks the usage an access of `kind` needs.
pub open spec fn spec_missing_usage_error(kind: GpuTextureAccessKind) -> GpuTextureAccessError {
    match kind {
        GpuTextureAccessKind::DepthStencilAttachment { .. } => GpuTextureAccessError::MissingDepthStencilAttachmentUsage,
        _ => GpuTextureAccessError::MissingColorAttachmentUsage,
    }
}

/// The first reason an access of `range` of `resource` as `kind` is refused, if any.
pub open spec fn spec_texture_access_error(
    resource: GpuTextureAccessResource,
    range: GpuTextureSubresourceRange,
    kind: GpuTextureAccessKind,
) -> Option<GpuTextureAccessError> {
    let texture = spec_resource_texture(resource).spec_descriptor();
    let format = spec_effective_texture_format(resource);
    let aspect = spec_normalized_aspect(format, range.aspect());
    if !spec_range_within_texture(texture, range) {
        Some(GpuTextureAccessError::SubresourceRangeOutOfBounds)
    } else if !spec_supports_aspect(format, aspect) {
        Some(GpuTextureAccessError::AspectNotPresent)
    } else if !texture.spec_usages().contains(spec_attachment_usage(kind)) {
        Some(spec_missing_usage_error(kind))
    } else if match kind {
        GpuTextureAccessKind::ColorAttachment { .. } => aspect != GpuTextureAspect::Color,
        GpuTextureAccessKind::MultisampleResolveDestination => aspect != GpuTextureAspect::Color,
        GpuTextureAccessKind::DepthStencilAttachment { .. } => aspect != GpuTextureAspect::DepthOnly
            && aspect != GpuTextureAspect::StencilOnly,
    } {
        Some(GpuTextureAccessError::AttachmentAspectMismatch)
    } else if kind == GpuTextureAccessKind::MultisampleResolveDestination
        && texture.spec_sample_count() != 1 {
        Some(GpuTextureAccessError::MultisampledResolveDestination)
    } else if texture.spec_usages().contains(GpuTextureUsage::TransientAttachment)
        && !spec_clear_discard_kind(kind) {
        Some(GpuTextureAccessError::TransientAttachmentNotClearDiscard)
    } else {
        None
    }
}

/// A checked access of a texture subresource range for one purpose.
#[derive(Debug, Clone, PartialEq, Eq, PartialOrd, Ord, Hash)]
pub struct GpuTextureAccess {
    resource: GpuTextureAccessResource,
    subresources: GpuTextureSubresourceRange,
    kind: GpuTextureAccessKind,
}

impl GpuTextureAccess {
    pub closed spec fn spec_resource(&self) -> GpuTextureAccessResource {
        self.resource
    }

    pub closed spec fn spec_subresources(&self) -> GpuTextureSubresourceRange {
        self.subresources
    }

    pub closed spec fn spec_kind(&self) -> GpuTextureAccessKind {
        self.kind
    }

    /// What a checked access records: the resource, the kind, and the range with its
    /// aspect normalized.
    pub proof fn lemma_checked_fields(
        resource: GpuTextureAccessResource,
        range: GpuTextureSubresourceRange,
        kind: GpuTextureAccessKind,
    )
        ensures
            ({
                let a = GpuTextureAccess::spec_checked(resource, range, kind);
                &&& a.spec_resource() == resource
                &&& a.spec_kind() == kind
                &&& a.spec_subresources().base_mip_level() == range.base_mip_level()
                &&& a.spec_subresources().mip_level_count() == range.mip_level_count()
                &&& a.spec_subresources().base_array_layer() == range.base_array_layer()
                &&& a.spec_subresources().array_layer_count() == range.array_layer_count()
                &&& a.spec_subresources().aspect() == spec_normalized_aspect(
                    spec_effective_texture_format(resource),
                    range.aspect(),
                )
            }),
    {
    }

    /// The access that checking `range` of `resource` as `kind` records.
    pub closed spec fn spec_checked(
        resource: GpuTextureAccessResource,
        range: GpuTextureSubresourceRange,
        kind: GpuTextureAccessKind,
    ) -> GpuTextureAccess {
        GpuTextureAccess {
            resource,
            subresources: GpuTextureSubresourceRange {
                aspect: spec_normalized_aspect(spec_effective_texture_format(resource), range.aspect),
                ..range
            },
            kind,
        }
    }

    /// Checks an access; the recorded range carries the normalized explicit aspect.
    pub fn new(
        resource: GpuTextureAccessResource,
        range: GpuTextureSubresourceRange,
        kind: GpuTextureAccessKind,
    ) -> (r: Result<Self, GpuTextureAccessError>)
        ensures
            r is Ok <==> spec_texture_access_error(resource, range, kind) is None,
            r matches Ok(access) ==> {
                &&& access == GpuTextureAccess::spec_checked(resource, range, kind)
                &&& access.spec_resource() == resource
                &&& access.spec_kind() == kind
                &&& access.spec_subresources().base_mip_level() == range.base_mip_level()
                &&& access.spec_subresources().mip_level_count() == range.mip_level_count()
                &&& access.spec_subresources().base_array_layer() == range.base_array_layer()
                &&& access.spec_subresources().array_layer_count() == range.array_layer_count()
                &&& access.spec_subresources().aspect() == spec_normalized_aspect(
                    spec_effective_texture_format(resource),
                    range.aspect(),
                )
            },
            r matches Err(e) ==> spec_texture_access_error(resource, range, kind) == Some(e),
    {
        let texture = match &resource {
            GpuTextureAccessResource::Texture(texture) => texture,
            GpuTextureAccessResource::TextureView(view) => view.descriptor().texture(),
        };
        let format = effective_texture_format(&resource);
        let descriptor = texture.descriptor();
        let aspect = match range.aspect() {
            GpuTextureAspect::All => match texture_format::canonical_copy_aspect(
                format,
                GpuTextureAspect::All,
            ) {
                Some(a) => a,
                None => GpuTextureAspect::All,
            },
            other => other,
        };
        if !range_within_texture(descriptor, range) {
            return Err(GpuTextureAccessError::SubresourceRangeOutOfBounds);
        }
        if !texture_format::supports_aspect(format, aspect) {
            return Err(GpuTextureAccessError::AspectNotPresent);
        }
        let usages = descriptor.usages();
        let (required, missing) = match kind {
            GpuTextureAccessKind::DepthStencilAttachment { .. } => (
                GpuTextureUsage::DepthStencilAttachment,
                GpuTextureAccessError::MissingDepthStencilAttachmentUsage,
            ),
            _ => (GpuTextureUsage::ColorAttachment, GpuTextureAccessError::MissingColorAttachmentUsage),
        };
        if !usages.contains(required) {
            return Err(missing);
        }
        let aspect_mismatch = match kind {
            GpuTextureAccessKind::ColorAttachment { .. } => aspect != GpuTextureAspect::Color,
            GpuTextureAccessKind::MultisampleResolveDestination => aspect != GpuTextureAspect::Color,
            GpuTextureAccessKind::DepthStencilAttachment { .. } => aspect
                != GpuTextureAspect::DepthOnly && aspect != GpuTextureAspect::StencilOnly,
        };
        if aspect_mismatch {
            return Err(GpuTextureAccessError::AttachmentAspectMismatch);
        }
        let resolve = match kind {
            GpuTextureAccessKind::MultisampleResolveDestination => true,
            _ => false,
        };
        if resolve && descriptor.sample_count() != 1 {
            return Err(GpuTextureAccessError::MultisampledResolveDestination);
        }
        let clear_discard = match kind {
            GpuTextureAccessKind::ColorAttachment { load_kind, store } => load_kind
                == GpuAttachmentLoadKind::Clear && store == GpuAttachmentStore::Discard,
            GpuTextureAccessKind::MultisampleResolveDestination => false,
            GpuTextureAccessKind::DepthStencilAttachment { access, load_kind, store } => access
                == GpuDepthStencilAccess::ReadWrite && load_kind == GpuAttachmentLoadKind::Clear
                && store == GpuAttachmentStore::Discard,
        };
        if usages.contains(GpuTextureUsage::TransientAttachment) && !clear_discard {
            return Err(GpuTextureAccessError::TransientAttachmentNotClearDiscard);
        }
        let subresources = range.with_aspect(aspect);
        Ok(GpuTextureAccess { resource, subresources, kind })
    }

    pub fn resource(&self) -> (r: &GpuTextureAccessResource)
        ensures
            *r == self.spec_resource(),
    {
        &self.resource
    }

    pub fn kind(&self) -> (r: GpuTextureAccessKind)
        ensures
            r == self.spec_kind(),
    {
        self.kind
    }

    /// The texture this access addresses, through a view or directly.
    pub fn normalized_texture(&self) -> (r: &GpuTextureHandle)
        ensures
            *r == spec_resource_texture(self.spec_resource()),
    {
        match &self.resource {
            GpuTextureAccessResource::Texture(texture) => texture,
            GpuTextureAccessResource::TextureView(view) => view.descriptor().texture(),
        }
    }

    /// The accessed range, with the aspect normalized.
    pub fn normalized_subresources(&self) -> (r: GpuTextureSubresourceRange)
        ensures
            r == self.spec_subresources(),
    {
        self.subresources
    }
}

/// The format an access of `resource` reads and writes.
pub fn effective_texture_format(resource: &GpuTextureAccessResource) -> (r: GpuTextureFormat)
    ensures
        r == spec_effective_texture_format(*resource),
{
    match resource {
        GpuTextureAccessResource::Texture(texture) => texture.descriptor().format(),
        GpuTextureAccessResource::TextureView(view) => effective_view_format(view),
    }
}

/// Width and height of mip `level` of a texture: each halved per level, never below one.
pub open spec fn spec_mip_extent(texture: GpuTextureDescriptor, level: u32) -> (u32, u32) {
    if level >= 32 {
        (1, 1)
    } else {
        let w = texture.spec_width() >> level;
        let h = texture.spec_height() >> level;
        (if w == 0 { 1 } else { w }, if h == 0 { 1 } else { h })
    }
}

/// Width and height of mip `level` of `texture`.
pub fn mip_extent(texture: &GpuTextureHandle, level: u32) -> (r: (u32, u32))
    ensures
        r == spec_mip_extent(texture.spec_descriptor(), level),
{
    if level >= 32 {
        return (1, 1);
    }
    let descriptor = texture.descriptor();
    let w = descriptor.width() >> level;
    let h = descriptor.height() >> level;
    (if w == 0 { 1 } else { w }, if h == 0 { 1 } else { h })
}

} // verus!
