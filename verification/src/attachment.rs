//! Render-pass attachments: clear values, load/store state, resolve targets, and the color
//! and depth/stencil attachments built from checked texture views.

use vstd::prelude::*;
use crate::diagnostics::{GpuWorkOperationCause, GpuWorkOperationError, GpuWorkOperationSubject};
use crate::texture_format::{self, format_semantics, GpuTextureAspect};
use crate::texture_resource::{
    effective_texture_format, effective_view_format, mip_extent, spec_effective_texture_format,
    spec_effective_view_format, spec_mip_extent, spec_resource_texture,
    spec_texture_access_error, copy_view, same_texture, spec_same_texture, GpuAttachmentLoadKind, GpuAttachmentStore,
    GpuDepthStencilAccess, GpuResourceId, GpuTextureAccess, GpuTextureAccessKind,
    GpuTextureAccessResource, GpuTextureSubresourceRange, GpuTextureUsage,
    GpuTextureViewDimension, GpuTextureViewHandle,
};

verus! {

/// Whether IEEE-754 binary64 bits encode a finite value (exponent not all ones).
pub open spec fn spec_f64_bits_finite(bits: u64) -> bool {
    (bits >> 52u64) & 0x7ffu64 != 0x7ffu64
}

/// Binary64 bits with negative zero folded into positive zero.
pub open spec fn spec_canonical_f64_bits(bits: u64) -> u64 {
    if bits == 0x8000_0000_0000_0000u64 {
        0
    } else {
        bits
    }
}

/// Whether IEEE-754 binary32 bits encode a finite value (exponent not all ones).
pub open spec fn spec_f32_bits_finite(bits: u32) -> bool {
    (bits >> 23u32) & 0xffu32 != 0xffu32
}

/// Binary32 bits with negative zero folded into positive zero.
pub open spec fn spec_canonical_f32_bits(bits: u32) -> u32 {
    if bits == 0x8000_0000u32 {
        0
    } else {
        bits
    }
}

/// A finite RGBA clear color, kept as canonical binary64 bits so that equal colors compare equal.
#[derive(Debug, Clone, Copy, PartialEq, Eq, PartialOrd, Ord, Hash)]
pub struct GpuColorClearValue {
    bits: [u64; 4],
}

impl GpuColorClearValue {
    pub closed spec fn spec_bits(self) -> Seq<u64> {
        self.bits@
    }

    /// Accepts four finite binary64 components (red, green, blue, alpha), folding negative zero
    /// into positive zero; refuses the first non-finite component.
    pub fn from_bits(components: [u64; 4]) -> (r: Result<Self, GpuWorkOperationError>)
        ensures
            r is Ok <==> forall|i: int| 0 <= i < 4 ==> spec_f64_bits_finite(#[trigger] components@[i]),
            r matches Ok(value) ==> value.spec_bits().len() == 4 && forall|i: int|
                0 <= i < 4 ==> #[trigger] value.spec_bits()[i] == spec_canonical_f64_bits(
                    components@[i],
                ),
            r matches Err(e) ==> e.cause() == GpuWorkOperationCause::NonFiniteClearValue && (exists|
                i: int,
            |
                0 <= i < 4 && !spec_f64_bits_finite(#[trigger] components@[i]) && e.spec_subject()
                    == GpuWorkOperationSubject::ColorClearComponent(i as usize) && forall|j: int|
                    0 <= j < i ==> spec_f64_bits_finite(#[trigger] components@[j])),
    {
        let mut bits: [u64; 4] = [0, 0, 0, 0];
        let mut index: usize = 0;
        while index < 4
            invariant
                0 <= index <= 4,
                bits@.len() == 4,
                forall|j: int| 0 <= j < index ==> spec_f64_bits_finite(#[trigger] components@[j]),
                forall|j: int|
                    0 <= j < index ==> #[trigger] bits@[j] == spec_canonical_f64_bits(components@[j]),
            decreases 4 - index,
        {
            let component = components[index];
            if (component >> 52u64) & 0x7ffu64 == 0x7ffu64 {
                return Err(
                    GpuWorkOperationError::invalid(
                        "construct GPU color clear value",
                        GpuWorkOperationSubject::ColorClearComponent(index),
                        None,
                        GpuWorkOperationCause::NonFiniteClearValue,
                        "provide four finite components",
                    ),
                );
            }
            let canonical = if component == 0x8000_0000_0000_0000u64 {
                0
            } else {
                component
            };
            bits[index] = canonical;
            index = index + 1;
        }
        Ok(GpuColorClearValue { bits })
    }

    /// The canonical binary64 bits of red, green, blue, and alpha.
    pub fn bits(self) -> (r: [u64; 4])
        ensures
            r@ == self.spec_bits(),
    {
        self.bits
    }
}

/// A finite depth clear value in 0.0 through 1.0, kept as canonical binary32 bits.
#[derive(Debug, Clone, Copy, PartialEq, Eq, Structural, PartialOrd, Ord, Hash)]
pub struct GpuDepthClearValue {
    bits: u32,
}

impl GpuDepthClearValue {
    pub closed spec fn spec_bits(self) -> u32 {
        self.bits
    }

    /// Accepts the binary32 bits of a finite depth in 0.0 through 1.0. With negative zero
    /// folded into positive zero, those are exactly the bit patterns at most `0x3F80_0000`
    /// (the encoding of 1.0): every other pattern is negative or above one.
    pub fn from_bits(bits: u32) -> (r: Result<Self, GpuWorkOperationError>)
        ensures
            r is Ok <==> spec_f32_bits_finite(bits) && spec_canonical_f32_bits(bits)
                <= 0x3F80_0000,
            r matches Ok(value) ==> value.bits() == spec_canonical_f32_bits(bits),
            r matches Err(e) ==> e.spec_subject() == GpuWorkOperationSubject::DepthClearValue && e.cause()
                == if !spec_f32_bits_finite(bits) {
                GpuWorkOperationCause::NonFiniteClearValue
            } else {
                GpuWorkOperationCause::OutOfRangeClearValue
            },
    {
        if (bits >> 23u32) & 0xffu32 == 0xffu32 {
            return Err(
                GpuWorkOperationError::invalid(
                    "construct GPU depth clear value",
                    GpuWorkOperationSubject::DepthClearValue,
                    None,
                    GpuWorkOperationCause::NonFiniteClearValue,
                    "provide a finite normalized depth value",
                ),
            );
        }
        let canonical = if bits == 0x8000_0000u32 {
            0
        } else {
            bits
        };
        if canonical > 0x3F80_0000u32 {
            return Err(
                GpuWorkOperationError::invalid(
                    "construct GPU depth clear value",
                    GpuWorkOperationSubject::DepthClearValue,
                    None,
                    GpuWorkOperationCause::OutOfRangeClearValue,
                    "keep depth inside 0.0 through 1.0",
                ),
            );
        }
        Ok(GpuDepthClearValue { bits: canonical })
    }

    /// The canonical binary32 bits of the depth.
    #[verifier::when_used_as_spec(spec_bits)]
    pub fn bits(self) -> (r: u32)
        ensures
            r == self.bits(),
    {
        self.bits
    }
}

/// Both zeros give the same clear value, and every accepted value round-trips its bits.
pub proof fn lemma_clear_values_fold_signed_zero(bits: u32)
    ensures
        spec_canonical_f32_bits(0x8000_0000u32) == spec_canonical_f32_bits(0u32),
        spec_canonical_f64_bits(0x8000_0000_0000_0000u64) == spec_canonical_f64_bits(0u64),
        spec_canonical_f32_bits(spec_canonical_f32_bits(bits)) == spec_canonical_f32_bits(bits),
        spec_f32_bits_finite(0u32) && spec_f32_bits_finite(0x8000_0000u32),
        spec_f32_bits_finite(0x3F80_0000u32),
{
    assert(((0u32 >> 23u32) & 0xffu32) != 0xffu32) by (bit_vector);
    assert(((0x8000_0000u32 >> 23u32) & 0xffu32) != 0xffu32) by (bit_vector);
    assert(((0x3F80_0000u32 >> 23u32) & 0xffu32) != 0xffu32) by (bit_vector);
}

/// How a color attachment starts a pass.
#[derive(Debug, Clone, Copy, PartialEq, Eq, PartialOrd, Ord, Hash)]
pub enum GpuColorAttachmentLoad {
    Load,
    Clear(GpuColorClearValue),
}

impl GpuColorAttachmentLoad {
    pub open spec fn spec_kind(self) -> GpuAttachmentLoadKind {
        match self {
            GpuColorAttachmentLoad::Load => GpuAttachmentLoadKind::Load,
            GpuColorAttachmentLoad::Clear(_) => GpuAttachmentLoadKind::Clear,
        }
    }

    #[verifier::when_used_as_spec(spec_kind)]
    pub fn kind(self) -> (r: GpuAttachmentLoadKind)
        ensures
            r == self.kind(),
    {
        match self {
            GpuColorAttachmentLoad::Load => GpuAttachmentLoadKind::Load,
            GpuColorAttachmentLoad::Clear(_) => GpuAttachmentLoadKind::Clear,
        }
    }
}

/// How a depth aspect starts a pass.
#[derive(Debug, Clone, Copy, PartialEq, Eq, Structural, PartialOrd, Ord, Hash)]
pub enum GpuDepthAttachmentLoad {
    Load,
    Clear(GpuDepthClearValue),
}

impl GpuDepthAttachmentLoad {
    pub open spec fn spec_kind(self) -> GpuAttachmentLoadKind {
        match self {
            GpuDepthAttachmentLoad::Load => GpuAttachmentLoadKind::Load,
            GpuDepthAttachmentLoad::Clear(_) => GpuAttachmentLoadKind::Clear,
        }
    }

    #[verifier::when_used_as_spec(spec_kind)]
    pub fn kind(self) -> (r: GpuAttachmentLoadKind)
        ensures
            r == self.kind(),
    {
        match self {
            GpuDepthAttachmentLoad::Load => GpuAttachmentLoadKind::Load,
            GpuDepthAttachmentLoad::Clear(_) => GpuAttachmentLoadKind::Clear,
        }
    }
}

/// A Stencil8 clear value.
#[derive(Debug, Clone, Copy, PartialEq, Eq, Structural, PartialOrd, Ord, Hash)]
pub struct GpuStencilClearValue(u8);

impl GpuStencilClearValue {
    pub closed spec fn spec_value(self) -> u32 {
        self.0 as u32
    }

    /// Accepts exactly the values 0 through 255.
    pub fn new(value: u32) -> (r: Result<Self, GpuWorkOperationError>)
        ensures
            r is Ok <==> value <= 255,
            r matches Ok(v) ==> v.value() == value,
            r matches Err(e) ==> e.cause() == GpuWorkOperationCause::OutOfRangeClearValue
                && e.spec_subject() == GpuWorkOperationSubject::StencilClearValue(value),
    {
        if value > 255 {
            return Err(
                GpuWorkOperationError::invalid(
                    "construct GPU stencil clear value",
                    GpuWorkOperationSubject::StencilClearValue(value),
                    None,
                    GpuWorkOperationCause::OutOfRangeClearValue,
                    "keep the Stencil8 clear value inside 0 through 255",
                ),
            );
        }
        Ok(GpuStencilClearValue(value as u8))
    }

    #[verifier::when_used_as_spec(spec_value)]
    pub fn value(self) -> (r: u32)
        ensures
            r == self.value(),
            r <= 255,
    {
        self.0 as u32
    }
}

/// How a stencil aspect starts a pass.
#[derive(Debug, Clone, Copy, PartialEq, Eq, Structural, PartialOrd, Ord, Hash)]
pub enum GpuStencilAttachmentLoad {
    Load,
    Clear(GpuStencilClearValue),
}

impl GpuStencilAttachmentLoad {
    pub open spec fn spec_kind(self) -> GpuAttachmentLoadKind {
        match self {
            GpuStencilAttachmentLoad::Load => GpuAttachmentLoadKind::Load,
            GpuStencilAttachmentLoad::Clear(_) => GpuAttachmentLoadKind::Clear,
        }
    }

    #[verifier::when_used_as_spec(spec_kind)]
    pub fn kind(self) -> (r: GpuAttachmentLoadKind)
        ensures
            r == self.kind(),
    {
        match self {
            GpuStencilAttachmentLoad::Load => GpuAttachmentLoadKind::Load,
            GpuStencilAttachmentLoad::Clear(_) => GpuAttachmentLoadKind::Clear,
        }
    }
}

/// Whether an aspect's access, load, and store agree: a read-only aspect must load and store.
pub open spec fn spec_read_only_state_valid(
    access: GpuDepthStencilAccess,
    load_kind: GpuAttachmentLoadKind,
    store: GpuAttachmentStore,
) -> bool {
    access == GpuDepthStencilAccess::ReadOnly ==> (load_kind == GpuAttachmentLoadKind::Load
        && store == GpuAttachmentStore::Store)
}

/// Refuses a read-only aspect that would clear or discard.
pub fn validate_read_only_attachment_state(
    operation: &'static str,
    subject: GpuWorkOperationSubject,
    access: GpuDepthStencilAccess,
    load_kind: GpuAttachmentLoadKind,
    store: GpuAttachmentStore,
) -> (r: Result<(), GpuWorkOperationError>)
    ensures
        r is Ok <==> spec_read_only_state_valid(access, load_kind, store),
        r matches Err(e) ==> e.operation() == operation && e.spec_subject() == subject && e.cause()
            == GpuWorkOperationCause::InvalidAttachment,
{
    if access == GpuDepthStencilAccess::ReadOnly && (load_kind != GpuAttachmentLoadKind::Load
        || store != GpuAttachmentStore::Store) {
        return Err(
            GpuWorkOperationError::invalid(
                operation,
                subject,
                None,
                GpuWorkOperationCause::InvalidAttachment,
                "use canonical Load + Store semantics for a read-only aspect, or select read-write access before clearing or discarding",
            ),
        );
    }
    Ok(())
}

/// Access, load, and store of the depth aspect of a depth/stencil attachment.
#[derive(Debug, Clone, Copy, PartialEq, Eq, Structural, PartialOrd, Ord, Hash)]
pub struct GpuDepthAttachmentState {
    access: GpuDepthStencilAccess,
    load: GpuDepthAttachmentLoad,
    store: GpuAttachmentStore,
}

impl GpuDepthAttachmentState {
    pub closed spec fn spec_access(self) -> GpuDepthStencilAccess {
        self.access
    }

    pub closed spec fn spec_load(self) -> GpuDepthAttachmentLoad {
        self.load
    }

    pub closed spec fn spec_store(self) -> GpuAttachmentStore {
        self.store
    }

    /// Accepts any state but a read-only aspect that clears or discards.
    pub fn new(
        access: GpuDepthStencilAccess,
        load: GpuDepthAttachmentLoad,
        store: GpuAttachmentStore,
    ) -> (r: Result<Self, GpuWorkOperationError>)
        ensures
            r is Ok <==> spec_read_only_state_valid(access, load.kind(), store),
            r matches Ok(state) ==> state.access() == access && state.load() == load
                && state.store() == store,
            r matches Err(e) ==> e.cause() == GpuWorkOperationCause::InvalidAttachment
                && e.spec_subject() == GpuWorkOperationSubject::DepthAspect,
    {
        validate_read_only_attachment_state(
            "construct GPU depth attachment state",
            GpuWorkOperationSubject::DepthAspect,
            access,
            load.kind(),
            store,
        )?;
        Ok(GpuDepthAttachmentState { access, load, store })
    }

    #[verifier::when_used_as_spec(spec_access)]
    pub fn access(self) -> (r: GpuDepthStencilAccess)
        ensures
            r == self.access(),
    {
        self.access
    }

    #[verifier::when_used_as_spec(spec_load)]
    pub fn load(self) -> (r: GpuDepthAttachmentLoad)
        ensures
            r == self.load(),
    {
        self.load
    }

    #[verifier::when_used_as_spec(spec_store)]
    pub fn store(self) -> (r: GpuAttachmentStore)
        ensures
            r == self.store(),
    {
        self.store
    }
}

/// Access, load, and store of the stencil aspect of a depth/stencil attachment.
#[derive(Debug, Clone, Copy, PartialEq, Eq, Structural, PartialOrd, Ord, Hash)]
pub struct GpuStencilAttachmentState {
    access: GpuDepthStencilAccess,
    load: GpuStencilAttachmentLoad,
    store: GpuAttachmentStore,
}

impl GpuStencilAttachmentState {
    pub closed spec fn spec_access(self) -> GpuDepthStencilAccess {
        self.access
    }

    pub closed spec fn spec_load(self) -> GpuStencilAttachmentLoad {
        self.load
    }

    pub closed spec fn spec_store(self) -> GpuAttachmentStore {
        self.store
    }

    /// Accepts any state but a read-only aspect that clears or discards.
    pub fn new(
        access: GpuDepthStencilAccess,
        load: GpuStencilAttachmentLoad,
        store: GpuAttachmentStore,
    ) -> (r: Result<Self, GpuWorkOperationError>)
        ensures
            r is Ok <==> spec_read_only_state_valid(access, load.kind(), store),
            r matches Ok(state) ==> state.access() == access && state.load() == load
                && state.store() == store,
            r matches Err(e) ==> e.cause() == GpuWorkOperationCause::InvalidAttachment
                && e.spec_subject() == GpuWorkOperationSubject::StencilAspect,
    {
        validate_read_only_attachment_state(
            "construct GPU stencil attachment state",
            GpuWorkOperationSubject::StencilAspect,
            access,
            load.kind(),
            store,
        )?;
        Ok(GpuStencilAttachmentState { access, load, store })
    }

    #[verifier::when_used_as_spec(spec_access)]
    pub fn access(self) -> (r: GpuDepthStencilAccess)
        ensures
            r == self.access(),
    {
        self.access
    }

    #[verifier::when_used_as_spec(spec_load)]
    pub fn load(self) -> (r: GpuStencilAttachmentLoad)
        ensures
            r == self.load(),
    {
        self.load
    }

    #[verifier::when_used_as_spec(spec_store)]
    pub fn store(self) -> (r: GpuAttachmentStore)
        ensures
            r == self.store(),
    {
        self.store
    }
}

/// Every accepted read-only aspect loads and stores; only read-write aspects clear or discard.
pub proof fn lemma_read_only_aspects_preserve_contents(
    depth: GpuDepthAttachmentState,
    stencil: GpuStencilAttachmentState,
)
    requires
        spec_read_only_state_valid(depth.access(), depth.load().kind(), depth.store()),
        spec_read_only_state_valid(stencil.access(), stencil.load().kind(), stencil.store()),
    ensures
        depth.access() == GpuDepthStencilAccess::ReadOnly ==> depth.load()
            == GpuDepthAttachmentLoad::Load && depth.store() == GpuAttachmentStore::Store,
        stencil.access() == GpuDepthStencilAccess::ReadOnly ==> stencil.load()
            == GpuStencilAttachmentLoad::Load && stencil.store() == GpuAttachmentStore::Store,
{
}

/// The access one aspect of a depth/stencil attachment makes.
#[derive(Debug, Clone, Copy, PartialEq, Eq, Structural)]
pub struct GpuAttachmentAspectAccessSpec {
    pub aspect: GpuTextureAspect,
    pub access: GpuDepthStencilAccess,
    pub load_kind: GpuAttachmentLoadKind,
    pub store: GpuAttachmentStore,
}

/// The per-aspect accesses of a depth/stencil attachment: depth first, then stencil.
pub open spec fn spec_attachment_aspect_access_specs(
    depth: Option<GpuDepthAttachmentState>,
    stencil: Option<GpuStencilAttachmentState>,
) -> Seq<GpuAttachmentAspectAccessSpec> {
    let d = match depth {
        Some(state) => seq![
            GpuAttachmentAspectAccessSpec {
                aspect: GpuTextureAspect::DepthOnly,
                access: state.access(),
                load_kind: state.load().kind(),
                store: state.store(),
            },
        ],
        None => Seq::empty(),
    };
    let s = match stencil {
        Some(state) => seq![
            GpuAttachmentAspectAccessSpec {
                aspect: GpuTextureAspect::StencilOnly,
                access: state.access(),
                load_kind: state.load().kind(),
                store: state.store(),
            },
        ],
        None => Seq::empty(),
    };
    d + s
}

/// The per-aspect accesses of a depth/stencil attachment: depth first, then stencil.
pub fn attachment_aspect_access_specs(
    depth: Option<GpuDepthAttachmentState>,
    stencil: Option<GpuStencilAttachmentState>,
) -> (r: Vec<GpuAttachmentAspectAccessSpec>)
    ensures
        r@ == spec_attachment_aspect_access_specs(depth, stencil),
{
    let mut specs: Vec<GpuAttachmentAspectAccessSpec> = Vec::new();
    if let Some(state) = depth {
        specs.push(
            GpuAttachmentAspectAccessSpec {
                aspect: GpuTextureAspect::DepthOnly,
                access: state.access(),
                load_kind: state.load().kind(),
                store: state.store(),
            },
        );
    }
    if let Some(state) = stencil {
        specs.push(
            GpuAttachmentAspectAccessSpec {
                aspect: GpuTextureAspect::StencilOnly,
                access: state.access(),
                load_kind: state.load().kind(),
                store: state.store(),
            },
        );
    }
    proof {
        let d = match depth {
            Some(state) => seq![
                GpuAttachmentAspectAccessSpec {
                    aspect: GpuTextureAspect::DepthOnly,
                    access: state.access(),
                    load_kind: state.load().kind(),
                    store: state.store(),
                },
            ],
            None => Seq::<GpuAttachmentAspectAccessSpec>::empty(),
        };
        let s = match stencil {
            Some(state) => seq![
                GpuAttachmentAspectAccessSpec {
                    aspect: GpuTextureAspect::StencilOnly,
                    access: state.access(),
                    load_kind: state.load().kind(),
                    store: state.store(),
                },
            ],
            None => Seq::<GpuAttachmentAspectAccessSpec>::empty(),
        };
        assert(specs@ =~= d + s);
    }
    specs
}

/// Whether a view can back an attachment: one 2D subresource (one mip, one layer).
pub open spec fn spec_attachment_view_valid(view: GpuTextureViewHandle) -> bool {
    let d = view.spec_descriptor();
    &&& d.spec_dimension() == GpuTextureViewDimension::D2
    &&& d.spec_subresources().mip_level_count() == 1
    &&& d.spec_subresources().array_layer_count() == 1
}

/// Whether a refusal of `view`'s shape names the view by its label and identity.
pub open spec fn spec_view_refusal_names_the_view(
    e: GpuWorkOperationError,
    view: GpuTextureViewHandle,
) -> bool {
    &&& e.spec_subject() == GpuWorkOperationSubject::Labeled(view.spec_descriptor().spec_label())
    &&& e.identity() == Some(view.spec_id())
}

/// Whether a refusal of an access of `view` names the view's texture by its label, with no
/// identity.
pub open spec fn spec_access_refusal_names_the_texture(
    e: GpuWorkOperationError,
    view: GpuTextureViewHandle,
) -> bool {
    &&& e.spec_subject() == GpuWorkOperationSubject::Labeled(
        view.spec_descriptor().spec_texture().spec_descriptor().spec_label(),
    )
    &&& e.identity() == None::<GpuResourceId>
}

/// Whether a refusal about `view`'s texture names it by its label and identity.
pub open spec fn spec_texture_refusal_names_the_texture(
    e: GpuWorkOperationError,
    view: GpuTextureViewHandle,
) -> bool {
    let texture = view.spec_descriptor().spec_texture();
    &&& e.spec_subject() == GpuWorkOperationSubject::Labeled(texture.spec_descriptor().spec_label())
    &&& e.identity() == Some(texture.spec_id())
}

/// Refuses a view that is not one explicit 2D subresource.
pub fn validate_attachment_view(
    view: &GpuTextureViewHandle,
    operation: &'static str,
    cause: GpuWorkOperationCause,
    correction: &'static str,
) -> (r: Result<(), GpuWorkOperationError>)
    ensures
        r is Ok <==> spec_attachment_view_valid(*view),
        r matches Err(e) ==> {
            &&& e.operation() == operation
            &&& e.cause() == cause
            &&& e.correction() == correction
            &&& e.spec_subject() == GpuWorkOperationSubject::Labeled(view.spec_descriptor().spec_label())
            &&& e.identity() == Some(view.spec_id())
        },
{
    let descriptor = view.descriptor();
    let subresources = descriptor.subresources();
    if descriptor.dimension() != GpuTextureViewDimension::D2 || subresources.mip_level_count() != 1
        || subresources.array_layer_count() != 1 {
        return Err(
            GpuWorkOperationError::invalid(
                operation,
                GpuWorkOperationSubject::Labeled(descriptor.owned_label()),
                Some(view.diagnostic_identity()),
                cause,
                correction,
            ),
        );
    }
    Ok(())
}

/// A single-sampled color view that receives a multisample resolve.
#[derive(Debug, Clone, PartialEq, Eq, PartialOrd, Ord, Hash)]
pub struct GpuMultisampleResolveTarget {
    destination: GpuTextureViewHandle,
    access: GpuTextureAccess,
}

impl GpuMultisampleResolveTarget {
    pub closed spec fn spec_destination(self) -> GpuTextureViewHandle {
        self.destination
    }

    pub closed spec fn spec_access(self) -> GpuTextureAccess {
        self.access
    }

    /// Accepts one explicit 2D subresource of a single-sampled render-attachment color view.
    pub fn new(destination: GpuTextureViewHandle) -> (r: Result<Self, GpuWorkOperationError>)
        ensures
            r is Ok <==> spec_attachment_view_valid(destination) && spec_texture_access_error(
                GpuTextureAccessResource::TextureView(destination),
                destination.spec_descriptor().spec_subresources(),
                GpuTextureAccessKind::MultisampleResolveDestination,
            ) is None,
            r matches Ok(target) ==> {
                &&& target.spec_destination() == destination
                &&& target.spec_access() == GpuTextureAccess::spec_checked(
                    GpuTextureAccessResource::TextureView(destination),
                    destination.spec_descriptor().spec_subresources(),
                    GpuTextureAccessKind::MultisampleResolveDestination,
                )
            },
            r matches Err(e) ==> {
                &&& e.cause() == GpuWorkOperationCause::InvalidMultisampleResolve
                &&& !spec_attachment_view_valid(destination) ==> spec_view_refusal_names_the_view(
                    e,
                    destination,
                )
                &&& spec_attachment_view_valid(destination) ==> {
                    &&& e.access_error() == spec_texture_access_error(
                        GpuTextureAccessResource::TextureView(destination),
                        destination.spec_descriptor().spec_subresources(),
                        GpuTextureAccessKind::MultisampleResolveDestination,
                    )
                    &&& spec_access_refusal_names_the_texture(e, destination)
                }
            },
    {
        validate_attachment_view(
            &destination,
            "construct GPU multisample resolve target",
            GpuWorkOperationCause::InvalidMultisampleResolve,
            "use one explicit 2D texture view selecting exactly one mip and one array layer",
        )?;
        let access = match GpuTextureAccess::new(
            GpuTextureAccessResource::TextureView(copy_view(&destination)),
            destination.descriptor().subresources(),
            GpuTextureAccessKind::MultisampleResolveDestination,
        ) {
            Ok(access) => access,
            Err(source) => {
                return Err(
                    GpuWorkOperationError::from_access(
                        "construct GPU multisample resolve target",
                        GpuWorkOperationSubject::Labeled(
                            destination.descriptor().texture().descriptor().owned_label(),
                        ),
                        GpuWorkOperationCause::InvalidMultisampleResolve,
                        "provide a checked single-sampled color-attachment destination view",
                        source,
                    ),
                );
            },
        };
        Ok(GpuMultisampleResolveTarget { destination, access })
    }

    pub fn destination(&self) -> (r: &GpuTextureViewHandle)
        ensures
            *r == self.spec_destination(),
    {
        &self.destination
    }

    pub fn subresources(&self) -> (r: GpuTextureSubresourceRange)
        ensures
            r == self.spec_access().spec_subresources(),
    {
        self.access.normalized_subresources()
    }

    pub fn access(&self) -> (r: &GpuTextureAccess)
        ensures
            *r == self.spec_access(),
    {
        &self.access
    }
}

/// Whether a color attachment's access may resolve into `destination`: a multisampled
/// source, a single-sampled destination of the same effective format and dimension,
/// equally shaped color subresources of equal mip extent, and two distinct textures.
pub open spec fn spec_multisample_resolve_valid(
    source: GpuTextureAccess,
    destination: GpuMultisampleResolveTarget,
) -> bool {
    let source_texture = spec_resource_texture(source.spec_resource());
    let destination_texture = spec_resource_texture(destination.spec_access().spec_resource());
    let source_range = source.spec_subresources();
    let destination_range = destination.spec_access().spec_subresources();
    let same_shape = source_range.mip_level_count() == destination_range.mip_level_count()
        && source_range.array_layer_count() == destination_range.array_layer_count()
        && source_range.aspect() == GpuTextureAspect::Color && destination_range.aspect()
        == GpuTextureAspect::Color && spec_mip_extent(
        source_texture.spec_descriptor(),
        source_range.base_mip_level(),
    ) == spec_mip_extent(
        destination_texture.spec_descriptor(),
        destination_range.base_mip_level(),
    );
    &&& source_texture.spec_descriptor().spec_sample_count() > 1
    &&& destination_texture.spec_descriptor().spec_sample_count() == 1
    &&& spec_effective_texture_format(source.spec_resource()) == spec_effective_view_format(
        destination.spec_destination(),
    )
    &&& source_texture.spec_descriptor().spec_dimension()
        == destination_texture.spec_descriptor().spec_dimension()
    &&& same_shape
    &&& !spec_same_texture(source_texture, destination_texture)
}

/// Refuses a resolve that does not satisfy [`spec_multisample_resolve_valid`].
pub fn validate_multisample_resolve(
    source: &GpuTextureAccess,
    destination: &GpuMultisampleResolveTarget,
) -> (r: Result<(), GpuWorkOperationError>)
    ensures
        r is Ok <==> spec_multisample_resolve_valid(*source, *destination),
        r matches Err(e) ==> e.cause() == GpuWorkOperationCause::InvalidMultisampleResolve
            && e.spec_subject() == GpuWorkOperationSubject::Labeled(
            spec_resource_texture(source.spec_resource()).spec_descriptor().spec_label(),
        ) && e.identity() == Some(spec_resource_texture(source.spec_resource()).spec_id()),
{
    let source_texture = source.normalized_texture();
    let destination_texture = destination.access().normalized_texture();
    let source_range = source.normalized_subresources();
    let destination_range = destination.access().normalized_subresources();
    let source_extent = mip_extent(source_texture, source_range.base_mip_level());
    let destination_extent = mip_extent(destination_texture, destination_range.base_mip_level());
    let same_shape = source_range.mip_level_count() == destination_range.mip_level_count()
        && source_range.array_layer_count() == destination_range.array_layer_count()
        && source_range.aspect() == GpuTextureAspect::Color && destination_range.aspect()
        == GpuTextureAspect::Color && source_extent.0 == destination_extent.0 && source_extent.1
        == destination_extent.1;
    let valid = source_texture.descriptor().sample_count() > 1
        && destination_texture.descriptor().sample_count() == 1 && effective_texture_format(
        source.resource(),
    ) == effective_view_format(destination.destination())
        && source_texture.descriptor().dimension() == destination_texture.descriptor().dimension()
        && same_shape && !same_texture(source_texture, destination_texture);
    if !valid {
        return Err(
            GpuWorkOperationError::invalid(
                "validate GPU multisample resolve",
                GpuWorkOperationSubject::Labeled(source_texture.descriptor().owned_label()),
                Some(source_texture.diagnostic_identity()),
                GpuWorkOperationCause::InvalidMultisampleResolve,
                "use non-aliasing multisampled source and single-sampled destination attachment views with matching color format, extent, and subresources",
            ),
        );
    }
    Ok(())
}

/// A resolve passes validation only from a multisampled source into a single-sampled, distinct
/// destination of the same effective format and dimension, between color subresources of the
/// same shape.
pub proof fn lemma_valid_resolve_joins_equal_formats(
    source: GpuTextureAccess,
    destination: GpuMultisampleResolveTarget,
)
    ensures
        spec_multisample_resolve_valid(source, destination) ==> {
            let source_texture = spec_resource_texture(source.spec_resource());
            let destination_texture = spec_resource_texture(destination.spec_access().spec_resource());
            &&& spec_effective_texture_format(source.spec_resource()) == spec_effective_view_format(
                destination.spec_destination(),
            )
            &&& source_texture.spec_descriptor().spec_sample_count() > 1
            &&& destination_texture.spec_descriptor().spec_sample_count() == 1
            &&& source_texture.spec_descriptor().spec_dimension()
                == destination_texture.spec_descriptor().spec_dimension()
            &&& !spec_same_texture(source_texture, destination_texture)
            &&& source.spec_subresources().aspect() == GpuTextureAspect::Color
            &&& destination.spec_access().spec_subresources().aspect() == GpuTextureAspect::Color
            &&& source.spec_subresources().mip_level_count()
                == destination.spec_access().spec_subresources().mip_level_count()
            &&& source.spec_subresources().array_layer_count()
                == destination.spec_access().spec_subresources().array_layer_count()
        },
{
}

/// A color attachment of a render pass.
#[derive(Debug, Clone, PartialEq, Eq, PartialOrd, Ord, Hash)]
pub struct GpuRenderColorAttachment {
    source: GpuTextureViewHandle,
    load: GpuColorAttachmentLoad,
    store: GpuAttachmentStore,
    resolve_target: Option<GpuMultisampleResolveTarget>,
    source_access: GpuTextureAccess,
}

/// The access a color attachment of `source` with `load` and `store` makes.
pub open spec fn spec_color_attachment_kind(
    load: GpuColorAttachmentLoad,
    store: GpuAttachmentStore,
) -> GpuTextureAccessKind {
    GpuTextureAccessKind::ColorAttachment { load_kind: load.kind(), store }
}

/// Whether a color attachment of `source` is accepted: one explicit 2D subresource, a valid
/// color-attachment access, and, with a resolve target, a valid resolve from that access.
pub open spec fn spec_color_attachment_accepted(
    source: GpuTextureViewHandle,
    load: GpuColorAttachmentLoad,
    store: GpuAttachmentStore,
    resolve_target: Option<GpuMultisampleResolveTarget>,
) -> bool {
    let resource = GpuTextureAccessResource::TextureView(source);
    let range = source.spec_descriptor().spec_subresources();
    let kind = spec_color_attachment_kind(load, store);
    &&& spec_attachment_view_valid(source)
    &&& spec_texture_access_error(resource, range, kind) is None
    &&& resolve_target matches Some(resolve) ==> spec_multisample_resolve_valid(
        GpuTextureAccess::spec_checked(resource, range, kind),
        resolve,
    )
}

/// A color attachment with a resolve target is accepted only for a genuine multisample
/// resolve: the source view and the resolve destination view read and write the same effective
/// format, the source texture is multisampled and the destination texture single-sampled, both
/// have the same dimension, and they are distinct textures.
pub proof fn lemma_accepted_resolve_is_a_genuine_multisample_resolve(
    source: GpuTextureViewHandle,
    load: GpuColorAttachmentLoad,
    store: GpuAttachmentStore,
    resolve: GpuMultisampleResolveTarget,
)
    ensures
        spec_color_attachment_accepted(source, load, store, Some(resolve)) ==> {
            let source_texture = source.spec_descriptor().spec_texture();
            let destination_texture = spec_resource_texture(resolve.spec_access().spec_resource());
            &&& spec_effective_view_format(source) == spec_effective_view_format(
                resolve.spec_destination(),
            )
            &&& source_texture.spec_descriptor().spec_sample_count() > 1
            &&& destination_texture.spec_descriptor().spec_sample_count() == 1
            &&& source_texture.spec_descriptor().spec_dimension()
                == destination_texture.spec_descriptor().spec_dimension()
            &&& !spec_same_texture(source_texture, destination_texture)
        },
{
    GpuTextureAccess::lemma_checked_fields(
        GpuTextureAccessResource::TextureView(source),
        source.spec_descriptor().spec_subresources(),
        spec_color_attachment_kind(load, store),
    );
}

impl GpuRenderColorAttachment {
    pub closed spec fn spec_source(self) -> GpuTextureViewHandle {
        self.source
    }

    pub closed spec fn spec_load(self) -> GpuColorAttachmentLoad {
        self.load
    }

    pub closed spec fn spec_store(self) -> GpuAttachmentStore {
        self.store
    }

    pub closed spec fn spec_resolve_target(self) -> Option<GpuMultisampleResolveTarget> {
        self.resolve_target
    }

    pub closed spec fn spec_source_access(self) -> GpuTextureAccess {
        self.source_access
    }

    /// Accepts one explicit 2D subresource of a render-attachment color view, and a resolve
    /// target only when the resolve is valid for that source.
    pub fn new(
        source: GpuTextureViewHandle,
        load: GpuColorAttachmentLoad,
        store: GpuAttachmentStore,
        resolve_target: Option<GpuMultisampleResolveTarget>,
    ) -> (r: Result<Self, GpuWorkOperationError>)
        ensures
            r is Ok <==> spec_color_attachment_accepted(source, load, store, resolve_target),
            r matches Ok(attachment) ==> {
                &&& attachment.spec_source() == source
                &&& attachment.spec_load() == load
                &&& attachment.spec_store() == store
                &&& attachment.spec_resolve_target() == resolve_target
                &&& attachment.spec_source_access() == GpuTextureAccess::spec_checked(
                    GpuTextureAccessResource::TextureView(source),
                    source.spec_descriptor().spec_subresources(),
                    spec_color_attachment_kind(load, store),
                )
                &&& resolve_target matches Some(resolve) ==> spec_multisample_resolve_valid(
                    attachment.spec_source_access(),
                    resolve,
                )
            },
            r matches Err(e) ==> {
                let error = spec_texture_access_error(
                    GpuTextureAccessResource::TextureView(source),
                    source.spec_descriptor().spec_subresources(),
                    spec_color_attachment_kind(load, store),
                );
                if !spec_attachment_view_valid(source) {
                    &&& e.cause() == GpuWorkOperationCause::InvalidAttachment
                    &&& spec_view_refusal_names_the_view(e, source)
                } else if error is Some {
                    &&& e.cause() == GpuWorkOperationCause::InvalidAttachment
                    &&& e.access_error() == error
                    &&& spec_access_refusal_names_the_texture(e, source)
                } else {
                    &&& e.cause() == GpuWorkOperationCause::InvalidMultisampleResolve
                    &&& spec_texture_refusal_names_the_texture(e, source)
                }
            },
    {
        validate_attachment_view(
            &source,
            "construct GPU render color attachment",
            GpuWorkOperationCause::InvalidAttachment,
            "use one explicit 2D color-attachment view selecting exactly one mip and one array layer",
        )?;
        let source_access = match GpuTextureAccess::new(
            GpuTextureAccessResource::TextureView(copy_view(&source)),
            source.descriptor().subresources(),
            GpuTextureAccessKind::ColorAttachment { load_kind: load.kind(), store },
        ) {
            Ok(access) => access,
            Err(error) => {
                return Err(
                    GpuWorkOperationError::from_access(
                        "construct GPU render color attachment",
                        GpuWorkOperationSubject::Labeled(
                            source.descriptor().texture().descriptor().owned_label(),
                        ),
                        GpuWorkOperationCause::InvalidAttachment,
                        "provide a checked color attachment view with compatible descriptor usage",
                        error,
                    ),
                );
            },
        };
        if let Some(resolve) = &resolve_target {
            validate_multisample_resolve(&source_access, resolve)?;
        }
        Ok(GpuRenderColorAttachment { source, load, store, resolve_target, source_access })
    }

    pub fn source(&self) -> (r: &GpuTextureViewHandle)
        ensures
            *r == self.spec_source(),
    {
        &self.source
    }

    pub fn subresources(&self) -> (r: GpuTextureSubresourceRange)
        ensures
            r == self.spec_source_access().spec_subresources(),
    {
        self.source_access.normalized_subresources()
    }

    pub fn load(&self) -> (r: GpuColorAttachmentLoad)
        ensures
            r == self.spec_load(),
    {
        self.load
    }

    pub fn store(&self) -> (r: GpuAttachmentStore)
        ensures
            r == self.spec_store(),
    {
        self.store
    }

    pub fn resolve_target(&self) -> (r: Option<&GpuMultisampleResolveTarget>)
        ensures
            r matches Some(t) ==> self.spec_resolve_target() == Some(*t),
            r is None <==> self.spec_resolve_target() is None,
    {
        self.resolve_target.as_ref()
    }

    pub fn source_access(&self) -> (r: &GpuTextureAccess)
        ensures
            *r == self.spec_source_access(),
    {
        &self.source_access
    }
}

/// The access one depth or stencil aspect state makes.
pub open spec fn spec_depth_stencil_kind(
    access: GpuDepthStencilAccess,
    load_kind: GpuAttachmentLoadKind,
    store: GpuAttachmentStore,
) -> GpuTextureAccessKind {
    GpuTextureAccessKind::DepthStencilAttachment { access, load_kind, store }
}

/// The checked access of one aspect of a depth/stencil attachment view.
pub open spec fn spec_aspect_access(
    source: GpuTextureViewHandle,
    aspect: GpuTextureAspect,
    kind: GpuTextureAccessKind,
) -> GpuTextureAccess {
    GpuTextureAccess::spec_checked(
        GpuTextureAccessResource::TextureView(source),
        source.spec_descriptor().spec_subresources().spec_with_aspect(aspect),
        kind,
    )
}

/// The first texture-access refusal of one aspect of a depth/stencil attachment view, if any.
pub open spec fn spec_aspect_access_error(
    source: GpuTextureViewHandle,
    aspect: GpuTextureAspect,
    kind: GpuTextureAccessKind,
) -> Option<crate::texture_resource::GpuTextureAccessError> {
    spec_texture_access_error(
        GpuTextureAccessResource::TextureView(source),
        source.spec_descriptor().spec_subresources().spec_with_aspect(aspect),
        kind,
    )
}

/// Whether the aspects requested of a depth/stencil attachment view fit its format: one
/// explicit 2D subresource, at least one aspect state, each state only for an aspect the
/// effective format has, and, for a transient texture, a state for every aspect it has.
pub open spec fn spec_depth_stencil_shape_valid(
    source: GpuTextureViewHandle,
    depth: Option<GpuDepthAttachmentState>,
    stencil: Option<GpuStencilAttachmentState>,
) -> bool {
    let format = spec_effective_view_format(source);
    let texture = source.spec_descriptor().spec_texture().spec_descriptor();
    &&& spec_attachment_view_valid(source)
    &&& (depth is Some || stencil is Some)
    &&& depth is Some ==> format_semantics(format).depth_aspect
    &&& stencil is Some ==> format_semantics(format).stencil_aspect
    &&& texture.spec_usages().contains(GpuTextureUsage::TransientAttachment) ==> (depth is Some
        == format_semantics(format).depth_aspect && stencil is Some == format_semantics(
        format,
    ).stencil_aspect)
}

/// The access the depth state of an attachment makes, if any.
pub open spec fn spec_depth_state_kind(state: GpuDepthAttachmentState) -> GpuTextureAccessKind {
    spec_depth_stencil_kind(state.access(), state.load().kind(), state.store())
}

/// The access the stencil state of an attachment makes, if any.
pub open spec fn spec_stencil_state_kind(state: GpuStencilAttachmentState) -> GpuTextureAccessKind {
    spec_depth_stencil_kind(state.access(), state.load().kind(), state.store())
}

/// The first aspect-access refusal of a depth/stencil attachment, depth before stencil.
pub open spec fn spec_depth_stencil_access_error(
    source: GpuTextureViewHandle,
    depth: Option<GpuDepthAttachmentState>,
    stencil: Option<GpuStencilAttachmentState>,
) -> Option<crate::texture_resource::GpuTextureAccessError> {
    let depth_error = match depth {
        Some(state) => spec_aspect_access_error(
            source,
            GpuTextureAspect::DepthOnly,
            spec_depth_state_kind(state),
        ),
        None => None,
    };
    let stencil_error = match stencil {
        Some(state) => spec_aspect_access_error(
            source,
            GpuTextureAspect::StencilOnly,
            spec_stencil_state_kind(state),
        ),
        None => None,
    };
    if depth_error is Some {
        depth_error
    } else {
        stencil_error
    }
}

/// A depth and/or stencil attachment of a render pass.
#[derive(Debug, Clone, PartialEq, Eq, PartialOrd, Ord, Hash)]
pub struct GpuRenderDepthStencilAttachment {
    source: GpuTextureViewHandle,
    depth: Option<GpuDepthAttachmentState>,
    stencil: Option<GpuStencilAttachmentState>,
    depth_access: Option<GpuTextureAccess>,
    stencil_access: Option<GpuTextureAccess>,
}

impl GpuRenderDepthStencilAttachment {
    pub closed spec fn spec_source(self) -> GpuTextureViewHandle {
        self.source
    }

    pub closed spec fn spec_depth(self) -> Option<GpuDepthAttachmentState> {
        self.depth
    }

    pub closed spec fn spec_stencil(self) -> Option<GpuStencilAttachmentState> {
        self.stencil
    }

    pub closed spec fn spec_depth_access(self) -> Option<GpuTextureAccess> {
        self.depth_access
    }

    pub closed spec fn spec_stencil_access(self) -> Option<GpuTextureAccess> {
        self.stencil_access
    }

    /// Accepts a depth/stencil view whose shape fits the requested aspect states and whose
    /// per-aspect accesses check; records one checked access per present aspect.
    pub fn new(
        source: GpuTextureViewHandle,
        depth: Option<GpuDepthAttachmentState>,
        stencil: Option<GpuStencilAttachmentState>,
    ) -> (r: Result<Self, GpuWorkOperationError>)
        ensures
            r is Ok <==> spec_depth_stencil_shape_valid(source, depth, stencil)
                && spec_depth_stencil_access_error(source, depth, stencil) is None,
            r matches Ok(attachment) ==> {
                &&& attachment.spec_source() == source
                &&& attachment.spec_depth() == depth
                &&& attachment.spec_stencil() == stencil
                &&& attachment.spec_depth_access() == match depth {
                    Some(state) => Some(
                        spec_aspect_access(
                            source,
                            GpuTextureAspect::DepthOnly,
                            spec_depth_state_kind(state),
                        ),
                    ),
                    None => None,
                }
                &&& attachment.spec_stencil_access() == match stencil {
                    Some(state) => Some(
                        spec_aspect_access(
                            source,
                            GpuTextureAspect::StencilOnly,
                            spec_stencil_state_kind(state),
                        ),
                    ),
                    None => None,
                }
            },
            r matches Err(e) ==> {
                &&& e.cause() == GpuWorkOperationCause::InvalidAttachment
                &&& if !spec_attachment_view_valid(source) {
                    spec_view_refusal_names_the_view(e, source)
                } else if !spec_depth_stencil_shape_valid(source, depth, stencil) {
                    spec_texture_refusal_names_the_texture(e, source)
                } else {
                    &&& e.access_error() == spec_depth_stencil_access_error(source, depth, stencil)
                    &&& spec_access_refusal_names_the_texture(e, source)
                }
            },
    {
        validate_attachment_view(
            &source,
            "construct GPU render depth/stencil attachment",
            GpuWorkOperationCause::InvalidAttachment,
            "use one explicit 2D depth/stencil attachment view selecting exactly one mip and one array layer",
        )?;
        let texture = source.descriptor().texture();
        let format = effective_view_format(&source);
        let identity = texture.diagnostic_identity();
        if depth.is_none() && stencil.is_none() {
            return Err(
                GpuWorkOperationError::invalid(
                    "construct GPU render depth/stencil attachment",
                    GpuWorkOperationSubject::Labeled(texture.descriptor().owned_label()),
                    Some(identity),
                    GpuWorkOperationCause::InvalidAttachment,
                    "provide at least one depth or stencil attachment state",
                ),
            );
        }
        if depth.is_some() && !format.is_depth() {
            return Err(
                GpuWorkOperationError::invalid(
                    "construct GPU render depth/stencil attachment",
                    GpuWorkOperationSubject::Labeled(texture.descriptor().owned_label()),
                    Some(identity),
                    GpuWorkOperationCause::InvalidAttachment,
                    "use a view whose effective format contains a depth aspect before configuring depth attachment state",
                ),
            );
        }
        if stencil.is_some() && !format.is_stencil() {
            return Err(
                GpuWorkOperationError::invalid(
                    "construct GPU render depth/stencil attachment",
                    GpuWorkOperationSubject::Labeled(texture.descriptor().owned_label()),
                    Some(identity),
                    GpuWorkOperationCause::InvalidAttachment,
                    "use a view whose effective format contains a stencil aspect before configuring stencil attachment state",
                ),
            );
        }
        if texture.descriptor().usages().contains(GpuTextureUsage::TransientAttachment) && (
        depth.is_some() != format.is_depth() || stencil.is_some() != format.is_stencil()) {
            return Err(
                GpuWorkOperationError::invalid(
                    "construct GPU render depth/stencil attachment",
                    GpuWorkOperationSubject::Labeled(texture.descriptor().owned_label()),
                    Some(identity),
                    GpuWorkOperationCause::InvalidAttachment,
                    "provide writable Clear + Discard state for every depth/stencil aspect present in a transient attachment format",
                ),
            );
        }
        let specs = attachment_aspect_access_specs(depth, stencil);
        let mut depth_access: Option<GpuTextureAccess> = None;
        let mut stencil_access: Option<GpuTextureAccess> = None;
        let mut index: usize = 0;
        while index < specs.len()
            invariant
                specs@ == spec_attachment_aspect_access_specs(depth, stencil),
                0 <= index <= specs@.len(),
                spec_attachment_view_valid(source),
                spec_depth_stencil_shape_valid(source, depth, stencil),
                depth_access == (if depth is Some && index >= 1 {
                    Some(
                        spec_aspect_access(
                            source,
                            GpuTextureAspect::DepthOnly,
                            spec_depth_state_kind(depth->0),
                        ),
                    )
                } else {
                    None
                }),
                stencil_access == (if stencil is Some && index == specs@.len() {
                    Some(
                        spec_aspect_access(
                            source,
                            GpuTextureAspect::StencilOnly,
                            spec_stencil_state_kind(stencil->0),
                        ),
                    )
                } else {
                    None
                }),
                depth is Some && index >= 1 ==> spec_aspect_access_error(
                    source,
                    GpuTextureAspect::DepthOnly,
                    spec_depth_state_kind(depth->0),
                ) is None,
                stencil is Some && index == specs@.len() ==> spec_aspect_access_error(
                    source,
                    GpuTextureAspect::StencilOnly,
                    spec_stencil_state_kind(stencil->0),
                ) is None,
            decreases specs@.len() - index,
        {
            let spec = specs[index];
            let range = source.descriptor().subresources().with_aspect(spec.aspect);
            let access = match GpuTextureAccess::new(
                GpuTextureAccessResource::TextureView(copy_view(&source)),
                range,
                GpuTextureAccessKind::DepthStencilAttachment {
                    access: spec.access,
                    load_kind: spec.load_kind,
                    store: spec.store,
                },
            ) {
                Ok(access) => access,
                Err(error) => {
                    return Err(
                        GpuWorkOperationError::from_access(
                            "construct GPU render depth/stencil attachment",
                            GpuWorkOperationSubject::Labeled(
                                source.descriptor().texture().descriptor().owned_label(),
                            ),
                            GpuWorkOperationCause::InvalidAttachment,
                            "provide attachment state only for aspects selected by a compatible depth/stencil view",
                            error,
                        ),
                    );
                },
            };
            match spec.aspect {
                GpuTextureAspect::DepthOnly => depth_access = Some(access),
                _ => stencil_access = Some(access),
            }
            index = index + 1;
        }
        Ok(GpuRenderDepthStencilAttachment { source, depth, stencil, depth_access, stencil_access })
    }

    pub fn source(&self) -> (r: &GpuTextureViewHandle)
        ensures
            *r == self.spec_source(),
    {
        &self.source
    }

    pub fn depth(&self) -> (r: Option<GpuDepthAttachmentState>)
        ensures
            r == self.spec_depth(),
    {
        self.depth
    }

    pub fn stencil(&self) -> (r: Option<GpuStencilAttachmentState>)
        ensures
            r == self.spec_stencil(),
    {
        self.stencil
    }

    pub fn depth_access(&self) -> (r: Option<&GpuTextureAccess>)
        ensures
            r matches Some(a) ==> self.spec_depth_access() == Some(*a),
            r is None <==> self.spec_depth_access() is None,
    {
        self.depth_access.as_ref()
    }

    pub fn stencil_access(&self) -> (r: Option<&GpuTextureAccess>)
        ensures
            r matches Some(a) ==> self.spec_stencil_access() == Some(*a),
            r is None <==> self.spec_stencil_access() is None,
    {
        self.stencil_access.as_ref()
    }
}

} // verus!
