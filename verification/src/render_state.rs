//! Render-pipeline attachment state: color targets, fragment outputs, depth and stencil.

use vstd::prelude::*;
use crate::blend::{GpuBlendComponent, GpuBlendFactor, GpuBlendOperation, GpuBlendState};
use crate::diagnostics::{GpuProgramContractCause, GpuProgramContractError, GpuProgramContractSubject};
use crate::shader_io::{
    GpuEntryPointName, GpuExpectedFragmentOutputSignature, GpuShaderIoLocation,
    GpuShaderIoScalarClass, GpuShaderIoValueType,
};
use crate::texture_format::{
    self, format_semantics, spec_color_scalar_class, GpuTextureFormat, GpuTextureScalarClass,
};

verus! {

/// Depth and stencil comparison functions.
#[derive(Debug, Clone, Copy, PartialEq, Eq, Structural, PartialOrd, Ord, Hash)]
pub enum GpuCompareFunction {
    Never,
    Less,
    Equal,
    LessEqual,
    Greater,
    NotEqual,
    GreaterEqual,
    Always,
}

/// How a color target combines fragment output with the stored value.
#[derive(Debug, Clone, Copy, PartialEq, Eq, Structural, PartialOrd, Ord, Hash)]
pub enum GpuBlendMode {
    Replace,
    Alpha,
}

impl GpuBlendMode {
    /// The blend equations this mode stands for: none for `Replace`, and source-alpha
    /// over for `Alpha` (color: SrcAlpha, OneMinusSrcAlpha, Add; alpha: One, OneMinusSrcAlpha, Add).
    pub fn blend_state(self) -> (r: Option<GpuBlendState>)
        ensures
            r is Some <==> self == GpuBlendMode::Alpha,
            r matches Some(state) ==> {
                &&& state.color().src_factor() == GpuBlendFactor::SrcAlpha
                &&& state.color().dst_factor() == GpuBlendFactor::OneMinusSrcAlpha
                &&& state.color().operation() == GpuBlendOperation::Add
                &&& state.alpha().src_factor() == GpuBlendFactor::One
                &&& state.alpha().dst_factor() == GpuBlendFactor::OneMinusSrcAlpha
                &&& state.alpha().operation() == GpuBlendOperation::Add
            },
    {
        match self {
            GpuBlendMode::Replace => None,
            GpuBlendMode::Alpha => {
                let color = GpuBlendComponent::new(
                    GpuBlendFactor::SrcAlpha,
                    GpuBlendFactor::OneMinusSrcAlpha,
                    GpuBlendOperation::Add,
                ).unwrap();
                let alpha = GpuBlendComponent::new(
                    GpuBlendFactor::One,
                    GpuBlendFactor::OneMinusSrcAlpha,
                    GpuBlendOperation::Add,
                ).unwrap();
                Some(GpuBlendState::new(color, alpha))
            },
        }
    }
}

/// Which color components a color target writes: red, green, blue, alpha in bits 0 through 3.
#[derive(Debug, Clone, Copy, PartialEq, Eq, Structural, PartialOrd, Ord, Hash)]
pub struct GpuColorWriteMask(u8);

/// The normalized write-mask bits.
pub open spec fn spec_valid_write_mask_bits(bits: u8) -> bool {
    bits & !15u8 == 0
}

impl GpuColorWriteMask {
    pub closed spec fn spec_bits(self) -> u8 {
        self.0
    }

    #[verifier::type_invariant]
    spec fn mask_is_normalized(self) -> bool {
        self.0 <= 15
    }

    /// Whether every component in `component` is written by this mask.
    pub open spec fn spec_contains(self, component: Self) -> bool {
        self.bits() & component.bits() == component.bits()
    }

    pub fn none() -> (r: Self)
        ensures
            r.bits() == 0,
    {
        GpuColorWriteMask(0)
    }

    pub fn red() -> (r: Self)
        ensures
            r.bits() == 1,
    {
        GpuColorWriteMask(1)
    }

    pub fn green() -> (r: Self)
        ensures
            r.bits() == 2,
    {
        GpuColorWriteMask(2)
    }

    pub fn blue() -> (r: Self)
        ensures
            r.bits() == 4,
    {
        GpuColorWriteMask(4)
    }

    pub fn alpha() -> (r: Self)
        ensures
            r.bits() == 8,
    {
        GpuColorWriteMask(8)
    }

    pub fn all() -> (r: Self)
        ensures
            r.bits() == 15,
    {
        GpuColorWriteMask(15)
    }

    /// Accepts exactly the masks made of the four normalized component bits.
    pub fn from_bits(bits: u8) -> (r: Result<Self, GpuProgramContractError>)
        ensures
            r is Ok <==> spec_valid_write_mask_bits(bits),
            r is Ok <==> bits <= 15,
            r matches Ok(mask) ==> mask.bits() == bits,
            r matches Err(e) ==> e.cause() == GpuProgramContractCause::RenderAttachmentStateInvalid
                && e.subject() == GpuProgramContractSubject::ColorWriteMask(bits),
    {
        proof {
            assert((bits & !15u8 == 0) == (bits <= 15)) by (bit_vector);
        }
        if bits & !15u8 != 0 {
            return Err(
                invalid_attachment_state(
                    GpuProgramContractSubject::ColorWriteMask(bits),
                    "use only the normalized red, green, blue, and alpha write bits",
                ),
            );
        }
        Ok(GpuColorWriteMask(bits))
    }

    #[verifier::when_used_as_spec(spec_bits)]
    pub fn bits(self) -> (r: u8)
        ensures
            r == self.bits(),
            r <= 15,
    {
        proof {
            use_type_invariant(&self);
        }
        self.0
    }

    /// Whether this mask writes every component of `component`.
    pub fn contains(self, component: Self) -> (r: bool)
        ensures
            r == self.spec_contains(component),
    {
        self.0 & component.0 == component.0
    }
}

/// Write-mask containment is a partial order whose least element is `none` and whose greatest
/// element, among normalized masks, is `all`.
pub proof fn lemma_write_mask_containment_is_a_bounded_partial_order(
    a: GpuColorWriteMask,
    b: GpuColorWriteMask,
    c: GpuColorWriteMask,
)
    requires
        a.bits() <= 15,
    ensures
        a.spec_contains(a),
        a.spec_contains(b) && b.spec_contains(a) ==> a.bits() == b.bits(),
        a.spec_contains(b) && b.spec_contains(c) ==> a.spec_contains(c),
        a.bits() & 0u8 == 0u8,
        15u8 & a.bits() == a.bits(),
{
    let x = a.bits();
    let y = b.bits();
    let z = c.bits();
    assert(x & x == x) by (bit_vector);
    assert((x & y == y && y & x == x) ==> x == y) by (bit_vector);
    assert((x & y == y && y & z == z) ==> x & z == z) by (bit_vector);
    assert(x & 0u8 == 0u8) by (bit_vector);
    assert(x <= 15 ==> 15u8 & x == x) by (bit_vector);
}

/// Whether a color target of `format` may use `blend`: color formats only, and no alpha
/// blending of integer formats.
pub open spec fn spec_color_target_state_valid(format: GpuTextureFormat, blend: GpuBlendMode) -> bool {
    &&& !format_semantics(format).depth_aspect
    &&& !format_semantics(format).stencil_aspect
    &&& !(blend == GpuBlendMode::Alpha && (spec_color_scalar_class(format) == Some(
        GpuTextureScalarClass::Sint,
    ) || spec_color_scalar_class(format) == Some(GpuTextureScalarClass::Uint)))
}

/// The shader IO scalar class a texture scalar class is written with.
pub open spec fn spec_shader_io_scalar_class(class: GpuTextureScalarClass) -> GpuShaderIoScalarClass {
    match class {
        GpuTextureScalarClass::Float => GpuShaderIoScalarClass::Float,
        GpuTextureScalarClass::Sint => GpuShaderIoScalarClass::Sint,
        GpuTextureScalarClass::Uint => GpuShaderIoScalarClass::Uint,
    }
}

/// Typed color-target state of one render-pipeline color output.
#[derive(Debug, Clone, Copy, PartialEq, Eq, Structural, PartialOrd, Ord, Hash)]
pub struct GpuColorTargetStateDescriptor {
    format: GpuTextureFormat,
    blend: GpuBlendMode,
    write_mask: GpuColorWriteMask,
}

impl GpuColorTargetStateDescriptor {
    pub closed spec fn spec_format(self) -> GpuTextureFormat {
        self.format
    }

    pub closed spec fn spec_blend(self) -> GpuBlendMode {
        self.blend
    }

    pub closed spec fn spec_write_mask(self) -> GpuColorWriteMask {
        self.write_mask
    }

    #[verifier::type_invariant]
    spec fn state_is_valid(self) -> bool {
        spec_color_target_state_valid(self.format, self.blend)
    }

    /// Accepts a color format with a blend mode it supports.
    pub fn new(format: GpuTextureFormat, blend: GpuBlendMode, write_mask: GpuColorWriteMask) -> (r:
        Result<Self, GpuProgramContractError>)
        ensures
            r is Ok <==> spec_color_target_state_valid(format, blend),
            r matches Ok(target) ==> target.format() == format && target.blend() == blend
                && target.write_mask() == write_mask,
            r matches Err(e) ==> e.cause() == GpuProgramContractCause::RenderAttachmentStateInvalid
                && e.subject() == if format_semantics(format).depth_aspect || format_semantics(
                format,
            ).stencil_aspect {
                GpuProgramContractSubject::ColorFormat(format)
            } else {
                GpuProgramContractSubject::ColorBlend(format, blend)
            },
    {
        if format.is_depth() || format.is_stencil() {
            return Err(
                invalid_attachment_state(
                    GpuProgramContractSubject::ColorFormat(format),
                    "use a color-attachment format for a color target",
                ),
            );
        }
        let integer = match texture_format::color_scalar_class(format) {
            Some(GpuTextureScalarClass::Sint) | Some(GpuTextureScalarClass::Uint) => true,
            _ => false,
        };
        let alpha = match blend {
            GpuBlendMode::Alpha => true,
            GpuBlendMode::Replace => false,
        };
        if alpha && integer {
            return Err(
                invalid_attachment_state(
                    GpuProgramContractSubject::ColorBlend(format, blend),
                    "use replacement blending for integer color targets",
                ),
            );
        }
        Ok(GpuColorTargetStateDescriptor { format, blend, write_mask })
    }

    #[verifier::when_used_as_spec(spec_format)]
    pub fn format(self) -> (r: GpuTextureFormat)
        ensures
            r == self.format(),
            !format_semantics(r).depth_aspect && !format_semantics(r).stencil_aspect,
    {
        proof {
            use_type_invariant(&self);
        }
        self.format
    }

    #[verifier::when_used_as_spec(spec_blend)]
    pub fn blend(self) -> (r: GpuBlendMode)
        ensures
            r == self.blend(),
    {
        self.blend
    }

    #[verifier::when_used_as_spec(spec_write_mask)]
    pub fn write_mask(self) -> (r: GpuColorWriteMask)
        ensures
            r == self.write_mask(),
    {
        self.write_mask
    }

    /// Whether the target's format stores an alpha channel that blending can use.
    pub fn has_blendable_alpha_channel(self) -> (r: bool)
        ensures
            r == format_semantics(self.format()).has_alpha,
    {
        texture_format::has_alpha(self.format)
    }

    /// The fragment-shader output type this target expects: the format's scalar class,
    /// with one component per stored component.
    pub fn shader_io_type(self) -> (r: GpuShaderIoValueType)
        ensures
            r.scalar_class() == spec_shader_io_scalar_class(
                format_semantics(self.format()).scalar_class,
            ),
            r.vector_width().get() == format_semantics(self.format()).component_count,
    {
        proof {
            use_type_invariant(&self);
        }
        let class = match texture_format::scalar_class(self.format) {
            GpuTextureScalarClass::Float => GpuShaderIoScalarClass::Float,
            GpuTextureScalarClass::Sint => GpuShaderIoScalarClass::Sint,
            GpuTextureScalarClass::Uint => GpuShaderIoScalarClass::Uint,
        };
        let width = texture_format::component_count(self.format);
        GpuShaderIoValueType::try_new(class, width).unwrap()
    }
}

/// Every accepted color target is a pure color format whose expected shader output carries
/// between one and four components.
pub proof fn lemma_color_targets_are_pure_color_outputs(format: GpuTextureFormat, blend: GpuBlendMode)
    requires
        spec_color_target_state_valid(format, blend),
    ensures
        format_semantics(format).color_aspect,
        spec_color_scalar_class(format) == Some(format_semantics(format).scalar_class),
        1 <= format_semantics(format).component_count <= 4,
{
    texture_format::lemma_aspects_are_exclusive_between_color_and_depth_stencil(format);
}

/// Fragment outputs: one color target per location, in location order.
#[derive(Debug, Clone, PartialEq, Eq, Hash)]
pub struct GpuFragmentOutputStateDescriptor {
    color_targets: Vec<GpuColorTargetStateDescriptor>,
}

impl View for GpuFragmentOutputStateDescriptor {
    type V = Seq<GpuColorTargetStateDescriptor>;

    closed spec fn view(&self) -> Seq<GpuColorTargetStateDescriptor> {
        self.color_targets@
    }
}

impl GpuFragmentOutputStateDescriptor {
    pub fn new(color_targets: Vec<GpuColorTargetStateDescriptor>) -> (r: Self)
        ensures
            r@ == color_targets@,
    {
        GpuFragmentOutputStateDescriptor { color_targets }
    }

    /// The color targets, in location order.
    pub fn color_targets(&self) -> (r: &Vec<GpuColorTargetStateDescriptor>)
        ensures
            r@ == self@,
    {
        &self.color_targets
    }

    /// The signature a fragment entry point must declare: target `i` at location `i`.
    pub fn expected_signature(&self, entry_point: GpuEntryPointName) -> (r: Result<
        GpuExpectedFragmentOutputSignature,
        GpuProgramContractError,
    >)
        ensures
            r is Ok <==> self@.len() <= u32::MAX + 1,
            r matches Ok(signature) ==> {
                &&& signature.spec_entry_point() == entry_point
                &&& signature.spec_locations().len() == self@.len()
                &&& forall|i: int|
                    0 <= i < self@.len() ==> {
                        &&& (#[trigger] signature.spec_locations()[i]).location() == i
                        &&& signature.spec_locations()[i].value_type().scalar_class()
                            == spec_shader_io_scalar_class(
                            format_semantics(self@[i].format()).scalar_class,
                        )
                        &&& signature.spec_locations()[i].value_type().vector_width().get()
                            == format_semantics(self@[i].format()).component_count
                    }
            },
            r matches Err(e) ==> e.cause() == GpuProgramContractCause::RenderAttachmentStateInvalid
                && e.subject() == GpuProgramContractSubject::ColorTargetCount(self@.len() as usize),
    {
        let count = self.color_targets.len();
        let mut locations: Vec<GpuShaderIoLocation> = Vec::new();
        let mut index: usize = 0;
        while index < count
            invariant
                count == self@.len(),
                0 <= index <= count,
                index <= u32::MAX + 1,
                locations@.len() == index,
                forall|i: int|
                    0 <= i < index ==> {
                        &&& (#[trigger] locations@[i]).location() == i
                        &&& locations@[i].value_type().scalar_class() == spec_shader_io_scalar_class(
                            format_semantics(self@[i].format()).scalar_class,
                        )
                        &&& locations@[i].value_type().vector_width().get() == format_semantics(
                            self@[i].format(),
                        ).component_count
                    },
            decreases count - index,
        {
            if index > u32::MAX as usize {
                return Err(
                    invalid_attachment_state(
                        GpuProgramContractSubject::ColorTargetCount(count),
                        "reduce the number of color targets to a u32-representable count",
                    ),
                );
            }
            let target = self.color_targets[index];
            locations.push(GpuShaderIoLocation::new(index as u32, target.shader_io_type()));
            index = index + 1;
        }
        let ghost produced = locations@;
        let signature = GpuExpectedFragmentOutputSignature::new(entry_point, locations);
        proof {
            assert(crate::shader_io::spec_locations_distinct(produced));
        }
        match signature {
            Ok(signature) => Ok(signature),
            Err(e) => Err(e),
        }
    }
}

/// Depth-test and depth-write state.
#[derive(Debug, Clone, Copy, PartialEq, Eq, Structural, PartialOrd, Ord, Hash)]
pub struct GpuDepthStateDescriptor {
    write_enabled: bool,
    compare: GpuCompareFunction,
}

impl GpuDepthStateDescriptor {
    pub closed spec fn spec_write_enabled(self) -> bool {
        self.write_enabled
    }

    pub closed spec fn spec_compare(self) -> GpuCompareFunction {
        self.compare
    }

    pub fn new(write_enabled: bool, compare: GpuCompareFunction) -> (r: Self)
        ensures
            r.write_enabled() == write_enabled,
            r.compare() == compare,
    {
        GpuDepthStateDescriptor { write_enabled, compare }
    }

    #[verifier::when_used_as_spec(spec_write_enabled)]
    pub fn write_enabled(self) -> (r: bool)
        ensures
            r == self.write_enabled(),
    {
        self.write_enabled
    }

    #[verifier::when_used_as_spec(spec_compare)]
    pub fn compare(self) -> (r: GpuCompareFunction)
        ensures
            r == self.compare(),
    {
        self.compare
    }
}

/// What a stencil test outcome does to the stored stencil value.
#[derive(Debug, Clone, Copy, PartialEq, Eq, Structural, PartialOrd, Ord, Hash)]
pub enum GpuStencilOperation {
    Keep,
    Zero,
    Replace,
    Invert,
    IncrementClamp,
    DecrementClamp,
    IncrementWrap,
    DecrementWrap,
}

impl GpuStencilOperation {
    pub open spec fn spec_writes(self) -> bool {
        self != GpuStencilOperation::Keep
    }

    /// Every operation but `Keep` writes the stencil value.
    #[verifier::when_used_as_spec(spec_writes)]
    pub fn writes(self) -> (r: bool)
        ensures
            r == self.writes(),
    {
        match self {
            GpuStencilOperation::Keep => false,
            _ => true,
        }
    }
}

/// Stencil state of one face.
#[derive(Debug, Clone, Copy, PartialEq, Eq, Structural, PartialOrd, Ord, Hash)]
pub struct GpuStencilFaceStateDescriptor {
    compare: GpuCompareFunction,
    fail_op: GpuStencilOperation,
    depth_fail_op: GpuStencilOperation,
    pass_op: GpuStencilOperation,
}

impl GpuStencilFaceStateDescriptor {
    pub closed spec fn spec_compare(self) -> GpuCompareFunction {
        self.compare
    }

    pub closed spec fn spec_fail_op(self) -> GpuStencilOperation {
        self.fail_op
    }

    pub closed spec fn spec_depth_fail_op(self) -> GpuStencilOperation {
        self.depth_fail_op
    }

    pub closed spec fn spec_pass_op(self) -> GpuStencilOperation {
        self.pass_op
    }

    pub open spec fn spec_may_write(self) -> bool {
        self.fail_op().writes() || self.depth_fail_op().writes() || self.pass_op().writes()
    }

    pub fn new(
        compare: GpuCompareFunction,
        fail_op: GpuStencilOperation,
        depth_fail_op: GpuStencilOperation,
        pass_op: GpuStencilOperation,
    ) -> (r: Self)
        ensures
            r.compare() == compare,
            r.fail_op() == fail_op,
            r.depth_fail_op() == depth_fail_op,
            r.pass_op() == pass_op,
    {
        GpuStencilFaceStateDescriptor { compare, fail_op, depth_fail_op, pass_op }
    }

    #[verifier::when_used_as_spec(spec_compare)]
    pub fn compare(self) -> (r: GpuCompareFunction)
        ensures
            r == self.compare(),
    {
        self.compare
    }

    #[verifier::when_used_as_spec(spec_fail_op)]
    pub fn fail_op(self) -> (r: GpuStencilOperation)
        ensures
            r == self.fail_op(),
    {
        self.fail_op
    }

    #[verifier::when_used_as_spec(spec_depth_fail_op)]
    pub fn depth_fail_op(self) -> (r: GpuStencilOperation)
        ensures
            r == self.depth_fail_op(),
    {
        self.depth_fail_op
    }

    #[verifier::when_used_as_spec(spec_pass_op)]
    pub fn pass_op(self) -> (r: GpuStencilOperation)
        ensures
            r == self.pass_op(),
    {
        self.pass_op
    }

    /// Whether any outcome of this face's stencil test writes the stencil value.
    #[verifier::when_used_as_spec(spec_may_write)]
    pub fn may_write(self) -> (r: bool)
        ensures
            r == self.may_write(),
    {
        self.fail_op.writes() || self.depth_fail_op.writes() || self.pass_op.writes()
    }
}

/// Two-sided stencil state with read and write masks.
#[derive(Debug, Clone, Copy, PartialEq, Eq, Structural, PartialOrd, Ord, Hash)]
pub struct GpuStencilStateDescriptor {
    front: GpuStencilFaceStateDescriptor,
    back: GpuStencilFaceStateDescriptor,
    read_mask: u32,
    write_mask: u32,
}

impl GpuStencilStateDescriptor {
    pub closed spec fn spec_front(self) -> GpuStencilFaceStateDescriptor {
        self.front
    }

    pub closed spec fn spec_back(self) -> GpuStencilFaceStateDescriptor {
        self.back
    }

    pub closed spec fn spec_read_mask(self) -> u32 {
        self.read_mask
    }

    pub closed spec fn spec_write_mask(self) -> u32 {
        self.write_mask
    }

    pub open spec fn spec_may_write(self) -> bool {
        self.write_mask() != 0 && (self.front().may_write() || self.back().may_write())
    }

    pub fn new(
        front: GpuStencilFaceStateDescriptor,
        back: GpuStencilFaceStateDescriptor,
        read_mask: u32,
        write_mask: u32,
    ) -> (r: Self)
        ensures
            r.front() == front,
            r.back() == back,
            r.read_mask() == read_mask,
            r.write_mask() == write_mask,
    {
        GpuStencilStateDescriptor { front, back, read_mask, write_mask }
    }

    #[verifier::when_used_as_spec(spec_front)]
    pub fn front(self) -> (r: GpuStencilFaceStateDescriptor)
        ensures
            r == self.front(),
    {
        self.front
    }

    #[verifier::when_used_as_spec(spec_back)]
    pub fn back(self) -> (r: GpuStencilFaceStateDescriptor)
        ensures
            r == self.back(),
    {
        self.back
    }

    #[verifier::when_used_as_spec(spec_read_mask)]
    pub fn read_mask(self) -> (r: u32)
        ensures
            r == self.read_mask(),
    {
        self.read_mask
    }

    #[verifier::when_used_as_spec(spec_write_mask)]
    pub fn write_mask(self) -> (r: u32)
        ensures
            r == self.write_mask(),
    {
        self.write_mask
    }

    /// Whether this state can change stored stencil values: a nonzero write mask and a face
    /// with a writing operation.
    #[verifier::when_used_as_spec(spec_may_write)]
    pub fn may_write(self) -> (r: bool)
        ensures
            r == self.may_write(),
    {
        self.write_mask != 0 && (self.front.may_write() || self.back.may_write())
    }
}

/// Stencil state never writes when its write mask is zero or when every operation of both
/// faces is `Keep`.
pub proof fn lemma_stencil_writes_need_a_mask_and_a_writing_operation(
    state: GpuStencilStateDescriptor,
)
    ensures
        state.write_mask() == 0 ==> !state.may_write(),
        ({
            let f = state.front();
            let b = state.back();
            f.fail_op() == GpuStencilOperation::Keep && f.depth_fail_op() == GpuStencilOperation::Keep
                && f.pass_op() == GpuStencilOperation::Keep && b.fail_op()
                == GpuStencilOperation::Keep && b.depth_fail_op() == GpuStencilOperation::Keep
                && b.pass_op() == GpuStencilOperation::Keep
        }) ==> !state.may_write(),
{
}

/// Whether a depth/stencil pipeline state is well formed for `format`.
pub open spec fn spec_depth_stencil_state_valid(
    format: GpuTextureFormat,
    depth: Option<GpuDepthStateDescriptor>,
    stencil: Option<GpuStencilStateDescriptor>,
) -> bool {
    &&& (depth is Some || stencil is Some)
    &&& depth is Some ==> format_semantics(format).depth_aspect
    &&& stencil is Some ==> format_semantics(format).stencil_aspect
}

/// Depth/stencil pipeline state over one depth/stencil format.
#[derive(Debug, Clone, Copy, PartialEq, Eq, PartialOrd, Ord, Hash)]
pub struct GpuDepthStencilStateDescriptor {
    format: GpuTextureFormat,
    depth: Option<GpuDepthStateDescriptor>,
    stencil: Option<GpuStencilStateDescriptor>,
}

impl GpuDepthStencilStateDescriptor {
    pub closed spec fn spec_format(self) -> GpuTextureFormat {
        self.format
    }

    pub closed spec fn spec_depth(self) -> Option<GpuDepthStateDescriptor> {
        self.depth
    }

    pub closed spec fn spec_stencil(self) -> Option<GpuStencilStateDescriptor> {
        self.stencil
    }

    /// Accepts at least one of depth and stencil state, each only for a format with that aspect.
    pub fn new(
        format: GpuTextureFormat,
        depth: Option<GpuDepthStateDescriptor>,
        stencil: Option<GpuStencilStateDescriptor>,
    ) -> (r: Result<Self, GpuProgramContractError>)
        ensures
            r is Ok <==> spec_depth_stencil_state_valid(format, depth, stencil),
            r matches Ok(state) ==> state.format() == format && state.depth() == depth
                && state.stencil() == stencil,
            r matches Err(e) ==> e.cause() == GpuProgramContractCause::RenderAttachmentStateInvalid
                && e.subject() == if depth is None && stencil is None {
                GpuProgramContractSubject::DepthStencilWithoutState(format)
            } else if depth is Some && !format_semantics(format).depth_aspect {
                GpuProgramContractSubject::DepthFormat(format)
            } else {
                GpuProgramContractSubject::StencilFormat(format)
            },
    {
        if depth.is_none() && stencil.is_none() {
            return Err(
                invalid_attachment_state(
                    GpuProgramContractSubject::DepthStencilWithoutState(format),
                    "provide at least one depth or stencil pipeline state",
                ),
            );
        }
        if depth.is_some() && !format.is_depth() {
            return Err(
                invalid_attachment_state(
                    GpuProgramContractSubject::DepthFormat(format),
                    "use a format with a depth aspect when depth state is present",
                ),
            );
        }
        if stencil.is_some() && !format.is_stencil() {
            return Err(
                invalid_attachment_state(
                    GpuProgramContractSubject::StencilFormat(format),
                    "use a format with a stencil aspect when stencil state is present",
                ),
            );
        }
        Ok(GpuDepthStencilStateDescriptor { format, depth, stencil })
    }

    #[verifier::when_used_as_spec(spec_format)]
    pub fn format(self) -> (r: GpuTextureFormat)
        ensures
            r == self.format(),
    {
        self.format
    }

    #[verifier::when_used_as_spec(spec_depth)]
    pub fn depth(self) -> (r: Option<GpuDepthStateDescriptor>)
        ensures
            r == self.depth(),
    {
        self.depth
    }

    #[verifier::when_used_as_spec(spec_stencil)]
    pub fn stencil(self) -> (r: Option<GpuStencilStateDescriptor>)
        ensures
            r == self.stencil(),
    {
        self.stencil
    }
}

/// The refusal every render-attachment-state constructor reports.
pub fn invalid_attachment_state(
    subject: GpuProgramContractSubject,
    correction: &'static str,
) -> (e: GpuProgramContractError)
    ensures
        e.operation() == "construct GPU render-attachment state",
        e.subject() == subject,
        e.cause() == GpuProgramContractCause::RenderAttachmentStateInvalid,
        e.correction() == correction,
{
    GpuProgramContractError::invalid(
        "construct GPU render-attachment state",
        subject,
        GpuProgramContractCause::RenderAttachmentStateInvalid,
        correction,
    )
}

} // verus!
