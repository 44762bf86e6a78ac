//! Vertex input, primitive assembly, and multisample state of a render pipeline.

use vstd::prelude::*;
use crate::diagnostics::{GpuProgramContractCause, GpuProgramContractError, GpuProgramContractSubject};

verus! {

/// Vertex attribute formats.
#[allow(non_camel_case_types)]
#[derive(Debug, Clone, Copy, PartialEq, Eq, Structural, PartialOrd, Ord, Hash)]
pub enum GpuVertexFormat {
    Uint8,
    Uint8x2,
    Uint8x4,
    Sint8,
    Sint8x2,
    Sint8x4,
    Unorm8,
    Unorm8x2,
    Unorm8x4,
    Snorm8,
    Snorm8x2,
    Snorm8x4,
    Uint16,
    Uint16x2,
    Uint16x4,
    Sint16,
    Sint16x2,
    Sint16x4,
    Unorm16,
    Unorm16x2,
    Unorm16x4,
    Snorm16,
    Snorm16x2,
    Snorm16x4,
    Float16,
    Float16x2,
    Float16x4,
    Unorm10_10_10_2,
    Unorm8x4Bgra,
    Float32,
    Float32x2,
    Float32x3,
    Float32x4,
    Uint32,
    Uint32x2,
    Uint32x3,
    Uint32x4,
    Sint32,
    Sint32x2,
    Sint32x3,
    Sint32x4,
}

/// Whether a vertex buffer advances per vertex or per instance.
#[derive(Debug, Clone, Copy, PartialEq, Eq, Structural, PartialOrd, Ord, Hash)]
pub enum GpuVertexStepMode {
    Vertex,
    Instance,
}

/// One vertex attribute of a vertex buffer.
#[derive(Debug, Clone, Copy, PartialEq, Eq, Structural, PartialOrd, Ord, Hash)]
pub struct GpuVertexAttribute {
    pub format: GpuVertexFormat,
    pub offset: u64,
    pub shader_location: u32,
}

/// The layout of the vertex buffer bound at one slot.
#[derive(Debug, Clone, PartialEq, Eq, Hash)]
pub struct GpuVertexBufferLayout {
    pub slot: u32,
    pub array_stride: u64,
    pub step_mode: GpuVertexStepMode,
    pub attributes: Vec<GpuVertexAttribute>,
}

/// Whether vertex-buffer slots are strictly increasing.
pub open spec fn spec_slots_increasing(layouts: Seq<GpuVertexBufferLayout>) -> bool {
    forall|i: int, j: int|
        0 <= i < j < layouts.len() ==> (#[trigger] layouts[i]).slot < (#[trigger] layouts[j]).slot
}

/// The vertex buffers of a render pipeline, in strictly increasing slot order.
#[derive(Debug, PartialEq, Eq, Hash)]
pub struct GpuVertexInputState {
    layouts: Vec<GpuVertexBufferLayout>,
}

impl View for GpuVertexInputState {
    type V = Seq<GpuVertexBufferLayout>;

    closed spec fn view(&self) -> Seq<GpuVertexBufferLayout> {
        self.layouts@
    }
}

impl GpuVertexInputState {
    /// Accepts layouts whose slots strictly increase; refuses the first slot that does not.
    pub fn new(layouts: Vec<GpuVertexBufferLayout>) -> (r: Result<Self, GpuProgramContractError>)
        ensures
            r is Ok <==> spec_slots_increasing(layouts@),
            r matches Ok(input) ==> input@ == layouts@,
            r matches Err(e) ==> e.cause() == GpuProgramContractCause::VertexInputInvalid && (exists|
                i: int,
            |
                1 <= i < layouts@.len() && (#[trigger] layouts@[i]).slot <= layouts@[i - 1].slot
                    && e.subject() == GpuProgramContractSubject::VertexBufferSlot(layouts@[i].slot)),
    {
        let mut i: usize = 1;
        while i < layouts.len()
            invariant
                1 <= i,
                i <= layouts@.len() || layouts@.len() == 0,
                forall|a: int, b: int|
                    0 <= a < b < i && b < layouts@.len() ==> (#[trigger] layouts@[a]).slot < (
                    #[trigger] layouts@[b]).slot,
            decreases layouts@.len() - i,
        {
            if layouts[i].slot <= layouts[i - 1].slot {
                let slot = layouts[i].slot;
                return Err(
                    GpuProgramContractError::invalid(
                        "construct GPU vertex input state",
                        GpuProgramContractSubject::VertexBufferSlot(slot),
                        GpuProgramContractCause::VertexInputInvalid,
                        "declare each vertex-buffer slot once, in increasing slot order",
                    ),
                );
            }
            proof {
                assert forall|a: int, b: int|
                    0 <= a < b < i + 1 && b < layouts@.len() implies (#[trigger] layouts@[a]).slot < (
                    #[trigger] layouts@[b]).slot by {
                    if b == i && a < i - 1 {
                        assert(layouts@[a].slot < layouts@[i - 1].slot);
                    }
                }
            }
            i = i + 1;
        }
        Ok(GpuVertexInputState { layouts })
    }

    /// The layouts, in slot order.
    pub fn layouts(&self) -> (r: &Vec<GpuVertexBufferLayout>)
        ensures
            r@ == self@,
            spec_slots_increasing(r@),
    {
        proof {
            use_type_invariant(self);
        }
        &self.layouts
    }

    #[verifier::type_invariant]
    spec fn slots_are_increasing(self) -> bool {
        spec_slots_increasing(self.layouts@)
    }
}

/// How vertices assemble into primitives.
#[derive(Debug, Clone, Copy, PartialEq, Eq, Structural, PartialOrd, Ord, Hash)]
pub enum GpuPrimitiveTopology {
    TriangleList,
    TriangleStrip,
    LineList,
    LineStrip,
    PointList,
}

/// Index element formats.
#[derive(Debug, Clone, Copy, PartialEq, Eq, Structural, PartialOrd, Ord, Hash)]
pub enum GpuIndexFormat {
    Uint16,
    Uint32,
}

/// Winding order of front faces.
#[derive(Debug, Clone, Copy, PartialEq, Eq, Structural, PartialOrd, Ord, Hash)]
pub enum GpuFrontFace {
    CounterClockwise,
    Clockwise,
}

/// Which faces are culled.
#[derive(Debug, Clone, Copy, PartialEq, Eq, Structural, PartialOrd, Ord, Hash)]
pub enum GpuCullMode {
    NoCulling,
    Front,
    Back,
}

/// Primitive assembly state.
#[derive(Debug, Clone, Copy, PartialEq, Eq, PartialOrd, Ord, Hash)]
pub struct GpuPrimitiveStateDescriptor {
    pub topology: GpuPrimitiveTopology,
    pub strip_index_format: Option<GpuIndexFormat>,
    pub front_face: GpuFrontFace,
    pub cull_mode: GpuCullMode,
}

/// Multisample state.
#[derive(Debug, Clone, Copy, PartialEq, Eq, Structural, PartialOrd, Ord, Hash)]
pub struct GpuMultisampleStateDescriptor {
    pub sample_count: u32,
    pub sample_mask: u64,
    pub alpha_to_coverage_enabled: bool,
}

} // verus!
