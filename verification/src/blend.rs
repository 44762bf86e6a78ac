//! Blend factors, operations, components, and states.

use vstd::prelude::*;
use crate::diagnostics::{GpuProgramContractCause, GpuProgramContractError, GpuProgramContractSubject};

verus! {

/// Multiplier applied to a blend source or destination term.
#[derive(Debug, Clone, Copy, PartialEq, Eq, Structural, PartialOrd, Ord, Hash)]
pub enum GpuBlendFactor {
    Zero,
    One,
    Src,
    OneMinusSrc,
    SrcAlpha,
    OneMinusSrcAlpha,
    Dst,
    OneMinusDst,
    DstAlpha,
    OneMinusDstAlpha,
    SrcAlphaSaturated,
    Constant,
    OneMinusConstant,
}

/// How the weighted source and destination terms combine.
#[derive(Debug, Clone, Copy, PartialEq, Eq, Structural, PartialOrd, Ord, Hash)]
pub enum GpuBlendOperation {
    Add,
    Subtract,
    ReverseSubtract,
    Min,
    Max,
}

/// Whether a blend component is well formed: `Min` and `Max` ignore factors, so both must be `One`.
pub open spec fn spec_blend_component_valid(
    src_factor: GpuBlendFactor,
    dst_factor: GpuBlendFactor,
    operation: GpuBlendOperation,
) -> bool {
    (operation == GpuBlendOperation::Min || operation == GpuBlendOperation::Max) ==> (src_factor
        == GpuBlendFactor::One && dst_factor == GpuBlendFactor::One)
}

/// One channel group's blend equation.
#[derive(Debug, Clone, Copy, PartialEq, Eq, Structural, PartialOrd, Ord, Hash)]
pub struct GpuBlendComponent {
    src_factor: GpuBlendFactor,
    dst_factor: GpuBlendFactor,
    operation: GpuBlendOperation,
}

impl GpuBlendComponent {
    pub closed spec fn spec_src_factor(self) -> GpuBlendFactor {
        self.src_factor
    }

    pub closed spec fn spec_dst_factor(self) -> GpuBlendFactor {
        self.dst_factor
    }

    pub closed spec fn spec_operation(self) -> GpuBlendOperation {
        self.operation
    }

    /// Builds a blend equation; `Min` and `Max` require both factors to be `One`.
    pub fn new(
        src_factor: GpuBlendFactor,
        dst_factor: GpuBlendFactor,
        operation: GpuBlendOperation,
    ) -> (r: Result<Self, GpuProgramContractError>)
        ensures
            r is Ok <==> spec_blend_component_valid(src_factor, dst_factor, operation),
            r matches Ok(c) ==> c.src_factor() == src_factor && c.dst_factor() == dst_factor
                && c.operation() == operation,
            r matches Err(e) ==> e.cause() == GpuProgramContractCause::BlendComponentInvalid
                && e.subject() == GpuProgramContractSubject::BlendComponent(operation),
    {
        let min_or_max = match operation {
            GpuBlendOperation::Min | GpuBlendOperation::Max => true,
            _ => false,
        };
        let unit_factors = match (src_factor, dst_factor) {
            (GpuBlendFactor::One, GpuBlendFactor::One) => true,
            _ => false,
        };
        if min_or_max && !unit_factors {
            return Err(
                GpuProgramContractError::invalid(
                    "construct GPU blend component",
                    GpuProgramContractSubject::BlendComponent(operation),
                    GpuProgramContractCause::BlendComponentInvalid,
                    "use One for both factors of a Min or Max blend operation",
                ),
            );
        }
        Ok(GpuBlendComponent { src_factor, dst_factor, operation })
    }

    #[verifier::when_used_as_spec(spec_src_factor)]
    pub fn src_factor(self) -> (r: GpuBlendFactor)
        ensures
            r == self.src_factor(),
    {
        self.src_factor
    }

    #[verifier::when_used_as_spec(spec_dst_factor)]
    pub fn dst_factor(self) -> (r: GpuBlendFactor)
        ensures
            r == self.dst_factor(),
    {
        self.dst_factor
    }

    #[verifier::when_used_as_spec(spec_operation)]
    pub fn operation(self) -> (r: GpuBlendOperation)
        ensures
            r == self.operation(),
    {
        self.operation
    }
}

/// Color and alpha blend equations of one color target.
#[derive(Debug, Clone, Copy, PartialEq, Eq, Structural, PartialOrd, Ord, Hash)]
pub struct GpuBlendState {
    color: GpuBlendComponent,
    alpha: GpuBlendComponent,
}

impl GpuBlendState {
    pub closed spec fn spec_color(self) -> GpuBlendComponent {
        self.color
    }

    pub closed spec fn spec_alpha(self) -> GpuBlendComponent {
        self.alpha
    }

    pub fn new(color: GpuBlendComponent, alpha: GpuBlendComponent) -> (r: Self)
        ensures
            r.color() == color,
            r.alpha() == alpha,
    {
        GpuBlendState { color, alpha }
    }

    #[verifier::when_used_as_spec(spec_color)]
    pub fn color(self) -> (r: GpuBlendComponent)
        ensures
            r == self.color(),
    {
        self.color
    }

    #[verifier::when_used_as_spec(spec_alpha)]
    pub fn alpha(self) -> (r: GpuBlendComponent)
        ensures
            r == self.alpha(),
    {
        self.alpha
    }
}

} // verus!
