//! Typed rejections. Every error records the operation that refused, what it was about,
//! a cause that callers match on, and a correction hint.

use vstd::prelude::*;
use crate::blend::GpuBlendOperation;
use crate::render_state::GpuBlendMode;
use crate::texture_format::GpuTextureFormat;
use crate::texture_resource::{GpuResourceId, GpuTextureAccessError};

verus! {

/// Why a program-contract descriptor was refused.
#[derive(Debug, Clone, Copy, PartialEq, Eq, Structural, PartialOrd, Ord, Hash)]
pub enum GpuProgramContractCause {
    RenderAttachmentStateInvalid,
    ShaderIoTypeInvalid,
    FragmentOutputSignatureInvalid,
    EntryPointNameInvalid,
    BlendComponentInvalid,
    VertexInputInvalid,
}

/// What a refused program-contract request was about.
#[derive(Debug, Clone, Copy, PartialEq, Eq, PartialOrd, Ord, Hash)]
pub enum GpuProgramContractSubject {
    ColorWriteMask(u8),
    ColorFormat(GpuTextureFormat),
    ColorBlend(GpuTextureFormat, GpuBlendMode),
    DepthStencilWithoutState(GpuTextureFormat),
    DepthFormat(GpuTextureFormat),
    StencilFormat(GpuTextureFormat),
    ColorTargetCount(usize),
    ShaderIoVectorWidth(u8),
    DuplicateShaderIoLocation(u32),
    EntryPointName,
    BlendComponent(GpuBlendOperation),
    VertexBufferSlot(u32),
}

/// A refused program-contract request.
#[derive(Debug, Clone, Copy, PartialEq, Eq, PartialOrd, Ord, Hash)]
pub struct GpuProgramContractError {
    operation: &'static str,
    subject: GpuProgramContractSubject,
    cause: GpuProgramContractCause,
    correction: &'static str,
}

impl GpuProgramContractError {
    pub closed spec fn spec_operation(self) -> &'static str {
        self.operation
    }

    pub closed spec fn spec_subject(self) -> GpuProgramContractSubject {
        self.subject
    }

    pub closed spec fn spec_cause(self) -> GpuProgramContractCause {
        self.cause
    }

    pub closed spec fn spec_correction(self) -> &'static str {
        self.correction
    }

    /// Records a refusal.
    pub fn invalid(
        operation: &'static str,
        subject: GpuProgramContractSubject,
        cause: GpuProgramContractCause,
        correction: &'static str,
    ) -> (e: Self)
        ensures
            e.operation() == operation,
            e.subject() == subject,
            e.cause() == cause,
            e.correction() == correction,
    {
        GpuProgramContractError { operation, subject, cause, correction }
    }

    #[verifier::when_used_as_spec(spec_operation)]
    pub fn operation(self) -> (r: &'static str)
        ensures
            r == self.operation(),
    {
        self.operation
    }

    #[verifier::when_used_as_spec(spec_subject)]
    pub fn subject(self) -> (r: GpuProgramContractSubject)
        ensures
            r == self.subject(),
    {
        self.subject
    }

    #[verifier::when_used_as_spec(spec_cause)]
    pub fn cause(self) -> (r: GpuProgramContractCause)
        ensures
            r == self.cause(),
    {
        self.cause
    }

    #[verifier::when_used_as_spec(spec_correction)]
    pub fn correction(self) -> (r: &'static str)
        ensures
            r == self.correction(),
    {
        self.correction
    }
}

/// Why a work operation (clear values, attachments, resolves) was refused.
#[derive(Debug, Clone, Copy, PartialEq, Eq, Structural, PartialOrd, Ord, Hash)]
pub enum GpuWorkOperationCause {
    NonFiniteClearValue,
    OutOfRangeClearValue,
    InvalidAttachment,
    InvalidMultisampleResolve,
}

/// What a refused work operation was about: a clear value or aspect, or a texture or view
/// named by its label.
#[derive(Debug, Clone, PartialEq, Eq, PartialOrd, Ord, Hash)]
pub enum GpuWorkOperationSubject {
    ColorClearComponent(usize),
    DepthClearValue,
    StencilClearValue(u32),
    DepthAspect,
    StencilAspect,
    Labeled(String),
}

/// A refused work operation.
#[derive(Debug, Clone, PartialEq, Eq, PartialOrd, Ord, Hash)]
pub struct GpuWorkOperationError {
    operation: &'static str,
    subject: GpuWorkOperationSubject,
    identity: Option<GpuResourceId>,
    cause: GpuWorkOperationCause,
    correction: &'static str,
    access_error: Option<GpuTextureAccessError>,
}

impl GpuWorkOperationError {
    pub closed spec fn spec_operation(&self) -> &'static str {
        self.operation
    }

    pub closed spec fn spec_subject(&self) -> GpuWorkOperationSubject {
        self.subject
    }

    pub closed spec fn spec_identity(&self) -> Option<GpuResourceId> {
        self.identity
    }

    pub closed spec fn spec_cause(&self) -> GpuWorkOperationCause {
        self.cause
    }

    pub closed spec fn spec_correction(&self) -> &'static str {
        self.correction
    }

    pub closed spec fn spec_access_error(&self) -> Option<GpuTextureAccessError> {
        self.access_error
    }

    /// Records a refusal decided by the work operation itself.
    pub fn invalid(
        operation: &'static str,
        subject: GpuWorkOperationSubject,
        identity: Option<GpuResourceId>,
        cause: GpuWorkOperationCause,
        correction: &'static str,
    ) -> (e: Self)
        ensures
            e.operation() == operation,
            e.spec_subject() == subject,
            e.identity() == identity,
            e.cause() == cause,
            e.correction() == correction,
            e.access_error() == None::<GpuTextureAccessError>,
    {
        GpuWorkOperationError { operation, subject, identity, cause, correction, access_error: None }
    }

    /// Records a refusal caused by a texture-access validation failure.
    pub fn from_access(
        operation: &'static str,
        subject: GpuWorkOperationSubject,
        cause: GpuWorkOperationCause,
        correction: &'static str,
        source: GpuTextureAccessError,
    ) -> (e: Self)
        ensures
            e.operation() == operation,
            e.spec_subject() == subject,
            e.identity() == None::<GpuResourceId>,
            e.cause() == cause,
            e.correction() == correction,
            e.access_error() == Some(source),
    {
        GpuWorkOperationError {
            operation,
            subject,
            identity: None,
            cause,
            correction,
            access_error: Some(source),
        }
    }

    #[verifier::when_used_as_spec(spec_operation)]
    pub fn operation(&self) -> (r: &'static str)
        ensures
            r == self.operation(),
    {
        self.operation
    }

    pub fn subject(&self) -> (r: &GpuWorkOperationSubject)
        ensures
            *r == self.spec_subject(),
    {
        &self.subject
    }

    #[verifier::when_used_as_spec(spec_identity)]
    pub fn identity(&self) -> (r: Option<GpuResourceId>)
        ensures
            r == self.identity(),
    {
        self.identity
    }

    #[verifier::when_used_as_spec(spec_cause)]
    pub fn cause(&self) -> (r: GpuWorkOperationCause)
        ensures
            r == self.cause(),
    {
        self.cause
    }

    #[verifier::when_used_as_spec(spec_correction)]
    pub fn correction(&self) -> (r: &'static str)
        ensures
            r == self.correction(),
    {
        self.correction
    }

    #[verifier::when_used_as_spec(spec_access_error)]
    pub fn access_error(&self) -> (r: Option<GpuTextureAccessError>)
        ensures
            r == self.access_error(),
    {
        self.access_error
    }
}

} // verus!
