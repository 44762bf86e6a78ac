//! Decisions of a native device request: adapter-selection routes, fallback evidence,
//! the native features a request enables, alignment requests, and post-creation checks.

use vstd::prelude::*;
use vstd::string::StringExecFns;
use crate::capabilities::GpuCapabilityFeature;
use crate::native::{
    GpuFallbackStatus, GpuFormatRole, GpuNativeFeature, GpuNativeFeatures,
    GpuSoftwareFallbackPolicy, NativeAdapterSelectionRoute,
};
use crate::texture_format::{self, format_semantics, GpuTextureCompressionFamily, GpuTextureFormat};

verus! {

/// Categories of refused context requests.
#[derive(Debug, Clone, Copy, PartialEq, Eq, Structural, PartialOrd, Ord, Hash)]
pub enum GpuContextRequestErrorCategory {
    NoAdapterAvailable,
    BackendAdapterRequestFailure,
    BackendDeviceRequestFailure,
    DeviceRequestProfileUnsupported,
    AlignmentIncompatibility,
}

/// A refused context request: its category and a message.
#[derive(Debug, Clone, PartialEq, Eq, Hash)]
pub struct GpuContextRequestError {
    category: GpuContextRequestErrorCategory,
    message: String,
}

impl GpuContextRequestError {
    pub closed spec fn spec_category(&self) -> GpuContextRequestErrorCategory {
        self.category
    }

    pub closed spec fn spec_message(&self) -> Seq<char> {
        self.message@
    }

    /// A refusal of `category` described by `message`.
    pub fn new(category: GpuContextRequestErrorCategory, message: String) -> (e: Self)
        ensures
            e.spec_category() == category,
            e.spec_message() == message@,
    {
        GpuContextRequestError { category, message }
    }

    pub fn category(&self) -> (r: GpuContextRequestErrorCategory)
        ensures
            r == self.spec_category(),
    {
        self.category
    }

    pub fn message(&self) -> (r: &str)
        ensures
            r@ == self.spec_message(),
    {
        self.message.as_str()
    }
}

/// How native adapters are found for `policy`: a required fallback forces the backend's own
/// fallback adapter; otherwise adapters are enumerated and ranked.
pub fn native_selection_route(policy: GpuSoftwareFallbackPolicy) -> (r: NativeAdapterSelectionRoute)
    ensures
        r == if policy == GpuSoftwareFallbackPolicy::Require {
            NativeAdapterSelectionRoute::ForcedFallback
        } else {
            NativeAdapterSelectionRoute::Enumerated
        },
{
    match policy {
        GpuSoftwareFallbackPolicy::Require => NativeAdapterSelectionRoute::ForcedFallback,
        GpuSoftwareFallbackPolicy::Allow | GpuSoftwareFallbackPolicy::Forbid => NativeAdapterSelectionRoute::Enumerated,
    }
}

/// The fallback status ordinary enumeration records.
pub open spec fn spec_ordinary_enumeration_fallback_status() -> GpuFallbackStatus {
    GpuFallbackStatus::Unknown
}

/// The fallback status a backend-selected adapter records.
pub open spec fn spec_backend_selected_fallback_status(force_fallback_adapter: bool) -> GpuFallbackStatus {
    if force_fallback_adapter {
        GpuFallbackStatus::ConfirmedFallback
    } else {
        GpuFallbackStatus::Unknown
    }
}

/// Ordinary enumeration proves nothing about fallback status.
pub fn ordinary_enumeration_fallback_status() -> (r: GpuFallbackStatus)
    ensures
        r == spec_ordinary_enumeration_fallback_status(),
{
    GpuFallbackStatus::Unknown
}

/// A backend-selected adapter is a confirmed fallback only when the fallback was forced.
pub fn backend_selected_fallback_status(force_fallback_adapter: bool) -> (r: GpuFallbackStatus)
    ensures
        r == spec_backend_selected_fallback_status(force_fallback_adapter),
{
    if force_fallback_adapter {
        GpuFallbackStatus::ConfirmedFallback
    } else {
        GpuFallbackStatus::Unknown
    }
}

/// Neither adapter-discovery path claims non-fallback evidence: only a forced fallback is
/// confirmed, and nothing is ever confirmed not to be a fallback.
pub proof fn lemma_fallback_evidence_is_never_manufactured(force_fallback_adapter: bool)
    ensures
        spec_ordinary_enumeration_fallback_status() != GpuFallbackStatus::ConfirmedNotFallback,
        spec_backend_selected_fallback_status(force_fallback_adapter)
            != GpuFallbackStatus::ConfirmedNotFallback,
        spec_backend_selected_fallback_status(force_fallback_adapter)
            == GpuFallbackStatus::ConfirmedFallback <==> force_fallback_adapter,
{
}

/// Narrows an admitted alignment to the native `u32` domain; refuses a missing or
/// unrepresentable value.
pub fn requested_alignment(value: Option<u64>, label: &str) -> (r: Result<u32, GpuContextRequestError>)
    ensures
        r is Ok <==> (value matches Some(v) && v <= u32::MAX),
        r matches Ok(a) ==> value == Some(a as u64),
        r matches Err(e) ==> e.spec_category() == GpuContextRequestErrorCategory::AlignmentIncompatibility
            && e.spec_message() == label@ + if value is None {
            " has no requestable admitted value"@
        } else {
            " exceeds the pinned WGPU alignment domain"@
        },
{
    let value = match value {
        Some(v) => v,
        None => {
            return Err(
                GpuContextRequestError::new(
                    GpuContextRequestErrorCategory::AlignmentIncompatibility,
                    label.to_owned().concat(" has no requestable admitted value"),
                ),
            );
        },
    };
    if value > u32::MAX as u64 {
        return Err(
            GpuContextRequestError::new(
                GpuContextRequestErrorCategory::AlignmentIncompatibility,
                label.to_owned().concat(" exceeds the pinned WGPU alignment domain"),
            ),
        );
    }
    Ok(value as u32)
}

/// The native feature a portable capability enables, if any.
pub open spec fn spec_native_feature_for(feature: GpuCapabilityFeature) -> Option<GpuNativeFeature> {
    match feature {
        GpuCapabilityFeature::TimestampQuery => Some(GpuNativeFeature::TimestampQuery),
        GpuCapabilityFeature::TextureBindingArray => Some(GpuNativeFeature::TextureBindingArray),
        GpuCapabilityFeature::BufferBindingArray => Some(GpuNativeFeature::BufferBindingArray),
        GpuCapabilityFeature::StorageResourceBindingArray => Some(
            GpuNativeFeature::StorageResourceBindingArray,
        ),
        GpuCapabilityFeature::UniformBufferBindingArray => Some(
            GpuNativeFeature::UniformBufferBindingArrays,
        ),
        GpuCapabilityFeature::ShaderF16 => Some(GpuNativeFeature::ShaderF16),
        _ => None,
    }
}

/// The native features a portable capability enables: at most one; depth-bias clamp and the
/// baseline operations are admission facts, not native requests.
pub fn native_features_for(feature: GpuCapabilityFeature) -> (r: GpuNativeFeatures)
    ensures
        forall|f: GpuNativeFeature| r.spec_has(f) == (spec_native_feature_for(feature) == Some(f)),
{
    let empty = GpuNativeFeatures::empty();
    match feature {
        GpuCapabilityFeature::TimestampQuery => empty.with(GpuNativeFeature::TimestampQuery),
        GpuCapabilityFeature::TextureBindingArray => empty.with(GpuNativeFeature::TextureBindingArray),
        GpuCapabilityFeature::BufferBindingArray => empty.with(GpuNativeFeature::BufferBindingArray),
        GpuCapabilityFeature::StorageResourceBindingArray => empty.with(
            GpuNativeFeature::StorageResourceBindingArray,
        ),
        GpuCapabilityFeature::UniformBufferBindingArray => empty.with(
            GpuNativeFeature::UniformBufferBindingArrays,
        ),
        GpuCapabilityFeature::ShaderF16 => empty.with(GpuNativeFeature::ShaderF16),
        GpuCapabilityFeature::DepthBiasClamp => empty,
        _ => empty,
    }
}

/// Whether a required format role makes a device request enable native feature `f`.
pub open spec fn spec_role_requires(format: GpuTextureFormat, role: GpuFormatRole, f: GpuNativeFeature) -> bool {
    ||| f == GpuNativeFeature::TextureCompressionBc && format_semantics(format).compression_family
        == Some(GpuTextureCompressionFamily::Bc)
    ||| f == GpuNativeFeature::Depth32FloatStencil8 && format == GpuTextureFormat::Depth32FloatStencil8
    ||| f == GpuNativeFeature::Rg11b10UfloatRenderable && format == GpuTextureFormat::Rg11b10Ufloat
        && role == GpuFormatRole::ColorAttachment
}

/// Whether a device request for `enabled` capabilities and required `roles` enables native feature `f`.
pub open spec fn spec_requested_feature(
    enabled: Seq<GpuCapabilityFeature>,
    roles: Seq<(GpuTextureFormat, GpuFormatRole)>,
    f: GpuNativeFeature,
) -> bool {
    ||| exists|i: int| 0 <= i < enabled.len() && spec_native_feature_for(#[trigger] enabled[i]) == Some(f)
    ||| exists|j: int| 0 <= j < roles.len() && spec_role_requires((#[trigger] roles[j]).0, roles[j].1, f)
}

/// The native features a device request enables: each enabled capability's native feature,
/// BC compression for any BC format role, Depth32FloatStencil8 for any of its roles, and
/// Rg11b10 renderability for its color-attachment role.
pub fn requested_features(
    enabled: &Vec<GpuCapabilityFeature>,
    format_roles: &Vec<(GpuTextureFormat, GpuFormatRole)>,
) -> (r: GpuNativeFeatures)
    ensures
        forall|f: GpuNativeFeature| r.spec_has(f) == spec_requested_feature(enabled@, format_roles@, f),
{
    let mut features = GpuNativeFeatures::empty();
    let mut i: usize = 0;
    while i < enabled.len()
        invariant
            0 <= i <= enabled@.len(),
            forall|f: GpuNativeFeature| features.spec_has(f) == exists|k: int|
                0 <= k < i && spec_native_feature_for(#[trigger] enabled@[k]) == Some(f),
        decreases enabled@.len() - i,
    {
        let next = features.union(native_features_for(enabled[i]));
        proof {
            assert forall|f: GpuNativeFeature| next.spec_has(f) == exists|k: int|
                0 <= k < i + 1 && spec_native_feature_for(#[trigger] enabled@[k]) == Some(f) by {
                if spec_native_feature_for(enabled@[i as int]) == Some(f) {
                    assert(0 <= i < i + 1);
                }
                if exists|k: int| 0 <= k < i + 1 && spec_native_feature_for(#[trigger] enabled@[k]) == Some(f) {
                    let k = choose|k: int| 0 <= k < i + 1 && spec_native_feature_for(#[trigger] enabled@[k]) == Some(f);
                    if k < i {
                        assert(exists|k2: int| 0 <= k2 < i && spec_native_feature_for(#[trigger] enabled@[k2]) == Some(f));
                    }
                }
            }
        }
        features = next;
        i = i + 1;
    }
    let ghost from_enabled = features;
    let mut j: usize = 0;
    while j < format_roles.len()
        invariant
            0 <= j <= format_roles@.len(),
            forall|f: GpuNativeFeature| features.spec_has(f) == (from_enabled.spec_has(f) || exists|k: int|
                0 <= k < j && spec_role_requires((#[trigger] format_roles@[k]).0, format_roles@[k].1, f)),
            forall|f: GpuNativeFeature| from_enabled.spec_has(f) == exists|k: int|
                0 <= k < enabled@.len() && spec_native_feature_for(#[trigger] enabled@[k]) == Some(f),
        decreases format_roles@.len() - j,
    {
        let (format, role) = format_roles[j];
        let bc = match texture_format::compression_family(format) {
            Some(GpuTextureCompressionFamily::Bc) => true,
            None => false,
        };
        let before = features;
        if bc {
            features = features.with(GpuNativeFeature::TextureCompressionBc);
        }
        match (format, role) {
            (GpuTextureFormat::Depth32FloatStencil8, _) => {
                features = features.with(GpuNativeFeature::Depth32FloatStencil8);
            },
            (GpuTextureFormat::Rg11b10Ufloat, GpuFormatRole::ColorAttachment) => {
                features = features.with(GpuNativeFeature::Rg11b10UfloatRenderable);
            },
            _ => {},
        }
        proof {
            assert forall|f: GpuNativeFeature| features.spec_has(f) == (before.spec_has(f)
                || spec_role_requires(format, role, f)) by {}
            assert forall|f: GpuNativeFeature| features.spec_has(f) == (from_enabled.spec_has(f) || exists|k: int|
                0 <= k < j + 1 && spec_role_requires((#[trigger] format_roles@[k]).0, format_roles@[k].1, f)) by {
                if spec_role_requires(format, role, f) {
                    assert(format_roles@[j as int] == (format, role));
                    assert(0 <= j < j + 1);
                }
                if exists|k: int| 0 <= k < j + 1 && spec_role_requires((#[trigger] format_roles@[k]).0, format_roles@[k].1, f) {
                    let k = choose|k: int| 0 <= k < j + 1 && spec_role_requires((#[trigger] format_roles@[k]).0, format_roles@[k].1, f);
                    if k < j {
                        assert(exists|k2: int| 0 <= k2 < j && spec_role_requires((#[trigger] format_roles@[k2]).0, format_roles@[k2].1, f));
                    } else {
                        assert(format_roles@[k] == (format, role));
                    }
                }
            }
        }
        j = j + 1;
    }
    features
}

/// Refuses a created device that lacks any requested native feature.
pub fn verify_requested_features(requested: GpuNativeFeatures, actual: GpuNativeFeatures) -> (r: Result<
    (),
    GpuContextRequestError,
>)
    ensures
        r is Ok <==> actual.spec_contains(requested),
        r matches Err(e) ==> e.spec_category() == GpuContextRequestErrorCategory::BackendDeviceRequestFailure
            && e.spec_message() == "created device did not expose every admitted WGPU feature"@,
{
    if actual.contains(requested) {
        Ok(())
    } else {
        Err(
            GpuContextRequestError::new(
                GpuContextRequestErrorCategory::BackendDeviceRequestFailure,
                "created device did not expose every admitted WGPU feature".to_owned(),
            ),
        )
    }
}

/// A device exposing exactly what was requested always passes verification, and verification
/// is monotone in what the device exposes.
pub proof fn lemma_feature_verification_is_containment(
    requested: GpuNativeFeatures,
    actual: GpuNativeFeatures,
    larger: GpuNativeFeatures,
)
    ensures
        requested.spec_contains(requested),
        actual.spec_contains(requested) && larger.spec_contains(actual) ==> larger.spec_contains(
            requested,
        ),
{
}

/// Identity of one adapter candidate.
#[derive(Debug, Clone, Copy, PartialEq, Eq, Structural, PartialOrd, Ord, Hash)]
pub struct GpuCandidateId(pub u64);

/// An enumerated native adapter with its candidate identity.
pub struct GpuNativeAdapterCandidate<T> {
    pub id: GpuCandidateId,
    pub adapter: T,
}

/// Takes the adapter of the first candidate with the selected identity; refuses a selection
/// absent from the candidate set.
pub fn take_selected_candidate<T>(
    candidates: Vec<GpuNativeAdapterCandidate<T>>,
    selected: GpuCandidateId,
) -> (r: Result<T, GpuContextRequestError>)
    ensures
        r is Ok <==> exists|i: int| 0 <= i < candidates@.len() && (#[trigger] candidates@[i]).id == selected,
        r matches Ok(adapter) ==> exists|i: int|
            0 <= i < candidates@.len() && (#[trigger] candidates@[i]).id == selected && adapter
                == candidates@[i].adapter && forall|j: int| 0 <= j < i ==> (#[trigger] candidates@[j]).id != selected,
        r matches Err(e) ==> e.spec_category() == GpuContextRequestErrorCategory::BackendAdapterRequestFailure
            && e.spec_message() == "selected candidate ID is absent from the native candidate set"@,
{
    let ghost given = candidates@;
    let mut remaining = candidates;
    let mut i: usize = 0;
    while i < remaining.len()
        invariant
            remaining@ == given,
            given == candidates@,
            0 <= i <= given.len(),
            forall|j: int| 0 <= j < i ==> (#[trigger] given[j]).id != selected,
        decreases given.len() - i,
    {
        if remaining[i].id == selected {
            let candidate = remaining.remove(i);
            proof {
                assert(candidate == given[i as int]);
                assert(given[i as int].id == selected);
            }
            return Ok(candidate.adapter);
        }
        i = i + 1;
    }
    Err(
        GpuContextRequestError::new(
            GpuContextRequestErrorCategory::BackendAdapterRequestFailure,
            "selected candidate ID is absent from the native candidate set".to_owned(),
        ),
    )
}

} // verus!
