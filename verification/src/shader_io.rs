//! Shader interface value types and the expected fragment-output signature.

use vstd::prelude::*;
use crate::diagnostics::{GpuProgramContractCause, GpuProgramContractError, GpuProgramContractSubject};

verus! {

/// Scalar class of a shader interface value.
#[derive(Debug, Clone, Copy, PartialEq, Eq, Structural, PartialOrd, Ord, Hash)]
pub enum GpuShaderIoScalarClass {
    Float,
    Sint,
    Uint,
}

/// Number of components of a shader interface vector, always 1 through 4.
#[derive(Debug, Clone, Copy, PartialEq, Eq, Structural, PartialOrd, Ord, Hash)]
pub struct GpuShaderIoVectorWidth(u8);

impl GpuShaderIoVectorWidth {
    pub closed spec fn spec_get(self) -> u8 {
        self.0
    }

    #[verifier::type_invariant]
    spec fn width_in_range(self) -> bool {
        1 <= self.0 <= 4
    }

    /// The component count.
    #[verifier::when_used_as_spec(spec_get)]
    pub fn get(self) -> (r: u8)
        ensures
            r == self.get(),
            1 <= r <= 4,
    {
        proof {
            use_type_invariant(&self);
        }
        self.0
    }
}

/// A scalar or vector shader interface value type.
#[derive(Debug, Clone, Copy, PartialEq, Eq, Structural, PartialOrd, Ord, Hash)]
pub struct GpuShaderIoValueType {
    scalar_class: GpuShaderIoScalarClass,
    vector_width: GpuShaderIoVectorWidth,
}

impl GpuShaderIoValueType {
    pub closed spec fn spec_scalar_class(self) -> GpuShaderIoScalarClass {
        self.scalar_class
    }

    pub closed spec fn spec_vector_width(self) -> GpuShaderIoVectorWidth {
        self.vector_width
    }

    /// Builds a value type of `width` components (1 through 4) of `scalar_class`.
    pub fn try_new(scalar_class: GpuShaderIoScalarClass, width: u8) -> (r: Result<
        Self,
        GpuProgramContractError,
    >)
        ensures
            r is Ok <==> 1 <= width <= 4,
            r matches Ok(value) ==> value.scalar_class() == scalar_class
                && value.vector_width().get() == width,
            r matches Err(e) ==> e.cause() == GpuProgramContractCause::ShaderIoTypeInvalid
                && e.subject() == GpuProgramContractSubject::ShaderIoVectorWidth(width),
    {
        if width < 1 || width > 4 {
            return Err(
                GpuProgramContractError::invalid(
                    "construct GPU shader IO value type",
                    GpuProgramContractSubject::ShaderIoVectorWidth(width),
                    GpuProgramContractCause::ShaderIoTypeInvalid,
                    "use a scalar or a vector of two, three, or four components",
                ),
            );
        }
        Ok(GpuShaderIoValueType { scalar_class, vector_width: GpuShaderIoVectorWidth(width) })
    }

    #[verifier::when_used_as_spec(spec_scalar_class)]
    pub fn scalar_class(self) -> (r: GpuShaderIoScalarClass)
        ensures
            r == self.scalar_class(),
    {
        self.scalar_class
    }

    #[verifier::when_used_as_spec(spec_vector_width)]
    pub fn vector_width(self) -> (r: GpuShaderIoVectorWidth)
        ensures
            r == self.vector_width(),
    {
        self.vector_width
    }
}

/// A shader interface location and the value type bound there.
#[derive(Debug, Clone, Copy, PartialEq, Eq, Structural, PartialOrd, Ord, Hash)]
pub struct GpuShaderIoLocation {
    location: u32,
    value_type: GpuShaderIoValueType,
}

impl GpuShaderIoLocation {
    pub closed spec fn spec_location(self) -> u32 {
        self.location
    }

    pub closed spec fn spec_value_type(self) -> GpuShaderIoValueType {
        self.value_type
    }

    pub fn new(location: u32, value_type: GpuShaderIoValueType) -> (r: Self)
        ensures
            r.location() == location,
            r.value_type() == value_type,
    {
        GpuShaderIoLocation { location, value_type }
    }

    #[verifier::when_used_as_spec(spec_location)]
    pub fn location(self) -> (r: u32)
        ensures
            r == self.location(),
    {
        self.location
    }

    #[verifier::when_used_as_spec(spec_value_type)]
    pub fn value_type(self) -> (r: GpuShaderIoValueType)
        ensures
            r == self.value_type(),
    {
        self.value_type
    }
}

/// A nonempty shader entry-point name.
#[derive(Debug, Clone, PartialEq, Eq, PartialOrd, Ord, Hash)]
pub struct GpuEntryPointName {
    name: String,
}

impl GpuEntryPointName {
    pub closed spec fn spec_name(&self) -> Seq<char> {
        self.name@
    }

    /// Accepts any nonempty name.
    pub fn new(name: &str) -> (r: Result<Self, GpuProgramContractError>)
        ensures
            r is Ok <==> name@.len() > 0,
            r matches Ok(entry) ==> entry.spec_name() == name@,
            r matches Err(e) ==> e.cause() == GpuProgramContractCause::EntryPointNameInvalid
                && e.subject() == GpuProgramContractSubject::EntryPointName,
    {
        if name.is_empty() {
            return Err(
                GpuProgramContractError::invalid(
                    "construct GPU entry-point name",
                    GpuProgramContractSubject::EntryPointName,
                    GpuProgramContractCause::EntryPointNameInvalid,
                    "name the shader entry point",
                ),
            );
        }
        Ok(GpuEntryPointName { name: name.to_owned() })
    }

    pub fn as_str(&self) -> (r: &str)
        ensures
            r@ == self.spec_name(),
    {
        self.name.as_str()
    }
}

/// Whether no two locations in `locations` share a location index.
pub open spec fn spec_locations_distinct(locations: Seq<GpuShaderIoLocation>) -> bool {
    forall|i: int, j: int|
        0 <= i < locations.len() && 0 <= j < locations.len() && i != j ==> (
        #[trigger] locations[i]).location() != (#[trigger] locations[j]).location()
}

/// The fragment outputs an entry point must declare: one value type per location.
#[derive(Debug, Clone, PartialEq, Eq, PartialOrd, Ord, Hash)]
pub struct GpuExpectedFragmentOutputSignature {
    entry_point: GpuEntryPointName,
    locations: Vec<GpuShaderIoLocation>,
}

impl GpuExpectedFragmentOutputSignature {
    pub closed spec fn spec_entry_point(&self) -> GpuEntryPointName {
        self.entry_point
    }

    pub closed spec fn spec_locations(&self) -> Seq<GpuShaderIoLocation> {
        self.locations@
    }

    /// Builds a signature; locations must be pairwise distinct.
    pub fn new(entry_point: GpuEntryPointName, locations: Vec<GpuShaderIoLocation>) -> (r: Result<
        Self,
        GpuProgramContractError,
    >)
        ensures
            r is Ok <==> spec_locations_distinct(locations@),
            r matches Ok(signature) ==> signature.spec_entry_point() == entry_point
                && signature.spec_locations() == locations@,
            r matches Err(e) ==> e.cause() == GpuProgramContractCause::FragmentOutputSignatureInvalid
                && (exists|i: int, j: int|
                0 <= i < j < locations@.len() && e.subject()
                    == GpuProgramContractSubject::DuplicateShaderIoLocation(
                    locations@[i].location(),
                ) && #[trigger] locations@[i].location() == #[trigger] locations@[j].location()),
    {
        let n = locations.len();
        let mut i: usize = 0;
        while i < n
            invariant
                n == locations@.len(),
                0 <= i <= n,
                forall|a: int, b: int|
                    0 <= a < i && 0 <= b < n && a != b ==> (#[trigger] locations@[a]).location()
                        != (#[trigger] locations@[b]).location(),
            decreases n - i,
        {
            let mut j: usize = i + 1;
            while j < n
                invariant
                    n == locations@.len(),
                    0 <= i < n,
                    i + 1 <= j <= n,
                    forall|a: int, b: int|
                        0 <= a < i && 0 <= b < n && a != b ==> (#[trigger] locations@[a]).location()
                            != (#[trigger] locations@[b]).location(),
                    forall|b: int|
                        i < b < j ==> locations@[i as int].location() != (
                        #[trigger] locations@[b]).location(),
                decreases n - j,
            {
                if locations[i].location() == locations[j].location() {
                    let duplicate = locations[i].location();
                    return Err(
                        GpuProgramContractError::invalid(
                            "construct GPU expected fragment-output signature",
                            GpuProgramContractSubject::DuplicateShaderIoLocation(duplicate),
                            GpuProgramContractCause::FragmentOutputSignatureInvalid,
                            "declare each fragment-output location at most once",
                        ),
                    );
                }
                j = j + 1;
            }
            i = i + 1;
        }
        Ok(GpuExpectedFragmentOutputSignature { entry_point, locations })
    }

    pub fn entry_point(&self) -> (r: &GpuEntryPointName)
        ensures
            *r == self.spec_entry_point(),
    {
        &self.entry_point
    }

    pub fn locations(&self) -> (r: &Vec<GpuShaderIoLocation>)
        ensures
            r@ == self.spec_locations(),
    {
        &self.locations
    }
}

} // verus!
