use crate::error::AraError;
use vstd::prelude::*;

verus! {

/// Processor family of the compiled binary, which decides whether ARA 1 is available.
#[derive(Clone, Copy, Debug, PartialEq, Eq)]
pub enum TargetArch {
    /// 32-bit x86.
    X86,
    /// 64-bit x86.
    X86_64,
    /// 64-bit ARM.
    Aarch64,
    /// Any other processor family.
    Other,
}

impl TargetArch {
    /// ARA 1 binaries exist only for the x86 family.
    pub open spec fn spec_supports_ara1(self) -> bool {
        self == TargetArch::X86 || self == TargetArch::X86_64
    }

    /// Returns whether the deprecated ARA 1 generations can be negotiated on this target.
    pub fn supports_ara1(self) -> (b: bool)
        ensures
            b == self.spec_supports_ara1(),
    {
        match self {
            TargetArch::X86 => true,
            TargetArch::X86_64 => true,
            TargetArch::Aarch64 => false,
            TargetArch::Other => false,
        }
    }
}

/// Released ARA API generations, in protocol order.
#[derive(Clone, Copy, Debug, PartialEq, Eq)]
pub enum ApiGeneration {
    /// ARA 1.0 Final.
    V1Final,
    /// ARA 2.0 Draft.
    V2Draft,
    /// ARA 2.0 Final.
    V2Final,
    /// ARA 2.3 Final.
    V23Final,
}

/// The raw `ARAAPIGeneration` value of a released generation.
pub open spec fn generation_raw(g: ApiGeneration) -> i32 {
    match g {
        ApiGeneration::V1Final => 2,
        ApiGeneration::V2Draft => 3,
        ApiGeneration::V2Final => 4,
        ApiGeneration::V23Final => 6,
    }
}

impl ApiGeneration {
    /// Every released generation in ascending order.
    pub const ALL: [ApiGeneration; 4] = [
        ApiGeneration::V1Final,
        ApiGeneration::V2Draft,
        ApiGeneration::V2Final,
        ApiGeneration::V23Final,
    ];

    /// Position of the generation in protocol order; the raw value orders the same way.
    pub open spec fn rank(self) -> int {
        generation_raw(self) as int
    }

    /// Returns the raw `ARAAPIGeneration` value.
    pub fn as_raw(self) -> (r: i32)
        ensures
            r == generation_raw(self),
    {
        match self {
            ApiGeneration::V1Final => 2,
            ApiGeneration::V2Draft => 3,
            ApiGeneration::V2Final => 4,
            ApiGeneration::V23Final => 6,
        }
    }

    /// Maps a raw `ARAAPIGeneration` value to a released generation.
    pub fn try_from_raw(raw: i32) -> (r: Result<ApiGeneration, AraError>)
        ensures
            r is Ok <==> (raw == 2 || raw == 3 || raw == 4 || raw == 6),
            r matches Ok(g) ==> generation_raw(g) == raw,
            r matches Err(e) ==> e is InvalidArgument,
    {
        if raw == 2 {
            Ok(ApiGeneration::V1Final)
        } else if raw == 3 {
            Ok(ApiGeneration::V2Draft)
        } else if raw == 4 {
            Ok(ApiGeneration::V2Final)
        } else if raw == 6 {
            Ok(ApiGeneration::V23Final)
        } else {
            Err(AraError::InvalidArgument("unknown or unreleased ARA API generation"))
        }
    }

    /// Returns whether `self` comes strictly before `other` in protocol order.
    pub fn precedes(self, other: ApiGeneration) -> (b: bool)
        ensures
            b == (self.rank() < other.rank()),
    {
        self.as_raw() < other.as_raw()
    }

    /// Whether the generation is one of the deprecated ARA 1 generations.
    pub open spec fn spec_is_legacy(self) -> bool {
        self.rank() < ApiGeneration::V2Draft.rank()
    }

    /// Returns whether the generation predates ARA 2.
    pub fn is_legacy(self) -> (b: bool)
        ensures
            b == self.spec_is_legacy(),
    {
        self.precedes(ApiGeneration::V2Draft)
    }

    /// Whether the generation can be negotiated on the given target.
    pub open spec fn spec_supported_on(self, target: TargetArch) -> bool {
        !self.spec_is_legacy() || target.spec_supports_ara1()
    }

    /// Returns whether the generation can be negotiated on the given target.
    pub fn supported_on(self, target: TargetArch) -> (b: bool)
        ensures
            b == self.spec_supported_on(target),
    {
        !self.is_legacy() || target.supports_ara1()
    }
}

/// The raw value determines the generation: distinct generations have distinct raw values.
pub proof fn raw_generation_is_injective(a: ApiGeneration, b: ApiGeneration)
    ensures
        generation_raw(a) == generation_raw(b) ==> a == b,
{
}

} // verus!
