use crate::error::AraError;
use crate::generation::{ApiGeneration, TargetArch};
use vstd::prelude::*;

verus! {

/// Optional document-controller tail capabilities affecting the represented prefix.
#[derive(Clone, Copy, Debug, PartialEq, Eq)]
pub struct ControllerCapabilities {
    /// Processing-algorithm callbacks.
    pub processing_algorithms: bool,
    /// Licensing callbacks.
    pub licensing: bool,
    /// Audio-file chunk persistence callbacks.
    pub audio_file_chunk_storage: bool,
    /// Signal-preservation query.
    pub signal_preservation: bool,
}

impl Default for ControllerCapabilities {
    fn default() -> (c: ControllerCapabilities)
        ensures
            !c.spec_any(),
    {
        ControllerCapabilities {
            processing_algorithms: false,
            licensing: false,
            audio_file_chunk_storage: false,
            signal_preservation: false,
        }
    }
}

impl ControllerCapabilities {
    /// Enables or disables the processing-algorithm callback group.
    pub fn with_processing_algorithms(self, enabled: bool) -> (c: ControllerCapabilities)
        ensures
            c == (ControllerCapabilities { processing_algorithms: enabled, ..self }),
    {
        ControllerCapabilities { processing_algorithms: enabled, ..self }
    }

    /// Enables or disables licensing callbacks.
    pub fn with_licensing(self, enabled: bool) -> (c: ControllerCapabilities)
        ensures
            c == (ControllerCapabilities { licensing: enabled, ..self }),
    {
        ControllerCapabilities { licensing: enabled, ..self }
    }

    /// Enables or disables audio-file chunk persistence callbacks.
    pub fn with_audio_file_chunk_storage(self, enabled: bool) -> (c: ControllerCapabilities)
        ensures
            c == (ControllerCapabilities { audio_file_chunk_storage: enabled, ..self }),
    {
        ControllerCapabilities { audio_file_chunk_storage: enabled, ..self }
    }

    /// Enables or disables the signal-preservation query.
    pub fn with_signal_preservation(self, enabled: bool) -> (c: ControllerCapabilities)
        ensures
            c == (ControllerCapabilities { signal_preservation: enabled, ..self }),
    {
        ControllerCapabilities { signal_preservation: enabled, ..self }
    }

    /// Whether any optional tail capability is enabled.
    pub open spec fn spec_any(self) -> bool {
        self.processing_algorithms || self.licensing || self.audio_file_chunk_storage
            || self.signal_preservation
    }

    /// Returns whether any optional tail capability is enabled.
    pub fn any(self) -> (b: bool)
        ensures
            b == self.spec_any(),
    {
        self.processing_algorithms || self.licensing || self.audio_file_chunk_storage
            || self.signal_preservation
    }
}

/// Callbacks every controller of a generation represents: through `destroyContentReader` for
/// ARA 1, through `getPlaybackRegionHeadAndTailTime` for ARA 2 Draft, and through
/// `storeObjectsToArchive` from ARA 2 Final on.
pub open spec fn generation_prefix(generation: ApiGeneration) -> nat {
    if generation.spec_is_legacy() {
        41
    } else if generation.rank() < ApiGeneration::V2Final.rank() {
        45
    } else {
        47
    }
}

/// Represented prefix length: the generation's prefix extended through the latest enabled tail
/// capability (processing algorithms 51, licensing 52, audio-file chunks 53, signal
/// preservation 54).
pub open spec fn represented_count(generation: ApiGeneration, capabilities: ControllerCapabilities) -> nat {
    if capabilities.signal_preservation {
        54
    } else if capabilities.audio_file_chunk_storage {
        53
    } else if capabilities.licensing {
        52
    } else if capabilities.processing_algorithms {
        51
    } else {
        generation_prefix(generation)
    }
}

/// Document-controller interface description with one advertised consecutive prefix.
#[derive(Clone, Copy, Debug, PartialEq, Eq)]
pub struct ControllerInterface {
    generation: ApiGeneration,
    capabilities: ControllerCapabilities,
    represented_callbacks: usize,
}

impl ControllerInterface {
    /// Number of callbacks in the advertised prefix.
    pub closed spec fn spec_represented(self) -> nat {
        self.represented_callbacks as nat
    }

    /// Returns the number of callbacks covered by the advertised prefix.
    pub fn represented_callback_count(&self) -> (n: usize)
        ensures
            n == self.spec_represented(),
    {
        self.represented_callbacks
    }

    /// Generation the prefix was built for.
    pub closed spec fn spec_generation(self) -> ApiGeneration {
        self.generation
    }

    /// Capabilities the prefix was built for.
    pub closed spec fn spec_capabilities(self) -> ControllerCapabilities {
        self.capabilities
    }

    /// Returns the generation the prefix was built for.
    pub fn generation(&self) -> (g: ApiGeneration)
        ensures
            g == self.spec_generation(),
    {
        self.generation
    }

    /// Returns the capabilities the prefix was built for.
    pub fn capabilities(&self) -> (c: ControllerCapabilities)
        ensures
            c == self.spec_capabilities(),
    {
        self.capabilities
    }
}

/// Builds the generation-required prefix and extends it through the latest enabled capability.
///
/// Fails with `Unsupported` when the generation is unavailable on `target`, or when an
/// optional capability is requested before ARA 2 Final.
pub fn document_controller_interface(
    generation: ApiGeneration,
    capabilities: ControllerCapabilities,
    target: TargetArch,
) -> (r: Result<ControllerInterface, AraError>)
    ensures
        r is Ok <==> generation.spec_supported_on(target) && !(generation.rank()
            < ApiGeneration::V2Final.rank() && capabilities.spec_any()),
        r matches Err(e) ==> e is Unsupported,
        r matches Ok(i) ==> i.spec_represented() == represented_count(generation, capabilities)
            && i.spec_generation() == generation && i.spec_capabilities() == capabilities,
{
    if !generation.supported_on(target) {
        return Err(
            AraError::Unsupported("document-controller generation is unavailable on this target"),
        );
    }
    if generation.precedes(ApiGeneration::V2Final) && capabilities.any() {
        return Err(
            AraError::Unsupported("ARA 2 document-controller capabilities require ARA 2 Final"),
        );
    }
    let mut represented: usize = if generation.is_legacy() {
        41
    } else if generation.precedes(ApiGeneration::V2Final) {
        45
    } else {
        47
    };
    if capabilities.processing_algorithms {
        represented = 51;
    }
    if capabilities.licensing {
        represented = 52;
    }
    if capabilities.audio_file_chunk_storage {
        represented = 53;
    }
    if capabilities.signal_preservation {
        represented = 54;
    }
    Ok(ControllerInterface { generation, capabilities, represented_callbacks: represented })
}

/// Enabling a later capability never shrinks the represented prefix, and every prefix ends at
/// or after the generation's own.
pub proof fn represented_prefix_is_monotonic(
    generation: ApiGeneration,
    capabilities: ControllerCapabilities,
)
    ensures
        represented_count(generation, capabilities) >= generation_prefix(generation),
        represented_count(generation, capabilities.with_spec_signal()) == 54,
        represented_count(generation, capabilities) <= 54,
{
}

impl ControllerCapabilities {
    /// `self` with the signal-preservation query enabled.
    pub open spec fn with_spec_signal(self) -> ControllerCapabilities {
        ControllerCapabilities { signal_preservation: true, ..self }
    }
}

} // verus!
