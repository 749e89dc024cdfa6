use crate::error::AraError;
use crate::generation::ApiGeneration;
use vstd::prelude::*;

verus! {

/// What one host service record of a document-controller host instance provides.
#[derive(Clone, Copy, Debug, PartialEq, Eq)]
pub struct ServiceShape {
    /// Whether the service's host reference is non-null.
    pub host_ref: bool,
    /// Whether the service's interface pointer is non-null.
    pub interface: bool,
    /// Whether every callback the bridge calls unconditionally is present in the interface.
    pub required_callbacks: bool,
}

/// The host services a document controller is offered.
#[derive(Clone, Copy, Debug, PartialEq, Eq)]
pub struct HostServices {
    /// Audio access (required).
    pub audio: ServiceShape,
    /// Archiving (required).
    pub archiving: ServiceShape,
    /// Whether the archiving interface provides `getDocumentArchiveID`.
    pub archive_id_callback: bool,
    /// Content access (optional).
    pub content: ServiceShape,
    /// Model-update notification (optional; every callback is optional).
    pub model_updates: ServiceShape,
    /// Playback requests (optional).
    pub playback: ServiceShape,
}

/// Which optional host services a validated host provides.
#[derive(Clone, Copy, Debug, PartialEq, Eq)]
pub struct OptionalServices {
    /// Content access is available.
    pub content: bool,
    /// Model-update notification is available.
    pub model_updates: bool,
    /// Playback requests are available.
    pub playback: bool,
}

/// Whether a required service is usable: both references are non-null and its required
/// callbacks are present.
pub open spec fn required_service_ok(s: ServiceShape) -> bool {
    s.host_ref && s.interface && s.required_callbacks
}

/// Whether an optional service is either absent (null interface) or usable; `callbacks_needed`
/// says whether its required callbacks must be present.
pub open spec fn optional_service_ok(s: ServiceShape, callbacks_needed: bool) -> bool {
    !s.interface || (s.host_ref && (!callbacks_needed || s.required_callbacks))
}

/// Whether host services are acceptable for a controller of `generation`: audio access and
/// archiving are usable, archiving provides the document archive ID from ARA 2 Final on, and
/// every optional service present is usable.
pub open spec fn host_services_ok(services: HostServices, generation: ApiGeneration) -> bool {
    &&& required_service_ok(services.audio)
    &&& services.archiving.host_ref && services.archiving.interface
    &&& (generation.rank() >= ApiGeneration::V2Final.rank() ==> services.archive_id_callback)
    &&& services.archiving.required_callbacks
    &&& optional_service_ok(services.content, true)
    &&& optional_service_ok(services.model_updates, false)
    &&& optional_service_ok(services.playback, true)
}

/// Accepted host services are complete: audio access and archiving are present with their
/// callbacks, and a content-access or playback interface that is offered has its host reference
/// and its required callbacks; only the model-update interface may lack trailing callbacks.
pub proof fn accepted_services_are_complete(services: HostServices, generation: ApiGeneration)
    requires
        host_services_ok(services, generation),
    ensures
        services.audio.host_ref && services.audio.interface && services.audio.required_callbacks,
        services.archiving.host_ref && services.archiving.interface && services.archiving.required_callbacks,
        services.content.interface ==> services.content.host_ref && services.content.required_callbacks,
        services.playback.interface ==> services.playback.host_ref && services.playback.required_callbacks,
        services.model_updates.interface ==> services.model_updates.host_ref,
{
}

/// Validates the services a host offers a document controller of `generation` and reports
/// which optional ones are available.
///
/// Fails with `Abi` when a required service is null or lacks a required callback, when an
/// ARA 2 Final or later host lacks the document archive ID callback, or when an optional
/// service is present with a null host reference or, for content access and playback, without
/// its required callbacks.
pub fn validate_host_services(services: HostServices, generation: ApiGeneration) -> (r: Result<
    OptionalServices,
    AraError,
>)
    ensures
        r is Ok <==> host_services_ok(services, generation),
        r matches Err(e) ==> e is Abi,
        r matches Ok(o) ==> o == (OptionalServices {
            content: services.content.interface,
            model_updates: services.model_updates.interface,
            playback: services.playback.interface,
        }),
{
    let audio = services.audio;
    if !audio.host_ref || !audio.interface {
        return Err(AraError::Abi("required audio-access service is null"));
    }
    if !audio.required_callbacks {
        return Err(AraError::Abi("audio-access callback is null"));
    }
    let archiving = services.archiving;
    if !archiving.host_ref || !archiving.interface {
        return Err(AraError::Abi("required archiving service is null"));
    }
    if !generation.precedes(ApiGeneration::V2Final) && !services.archive_id_callback {
        return Err(AraError::Abi("ARA 2 host must provide the document archive ID callback"));
    }
    if !archiving.required_callbacks {
        return Err(AraError::Abi("archiving callback is null"));
    }
    let content = services.content;
    if content.interface && (!content.host_ref || !content.required_callbacks) {
        return Err(AraError::Abi("content-access service is incomplete"));
    }
    let model_updates = services.model_updates;
    if model_updates.interface && !model_updates.host_ref {
        return Err(AraError::Abi("model-update host reference is null"));
    }
    let playback = services.playback;
    if playback.interface && (!playback.host_ref || !playback.required_callbacks) {
        return Err(AraError::Abi("playback service is incomplete"));
    }
    Ok(
        OptionalServices {
            content: content.interface,
            model_updates: model_updates.interface,
            playback: playback.interface,
        },
    )
}

/// The model object a host-content call scope was issued for.
#[derive(Clone, Copy, Debug, PartialEq, Eq)]
pub enum ScopeObject {
    /// A callback about one audio source, by host reference key.
    AudioSource(usize),
    /// A callback about one musical context, by host reference key.
    MusicalContext(usize),
    /// `endEditing`, where every live object is eligible.
    EndEditing,
}

impl ScopeObject {
    /// Whether content of the audio source `source` may be read in this scope.
    pub open spec fn spec_allows_audio_source(self, source: usize) -> bool {
        self is EndEditing || self == ScopeObject::AudioSource(source)
    }

    /// Whether content of the musical context `context` may be read in this scope.
    pub open spec fn spec_allows_musical_context(self, context: usize) -> bool {
        self is EndEditing || self == ScopeObject::MusicalContext(context)
    }

    /// Returns whether content of the audio source `source` may be read in this scope.
    pub fn allows_audio_source(self, source: usize) -> (b: bool)
        ensures
            b == self.spec_allows_audio_source(source),
    {
        match self {
            ScopeObject::EndEditing => true,
            ScopeObject::AudioSource(current) => current == source,
            ScopeObject::MusicalContext(_) => false,
        }
    }

    /// Returns whether content of the musical context `context` may be read in this scope.
    pub fn allows_musical_context(self, context: usize) -> (b: bool)
        ensures
            b == self.spec_allows_musical_context(context),
    {
        match self {
            ScopeObject::EndEditing => true,
            ScopeObject::MusicalContext(current) => current == context,
            ScopeObject::AudioSource(_) => false,
        }
    }

    /// Returns the current audio source of a source-scoped callback.
    pub fn current_audio_source(self) -> (r: Option<usize>)
        ensures
            r == match self {
                ScopeObject::AudioSource(s) => Some(s),
                _ => None,
            },
    {
        match self {
            ScopeObject::AudioSource(s) => Some(s),
            _ => None,
        }
    }

    /// Returns the current musical context of a context-scoped callback.
    pub fn current_musical_context(self) -> (r: Option<usize>)
        ensures
            r == match self {
                ScopeObject::MusicalContext(c) => Some(c),
                _ => None,
            },
    {
        match self {
            ScopeObject::MusicalContext(c) => Some(c),
            _ => None,
        }
    }
}

/// One host audio reader: the source it reads, its channel count, and whether it may still be
/// used.
#[derive(Clone, Copy, Debug, PartialEq, Eq)]
pub struct ReaderRecord {
    /// Host reference key of the read audio source.
    pub source_key: usize,
    /// Channel count fixed at creation.
    pub channels: usize,
    /// Whether the reader has not been revoked.
    pub alive: bool,
}

/// Lifetime bookkeeping for the audio readers of one document controller.
pub struct AudioReaderRegistry {
    readers: Vec<ReaderRecord>,
}

/// Every reader of `source` (or every reader, for `None`) is revoked; nothing else changes.
pub open spec fn revoked(readers: Seq<ReaderRecord>, source: Option<usize>) -> Seq<ReaderRecord> {
    readers.map_values(
        |r: ReaderRecord|
            if source is None || source == Some(r.source_key) {
                ReaderRecord { alive: false, ..r }
            } else {
                r
            },
    )
}

impl AudioReaderRegistry {
    /// Readers in creation order, indexed by the identifiers `open` returned.
    pub closed spec fn records(self) -> Seq<ReaderRecord> {
        self.readers@
    }

    /// Creates a registry without readers.
    pub fn new() -> (r: AudioReaderRegistry)
        ensures
            r.records().len() == 0,
    {
        AudioReaderRegistry { readers: Vec::new() }
    }

    /// Registers a reader the host created for `source_key` with `channels` channels and
    /// returns its identifier.
    ///
    /// Fails with `InvalidArgument`, registering nothing, for a null source or zero channels.
    pub fn open(&mut self, source_key: usize, channels: usize) -> (r: Result<usize, AraError>)
        ensures
            r is Ok <==> source_key != 0 && channels != 0,
            r matches Err(e) ==> e is InvalidArgument,
            r matches Ok(i) ==> i == old(self).records().len() && final(self).records()
                == old(self).records().push(ReaderRecord { source_key, channels, alive: true }),
            r is Err ==> final(self).records() == old(self).records(),
    {
        if source_key == 0 || channels == 0 {
            return Err(
                AraError::InvalidArgument("audio reader requires a source and channel count"),
            );
        }
        let i = self.readers.len();
        self.readers.push(ReaderRecord { source_key, channels, alive: true });
        Ok(i)
    }

    /// Synchronously revokes the readers of one source (or all readers, for `None`).
    pub fn revoke(&mut self, source_key: Option<usize>)
        ensures
            final(self).records() == revoked(old(self).records(), source_key),
    {
        let n = self.readers.len();
        let ghost initial = self.readers@;
        let mut i: usize = 0;
        while i < n
            invariant
                n == self.readers@.len(),
                initial.len() == n,
                0 <= i <= n,
                forall|j: int| 0 <= j < i ==> self.readers@[j] == revoked(initial, source_key)[j],
                forall|j: int| i <= j < n ==> self.readers@[j] == initial[j],
            decreases n - i,
        {
            let r = self.readers[i];
            let matches = match source_key {
                Some(s) => s == r.source_key,
                None => true,
            };
            if matches {
                self.readers.set(i, ReaderRecord { alive: false, ..r });
            }
            i += 1;
        }
        proof {
            assert(self.readers@ =~= revoked(initial, source_key));
        }
    }

    /// Whether a read of buffers with these lengths through reader `reader` may be issued.
    pub open spec fn read_allowed(self, reader: int, lengths: Seq<usize>) -> bool {
        &&& 0 <= reader < self.records().len()
        &&& self.records()[reader].alive
        &&& lengths.len() == self.records()[reader].channels
        &&& lengths.len() > 0
        &&& forall|j: int| 0 <= j < lengths.len() ==> #[trigger] lengths[j] == lengths[0]
        &&& lengths[0] <= i64::MAX
    }

    /// Checks a planar read request and returns its per-channel sample count.
    ///
    /// Fails with `InvalidState` for an unknown or revoked reader and with `InvalidArgument`
    /// for a channel-count mismatch, unequal buffer lengths, or a length beyond `i64`.
    pub fn check_read(&self, reader: usize, lengths: &[usize]) -> (r: Result<i64, AraError>)
        ensures
            r is Ok <==> self.read_allowed(reader as int, lengths@),
            r matches Ok(count) ==> count == lengths@[0],
            (reader >= self.records().len() || !self.records()[reader as int].alive) ==> (r matches Err(e)
                && e is InvalidState),
            r matches Err(e) ==> e is InvalidState || e is InvalidArgument,
    {
        if reader >= self.readers.len() || !self.readers[reader].alive {
            return Err(AraError::InvalidState("host audio reader has been revoked"));
        }
        if lengths.len() != self.readers[reader].channels || lengths.len() == 0 {
            return Err(AraError::InvalidArgument("audio channel count mismatch"));
        }
        let count = lengths[0];
        let n = lengths.len();
        let mut i: usize = 1;
        while i < n
            invariant
                n == lengths@.len(),
                count == lengths@[0],
                reader < self.readers@.len(),
                self.readers@[reader as int].alive,
                n == self.readers@[reader as int].channels,
                1 <= i <= n,
                forall|j: int| 0 <= j < i ==> lengths@[j] == count,
            decreases n - i,
        {
            if lengths[i] != count {
                return Err(
                    AraError::InvalidArgument("audio channel buffers must have equal lengths"),
                );
            }
            i += 1;
        }
        if count as u64 > i64::MAX as u64 {
            return Err(AraError::InvalidArgument("audio read length overflow"));
        }
        Ok(count as i64)
    }
}

/// Revoking a source's readers never revives a reader and leaves other sources' readers alone.
pub proof fn revocation_is_targeted(readers: Seq<ReaderRecord>, source: usize)
    ensures
        forall|j: int| 0 <= j < readers.len() ==> {
            let after = #[trigger] revoked(readers, Some(source))[j];
            &&& (after.alive ==> readers[j].alive)
            &&& (readers[j].source_key == source ==> !after.alive)
            &&& (readers[j].source_key != source ==> after == readers[j])
        },
{
}

} // verus!
