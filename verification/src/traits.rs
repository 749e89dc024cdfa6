use crate::error::AraError;
use crate::generation::ApiGeneration;
use crate::handle::{MusicalContextKind, ModelRef, RawHandle, RegionSequenceKind};
use vstd::prelude::*;

verus! {

/// Context supplied while an application object has a provisional stable identity.
#[derive(Clone, Copy, Debug)]
pub struct CreateContext {
    generation: ApiGeneration,
    object: Option<RawHandle>,
    realtime_key: Option<u64>,
}

impl CreateContext {
    /// Negotiated generation seen by the delegate.
    pub closed spec fn spec_generation(self) -> ApiGeneration {
        self.generation
    }

    /// Provisional identity seen by the delegate, `None` for the document.
    pub closed spec fn spec_object(self) -> Option<RawHandle> {
        self.object
    }

    /// Realtime lookup key seen by the delegate, `None` for the document.
    pub closed spec fn spec_realtime_key(self) -> Option<u64> {
        self.realtime_key
    }

    /// The context handed to the delegate while the document is created.
    pub closed spec fn for_document(generation: ApiGeneration) -> CreateContext {
        CreateContext { generation, object: None, realtime_key: None }
    }

    /// The context handed to the delegate while the object with provisional identity `handle`
    /// is created.
    pub closed spec fn for_object(generation: ApiGeneration, handle: RawHandle) -> CreateContext {
        CreateContext { generation, object: Some(handle), realtime_key: Some(handle.id) }
    }

    pub(crate) fn document(generation: ApiGeneration) -> (c: CreateContext)
        ensures
            c == CreateContext::for_document(generation),
            c.spec_generation() == generation,
            c.spec_object() is None,
            c.spec_realtime_key() is None,
    {
        CreateContext { generation, object: None, realtime_key: None }
    }

    pub(crate) fn object(generation: ApiGeneration, handle: RawHandle) -> (c: CreateContext)
        ensures
            c == CreateContext::for_object(generation, handle),
            c.spec_generation() == generation,
            c.spec_object() == Some(handle),
            c.spec_realtime_key() == Some(handle.id),
    {
        CreateContext { generation, object: Some(handle), realtime_key: Some(handle.id) }
    }

    /// Returns the negotiated API generation.
    pub fn generation(&self) -> (g: ApiGeneration)
        ensures
            g == self.spec_generation(),
    {
        self.generation
    }

    /// Returns the provisional object identity, or `None` while creating the document.
    pub fn object_handle(&self) -> (o: Option<RawHandle>)
        ensures
            o == self.spec_object(),
    {
        self.object
    }

    /// Returns the stable allocation-free lookup key for this provisional model identity.
    pub fn realtime_key(&self) -> (k: Option<u64>)
        ensures
            k == self.spec_realtime_key(),
    {
        self.realtime_key
    }
}

/// What the delegate learns from a creation context: the document's context carries the
/// generation and neither an identity nor a realtime key; an object's context carries the
/// generation, the provisional identity and that identity's number as realtime key.
pub proof fn create_context_contents(generation: ApiGeneration, handle: RawHandle)
    ensures
        CreateContext::for_document(generation).spec_generation() == generation,
        CreateContext::for_document(generation).spec_object() is None,
        CreateContext::for_document(generation).spec_realtime_key() is None,
        CreateContext::for_object(generation, handle).spec_generation() == generation,
        CreateContext::for_object(generation, handle).spec_object() == Some(handle),
        CreateContext::for_object(generation, handle).spec_realtime_key() == Some(handle.id),
{
}

/// Region-sequence properties: the required musical context and the application's data.
pub struct RegionSequenceProperties<D> {
    /// Reference to the musical context that owns the sequence.
    pub musical_context: ModelRef<MusicalContextKind>,
    /// Remaining properties, interpreted only by the application.
    pub data: D,
}

/// Playback-region properties: the parent references the runtime validates and the
/// application's data.
pub struct PlaybackRegionProperties<D> {
    /// Containing region sequence (ARA 2 and later).
    pub region_sequence: Option<ModelRef<RegionSequenceKind>>,
    /// Musical context of the region (ARA 1).
    pub musical_context: Option<ModelRef<MusicalContextKind>>,
    /// Remaining properties, interpreted only by the application.
    pub data: D,
}

/// Creates, updates, and tears down application-owned document state.
pub trait DocumentLifecycle: Sized {
    /// Application state retained for the document-controller lifetime.
    type Document;

    /// Document properties as the application receives them.
    type DocumentProperties;

    /// What the application states of one `create_document` call: the delegate held `before`,
    /// was handed `context` and `properties`, returned `result` and then held `after`. By
    /// default nothing is stated.
    open spec fn creates_document(
        before: Self,
        after: Self,
        context: CreateContext,
        properties: Self::DocumentProperties,
        result: Result<Self::Document, AraError>,
    ) -> bool {
        true
    }

    /// Creates the document state after the runtime has validated host input.
    fn create_document(
        &mut self,
        context: &CreateContext,
        properties: Self::DocumentProperties,
    ) -> (r: Result<Self::Document, AraError>)
        ensures
            Self::creates_document(*old(self), *final(self), *context, properties, r),
    ;

    /// What the application states of one `update_document` call: the delegate held `before`, the
    /// document held `document_before`, the call was handed `properties` and returned `result`, and
    /// then the delegate held `after` and the document `document_after`. By default nothing is
    /// stated.
    open spec fn updates_document(
        before: Self,
        after: Self,
        document_before: Self::Document,
        document_after: Self::Document,
        properties: Self::DocumentProperties,
        result: Result<(), AraError>,
    ) -> bool {
        true
    }

    /// Applies copied document display properties.
    fn update_document(
        &mut self,
        document: &mut Self::Document,
        properties: Self::DocumentProperties,
    ) -> (r: Result<(), AraError>)
        ensures
            Self::updates_document(*old(self), *final(self), *old(document), *final(document), properties, r),
    ;

    /// What the application states of one `begin_editing` call: the delegate held `before` and
    /// the document `document_before`, it returned `result`, and then the delegate held `after`
    /// and the document `document_after`. By default nothing is stated.
    open spec fn begins_editing(
        before: Self,
        after: Self,
        document_before: Self::Document,
        document_after: Self::Document,
        result: Result<(), AraError>,
    ) -> bool {
        true
    }

    /// Observes the start of a host editing session before graph callbacks are accepted.
    fn begin_editing(
        &mut self,
        document: &mut Self::Document,
    ) -> (r: Result<(), AraError>)
        ensures
            Self::begins_editing(*old(self), *final(self), *old(document), *final(document), r),
    ;

    /// What the application states of one `end_editing` call: the delegate held `before` and
    /// the document `document_before`, it returned `result`, and then the delegate held `after`
    /// and the document `document_after`. By default nothing is stated.
    open spec fn ends_editing(
        before: Self,
        after: Self,
        document_before: Self::Document,
        document_after: Self::Document,
        result: Result<(), AraError>,
    ) -> bool {
        true
    }

    /// Finalizes deferred model work at the end of an editing session.
    fn end_editing(
        &mut self,
        document: &mut Self::Document,
    ) -> (r: Result<(), AraError>)
        ensures
            Self::ends_editing(*old(self), *final(self), *old(document), *final(document), r),
    ;

    /// What the application states of one `destroy_document` call: the delegate held `before`,
    /// was handed `document` and then held `after`. By default nothing is stated.
    open spec fn destroys_document(before: Self, after: Self, document: Self::Document) -> bool {
        true
    }

    /// Observes document teardown after all child identities are invalidated.
    fn destroy_document(&mut self, document: Self::Document)
        ensures
            Self::destroys_document(*old(self), *final(self), document),
    ;
}

/// Owns application state for musical contexts.
pub trait MusicalContexts: Sized {
    /// Application state retained for one musical context.
    type MusicalContext;

    /// Musical-context properties as the application receives them.
    type MusicalContextProperties;

    /// Changed content range as the application receives it.
    type MusicalContextRange;

    /// What the application states of one `create_musical_context` call: the delegate held
    /// `before`, was handed `context` and `properties`, returned `result` and then held `after`. By
    /// default nothing is stated.
    open spec fn creates_musical_context(
        before: Self,
        after: Self,
        context: CreateContext,
        properties: Self::MusicalContextProperties,
        result: Result<Self::MusicalContext, AraError>,
    ) -> bool {
        true
    }

    /// Creates state for a provisionally registered musical-context identity.
    fn create_musical_context(
        &mut self,
        context: &CreateContext,
        properties: Self::MusicalContextProperties,
    ) -> (r: Result<Self::MusicalContext, AraError>)
        ensures
            Self::creates_musical_context(*old(self), *final(self), *context, properties, r),
    ;

    /// What the application states of one `update_musical_context` call: the delegate held
    /// `before`, the state held `state_before`, the call was handed `properties` and returned
    /// `result`, and then the delegate held `after` and the state `state_after`. By default nothing
    /// is stated.
    open spec fn updates_musical_context(
        before: Self,
        after: Self,
        state_before: Self::MusicalContext,
        state_after: Self::MusicalContext,
        properties: Self::MusicalContextProperties,
        result: Result<(), AraError>,
    ) -> bool {
        true
    }

    /// Applies copied musical-context properties.
    fn update_musical_context(
        &mut self,
        state: &mut Self::MusicalContext,
        properties: Self::MusicalContextProperties,
    ) -> (r: Result<(), AraError>)
        ensures
            Self::updates_musical_context(*old(self), *final(self), *old(state), *final(state), properties, r),
    ;

    /// What the application states of one `update_musical_context_content` call: the delegate held
    /// `before`, the state held `state_before`, the call was handed `range`, `flags` and returned
    /// `result`, and then the delegate held `after` and the state `state_after`. By default nothing
    /// is stated.
    open spec fn updates_musical_context_content(
        before: Self,
        after: Self,
        state_before: Self::MusicalContext,
        state_after: Self::MusicalContext,
        range: Option<Self::MusicalContextRange>,
        flags: crate::updates::ContentUpdateScopes,
        result: Result<(), AraError>,
    ) -> bool {
        true
    }

    /// Applies a host-originated musical-context content change.
    fn update_musical_context_content(
        &mut self,
        state: &mut Self::MusicalContext,
        range: Option<Self::MusicalContextRange>,
        flags: crate::updates::ContentUpdateScopes,
    ) -> (r: Result<(), AraError>)
        ensures
            Self::updates_musical_context_content(*old(self), *final(self), *old(state), *final(state), range, flags, r),
    ;

    /// What the application states of one `destroy_musical_context` call: the delegate held
    /// `before`, was handed `state` and then held `after`. By default nothing is stated.
    open spec fn destroys_musical_context(before: Self, after: Self, state: Self::MusicalContext) -> bool {
        true
    }

    /// Observes teardown after the identity is invalidated.
    fn destroy_musical_context(&mut self, state: Self::MusicalContext)
        ensures
            Self::destroys_musical_context(*old(self), *final(self), state),
    ;
}

/// Owns application state for region sequences.
pub trait RegionSequences: Sized {
    /// Application state retained for one region sequence.
    type RegionSequence;

    /// Region-sequence property data interpreted only by the application.
    type RegionSequenceData;

    /// What the application states of one `create_region_sequence` call: the delegate held
    /// `before`, was handed `context` and `properties`, returned `result` and then held `after`. By
    /// default nothing is stated.
    open spec fn creates_region_sequence(
        before: Self,
        after: Self,
        context: CreateContext,
        properties: RegionSequenceProperties<Self::RegionSequenceData>,
        result: Result<Self::RegionSequence, AraError>,
    ) -> bool {
        true
    }

    /// Creates state for a provisionally registered region-sequence identity.
    fn create_region_sequence(
        &mut self,
        context: &CreateContext,
        properties: RegionSequenceProperties<Self::RegionSequenceData>,
    ) -> (r: Result<Self::RegionSequence, AraError>)
        ensures
            Self::creates_region_sequence(*old(self), *final(self), *context, properties, r),
    ;

    /// What the application states of one `update_region_sequence` call: the delegate held
    /// `before`, the state held `state_before`, the call was handed `properties` and returned
    /// `result`, and then the delegate held `after` and the state `state_after`. By default nothing
    /// is stated.
    open spec fn updates_region_sequence(
        before: Self,
        after: Self,
        state_before: Self::RegionSequence,
        state_after: Self::RegionSequence,
        properties: RegionSequenceProperties<Self::RegionSequenceData>,
        result: Result<(), AraError>,
    ) -> bool {
        true
    }

    /// Applies copied region-sequence properties.
    fn update_region_sequence(
        &mut self,
        state: &mut Self::RegionSequence,
        properties: RegionSequenceProperties<Self::RegionSequenceData>,
    ) -> (r: Result<(), AraError>)
        ensures
            Self::updates_region_sequence(*old(self), *final(self), *old(state), *final(state), properties, r),
    ;

    /// What the application states of one `destroy_region_sequence` call: the delegate held
    /// `before`, was handed `state` and then held `after`. By default nothing is stated.
    open spec fn destroys_region_sequence(before: Self, after: Self, state: Self::RegionSequence) -> bool {
        true
    }

    /// Observes teardown after the identity is invalidated.
    fn destroy_region_sequence(&mut self, state: Self::RegionSequence)
        ensures
            Self::destroys_region_sequence(*old(self), *final(self), state),
    ;
}

/// Owns application state for host audio sources.
pub trait AudioSources: Sized {
    /// Application state retained for one audio source.
    type AudioSource;

    /// Audio-source properties as the application receives them.
    type AudioSourceProperties;

    /// Changed content range as the application receives it.
    type AudioSourceRange;

    /// What the application states of one `create_audio_source` call: the delegate held
    /// `before`, was handed `context` and `properties`, returned `result` and then held `after`.
    /// By default nothing is stated.
    open spec fn creates_audio_source(
        before: Self,
        after: Self,
        context: CreateContext,
        properties: Self::AudioSourceProperties,
        result: Result<Self::AudioSource, AraError>,
    ) -> bool {
        true
    }

    /// Creates state for a provisionally registered audio-source identity.
    fn create_audio_source(
        &mut self,
        context: &CreateContext,
        properties: Self::AudioSourceProperties,
    ) -> (r: Result<Self::AudioSource, AraError>)
        ensures
            Self::creates_audio_source(*old(self), *final(self), *context, properties, r),
    ;

    /// What the application states of one `update_audio_source` call: the delegate held `before`,
    /// the state held `state_before`, the call was handed `properties` and returned `result`, and
    /// then the delegate held `after` and the state `state_after`. By default nothing is stated.
    open spec fn updates_audio_source(
        before: Self,
        after: Self,
        state_before: Self::AudioSource,
        state_after: Self::AudioSource,
        properties: Self::AudioSourceProperties,
        result: Result<(), AraError>,
    ) -> bool {
        true
    }

    /// Applies copied audio-source properties.
    fn update_audio_source(
        &mut self,
        state: &mut Self::AudioSource,
        properties: Self::AudioSourceProperties,
    ) -> (r: Result<(), AraError>)
        ensures
            Self::updates_audio_source(*old(self), *final(self), *old(state), *final(state), properties, r),
    ;

    /// What the application states of one `update_audio_source_content` call: the delegate held
    /// `before`, the state held `state_before`, the call was handed `range`, `flags` and returned
    /// `result`, and then the delegate held `after` and the state `state_after`. By default nothing
    /// is stated.
    open spec fn updates_audio_source_content(
        before: Self,
        after: Self,
        state_before: Self::AudioSource,
        state_after: Self::AudioSource,
        range: Option<Self::AudioSourceRange>,
        flags: crate::updates::ContentUpdateScopes,
        result: Result<(), AraError>,
    ) -> bool {
        true
    }

    /// Applies a host-originated audio-source content change.
    fn update_audio_source_content(
        &mut self,
        state: &mut Self::AudioSource,
        range: Option<Self::AudioSourceRange>,
        flags: crate::updates::ContentUpdateScopes,
    ) -> (r: Result<(), AraError>)
        ensures
            Self::updates_audio_source_content(*old(self), *final(self), *old(state), *final(state), range, flags, r),
    ;

    /// What the application states of one `enable_audio_source_samples_access` call: the delegate held `before` and
    /// the state `state_before`, it was handed `enable`, returned `result`, and then the delegate held `after`
    /// and the state `state_after`. By default nothing is stated.
    open spec fn enables_samples_access(
        before: Self,
        after: Self,
        state_before: Self::AudioSource,
        state_after: Self::AudioSource,
        enable: bool,
        result: Result<(), AraError>,
    ) -> bool {
        true
    }

    /// Enables or synchronously revokes host sample access for this source.
    fn enable_audio_source_samples_access(
        &mut self,
        state: &mut Self::AudioSource,
        enable: bool,
    ) -> (r: Result<(), AraError>)
        ensures
            Self::enables_samples_access(*old(self), *final(self), *old(state), *final(state), enable, r),
    ;

    /// What the application states of one `deactivate_audio_source` call: the delegate held `before` and
    /// the state `state_before`, it was handed `deactivate`, returned `result`, and then the delegate held `after`
    /// and the state `state_after`. By default nothing is stated.
    open spec fn deactivates_audio_source(
        before: Self,
        after: Self,
        state_before: Self::AudioSource,
        state_after: Self::AudioSource,
        deactivate: bool,
        result: Result<(), AraError>,
    ) -> bool {
        true
    }

    /// Observes undo-history activation changes.
    fn deactivate_audio_source(
        &mut self,
        state: &mut Self::AudioSource,
        deactivate: bool,
    ) -> (r: Result<(), AraError>)
        ensures
            Self::deactivates_audio_source(*old(self), *final(self), *old(state), *final(state), deactivate, r),
    ;

    /// What the application states of one `destroy_audio_source` call: the delegate held `before`,
    /// was handed `state` and then held `after`. By default nothing is stated.
    open spec fn destroys_audio_source(before: Self, after: Self, state: Self::AudioSource) -> bool {
        true
    }

    /// Observes teardown after the identity is invalidated.
    fn destroy_audio_source(&mut self, state: Self::AudioSource)
        ensures
            Self::destroys_audio_source(*old(self), *final(self), state),
    ;
}

/// Owns application state for audio modifications and clones.
pub trait AudioModifications: Sized {
    /// Application state retained for one audio modification.
    type AudioModification;

    /// Audio-modification properties as the application receives them.
    type AudioModificationProperties;

    /// What the application states of one `create_audio_modification` call: the delegate held
    /// `before`, was handed `context` and `properties`, returned `result` and then held `after`. By
    /// default nothing is stated.
    open spec fn creates_audio_modification(
        before: Self,
        after: Self,
        context: CreateContext,
        properties: Self::AudioModificationProperties,
        result: Result<Self::AudioModification, AraError>,
    ) -> bool {
        true
    }

    /// Creates state for a provisionally registered audio-modification identity.
    fn create_audio_modification(
        &mut self,
        context: &CreateContext,
        properties: Self::AudioModificationProperties,
    ) -> (r: Result<Self::AudioModification, AraError>)
        ensures
            Self::creates_audio_modification(*old(self), *final(self), *context, properties, r),
    ;

    /// What the application states of one `clone_audio_modification` call: the delegate held
    /// `before`, was handed `context`, the state `source` and `properties`, returned `result`
    /// and then held `after`. By default nothing is stated.
    open spec fn clones_audio_modification(
        before: Self,
        after: Self,
        context: CreateContext,
        source: Self::AudioModification,
        properties: Self::AudioModificationProperties,
        result: Result<Self::AudioModification, AraError>,
    ) -> bool {
        true
    }

    /// Clones application state into a distinct provisional identity.
    fn clone_audio_modification(
        &mut self,
        context: &CreateContext,
        source: &Self::AudioModification,
        properties: Self::AudioModificationProperties,
    ) -> (r: Result<Self::AudioModification, AraError>)
        ensures
            Self::clones_audio_modification(*old(self), *final(self), *context, *source, properties, r),
    ;

    /// What the application states of one `update_audio_modification` call: the delegate held
    /// `before`, the state held `state_before`, the call was handed `properties` and returned
    /// `result`, and then the delegate held `after` and the state `state_after`. By default nothing
    /// is stated.
    open spec fn updates_audio_modification(
        before: Self,
        after: Self,
        state_before: Self::AudioModification,
        state_after: Self::AudioModification,
        properties: Self::AudioModificationProperties,
        result: Result<(), AraError>,
    ) -> bool {
        true
    }

    /// Applies copied audio-modification properties.
    fn update_audio_modification(
        &mut self,
        state: &mut Self::AudioModification,
        properties: Self::AudioModificationProperties,
    ) -> (r: Result<(), AraError>)
        ensures
            Self::updates_audio_modification(*old(self), *final(self), *old(state), *final(state), properties, r),
    ;

    /// What the application states of one `deactivate_audio_modification` call: the delegate held `before` and
    /// the state `state_before`, it was handed `deactivate`, returned `result`, and then the delegate held `after`
    /// and the state `state_after`. By default nothing is stated.
    open spec fn deactivates_audio_modification(
        before: Self,
        after: Self,
        state_before: Self::AudioModification,
        state_after: Self::AudioModification,
        deactivate: bool,
        result: Result<(), AraError>,
    ) -> bool {
        true
    }

    /// Observes undo-history activation changes after graph-order validation.
    fn deactivate_audio_modification(
        &mut self,
        state: &mut Self::AudioModification,
        deactivate: bool,
    ) -> (r: Result<(), AraError>)
        ensures
            Self::deactivates_audio_modification(*old(self), *final(self), *old(state), *final(state), deactivate, r),
    ;

    /// What the application states of one `destroy_audio_modification` call: the delegate held
    /// `before`, was handed `state` and then held `after`. By default nothing is stated.
    open spec fn destroys_audio_modification(before: Self, after: Self, state: Self::AudioModification) -> bool {
        true
    }

    /// Observes teardown after the identity is invalidated.
    fn destroy_audio_modification(&mut self, state: Self::AudioModification)
        ensures
            Self::destroys_audio_modification(*old(self), *final(self), state),
    ;
}

/// Owns application state for playback regions.
pub trait PlaybackRegions: Sized {
    /// Application state retained for one playback region.
    type PlaybackRegion;

    /// Playback-region property data interpreted only by the application.
    type PlaybackRegionData;

    /// What the application states of one `create_playback_region` call: the delegate held
    /// `before`, was handed `context` and `properties`, returned `result` and then held `after`. By
    /// default nothing is stated.
    open spec fn creates_playback_region(
        before: Self,
        after: Self,
        context: CreateContext,
        properties: PlaybackRegionProperties<Self::PlaybackRegionData>,
        result: Result<Self::PlaybackRegion, AraError>,
    ) -> bool {
        true
    }

    /// Creates state for a provisionally registered playback-region identity.
    fn create_playback_region(
        &mut self,
        context: &CreateContext,
        properties: PlaybackRegionProperties<Self::PlaybackRegionData>,
    ) -> (r: Result<Self::PlaybackRegion, AraError>)
        ensures
            Self::creates_playback_region(*old(self), *final(self), *context, properties, r),
    ;

    /// What the application states of one `update_playback_region` call: the delegate held
    /// `before`, the state held `state_before`, the call was handed `properties` and returned
    /// `result`, and then the delegate held `after` and the state `state_after`. By default nothing
    /// is stated.
    open spec fn updates_playback_region(
        before: Self,
        after: Self,
        state_before: Self::PlaybackRegion,
        state_after: Self::PlaybackRegion,
        properties: PlaybackRegionProperties<Self::PlaybackRegionData>,
        result: Result<(), AraError>,
    ) -> bool {
        true
    }

    /// Applies copied playback-region properties.
    fn update_playback_region(
        &mut self,
        state: &mut Self::PlaybackRegion,
        properties: PlaybackRegionProperties<Self::PlaybackRegionData>,
    ) -> (r: Result<(), AraError>)
        ensures
            Self::updates_playback_region(*old(self), *final(self), *old(state), *final(state), properties, r),
    ;

    /// What the application states of one `destroy_playback_region` call: the delegate held
    /// `before`, was handed `state` and then held `after`. By default nothing is stated.
    open spec fn destroys_playback_region(before: Self, after: Self, state: Self::PlaybackRegion) -> bool {
        true
    }

    /// Observes teardown after the identity is invalidated.
    fn destroy_playback_region(&mut self, state: Self::PlaybackRegion)
        ensures
            Self::destroys_playback_region(*old(self), *final(self), state),
    ;
}

/// Complete required trait set for the document-model runtime.
pub trait PluginModel:
    DocumentLifecycle + MusicalContexts + RegionSequences + AudioSources + AudioModifications + PlaybackRegions {

}

impl<T> PluginModel for T where
    T: DocumentLifecycle + MusicalContexts + RegionSequences + AudioSources + AudioModifications
        + PlaybackRegions,
 {

}

} // verus!
