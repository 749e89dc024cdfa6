use crate::analysis::{
    analysis_step, event_source, AnalysisCoordinator, AnalysisFraction, PendingAnalysisProgress, ProgressQueue,
};
use crate::builder::{str_eq, texts, PlaybackTransformationFlags};
use crate::error::AraError;
use crate::generation::{ApiGeneration, TargetArch};
use crate::host::{host_services_ok, validate_host_services, HostServices, OptionalServices};
use crate::handle::{
    AudioModificationKind, AudioSourceKind, Handle, ModelRef, MusicalContextKind,
    PlaybackRegionKind, RawHandle, RegionSequenceKind,
};
use crate::runtime::{
    added, modification_children_moved, node_children_moved, sequence_children_moved, PluginRuntime,
};
use crate::updates::{ContentUpdateScopes, UpdateNotification, UpdateTracker};
use crate::traits::{
    AudioModifications, AudioSources, CreateContext, DocumentLifecycle, MusicalContexts, PlaybackRegionProperties,
    PlaybackRegions, PluginModel, RegionSequenceProperties, RegionSequences,
};
use crate::vtable::{document_controller_interface, represented_count, ControllerCapabilities, ControllerInterface};
use std::collections::HashMap;
use vstd::prelude::*;

verus! {

broadcast use vstd::std_specs::hash::group_hash_axioms;

/// What a factory record advertises to every document controller it creates.
pub struct FactoryTerms {
    /// Content types the factory can analyze (`analyzeableContentTypes`).
    pub analyzable_content: Vec<i32>,
    /// Playback transformations the factory supports.
    pub playback_transformations: PlaybackTransformationFlags,
    /// Whether the factory advertises audio-file chunk storage.
    pub stores_audio_file_chunks: bool,
}

/// Largest analyzable content-type list a factory may advertise.
pub const MAX_ANALYZABLE_CONTENT_TYPES: usize = 1024;

/// Abstract state of a document controller.
pub struct ControllerView<P: PluginModel, Q> {
    /// The document runtime, `None` once the controller was destroyed.
    pub runtime: Option<PluginRuntime<P>>,
    /// Host identity recorded for each live musical context, by runtime identity.
    pub context_hosts: Map<u64, u64>,
    /// Host identity recorded for each audio source, by runtime identity.
    pub source_hosts: Map<u64, u64>,
    /// Host identity recorded for each audio modification, by runtime identity.
    pub modification_hosts: Map<u64, u64>,
    /// Host identity recorded for each playback region, by runtime identity.
    pub region_hosts: Map<u64, u64>,
    /// Internal region sequence standing in for each ARA 1 musical context.
    pub synthetic: Map<u64, RawHandle>,
    /// Active analysis jobs.
    pub analysis: AnalysisCoordinator<Q>,
    /// Sources whose analysis start has not yet been reported to the host.
    pub pending_starts: Seq<RawHandle>,
    /// The published content reader, when one is open.
    pub open_reader: Option<u64>,
    /// Identity the next published content reader receives.
    pub next_reader: u64,
    /// Archive reader of an unfinished ARA 1 document restore.
    pub restore_reader: Option<u64>,
    /// Content types the factory can analyze.
    pub analyzable: Seq<i32>,
    /// Playback transformations the factory supports.
    pub transformations: PlaybackTransformationFlags,
}

/// Safe document-controller state joining one document runtime to host identities, analysis
/// jobs, content readers and archive sessions.
///
/// Host identities are opaque nonzero tokens; zero stands for a null host reference.
pub struct DocumentController<P: PluginModel, Q> {
    runtime: Option<PluginRuntime<P>>,
    musical_context_hosts: HashMap<u64, u64>,
    audio_source_hosts: HashMap<u64, u64>,
    audio_modification_hosts: HashMap<u64, u64>,
    playback_region_hosts: HashMap<u64, u64>,
    synthetic_sequences: HashMap<u64, RawHandle>,
    analysis: AnalysisCoordinator<Q>,
    pending_analysis_starts: Vec<RawHandle>,
    content_reader: Option<u64>,
    next_reader: u64,
    legacy_restore_reader: Option<u64>,
    factory_analyzable_content: Vec<i32>,
    factory_playback_transformations: PlaybackTransformationFlags,
}

/// Runtime-owned model object that content and analysis queries name.
#[derive(Clone, Copy, Debug, PartialEq, Eq)]
pub enum ContentObject {
    /// One live, active audio source.
    AudioSource(RawHandle),
    /// One live, active audio modification.
    AudioModification(RawHandle),
    /// One live playback region.
    PlaybackRegion(RawHandle),
}

/// Which archive identifier published by the factory an audio-file chunk is stored under.
#[derive(Clone, Copy, Debug, PartialEq, Eq)]
pub enum PublishedArchiveId {
    /// The factory's own document archive identifier.
    Document,
    /// The compatible document archive identifier at this index.
    Compatible(usize),
}

/// One call to the host's model-update interface, addressed by host identity.
#[derive(Clone, Debug)]
pub enum HostNotification<R, Q> {
    /// `notifyAudioSourceAnalysisProgress` with the started state.
    AnalysisStarted {
        /// Host identity of the analyzed audio source.
        host_ref: u64,
    },
    /// `notifyAudioSourceAnalysisProgress` with the updated state.
    AnalysisProgressed {
        /// Host identity of the analyzed audio source.
        host_ref: u64,
        /// Progress reached.
        progress: Q,
    },
    /// `notifyAudioSourceAnalysisProgress` with the completed state.
    AnalysisCompleted {
        /// Host identity of the analyzed audio source.
        host_ref: u64,
    },
    /// `notifyAudioSourceContentChanged`.
    AudioSourceChanged {
        /// Host identity of the audio source.
        host_ref: u64,
        /// Changed range, or `None` for the entire source.
        range: Option<R>,
        /// Scopes known to remain unchanged.
        flags: ContentUpdateScopes,
    },
    /// `notifyAudioModificationContentChanged`.
    AudioModificationChanged {
        /// Host identity of the audio modification.
        host_ref: u64,
        /// Changed range, or `None` for the entire modification.
        range: Option<R>,
        /// Scopes known to remain unchanged.
        flags: ContentUpdateScopes,
    },
    /// `notifyPlaybackRegionContentChanged`.
    PlaybackRegionChanged {
        /// Host identity of the playback region.
        host_ref: u64,
        /// Changed range, or `None` for the entire region.
        range: Option<R>,
        /// Scopes known to remain unchanged.
        flags: ContentUpdateScopes,
    },
    /// `notifyDocumentDataChanged`.
    DocumentDataChanged,
}

/// The host identity recorded in `hosts` for `object` of document session `session`.
pub open spec fn host_of(hosts: Map<u64, u64>, session: u64, object: RawHandle) -> Option<u64> {
    if object.session == session && hosts.contains_key(object.id) {
        Some(hosts[object.id])
    } else {
        None
    }
}

/// Analysis-start notifications for the sources in `pending` that have a host identity, in
/// order.
pub open spec fn start_notes<R, Q>(pending: Seq<RawHandle>, hosts: Map<u64, u64>, session: u64) -> Seq<
    HostNotification<R, Q>,
>
    decreases pending.len(),
{
    if pending.len() == 0 {
        Seq::empty()
    } else {
        let rest = start_notes(pending.drop_last(), hosts, session);
        match host_of(hosts, session, pending.last()) {
            Some(h) => rest.push(HostNotification::AnalysisStarted { host_ref: h }),
            None => rest,
        }
    }
}

/// Analysis-progress notifications for the events marked `delivered` whose source has a host
/// identity, in order.
pub open spec fn progress_notes<R, Q>(
    events: Seq<PendingAnalysisProgress<Q>>,
    delivered: Seq<bool>,
    hosts: Map<u64, u64>,
    session: u64,
) -> Seq<HostNotification<R, Q>>
    decreases events.len(),
{
    if events.len() == 0 {
        Seq::empty()
    } else {
        let rest = progress_notes(events.drop_last(), delivered.drop_last(), hosts, session);
        let e = events.last();
        match host_of(hosts, session, event_source(e)) {
            Some(h) => if delivered.last() {
                rest.push(
                    match e {
                        PendingAnalysisProgress::Updated(_, q) => HostNotification::AnalysisProgressed {
                            host_ref: h,
                            progress: q,
                        },
                        PendingAnalysisProgress::Completed(_) => HostNotification::AnalysisCompleted {
                            host_ref: h,
                        },
                    },
                )
            } else {
                rest
            },
            None => rest,
        }
    }
}

/// The host notification for one model update, `None` when its object has no host identity.
pub open spec fn change_note<R, Q>(
    n: UpdateNotification<R>,
    source_hosts: Map<u64, u64>,
    modification_hosts: Map<u64, u64>,
    region_hosts: Map<u64, u64>,
    session: u64,
) -> Option<HostNotification<R, Q>> {
    match n {
        UpdateNotification::AudioSource { source, range, flags } => match host_of(
            source_hosts,
            session,
            source,
        ) {
            Some(h) => Some(HostNotification::AudioSourceChanged { host_ref: h, range, flags }),
            None => None,
        },
        UpdateNotification::AudioModification { modification, range, flags } => match host_of(
            modification_hosts,
            session,
            modification,
        ) {
            Some(h) => Some(HostNotification::AudioModificationChanged { host_ref: h, range, flags }),
            None => None,
        },
        UpdateNotification::PlaybackRegion { region, range, flags } => match host_of(
            region_hosts,
            session,
            region,
        ) {
            Some(h) => Some(HostNotification::PlaybackRegionChanged { host_ref: h, range, flags }),
            None => None,
        },
        UpdateNotification::Document => Some(HostNotification::DocumentDataChanged),
    }
}

/// Host notifications for a batch of model updates, in batch order.
pub open spec fn change_notes<R, Q>(
    batch: Seq<UpdateNotification<R>>,
    source_hosts: Map<u64, u64>,
    modification_hosts: Map<u64, u64>,
    region_hosts: Map<u64, u64>,
    session: u64,
) -> Seq<HostNotification<R, Q>>
    decreases batch.len(),
{
    if batch.len() == 0 {
        Seq::empty()
    } else {
        let rest = change_notes(batch.drop_last(), source_hosts, modification_hosts, region_hosts, session);
        match change_note(batch.last(), source_hosts, modification_hosts, region_hosts, session) {
            Some(h) => rest.push(h),
            None => rest,
        }
    }
}

impl<P: PluginModel, Q> View for DocumentController<P, Q> {
    type V = ControllerView<P, Q>;

    closed spec fn view(&self) -> ControllerView<P, Q> {
        ControllerView {
            runtime: self.runtime,
            context_hosts: self.musical_context_hosts@,
            source_hosts: self.audio_source_hosts@,
            modification_hosts: self.audio_modification_hosts@,
            region_hosts: self.playback_region_hosts@,
            synthetic: self.synthetic_sequences@,
            analysis: self.analysis,
            pending_starts: self.pending_analysis_starts@,
            open_reader: self.content_reader,
            next_reader: self.next_reader,
            restore_reader: self.legacy_restore_reader,
            analyzable: self.factory_analyzable_content@,
            transformations: self.factory_playback_transformations,
        }
    }
}

impl<P: PluginModel, Q> ControllerView<P, Q> {
    /// While the controller is alive its runtime is well formed and every live musical
    /// context, audio source, audio modification and playback region has exactly one recorded
    /// host identity.
    pub open spec fn wf(self) -> bool {
        self.runtime matches Some(rt) ==> {
            &&& rt.wf()
            &&& self.context_hosts.dom() == rt.contexts_view().dom()
            &&& self.source_hosts.dom() == rt.sources_view().dom()
            &&& self.modification_hosts.dom() == rt.modifications_view().dom()
            &&& self.region_hosts.dom() == rt.regions_view().dom()
        }
    }

    /// Model operations are admitted: the controller is alive and no content reader is open.
    pub open spec fn model_accessible(self) -> bool {
        self.runtime is Some && self.open_reader is None
    }

    /// Model operations are admitted and the host is inside an editing session.
    pub open spec fn editable(self) -> bool {
        self.model_accessible() && self.runtime.unwrap().spec_editing()
    }

    /// The live runtime; meaningful only while the controller is alive.
    pub open spec fn rt(self) -> PluginRuntime<P> {
        self.runtime.unwrap()
    }

    /// Whether tearing down musical context `k` can succeed: its internal ARA 1 region
    /// sequence, if any, is live and empty, and no other region sequence remains in `k`.
    pub open spec fn context_teardown_allowed(self, k: u64) -> bool {
        let rt = self.rt();
        if self.synthetic.contains_key(k) {
            let s = self.synthetic[k];
            &&& rt.live_sequence(Handle::<RegionSequenceKind>::from_raw_spec(s))
            &&& rt.sequences_view()[s.id].node.children == 0
            &&& rt.contexts_view()[k].children == if rt.sequences_view()[s.id].context == k {
                1usize
            } else {
                0usize
            }
        } else {
            rt.contexts_view()[k].children == 0
        }
    }

    /// The region sequence a playback region with `properties` is placed in: the live sequence
    /// the properties name, or else the internal sequence of the live ARA 1 musical context
    /// they name; `None` when there is no such sequence.
    pub open spec fn target_sequence<D>(self, properties: PlaybackRegionProperties<D>) -> Option<
        RawHandle,
    > {
        match properties.region_sequence {
            Some(q) => if self.rt().live_sequence(Handle::<RegionSequenceKind>::from_raw_spec(q.raw)) {
                Some(q.raw)
            } else {
                None
            },
            None => match properties.musical_context {
                Some(c) => if self.rt().live_context(
                    Handle::<MusicalContextKind>::from_raw_spec(c.raw),
                ) && self.synthetic.contains_key(c.raw.id) {
                    Some(self.synthetic[c.raw.id])
                } else {
                    None
                },
                None => None,
            },
        }
    }

    /// Whether `other`'s runtime differs from this one at most by the loss of the internal
    /// region sequence of context `k`.
    pub open spec fn lost_at_most_synthetic(self, other: ControllerView<P, Q>, k: u64) -> bool {
        ||| other.rt().same_objects(self.rt())
        ||| {
            let s = self.synthetic[k];
            let c = self.rt().sequences_view()[s.id].context;
            &&& self.synthetic.contains_key(k)
            &&& other.rt().sequences_view() == self.rt().sequences_view().remove(s.id)
            &&& other.rt().contexts_view() == node_children_moved(self.rt().contexts_view(), c, -1)
            &&& other.rt().sources_view() == self.rt().sources_view()
            &&& other.rt().modifications_view() == self.rt().modifications_view()
            &&& other.rt().regions_view() == self.rt().regions_view()
        }
    }
}

/// Whether what a factory advertises agrees with the registered providers: at most
/// `MAX_ANALYZABLE_CONTENT_TYPES` analyzable types, analysis only with an analysis provider,
/// and an audio-file chunk flag that matches the chunk provider.
pub open spec fn factory_terms_ok(factory: FactoryTerms, provides_analysis: bool, provides_audio_file_chunks: bool) -> bool {
    &&& factory.analyzable_content@.len() <= MAX_ANALYZABLE_CONTENT_TYPES
    &&& (factory.analyzable_content@.len() == 0 || provides_analysis)
    &&& factory.stores_audio_file_chunks == provides_audio_file_chunks
}

fn check_factory_terms(factory: &FactoryTerms, provides_analysis: bool, provides_audio_file_chunks: bool) -> (r:
    Result<(), AraError>)
    ensures
        r is Ok <==> factory_terms_ok(*factory, provides_analysis, provides_audio_file_chunks),
        r matches Err(e) ==> e is InvalidArgument,
{
    if factory.analyzable_content.len() > MAX_ANALYZABLE_CONTENT_TYPES {
        return Err(AraError::InvalidArgument("factory analyzable content-type count exceeds safety limit"));
    }
    if factory.analyzable_content.len() > 0 && !provides_analysis {
        return Err(AraError::InvalidArgument("factory advertises analysis without an analysis provider"));
    }
    if factory.stores_audio_file_chunks != provides_audio_file_chunks {
        return Err(
            AraError::InvalidArgument("factory audio-file chunk flag disagrees with controller capability"),
        );
    }
    Ok(())
}

fn destroyed() -> (e: AraError)
    ensures
        e == AraError::InvalidState("document controller is destroyed"),
{
    AraError::InvalidState("document controller is destroyed")
}

fn reader_conflict() -> (e: AraError)
    ensures
        e == AraError::InvalidState("model operation conflicts with an active content reader"),
{
    AraError::InvalidState("model operation conflicts with an active content reader")
}

fn not_editing() -> (e: AraError)
    ensures
        e == AraError::InvalidState("editing is not active"),
{
    AraError::InvalidState("editing is not active")
}

fn null_host() -> (e: AraError)
    ensures
        e == AraError::InvalidArgument("host reference is null"),
{
    AraError::InvalidArgument("host reference is null")
}

impl<P: PluginModel, Q: AnalysisFraction> DocumentController<P, Q> {
    /// Validates what the factory advertises against the registered providers, negotiates the
    /// controller interface and creates the document runtime.
    ///
    /// Fails with `InvalidArgument` when the factory advertises more than
    /// `MAX_ANALYZABLE_CONTENT_TYPES` analyzable types, analysis without an analysis provider,
    /// or an audio-file chunk flag that disagrees with the chunk provider; then with the
    /// interface's `Unsupported`; then with the runtime's error. Optional tail capabilities
    /// are advertised only from ARA 2 Final on.
    pub fn create(
        model: P,
        generation: ApiGeneration,
        properties: <P as DocumentLifecycle>::DocumentProperties,
        session: u64,
        target: TargetArch,
        capabilities: ControllerCapabilities,
        factory: FactoryTerms,
        provides_analysis: bool,
        provides_audio_file_chunks: bool,
    ) -> (r: Result<(DocumentController<P, Q>, ControllerInterface), AraError>)
        ensures
            factory.analyzable_content@.len() > MAX_ANALYZABLE_CONTENT_TYPES ==> (r matches Err(e)
                && e is InvalidArgument),
            factory.analyzable_content@.len() > 0 && !provides_analysis ==> (r matches Err(e)
                && e is InvalidArgument),
            factory.stores_audio_file_chunks != provides_audio_file_chunks ==> (r matches Err(e)
                && e is InvalidArgument),
            !generation.spec_supported_on(target) ==> r is Err,
            factory.analyzable_content@.len() <= MAX_ANALYZABLE_CONTENT_TYPES
                && (factory.analyzable_content@.len() == 0 || provides_analysis)
                && factory.stores_audio_file_chunks == provides_audio_file_chunks
                && !generation.spec_supported_on(target) ==> (r matches Err(e) && e is Unsupported),
            factory.analyzable_content@.len() <= MAX_ANALYZABLE_CONTENT_TYPES
                && (factory.analyzable_content@.len() == 0 || provides_analysis)
                && factory.stores_audio_file_chunks == provides_audio_file_chunks
                && generation.spec_supported_on(target) ==> exists|
                after: P,
                result: Result<<P as DocumentLifecycle>::Document, AraError>,
            | {
                &&& #[trigger] P::creates_document(
                    model,
                    after,
                    CreateContext::for_document(generation),
                    properties,
                    result,
                )
                &&& result matches Err(e) ==> r matches Err(f) && f == e
                &&& result matches Ok(d) ==> (r matches Ok((c, i)) && c@.rt().spec_delegate()
                    == after && c@.rt().spec_document() == d)
            },
            r matches Ok((c, i)) ==> {
                let advertised = if generation.rank() >= ApiGeneration::V2Final.rank() {
                    capabilities
                } else {
                    ControllerCapabilities {
                        processing_algorithms: false,
                        licensing: false,
                        audio_file_chunk_storage: false,
                        signal_preservation: false,
                    }
                };
                &&& factory.analyzable_content@.len() <= MAX_ANALYZABLE_CONTENT_TYPES
                &&& factory.analyzable_content@.len() == 0 || provides_analysis
                &&& factory.stores_audio_file_chunks == provides_audio_file_chunks
                &&& generation.spec_supported_on(target)
                &&& i.spec_represented() == represented_count(generation, advertised)
                &&& c@.wf()
                &&& c@.runtime matches Some(rt) && rt.live_total() == 0 && !rt.spec_editing()
                    && rt.spec_session() == session && rt.spec_generation() == generation
                &&& c@.context_hosts.is_empty() && c@.source_hosts.is_empty()
                &&& c@.modification_hosts.is_empty() && c@.region_hosts.is_empty()
                &&& c@.synthetic.is_empty()
                &&& forall|s: RawHandle| c@.analysis.job(s) is None
                &&& c@.pending_starts.len() == 0
                &&& c@.open_reader is None && c@.restore_reader is None
                &&& c@.analyzable == factory.analyzable_content@
                &&& c@.transformations == factory.playback_transformations
            },
    {
        check_factory_terms(&factory, provides_analysis, provides_audio_file_chunks)?;
        let advertised = if !generation.precedes(ApiGeneration::V2Final) {
            capabilities
        } else {
            ControllerCapabilities::default()
        };
        let interface = document_controller_interface(generation, advertised, target)?;
        let runtime = match PluginRuntime::new(model, generation, properties, session, target) {
            Ok(runtime) => runtime,
            Err(e) => {
                return Err(e);
            },
        };
        let controller = DocumentController {
            runtime: Some(runtime),
            musical_context_hosts: HashMap::new(),
            audio_source_hosts: HashMap::new(),
            audio_modification_hosts: HashMap::new(),
            playback_region_hosts: HashMap::new(),
            synthetic_sequences: HashMap::new(),
            analysis: AnalysisCoordinator::new(),
            pending_analysis_starts: Vec::new(),
            content_reader: None,
            next_reader: 1,
            legacy_restore_reader: None,
            factory_analyzable_content: factory.analyzable_content,
            factory_playback_transformations: factory.playback_transformations,
        };
        Ok((controller, interface))
    }

    /// Handles a host's document-controller creation request end to end: validates the factory
    /// terms, then the services the host offers for `generation`, then negotiates the interface
    /// and creates the document runtime as `create` does; returns the controller, its interface
    /// and the optional host services that were offered.
    ///
    /// Fails with `InvalidArgument` when the factory terms disagree with the providers, then
    /// with `Abi` when the host's services are malformed (see `validate_host_services`), then
    /// as `create` does.
    pub fn create_for_host(
        model: P,
        generation: ApiGeneration,
        properties: <P as DocumentLifecycle>::DocumentProperties,
        session: u64,
        target: TargetArch,
        capabilities: ControllerCapabilities,
        factory: FactoryTerms,
        provides_analysis: bool,
        provides_audio_file_chunks: bool,
        host: HostServices,
    ) -> (r: Result<(DocumentController<P, Q>, ControllerInterface, OptionalServices), AraError>)
        ensures
            !factory_terms_ok(factory, provides_analysis, provides_audio_file_chunks) ==> (r matches Err(
                e,
            ) && e is InvalidArgument),
            factory_terms_ok(factory, provides_analysis, provides_audio_file_chunks)
                && !host_services_ok(host, generation) ==> (r matches Err(e) && e is Abi),
            factory_terms_ok(factory, provides_analysis, provides_audio_file_chunks)
                && host_services_ok(host, generation) && !generation.spec_supported_on(target)
                ==> (r matches Err(e) && e is Unsupported),
            factory_terms_ok(factory, provides_analysis, provides_audio_file_chunks)
                && host_services_ok(host, generation) && generation.spec_supported_on(target) ==> exists|
                after: P,
                result: Result<<P as DocumentLifecycle>::Document, AraError>,
            | {
                &&& #[trigger] P::creates_document(
                    model,
                    after,
                    CreateContext::for_document(generation),
                    properties,
                    result,
                )
                &&& result matches Err(e) ==> r matches Err(f) && f == e
                &&& result matches Ok(d) ==> (r matches Ok((c, i, o)) && c@.rt().spec_delegate()
                    == after && c@.rt().spec_document() == d)
            },
            r matches Ok((c, i, o)) ==> {
                &&& factory_terms_ok(factory, provides_analysis, provides_audio_file_chunks)
                &&& host_services_ok(host, generation)
                &&& generation.spec_supported_on(target)
                &&& o == (OptionalServices {
                    content: host.content.interface,
                    model_updates: host.model_updates.interface,
                    playback: host.playback.interface,
                })
                &&& c@.wf()
                &&& c@.runtime matches Some(rt) && rt.live_total() == 0 && !rt.spec_editing()
                    && rt.spec_session() == session && rt.spec_generation() == generation
                &&& c@.context_hosts.is_empty() && c@.source_hosts.is_empty()
                &&& c@.modification_hosts.is_empty() && c@.region_hosts.is_empty()
                &&& c@.open_reader is None && c@.restore_reader is None
                &&& c@.analyzable == factory.analyzable_content@
                &&& c@.transformations == factory.playback_transformations
                &&& i.spec_represented() == represented_count(
                    generation,
                    if generation.rank() >= ApiGeneration::V2Final.rank() {
                        capabilities
                    } else {
                        ControllerCapabilities {
                            processing_algorithms: false,
                            licensing: false,
                            audio_file_chunk_storage: false,
                            signal_preservation: false,
                        }
                    },
                )
            },
    {
        check_factory_terms(&factory, provides_analysis, provides_audio_file_chunks)?;
        let optional = validate_host_services(host, generation)?;
        match Self::create(
            model,
            generation,
            properties,
            session,
            target,
            capabilities,
            factory,
            provides_analysis,
            provides_audio_file_chunks,
        ) {
            Ok((controller, interface)) => Ok((controller, interface, optional)),
            Err(e) => Err(e),
        }
    }

    /// Borrows the document runtime, failing with `InvalidState` once the controller was
    /// destroyed.
    pub fn runtime(&self) -> (r: Result<&PluginRuntime<P>, AraError>)
        ensures
            r is Ok <==> self@.runtime is Some,
            r matches Ok(rt) ==> self@.runtime == Some(*rt),
            r matches Err(e) ==> e is InvalidState,
    {
        match &self.runtime {
            Some(rt) => Ok(rt),
            None => Err(destroyed()),
        }
    }

    /// Checks that model operations are admitted now: fails with `InvalidState` once the
    /// controller was destroyed or while a content reader is open.
    pub fn check_model_access(&self) -> (r: Result<(), AraError>)
        ensures
            r is Ok <==> self@.model_accessible(),
            r matches Err(e) ==> e is InvalidState,
    {
        if self.content_reader.is_some() {
            return Err(reader_conflict());
        }
        if self.runtime.is_none() {
            return Err(destroyed());
        }
        Ok(())
    }

    /// Handles `destroyDocumentController`: closes the content reader and tears the runtime
    /// down, returning the runtime's outcome, or `None` when it was already destroyed.
    pub fn destroy(&mut self) -> (r: Option<Result<P, AraError>>)
        requires
            old(self)@.wf(),
        ensures
            final(self)@ == (ControllerView {
                runtime: None,
                open_reader: None,
                ..old(self)@
            }),
            r is None <==> old(self)@.runtime is None,
            r matches Some(Ok(_)) ==> old(self)@.rt().live_total() == 0,
            r matches Some(Err(e)) ==> old(self)@.rt().live_total() != 0 && e is InvalidState,
    {
        self.content_reader = None;
        match self.runtime.take() {
            Some(rt) => Some(rt.destroy()),
            None => None,
        }
    }

    /// Handles `beginEditing`: enters the runtime's editing state when model access is
    /// admitted.
    pub fn begin_editing(&mut self) -> (r: Result<(), AraError>)
        requires
            old(self)@.wf(),
        ensures
            final(self)@.wf(),
            final(self)@ == (ControllerView { runtime: final(self)@.runtime, ..old(self)@ }),
            !old(self)@.model_accessible() ==> (r matches Err(e) && e is InvalidState)
                && final(self)@ == old(self)@,
            old(self)@.model_accessible() && old(self)@.rt().spec_editing() ==> (r matches Err(e)
                && e is InvalidState),
            old(self)@.model_accessible() ==> final(self)@.runtime is Some
                && final(self)@.rt().same_objects(old(self)@.rt()),
            r is Ok ==> old(self)@.model_accessible() && !old(self)@.rt().spec_editing()
                && final(self)@.rt().spec_editing(),
            r is Err ==> final(self)@.runtime is Some ==> final(self)@.rt().spec_editing()
                == old(self)@.rt().spec_editing(),
            old(self)@.model_accessible() && !old(self)@.rt().spec_editing() ==> P::begins_editing(
                old(self)@.rt().spec_delegate(),
                final(self)@.rt().spec_delegate(),
                old(self)@.rt().spec_document(),
                final(self)@.rt().spec_document(),
                r,
            ),
    {
        self.check_model_access()?;
        let mut rt = self.runtime.take().unwrap();
        let r = rt.begin_callback_editing();
        self.runtime = Some(rt);
        r
    }

    /// Handles `endEditing`: leaves the runtime's editing state unless a content reader is
    /// open.
    pub fn end_editing(&mut self) -> (r: Result<(), AraError>)
        requires
            old(self)@.wf(),
        ensures
            final(self)@.wf(),
            final(self)@ == (ControllerView { runtime: final(self)@.runtime, ..old(self)@ }),
            !old(self)@.model_accessible() ==> (r matches Err(e) && e is InvalidState)
                && final(self)@ == old(self)@,
            old(self)@.model_accessible() && !old(self)@.rt().spec_editing() ==> (r matches Err(e)
                && e is InvalidState),
            old(self)@.model_accessible() ==> final(self)@.runtime is Some
                && final(self)@.rt().same_objects(old(self)@.rt()),
            r is Ok ==> old(self)@.model_accessible() && old(self)@.rt().spec_editing()
                && !final(self)@.rt().spec_editing(),
            r is Err ==> final(self)@.runtime is Some ==> final(self)@.rt().spec_editing()
                == old(self)@.rt().spec_editing(),
            old(self)@.model_accessible() && old(self)@.rt().spec_editing() ==> P::ends_editing(
                old(self)@.rt().spec_delegate(),
                final(self)@.rt().spec_delegate(),
                old(self)@.rt().spec_document(),
                final(self)@.rt().spec_document(),
                r,
            ),
    {
        self.check_model_access()?;
        let mut rt = self.runtime.take().unwrap();
        let r = rt.end_callback_editing();
        self.runtime = Some(rt);
        r
    }

    /// Handles `createMusicalContext`: creates the context in the host's editing session,
    /// with its internal region sequence under ARA 1 (`legacy_sequence_data` is the
    /// application data that sequence receives), and records the host identity.
    ///
    /// Fails with `InvalidArgument` for a null host reference, with `InvalidState` when model
    /// access is refused or no editing session is active, and with the runtime's error;
    /// nothing is recorded on failure.
    pub fn create_musical_context(
        &mut self,
        host_ref: u64,
        properties: <P as MusicalContexts>::MusicalContextProperties,
        legacy_sequence_data: <P as RegionSequences>::RegionSequenceData,
    ) -> (r: Result<ModelRef<MusicalContextKind>, AraError>)
        requires
            old(self)@.wf(),
        ensures
            final(self)@.wf(),
            final(self)@ == (ControllerView {
                runtime: final(self)@.runtime,
                context_hosts: final(self)@.context_hosts,
                synthetic: final(self)@.synthetic,
                ..old(self)@
            }),
            host_ref == 0 ==> (r matches Err(e) && e is InvalidArgument) && final(self)@ == old(self)@,
            host_ref != 0 && !old(self)@.editable() ==> (r matches Err(e) && e is InvalidState)
                && final(self)@ == old(self)@,
            host_ref != 0 && old(self)@.editable() && old(self)@.rt().spec_next_id() < u64::MAX ==> exists|
                after_context: P,
                result: Result<<P as MusicalContexts>::MusicalContext, AraError>,
            | {
                &&& #[trigger] P::creates_musical_context(
                    old(self)@.rt().spec_delegate(),
                    after_context,
                    CreateContext::for_object(
                        old(self)@.rt().spec_generation(),
                        RawHandle { session: old(self)@.rt().spec_session(), id: old(self)@.rt().spec_next_id() },
                    ),
                    properties,
                    result,
                )
                &&& result matches Err(e) ==> r == Err::<ModelRef<MusicalContextKind>, AraError>(e)
                    && final(self)@.rt().spec_delegate() == after_context
                &&& !old(self)@.rt().spec_generation().spec_is_legacy() ==> final(self)@.rt().spec_delegate()
                    == after_context && (result matches Ok(v) ==> r is Ok
                    && final(self)@.rt().contexts_view()[old(self)@.rt().spec_next_id()].value == Some(v))
            },
            r is Err ==> final(self)@.context_hosts == old(self)@.context_hosts
                && final(self)@.synthetic == old(self)@.synthetic,
            r is Err && old(self)@.runtime is Some ==> final(self)@.runtime is Some
                && final(self)@.rt().contexts_view() == old(self)@.rt().contexts_view()
                && final(self)@.rt().sequences_view() == old(self)@.rt().sequences_view()
                && final(self)@.rt().spec_editing() == old(self)@.rt().spec_editing(),
            r matches Ok(m) ==> {
                let old_rt = old(self)@.rt();
                let new_rt = final(self)@.rt();
                &&& host_ref != 0
                &&& old(self)@.editable()
                &&& final(self)@.runtime is Some
                &&& new_rt.spec_editing()
                &&& m.raw == (RawHandle { session: old_rt.spec_session(), id: old_rt.spec_next_id() })
                &&& added(new_rt.contexts_view(), old_rt.contexts_view(), m.raw.id)
                &&& final(self)@.context_hosts == old(self)@.context_hosts.insert(m.raw.id, host_ref)
                &&& new_rt.sources_view() == old_rt.sources_view()
                &&& new_rt.modifications_view() == old_rt.modifications_view()
                &&& new_rt.regions_view() == old_rt.regions_view()
                &&& if old_rt.spec_generation().spec_is_legacy() {
                    let s = RawHandle { session: m.raw.session, id: (m.raw.id + 1) as u64 };
                    &&& added(new_rt.sequences_view(), old_rt.sequences_view(), s.id)
                    &&& new_rt.sequences_view()[s.id].context == m.raw.id
                    &&& final(self)@.synthetic == old(self)@.synthetic.insert(m.raw.id, s)
                } else {
                    &&& new_rt.sequences_view() == old_rt.sequences_view()
                    &&& final(self)@.synthetic == old(self)@.synthetic
                }
            },
    {
        if host_ref == 0 {
            return Err(null_host());
        }
        self.check_model_access()?;
        let mut rt = self.runtime.take().unwrap();
        let created = create_context_in(&mut rt, properties, legacy_sequence_data);
        self.runtime = Some(rt);
        let (context, synthetic) = match created {
            Ok(pair) => pair,
            Err(e) => {
                return Err(e);
            },
        };
        self.musical_context_hosts.insert(context.raw.id, host_ref);
        match synthetic {
            Some(sequence) => {
                self.synthetic_sequences.insert(context.raw.id, sequence.raw);
            },
            None => {},
        }
        Ok(ModelRef::from_handle(context))
    }

    /// Handles `destroyMusicalContext`: destroys the context's internal ARA 1 region sequence,
    /// then the context, and forgets both records.
    ///
    /// Fails with `InvalidState` when model access is refused or no editing session is active,
    /// with `InvalidArgument` when the context is not live, and with the runtime's error when
    /// a teardown step is refused; a refused context teardown may leave its internal sequence
    /// already destroyed.
    pub fn destroy_musical_context(&mut self, reference: ModelRef<MusicalContextKind>) -> (r: Result<
        (),
        AraError,
    >)
        requires
            old(self)@.wf(),
        ensures
            final(self)@.wf(),
            final(self)@ == (ControllerView {
                runtime: final(self)@.runtime,
                context_hosts: final(self)@.context_hosts,
                synthetic: final(self)@.synthetic,
                ..old(self)@
            }),
            !old(self)@.editable() ==> (r matches Err(e) && e is InvalidState) && final(self)@ == old(self)@,
            old(self)@.editable() && !old(self)@.rt().live_context(
                Handle::<MusicalContextKind>::from_raw_spec(reference.raw),
            ) ==> (r matches Err(e) && e is InvalidArgument) && final(self)@ == old(self)@,
            r is Ok <==> old(self)@.editable() && old(self)@.rt().live_context(
                Handle::<MusicalContextKind>::from_raw_spec(reference.raw),
            ) && old(self)@.context_teardown_allowed(reference.raw.id),
            r is Err ==> final(self)@.context_hosts == old(self)@.context_hosts
                && final(self)@.synthetic == old(self)@.synthetic,
            r is Err && old(self)@.editable() ==> final(self)@.runtime is Some
                && final(self)@.rt().wf() && final(self)@.rt().spec_editing()
                && old(self)@.lost_at_most_synthetic(final(self)@, reference.raw.id),
            r is Ok ==> {
                let k = reference.raw.id;
                let old_rt = old(self)@.rt();
                let new_rt = final(self)@.rt();
                &&& final(self)@.runtime is Some
                &&& new_rt.spec_editing()
                &&& final(self)@.context_hosts == old(self)@.context_hosts.remove(k)
                &&& final(self)@.synthetic == old(self)@.synthetic.remove(k)
                &&& new_rt.sources_view() == old_rt.sources_view()
                &&& new_rt.modifications_view() == old_rt.modifications_view()
                &&& new_rt.regions_view() == old_rt.regions_view()
                &&& if old(self)@.synthetic.contains_key(k) {
                    let s = old(self)@.synthetic[k];
                    &&& new_rt.sequences_view() == old_rt.sequences_view().remove(s.id)
                    &&& new_rt.contexts_view() == node_children_moved(
                        old_rt.contexts_view(),
                        old_rt.sequences_view()[s.id].context,
                        -1,
                    ).remove(k)
                } else {
                    &&& new_rt.sequences_view() == old_rt.sequences_view()
                    &&& new_rt.contexts_view() == old_rt.contexts_view().remove(k)
                }
            },
    {
        self.check_model_access()?;
        let mut rt = self.runtime.take().unwrap();
        let synthetic = match self.synthetic_sequences.get(&reference.raw.id) {
            Some(s) => Some(*s),
            None => None,
        };
        let outcome = destroy_context_in(&mut rt, reference, synthetic);
        self.runtime = Some(rt);
        proof {
            let old_rt = old(self)@.rt();
            let new_rt = self@.rt();
            if outcome is Err && synthetic is Some && !new_rt.same_objects(old_rt) {
                let s = synthetic.unwrap();
                assert(old_rt.sequences_view().contains_key(s.id));
                let c = old_rt.sequences_view()[s.id].context;
                assert(old_rt.contexts_view().contains_key(c));
                assert(new_rt.contexts_view() == node_children_moved(old_rt.contexts_view(), c, -1));
                assert(new_rt.contexts_view().dom() =~= old_rt.contexts_view().dom());
            }
        }
        outcome?;
        self.musical_context_hosts.remove(&reference.raw.id);
        self.synthetic_sequences.remove(&reference.raw.id);
        proof {
            let old_rt = old(self)@.rt();
            let new_rt = self@.rt();
            if synthetic is Some {
                let s = synthetic.unwrap();
                assert(old_rt.sequences_view().contains_key(s.id));
            }
            assert(new_rt.contexts_view().dom() =~= self@.context_hosts.dom());
        }
        Ok(())
    }

    /// Handles `createAudioSource`: creates the source in the host's editing session and
    /// records its host identity.
    ///
    /// Fails with `InvalidArgument` for a null host reference, with `InvalidState` when model
    /// access is refused or no editing session is active, and with the runtime's error;
    /// nothing is recorded on failure.
    pub fn create_audio_source(
        &mut self,
        host_ref: u64,
        properties: <P as AudioSources>::AudioSourceProperties,
    ) -> (r: Result<ModelRef<AudioSourceKind>, AraError>)
        requires
            old(self)@.wf(),
        ensures
            final(self)@.wf(),
            final(self)@ == (ControllerView {
                runtime: final(self)@.runtime,
                source_hosts: final(self)@.source_hosts,
                ..old(self)@
            }),
            host_ref == 0 ==> (r matches Err(e) && e is InvalidArgument) && final(self)@ == old(self)@,
            host_ref != 0 && !old(self)@.editable() ==> (r matches Err(e) && e is InvalidState)
                && final(self)@ == old(self)@,
            host_ref != 0 && old(self)@.editable() && old(self)@.rt().spec_next_id() < u64::MAX
                ==> exists|result: Result<<P as AudioSources>::AudioSource, AraError>| {
                &&& #[trigger] P::creates_audio_source(
                    old(self)@.rt().spec_delegate(),
                    final(self)@.rt().spec_delegate(),
                    CreateContext::for_object(
                        old(self)@.rt().spec_generation(),
                        RawHandle { session: old(self)@.rt().spec_session(), id: old(self)@.rt().spec_next_id() },
                    ),
                    properties,
                    result,
                )
                &&& result matches Err(e) ==> r == Err::<ModelRef<AudioSourceKind>, AraError>(e)
                &&& result matches Ok(v) ==> r is Ok && final(self)@.rt().sources_view()[old(self)@.rt().spec_next_id()].value
                    == Some(v)
            },
            r is Err ==> final(self)@.source_hosts == old(self)@.source_hosts,
            r is Err && old(self)@.runtime is Some ==> final(self)@.runtime is Some
                && final(self)@.rt().same_graph(old(self)@.rt()),
            r matches Ok(m) ==> {
                let old_rt = old(self)@.rt();
                let new_rt = final(self)@.rt();
                &&& host_ref != 0
                &&& old(self)@.editable()
                &&& final(self)@.runtime is Some
                &&& m.raw == (RawHandle { session: old_rt.spec_session(), id: old_rt.spec_next_id() })
                &&& added(new_rt.sources_view(), old_rt.sources_view(), m.raw.id)
                &&& new_rt.sources_view()[m.raw.id].active
                &&& final(self)@.source_hosts == old(self)@.source_hosts.insert(m.raw.id, host_ref)
                &&& new_rt.contexts_view() == old_rt.contexts_view()
                &&& new_rt.sequences_view() == old_rt.sequences_view()
                &&& new_rt.modifications_view() == old_rt.modifications_view()
                &&& new_rt.regions_view() == old_rt.regions_view()
                &&& new_rt.spec_editing()
            },
    {
        if host_ref == 0 {
            return Err(null_host());
        }
        self.check_model_access()?;
        let mut rt = self.runtime.take().unwrap();
        let created = if rt.is_editing() {
            rt.create_audio_source(properties)
        } else {
            Err(not_editing())
        };
        self.runtime = Some(rt);
        let source = created?;
        self.audio_source_hosts.insert(source.raw.id, host_ref);
        Ok(ModelRef::from_handle(source))
    }

    /// Cancels the analysis job of `source` and drops its unreported analysis start.
    fn forget_analysis(&mut self, source: RawHandle)
        ensures
            final(self)@ == (ControllerView {
                analysis: final(self)@.analysis,
                pending_starts: old(self)@.pending_starts.filter(|p: RawHandle| p != source),
                ..old(self)@
            }),
            final(self)@.analysis.job(source) is None,
            forall|o: RawHandle| o != source ==> final(self)@.analysis.job(o) == old(self)@.analysis.job(o),
    {
        self.analysis.cancel(source);
        let ghost initial = self.pending_analysis_starts@;
        let ghost keep = |p: RawHandle| p != source;
        let mut kept: Vec<RawHandle> = Vec::new();
        let n = self.pending_analysis_starts.len();
        let mut i: usize = 0;
        while i < n
            invariant
                n == self.pending_analysis_starts@.len(),
                initial == self.pending_analysis_starts@,
                keep == (|p: RawHandle| p != source),
                0 <= i <= n,
                kept@ == initial.take(i as int).filter(keep),
            decreases n - i,
        {
            let p = self.pending_analysis_starts[i];
            proof {
                assert(initial.take(i + 1) =~= initial.take(i as int).push(p));
                initial.take(i as int).lemma_filter_push(p, keep);
            }
            if !p.same(&source) {
                kept.push(p);
            }
            i += 1;
        }
        proof {
            assert(initial.take(n as int) =~= initial);
        }
        self.pending_analysis_starts = kept;
    }

    /// Handles `destroyAudioSource`: once the destruction is known to be allowed, cancels the
    /// source's analysis, destroys it and forgets its host identity, which is returned so that
    /// the host's audio readers for it can be revoked.
    ///
    /// Fails with `InvalidState` once the controller was destroyed, outside an editing session
    /// or while the source still owns audio modifications, and with `InvalidArgument` when the
    /// source is not live; nothing changes on failure.
    pub fn destroy_audio_source(&mut self, reference: ModelRef<AudioSourceKind>) -> (r: Result<
        u64,
        AraError,
    >)
        requires
            old(self)@.wf(),
        ensures
            final(self)@.wf(),
            r is Ok <==> old(self)@.runtime is Some && old(self)@.rt().spec_editing()
                && old(self)@.rt().live_source(Handle::<AudioSourceKind>::from_raw_spec(reference.raw))
                && old(self)@.rt().sources_view()[reference.raw.id].children == 0,
            r matches Err(e) ==> e is InvalidState || e is InvalidArgument,
            r is Err ==> final(self)@ == old(self)@,
            r matches Ok(host_ref) ==> {
                let k = reference.raw.id;
                let old_rt = old(self)@.rt();
                let new_rt = final(self)@.rt();
                &&& host_ref == old(self)@.source_hosts[k]
                &&& final(self)@ == (ControllerView {
                    runtime: final(self)@.runtime,
                    source_hosts: old(self)@.source_hosts.remove(k),
                    analysis: final(self)@.analysis,
                    pending_starts: old(self)@.pending_starts.filter(|p: RawHandle| p != reference.raw),
                    ..old(self)@
                })
                &&& final(self)@.analysis.job(reference.raw) is None
                &&& forall|o: RawHandle| o != reference.raw ==> final(self)@.analysis.job(o)
                    == old(self)@.analysis.job(o)
                &&& final(self)@.runtime is Some
                &&& new_rt.sources_view() == old_rt.sources_view().remove(k)
                &&& new_rt.contexts_view() == old_rt.contexts_view()
                &&& new_rt.sequences_view() == old_rt.sequences_view()
                &&& new_rt.modifications_view() == old_rt.modifications_view()
                &&& new_rt.regions_view() == old_rt.regions_view()
                &&& new_rt.spec_editing()
            },
            r is Ok ==> P::destroys_audio_source(
                old(self)@.rt().spec_delegate(),
                final(self)@.rt().spec_delegate(),
                old(self)@.rt().sources_view()[reference.raw.id].value->0,
            ),
    {
        let source = match &self.runtime {
            Some(rt) => {
                let source = rt.resolve_audio_source(reference)?;
                rt.validate_audio_source_destruction(source)?;
                source
            },
            None => {
                return Err(destroyed());
            },
        };
        self.forget_analysis(source.raw);
        let host_ref = *self.audio_source_hosts.get(&source.raw.id).unwrap();
        let mut rt = self.runtime.take().unwrap();
        let destroyed = rt.destroy_audio_source(source);
        proof {
            assert(destroyed is Ok);
        }
        self.runtime = Some(rt);
        self.audio_source_hosts.remove(&source.raw.id);
        proof {
            assert(self@.source_hosts.dom() =~= self@.rt().sources_view().dom());
        }
        Ok(host_ref)
    }

    /// Handles `deactivateAudioSourceForUndoHistory`: changes the source's activation in the
    /// host's editing session; a deactivated source loses its analysis job and unreported
    /// analysis start. Returns the source's host identity, whose audio readers the host side
    /// revokes after a deactivation.
    ///
    /// Fails with `InvalidState` once the controller was destroyed, while a content reader is
    /// open or outside an editing session, with `InvalidArgument` when the source is not live,
    /// and with the runtime's error; only the runtime may change on failure.
    pub fn deactivate_audio_source(
        &mut self,
        reference: ModelRef<AudioSourceKind>,
        deactivate: bool,
    ) -> (r: Result<u64, AraError>)
        requires
            old(self)@.wf(),
        ensures
            final(self)@.wf(),
            old(self)@.runtime is None ==> (r matches Err(e) && e is InvalidState) && final(self)@ == old(self)@,
            old(self)@.runtime is Some && !old(self)@.rt().live_source(
                Handle::<AudioSourceKind>::from_raw_spec(reference.raw),
            ) ==> (r matches Err(e) && e is InvalidArgument) && final(self)@ == old(self)@,
            old(self)@.runtime is Some && old(self)@.rt().live_source(
                Handle::<AudioSourceKind>::from_raw_spec(reference.raw),
            ) && !old(self)@.editable() ==> (r matches Err(e) && e is InvalidState) && final(self)@ == old(self)@,
            r is Err ==> final(self)@ == (ControllerView { runtime: final(self)@.runtime, ..old(self)@ }),
            r is Err && old(self)@.runtime is Some ==> final(self)@.runtime is Some
                && final(self)@.rt().same_structure(old(self)@.rt()),
            r matches Ok(host_ref) ==> {
                let k = reference.raw.id;
                let old_rt = old(self)@.rt();
                let new_rt = final(self)@.rt();
                &&& old(self)@.editable()
                &&& old_rt.live_source(Handle::<AudioSourceKind>::from_raw_spec(reference.raw))
                &&& !(deactivate && old_rt.has_active_modification(
                    Handle::<AudioSourceKind>::from_raw_spec(reference.raw),
                ))
                &&& host_ref == old(self)@.source_hosts[k]
                &&& final(self)@.runtime is Some
                &&& new_rt.sources_view()[k].active == !deactivate
                &&& new_rt.same_objects_but_source_activity(old_rt, k)
                &&& if deactivate {
                    &&& final(self)@ == (ControllerView {
                        runtime: final(self)@.runtime,
                        analysis: final(self)@.analysis,
                        pending_starts: old(self)@.pending_starts.filter(|p: RawHandle| p != reference.raw),
                        ..old(self)@
                    })
                    &&& final(self)@.analysis.job(reference.raw) is None
                    &&& forall|o: RawHandle| o != reference.raw ==> final(self)@.analysis.job(o)
                        == old(self)@.analysis.job(o)
                } else {
                    final(self)@ == (ControllerView { runtime: final(self)@.runtime, ..old(self)@ })
                }
            },
            old(self)@.editable() && old(self)@.rt().live_source(
                Handle::<AudioSourceKind>::from_raw_spec(reference.raw),
            ) && !(deactivate && old(self)@.rt().has_active_modification(
                Handle::<AudioSourceKind>::from_raw_spec(reference.raw),
            )) ==> exists|answer: Result<(), AraError>| {
                &&& #[trigger] P::deactivates_audio_source(
                    old(self)@.rt().spec_delegate(),
                    final(self)@.rt().spec_delegate(),
                    old(self)@.rt().sources_view()[reference.raw.id].value->0,
                    final(self)@.rt().sources_view()[reference.raw.id].value->0,
                    deactivate,
                    answer,
                )
                &&& answer is Ok <==> r is Ok
                &&& answer matches Err(e) ==> r == Err::<u64, AraError>(e)
            },
    {
        let source = match &self.runtime {
            Some(rt) => rt.resolve_audio_source(reference)?,
            None => {
                return Err(destroyed());
            },
        };
        let host_ref = *self.audio_source_hosts.get(&source.raw.id).unwrap();
        self.check_model_access()?;
        let mut rt = self.runtime.take().unwrap();
        let changed = if rt.is_editing() {
            rt.set_audio_source_deactivated(source, deactivate)
        } else {
            Err(not_editing())
        };
        self.runtime = Some(rt);
        proof {
            let old_rt = old(self)@.rt();
            let new_rt = self@.rt();
            assert(new_rt.sources_view().dom() =~= old_rt.sources_view().dom());
            assert(new_rt.contexts_view().dom() =~= old_rt.contexts_view().dom());
            assert(new_rt.modifications_view().dom() =~= old_rt.modifications_view().dom());
            assert(new_rt.regions_view().dom() =~= old_rt.regions_view().dom());
        }
        changed?;
        if deactivate {
            self.forget_analysis(source.raw);
        }
        Ok(host_ref)
    }

    /// Handles `enableAudioSourceSamplesAccess`: disabling access first cancels the source's
    /// analysis job and unreported analysis start; unless a content reader is open the runtime
    /// then records the access change, whose own outcome is not reported. Returns the source's
    /// host identity, whose audio readers the host side revokes when access was disabled.
    ///
    /// Fails with `InvalidState` once the controller was destroyed or while a content reader
    /// is open, and with `InvalidArgument` when the source is not live.
    pub fn enable_audio_source_samples_access(
        &mut self,
        reference: ModelRef<AudioSourceKind>,
        enable: bool,
    ) -> (r: Result<u64, AraError>)
        requires
            old(self)@.wf(),
        ensures
            final(self)@.wf(),
            old(self)@.runtime is None ==> (r matches Err(e) && e is InvalidState) && final(self)@ == old(self)@,
            old(self)@.runtime is Some && !old(self)@.rt().live_source(
                Handle::<AudioSourceKind>::from_raw_spec(reference.raw),
            ) ==> (r matches Err(e) && e is InvalidArgument) && final(self)@ == old(self)@,
            r is Ok <==> old(self)@.model_accessible() && old(self)@.rt().live_source(
                Handle::<AudioSourceKind>::from_raw_spec(reference.raw),
            ),
            r matches Err(e) ==> e is InvalidState || e is InvalidArgument,
            r matches Ok(host_ref) ==> host_ref == old(self)@.source_hosts[reference.raw.id],
            old(self)@.runtime is Some ==> final(self)@.runtime is Some && final(self)@.rt().same_structure(
                old(self)@.rt(),
            ),
            old(self)@.runtime is Some && old(self)@.rt().live_source(
                Handle::<AudioSourceKind>::from_raw_spec(reference.raw),
            ) ==> if enable {
                final(self)@ == (ControllerView { runtime: final(self)@.runtime, ..old(self)@ })
            } else {
                &&& final(self)@ == (ControllerView {
                    runtime: final(self)@.runtime,
                    analysis: final(self)@.analysis,
                    pending_starts: old(self)@.pending_starts.filter(|p: RawHandle| p != reference.raw),
                    ..old(self)@
                })
                &&& final(self)@.analysis.job(reference.raw) is None
                &&& forall|o: RawHandle| o != reference.raw ==> final(self)@.analysis.job(o)
                    == old(self)@.analysis.job(o)
            },
            old(self)@.model_accessible() && old(self)@.rt().live_source(
                Handle::<AudioSourceKind>::from_raw_spec(reference.raw),
            ) ==> exists|answer: Result<(), AraError>| #[trigger] P::enables_samples_access(
                old(self)@.rt().spec_delegate(),
                final(self)@.rt().spec_delegate(),
                old(self)@.rt().sources_view()[reference.raw.id].value->0,
                final(self)@.rt().sources_view()[reference.raw.id].value->0,
                enable,
                answer,
            ),
    {
        let source = match &self.runtime {
            Some(rt) => rt.resolve_audio_source(reference)?,
            None => {
                return Err(destroyed());
            },
        };
        if !enable {
            self.forget_analysis(source.raw);
        }
        let host_ref = *self.audio_source_hosts.get(&source.raw.id).unwrap();
        self.check_model_access()?;
        let mut rt = self.runtime.take().unwrap();
        let _ = rt.enable_audio_source_samples_access(source, enable);
        self.runtime = Some(rt);
        proof {
            let old_rt = old(self)@.rt();
            let new_rt = self@.rt();
            assert(new_rt.sources_view().dom() =~= old_rt.sources_view().dom());
            assert(new_rt.contexts_view().dom() =~= old_rt.contexts_view().dom());
            assert(new_rt.modifications_view().dom() =~= old_rt.modifications_view().dom());
            assert(new_rt.regions_view().dom() =~= old_rt.regions_view().dom());
        }
        Ok(host_ref)
    }

    /// Handles `createAudioModification`: creates a modification of a live, active source in
    /// the host's editing session and records its host identity.
    ///
    /// Fails with `InvalidArgument` for a null host reference, with `InvalidState` when model
    /// access is refused, with `InvalidArgument` when the source is not live, with
    /// `InvalidState` outside an editing session, and with the runtime's error; nothing is
    /// recorded on failure.
    pub fn create_audio_modification(
        &mut self,
        source_reference: ModelRef<AudioSourceKind>,
        host_ref: u64,
        properties: <P as AudioModifications>::AudioModificationProperties,
    ) -> (r: Result<ModelRef<AudioModificationKind>, AraError>)
        requires
            old(self)@.wf(),
        ensures
            final(self)@.wf(),
            final(self)@ == (ControllerView {
                runtime: final(self)@.runtime,
                modification_hosts: final(self)@.modification_hosts,
                ..old(self)@
            }),
            host_ref == 0 ==> (r matches Err(e) && e is InvalidArgument) && final(self)@ == old(self)@,
            host_ref != 0 && !old(self)@.model_accessible() ==> (r matches Err(e) && e is InvalidState)
                && final(self)@ == old(self)@,
            host_ref != 0 && old(self)@.model_accessible() && !old(self)@.rt().live_source(
                Handle::<AudioSourceKind>::from_raw_spec(source_reference.raw),
            ) ==> (r matches Err(e) && e is InvalidArgument) && final(self)@ == old(self)@,
            host_ref != 0 && old(self)@.model_accessible() && old(self)@.rt().live_source(
                Handle::<AudioSourceKind>::from_raw_spec(source_reference.raw),
            ) && !old(self)@.rt().spec_editing() ==> (r matches Err(e) && e is InvalidState)
                && final(self)@ == old(self)@,
            r is Err ==> final(self)@.modification_hosts == old(self)@.modification_hosts,
            r is Err && old(self)@.runtime is Some ==> final(self)@.runtime is Some
                && final(self)@.rt().same_graph(old(self)@.rt()),
            r matches Ok(m) ==> {
                let old_rt = old(self)@.rt();
                let new_rt = final(self)@.rt();
                let s = source_reference.raw.id;
                &&& host_ref != 0
                &&& old(self)@.editable()
                &&& old_rt.live_source(Handle::<AudioSourceKind>::from_raw_spec(source_reference.raw))
                &&& old_rt.sources_view()[s].active
                &&& final(self)@.runtime is Some
                &&& m.raw == (RawHandle { session: old_rt.spec_session(), id: old_rt.spec_next_id() })
                &&& added(new_rt.modifications_view(), old_rt.modifications_view(), m.raw.id)
                &&& new_rt.modifications_view()[m.raw.id].source == s
                &&& new_rt.sources_view() == node_children_moved(old_rt.sources_view(), s, 1)
                &&& final(self)@.modification_hosts == old(self)@.modification_hosts.insert(m.raw.id, host_ref)
                &&& new_rt.contexts_view() == old_rt.contexts_view()
                &&& new_rt.sequences_view() == old_rt.sequences_view()
                &&& new_rt.regions_view() == old_rt.regions_view()
                &&& new_rt.spec_editing()
            },
            host_ref != 0 && old(self)@.editable() && old(self)@.rt().live_source(
                Handle::<AudioSourceKind>::from_raw_spec(source_reference.raw),
            ) && old(self)@.rt().sources_view()[source_reference.raw.id].active
                && old(self)@.rt().spec_next_id() < u64::MAX ==> exists|
                result: Result<<P as AudioModifications>::AudioModification, AraError>,
            | {
                &&& #[trigger] P::creates_audio_modification(
                    old(self)@.rt().spec_delegate(),
                    final(self)@.rt().spec_delegate(),
                    CreateContext::for_object(
                        old(self)@.rt().spec_generation(),
                        RawHandle { session: old(self)@.rt().spec_session(), id: old(self)@.rt().spec_next_id() },
                    ),
                    properties,
                    result,
                )
                &&& result matches Err(e) ==> r == Err::<ModelRef<AudioModificationKind>, AraError>(e)
                &&& result matches Ok(v) ==> r is Ok && final(self)@.rt().modifications_view()[old(self)@.rt().spec_next_id()].node.value
                    == Some(v)
            },
    {
        if host_ref == 0 {
            return Err(null_host());
        }
        self.check_model_access()?;
        let mut rt = self.runtime.take().unwrap();
        let created = match rt.resolve_audio_source(source_reference) {
            Ok(source) => {
                if rt.is_editing() {
                    rt.create_audio_modification(source, properties)
                } else {
                    Err(not_editing())
                }
            },
            Err(e) => Err(e),
        };
        self.runtime = Some(rt);
        let modification = match created {
            Ok(modification) => modification,
            Err(e) => {
                return Err(e);
            },
        };
        self.audio_modification_hosts.insert(modification.raw.id, host_ref);
        proof {
            let old_rt = old(self)@.rt();
            let s = source_reference.raw.id;
            assert(old_rt.sources_view().contains_key(s));
            assert(self@.rt().sources_view().dom() =~= old_rt.sources_view().dom());
        }
        Ok(ModelRef::from_handle(modification))
    }

    /// Handles `cloneAudioModification`: creates a modification of the same source as a live
    /// modification, in the host's editing session, and records its host identity.
    ///
    /// Fails as `create_audio_modification` does, with `InvalidArgument` when the cloned
    /// modification is not live; nothing is recorded on failure.
    pub fn clone_audio_modification(
        &mut self,
        source_reference: ModelRef<AudioModificationKind>,
        host_ref: u64,
        properties: <P as AudioModifications>::AudioModificationProperties,
    ) -> (r: Result<ModelRef<AudioModificationKind>, AraError>)
        requires
            old(self)@.wf(),
        ensures
            final(self)@.wf(),
            final(self)@ == (ControllerView {
                runtime: final(self)@.runtime,
                modification_hosts: final(self)@.modification_hosts,
                ..old(self)@
            }),
            host_ref == 0 ==> (r matches Err(e) && e is InvalidArgument) && final(self)@ == old(self)@,
            host_ref != 0 && !old(self)@.model_accessible() ==> (r matches Err(e) && e is InvalidState)
                && final(self)@ == old(self)@,
            host_ref != 0 && old(self)@.model_accessible() && !old(self)@.rt().live_modification(
                Handle::<AudioModificationKind>::from_raw_spec(source_reference.raw),
            ) ==> (r matches Err(e) && e is InvalidArgument) && final(self)@ == old(self)@,
            host_ref != 0 && old(self)@.model_accessible() && old(self)@.rt().live_modification(
                Handle::<AudioModificationKind>::from_raw_spec(source_reference.raw),
            ) && !old(self)@.rt().spec_editing() ==> (r matches Err(e) && e is InvalidState)
                && final(self)@ == old(self)@,
            r is Err ==> final(self)@.modification_hosts == old(self)@.modification_hosts,
            r is Err && old(self)@.runtime is Some ==> final(self)@.runtime is Some
                && final(self)@.rt().same_graph(old(self)@.rt()),
            r matches Ok(m) ==> {
                let old_rt = old(self)@.rt();
                let new_rt = final(self)@.rt();
                let s = old_rt.modifications_view()[source_reference.raw.id].source;
                &&& host_ref != 0
                &&& old(self)@.editable()
                &&& old_rt.live_modification(
                    Handle::<AudioModificationKind>::from_raw_spec(source_reference.raw),
                )
                &&& old_rt.sources_view()[s].active
                &&& final(self)@.runtime is Some
                &&& m.raw == (RawHandle { session: old_rt.spec_session(), id: old_rt.spec_next_id() })
                &&& added(new_rt.modifications_view(), old_rt.modifications_view(), m.raw.id)
                &&& new_rt.modifications_view()[m.raw.id].source == s
                &&& new_rt.sources_view() == node_children_moved(old_rt.sources_view(), s, 1)
                &&& final(self)@.modification_hosts == old(self)@.modification_hosts.insert(m.raw.id, host_ref)
                &&& new_rt.contexts_view() == old_rt.contexts_view()
                &&& new_rt.sequences_view() == old_rt.sequences_view()
                &&& new_rt.regions_view() == old_rt.regions_view()
                &&& new_rt.spec_editing()
            },
            host_ref != 0 && old(self)@.editable() && old(self)@.rt().live_modification(
                Handle::<AudioModificationKind>::from_raw_spec(source_reference.raw),
            ) && old(self)@.rt().sources_view()[old(self)@.rt().modifications_view()[source_reference.raw.id].source].active
                && old(self)@.rt().spec_next_id() < u64::MAX ==> exists|
                result: Result<<P as AudioModifications>::AudioModification, AraError>,
            | {
                &&& #[trigger] P::clones_audio_modification(
                    old(self)@.rt().spec_delegate(),
                    final(self)@.rt().spec_delegate(),
                    CreateContext::for_object(
                        old(self)@.rt().spec_generation(),
                        RawHandle { session: old(self)@.rt().spec_session(), id: old(self)@.rt().spec_next_id() },
                    ),
                    old(self)@.rt().modifications_view()[source_reference.raw.id].node.value->0,
                    properties,
                    result,
                )
                &&& result matches Err(e) ==> r == Err::<ModelRef<AudioModificationKind>, AraError>(e)
                &&& result matches Ok(v) ==> r is Ok && final(self)@.rt().modifications_view()[old(self)@.rt().spec_next_id()].node.value
                    == Some(v)
            },
    {
        if host_ref == 0 {
            return Err(null_host());
        }
        self.check_model_access()?;
        let mut rt = self.runtime.take().unwrap();
        let created = match rt.resolve_audio_modification(source_reference) {
            Ok(template) => {
                if rt.is_editing() {
                    rt.clone_audio_modification(template, properties)
                } else {
                    Err(not_editing())
                }
            },
            Err(e) => Err(e),
        };
        self.runtime = Some(rt);
        let modification = match created {
            Ok(modification) => modification,
            Err(e) => {
                return Err(e);
            },
        };
        self.audio_modification_hosts.insert(modification.raw.id, host_ref);
        proof {
            let old_rt = old(self)@.rt();
            let s = old_rt.modifications_view()[source_reference.raw.id].source;
            assert(old_rt.sources_view().contains_key(s));
            assert(self@.rt().sources_view().dom() =~= old_rt.sources_view().dom());
        }
        Ok(ModelRef::from_handle(modification))
    }

    /// Handles `destroyAudioModification`: destroys a live modification that plays in no
    /// region and forgets its host identity.
    ///
    /// Fails with `InvalidState` when model access is refused, with `InvalidArgument` when the
    /// modification is not live, with `InvalidState` outside an editing session or while a
    /// playback region still plays it; nothing changes on failure.
    pub fn destroy_audio_modification(&mut self, reference: ModelRef<AudioModificationKind>) -> (r:
        Result<(), AraError>)
        requires
            old(self)@.wf(),
        ensures
            final(self)@.wf(),
            r is Ok <==> old(self)@.editable() && old(self)@.rt().live_modification(
                Handle::<AudioModificationKind>::from_raw_spec(reference.raw),
            ) && old(self)@.rt().modifications_view()[reference.raw.id].node.children == 0,
            r matches Err(e) ==> e is InvalidState || e is InvalidArgument,
            !old(self)@.model_accessible() ==> (r matches Err(e) && e is InvalidState),
            old(self)@.model_accessible() && !old(self)@.rt().live_modification(
                Handle::<AudioModificationKind>::from_raw_spec(reference.raw),
            ) ==> (r matches Err(e) && e is InvalidArgument),
            r is Err ==> final(self)@ == old(self)@,
            r is Ok ==> {
                let k = reference.raw.id;
                let old_rt = old(self)@.rt();
                let new_rt = final(self)@.rt();
                let s = old_rt.modifications_view()[k].source;
                &&& final(self)@ == (ControllerView {
                    runtime: final(self)@.runtime,
                    modification_hosts: old(self)@.modification_hosts.remove(k),
                    ..old(self)@
                })
                &&& final(self)@.runtime is Some
                &&& new_rt.modifications_view() == old_rt.modifications_view().remove(k)
                &&& new_rt.sources_view() == node_children_moved(old_rt.sources_view(), s, -1)
                &&& new_rt.contexts_view() == old_rt.contexts_view()
                &&& new_rt.sequences_view() == old_rt.sequences_view()
                &&& new_rt.regions_view() == old_rt.regions_view()
                &&& new_rt.spec_editing()
            },
            r is Ok ==> P::destroys_audio_modification(
                old(self)@.rt().spec_delegate(),
                final(self)@.rt().spec_delegate(),
                old(self)@.rt().modifications_view()[reference.raw.id].node.value->0,
            ),
    {
        self.check_model_access()?;
        let mut rt = self.runtime.take().unwrap();
        let outcome = match rt.resolve_audio_modification(reference) {
            Ok(modification) => {
                if rt.is_editing() {
                    rt.destroy_audio_modification(modification)
                } else {
                    Err(not_editing())
                }
            },
            Err(e) => Err(e),
        };
        if outcome.is_err() {
            self.runtime = Some(rt);
            return outcome;
        }
        self.runtime = Some(rt);
        self.audio_modification_hosts.remove(&reference.raw.id);
        proof {
            let old_rt = old(self)@.rt();
            let s = old_rt.modifications_view()[reference.raw.id].source;
            assert(old_rt.sources_view().contains_key(s));
            assert(self@.rt().sources_view().dom() =~= old_rt.sources_view().dom());
            assert(self@.rt().modifications_view().dom() =~= self@.modification_hosts.dom());
        }
        Ok(())
    }

    /// Handles `deactivateAudioModificationForUndoHistory`: changes the modification's
    /// activation in the host's editing session.
    ///
    /// Fails with `InvalidState` when model access is refused, with `InvalidArgument` when the
    /// modification is not live, with `InvalidState` outside an editing session, and with the
    /// runtime's error; only the runtime's application state may change on failure.
    pub fn deactivate_audio_modification(
        &mut self,
        reference: ModelRef<AudioModificationKind>,
        deactivate: bool,
    ) -> (r: Result<(), AraError>)
        requires
            old(self)@.wf(),
        ensures
            final(self)@.wf(),
            final(self)@ == (ControllerView { runtime: final(self)@.runtime, ..old(self)@ }),
            !old(self)@.model_accessible() ==> (r matches Err(e) && e is InvalidState) && final(self)@ == old(self)@,
            old(self)@.model_accessible() && !old(self)@.rt().live_modification(
                Handle::<AudioModificationKind>::from_raw_spec(reference.raw),
            ) ==> (r matches Err(e) && e is InvalidArgument) && final(self)@ == old(self)@,
            old(self)@.model_accessible() && old(self)@.rt().live_modification(
                Handle::<AudioModificationKind>::from_raw_spec(reference.raw),
            ) && !old(self)@.rt().spec_editing() ==> (r matches Err(e) && e is InvalidState)
                && final(self)@ == old(self)@,
            old(self)@.runtime is Some ==> final(self)@.runtime is Some,
            r is Err && old(self)@.runtime is Some ==> final(self)@.rt().same_structure(old(self)@.rt()),
            r is Ok ==> {
                let k = reference.raw.id;
                &&& old(self)@.editable()
                &&& final(self)@.rt().modifications_view()[k].node.active == !deactivate
                &&& final(self)@.rt().same_objects_but_modification_activity(old(self)@.rt(), k)
            },
            old(self)@.editable() && old(self)@.rt().live_modification(
                Handle::<AudioModificationKind>::from_raw_spec(reference.raw),
            ) && !(deactivate && old(self)@.rt().modifications_view()[reference.raw.id].node.children != 0)
                && !(!deactivate
                && !old(self)@.rt().sources_view()[old(self)@.rt().modifications_view()[reference.raw.id].source].active)
                ==> P::deactivates_audio_modification(
                old(self)@.rt().spec_delegate(),
                final(self)@.rt().spec_delegate(),
                old(self)@.rt().modifications_view()[reference.raw.id].node.value->0,
                final(self)@.rt().modifications_view()[reference.raw.id].node.value->0,
                deactivate,
                r,
            ),
    {
        self.check_model_access()?;
        let mut rt = self.runtime.take().unwrap();
        let outcome = match rt.resolve_audio_modification(reference) {
            Ok(modification) => {
                if rt.is_editing() {
                    rt.set_audio_modification_deactivated(modification, deactivate)
                } else {
                    Err(not_editing())
                }
            },
            Err(e) => Err(e),
        };
        self.runtime = Some(rt);
        proof {
            let old_rt = old(self)@.rt();
            let new_rt = self@.rt();
            assert(new_rt.sources_view().dom() =~= old_rt.sources_view().dom());
            assert(new_rt.contexts_view().dom() =~= old_rt.contexts_view().dom());
            assert(new_rt.modifications_view().dom() =~= old_rt.modifications_view().dom());
            assert(new_rt.regions_view().dom() =~= old_rt.regions_view().dom());
        }
        outcome
    }

    /// Finds the region sequence a playback region with `properties` is placed in.
    fn find_target_sequence<D>(&self, properties: &PlaybackRegionProperties<D>) -> (r: Result<
        Handle<RegionSequenceKind>,
        AraError,
    >)
        requires
            self@.runtime is Some,
        ensures
            r is Ok <==> self@.target_sequence(*properties) is Some,
            r matches Ok(q) ==> self@.target_sequence(*properties) == Some(q.raw),
            r matches Err(e) ==> e is InvalidArgument,
    {
        let rt = self.runtime.as_ref().unwrap();
        match &properties.region_sequence {
            Some(q) => rt.resolve_region_sequence(*q),
            None => match &properties.musical_context {
                Some(c) => {
                    let context = rt.resolve_musical_context(*c)?;
                    match self.synthetic_sequences.get(&context.raw.id) {
                        Some(s) => Ok(Handle::from_raw(*s)),
                        None => Err(
                            AraError::InvalidArgument("ARA 1 musical context has no region sequence"),
                        ),
                    }
                },
                None => Err(
                    AraError::InvalidArgument("playback region names no region sequence or musical context"),
                ),
            },
        }
    }

    /// Handles `createPlaybackRegion`: places a region of a live modification in the sequence
    /// its properties name (for ARA 1, the internal sequence of the musical context they
    /// name), in the host's editing session, and records its host identity. `transformations`
    /// are the playback transformations the properties request.
    ///
    /// Fails with `InvalidArgument` for a null host reference, with `InvalidState` once the
    /// controller was destroyed, with `InvalidArgument` when the factory does not support a
    /// requested transformation, the modification is not live or there is no target sequence,
    /// with `InvalidState` while a content reader is open or outside an editing session, and
    /// with the runtime's error; nothing is recorded on failure.
    pub fn create_playback_region(
        &mut self,
        modification_reference: ModelRef<AudioModificationKind>,
        host_ref: u64,
        properties: PlaybackRegionProperties<<P as PlaybackRegions>::PlaybackRegionData>,
        transformations: PlaybackTransformationFlags,
    ) -> (r: Result<ModelRef<PlaybackRegionKind>, AraError>)
        requires
            old(self)@.wf(),
        ensures
            final(self)@.wf(),
            final(self)@ == (ControllerView {
                runtime: final(self)@.runtime,
                region_hosts: final(self)@.region_hosts,
                ..old(self)@
            }),
            host_ref == 0 ==> (r matches Err(e) && e is InvalidArgument) && final(self)@ == old(self)@,
            host_ref != 0 && old(self)@.runtime is None ==> (r matches Err(e) && e is InvalidState),
            host_ref != 0 && old(self)@.runtime is Some && !old(self)@.transformations.spec_contains(
                transformations,
            ) ==> (r matches Err(e) && e is InvalidArgument) && final(self)@ == old(self)@,
            host_ref != 0 && old(self)@.runtime is Some && old(self)@.transformations.spec_contains(
                transformations,
            ) && !old(self)@.rt().live_modification(
                Handle::<AudioModificationKind>::from_raw_spec(modification_reference.raw),
            ) ==> (r matches Err(e) && e is InvalidArgument) && final(self)@ == old(self)@,
            host_ref != 0 && old(self)@.runtime is Some && old(self)@.transformations.spec_contains(
                transformations,
            ) && old(self)@.rt().live_modification(
                Handle::<AudioModificationKind>::from_raw_spec(modification_reference.raw),
            ) && old(self)@.target_sequence(properties) is None ==> (r matches Err(e)
                && e is InvalidArgument) && final(self)@ == old(self)@,
            host_ref != 0 && old(self)@.runtime is Some && old(self)@.transformations.spec_contains(
                transformations,
            ) && old(self)@.rt().live_modification(
                Handle::<AudioModificationKind>::from_raw_spec(modification_reference.raw),
            ) && old(self)@.target_sequence(properties) is Some ==> {
                let old_rt = old(self)@.rt();
                let k = modification_reference.raw.id;
                let q = old(self)@.target_sequence(properties)->0;
                &&& !old(self)@.editable() ==> (r matches Err(e) && e is InvalidState) && final(self)@
                    == old(self)@
                &&& old(self)@.editable() && !old_rt.modifications_view()[k].node.active ==> (r matches Err(
                    e,
                ) && e is InvalidState) && final(self)@ == old(self)@
                &&& old(self)@.editable() && old_rt.modifications_view()[k].node.active
                    && !old_rt.region_properties_match(Handle::<RegionSequenceKind>::from_raw_spec(q), properties)
                    ==> (r matches Err(e) && e is InvalidArgument) && final(self)@ == old(self)@
                &&& old(self)@.editable() && old_rt.spec_next_id() == u64::MAX ==> r is Err
                    && final(self)@ == old(self)@
                &&& old(self)@.editable() && old_rt.modifications_view()[k].node.active
                    && !old_rt.live_sequence(Handle::<RegionSequenceKind>::from_raw_spec(q)) ==> (r matches Err(
                    e,
                ) && e is InvalidArgument) && final(self)@ == old(self)@
                &&& old(self)@.editable() && old_rt.modifications_view()[k].node.active
                    && old_rt.live_sequence(Handle::<RegionSequenceKind>::from_raw_spec(q))
                    && old_rt.region_properties_match(Handle::<RegionSequenceKind>::from_raw_spec(q), properties)
                    && old_rt.spec_next_id() < u64::MAX ==> exists|
                    result: Result<<P as PlaybackRegions>::PlaybackRegion, AraError>,
                | {
                    &&& #[trigger] P::creates_playback_region(
                        old(self)@.rt().spec_delegate(),
                        final(self)@.rt().spec_delegate(),
                        CreateContext::for_object(
                            old(self)@.rt().spec_generation(),
                            RawHandle { session: old(self)@.rt().spec_session(), id: old(self)@.rt().spec_next_id() },
                        ),
                        properties,
                        result,
                    )
                    &&& result matches Err(e) ==> r == Err::<ModelRef<PlaybackRegionKind>, AraError>(e)
                    &&& result matches Ok(v) ==> r is Ok && final(self)@.rt().regions_view()[old(self)@.rt().spec_next_id()].node.value
                        == Some(v)
                }
            },
            r is Err ==> final(self)@.region_hosts == old(self)@.region_hosts,
            r is Err && old(self)@.runtime is Some ==> final(self)@.runtime is Some
                && final(self)@.rt().same_graph(old(self)@.rt()),
            r matches Ok(m) ==> {
                let old_rt = old(self)@.rt();
                let new_rt = final(self)@.rt();
                let k = modification_reference.raw.id;
                let q = old(self)@.target_sequence(properties).unwrap();
                &&& host_ref != 0
                &&& old(self)@.transformations.spec_contains(transformations)
                &&& old(self)@.editable()
                &&& old_rt.live_modification(
                    Handle::<AudioModificationKind>::from_raw_spec(modification_reference.raw),
                )
                &&& old_rt.modifications_view()[k].node.active
                &&& old(self)@.target_sequence(properties) is Some
                &&& old_rt.region_properties_match(Handle::<RegionSequenceKind>::from_raw_spec(q), properties)
                &&& final(self)@.runtime is Some
                &&& m.raw == (RawHandle { session: old_rt.spec_session(), id: old_rt.spec_next_id() })
                &&& added(new_rt.regions_view(), old_rt.regions_view(), m.raw.id)
                &&& new_rt.regions_view()[m.raw.id].modification == k
                &&& new_rt.regions_view()[m.raw.id].sequence == q.id
                &&& new_rt.modifications_view() == modification_children_moved(old_rt.modifications_view(), k, 1)
                &&& new_rt.sequences_view() == sequence_children_moved(old_rt.sequences_view(), q.id, 1)
                &&& final(self)@.region_hosts == old(self)@.region_hosts.insert(m.raw.id, host_ref)
                &&& new_rt.contexts_view() == old_rt.contexts_view()
                &&& new_rt.sources_view() == old_rt.sources_view()
                &&& new_rt.spec_editing()
            },
    {
        if host_ref == 0 {
            return Err(null_host());
        }
        let (modification, sequence) = match &self.runtime {
            Some(rt) => {
                if !self.factory_playback_transformations.contains(transformations) {
                    return Err(
                        AraError::InvalidArgument(
                            "playback region requests an unsupported transformation",
                        ),
                    );
                }
                let modification = rt.resolve_audio_modification(modification_reference)?;
                let sequence = self.find_target_sequence(&properties)?;
                (modification, sequence)
            },
            None => {
                return Err(destroyed());
            },
        };
        self.check_model_access()?;
        let mut rt = self.runtime.take().unwrap();
        let created = if rt.is_editing() {
            rt.create_playback_region(modification, sequence, properties)
        } else {
            Err(not_editing())
        };
        self.runtime = Some(rt);
        let region = match created {
            Ok(region) => region,
            Err(e) => {
                return Err(e);
            },
        };
        self.playback_region_hosts.insert(region.raw.id, host_ref);
        proof {
            let old_rt = old(self)@.rt();
            assert(old_rt.modifications_view().contains_key(modification.raw.id));
            assert(old_rt.sequences_view().contains_key(sequence.raw.id));
            assert(self@.rt().sequences_view().dom() =~= old_rt.sequences_view().dom());
            assert(self@.rt().modifications_view().dom() =~= old_rt.modifications_view().dom());
        }
        Ok(ModelRef::from_handle(region))
    }

    /// Handles `updatePlaybackRegionProperties`: applies the properties to a live region in
    /// the host's editing session, moving it to the sequence the properties now name (for
    /// ARA 1, the internal sequence of the musical context they name).
    ///
    /// Fails with `InvalidState` once the controller was destroyed, with `InvalidArgument` when
    /// the region is not live, the factory does not support a requested transformation or
    /// there is no target sequence, with `InvalidState` while a content reader is open or
    /// outside an editing session, and with the runtime's error.
    pub fn update_playback_region(
        &mut self,
        reference: ModelRef<PlaybackRegionKind>,
        properties: PlaybackRegionProperties<<P as PlaybackRegions>::PlaybackRegionData>,
        transformations: PlaybackTransformationFlags,
    ) -> (r: Result<(), AraError>)
        requires
            old(self)@.wf(),
        ensures
            final(self)@.wf(),
            final(self)@ == (ControllerView { runtime: final(self)@.runtime, ..old(self)@ }),
            old(self)@.runtime is None ==> (r matches Err(e) && e is InvalidState),
            old(self)@.runtime is Some && !old(self)@.rt().live_region(
                Handle::<PlaybackRegionKind>::from_raw_spec(reference.raw),
            ) ==> (r matches Err(e) && e is InvalidArgument) && final(self)@ == old(self)@,
            old(self)@.runtime is Some && !(old(self)@.transformations.spec_contains(transformations)
                && old(self)@.target_sequence(properties) is Some) ==> r is Err && final(self)@ == old(self)@,
            old(self)@.runtime is Some ==> final(self)@.runtime is Some,
            old(self)@.runtime is Some ==> final(self)@.rt().regions_view().dom() == old(self)@.rt().regions_view().dom(),
            old(self)@.runtime is Some && old(self)@.rt().live_region(
                Handle::<PlaybackRegionKind>::from_raw_spec(reference.raw),
            ) && old(self)@.transformations.spec_contains(transformations) && old(self)@.target_sequence(
                properties,
            ) is Some ==> {
                let q = old(self)@.target_sequence(properties)->0;
                &&& !old(self)@.editable() ==> (r matches Err(e) && e is InvalidState) && final(self)@
                    == old(self)@
                &&& old(self)@.editable() && !old(self)@.rt().region_properties_match(
                    Handle::<RegionSequenceKind>::from_raw_spec(q),
                    properties,
                ) ==> (r matches Err(e) && e is InvalidArgument) && final(self)@ == old(self)@
            },
            r is Ok ==> {
                let k = reference.raw.id;
                let q = old(self)@.target_sequence(properties).unwrap();
                &&& old(self)@.editable()
                &&& old(self)@.transformations.spec_contains(transformations)
                &&& old(self)@.rt().live_region(Handle::<PlaybackRegionKind>::from_raw_spec(reference.raw))
                &&& old(self)@.rt().region_properties_match(
                    Handle::<RegionSequenceKind>::from_raw_spec(q),
                    properties,
                )
                &&& final(self)@.rt().regions_view()[k].sequence == q.id
                &&& final(self)@.rt().regions_view()[k].modification == old(self)@.rt().regions_view()[k].modification
            },
            old(self)@.editable() && old(self)@.rt().live_region(
                Handle::<PlaybackRegionKind>::from_raw_spec(reference.raw),
            ) && old(self)@.transformations.spec_contains(transformations) && old(self)@.target_sequence(
                properties,
            ) is Some && old(self)@.rt().live_sequence(
                Handle::<RegionSequenceKind>::from_raw_spec(old(self)@.target_sequence(properties)->0),
            ) && old(self)@.rt().region_properties_match(
                Handle::<RegionSequenceKind>::from_raw_spec(old(self)@.target_sequence(properties)->0),
                properties,
            ) ==> P::updates_playback_region(
                old(self)@.rt().spec_delegate(),
                final(self)@.rt().spec_delegate(),
                old(self)@.rt().regions_view()[reference.raw.id].node.value->0,
                final(self)@.rt().regions_view()[reference.raw.id].node.value->0,
                properties,
                r,
            ),
    {
        let (region, sequence) = match &self.runtime {
            Some(rt) => {
                let region = rt.resolve_playback_region(reference)?;
                if !self.factory_playback_transformations.contains(transformations) {
                    return Err(
                        AraError::InvalidArgument(
                            "playback region requests an unsupported transformation",
                        ),
                    );
                }
                let sequence = self.find_target_sequence(&properties)?;
                (region, sequence)
            },
            None => {
                return Err(destroyed());
            },
        };
        self.check_model_access()?;
        let mut rt = self.runtime.take().unwrap();
        let updated = if rt.is_editing() {
            rt.update_playback_region_with_sequence(region, sequence, properties)
        } else {
            Err(not_editing())
        };
        self.runtime = Some(rt);
        proof {
            let old_rt = old(self)@.rt();
            let new_rt = self@.rt();
            assert(new_rt.sources_view().dom() =~= old_rt.sources_view().dom());
            assert(new_rt.contexts_view().dom() =~= old_rt.contexts_view().dom());
            assert(new_rt.modifications_view().dom() =~= old_rt.modifications_view().dom());
            assert(new_rt.regions_view().dom() =~= old_rt.regions_view().dom());
        }
        updated
    }

    /// Handles `destroyPlaybackRegion`: destroys a live region and forgets its host identity.
    ///
    /// Fails with `InvalidState` when model access is refused or outside an editing session,
    /// and with `InvalidArgument` when the region is not live; nothing changes on failure.
    pub fn destroy_playback_region(&mut self, reference: ModelRef<PlaybackRegionKind>) -> (r: Result<
        (),
        AraError,
    >)
        requires
            old(self)@.wf(),
        ensures
            final(self)@.wf(),
            r is Ok <==> old(self)@.editable() && old(self)@.rt().live_region(
                Handle::<PlaybackRegionKind>::from_raw_spec(reference.raw),
            ),
            r matches Err(e) ==> e is InvalidState || e is InvalidArgument,
            old(self)@.model_accessible() && !old(self)@.rt().live_region(
                Handle::<PlaybackRegionKind>::from_raw_spec(reference.raw),
            ) ==> (r matches Err(e) && e is InvalidArgument),
            r is Err ==> final(self)@ == old(self)@,
            r is Ok ==> {
                let k = reference.raw.id;
                let old_rt = old(self)@.rt();
                let new_rt = final(self)@.rt();
                let m = old_rt.regions_view()[k].modification;
                let q = old_rt.regions_view()[k].sequence;
                &&& final(self)@ == (ControllerView {
                    runtime: final(self)@.runtime,
                    region_hosts: old(self)@.region_hosts.remove(k),
                    ..old(self)@
                })
                &&& final(self)@.runtime is Some
                &&& new_rt.regions_view() == old_rt.regions_view().remove(k)
                &&& new_rt.modifications_view() == modification_children_moved(old_rt.modifications_view(), m, -1)
                &&& new_rt.sequences_view() == sequence_children_moved(old_rt.sequences_view(), q, -1)
                &&& new_rt.contexts_view() == old_rt.contexts_view()
                &&& new_rt.sources_view() == old_rt.sources_view()
                &&& new_rt.spec_editing()
            },
            r is Ok ==> P::destroys_playback_region(
                old(self)@.rt().spec_delegate(),
                final(self)@.rt().spec_delegate(),
                old(self)@.rt().regions_view()[reference.raw.id].node.value->0,
            ),
    {
        self.check_model_access()?;
        let mut rt = self.runtime.take().unwrap();
        let outcome = match rt.resolve_playback_region(reference) {
            Ok(region) => {
                if rt.is_editing() {
                    rt.destroy_playback_region(region)
                } else {
                    Err(not_editing())
                }
            },
            Err(e) => Err(e),
        };
        if outcome.is_err() {
            self.runtime = Some(rt);
            return outcome;
        }
        self.runtime = Some(rt);
        self.playback_region_hosts.remove(&reference.raw.id);
        proof {
            let old_rt = old(self)@.rt();
            let k = reference.raw.id;
            assert(old_rt.modifications_view().contains_key(old_rt.regions_view()[k].modification));
            assert(old_rt.sequences_view().contains_key(old_rt.regions_view()[k].sequence));
            assert(self@.rt().sequences_view().dom() =~= old_rt.sequences_view().dom());
            assert(self@.rt().modifications_view().dom() =~= old_rt.modifications_view().dom());
            assert(self@.rt().regions_view().dom() =~= self@.region_hosts.dom());
        }
        Ok(())
    }

    /// Handles `createRegionSequence`: creates a sequence in the live musical context its
    /// properties name, in the host's editing session.
    ///
    /// Fails with `InvalidState` when model access is refused, with `InvalidArgument` when
    /// the named context is not live, with `InvalidState` outside an editing session, and with
    /// the runtime's error.
    pub fn create_region_sequence(
        &mut self,
        properties: RegionSequenceProperties<<P as RegionSequences>::RegionSequenceData>,
    ) -> (r: Result<ModelRef<RegionSequenceKind>, AraError>)
        requires
            old(self)@.wf(),
        ensures
            final(self)@.wf(),
            final(self)@ == (ControllerView { runtime: final(self)@.runtime, ..old(self)@ }),
            !old(self)@.model_accessible() ==> (r matches Err(e) && e is InvalidState) && final(self)@ == old(self)@,
            old(self)@.model_accessible() && !old(self)@.rt().live_context(
                Handle::<MusicalContextKind>::from_raw_spec(properties.musical_context.raw),
            ) ==> (r matches Err(e) && e is InvalidArgument) && final(self)@ == old(self)@,
            old(self)@.model_accessible() && old(self)@.rt().live_context(
                Handle::<MusicalContextKind>::from_raw_spec(properties.musical_context.raw),
            ) && !old(self)@.rt().spec_editing() ==> (r matches Err(e) && e is InvalidState)
                && final(self)@ == old(self)@,
            r is Err && old(self)@.runtime is Some ==> final(self)@.runtime is Some
                && final(self)@.rt().same_graph(old(self)@.rt()),
            r matches Ok(m) ==> {
                let old_rt = old(self)@.rt();
                let new_rt = final(self)@.rt();
                let c = properties.musical_context.raw.id;
                &&& old(self)@.editable()
                &&& old_rt.live_context(Handle::<MusicalContextKind>::from_raw_spec(properties.musical_context.raw))
                &&& final(self)@.runtime is Some
                &&& m.raw == (RawHandle { session: old_rt.spec_session(), id: old_rt.spec_next_id() })
                &&& added(new_rt.sequences_view(), old_rt.sequences_view(), m.raw.id)
                &&& new_rt.sequences_view()[m.raw.id].context == c
                &&& new_rt.contexts_view() == node_children_moved(old_rt.contexts_view(), c, 1)
                &&& new_rt.sources_view() == old_rt.sources_view()
                &&& new_rt.modifications_view() == old_rt.modifications_view()
                &&& new_rt.regions_view() == old_rt.regions_view()
                &&& new_rt.spec_editing()
            },
            old(self)@.editable() && old(self)@.rt().live_context(
                Handle::<MusicalContextKind>::from_raw_spec(properties.musical_context.raw),
            ) && old(self)@.rt().spec_next_id() < u64::MAX ==> exists|
                result: Result<<P as RegionSequences>::RegionSequence, AraError>,
            | {
                &&& #[trigger] P::creates_region_sequence(
                    old(self)@.rt().spec_delegate(),
                    final(self)@.rt().spec_delegate(),
                    CreateContext::for_object(
                        old(self)@.rt().spec_generation(),
                        RawHandle { session: old(self)@.rt().spec_session(), id: old(self)@.rt().spec_next_id() },
                    ),
                    properties,
                    result,
                )
                &&& result matches Err(e) ==> r == Err::<ModelRef<RegionSequenceKind>, AraError>(e)
                &&& result matches Ok(v) ==> r is Ok && final(self)@.rt().sequences_view()[old(self)@.rt().spec_next_id()].node.value
                    == Some(v)
            },
    {
        self.check_model_access()?;
        let mut rt = self.runtime.take().unwrap();
        let created = match rt.resolve_musical_context(properties.musical_context) {
            Ok(context) => {
                if rt.is_editing() {
                    rt.create_region_sequence(context, properties)
                } else {
                    Err(not_editing())
                }
            },
            Err(e) => Err(e),
        };
        self.runtime = Some(rt);
        proof {
            let old_rt = old(self)@.rt();
            assert(self@.rt().contexts_view().dom() =~= old_rt.contexts_view().dom());
        }
        let sequence = match created {
            Ok(sequence) => sequence,
            Err(e) => {
                return Err(e);
            },
        };
        Ok(ModelRef::from_handle(sequence))
    }

    /// Handles `updateRegionSequenceProperties`: applies the properties to a live sequence in
    /// the host's editing session, moving it to the live musical context they name.
    ///
    /// Fails with `InvalidState` when model access is refused, with `InvalidArgument` when the
    /// sequence or the named context is not live, with `InvalidState` outside an editing
    /// session, and with the runtime's error.
    pub fn update_region_sequence(
        &mut self,
        reference: ModelRef<RegionSequenceKind>,
        properties: RegionSequenceProperties<<P as RegionSequences>::RegionSequenceData>,
    ) -> (r: Result<(), AraError>)
        requires
            old(self)@.wf(),
        ensures
            final(self)@.wf(),
            final(self)@ == (ControllerView { runtime: final(self)@.runtime, ..old(self)@ }),
            !old(self)@.model_accessible() ==> (r matches Err(e) && e is InvalidState) && final(self)@ == old(self)@,
            old(self)@.model_accessible() && !(old(self)@.rt().live_sequence(
                Handle::<RegionSequenceKind>::from_raw_spec(reference.raw),
            ) && old(self)@.rt().live_context(
                Handle::<MusicalContextKind>::from_raw_spec(properties.musical_context.raw),
            )) ==> (r matches Err(e) && e is InvalidArgument) && final(self)@ == old(self)@,
            old(self)@.runtime is Some ==> final(self)@.runtime is Some,
            old(self)@.runtime is Some ==> final(self)@.rt().sequences_view().dom()
                == old(self)@.rt().sequences_view().dom(),
            r is Ok ==> {
                &&& old(self)@.editable()
                &&& old(self)@.rt().live_sequence(Handle::<RegionSequenceKind>::from_raw_spec(reference.raw))
                &&& old(self)@.rt().live_context(
                    Handle::<MusicalContextKind>::from_raw_spec(properties.musical_context.raw),
                )
                &&& final(self)@.rt().sequences_view()[reference.raw.id].context
                    == properties.musical_context.raw.id
            },
            old(self)@.model_accessible() && old(self)@.rt().live_sequence(
                Handle::<RegionSequenceKind>::from_raw_spec(reference.raw),
            ) && old(self)@.rt().live_context(
                Handle::<MusicalContextKind>::from_raw_spec(properties.musical_context.raw),
            ) && !old(self)@.editable() ==> (r matches Err(e) && e is InvalidState) && final(self)@ == old(self)@,
            old(self)@.editable() && old(self)@.rt().live_sequence(
                Handle::<RegionSequenceKind>::from_raw_spec(reference.raw),
            ) && old(self)@.rt().live_context(
                Handle::<MusicalContextKind>::from_raw_spec(properties.musical_context.raw),
            ) ==> P::updates_region_sequence(
                old(self)@.rt().spec_delegate(),
                final(self)@.rt().spec_delegate(),
                old(self)@.rt().sequences_view()[reference.raw.id].node.value->0,
                final(self)@.rt().sequences_view()[reference.raw.id].node.value->0,
                properties,
                r,
            ),
    {
        self.check_model_access()?;
        let mut rt = self.runtime.take().unwrap();
        let updated = match rt.resolve_region_sequence(reference) {
            Ok(sequence) => match rt.resolve_musical_context(properties.musical_context) {
                Ok(context) => {
                    if rt.is_editing() {
                        rt.update_region_sequence_with_context(sequence, context, properties)
                    } else {
                        Err(not_editing())
                    }
                },
                Err(e) => Err(e),
            },
            Err(e) => Err(e),
        };
        self.runtime = Some(rt);
        proof {
            let old_rt = old(self)@.rt();
            let new_rt = self@.rt();
            assert(new_rt.sources_view().dom() =~= old_rt.sources_view().dom());
            assert(new_rt.contexts_view().dom() =~= old_rt.contexts_view().dom());
            assert(new_rt.modifications_view().dom() =~= old_rt.modifications_view().dom());
            assert(new_rt.regions_view().dom() =~= old_rt.regions_view().dom());
        }
        updated
    }

    /// Handles `destroyRegionSequence`: destroys a live sequence that holds no playback region.
    ///
    /// Fails with `InvalidState` when model access is refused, outside an editing session or
    /// while the sequence still holds playback regions, and with `InvalidArgument` when the
    /// sequence is not live; nothing changes on failure.
    pub fn destroy_region_sequence(&mut self, reference: ModelRef<RegionSequenceKind>) -> (r: Result<
        (),
        AraError,
    >)
        requires
            old(self)@.wf(),
        ensures
            final(self)@.wf(),
            final(self)@ == (ControllerView { runtime: final(self)@.runtime, ..old(self)@ }),
            r is Ok <==> old(self)@.editable() && old(self)@.rt().live_sequence(
                Handle::<RegionSequenceKind>::from_raw_spec(reference.raw),
            ) && old(self)@.rt().sequences_view()[reference.raw.id].node.children == 0,
            r matches Err(e) ==> e is InvalidState || e is InvalidArgument,
            r is Err ==> final(self)@ == old(self)@,
            r is Ok ==> {
                let k = reference.raw.id;
                let old_rt = old(self)@.rt();
                let new_rt = final(self)@.rt();
                let c = old_rt.sequences_view()[k].context;
                &&& final(self)@.runtime is Some
                &&& new_rt.sequences_view() == old_rt.sequences_view().remove(k)
                &&& new_rt.contexts_view() == node_children_moved(old_rt.contexts_view(), c, -1)
                &&& new_rt.sources_view() == old_rt.sources_view()
                &&& new_rt.modifications_view() == old_rt.modifications_view()
                &&& new_rt.regions_view() == old_rt.regions_view()
                &&& new_rt.spec_editing()
            },
            r is Ok ==> P::destroys_region_sequence(
                old(self)@.rt().spec_delegate(),
                final(self)@.rt().spec_delegate(),
                old(self)@.rt().sequences_view()[reference.raw.id].node.value->0,
            ),
    {
        self.check_model_access()?;
        let mut rt = self.runtime.take().unwrap();
        let outcome = match rt.resolve_region_sequence(reference) {
            Ok(sequence) => {
                if rt.is_editing() {
                    rt.destroy_region_sequence(sequence)
                } else {
                    Err(not_editing())
                }
            },
            Err(e) => Err(e),
        };
        self.runtime = Some(rt);
        proof {
            let old_rt = old(self)@.rt();
            if outcome is Ok {
                assert(old_rt.contexts_view().contains_key(old_rt.sequences_view()[reference.raw.id].context));
            }
            assert(self@.rt().contexts_view().dom() =~= old_rt.contexts_view().dom());
        }
        outcome
    }

    /// Handles `updateMusicalContextProperties`: applies the properties to a live musical context in the host's editing session.
    ///
    /// Fails with `InvalidState` once the controller was destroyed, with `InvalidArgument`
    /// when the object is not live, with `InvalidState` while a content reader is open or
    /// outside an editing session, and with the runtime's error; the model's structure never
    /// changes.
    pub fn update_musical_context(
        &mut self,
        reference: ModelRef<MusicalContextKind>,
        properties: <P as MusicalContexts>::MusicalContextProperties,
    ) -> (r: Result<(), AraError>)
        requires
            old(self)@.wf(),
        ensures
            final(self)@.wf(),
            final(self)@ == (ControllerView { runtime: final(self)@.runtime, ..old(self)@ }),
            old(self)@.runtime is None ==> (r matches Err(e) && e is InvalidState) && final(self)@ == old(self)@,
            old(self)@.runtime is Some && !old(self)@.rt().live_context(
                Handle::<MusicalContextKind>::from_raw_spec(reference.raw),
            ) ==> (r matches Err(e) && e is InvalidArgument) && final(self)@ == old(self)@,
            old(self)@.runtime is Some && old(self)@.rt().live_context(
                Handle::<MusicalContextKind>::from_raw_spec(reference.raw),
            ) && !old(self)@.editable() ==> (r matches Err(e) && e is InvalidState) && final(self)@ == old(self)@,
            old(self)@.runtime is Some ==> final(self)@.runtime is Some && final(self)@.rt().same_structure(
                old(self)@.rt(),
            ),
            r is Ok ==> old(self)@.editable() && old(self)@.rt().live_context(
                Handle::<MusicalContextKind>::from_raw_spec(reference.raw),
            ),
            old(self)@.editable() && old(self)@.rt().live_context(
                Handle::<MusicalContextKind>::from_raw_spec(reference.raw),
            ) ==> P::updates_musical_context(
                old(self)@.rt().spec_delegate(),
                final(self)@.rt().spec_delegate(),
                old(self)@.rt().contexts_view()[reference.raw.id].value->0,
                final(self)@.rt().contexts_view()[reference.raw.id].value->0,
                properties,
                r,
            ),
    {
        let target = match &self.runtime {
            Some(rt) => rt.resolve_musical_context(reference)?,
            None => {
                return Err(destroyed());
            },
        };
        self.check_model_access()?;
        let mut rt = self.runtime.take().unwrap();
        let updated = if rt.is_editing() {
            rt.update_musical_context(target, properties)
        } else {
            Err(not_editing())
        };
        self.runtime = Some(rt);
        proof {
            let old_rt = old(self)@.rt();
            let new_rt = self@.rt();
            assert(new_rt.sources_view().dom() =~= old_rt.sources_view().dom());
            assert(new_rt.contexts_view().dom() =~= old_rt.contexts_view().dom());
            assert(new_rt.modifications_view().dom() =~= old_rt.modifications_view().dom());
            assert(new_rt.regions_view().dom() =~= old_rt.regions_view().dom());
        }
        updated
    }

    /// Handles `updateMusicalContextContent`: reports host-side content changes of a live musical context to the application in the host's editing session.
    ///
    /// Fails with `InvalidState` once the controller was destroyed, with `InvalidArgument`
    /// when the object is not live, with `InvalidState` while a content reader is open or
    /// outside an editing session, and with the runtime's error; the model's structure never
    /// changes.
    pub fn update_musical_context_content(
        &mut self,
        reference: ModelRef<MusicalContextKind>,
        range: Option<<P as MusicalContexts>::MusicalContextRange>,
        flags: ContentUpdateScopes,
    ) -> (r: Result<(), AraError>)
        requires
            old(self)@.wf(),
        ensures
            final(self)@.wf(),
            final(self)@ == (ControllerView { runtime: final(self)@.runtime, ..old(self)@ }),
            old(self)@.runtime is None ==> (r matches Err(e) && e is InvalidState) && final(self)@ == old(self)@,
            old(self)@.runtime is Some && !old(self)@.rt().live_context(
                Handle::<MusicalContextKind>::from_raw_spec(reference.raw),
            ) ==> (r matches Err(e) && e is InvalidArgument) && final(self)@ == old(self)@,
            old(self)@.runtime is Some && old(self)@.rt().live_context(
                Handle::<MusicalContextKind>::from_raw_spec(reference.raw),
            ) && !old(self)@.editable() ==> (r matches Err(e) && e is InvalidState) && final(self)@ == old(self)@,
            old(self)@.runtime is Some ==> final(self)@.runtime is Some && final(self)@.rt().same_structure(
                old(self)@.rt(),
            ),
            r is Ok ==> old(self)@.editable() && old(self)@.rt().live_context(
                Handle::<MusicalContextKind>::from_raw_spec(reference.raw),
            ),
            old(self)@.editable() && old(self)@.rt().live_context(
                Handle::<MusicalContextKind>::from_raw_spec(reference.raw),
            ) ==> P::updates_musical_context_content(
                old(self)@.rt().spec_delegate(),
                final(self)@.rt().spec_delegate(),
                old(self)@.rt().contexts_view()[reference.raw.id].value->0,
                final(self)@.rt().contexts_view()[reference.raw.id].value->0,
                range,
                flags,
                r,
            ),
    {
        let target = match &self.runtime {
            Some(rt) => rt.resolve_musical_context(reference)?,
            None => {
                return Err(destroyed());
            },
        };
        self.check_model_access()?;
        let mut rt = self.runtime.take().unwrap();
        let updated = if rt.is_editing() {
            rt.update_musical_context_content(target, range, flags)
        } else {
            Err(not_editing())
        };
        self.runtime = Some(rt);
        proof {
            let old_rt = old(self)@.rt();
            let new_rt = self@.rt();
            assert(new_rt.sources_view().dom() =~= old_rt.sources_view().dom());
            assert(new_rt.contexts_view().dom() =~= old_rt.contexts_view().dom());
            assert(new_rt.modifications_view().dom() =~= old_rt.modifications_view().dom());
            assert(new_rt.regions_view().dom() =~= old_rt.regions_view().dom());
        }
        updated
    }

    /// Handles `updateAudioSourceProperties`: applies the properties to a live audio source in the host's editing session.
    ///
    /// Fails with `InvalidState` once the controller was destroyed, with `InvalidArgument`
    /// when the object is not live, with `InvalidState` while a content reader is open or
    /// outside an editing session, and with the runtime's error; the model's structure never
    /// changes.
    pub fn update_audio_source(
        &mut self,
        reference: ModelRef<AudioSourceKind>,
        properties: <P as AudioSources>::AudioSourceProperties,
    ) -> (r: Result<(), AraError>)
        requires
            old(self)@.wf(),
        ensures
            final(self)@.wf(),
            final(self)@ == (ControllerView { runtime: final(self)@.runtime, ..old(self)@ }),
            old(self)@.runtime is None ==> (r matches Err(e) && e is InvalidState) && final(self)@ == old(self)@,
            old(self)@.runtime is Some && !old(self)@.rt().live_source(
                Handle::<AudioSourceKind>::from_raw_spec(reference.raw),
            ) ==> (r matches Err(e) && e is InvalidArgument) && final(self)@ == old(self)@,
            old(self)@.runtime is Some && old(self)@.rt().live_source(
                Handle::<AudioSourceKind>::from_raw_spec(reference.raw),
            ) && !old(self)@.editable() ==> (r matches Err(e) && e is InvalidState) && final(self)@ == old(self)@,
            old(self)@.runtime is Some ==> final(self)@.runtime is Some && final(self)@.rt().same_structure(
                old(self)@.rt(),
            ),
            r is Ok ==> old(self)@.editable() && old(self)@.rt().live_source(
                Handle::<AudioSourceKind>::from_raw_spec(reference.raw),
            ),
            old(self)@.editable() && old(self)@.rt().live_source(
                Handle::<AudioSourceKind>::from_raw_spec(reference.raw),
            ) && old(self)@.rt().sources_view()[reference.raw.id].active ==> P::updates_audio_source(
                old(self)@.rt().spec_delegate(),
                final(self)@.rt().spec_delegate(),
                old(self)@.rt().sources_view()[reference.raw.id].value->0,
                final(self)@.rt().sources_view()[reference.raw.id].value->0,
                properties,
                r,
            ),
    {
        let target = match &self.runtime {
            Some(rt) => rt.resolve_audio_source(reference)?,
            None => {
                return Err(destroyed());
            },
        };
        self.check_model_access()?;
        let mut rt = self.runtime.take().unwrap();
        let updated = if rt.is_editing() {
            rt.update_audio_source(target, properties)
        } else {
            Err(not_editing())
        };
        self.runtime = Some(rt);
        proof {
            let old_rt = old(self)@.rt();
            let new_rt = self@.rt();
            assert(new_rt.sources_view().dom() =~= old_rt.sources_view().dom());
            assert(new_rt.contexts_view().dom() =~= old_rt.contexts_view().dom());
            assert(new_rt.modifications_view().dom() =~= old_rt.modifications_view().dom());
            assert(new_rt.regions_view().dom() =~= old_rt.regions_view().dom());
        }
        updated
    }

    /// Handles `updateAudioSourceContent`: reports host-side content changes of a live audio source to the application in the host's editing session.
    ///
    /// Fails with `InvalidState` once the controller was destroyed, with `InvalidArgument`
    /// when the object is not live, with `InvalidState` while a content reader is open or
    /// outside an editing session, and with the runtime's error; the model's structure never
    /// changes.
    pub fn update_audio_source_content(
        &mut self,
        reference: ModelRef<AudioSourceKind>,
        range: Option<<P as AudioSources>::AudioSourceRange>,
        flags: ContentUpdateScopes,
    ) -> (r: Result<(), AraError>)
        requires
            old(self)@.wf(),
        ensures
            final(self)@.wf(),
            final(self)@ == (ControllerView { runtime: final(self)@.runtime, ..old(self)@ }),
            old(self)@.runtime is None ==> (r matches Err(e) && e is InvalidState) && final(self)@ == old(self)@,
            old(self)@.runtime is Some && !old(self)@.rt().live_source(
                Handle::<AudioSourceKind>::from_raw_spec(reference.raw),
            ) ==> (r matches Err(e) && e is InvalidArgument) && final(self)@ == old(self)@,
            old(self)@.runtime is Some && old(self)@.rt().live_source(
                Handle::<AudioSourceKind>::from_raw_spec(reference.raw),
            ) && !old(self)@.editable() ==> (r matches Err(e) && e is InvalidState) && final(self)@ == old(self)@,
            old(self)@.runtime is Some ==> final(self)@.runtime is Some && final(self)@.rt().same_structure(
                old(self)@.rt(),
            ),
            r is Ok ==> old(self)@.editable() && old(self)@.rt().live_source(
                Handle::<AudioSourceKind>::from_raw_spec(reference.raw),
            ),
            old(self)@.editable() && old(self)@.rt().live_source(
                Handle::<AudioSourceKind>::from_raw_spec(reference.raw),
            ) && old(self)@.rt().sources_view()[reference.raw.id].active ==> P::updates_audio_source_content(
                old(self)@.rt().spec_delegate(),
                final(self)@.rt().spec_delegate(),
                old(self)@.rt().sources_view()[reference.raw.id].value->0,
                final(self)@.rt().sources_view()[reference.raw.id].value->0,
                range,
                flags,
                r,
            ),
    {
        let target = match &self.runtime {
            Some(rt) => rt.resolve_audio_source(reference)?,
            None => {
                return Err(destroyed());
            },
        };
        self.check_model_access()?;
        let mut rt = self.runtime.take().unwrap();
        let updated = if rt.is_editing() {
            rt.update_audio_source_content(target, range, flags)
        } else {
            Err(not_editing())
        };
        self.runtime = Some(rt);
        proof {
            let old_rt = old(self)@.rt();
            let new_rt = self@.rt();
            assert(new_rt.sources_view().dom() =~= old_rt.sources_view().dom());
            assert(new_rt.contexts_view().dom() =~= old_rt.contexts_view().dom());
            assert(new_rt.modifications_view().dom() =~= old_rt.modifications_view().dom());
            assert(new_rt.regions_view().dom() =~= old_rt.regions_view().dom());
        }
        updated
    }

    /// Handles `updateAudioModificationProperties`: applies the properties to a live audio
    /// modification in the host's editing session.
    ///
    /// Fails with `InvalidState` when model access is refused, with `InvalidArgument` when the
    /// modification is not live, with `InvalidState` outside an editing session, and with the
    /// runtime's error; the model's structure never changes.
    pub fn update_audio_modification(
        &mut self,
        reference: ModelRef<AudioModificationKind>,
        properties: <P as AudioModifications>::AudioModificationProperties,
    ) -> (r: Result<(), AraError>)
        requires
            old(self)@.wf(),
        ensures
            final(self)@.wf(),
            final(self)@ == (ControllerView { runtime: final(self)@.runtime, ..old(self)@ }),
            !old(self)@.model_accessible() ==> (r matches Err(e) && e is InvalidState) && final(self)@ == old(self)@,
            old(self)@.model_accessible() && !old(self)@.rt().live_modification(
                Handle::<AudioModificationKind>::from_raw_spec(reference.raw),
            ) ==> (r matches Err(e) && e is InvalidArgument) && final(self)@ == old(self)@,
            old(self)@.model_accessible() && old(self)@.rt().live_modification(
                Handle::<AudioModificationKind>::from_raw_spec(reference.raw),
            ) && !old(self)@.rt().spec_editing() ==> (r matches Err(e) && e is InvalidState)
                && final(self)@ == old(self)@,
            old(self)@.runtime is Some ==> final(self)@.runtime is Some && final(self)@.rt().same_structure(
                old(self)@.rt(),
            ),
            r is Ok ==> old(self)@.editable() && old(self)@.rt().live_modification(
                Handle::<AudioModificationKind>::from_raw_spec(reference.raw),
            ),
            old(self)@.editable() && old(self)@.rt().live_modification(
                Handle::<AudioModificationKind>::from_raw_spec(reference.raw),
            ) && old(self)@.rt().modifications_view()[reference.raw.id].node.active ==> P::updates_audio_modification(
                old(self)@.rt().spec_delegate(),
                final(self)@.rt().spec_delegate(),
                old(self)@.rt().modifications_view()[reference.raw.id].node.value->0,
                final(self)@.rt().modifications_view()[reference.raw.id].node.value->0,
                properties,
                r,
            ),
    {
        self.check_model_access()?;
        let mut rt = self.runtime.take().unwrap();
        let updated = match rt.resolve_audio_modification(reference) {
            Ok(target) => {
                if rt.is_editing() {
                    rt.update_audio_modification(target, properties)
                } else {
                    Err(not_editing())
                }
            },
            Err(e) => Err(e),
        };
        self.runtime = Some(rt);
        proof {
            let old_rt = old(self)@.rt();
            let new_rt = self@.rt();
            assert(new_rt.sources_view().dom() =~= old_rt.sources_view().dom());
            assert(new_rt.contexts_view().dom() =~= old_rt.contexts_view().dom());
            assert(new_rt.modifications_view().dom() =~= old_rt.modifications_view().dom());
            assert(new_rt.regions_view().dom() =~= old_rt.regions_view().dom());
        }
        updated
    }

    /// Handles `updateDocumentProperties`: applies the document properties in the host's
    /// editing session.
    ///
    /// Fails with `InvalidState` when model access is refused or outside an editing session,
    /// and with the application's error; no model object changes.
    pub fn update_document(&mut self, properties: <P as DocumentLifecycle>::DocumentProperties) -> (r:
        Result<(), AraError>)
        requires
            old(self)@.wf(),
        ensures
            final(self)@.wf(),
            final(self)@ == (ControllerView { runtime: final(self)@.runtime, ..old(self)@ }),
            !old(self)@.editable() ==> (r matches Err(e) && e is InvalidState) && final(self)@ == old(self)@,
            old(self)@.runtime is Some ==> final(self)@.runtime is Some && final(self)@.rt().same_objects(
                old(self)@.rt(),
            ) && final(self)@.rt().spec_editing() == old(self)@.rt().spec_editing(),
            old(self)@.editable() ==> P::updates_document(
                old(self)@.rt().spec_delegate(),
                final(self)@.rt().spec_delegate(),
                old(self)@.rt().spec_document(),
                final(self)@.rt().spec_document(),
                properties,
                r,
            ),
    {
        self.check_model_access()?;
        let mut rt = self.runtime.take().unwrap();
        let updated = if rt.is_editing() {
            rt.update_document(properties)
        } else {
            Err(not_editing())
        };
        self.runtime = Some(rt);
        updated
    }

    /// Resolves a host audio-source reference for content queries: the source must be live and
    /// active while the controller is alive.
    pub fn audio_source_object(&self, reference: ModelRef<AudioSourceKind>) -> (r: Option<
        ContentObject,
    >)
        ensures
            r == if self@.runtime is Some && self@.rt().live_source(
                Handle::<AudioSourceKind>::from_raw_spec(reference.raw),
            ) && self@.rt().sources_view()[reference.raw.id].active {
                Some(ContentObject::AudioSource(reference.raw))
            } else {
                None
            },
    {
        match &self.runtime {
            Some(rt) => match rt.resolve_audio_source(reference) {
                Ok(source) => match rt.audio_source_is_active(source) {
                    Ok(true) => Some(ContentObject::AudioSource(source.raw)),
                    _ => None,
                },
                Err(_) => None,
            },
            None => None,
        }
    }

    /// Resolves a host audio-modification reference for content queries: the modification
    /// must be live and active while the controller is alive.
    pub fn audio_modification_object(&self, reference: ModelRef<AudioModificationKind>) -> (r:
        Option<ContentObject>)
        ensures
            r == if self@.runtime is Some && self@.rt().live_modification(
                Handle::<AudioModificationKind>::from_raw_spec(reference.raw),
            ) && self@.rt().modifications_view()[reference.raw.id].node.active {
                Some(ContentObject::AudioModification(reference.raw))
            } else {
                None
            },
    {
        match &self.runtime {
            Some(rt) => match rt.resolve_audio_modification(reference) {
                Ok(modification) => match rt.audio_modification_is_active(modification) {
                    Ok(true) => Some(ContentObject::AudioModification(modification.raw)),
                    _ => None,
                },
                Err(_) => None,
            },
            None => None,
        }
    }

    /// Resolves a host playback-region reference for content queries: the region must be live
    /// while the controller is alive.
    pub fn playback_region_object(&self, reference: ModelRef<PlaybackRegionKind>) -> (r: Option<
        ContentObject,
    >)
        ensures
            r == if self@.runtime is Some && self@.rt().live_region(
                Handle::<PlaybackRegionKind>::from_raw_spec(reference.raw),
            ) {
                Some(ContentObject::PlaybackRegion(reference.raw))
            } else {
                None
            },
    {
        match &self.runtime {
            Some(rt) => match rt.resolve_playback_region(reference) {
                Ok(region) => Some(ContentObject::PlaybackRegion(region.raw)),
                Err(_) => None,
            },
            None => None,
        }
    }

    /// Whether an analysis job of the live, active source `reference` covers `content_type`;
    /// `None` when the reference names no such source.
    pub fn analysis_requested(&self, reference: ModelRef<AudioSourceKind>, content_type: i32) -> (r:
        Option<bool>)
        ensures
            r is Some <==> self.audio_source_object_spec(reference) is Some,
            r matches Some(b) ==> b == (self@.analysis.job(reference.raw) matches Some(j)
                && j.0.contains(content_type)),
    {
        match self.audio_source_object(reference) {
            Some(_) => Some(self.analysis.contains(reference.raw, content_type)),
            None => None,
        }
    }

    /// The content object `audio_source_object` resolves `reference` to.
    pub open spec fn audio_source_object_spec(self, reference: ModelRef<AudioSourceKind>) -> Option<
        ContentObject,
    > {
        if self@.runtime is Some && self@.rt().live_source(
            Handle::<AudioSourceKind>::from_raw_spec(reference.raw),
        ) && self@.rt().sources_view()[reference.raw.id].active {
            Some(ContentObject::AudioSource(reference.raw))
        } else {
            None
        }
    }

    /// Whether every requested content type is one the factory can analyze.
    fn analyzable_all(&self, content_types: &Vec<i32>) -> (b: bool)
        ensures
            b == forall|i: int| 0 <= i < content_types@.len() ==> self@.analyzable.contains(
                #[trigger] content_types@[i],
            ),
    {
        let n = content_types.len();
        let mut i: usize = 0;
        while i < n
            invariant
                n == content_types@.len(),
                0 <= i <= n,
                forall|j: int| 0 <= j < i ==> self@.analyzable.contains(#[trigger] content_types@[j]),
            decreases n - i,
        {
            let wanted = content_types[i];
            let m = self.factory_analyzable_content.len();
            let mut k: usize = 0;
            let mut found = false;
            while k < m
                invariant
                    m == self@.analyzable.len(),
                    0 <= k <= m,
                    found <==> exists|j: int| 0 <= j < k && self@.analyzable[j] == wanted,
                decreases m - k,
            {
                if self.factory_analyzable_content[k] == wanted {
                    found = true;
                }
                k += 1;
            }
            if !found {
                proof {
                    assert(!self@.analyzable.contains(content_types@[i as int]));
                }
                return false;
            }
            i += 1;
        }
        true
    }

    /// Handles `requestAudioSourceContentAnalysis`: starts an analysis job of a live, active
    /// source for 1 to `MAX_ANALYZABLE_CONTENT_TYPES` distinct content types the factory can
    /// analyze, then hands the request to `start_provider`; when the provider refuses, the job
    /// is cancelled again, otherwise the start is reported to the host with the next model
    /// update notification.
    ///
    /// Fails with `InvalidArgument` when the reference names no live, active source, when the
    /// request is empty, too long, repeats a type or names a type the factory cannot analyze,
    /// with `InvalidState` while the source already has a job, and with the provider's error.
    pub fn request_content_analysis<F>(
        &mut self,
        reference: ModelRef<AudioSourceKind>,
        content_types: Vec<i32>,
        start_provider: F,
    ) -> (r: Result<(), AraError>)
        where
            F: FnOnce(RawHandle, &Vec<i32>) -> Result<(), AraError>,
        requires
            forall|s: RawHandle, t: &Vec<i32>| call_requires(start_provider, (s, t)),
        ensures
            final(self)@ == (ControllerView {
                analysis: final(self)@.analysis,
                pending_starts: final(self)@.pending_starts,
                ..old(self)@
            }),
            forall|o: RawHandle| o != reference.raw ==> final(self)@.analysis.job(o) == old(self)@.analysis.job(o),
            old(self).audio_source_object_spec(reference) is None ==> (r matches Err(e)
                && e is InvalidArgument) && final(self)@ == old(self)@,
            content_types@.len() == 0 || content_types@.len() > MAX_ANALYZABLE_CONTENT_TYPES ==> (
            r matches Err(e) && e is InvalidArgument) && final(self)@ == old(self)@,
            !(forall|i: int| 0 <= i < content_types@.len() ==> old(self)@.analyzable.contains(
                #[trigger] content_types@[i],
            )) ==> r is Err && final(self)@ == old(self)@,
            r is Ok ==> {
                &&& old(self).audio_source_object_spec(reference) is Some
                &&& 0 < content_types@.len() <= MAX_ANALYZABLE_CONTENT_TYPES
                &&& forall|i: int| 0 <= i < content_types@.len() ==> old(self)@.analyzable.contains(
                    #[trigger] content_types@[i],
                )
                &&& old(self)@.analysis.job(reference.raw) is None
                &&& final(self)@.analysis.job(reference.raw) matches Some(j) && j.0 == content_types@
                &&& final(self)@.pending_starts == old(self)@.pending_starts.push(reference.raw)
            },
            r is Err ==> final(self)@.pending_starts == old(self)@.pending_starts,
            r is Err ==> final(self)@.analysis.job(reference.raw) == old(self)@.analysis.job(reference.raw)
                || (old(self)@.analysis.job(reference.raw) is None && final(self)@.analysis.job(reference.raw) is None),
    {
        let source = match self.audio_source_object(reference) {
            Some(_) => reference.raw,
            None => {
                return Err(AraError::InvalidArgument("analysis requires a live, active audio source"));
            },
        };
        if content_types.len() == 0 || content_types.len() > MAX_ANALYZABLE_CONTENT_TYPES {
            return Err(AraError::InvalidArgument("analysis request must name 1 to 1024 content types"));
        }
        if !self.analyzable_all(&content_types) {
            return Err(AraError::InvalidArgument("factory cannot analyze a requested content type"));
        }
        let types = content_types.clone();
        self.analysis.start(source, types)?;
        match start_provider(source, &content_types) {
            Ok(()) => {
                self.pending_analysis_starts.push(source);
                Ok(())
            },
            Err(e) => {
                self.analysis.cancel(source);
                Err(e)
            },
        }
    }

    /// Publishes a content reader, returning its fresh nonzero identity; model operations are
    /// refused until it is destroyed.
    ///
    /// Fails with `InvalidState`, changing nothing, while another reader is open or when
    /// reader identities are exhausted.
    pub fn publish_reader(&mut self) -> (r: Result<u64, AraError>)
        requires
            old(self)@.wf(),
        ensures
            final(self)@.wf(),
            r is Ok <==> old(self)@.open_reader is None && old(self)@.next_reader < u64::MAX,
            r matches Err(e) ==> e is InvalidState,
            r is Err ==> final(self)@ == old(self)@,
            r matches Ok(token) ==> {
                &&& token == old(self)@.next_reader
                &&& final(self)@ == (ControllerView {
                    open_reader: Some(token),
                    next_reader: (token + 1) as u64,
                    ..old(self)@
                })
            },
    {
        if self.content_reader.is_some() {
            return Err(AraError::InvalidState("a content reader is already open"));
        }
        if self.next_reader == u64::MAX {
            return Err(AraError::InvalidState("content reader identities are exhausted"));
        }
        let token = self.next_reader;
        self.next_reader = token + 1;
        self.content_reader = Some(token);
        Ok(token)
    }

    /// Whether `token` names the open content reader.
    pub fn reader_is_open(&self, token: u64) -> (b: bool)
        ensures
            b == (self@.open_reader == Some(token)),
    {
        match self.content_reader {
            Some(open) => open == token,
            None => false,
        }
    }

    /// Handles `destroyContentReader`: closes the reader `token` names, returning whether it
    /// was open.
    pub fn destroy_reader(&mut self, token: u64) -> (b: bool)
        ensures
            b == (old(self)@.open_reader == Some(token)),
            final(self)@ == if b {
                ControllerView { open_reader: None, ..old(self)@ }
            } else {
                old(self)@
            },
    {
        if self.reader_is_open(token) {
            self.content_reader = None;
            true
        } else {
            false
        }
    }

    /// Handles `beginRestoringDocumentFromArchive`: enters an editing session for an ARA 1
    /// document restore from archive reader `reader` and runs `restore` in it; when the restore
    /// fails the editing session is left again.
    ///
    /// Fails with `InvalidState` while another document restore is unfinished, when model
    /// access is refused or an editing session is already active, and with the application's
    /// error.
    pub fn begin_document_restore<F>(&mut self, reader: u64, restore: F) -> (r: Result<(), AraError>)
        where
            F: FnOnce() -> Result<(), AraError>,
        requires
            old(self)@.wf(),
            call_requires(restore, ()),
        ensures
            final(self)@.wf(),
            old(self)@.restore_reader is Some ==> (r matches Err(e) && e is InvalidState) && final(self)@ == old(self)@,
            !old(self)@.model_accessible() ==> (r matches Err(e) && e is InvalidState) && final(self)@ == old(self)@,
            old(self)@.model_accessible() && old(self)@.rt().spec_editing() ==> (r matches Err(e)
                && e is InvalidState) && final(self)@ == old(self)@,
            final(self)@ == (ControllerView {
                runtime: final(self)@.runtime,
                restore_reader: final(self)@.restore_reader,
                ..old(self)@
            }),
            old(self)@.runtime is Some ==> final(self)@.runtime is Some && final(self)@.rt().same_objects(
                old(self)@.rt(),
            ),
            r is Ok ==> {
                &&& old(self)@.restore_reader is None
                &&& old(self)@.model_accessible()
                &&& !old(self)@.rt().spec_editing()
                &&& final(self)@.rt().spec_editing()
                &&& final(self)@.restore_reader == Some(reader)
            },
            r is Err ==> final(self)@.restore_reader == old(self)@.restore_reader,
    {
        if self.legacy_restore_reader.is_some() {
            return Err(AraError::InvalidState("a document restore is already in progress"));
        }
        self.check_model_access()?;
        let mut rt = self.runtime.take().unwrap();
        let begun = rt.begin_callback_editing();
        self.runtime = Some(rt);
        begun?;
        match restore() {
            Ok(()) => {
                self.legacy_restore_reader = Some(reader);
                Ok(())
            },
            Err(e) => {
                let mut rt = self.runtime.take().unwrap();
                let _ = rt.end_callback_editing();
                self.runtime = Some(rt);
                Err(e)
            },
        }
    }

    /// Handles `endRestoringDocumentFromArchive`: leaves the editing session of the unfinished
    /// document restore from archive reader `reader`.
    ///
    /// Fails with `InvalidArgument` unless `reader` names the unfinished restore, with
    /// `InvalidState` when model access is refused or no editing session is active, and with
    /// the application's error; the restore stays unfinished on failure.
    pub fn end_document_restore(&mut self, reader: u64) -> (r: Result<(), AraError>)
        requires
            old(self)@.wf(),
        ensures
            final(self)@.wf(),
            old(self)@.restore_reader != Some(reader) ==> (r matches Err(e) && e is InvalidArgument)
                && final(self)@ == old(self)@,
            old(self)@.restore_reader == Some(reader) && !old(self)@.model_accessible() ==> (r matches Err(
                e,
            ) && e is InvalidState) && final(self)@ == old(self)@,
            final(self)@ == (ControllerView {
                runtime: final(self)@.runtime,
                restore_reader: final(self)@.restore_reader,
                ..old(self)@
            }),
            old(self)@.runtime is Some ==> final(self)@.runtime is Some && final(self)@.rt().same_objects(
                old(self)@.rt(),
            ),
            r is Ok ==> {
                &&& old(self)@.restore_reader == Some(reader)
                &&& old(self)@.model_accessible()
                &&& old(self)@.rt().spec_editing()
                &&& !final(self)@.rt().spec_editing()
                &&& final(self)@.restore_reader is None
            },
            r is Err ==> final(self)@.restore_reader == old(self)@.restore_reader,
    {
        match self.legacy_restore_reader {
            Some(open) => {
                if open != reader {
                    return Err(AraError::InvalidArgument("archive reader does not match the restore in progress"));
                }
            },
            None => {
                return Err(AraError::InvalidArgument("no document restore is in progress"));
            },
        }
        self.check_model_access()?;
        let mut rt = self.runtime.take().unwrap();
        let ended = rt.end_callback_editing();
        self.runtime = Some(rt);
        ended?;
        self.legacy_restore_reader = None;
        Ok(())
    }

    /// Checks that archives may be written now, by `storeDocumentToArchive` and
    /// `storeObjectsToArchive`: fails with `InvalidState` once the controller was destroyed
    /// or inside an editing session.
    pub fn check_archive_store(&self) -> (r: Result<(), AraError>)
        ensures
            r is Ok <==> self@.runtime is Some && !self@.rt().spec_editing(),
            r matches Err(e) ==> e is InvalidState,
    {
        match &self.runtime {
            Some(rt) => if rt.is_editing() {
                Err(AraError::InvalidState("archives cannot be stored during an editing session"))
            } else {
                Ok(())
            },
            None => Err(destroyed()),
        }
    }

    /// Checks that object archives may be restored now, by `restoreObjectsFromArchive`: fails
    /// with `InvalidState` unless the controller is alive and inside an editing session.
    pub fn check_archive_restore(&self) -> (r: Result<(), AraError>)
        ensures
            r is Ok <==> self@.runtime is Some && self@.rt().spec_editing(),
            r matches Err(e) ==> e is InvalidState,
    {
        match &self.runtime {
            Some(rt) => if rt.is_editing() {
                Ok(())
            } else {
                Err(AraError::InvalidState("objects can only be restored during an editing session"))
            },
            None => Err(destroyed()),
        }
    }

    /// Resolves the source of `storeAudioSourceToAudioFileChunk`: archives may be written now,
    /// no content reader is open and the source is live.
    ///
    /// Fails with `InvalidState` once the controller was destroyed, inside an editing session
    /// or while a content reader is open, and with `InvalidArgument` when the source is not
    /// live.
    pub fn audio_file_chunk_source(&self, reference: ModelRef<AudioSourceKind>) -> (r: Result<
        RawHandle,
        AraError,
    >)
        ensures
            r is Ok <==> self@.model_accessible() && !self@.rt().spec_editing() && self@.rt().live_source(
                Handle::<AudioSourceKind>::from_raw_spec(reference.raw),
            ),
            r matches Ok(s) ==> s == reference.raw,
            !(self@.model_accessible() && !self@.rt().spec_editing()) ==> (r matches Err(e)
                && e is InvalidState),
            r matches Err(e) ==> e is InvalidState || e is InvalidArgument,
    {
        self.check_archive_store()?;
        self.check_model_access()?;
        let rt = self.runtime.as_ref().unwrap();
        let source = rt.resolve_audio_source(reference)?;
        Ok(source.raw)
    }

    /// Handles `isLicensedForCapabilities` before the application decides: every requested
    /// content type must be one the factory can analyze and every requested transformation one
    /// it supports.
    pub fn license_request_supported(
        &self,
        content_types: &Vec<i32>,
        transformations: PlaybackTransformationFlags,
    ) -> (b: bool)
        ensures
            b == ((forall|i: int| 0 <= i < content_types@.len() ==> self@.analyzable.contains(
                #[trigger] content_types@[i],
            )) && self@.transformations.spec_contains(transformations)),
    {
        self.analyzable_all(content_types) && self.factory_playback_transformations.contains(
            transformations,
        )
    }

    /// Resolves the source of `requestProcessingAlgorithmForAudioSource`: an editing session
    /// is active, model access is admitted and the source is live.
    ///
    /// Fails with `InvalidState` once the controller was destroyed, outside an editing session
    /// or while a content reader is open, and with `InvalidArgument` when the source is not
    /// live.
    pub fn algorithm_request_source(&self, reference: ModelRef<AudioSourceKind>) -> (r: Result<
        RawHandle,
        AraError,
    >)
        ensures
            r is Ok <==> self@.editable() && self@.rt().live_source(
                Handle::<AudioSourceKind>::from_raw_spec(reference.raw),
            ),
            r matches Ok(s) ==> s == reference.raw,
            !self@.editable() ==> (r matches Err(e) && e is InvalidState),
            r matches Err(e) ==> e is InvalidState || e is InvalidArgument,
    {
        match &self.runtime {
            Some(rt) => if !rt.is_editing() {
                return Err(not_editing());
            },
            None => {
                return Err(destroyed());
            },
        }
        self.check_model_access()?;
        let rt = self.runtime.as_ref().unwrap();
        let source = rt.resolve_audio_source(reference)?;
        Ok(source.raw)
    }

    /// Resolves the modification of `isAudioModificationPreservingAudioSourceSignal`: model
    /// access is admitted and the modification is live.
    ///
    /// Fails with `InvalidState` when model access is refused and with `InvalidArgument` when
    /// the modification is not live.
    pub fn signal_query_modification(&self, reference: ModelRef<AudioModificationKind>) -> (r:
        Result<RawHandle, AraError>)
        ensures
            r is Ok <==> self@.model_accessible() && self@.rt().live_modification(
                Handle::<AudioModificationKind>::from_raw_spec(reference.raw),
            ),
            r matches Ok(m) ==> m == reference.raw,
            !self@.model_accessible() ==> (r matches Err(e) && e is InvalidState),
            r matches Err(e) ==> e is InvalidState || e is InvalidArgument,
    {
        self.check_model_access()?;
        let rt = self.runtime.as_ref().unwrap();
        let modification = rt.resolve_audio_modification(reference)?;
        Ok(modification.raw)
    }

    /// The host identity recorded in `hosts` for `object`, if it belongs to this document.
    fn host_in(hosts: &HashMap<u64, u64>, session: u64, object: RawHandle) -> (r: Option<u64>)
        ensures
            r == host_of(hosts@, session, object),
    {
        if object.session != session {
            return None;
        }
        match hosts.get(&object.id) {
            Some(h) => Some(*h),
            None => None,
        }
    }

    /// The host notification for one model update, `None` when its object has no host
    /// identity.
    fn host_change<R>(&self, session: u64, notification: UpdateNotification<R>) -> (r: Option<
        HostNotification<R, Q>,
    >)
        ensures
            r == change_note::<R, Q>(
                notification,
                self@.source_hosts,
                self@.modification_hosts,
                self@.region_hosts,
                session,
            ),
    {
        match notification {
            UpdateNotification::AudioSource { source, range, flags } => match Self::host_in(
                &self.audio_source_hosts,
                session,
                source,
            ) {
                Some(h) => Some(HostNotification::AudioSourceChanged { host_ref: h, range, flags }),
                None => None,
            },
            UpdateNotification::AudioModification { modification, range, flags } => match Self::host_in(
                &self.audio_modification_hosts,
                session,
                modification,
            ) {
                Some(h) => Some(HostNotification::AudioModificationChanged { host_ref: h, range, flags }),
                None => None,
            },
            UpdateNotification::PlaybackRegion { region, range, flags } => match Self::host_in(
                &self.playback_region_hosts,
                session,
                region,
            ) {
                Some(h) => Some(HostNotification::PlaybackRegionChanged { host_ref: h, range, flags }),
                None => None,
            },
            UpdateNotification::Document => Some(HostNotification::DocumentDataChanged),
        }
    }

    /// Handles `notifyModelUpdates`: outside editing sessions, with model access admitted and
    /// a host that accepts model updates, reports every unreported analysis start, then the
    /// queued analysis progress the analysis jobs accept, then the pending model updates in
    /// `updates`' delivery order, each to its object's host identity; `progress` and `updates`
    /// are emptied. Otherwise nothing happens and nothing is returned.
    pub fn notify_model_updates<R>(
        &mut self,
        host_accepts_updates: bool,
        progress: &mut ProgressQueue<Q>,
        updates: &mut UpdateTracker<R>,
    ) -> (n: Vec<HostNotification<R, Q>>)
        requires
            old(self)@.wf(),
        ensures
            final(self)@.wf(),
            !(host_accepts_updates && old(self)@.model_accessible() && !old(self)@.rt().spec_editing())
                ==> n@.len() == 0 && final(self)@ == old(self)@ && final(progress).events() == old(
                progress,
            ).events() && final(updates)@ == old(updates)@,
            host_accepts_updates && old(self)@.model_accessible() && !old(self)@.rt().spec_editing()
                ==> {
                let session = old(self)@.rt().spec_session();
                let events = old(progress).events();
                &&& final(self)@ == (ControllerView {
                    analysis: final(self)@.analysis,
                    pending_starts: Seq::empty(),
                    ..old(self)@
                })
                &&& final(progress).events().len() == 0
                &&& final(updates)@.is_empty()
                &&& exists|delivered: Seq<bool>, states: Seq<AnalysisCoordinator<Q>>| {
                    &&& delivered.len() == events.len()
                    &&& states.len() == events.len() + 1
                    &&& states[0] == old(self)@.analysis
                    &&& states.last() == final(self)@.analysis
                    &&& forall|i: int| 0 <= i < events.len() ==> #[trigger] analysis_step(
                        states[i],
                        states[i + 1],
                        events[i],
                        delivered[i],
                    )
                    &&& n@ == start_notes(
                        old(self)@.pending_starts,
                        old(self)@.source_hosts,
                        session,
                    ) + progress_notes(events, delivered, old(self)@.source_hosts, session)
                        + change_notes(
                        old(updates)@.batch(),
                        old(self)@.source_hosts,
                        old(self)@.modification_hosts,
                        old(self)@.region_hosts,
                        session,
                    )
                }
                &&& forall|s: RawHandle|
                    (forall|i: int| 0 <= i < events.len() ==> event_source(#[trigger] events[i]) != s)
                        ==> final(self)@.analysis.job(s) == old(self)@.analysis.job(s)
                &&& forall|i: int|
                    0 <= i < events.len() && #[trigger] events[i] is Completed
                        ==> final(self)@.analysis.job(event_source(events[i])) is None
            },
    {
        if !host_accepts_updates || self.check_model_access().is_err() {
            return Vec::new();
        }
        let session = match &self.runtime {
            Some(rt) => {
                if rt.is_editing() {
                    return Vec::new();
                }
                rt.session()
            },
            None => {
                return Vec::new();
            },
        };
        let mut notes: Vec<HostNotification<R, Q>> = Vec::new();
        let mut starts: Vec<RawHandle> = Vec::new();
        std::mem::swap(&mut starts, &mut self.pending_analysis_starts);
        let ghost pending = starts@;
        let n = starts.len();
        let mut i: usize = 0;
        while i < n
            invariant
                n == starts@.len(),
                pending == starts@,
                0 <= i <= n,
                notes@ == start_notes::<R, Q>(pending.take(i as int), self@.source_hosts, session),
            decreases n - i,
        {
            let source = starts[i];
            proof {
                assert(pending.take(i + 1).drop_last() =~= pending.take(i as int));
            }
            match Self::host_in(&self.audio_source_hosts, session, source) {
                Some(h) => {
                    notes.push(HostNotification::AnalysisStarted { host_ref: h });
                },
                None => {},
            }
            i += 1;
        }
        proof {
            assert(pending.take(n as int) =~= pending);
        }
        proof {
            assert(self@ == (ControllerView {
                analysis: self@.analysis,
                pending_starts: Seq::empty(),
                ..old(self)@
            }));
        }
        let ghost after_starts = notes@;
        let events = progress.take_pending();
        let ghost evs = events@;
        let ghost analysis_before = self@.analysis;
        let ghost mut delivered: Seq<bool> = Seq::empty();
        let ghost mut states: Seq<AnalysisCoordinator<Q>> = seq![self@.analysis];
        let m = events.len();
        let mut j: usize = 0;
        while j < m
            invariant
                m == events@.len(),
                evs == events@,
                self@ == (ControllerView {
                    analysis: self@.analysis,
                    pending_starts: Seq::empty(),
                    ..old(self)@
                }),
                0 <= j <= m,
                delivered.len() == j,
                states.len() == j + 1,
                states[0] == analysis_before,
                states.last() == self@.analysis,
                forall|i: int| 0 <= i < j ==> #[trigger] analysis_step(
                    states[i],
                    states[i + 1],
                    evs[i],
                    delivered[i],
                ),
                notes@ == after_starts + progress_notes::<R, Q>(
                    evs.take(j as int),
                    delivered,
                    self@.source_hosts,
                    session,
                ),
                forall|s: RawHandle|
                    (forall|k: int| 0 <= k < j ==> event_source(#[trigger] evs[k]) != s)
                        ==> self@.analysis.job(s) == analysis_before.job(s),
                forall|k: int|
                    0 <= k < j && #[trigger] evs[k] is Completed ==> self@.analysis.job(event_source(evs[k])) is None,
            decreases m - j,
        {
            let event = events[j];
            let ghost step_before = self@.analysis;
            let (source, accepted, note) = match event {
                PendingAnalysisProgress::Updated(source, value) => {
                    let accepted = self.analysis.update(source, value).is_ok();
                    (source, accepted, Some(value))
                },
                PendingAnalysisProgress::Completed(source) => {
                    let accepted = self.analysis.complete(source).is_ok();
                    (source, accepted, None)
                },
            };
            proof {
                assert(evs.take(j + 1).drop_last() =~= evs.take(j as int));
                assert(delivered.push(accepted).drop_last() =~= delivered);
                assert(analysis_step(step_before, self@.analysis, evs[j as int], accepted));
                let old_states = states;
                let old_delivered = delivered;
                delivered = delivered.push(accepted);
                states = states.push(self@.analysis);
                assert forall|i: int| 0 <= i < j + 1 implies #[trigger] analysis_step(
                    states[i],
                    states[i + 1],
                    evs[i],
                    delivered[i],
                ) by {
                    if i < j {
                        assert(states[i] == old_states[i]);
                        assert(states[i + 1] == old_states[i + 1]);
                        assert(delivered[i] == old_delivered[i]);
                    }
                }
            }
            if accepted {
                match Self::host_in(&self.audio_source_hosts, session, source) {
                    Some(h) => {
                        match note {
                            Some(value) => notes.push(HostNotification::AnalysisProgressed { host_ref: h, progress: value }),
                            None => notes.push(HostNotification::AnalysisCompleted { host_ref: h }),
                        }
                    },
                    None => {},
                }
            }
            proof {
                assert(notes@ == after_starts + progress_notes::<R, Q>(
                    evs.take(j + 1),
                    delivered,
                    self@.source_hosts,
                    session,
                ));
            }
            j += 1;
        }
        proof {
            assert(evs.take(m as int) =~= evs);
        }
        let ghost after_progress = notes@;
        let mut batch = updates.take_batch();
        let ghost b = batch@;
        while batch.len() > 0
            invariant
                b.len() >= batch@.len(),
                batch@ == b.skip(b.len() - batch@.len()),
                notes@ == after_progress + change_notes::<R, Q>(
                    b.take(b.len() - batch@.len()),
                    self@.source_hosts,
                    self@.modification_hosts,
                    self@.region_hosts,
                    session,
                ),
            decreases batch@.len(),
        {
            let ghost k = b.len() - batch@.len();
            let notification = batch.remove(0);
            let converted = self.host_change(session, notification);
            proof {
                assert(b.take(k + 1).drop_last() =~= b.take(k));
                assert(batch@ =~= b.skip(k + 1));
            }
            match converted {
                Some(h) => notes.push(h),
                None => {},
            }
        }
        proof {
            assert(b.take(b.len() as int) =~= b);
        }
        notes
    }
}

/// Destroying an audio source undoes creating it: after `create_audio_source` with host
/// identity `host_ref` and `destroy_audio_source` of the new source, the host table and the
/// model graph are as before.
#[verifier::spinoff_prover]
pub proof fn source_destruction_undoes_creation<P: PluginModel, Q>(
    before: ControllerView<P, Q>,
    created: ControllerView<P, Q>,
    after: ControllerView<P, Q>,
    source: u64,
    host_ref: u64,
)
    requires
        before.wf(),
        before.runtime is Some,
        created.runtime is Some,
        after.runtime is Some,
        added(created.rt().sources_view(), before.rt().sources_view(), source),
        created.source_hosts == before.source_hosts.insert(source, host_ref),
        after.rt().sources_view() == created.rt().sources_view().remove(source),
        after.source_hosts == created.source_hosts.remove(source),
    ensures
        after.source_hosts == before.source_hosts,
        after.rt().sources_view() == before.rt().sources_view(),
{
    assert(!before.source_hosts.contains_key(source));
    assert(after.source_hosts =~= before.source_hosts);
}

/// The archive identifier under which the factory published `chunk_id`: its own document
/// archive identifier when equal, else the first equal compatible identifier.
pub open spec fn published_archive_id_spec(
    document_id: Seq<char>,
    compatible: Seq<Seq<char>>,
    chunk_id: Seq<char>,
) -> Option<PublishedArchiveId> {
    if chunk_id == document_id {
        Some(PublishedArchiveId::Document)
    } else if exists|i: int| 0 <= i < compatible.len() && compatible[i] == chunk_id {
        let i = choose|i: int|
            0 <= i < compatible.len() && compatible[i] == chunk_id && forall|j: int|
                0 <= j < i ==> compatible[j] != chunk_id;
        Some(PublishedArchiveId::Compatible(i as usize))
    } else {
        None
    }
}

/// Selects which identifier published by the factory an audio-file chunk's archive
/// identifier `chunk_id` refers to, as `storeAudioSourceToAudioFileChunk` must hand back one
/// of the factory's own identifiers; `None` when the factory published no equal identifier.
pub fn published_archive_id(document_id: &str, compatible: &Vec<String>, chunk_id: &str) -> (r:
    Option<PublishedArchiveId>)
    ensures
        r == published_archive_id_spec(document_id@, texts(compatible@), chunk_id@),
{
    if str_eq(chunk_id, document_id) {
        return Some(PublishedArchiveId::Document);
    }
    let n = compatible.len();
    let mut i: usize = 0;
    while i < n
        invariant
            n == compatible@.len(),
            0 <= i <= n,
            chunk_id@ != document_id@,
            forall|j: int| 0 <= j < i ==> texts(compatible@)[j] != chunk_id@,
        decreases n - i,
    {
        if str_eq(compatible[i].as_str(), chunk_id) {
            proof {
                let c = texts(compatible@);
                assert(c[i as int] == chunk_id@);
                let k = choose|k: int|
                    0 <= k < c.len() && c[k] == chunk_id@ && forall|j: int| 0 <= j < k ==> c[j] != chunk_id@;
                if k < i {
                    assert(c[k] != chunk_id@);
                }
                if k > i {
                    assert(c[i as int] != chunk_id@);
                }
            }
            return Some(PublishedArchiveId::Compatible(i));
        }
        i += 1;
    }
    None
}

/// Creates a musical context inside the host's editing session and, for ARA 1, the internal
/// region sequence that stands in for it; a failed sequence takes the context back out.
fn create_context_in<P: PluginModel>(
    rt: &mut PluginRuntime<P>,
    properties: <P as MusicalContexts>::MusicalContextProperties,
    legacy_sequence_data: <P as RegionSequences>::RegionSequenceData,
) -> (r: Result<(Handle<MusicalContextKind>, Option<Handle<RegionSequenceKind>>), AraError>)
    requires
        old(rt).wf(),
    ensures
        final(rt).wf(),
        final(rt).spec_session() == old(rt).spec_session(),
        final(rt).spec_generation() == old(rt).spec_generation(),
        final(rt).spec_editing() == old(rt).spec_editing(),
        final(rt).sources_view() == old(rt).sources_view(),
        final(rt).modifications_view() == old(rt).modifications_view(),
        final(rt).regions_view() == old(rt).regions_view(),
        !old(rt).spec_editing() ==> (r matches Err(e) && e is InvalidState) && *final(rt) == *old(rt),
        old(rt).spec_editing() && old(rt).spec_next_id() < u64::MAX ==> exists|
            after_context: P,
            result: Result<<P as MusicalContexts>::MusicalContext, AraError>,
        | {
            &&& #[trigger] P::creates_musical_context(
                old(rt).spec_delegate(),
                after_context,
                CreateContext::for_object(
                    old(rt).spec_generation(),
                    RawHandle { session: old(rt).spec_session(), id: old(rt).spec_next_id() },
                ),
                properties,
                result,
            )
            &&& result matches Err(e) ==> r == Err::<
                (Handle<MusicalContextKind>, Option<Handle<RegionSequenceKind>>),
                AraError,
            >(e) && final(rt).spec_delegate() == after_context
            &&& !old(rt).spec_generation().spec_is_legacy() ==> final(rt).spec_delegate() == after_context
                && (result matches Ok(v) ==> r is Ok && final(rt).contexts_view()[old(rt).spec_next_id()].value
                == Some(v))
        },
        r is Err ==> final(rt).contexts_view() == old(rt).contexts_view()
            && final(rt).sequences_view() == old(rt).sequences_view(),
        r matches Ok((c, s)) ==> {
            &&& old(rt).spec_editing()
            &&& c.raw == (RawHandle { session: old(rt).spec_session(), id: old(rt).spec_next_id() })
            &&& added(final(rt).contexts_view(), old(rt).contexts_view(), c.raw.id)
            &&& if old(rt).spec_generation().spec_is_legacy() {
                &&& s == Some(Handle::<RegionSequenceKind>::from_raw_spec(
                    RawHandle { session: c.raw.session, id: (c.raw.id + 1) as u64 },
                ))
                &&& added(final(rt).sequences_view(), old(rt).sequences_view(), (c.raw.id + 1) as u64)
                &&& final(rt).sequences_view()[(c.raw.id + 1) as u64].context == c.raw.id
            } else {
                &&& s is None
                &&& final(rt).sequences_view() == old(rt).sequences_view()
            }
        },
{
    if !rt.is_editing() {
        return Err(not_editing());
    }
    let context = match rt.create_musical_context(properties) {
        Ok(context) => context,
        Err(e) => {
            return Err(e);
        },
    };
    if !rt.generation().is_legacy() {
        return Ok((context, None));
    }
    let ghost with_context = *rt;
    let sequence_properties = RegionSequenceProperties {
        musical_context: ModelRef::from_handle(context),
        data: legacy_sequence_data,
    };
    match rt.create_region_sequence(context, sequence_properties) {
        Ok(sequence) => {
            proof {
                assert(rt.contexts_view().remove(context.raw.id) =~= with_context.contexts_view().remove(
                    context.raw.id,
                ));
            }
            Ok((context, Some(sequence)))
        },
        Err(e) => {
            let undone = rt.destroy_musical_context(context);
            proof {
                assert(undone is Ok);
                assert(rt.contexts_view() =~= old(rt).contexts_view());
            }
            Err(e)
        },
    }
}

/// Destroys musical context `reference` inside the host's editing session, first destroying
/// its internal region sequence `synthetic` when there is one.
fn destroy_context_in<P: PluginModel>(
    rt: &mut PluginRuntime<P>,
    reference: ModelRef<MusicalContextKind>,
    synthetic: Option<RawHandle>,
) -> (r: Result<(), AraError>)
    requires
        old(rt).wf(),
    ensures
        final(rt).wf(),
        final(rt).spec_session() == old(rt).spec_session(),
        final(rt).spec_generation() == old(rt).spec_generation(),
        final(rt).spec_editing() == old(rt).spec_editing(),
        final(rt).sources_view() == old(rt).sources_view(),
        final(rt).modifications_view() == old(rt).modifications_view(),
        final(rt).regions_view() == old(rt).regions_view(),
        !old(rt).spec_editing() ==> (r matches Err(e) && e is InvalidState) && *final(rt) == *old(rt),
        old(rt).spec_editing() && !old(rt).live_context(
            Handle::<MusicalContextKind>::from_raw_spec(reference.raw),
        ) ==> (r matches Err(e) && e is InvalidArgument) && *final(rt) == *old(rt),
        r is Ok <==> old(rt).spec_editing() && old(rt).live_context(
            Handle::<MusicalContextKind>::from_raw_spec(reference.raw),
        ) && match synthetic {
            Some(s) => {
                &&& old(rt).live_sequence(Handle::<RegionSequenceKind>::from_raw_spec(s))
                &&& old(rt).sequences_view()[s.id].node.children == 0
                &&& old(rt).contexts_view()[reference.raw.id].children == if old(
                    rt,
                ).sequences_view()[s.id].context == reference.raw.id {
                    1usize
                } else {
                    0usize
                }
            },
            None => old(rt).contexts_view()[reference.raw.id].children == 0,
        },
        r is Err ==> final(rt).same_objects(*old(rt)) || (synthetic matches Some(s) && {
            let c = old(rt).sequences_view()[s.id].context;
            &&& old(rt).sequences_view().contains_key(s.id)
            &&& final(rt).sequences_view() == old(rt).sequences_view().remove(s.id)
            &&& final(rt).contexts_view() == node_children_moved(old(rt).contexts_view(), c, -1)
        }),
        r is Ok ==> match synthetic {
            Some(s) => {
                &&& final(rt).sequences_view() == old(rt).sequences_view().remove(s.id)
                &&& final(rt).contexts_view() == node_children_moved(
                    old(rt).contexts_view(),
                    old(rt).sequences_view()[s.id].context,
                    -1,
                ).remove(reference.raw.id)
            },
            None => {
                &&& final(rt).sequences_view() == old(rt).sequences_view()
                &&& final(rt).contexts_view() == old(rt).contexts_view().remove(reference.raw.id)
            },
        },
{
    if !rt.is_editing() {
        return Err(not_editing());
    }
    let context = rt.resolve_musical_context(reference)?;
    let ghost before = *rt;
    match synthetic {
        Some(s) => {
            proof {
                if before.live_sequence(Handle::<RegionSequenceKind>::from_raw_spec(s)) {
                    let c = before.sequences_view()[s.id].context;
                    before.lemma_sequence_counted(s.id);
                    assert(before.contexts_view()[c].children >= 1);
                }
            }
            rt.destroy_region_sequence(Handle::from_raw(s))?;
        },
        None => {},
    }
    rt.destroy_musical_context(context)
}

} // verus!
