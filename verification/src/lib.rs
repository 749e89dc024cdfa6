//! Verified document-model, update-coalescing and factory-lifecycle core of an ARA plug-in runtime.

mod analysis;
mod builder;
mod callbacks;
mod controller;
mod entry;
mod error;
mod extension;
mod generation;
mod graph;
mod handle;
mod host;
mod model;
mod persistence;
mod processing;
mod runtime;
mod seqset;
mod slots;
mod text;
mod traits;
mod updates;
mod vtable;

pub use error::AraError;
pub use generation::{generation_raw, raw_generation_is_injective, ApiGeneration, TargetArch};
pub use graph::{
    children_in, lemma_children_finite, lemma_children_insert_fresh, lemma_children_remove,
    lemma_children_reparent, lemma_children_same_links, lemma_children_same_parent,
};
pub use handle::{
    issued_sessions_are_distinct, SessionIds,
    AudioModificationKind, AudioSourceKind, Handle, ModelRef, MusicalContextKind,
    PlaybackRegionKind, RawHandle, RegionSequenceKind,
};
pub use model::{AudioModificationNode, Node, PlaybackRegionNode, RegionSequenceNode};
pub use runtime::{
    only_active_modifications_block_source_deactivation,
    added, live_identities_precede_next, modification_children_moved,
    modification_destruction_undoes_creation, node_children_moved,
    region_destruction_undoes_creation, sequence_children_moved, EditSession, PluginRuntime,
};
pub use traits::{
    create_context_contents,
    AudioModifications, AudioSources, CreateContext, DocumentLifecycle, MusicalContexts,
    PlaybackRegionProperties, PlaybackRegions, PluginModel, RegionSequenceProperties,
    RegionSequences,
};
pub use updates::{
    batch_names_each_object_once, coalesced_flags_are_common_to_both_changes, covering_of,
    intersection_keeps_only_common_scopes, document_marking_is_idempotent, merged, recorded,
    union_of, modification_notifications, needs_union,
    notified_object, objects_unique, records, region_notifications, source_notifications,
    ContentUpdateScopes, PendingChange, RangeUnion, TrackerView, UpdateNotification,
    UpdateOrigin, UpdateTracker,
};
pub use callbacks::{CallbackContract, Delegate};
pub use controller::{
    factory_terms_ok,
    change_note, change_notes, host_of, progress_notes, published_archive_id,
    published_archive_id_spec, source_destruction_undoes_creation, start_notes, ContentObject, ControllerView,
    DocumentController, FactoryTerms, HostNotification, PublishedArchiveId,
    MAX_ANALYZABLE_CONTENT_TYPES,
};
pub use vtable::{
    document_controller_interface, generation_prefix, represented_count,
    represented_prefix_is_monotonic, ControllerCapabilities, ControllerInterface,
};
pub use persistence::{PartialPersistence, Persistence, PersistenceAdapter};
pub use processing::{
    keys_distinct, validate_snapshot_keys,
    chunk_publishable, selected_in, sources_unique, validate_audio_file_chunk, AlgorithmSelection,
    AudioFileChunk,
};
pub use text::{contains_nul, has_nul, is_nonempty_ascii, nonempty_ascii};
pub use entry::{
    acquired, can_acquire, generation_slot, release_undoes_acquire, released, AssertionRegistry,
    PluginEntry, Selection, SharedAssertion,
};
pub use builder::{
    buildable_factories_advertise_fades_in_pairs,
    factory_ids, ints_unique, spec_well_formed, texts, texts_unique, transformations_coherent,
    valid_display, valid_id, validate_capabilities, Factory, FactoryBuilder, FactoryCapabilities,
    FactorySpec, PlaybackTransformationFlags, PluginRegistry, PluginRegistryBuilder,
};
pub use extension::{
    all_role_bits, single_roles_name_one_bit, max_view_objects, resolved_roles_are_supported_and_assigned, ExtensionBinding,
    ExtensionRoles, ExtensionView, ExtensionViewSelection,
};
pub use seqset::{
    keyed, keys_unique, lemma_keyed_at, lemma_keyed_push, lemma_keyed_remove, lemma_keyed_update,
    lemma_push_fresh, lemma_remove_at, lemma_set_unchanged,
};
pub use analysis::{
    analysis_step, event_source, AnalysisCoordinator, AnalysisFraction, AnalysisProgress, Job,
    PendingAnalysisProgress, ProgressQueue,
};
pub use slots::{release_undoes_allocate, CallbackSlots, CALLBACK_SLOT_COUNT};
pub use host::{
    accepted_services_are_complete,
    host_services_ok, optional_service_ok, required_service_ok, revocation_is_targeted, revoked,
    validate_host_services, AudioReaderRegistry, HostServices, OptionalServices, ReaderRecord,
    ScopeObject, ServiceShape,
};
