use crate::error::AraError;
use crate::generation::{ApiGeneration, TargetArch};
use crate::graph::{
    children_in, lemma_children_finite, lemma_children_insert_fresh, lemma_children_remove,
    lemma_children_reparent, lemma_children_same_links, lemma_children_same_parent,
};
use crate::handle::{
    AudioModificationKind, AudioSourceKind, Handle, ModelRef, MusicalContextKind,
    PlaybackRegionKind, RawHandle, RegionSequenceKind,
};
use crate::model::{AudioModificationNode, Node, PlaybackRegionNode, RegionSequenceNode};
use crate::traits::{
    AudioModifications, AudioSources, CreateContext, DocumentLifecycle, MusicalContexts,
    PlaybackRegionProperties, PlaybackRegions, PluginModel, RegionSequenceProperties,
    RegionSequences,
};
use std::collections::HashMap;
use vstd::std_specs::iter::IteratorSpec;
use vstd::prelude::*;

verus! {

broadcast use vstd::std_specs::hash::group_hash_axioms;

/// Parent link of a region-sequence record.
pub open spec fn by_context<T>() -> spec_fn(RegionSequenceNode<T>) -> u64 {
    |n: RegionSequenceNode<T>| n.context
}

/// Parent link of an audio-modification record.
pub open spec fn by_source<T>() -> spec_fn(AudioModificationNode<T>) -> u64 {
    |n: AudioModificationNode<T>| n.source
}

/// Modification link of a playback-region record.
pub open spec fn by_modification<T>() -> spec_fn(PlaybackRegionNode<T>) -> u64 {
    |n: PlaybackRegionNode<T>| n.modification
}

/// Sequence link of a playback-region record.
pub open spec fn by_sequence<T>() -> spec_fn(PlaybackRegionNode<T>) -> u64 {
    |n: PlaybackRegionNode<T>| n.sequence
}

/// Runtime-owned ARA document graph and application delegate.
pub struct PluginRuntime<P: PluginModel> {
    delegate: P,
    generation: ApiGeneration,
    session: u64,
    next_id: u64,
    document: Option<<P as DocumentLifecycle>::Document>,
    contexts: HashMap<u64, Node<<P as MusicalContexts>::MusicalContext>>,
    sequences: HashMap<u64, RegionSequenceNode<<P as RegionSequences>::RegionSequence>>,
    sources: HashMap<u64, Node<<P as AudioSources>::AudioSource>>,
    modifications: HashMap<
        u64,
        AudioModificationNode<<P as AudioModifications>::AudioModification>,
    >,
    regions: HashMap<u64, PlaybackRegionNode<<P as PlaybackRegions>::PlaybackRegion>>,
    editing: bool,
}

impl<P: PluginModel> PluginRuntime<P> {
    /// Live musical contexts by identity.
    pub closed spec fn contexts_view(self) -> Map<u64, Node<<P as MusicalContexts>::MusicalContext>> {
        self.contexts@
    }

    /// Live region sequences by identity.
    pub closed spec fn sequences_view(self) -> Map<
        u64,
        RegionSequenceNode<<P as RegionSequences>::RegionSequence>,
    > {
        self.sequences@
    }

    /// Live audio sources by identity.
    pub closed spec fn sources_view(self) -> Map<u64, Node<<P as AudioSources>::AudioSource>> {
        self.sources@
    }

    /// Live audio modifications by identity.
    pub closed spec fn modifications_view(self) -> Map<
        u64,
        AudioModificationNode<<P as AudioModifications>::AudioModification>,
    > {
        self.modifications@
    }

    /// Live playback regions by identity.
    pub closed spec fn regions_view(self) -> Map<
        u64,
        PlaybackRegionNode<<P as PlaybackRegions>::PlaybackRegion>,
    > {
        self.regions@
    }

    /// Identity of this document runtime, carried by every handle it issues.
    pub closed spec fn spec_session(self) -> u64 {
        self.session
    }

    /// Negotiated API generation.
    pub closed spec fn spec_generation(self) -> ApiGeneration {
        self.generation
    }

    /// Whether an editing session is active.
    pub closed spec fn spec_editing(self) -> bool {
        self.editing
    }

    /// The identity the next created object receives.
    pub closed spec fn spec_next_id(self) -> u64 {
        self.next_id
    }

    /// The retained application document state; meaningful while `has_document`.
    pub closed spec fn spec_document(self) -> <P as DocumentLifecycle>::Document {
        self.document->0
    }

    /// Whether application document state is retained.
    pub closed spec fn has_document(self) -> bool {
        self.document is Some
    }

    /// Whether `h` names a live musical context of this document.
    pub open spec fn live_context(self, h: Handle<MusicalContextKind>) -> bool {
        h.raw.session == self.spec_session() && self.contexts_view().contains_key(h.raw.id)
    }

    /// Whether `h` names a live region sequence of this document.
    pub open spec fn live_sequence(self, h: Handle<RegionSequenceKind>) -> bool {
        h.raw.session == self.spec_session() && self.sequences_view().contains_key(h.raw.id)
    }

    /// Whether `h` names a live audio source of this document.
    pub open spec fn live_source(self, h: Handle<AudioSourceKind>) -> bool {
        h.raw.session == self.spec_session() && self.sources_view().contains_key(h.raw.id)
    }

    /// Whether `h` names a live audio modification of this document.
    pub open spec fn live_modification(self, h: Handle<AudioModificationKind>) -> bool {
        h.raw.session == self.spec_session() && self.modifications_view().contains_key(h.raw.id)
    }

    /// Whether `h` names a live playback region of this document.
    pub open spec fn live_region(self, h: Handle<PlaybackRegionKind>) -> bool {
        h.raw.session == self.spec_session() && self.regions_view().contains_key(h.raw.id)
    }

    /// Number of live objects of every kind.
    pub open spec fn live_total(self) -> nat {
        self.contexts_view().dom().len() + self.sequences_view().dom().len()
            + self.sources_view().dom().len() + self.modifications_view().dom().len()
            + self.regions_view().dom().len()
    }

    /// The graph maps, session, generation, editing flag and document presence are unchanged.
    pub open spec fn same_graph(self, other: PluginRuntime<P>) -> bool {
        &&& self.contexts_view() == other.contexts_view()
        &&& self.sequences_view() == other.sequences_view()
        &&& self.sources_view() == other.sources_view()
        &&& self.modifications_view() == other.modifications_view()
        &&& self.regions_view() == other.regions_view()
        &&& self.spec_session() == other.spec_session()
        &&& self.spec_generation() == other.spec_generation()
        &&& self.spec_editing() == other.spec_editing()
        &&& self.has_document() == other.has_document()
    }

    /// Whether playback-region properties name the expected parent of a live `sequence`: the
    /// sequence itself from ARA 2 Draft on, its musical context for ARA 1.
    pub open spec fn region_properties_match<D>(
        self,
        sequence: Handle<RegionSequenceKind>,
        properties: PlaybackRegionProperties<D>,
    ) -> bool {
        if self.spec_generation().spec_is_legacy() {
            properties.musical_context matches Some(m) && m.raw == (RawHandle {
                session: self.spec_session(),
                id: self.sequences_view()[sequence.raw.id].context,
            })
        } else {
            properties.region_sequence matches Some(m) && m.raw == sequence.raw
        }
    }

    /// Same identities, parents, activations and child counts; application state may differ.
    pub open spec fn same_structure(self, other: PluginRuntime<P>) -> bool {
        &&& nodes_kept_except(self.contexts_view(), other.contexts_view(), None)
        &&& sequences_kept_except(self.sequences_view(), other.sequences_view(), None)
        &&& nodes_kept_except(self.sources_view(), other.sources_view(), None)
        &&& modifications_kept_except(self.modifications_view(), other.modifications_view(), None)
        &&& regions_kept_except(self.regions_view(), other.regions_view(), None)
        &&& self.spec_session() == other.spec_session()
        &&& self.spec_generation() == other.spec_generation()
        &&& self.spec_editing() == other.spec_editing()
        &&& self.spec_next_id() == other.spec_next_id()
        &&& self.has_document() == other.has_document()
    }

    /// Same structure except that the activation of source `k` may differ.
    pub open spec fn same_objects_but_source_activity(self, other: PluginRuntime<P>, k: u64) -> bool {
        &&& nodes_kept_except(self.contexts_view(), other.contexts_view(), None)
        &&& sequences_kept_except(self.sequences_view(), other.sequences_view(), None)
        &&& nodes_kept_except(self.sources_view(), other.sources_view(), Some(k))
        &&& (other.sources_view().contains_key(k) ==> self.sources_view()[k].children == other.sources_view()[k].children)
        &&& modifications_kept_except(self.modifications_view(), other.modifications_view(), None)
        &&& regions_kept_except(self.regions_view(), other.regions_view(), None)
        &&& self.spec_session() == other.spec_session()
        &&& self.spec_generation() == other.spec_generation()
        &&& self.spec_editing() == other.spec_editing()
        &&& self.spec_next_id() == other.spec_next_id()
        &&& self.has_document() == other.has_document()
    }

    /// Same structure except that the activation of modification `k` may differ.
    pub open spec fn same_objects_but_modification_activity(self, other: PluginRuntime<P>, k: u64) -> bool {
        &&& nodes_kept_except(self.contexts_view(), other.contexts_view(), None)
        &&& sequences_kept_except(self.sequences_view(), other.sequences_view(), None)
        &&& nodes_kept_except(self.sources_view(), other.sources_view(), None)
        &&& modifications_kept_except(self.modifications_view(), other.modifications_view(), Some(k))
        &&& (other.modifications_view().contains_key(k) ==> self.modifications_view()[k].source
            == other.modifications_view()[k].source && self.modifications_view()[k].node.children == other.modifications_view()[k].node.children)
        &&& regions_kept_except(self.regions_view(), other.regions_view(), None)
        &&& self.spec_session() == other.spec_session()
        &&& self.spec_generation() == other.spec_generation()
        &&& self.spec_editing() == other.spec_editing()
        &&& self.spec_next_id() == other.spec_next_id()
        &&& self.has_document() == other.has_document()
    }

    /// Same live objects, session, generation, identity counter and document presence.
    pub open spec fn same_objects(self, other: PluginRuntime<P>) -> bool {
        &&& self.contexts_view() == other.contexts_view()
        &&& self.sequences_view() == other.sequences_view()
        &&& self.sources_view() == other.sources_view()
        &&& self.modifications_view() == other.modifications_view()
        &&& self.regions_view() == other.regions_view()
        &&& self.spec_session() == other.spec_session()
        &&& self.spec_generation() == other.spec_generation()
        &&& self.spec_next_id() == other.spec_next_id()
        &&& self.has_document() == other.has_document()
    }

    /// Whether some active audio modification of this document belongs to `source`.
    pub open spec fn has_active_modification(self, source: Handle<AudioSourceKind>) -> bool {
        source.raw.session == self.spec_session() && exists|k: u64|
            #[trigger] self.modifications_view().contains_key(k)
                && self.modifications_view()[k].source == source.raw.id
                && self.modifications_view()[k].node.active
    }

    fn source_has_active_modification(&self, source: Handle<AudioSourceKind>) -> (b: bool)
        ensures
            b == self.has_active_modification(source),
    {
        if source.raw.session != self.session {
            return false;
        }
        let s = source.raw.id;
        let mut found = false;
        let ghost m = self.modifications@;
        let values = self.modifications.values();
        let ghost full = values.remaining();
        proof {
            assert(full.unref().to_set() == m.values());
        }
        for node in it: values
            invariant
                it.seq() == full,
                full.unref().to_set() == m.values(),
                found ==> exists|k: u64| #[trigger] m.contains_key(k) && m[k].source == s && m[k].node.active,
                !found ==> forall|j: int| 0 <= j < it.index() ==> !(it.seq()[j].source == s && it.seq()[j].node.active),
        {
            if node.source == s && node.node.active {
                proof {
                    let v = *node;
                    assert(full.unref().contains(v));
                    assert(m.values().contains(v));
                }
                found = true;
            }
        }
        proof {
            if !found {
                assert forall|k: u64| #[trigger] m.contains_key(k) implies !(m[k].source == s && m[k].node.active) by {
                    let v = m[k];
                    assert(m.values().contains(v));
                    assert(full.unref().to_set().contains(v));
                    let j = choose|j: int| 0 <= j < full.unref().len() && full.unref()[j] == v;
                    assert(*full[j] == v);
                }
            }
        }
        found
    }

    /// Every identity in use was issued before `next_id`, and identity zero is never issued.
    pub closed spec fn ids_issued(self) -> bool {
        &&& self.next_id > 0
        &&& forall|k: u64| #[trigger] self.contexts@.contains_key(k) ==> 0 < k < self.next_id
        &&& forall|k: u64| #[trigger] self.sequences@.contains_key(k) ==> 0 < k < self.next_id
        &&& forall|k: u64| #[trigger] self.sources@.contains_key(k) ==> 0 < k < self.next_id
        &&& forall|k: u64|
            #[trigger] self.modifications@.contains_key(k) ==> 0 < k < self.next_id
        &&& forall|k: u64| #[trigger] self.regions@.contains_key(k) ==> 0 < k < self.next_id
    }

    /// Every live record holds the application state its delegate created.
    pub closed spec fn committed(self) -> bool {
        &&& forall|k: u64| #[trigger] self.contexts@.contains_key(k) ==> self.contexts@[k].value is Some
        &&& forall|k: u64|
            #[trigger] self.sequences@.contains_key(k) ==> self.sequences@[k].node.value is Some
        &&& forall|k: u64| #[trigger] self.sources@.contains_key(k) ==> self.sources@[k].value is Some
        &&& forall|k: u64|
            #[trigger] self.modifications@.contains_key(k)
                ==> self.modifications@[k].node.value is Some
        &&& forall|k: u64|
            #[trigger] self.regions@.contains_key(k) ==> self.regions@[k].node.value is Some
    }

    /// Every parent named by a live record is itself live.
    pub open spec fn links_live(self) -> bool {
        &&& forall|k: u64|
            #[trigger] self.sequences_view().contains_key(k) ==> self.contexts_view().contains_key(
                self.sequences_view()[k].context,
            )
        &&& forall|k: u64|
            #[trigger] self.modifications_view().contains_key(k)
                ==> self.sources_view().contains_key(self.modifications_view()[k].source)
        &&& forall|k: u64|
            #[trigger] self.regions_view().contains_key(k) ==> {
                &&& self.modifications_view().contains_key(self.regions_view()[k].modification)
                &&& self.sequences_view().contains_key(self.regions_view()[k].sequence)
            }
    }

    /// Every record's child count is the number of live records naming it as parent.
    pub open spec fn counts_exact(self) -> bool {
        &&& forall|c: u64|
            #[trigger] self.contexts_view().contains_key(c) ==> self.contexts_view()[c].children == children_in(self.sequences_view(), by_context(), c).len()
        &&& forall|s: u64|
            #[trigger] self.sources_view().contains_key(s) ==> self.sources_view()[s].children == children_in(self.modifications_view(), by_source(), s).len()
        &&& forall|m: u64|
            #[trigger] self.modifications_view().contains_key(m)
                ==> self.modifications_view()[m].node.children == children_in(
                self.regions_view(),
                by_modification(),
                m,
            ).len()
        &&& forall|q: u64|
            #[trigger] self.sequences_view().contains_key(q) ==> self.sequences_view()[q].node.children == children_in(self.regions_view(), by_sequence(), q).len()
    }

    /// Undo-history activation respects the graph: contexts and sequences are always active,
    /// every played modification is active, and every active modification has an active source.
    pub open spec fn activity_consistent(self) -> bool {
        &&& forall|c: u64| #[trigger] self.contexts_view().contains_key(c) ==> self.contexts_view()[c].active
        &&& forall|q: u64|
            #[trigger] self.sequences_view().contains_key(q) ==> self.sequences_view()[q].node.active
        &&& forall|r: u64|
            #[trigger] self.regions_view().contains_key(r) ==> self.modifications_view()[self.regions_view()[r].modification].node.active
        &&& forall|m: u64|
            #[trigger] self.modifications_view().contains_key(m)
                && self.modifications_view()[m].node.active ==> self.sources_view()[self.modifications_view()[m].source].active
    }

    /// The application delegate.
    pub closed spec fn spec_delegate(self) -> P {
        self.delegate
    }

    /// No model object is live.
    pub open spec fn is_empty_graph(self) -> bool {
        &&& self.contexts_view().dom() == Set::<u64>::empty()
        &&& self.sequences_view().dom() == Set::<u64>::empty()
        &&& self.sources_view().dom() == Set::<u64>::empty()
        &&& self.modifications_view().dom() == Set::<u64>::empty()
        &&& self.regions_view().dom() == Set::<u64>::empty()
    }

    /// A live region sequence is counted by its live musical context.
    pub proof fn lemma_sequence_counted(self, k: u64)
        requires
            self.wf(),
            self.sequences_view().contains_key(k),
        ensures
            self.contexts_view().contains_key(self.sequences_view()[k].context),
            self.contexts_view()[self.sequences_view()[k].context].children >= 1,
    {
        let c = self.sequences_view()[k].context;
        lemma_children_finite(self.sequences_view(), by_context(), c);
        assert(children_in(self.sequences_view(), by_context(), c).contains(k));
    }

    /// The runtime's invariant.
    pub open spec fn wf(self) -> bool {
        &&& self.has_document()
        &&& self.ids_issued()
        &&& self.committed()
        &&& self.links_live()
        &&& self.counts_exact()
        &&& self.activity_consistent()
    }
}

/// Exclusive edit guard through which all graph mutations occur.
///
/// A session opened by `PluginRuntime::begin_editing` owns the editing state and leaves it in
/// `finish`; one opened by `callback_edit` leaves the editing state to the host's `endEditing`.
pub struct EditSession<'runtime, P: PluginModel> {
    runtime: &'runtime mut PluginRuntime<P>,
    owns_state: bool,
}

impl<'runtime, P: PluginModel> EditSession<'runtime, P> {
    /// The runtime this session mutates.
    pub closed spec fn rt(self) -> PluginRuntime<P> {
        *self.runtime
    }

    /// The borrow of the runtime this session mutates; its final value is the runtime once the
    /// session has ended.
    pub closed spec fn borrowed(self) -> &'runtime mut PluginRuntime<P> {
        self.runtime
    }

    /// Whether finishing this session leaves the editing state.
    pub closed spec fn owns_editing(self) -> bool {
        self.owns_state
    }

    /// Borrows the delegate for testable state and diagnostics.
    pub fn delegate(&self) -> (d: &P)
        ensures
            *d == self.rt().spec_delegate(),
    {
        &self.runtime.delegate
    }

    /// Returns the number of committed live audio sources.
    pub fn live_audio_source_count(&self) -> (n: usize)
        ensures
            n == self.rt().sources_view().dom().len(),
    {
        self.runtime.sources.len()
    }

    /// Returns a stable reference for a live object of this kind.
    pub fn musical_context_ref(&self, handle: Handle<MusicalContextKind>) -> (r: Result<ModelRef<MusicalContextKind>, AraError>)
        ensures
            r is Ok <==> self.rt().live_context(handle),
            r matches Ok(m) ==> m.raw == handle.raw,
            r matches Err(e) ==> e is InvalidArgument,
    {
        self.runtime.musical_context_ref(handle)
    }

    /// Returns a stable reference for a live object of this kind.
    pub fn region_sequence_ref(&self, handle: Handle<RegionSequenceKind>) -> (r: Result<ModelRef<RegionSequenceKind>, AraError>)
        ensures
            r is Ok <==> self.rt().live_sequence(handle),
            r matches Ok(m) ==> m.raw == handle.raw,
            r matches Err(e) ==> e is InvalidArgument,
    {
        self.runtime.region_sequence_ref(handle)
    }

    /// Returns a stable reference for a live object of this kind.
    pub fn audio_source_ref(&self, handle: Handle<AudioSourceKind>) -> (r: Result<ModelRef<AudioSourceKind>, AraError>)
        ensures
            r is Ok <==> self.rt().live_source(handle),
            r matches Ok(m) ==> m.raw == handle.raw,
            r matches Err(e) ==> e is InvalidArgument,
    {
        self.runtime.audio_source_ref(handle)
    }

    /// Returns a stable reference for a live object of this kind.
    pub fn audio_modification_ref(&self, handle: Handle<AudioModificationKind>) -> (r: Result<ModelRef<AudioModificationKind>, AraError>)
        ensures
            r is Ok <==> self.rt().live_modification(handle),
            r matches Ok(m) ==> m.raw == handle.raw,
            r matches Err(e) ==> e is InvalidArgument,
    {
        self.runtime.audio_modification_ref(handle)
    }

    /// Returns a stable reference for a live object of this kind.
    pub fn playback_region_ref(&self, handle: Handle<PlaybackRegionKind>) -> (r: Result<ModelRef<PlaybackRegionKind>, AraError>)
        ensures
            r is Ok <==> self.rt().live_region(handle),
            r matches Ok(m) ==> m.raw == handle.raw,
            r matches Err(e) ==> e is InvalidArgument,
    {
        self.runtime.playback_region_ref(handle)
    }

    /// Provisions and creates a musical context.
    ///
    /// The delegate receives the provisional identity; when it fails, nothing becomes live and
    /// the identity is never reused. Fails with `InvalidState` when identities are exhausted.
    pub fn create_musical_context(
        &mut self,
        properties: <P as MusicalContexts>::MusicalContextProperties,
    ) -> (r: Result<Handle<MusicalContextKind>, AraError>)
        requires
            old(self).rt().wf(),
        ensures
            final(self).rt().wf(),
            final(self).owns_editing() == old(self).owns_editing(),
            final(self).rt().spec_session() == old(self).rt().spec_session(),
            final(self).rt().spec_generation() == old(self).rt().spec_generation(),
            final(self).rt().spec_editing() == old(self).rt().spec_editing(),
            final(self).rt().sequences_view() == old(self).rt().sequences_view(),
            final(self).rt().sources_view() == old(self).rt().sources_view(),
            final(self).rt().modifications_view() == old(self).rt().modifications_view(),
            final(self).rt().regions_view() == old(self).rt().regions_view(),
            old(self).rt().spec_next_id() == u64::MAX ==> (r matches Err(e) && e is InvalidState),
            r is Err ==> final(self).rt().contexts_view() == old(self).rt().contexts_view(),
            r matches Ok(h) ==> {
                &&& h.raw == (RawHandle { session: old(self).rt().spec_session(), id: old(self).rt().spec_next_id() })
                &&& final(self).rt().spec_next_id() == old(self).rt().spec_next_id() + 1
                &&& added(final(self).rt().contexts_view(), old(self).rt().contexts_view(), h.raw.id)
                &&& final(self).rt().contexts_view()[h.raw.id].active
                &&& final(self).rt().contexts_view()[h.raw.id].children == 0
            },
            old(self).rt().spec_next_id() < u64::MAX ==> exists|
                result: Result<<P as MusicalContexts>::MusicalContext, AraError>,
            | {
                &&& #[trigger] P::creates_musical_context(
                    old(self).rt().spec_delegate(),
                    final(self).rt().spec_delegate(),
                    CreateContext::for_object(
                        old(self).rt().spec_generation(),
                        RawHandle { session: old(self).rt().spec_session(), id: old(self).rt().spec_next_id() },
                    ),
                    properties,
                    result,
                )
                &&& result matches Err(e) ==> r == Err::<Handle<MusicalContextKind>, AraError>(e)
                &&& result matches Ok(v) ==> r is Ok && final(self).rt().contexts_view()[old(self).rt().spec_next_id()].value == Some(v)
            },
    {
        self.runtime.create_musical_context(properties)
    }

    /// Provisions a region sequence after validating its required musical context.
    ///
    /// Fails with `InvalidArgument` when the context is not live or the properties name
    /// another context, with `InvalidState` when identities are exhausted, and with the
    /// delegate's error when it rejects the sequence; nothing becomes live on failure.
    pub fn create_region_sequence(
        &mut self,
        context_handle: Handle<MusicalContextKind>,
        properties: RegionSequenceProperties<<P as RegionSequences>::RegionSequenceData>,
    ) -> (r: Result<Handle<RegionSequenceKind>, AraError>)
        requires
            old(self).rt().wf(),
        ensures
            final(self).rt().wf(),
            final(self).owns_editing() == old(self).owns_editing(),
            final(self).rt().spec_session() == old(self).rt().spec_session(),
            final(self).rt().spec_generation() == old(self).rt().spec_generation(),
            final(self).rt().spec_editing() == old(self).rt().spec_editing(),
            final(self).rt().sources_view() == old(self).rt().sources_view(),
            final(self).rt().modifications_view() == old(self).rt().modifications_view(),
            final(self).rt().regions_view() == old(self).rt().regions_view(),
            !old(self).rt().live_context(context_handle) ==> (r matches Err(e) && e is InvalidArgument),
            old(self).rt().live_context(context_handle) && properties.musical_context.raw != context_handle.raw
                ==> (r matches Err(e) && e is InvalidArgument),
            old(self).rt().live_context(context_handle) && properties.musical_context.raw == context_handle.raw
                && old(self).rt().spec_next_id() == u64::MAX ==> (r matches Err(e) && e is InvalidState),
            r is Err ==> final(self).rt().contexts_view() == old(self).rt().contexts_view()
                && final(self).rt().sequences_view() == old(self).rt().sequences_view(),
            r matches Ok(h) ==> {
                &&& old(self).rt().live_context(context_handle)
                &&& properties.musical_context.raw == context_handle.raw
                &&& h.raw == (RawHandle { session: old(self).rt().spec_session(), id: old(self).rt().spec_next_id() })
                &&& final(self).rt().spec_next_id() == old(self).rt().spec_next_id() + 1
                &&& added(final(self).rt().sequences_view(), old(self).rt().sequences_view(), h.raw.id)
                &&& final(self).rt().sequences_view()[h.raw.id].context == context_handle.raw.id
                &&& final(self).rt().sequences_view()[h.raw.id].node.active
                &&& final(self).rt().sequences_view()[h.raw.id].node.children == 0
                &&& final(self).rt().contexts_view() == node_children_moved(old(self).rt().contexts_view(), context_handle.raw.id, 1)
            },
            old(self).rt().live_context(context_handle) && properties.musical_context.raw == context_handle.raw
                && old(self).rt().spec_next_id() < u64::MAX ==> exists|
                result: Result<<P as RegionSequences>::RegionSequence, AraError>,
            | {
                &&& #[trigger] P::creates_region_sequence(
                    old(self).rt().spec_delegate(),
                    final(self).rt().spec_delegate(),
                    CreateContext::for_object(
                        old(self).rt().spec_generation(),
                        RawHandle { session: old(self).rt().spec_session(), id: old(self).rt().spec_next_id() },
                    ),
                    properties,
                    result,
                )
                &&& result matches Err(e) ==> r == Err::<Handle<RegionSequenceKind>, AraError>(e)
                &&& result matches Ok(v) ==> r is Ok && final(self).rt().sequences_view()[old(self).rt().spec_next_id()].node.value == Some(v)
            },
    {
        self.runtime.create_region_sequence(context_handle, properties)
    }

    /// Provisions and creates an audio source.
    ///
    /// The delegate receives the provisional identity; when it fails, nothing becomes live and
    /// the identity is never reused. Fails with `InvalidState` when identities are exhausted.
    pub fn create_audio_source(
        &mut self,
        properties: <P as AudioSources>::AudioSourceProperties,
    ) -> (r: Result<Handle<AudioSourceKind>, AraError>)
        requires
            old(self).rt().wf(),
        ensures
            final(self).rt().wf(),
            final(self).owns_editing() == old(self).owns_editing(),
            final(self).rt().spec_session() == old(self).rt().spec_session(),
            final(self).rt().spec_generation() == old(self).rt().spec_generation(),
            final(self).rt().spec_editing() == old(self).rt().spec_editing(),
            final(self).rt().contexts_view() == old(self).rt().contexts_view(),
            final(self).rt().sequences_view() == old(self).rt().sequences_view(),
            final(self).rt().modifications_view() == old(self).rt().modifications_view(),
            final(self).rt().regions_view() == old(self).rt().regions_view(),
            old(self).rt().spec_next_id() == u64::MAX ==> (r matches Err(e) && e is InvalidState)
                && final(self).rt() == old(self).rt(),
            old(self).rt().spec_next_id() < u64::MAX ==> exists|
                result: Result<<P as AudioSources>::AudioSource, AraError>,
            | {
                &&& #[trigger] P::creates_audio_source(
                    old(self).rt().spec_delegate(),
                    final(self).rt().spec_delegate(),
                    CreateContext::for_object(
                        old(self).rt().spec_generation(),
                        RawHandle { session: old(self).rt().spec_session(), id: old(self).rt().spec_next_id() },
                    ),
                    properties,
                    result,
                )
                &&& result matches Err(e) ==> r == Err::<Handle<AudioSourceKind>, AraError>(e)
                &&& result matches Ok(v) ==> r is Ok && final(self).rt().sources_view()[old(self).rt().spec_next_id()].value
                    == Some(v)
            },
            r is Err ==> final(self).rt().sources_view() == old(self).rt().sources_view(),
            r matches Ok(h) ==> {
                &&& h.raw == (RawHandle { session: old(self).rt().spec_session(), id: old(self).rt().spec_next_id() })
                &&& final(self).rt().spec_next_id() == old(self).rt().spec_next_id() + 1
                &&& added(final(self).rt().sources_view(), old(self).rt().sources_view(), h.raw.id)
                &&& final(self).rt().sources_view()[h.raw.id].active
                &&& final(self).rt().sources_view()[h.raw.id].children == 0
            },
    {
        self.runtime.create_audio_source(properties)
    }

    /// Provisions an audio modification under a live, active audio source.
    ///
    /// Fails with `InvalidArgument` when the source is not live, with `InvalidState` when it is
    /// deactivated or identities are exhausted, and with the delegate's error when it rejects
    /// the modification; nothing becomes live on failure.
    pub fn create_audio_modification(
        &mut self,
        source: Handle<AudioSourceKind>,
        properties: <P as AudioModifications>::AudioModificationProperties,
    ) -> (r: Result<Handle<AudioModificationKind>, AraError>)
        requires
            old(self).rt().wf(),
        ensures
            final(self).rt().wf(),
            final(self).owns_editing() == old(self).owns_editing(),
            final(self).rt().spec_session() == old(self).rt().spec_session(),
            final(self).rt().spec_generation() == old(self).rt().spec_generation(),
            final(self).rt().spec_editing() == old(self).rt().spec_editing(),
            final(self).rt().contexts_view() == old(self).rt().contexts_view(),
            final(self).rt().sequences_view() == old(self).rt().sequences_view(),
            final(self).rt().regions_view() == old(self).rt().regions_view(),
            !old(self).rt().live_source(source) ==> (r matches Err(e) && e is InvalidArgument),
            old(self).rt().live_source(source) && !old(self).rt().sources_view()[source.raw.id].active
                ==> (r matches Err(e) && e is InvalidState),
            old(self).rt().spec_next_id() == u64::MAX ==> r is Err,
            r is Err ==> final(self).rt().sources_view() == old(self).rt().sources_view()
                && final(self).rt().modifications_view() == old(self).rt().modifications_view(),
            r matches Ok(h) ==> {
                &&& old(self).rt().live_source(source)
                &&& old(self).rt().sources_view()[source.raw.id].active
                &&& h.raw == (RawHandle { session: old(self).rt().spec_session(), id: old(self).rt().spec_next_id() })
                &&& final(self).rt().spec_next_id() == old(self).rt().spec_next_id() + 1
                &&& added(final(self).rt().modifications_view(), old(self).rt().modifications_view(), h.raw.id)
                &&& final(self).rt().modifications_view()[h.raw.id].source == source.raw.id
                &&& final(self).rt().modifications_view()[h.raw.id].node.active
                &&& final(self).rt().modifications_view()[h.raw.id].node.children == 0
                &&& final(self).rt().sources_view() == node_children_moved(old(self).rt().sources_view(), source.raw.id, 1)
            },
            old(self).rt().live_source(source) && old(self).rt().sources_view()[source.raw.id].active
                && old(self).rt().spec_next_id() < u64::MAX ==> exists|
                result: Result<<P as AudioModifications>::AudioModification, AraError>,
            | {
                &&& #[trigger] P::creates_audio_modification(
                    old(self).rt().spec_delegate(),
                    final(self).rt().spec_delegate(),
                    CreateContext::for_object(
                        old(self).rt().spec_generation(),
                        RawHandle { session: old(self).rt().spec_session(), id: old(self).rt().spec_next_id() },
                    ),
                    properties,
                    result,
                )
                &&& result matches Err(e) ==> r == Err::<Handle<AudioModificationKind>, AraError>(e)
                &&& result matches Ok(v) ==> r is Ok && final(self).rt().modifications_view()[old(self).rt().spec_next_id()].node.value == Some(v)
            },
    {
        self.runtime.create_audio_modification(source, properties)
    }

    /// Creates an independent modification by cloning a live sibling's application state.
    ///
    /// Fails with `InvalidArgument` when the sibling is not live, with `InvalidState` when its
    /// audio source is deactivated or identities are exhausted, and with the delegate's error
    /// when it rejects the clone; nothing becomes live on failure.
    pub fn clone_audio_modification(
        &mut self,
        source_modification: Handle<AudioModificationKind>,
        properties: <P as AudioModifications>::AudioModificationProperties,
    ) -> (r: Result<Handle<AudioModificationKind>, AraError>)
        requires
            old(self).rt().wf(),
        ensures
            final(self).rt().wf(),
            final(self).owns_editing() == old(self).owns_editing(),
            final(self).rt().spec_session() == old(self).rt().spec_session(),
            final(self).rt().spec_generation() == old(self).rt().spec_generation(),
            final(self).rt().spec_editing() == old(self).rt().spec_editing(),
            final(self).rt().contexts_view() == old(self).rt().contexts_view(),
            final(self).rt().sequences_view() == old(self).rt().sequences_view(),
            final(self).rt().regions_view() == old(self).rt().regions_view(),
            !old(self).rt().live_modification(source_modification) ==> (r matches Err(e) && e is InvalidArgument),
            old(self).rt().live_modification(source_modification)
                && !old(self).rt().sources_view()[old(self).rt().modifications_view()[source_modification.raw.id].source].active
                ==> (r matches Err(e) && e is InvalidState),
            old(self).rt().spec_next_id() == u64::MAX ==> r is Err,
            r is Err ==> final(self).rt().sources_view() == old(self).rt().sources_view()
                && final(self).rt().modifications_view() == old(self).rt().modifications_view(),
            r matches Ok(h) ==> {
                let s = old(self).rt().modifications_view()[source_modification.raw.id].source;
                &&& old(self).rt().live_modification(source_modification)
                &&& old(self).rt().sources_view()[s].active
                &&& h.raw == (RawHandle { session: old(self).rt().spec_session(), id: old(self).rt().spec_next_id() })
                &&& final(self).rt().spec_next_id() == old(self).rt().spec_next_id() + 1
                &&& added(final(self).rt().modifications_view(), old(self).rt().modifications_view(), h.raw.id)
                &&& final(self).rt().modifications_view()[h.raw.id].source == s
                &&& final(self).rt().modifications_view()[h.raw.id].node.active
                &&& final(self).rt().modifications_view()[h.raw.id].node.children == 0
                &&& final(self).rt().sources_view() == node_children_moved(old(self).rt().sources_view(), s, 1)
            },
            old(self).rt().live_modification(source_modification)
                && old(self).rt().sources_view()[old(self).rt().modifications_view()[source_modification.raw.id].source].active
                && old(self).rt().spec_next_id() < u64::MAX ==> exists|
                result: Result<<P as AudioModifications>::AudioModification, AraError>,
            | {
                &&& #[trigger] P::clones_audio_modification(
                    old(self).rt().spec_delegate(),
                    final(self).rt().spec_delegate(),
                    CreateContext::for_object(
                        old(self).rt().spec_generation(),
                        RawHandle { session: old(self).rt().spec_session(), id: old(self).rt().spec_next_id() },
                    ),
                    old(self).rt().modifications_view()[source_modification.raw.id].node.value->0,
                    properties,
                    result,
                )
                &&& result matches Err(e) ==> r == Err::<Handle<AudioModificationKind>, AraError>(e)
                &&& result matches Ok(v) ==> r is Ok && final(self).rt().modifications_view()[old(self).rt().spec_next_id()].node.value
                    == Some(v)
            },
    {
        self.runtime.clone_audio_modification(source_modification, properties)
    }

    /// Provisions a playback region after validating both required parent edges.
    ///
    /// Fails with `InvalidArgument` when a parent is not live or the properties name another
    /// parent, with `InvalidState` when the modification is deactivated or identities are
    /// exhausted, and with the delegate's error when it rejects the region; nothing becomes
    /// live on failure, and the delegate is not called unless every check passed.
    pub fn create_playback_region(
        &mut self,
        modification: Handle<AudioModificationKind>,
        sequence: Handle<RegionSequenceKind>,
        properties: PlaybackRegionProperties<<P as PlaybackRegions>::PlaybackRegionData>,
    ) -> (r: Result<Handle<PlaybackRegionKind>, AraError>)
        requires
            old(self).rt().wf(),
        ensures
            final(self).rt().wf(),
            final(self).owns_editing() == old(self).owns_editing(),
            final(self).rt().spec_session() == old(self).rt().spec_session(),
            final(self).rt().spec_generation() == old(self).rt().spec_generation(),
            final(self).rt().spec_editing() == old(self).rt().spec_editing(),
            final(self).rt().contexts_view() == old(self).rt().contexts_view(),
            final(self).rt().sources_view() == old(self).rt().sources_view(),
            !old(self).rt().live_modification(modification) ==> (r matches Err(e) && e is InvalidArgument)
                && final(self).rt() == old(self).rt(),
            old(self).rt().live_modification(modification)
                && !old(self).rt().modifications_view()[modification.raw.id].node.active
                ==> (r matches Err(e) && e is InvalidState) && final(self).rt() == old(self).rt(),
            old(self).rt().live_modification(modification)
                && old(self).rt().modifications_view()[modification.raw.id].node.active
                && !old(self).rt().live_sequence(sequence) ==> (r matches Err(e) && e is InvalidArgument)
                && final(self).rt() == old(self).rt(),
            old(self).rt().live_modification(modification)
                && old(self).rt().modifications_view()[modification.raw.id].node.active
                && old(self).rt().live_sequence(sequence)
                && !old(self).rt().region_properties_match(sequence, properties)
                ==> (r matches Err(e) && e is InvalidArgument) && final(self).rt() == old(self).rt(),
            old(self).rt().spec_next_id() == u64::MAX ==> r is Err && final(self).rt() == old(self).rt(),
            r is Err ==> final(self).rt().sequences_view() == old(self).rt().sequences_view()
                && final(self).rt().modifications_view() == old(self).rt().modifications_view()
                && final(self).rt().regions_view() == old(self).rt().regions_view(),
            r matches Ok(h) ==> {
                let m = modification.raw.id;
                let q = sequence.raw.id;
                &&& old(self).rt().live_modification(modification)
                &&& old(self).rt().modifications_view()[m].node.active
                &&& old(self).rt().live_sequence(sequence)
                &&& old(self).rt().region_properties_match(sequence, properties)
                &&& h.raw == (RawHandle { session: old(self).rt().spec_session(), id: old(self).rt().spec_next_id() })
                &&& final(self).rt().spec_next_id() == old(self).rt().spec_next_id() + 1
                &&& added(final(self).rt().regions_view(), old(self).rt().regions_view(), h.raw.id)
                &&& final(self).rt().regions_view()[h.raw.id].modification == m
                &&& final(self).rt().regions_view()[h.raw.id].sequence == q
                &&& final(self).rt().modifications_view() == modification_children_moved(old(self).rt().modifications_view(), m, 1)
                &&& final(self).rt().sequences_view() == sequence_children_moved(old(self).rt().sequences_view(), q, 1)
            },
            old(self).rt().live_modification(modification)
                && old(self).rt().modifications_view()[modification.raw.id].node.active
                && old(self).rt().live_sequence(sequence) && old(self).rt().region_properties_match(sequence, properties)
                && old(self).rt().spec_next_id() < u64::MAX ==> exists|
                result: Result<<P as PlaybackRegions>::PlaybackRegion, AraError>,
            | {
                &&& #[trigger] P::creates_playback_region(
                    old(self).rt().spec_delegate(),
                    final(self).rt().spec_delegate(),
                    CreateContext::for_object(
                        old(self).rt().spec_generation(),
                        RawHandle { session: old(self).rt().spec_session(), id: old(self).rt().spec_next_id() },
                    ),
                    properties,
                    result,
                )
                &&& result matches Err(e) ==> r == Err::<Handle<PlaybackRegionKind>, AraError>(e)
                &&& result matches Ok(v) ==> r is Ok && final(self).rt().regions_view()[old(self).rt().spec_next_id()].node.value == Some(v)
            },
    {
        self.runtime.create_playback_region(modification, sequence, properties)
    }

    /// Destroys a playback region and decrements both parent edges.
    ///
    /// Fails with `InvalidArgument`, changing nothing, when the region is not live.
    pub fn destroy_playback_region(&mut self, region: Handle<PlaybackRegionKind>) -> (r: Result<
        (),
        AraError,
    >)
        requires
            old(self).rt().wf(),
        ensures
            final(self).rt().wf(),
            final(self).owns_editing() == old(self).owns_editing(),
            final(self).rt().spec_session() == old(self).rt().spec_session(),
            final(self).rt().spec_generation() == old(self).rt().spec_generation(),
            final(self).rt().spec_editing() == old(self).rt().spec_editing(),
            final(self).rt().spec_next_id() == old(self).rt().spec_next_id(),
            final(self).rt().contexts_view() == old(self).rt().contexts_view(),
            final(self).rt().sources_view() == old(self).rt().sources_view(),
            r is Ok <==> old(self).rt().live_region(region),
            r matches Err(e) ==> e is InvalidArgument,
            r is Err ==> final(self).rt() == old(self).rt(),
            r is Ok ==> {
                let old_rt = old(self).rt();
                let new_rt = final(self).rt();
                let k = region.raw.id;
                let m = old_rt.regions_view()[k].modification;
                let q = old_rt.regions_view()[k].sequence;
                &&& new_rt.regions_view() == old_rt.regions_view().remove(k)
                &&& new_rt.modifications_view() == modification_children_moved(old_rt.modifications_view(), m, -1)
                &&& new_rt.sequences_view() == sequence_children_moved(old_rt.sequences_view(), q, -1)
            },
            r is Ok ==> P::destroys_playback_region(
                old(self).rt().spec_delegate(),
                final(self).rt().spec_delegate(),
                old(self).rt().regions_view()[region.raw.id].node.value->0,
            ),
    {
        self.runtime.destroy_playback_region(region)
    }

    /// Destroys a childless audio modification after invalidating its identity.
    ///
    /// Fails with `InvalidArgument` when the modification is not live and with `InvalidState`
    /// while a playback region still plays it; nothing changes on failure.
    pub fn destroy_audio_modification(
        &mut self,
        modification: Handle<AudioModificationKind>,
    ) -> (r: Result<(), AraError>)
        requires
            old(self).rt().wf(),
        ensures
            final(self).rt().wf(),
            final(self).owns_editing() == old(self).owns_editing(),
            final(self).rt().spec_session() == old(self).rt().spec_session(),
            final(self).rt().spec_generation() == old(self).rt().spec_generation(),
            final(self).rt().spec_editing() == old(self).rt().spec_editing(),
            final(self).rt().spec_next_id() == old(self).rt().spec_next_id(),
            final(self).rt().contexts_view() == old(self).rt().contexts_view(),
            final(self).rt().sequences_view() == old(self).rt().sequences_view(),
            final(self).rt().regions_view() == old(self).rt().regions_view(),
            !old(self).rt().live_modification(modification) ==> (r matches Err(e) && e is InvalidArgument),
            r matches Err(e) && e is InvalidArgument ==> !old(self).rt().live_modification(modification),
            r is Ok <==> old(self).rt().live_modification(modification)
                && old(self).rt().modifications_view()[modification.raw.id].node.children == 0,
            r matches Err(e) ==> e is InvalidArgument || e is InvalidState,
            r is Err ==> final(self).rt() == old(self).rt(),
            r is Ok ==> {
                let old_rt = old(self).rt();
                let new_rt = final(self).rt();
                let k = modification.raw.id;
                let s = old_rt.modifications_view()[k].source;
                &&& new_rt.modifications_view() == old_rt.modifications_view().remove(k)
                &&& new_rt.sources_view() == node_children_moved(old_rt.sources_view(), s, -1)
            },
            r is Ok ==> P::destroys_audio_modification(
                old(self).rt().spec_delegate(),
                final(self).rt().spec_delegate(),
                old(self).rt().modifications_view()[modification.raw.id].node.value->0,
            ),
    {
        self.runtime.destroy_audio_modification(modification)
    }

    /// Destroys a childless region sequence after invalidating its identity.
    ///
    /// Fails with `InvalidArgument` when the sequence is not live and with `InvalidState`
    /// while a playback region still belongs to it; nothing changes on failure.
    pub fn destroy_region_sequence(&mut self, sequence: Handle<RegionSequenceKind>) -> (r: Result<
        (),
        AraError,
    >)
        requires
            old(self).rt().wf(),
        ensures
            final(self).rt().wf(),
            final(self).owns_editing() == old(self).owns_editing(),
            final(self).rt().spec_session() == old(self).rt().spec_session(),
            final(self).rt().spec_generation() == old(self).rt().spec_generation(),
            final(self).rt().spec_editing() == old(self).rt().spec_editing(),
            final(self).rt().spec_next_id() == old(self).rt().spec_next_id(),
            final(self).rt().sources_view() == old(self).rt().sources_view(),
            final(self).rt().modifications_view() == old(self).rt().modifications_view(),
            final(self).rt().regions_view() == old(self).rt().regions_view(),
            !old(self).rt().live_sequence(sequence) ==> (r matches Err(e) && e is InvalidArgument),
            r matches Err(e) && e is InvalidArgument ==> !old(self).rt().live_sequence(sequence),
            r is Ok <==> old(self).rt().live_sequence(sequence)
                && old(self).rt().sequences_view()[sequence.raw.id].node.children == 0,
            r matches Err(e) ==> e is InvalidArgument || e is InvalidState,
            r is Err ==> final(self).rt() == old(self).rt(),
            r is Ok ==> {
                let old_rt = old(self).rt();
                let new_rt = final(self).rt();
                let k = sequence.raw.id;
                let c = old_rt.sequences_view()[k].context;
                &&& new_rt.sequences_view() == old_rt.sequences_view().remove(k)
                &&& new_rt.contexts_view() == node_children_moved(old_rt.contexts_view(), c, -1)
            },
            r is Ok ==> P::destroys_region_sequence(
                old(self).rt().spec_delegate(),
                final(self).rt().spec_delegate(),
                old(self).rt().sequences_view()[sequence.raw.id].node.value->0,
            ),
    {
        self.runtime.destroy_region_sequence(sequence)
    }

    /// Destroys a childless musical context after invalidating its identity.
    ///
    /// Fails with `InvalidArgument` when the context is not live and with `InvalidState`
    /// while a region sequence still belongs to it; nothing changes on failure.
    pub fn destroy_musical_context(&mut self, context: Handle<MusicalContextKind>) -> (r: Result<
        (),
        AraError,
    >)
        requires
            old(self).rt().wf(),
        ensures
            final(self).rt().wf(),
            final(self).owns_editing() == old(self).owns_editing(),
            final(self).rt().spec_session() == old(self).rt().spec_session(),
            final(self).rt().spec_generation() == old(self).rt().spec_generation(),
            final(self).rt().spec_editing() == old(self).rt().spec_editing(),
            final(self).rt().spec_next_id() == old(self).rt().spec_next_id(),
            final(self).rt().sequences_view() == old(self).rt().sequences_view(),
            final(self).rt().sources_view() == old(self).rt().sources_view(),
            final(self).rt().modifications_view() == old(self).rt().modifications_view(),
            final(self).rt().regions_view() == old(self).rt().regions_view(),
            !old(self).rt().live_context(context) ==> (r matches Err(e) && e is InvalidArgument),
            r matches Err(e) && e is InvalidArgument ==> !old(self).rt().live_context(context),
            r is Ok <==> old(self).rt().live_context(context)
                && old(self).rt().contexts_view()[context.raw.id].children == 0,
            r matches Err(e) ==> e is InvalidArgument || e is InvalidState,
            r is Err ==> final(self).rt() == old(self).rt(),
            r is Ok ==> final(self).rt().contexts_view() == old(self).rt().contexts_view().remove(context.raw.id),
            r is Ok ==> P::destroys_musical_context(
                old(self).rt().spec_delegate(),
                final(self).rt().spec_delegate(),
                old(self).rt().contexts_view()[context.raw.id].value->0,
            ),
    {
        self.runtime.destroy_musical_context(context)
    }

    /// Destroys a childless audio source after invalidating its identity.
    ///
    /// Fails with `InvalidArgument` when the source is not live and with `InvalidState` while
    /// an audio modification still belongs to it; nothing changes on failure.
    pub fn destroy_audio_source(&mut self, source: Handle<AudioSourceKind>) -> (r: Result<
        (),
        AraError,
    >)
        requires
            old(self).rt().wf(),
        ensures
            final(self).rt().wf(),
            final(self).owns_editing() == old(self).owns_editing(),
            final(self).rt().spec_session() == old(self).rt().spec_session(),
            final(self).rt().spec_generation() == old(self).rt().spec_generation(),
            final(self).rt().spec_editing() == old(self).rt().spec_editing(),
            final(self).rt().spec_next_id() == old(self).rt().spec_next_id(),
            final(self).rt().contexts_view() == old(self).rt().contexts_view(),
            final(self).rt().sequences_view() == old(self).rt().sequences_view(),
            final(self).rt().modifications_view() == old(self).rt().modifications_view(),
            final(self).rt().regions_view() == old(self).rt().regions_view(),
            !old(self).rt().live_source(source) ==> (r matches Err(e) && e is InvalidArgument),
            r matches Err(e) && e is InvalidArgument ==> !old(self).rt().live_source(source),
            r is Ok <==> old(self).rt().live_source(source)
                && old(self).rt().sources_view()[source.raw.id].children == 0,
            r matches Err(e) ==> e is InvalidArgument || e is InvalidState,
            r is Err ==> final(self).rt() == old(self).rt(),
            r is Ok ==> final(self).rt().sources_view() == old(self).rt().sources_view().remove(source.raw.id),
            r is Ok ==> P::destroys_audio_source(
                old(self).rt().spec_delegate(),
                final(self).rt().spec_delegate(),
                old(self).rt().sources_view()[source.raw.id].value->0,
            ),
    {
        self.runtime.destroy_audio_source(source)
    }

    /// Applies copied document properties during this edit.
    pub fn update_document(&mut self, properties: <P as DocumentLifecycle>::DocumentProperties) -> (r:
        Result<(), AraError>)
        requires
            old(self).rt().wf(),
        ensures
            final(self).rt().wf(),
            final(self).owns_editing() == old(self).owns_editing(),
            final(self).rt().same_objects(old(self).rt()),
            P::updates_document(
                old(self).rt().spec_delegate(),
                final(self).rt().spec_delegate(),
                old(self).rt().spec_document(),
                final(self).rt().spec_document(),
                properties,
                r,
            ),
    {
        self.runtime.update_document(properties)
    }

    /// Updates a live musical context.
    ///
    /// Fails with `InvalidArgument` when the context is not live, otherwise with whatever the
    /// delegate reports; the graph's structure never changes.
    pub fn update_musical_context(
        &mut self,
        context: Handle<MusicalContextKind>,
        properties: <P as MusicalContexts>::MusicalContextProperties,
    ) -> (r: Result<(), AraError>)
        requires
            old(self).rt().wf(),
        ensures
            final(self).rt().wf(),
            final(self).owns_editing() == old(self).owns_editing(),
            final(self).rt().same_structure(old(self).rt()),
            !old(self).rt().live_context(context) ==> (r matches Err(e) && e is InvalidArgument),
            old(self).rt().live_context(context) ==> P::updates_musical_context(
                old(self).rt().spec_delegate(),
                final(self).rt().spec_delegate(),
                old(self).rt().contexts_view()[context.raw.id].value->0,
                final(self).rt().contexts_view()[context.raw.id].value->0,
                properties,
                r,
            ),
    {
        self.runtime.update_musical_context(context, properties)
    }

    /// Applies host-originated musical-context content input.
    ///
    /// Fails with `InvalidArgument` when the context is not live, otherwise with whatever the
    /// delegate reports; the graph's structure never changes.
    pub fn update_musical_context_content(
        &mut self,
        context: Handle<MusicalContextKind>,
        range: Option<<P as MusicalContexts>::MusicalContextRange>,
        flags: crate::updates::ContentUpdateScopes,
    ) -> (r: Result<(), AraError>)
        requires
            old(self).rt().wf(),
        ensures
            final(self).rt().wf(),
            final(self).owns_editing() == old(self).owns_editing(),
            final(self).rt().same_structure(old(self).rt()),
            !old(self).rt().live_context(context) ==> (r matches Err(e) && e is InvalidArgument),
            old(self).rt().live_context(context) ==> P::updates_musical_context_content(
                old(self).rt().spec_delegate(),
                final(self).rt().spec_delegate(),
                old(self).rt().contexts_view()[context.raw.id].value->0,
                final(self).rt().contexts_view()[context.raw.id].value->0,
                range,
                flags,
                r,
            ),
    {
        self.runtime.update_musical_context_content(context, range, flags)
    }

    /// Updates a live, active audio source.
    ///
    /// Fails with `InvalidArgument` when the source is not live, with `InvalidState` when it
    /// is deactivated, otherwise with whatever the delegate reports.
    pub fn update_audio_source(
        &mut self,
        source: Handle<AudioSourceKind>,
        properties: <P as AudioSources>::AudioSourceProperties,
    ) -> (r: Result<(), AraError>)
        requires
            old(self).rt().wf(),
        ensures
            final(self).rt().wf(),
            final(self).owns_editing() == old(self).owns_editing(),
            final(self).rt().same_structure(old(self).rt()),
            !old(self).rt().live_source(source) ==> (r matches Err(e) && e is InvalidArgument),
            old(self).rt().live_source(source) && !old(self).rt().sources_view()[source.raw.id].active
                ==> (r matches Err(e) && e is InvalidState),
            old(self).rt().live_source(source) && old(self).rt().sources_view()[source.raw.id].active ==> P::updates_audio_source(
                old(self).rt().spec_delegate(),
                final(self).rt().spec_delegate(),
                old(self).rt().sources_view()[source.raw.id].value->0,
                final(self).rt().sources_view()[source.raw.id].value->0,
                properties,
                r,
            ),
    {
        self.runtime.update_audio_source(source, properties)
    }

    /// Applies host-originated audio-source content input to a live, active source.
    ///
    /// Fails with `InvalidArgument` when the source is not live, with `InvalidState` when it
    /// is deactivated, otherwise with whatever the delegate reports.
    pub fn update_audio_source_content(
        &mut self,
        source: Handle<AudioSourceKind>,
        range: Option<<P as AudioSources>::AudioSourceRange>,
        flags: crate::updates::ContentUpdateScopes,
    ) -> (r: Result<(), AraError>)
        requires
            old(self).rt().wf(),
        ensures
            final(self).rt().wf(),
            final(self).owns_editing() == old(self).owns_editing(),
            final(self).rt().same_structure(old(self).rt()),
            !old(self).rt().live_source(source) ==> (r matches Err(e) && e is InvalidArgument),
            old(self).rt().live_source(source) && !old(self).rt().sources_view()[source.raw.id].active
                ==> (r matches Err(e) && e is InvalidState),
            old(self).rt().live_source(source) && old(self).rt().sources_view()[source.raw.id].active ==> P::updates_audio_source_content(
                old(self).rt().spec_delegate(),
                final(self).rt().spec_delegate(),
                old(self).rt().sources_view()[source.raw.id].value->0,
                final(self).rt().sources_view()[source.raw.id].value->0,
                range,
                flags,
                r,
            ),
    {
        self.runtime.update_audio_source_content(source, range, flags)
    }

    /// Enables or revokes host sample access after validating source liveness.
    ///
    /// Fails with `InvalidArgument` when the source is not live, otherwise with whatever the
    /// delegate reports.
    pub fn enable_audio_source_samples_access(
        &mut self,
        source: Handle<AudioSourceKind>,
        enable: bool,
    ) -> (r: Result<(), AraError>)
        requires
            old(self).rt().wf(),
        ensures
            final(self).rt().wf(),
            final(self).owns_editing() == old(self).owns_editing(),
            final(self).rt().same_structure(old(self).rt()),
            !old(self).rt().live_source(source) ==> (r matches Err(e) && e is InvalidArgument),
            old(self).rt().live_source(source) ==> P::enables_samples_access(
                old(self).rt().spec_delegate(),
                final(self).rt().spec_delegate(),
                old(self).rt().sources_view()[source.raw.id].value->0,
                final(self).rt().sources_view()[source.raw.id].value->0,
                enable,
                r,
            ),
    {
        self.runtime.enable_audio_source_samples_access(source, enable)
    }

    /// Updates a live, active audio modification.
    ///
    /// Fails with `InvalidArgument` when the modification is not live, with `InvalidState` when
    /// it is deactivated, otherwise with whatever the delegate reports.
    pub fn update_audio_modification(
        &mut self,
        modification: Handle<AudioModificationKind>,
        properties: <P as AudioModifications>::AudioModificationProperties,
    ) -> (r: Result<(), AraError>)
        requires
            old(self).rt().wf(),
        ensures
            final(self).rt().wf(),
            final(self).owns_editing() == old(self).owns_editing(),
            final(self).rt().same_structure(old(self).rt()),
            !old(self).rt().live_modification(modification) ==> (r matches Err(e) && e is InvalidArgument),
            old(self).rt().live_modification(modification)
                && !old(self).rt().modifications_view()[modification.raw.id].node.active
                ==> (r matches Err(e) && e is InvalidState),
            old(self).rt().live_modification(modification)
                && old(self).rt().modifications_view()[modification.raw.id].node.active
                ==> P::updates_audio_modification(
                old(self).rt().spec_delegate(),
                final(self).rt().spec_delegate(),
                old(self).rt().modifications_view()[modification.raw.id].node.value->0,
                final(self).rt().modifications_view()[modification.raw.id].node.value->0,
                properties,
                r,
            ),
    {
        self.runtime.update_audio_modification(modification, properties)
    }

    /// Deactivates an audio source without destroying its identity or state.
    pub fn deactivate_audio_source(&mut self, source: Handle<AudioSourceKind>) -> (r: Result<
        (),
        AraError,
    >)
        requires
            old(self).rt().wf(),
        ensures
            final(self).rt().wf(),
            final(self).owns_editing() == old(self).owns_editing(),
            old(self).rt().has_active_modification(source) ==> (r matches Err(e) && e is InvalidState),
            !old(self).rt().has_active_modification(source) && !old(self).rt().live_source(source)
                ==> (r matches Err(e) && e is InvalidArgument),
            r is Ok ==> !final(self).rt().sources_view()[source.raw.id].active,
            r is Ok ==> old(self).rt().live_source(source) && !old(self).rt().has_active_modification(source),
            final(self).rt().same_objects_but_source_activity(old(self).rt(), source.raw.id),
            r is Err ==> final(self).rt().same_structure(old(self).rt()),
            !old(self).rt().has_active_modification(source) && old(self).rt().live_source(source)
                ==> P::deactivates_audio_source(
                old(self).rt().spec_delegate(),
                final(self).rt().spec_delegate(),
                old(self).rt().sources_view()[source.raw.id].value->0,
                final(self).rt().sources_view()[source.raw.id].value->0,
                true,
                r,
            ),
    {
        self.runtime.deactivate_audio_source(source)
    }

    /// Deactivates (`deactivated`) or reactivates an audio source for the undo history.
    ///
    /// Deactivation fails with `InvalidState` while an active modification belongs to the
    /// source; otherwise a source that is not live fails with `InvalidArgument` and the
    /// delegate's error is passed on. Only the source's activation changes on success.
    pub fn set_audio_source_deactivated(
        &mut self,
        source: Handle<AudioSourceKind>,
        deactivated: bool,
    ) -> (r: Result<(), AraError>)
        requires
            old(self).rt().wf(),
        ensures
            final(self).rt().wf(),
            final(self).owns_editing() == old(self).owns_editing(),
            deactivated && old(self).rt().has_active_modification(source) ==> (r matches Err(e) && e is InvalidState),
            !(deactivated && old(self).rt().has_active_modification(source)) && !old(self).rt().live_source(source)
                ==> (r matches Err(e) && e is InvalidArgument),
            r is Ok ==> final(self).rt().sources_view()[source.raw.id].active == !deactivated,
            r is Ok ==> old(self).rt().live_source(source) && !(deactivated && old(self).rt().has_active_modification(source)),
            final(self).rt().same_objects_but_source_activity(old(self).rt(), source.raw.id),
            r is Err ==> final(self).rt().same_structure(old(self).rt()),
            !(deactivated && old(self).rt().has_active_modification(source)) && old(self).rt().live_source(source)
                ==> P::deactivates_audio_source(
                old(self).rt().spec_delegate(),
                final(self).rt().spec_delegate(),
                old(self).rt().sources_view()[source.raw.id].value->0,
                final(self).rt().sources_view()[source.raw.id].value->0,
                deactivated,
                r,
            ),
    {
        self.runtime.set_audio_source_deactivated(source, deactivated)
    }

    /// Deactivates an audio modification without destroying its identity or state.
    pub fn deactivate_audio_modification(&mut self, modification: Handle<AudioModificationKind>) -> (r:
        Result<(), AraError>)
        requires
            old(self).rt().wf(),
        ensures
            final(self).rt().wf(),
            final(self).owns_editing() == old(self).owns_editing(),
            !old(self).rt().live_modification(modification) ==> (r matches Err(e) && e is InvalidArgument),
            old(self).rt().live_modification(modification)
                && old(self).rt().modifications_view()[modification.raw.id].node.children != 0
                ==> (r matches Err(e) && e is InvalidState),
            r is Ok ==> !final(self).rt().modifications_view()[modification.raw.id].node.active,
            final(self).rt().same_objects_but_modification_activity(old(self).rt(), modification.raw.id),
            r is Err ==> final(self).rt().same_structure(old(self).rt()),
            old(self).rt().live_modification(modification)
                && old(self).rt().modifications_view()[modification.raw.id].node.children == 0
                ==> P::deactivates_audio_modification(
                old(self).rt().spec_delegate(),
                final(self).rt().spec_delegate(),
                old(self).rt().modifications_view()[modification.raw.id].node.value->0,
                final(self).rt().modifications_view()[modification.raw.id].node.value->0,
                true,
                r,
            ),
    {
        self.runtime.deactivate_audio_modification(modification)
    }

    /// Deactivates (`deactivated`) or reactivates an audio modification for the undo history.
    ///
    /// Fails with `InvalidArgument` when the modification is not live, with `InvalidState`
    /// when deactivating while playback regions play it or reactivating under a deactivated
    /// source, and with the delegate's error; only its activation changes on success.
    pub fn set_audio_modification_deactivated(
        &mut self,
        modification: Handle<AudioModificationKind>,
        deactivated: bool,
    ) -> (r: Result<(), AraError>)
        requires
            old(self).rt().wf(),
        ensures
            final(self).rt().wf(),
            final(self).owns_editing() == old(self).owns_editing(),
            !old(self).rt().live_modification(modification) ==> (r matches Err(e) && e is InvalidArgument),
            old(self).rt().live_modification(modification) && deactivated
                && old(self).rt().modifications_view()[modification.raw.id].node.children != 0
                ==> (r matches Err(e) && e is InvalidState),
            old(self).rt().live_modification(modification) && !deactivated
                && !old(self).rt().sources_view()[old(self).rt().modifications_view()[modification.raw.id].source].active
                ==> (r matches Err(e) && e is InvalidState),
            r is Ok ==> final(self).rt().modifications_view()[modification.raw.id].node.active == !deactivated,
            final(self).rt().same_objects_but_modification_activity(old(self).rt(), modification.raw.id),
            r is Err ==> final(self).rt().same_structure(old(self).rt()),
            old(self).rt().live_modification(modification)
                && !(deactivated && old(self).rt().modifications_view()[modification.raw.id].node.children != 0)
                && !(!deactivated
                && !old(self).rt().sources_view()[old(self).rt().modifications_view()[modification.raw.id].source].active)
                ==> P::deactivates_audio_modification(
                old(self).rt().spec_delegate(),
                final(self).rt().spec_delegate(),
                old(self).rt().modifications_view()[modification.raw.id].node.value->0,
                final(self).rt().modifications_view()[modification.raw.id].node.value->0,
                deactivated,
                r,
            ),
    {
        self.runtime.set_audio_modification_deactivated(modification, deactivated)
    }

    /// Updates a live region sequence without changing its required parent edge.
    ///
    /// Fails with `InvalidArgument` when the sequence is not live or the properties name
    /// another musical context, otherwise with whatever the delegate reports.
    pub fn update_region_sequence(
        &mut self,
        sequence: Handle<RegionSequenceKind>,
        properties: RegionSequenceProperties<<P as RegionSequences>::RegionSequenceData>,
    ) -> (r: Result<(), AraError>)
        requires
            old(self).rt().wf(),
        ensures
            final(self).rt().wf(),
            final(self).owns_editing() == old(self).owns_editing(),
            final(self).rt().spec_session() == old(self).rt().spec_session(),
            final(self).rt().spec_generation() == old(self).rt().spec_generation(),
            final(self).rt().spec_editing() == old(self).rt().spec_editing(),
            final(self).rt().spec_next_id() == old(self).rt().spec_next_id(),
            final(self).rt().same_structure(old(self).rt()),
            !old(self).rt().live_sequence(sequence) ==> (r matches Err(e) && e is InvalidArgument),
            old(self).rt().live_sequence(sequence) && properties.musical_context.raw != (RawHandle {
                session: old(self).rt().spec_session(),
                id: old(self).rt().sequences_view()[sequence.raw.id].context,
            }) ==> (r matches Err(e) && e is InvalidArgument),
            old(self).rt().live_sequence(sequence) && properties.musical_context.raw == (RawHandle {
                session: old(self).rt().spec_session(),
                id: old(self).rt().sequences_view()[sequence.raw.id].context,
            }) ==> P::updates_region_sequence(
                old(self).rt().spec_delegate(),
                final(self).rt().spec_delegate(),
                old(self).rt().sequences_view()[sequence.raw.id].node.value->0,
                final(self).rt().sequences_view()[sequence.raw.id].node.value->0,
                properties,
                r,
            ),
    {
        self.runtime.update_region_sequence(sequence, properties)
    }

    /// Updates a live region sequence and moves it to the musical context its properties name.
    ///
    /// Fails with `InvalidArgument` when the context is not live, the properties name another
    /// context or the sequence is not live, otherwise with whatever the delegate reports; the
    /// sequence moves to `context` only on success.
    pub fn update_region_sequence_with_context(
        &mut self,
        sequence: Handle<RegionSequenceKind>,
        context: Handle<MusicalContextKind>,
        properties: RegionSequenceProperties<<P as RegionSequences>::RegionSequenceData>,
    ) -> (r: Result<(), AraError>)
        requires
            old(self).rt().wf(),
        ensures
            final(self).rt().wf(),
            final(self).owns_editing() == old(self).owns_editing(),
            final(self).rt().spec_session() == old(self).rt().spec_session(),
            final(self).rt().spec_generation() == old(self).rt().spec_generation(),
            final(self).rt().spec_editing() == old(self).rt().spec_editing(),
            final(self).rt().spec_next_id() == old(self).rt().spec_next_id(),
            activations_kept(final(self).rt().contexts_view(), old(self).rt().contexts_view()),
            nodes_kept_except(final(self).rt().sources_view(), old(self).rt().sources_view(), None),
            modifications_kept_except(final(self).rt().modifications_view(), old(self).rt().modifications_view(), None),
            regions_kept_except(final(self).rt().regions_view(), old(self).rt().regions_view(), None),
            sequences_kept_except(final(self).rt().sequences_view(), old(self).rt().sequences_view(), Some(sequence.raw.id)),
            !old(self).rt().live_context(context) ==> (r matches Err(e) && e is InvalidArgument),
            old(self).rt().live_context(context) && properties.musical_context.raw != context.raw
                ==> (r matches Err(e) && e is InvalidArgument),
            old(self).rt().live_context(context) && properties.musical_context.raw == context.raw
                && !old(self).rt().live_sequence(sequence) ==> (r matches Err(e) && e is InvalidArgument),
            old(self).rt().live_sequence(sequence) ==> {
                let k = sequence.raw.id;
                &&& final(self).rt().sequences_view()[k].node.active == old(self).rt().sequences_view()[k].node.active
                &&& final(self).rt().sequences_view()[k].node.children == old(self).rt().sequences_view()[k].node.children
                &&& final(self).rt().sequences_view()[k].context == if r is Ok {
                    context.raw.id
                } else {
                    old(self).rt().sequences_view()[k].context
                }
            },
            r is Ok ==> old(self).rt().live_context(context) && old(self).rt().live_sequence(sequence)
                && properties.musical_context.raw == context.raw,
            old(self).rt().live_context(context) && properties.musical_context.raw == context.raw
                && old(self).rt().live_sequence(sequence) ==> P::updates_region_sequence(
                old(self).rt().spec_delegate(),
                final(self).rt().spec_delegate(),
                old(self).rt().sequences_view()[sequence.raw.id].node.value->0,
                final(self).rt().sequences_view()[sequence.raw.id].node.value->0,
                properties,
                r,
            ),
    {
        self.runtime.update_region_sequence_with_context(sequence, context, properties)
    }

    /// Updates a playback region while preserving both parent edges.
    ///
    /// Fails with `InvalidArgument` when the region is not live or the properties name another
    /// parent, otherwise with whatever the delegate reports.
    pub fn update_playback_region(
        &mut self,
        region: Handle<PlaybackRegionKind>,
        properties: PlaybackRegionProperties<<P as PlaybackRegions>::PlaybackRegionData>,
    ) -> (r: Result<(), AraError>)
        requires
            old(self).rt().wf(),
        ensures
            final(self).rt().wf(),
            final(self).owns_editing() == old(self).owns_editing(),
            final(self).rt().spec_session() == old(self).rt().spec_session(),
            final(self).rt().spec_generation() == old(self).rt().spec_generation(),
            final(self).rt().spec_editing() == old(self).rt().spec_editing(),
            final(self).rt().spec_next_id() == old(self).rt().spec_next_id(),
            final(self).rt().same_structure(old(self).rt()),
            !old(self).rt().live_region(region) ==> (r matches Err(e) && e is InvalidArgument),
            old(self).rt().live_region(region) && !old(self).rt().region_properties_match(
                Handle::<RegionSequenceKind>::from_raw_spec(RawHandle {
                    session: old(self).rt().spec_session(),
                    id: old(self).rt().regions_view()[region.raw.id].sequence,
                }),
                properties,
            ) ==> (r matches Err(e) && e is InvalidArgument),
            old(self).rt().live_region(region) && old(self).rt().region_properties_match(
                Handle::<RegionSequenceKind>::from_raw_spec(RawHandle {
                    session: old(self).rt().spec_session(),
                    id: old(self).rt().regions_view()[region.raw.id].sequence,
                }),
                properties,
            ) ==> P::updates_playback_region(
                old(self).rt().spec_delegate(),
                final(self).rt().spec_delegate(),
                old(self).rt().regions_view()[region.raw.id].node.value->0,
                final(self).rt().regions_view()[region.raw.id].node.value->0,
                properties,
                r,
            ),
    {
        self.runtime.update_playback_region(region, properties)
    }

    /// Updates a live playback region and moves it to the region sequence given.
    ///
    /// Fails with `InvalidArgument` when the sequence is not live, the properties name another
    /// parent or the region is not live, otherwise with whatever the delegate reports; the
    /// region moves to `sequence` only on success.
    pub fn update_playback_region_with_sequence(
        &mut self,
        region: Handle<PlaybackRegionKind>,
        sequence: Handle<RegionSequenceKind>,
        properties: PlaybackRegionProperties<<P as PlaybackRegions>::PlaybackRegionData>,
    ) -> (r: Result<(), AraError>)
        requires
            old(self).rt().wf(),
        ensures
            final(self).rt().wf(),
            final(self).owns_editing() == old(self).owns_editing(),
            final(self).rt().spec_session() == old(self).rt().spec_session(),
            final(self).rt().spec_generation() == old(self).rt().spec_generation(),
            final(self).rt().spec_editing() == old(self).rt().spec_editing(),
            final(self).rt().spec_next_id() == old(self).rt().spec_next_id(),
            nodes_kept_except(final(self).rt().contexts_view(), old(self).rt().contexts_view(), None),
            nodes_kept_except(final(self).rt().sources_view(), old(self).rt().sources_view(), None),
            modifications_kept_except(final(self).rt().modifications_view(), old(self).rt().modifications_view(), None),
            final(self).rt().sequences_view().dom() == old(self).rt().sequences_view().dom(),
            forall|j: u64| #[trigger] old(self).rt().sequences_view().contains_key(j) ==> {
                &&& final(self).rt().sequences_view()[j].context == old(self).rt().sequences_view()[j].context
                &&& final(self).rt().sequences_view()[j].node.active == old(self).rt().sequences_view()[j].node.active
            },
            regions_kept_except(final(self).rt().regions_view(), old(self).rt().regions_view(), Some(region.raw.id)),
            !old(self).rt().live_sequence(sequence) ==> (r matches Err(e) && e is InvalidArgument),
            old(self).rt().live_sequence(sequence) && !old(self).rt().region_properties_match(sequence, properties)
                ==> (r matches Err(e) && e is InvalidArgument),
            old(self).rt().live_sequence(sequence) && old(self).rt().region_properties_match(sequence, properties)
                && !old(self).rt().live_region(region) ==> (r matches Err(e) && e is InvalidArgument),
            old(self).rt().live_region(region) ==> {
                let k = region.raw.id;
                &&& final(self).rt().regions_view()[k].modification == old(self).rt().regions_view()[k].modification
                &&& final(self).rt().regions_view()[k].node.active == old(self).rt().regions_view()[k].node.active
                &&& final(self).rt().regions_view()[k].node.children == old(self).rt().regions_view()[k].node.children
                &&& final(self).rt().regions_view()[k].sequence == if r is Ok {
                    sequence.raw.id
                } else {
                    old(self).rt().regions_view()[k].sequence
                }
            },
            r is Ok ==> old(self).rt().live_sequence(sequence) && old(self).rt().live_region(region)
                && old(self).rt().region_properties_match(sequence, properties),
            old(self).rt().live_sequence(sequence) && old(self).rt().region_properties_match(sequence, properties)
                && old(self).rt().live_region(region) ==> P::updates_playback_region(
                old(self).rt().spec_delegate(),
                final(self).rt().spec_delegate(),
                old(self).rt().regions_view()[region.raw.id].node.value->0,
                final(self).rt().regions_view()[region.raw.id].node.value->0,
                properties,
                r,
            ),
    {
        self.runtime.update_playback_region_with_sequence(region, sequence, properties)
    }

    /// Ends this edit session explicitly, leaving the editing state if this session entered it.
    ///
    /// Fails only when the delegate refuses to end editing.
    pub fn finish(self) -> (r: Result<(), AraError>)
        requires
            self.rt().wf(),
            self.rt().spec_editing(),
        ensures
            !self.owns_editing() ==> r is Ok && *final(self.borrowed()) == self.rt(),
            final(self.borrowed()).wf(),
            final(self.borrowed()).same_objects(self.rt()),
            final(self.borrowed()).spec_editing() == !(self.owns_editing() && r is Ok),
            self.owns_editing() ==> P::ends_editing(
                self.rt().spec_delegate(),
                final(self.borrowed()).spec_delegate(),
                self.rt().spec_document(),
                final(self.borrowed()).spec_document(),
                r,
            ),
    {
        let session = self;
        if session.owns_state {
            session.runtime.end_callback_editing()
        } else {
            Ok(())
        }
    }
}

impl<P: PluginModel> PluginRuntime<P> {
    /// Provisions and creates a musical context.
    ///
    /// The delegate receives the provisional identity; when it fails, nothing becomes live and
    /// the identity is never reused. Fails with `InvalidState` when identities are exhausted.
    pub(crate) fn create_musical_context(
        &mut self,
        properties: <P as MusicalContexts>::MusicalContextProperties,
    ) -> (r: Result<Handle<MusicalContextKind>, AraError>)
        requires
            old(self).wf(),
        ensures
            final(self).wf(),
            final(self).spec_session() == old(self).spec_session(),
            final(self).spec_generation() == old(self).spec_generation(),
            final(self).spec_editing() == old(self).spec_editing(),
            final(self).sequences_view() == old(self).sequences_view(),
            final(self).sources_view() == old(self).sources_view(),
            final(self).modifications_view() == old(self).modifications_view(),
            final(self).regions_view() == old(self).regions_view(),
            old(self).spec_next_id() == u64::MAX ==> (r matches Err(e) && e is InvalidState),
            r is Err ==> final(self).contexts_view() == old(self).contexts_view(),
            r matches Ok(h) ==> {
                &&& h.raw == (RawHandle { session: old(self).spec_session(), id: old(self).spec_next_id() })
                &&& final(self).spec_next_id() == old(self).spec_next_id() + 1
                &&& added(final(self).contexts_view(), old(self).contexts_view(), h.raw.id)
                &&& final(self).contexts_view()[h.raw.id].active
                &&& final(self).contexts_view()[h.raw.id].children == 0
            },
            old(self).spec_next_id() < u64::MAX ==> exists|
                result: Result<<P as MusicalContexts>::MusicalContext, AraError>,
            | {
                &&& #[trigger] P::creates_musical_context(
                    old(self).spec_delegate(),
                    final(self).spec_delegate(),
                    CreateContext::for_object(
                        old(self).spec_generation(),
                        RawHandle { session: old(self).spec_session(), id: old(self).spec_next_id() },
                    ),
                    properties,
                    result,
                )
                &&& result matches Err(e) ==> r == Err::<Handle<MusicalContextKind>, AraError>(e)
                &&& result matches Ok(v) ==> r is Ok && final(self).contexts_view()[old(self).spec_next_id()].value == Some(v)
            },
    {
        let raw = self.reserve_id()?;
        let handle = Handle::<MusicalContextKind>::from_raw(raw);
        let context = CreateContext::object(self.generation, raw);
        let ghost initial = self.delegate;
        let ghost handed = properties;
        let created = self.delegate.create_musical_context(&context, properties);
        let ghost outcome = created;
        proof {
            assert(P::creates_musical_context(initial, self.delegate, context, handed, outcome));
        }
        let value = match created {
            Ok(value) => value,
            Err(e) => {
                proof {
                    assert(outcome == Err::<<P as MusicalContexts>::MusicalContext, AraError>(e));
                    assert(initial == old(self).spec_delegate());
                    assert(P::creates_musical_context(
                        old(self).spec_delegate(),
                        self.spec_delegate(),
                        CreateContext::for_object(
                            old(self).spec_generation(),
                            RawHandle { session: old(self).spec_session(), id: old(self).spec_next_id() },
                        ),
                        properties,
                        outcome,
                    ));
                }
                return Err(e);
            },
        };
        let ghost after_call = self.delegate;
        let ghost before = *self;
        self.contexts.insert(raw.id, Node::committed(value));
        proof {
            let rt = *self;
            assert(!before.contexts@.contains_key(raw.id));
            assert(rt.contexts@.remove(raw.id) =~= before.contexts@);
            assert(children_in(rt.sequences@, by_context(), raw.id) =~= Set::empty());
        }
        proof {
            assert(outcome == Ok::<<P as MusicalContexts>::MusicalContext, AraError>(value));
            assert(self.spec_delegate() == after_call);
            assert(self.contexts_view()[old(self).spec_next_id()].value == Some(value));
            assert(P::creates_musical_context(
                        old(self).spec_delegate(),
                        self.spec_delegate(),
                        CreateContext::for_object(
                            old(self).spec_generation(),
                            RawHandle { session: old(self).spec_session(), id: old(self).spec_next_id() },
                        ),
                        properties,
                        outcome,
                    ));
        }
        Ok(handle)
    }

    /// Provisions a region sequence after validating its required musical context.
    ///
    /// Fails with `InvalidArgument` when the context is not live or the properties name
    /// another context, with `InvalidState` when identities are exhausted, and with the
    /// delegate's error when it rejects the sequence; nothing becomes live on failure.
    pub(crate) fn create_region_sequence(
        &mut self,
        context_handle: Handle<MusicalContextKind>,
        properties: RegionSequenceProperties<<P as RegionSequences>::RegionSequenceData>,
    ) -> (r: Result<Handle<RegionSequenceKind>, AraError>)
        requires
            old(self).wf(),
        ensures
            final(self).wf(),
            final(self).spec_session() == old(self).spec_session(),
            final(self).spec_generation() == old(self).spec_generation(),
            final(self).spec_editing() == old(self).spec_editing(),
            final(self).sources_view() == old(self).sources_view(),
            final(self).modifications_view() == old(self).modifications_view(),
            final(self).regions_view() == old(self).regions_view(),
            !old(self).live_context(context_handle) ==> (r matches Err(e) && e is InvalidArgument),
            old(self).live_context(context_handle) && properties.musical_context.raw != context_handle.raw
                ==> (r matches Err(e) && e is InvalidArgument),
            old(self).live_context(context_handle) && properties.musical_context.raw == context_handle.raw
                && old(self).spec_next_id() == u64::MAX ==> (r matches Err(e) && e is InvalidState),
            r is Err ==> final(self).contexts_view() == old(self).contexts_view()
                && final(self).sequences_view() == old(self).sequences_view(),
            r matches Ok(h) ==> {
                &&& old(self).live_context(context_handle)
                &&& properties.musical_context.raw == context_handle.raw
                &&& h.raw == (RawHandle { session: old(self).spec_session(), id: old(self).spec_next_id() })
                &&& final(self).spec_next_id() == old(self).spec_next_id() + 1
                &&& added(final(self).sequences_view(), old(self).sequences_view(), h.raw.id)
                &&& final(self).sequences_view()[h.raw.id].context == context_handle.raw.id
                &&& final(self).sequences_view()[h.raw.id].node.active
                &&& final(self).sequences_view()[h.raw.id].node.children == 0
                &&& final(self).contexts_view() == node_children_moved(old(self).contexts_view(), context_handle.raw.id, 1)
            },
            old(self).live_context(context_handle) && properties.musical_context.raw == context_handle.raw
                && old(self).spec_next_id() < u64::MAX ==> exists|
                result: Result<<P as RegionSequences>::RegionSequence, AraError>,
            | {
                &&& #[trigger] P::creates_region_sequence(
                    old(self).spec_delegate(),
                    final(self).spec_delegate(),
                    CreateContext::for_object(
                        old(self).spec_generation(),
                        RawHandle { session: old(self).spec_session(), id: old(self).spec_next_id() },
                    ),
                    properties,
                    result,
                )
                &&& result matches Err(e) ==> r == Err::<Handle<RegionSequenceKind>, AraError>(e)
                &&& result matches Ok(v) ==> r is Ok && final(self).sequences_view()[old(self).spec_next_id()].node.value == Some(v)
            },
    {
        self.check_context(context_handle)?;
        if !properties.musical_context.raw.same(&context_handle.raw) {
            return Err(
                AraError::InvalidArgument(
                    "region-sequence properties reference a different musical context",
                ),
            );
        }
        let c = context_handle.raw.id;
        if !self.contexts.get(&c).unwrap().active {
            return Err(AraError::InvalidState("musical context is deactivated"));
        }
        let raw = self.reserve_id()?;
        let handle = Handle::<RegionSequenceKind>::from_raw(raw);
        let create = CreateContext::object(self.generation, raw);
        let ghost initial = self.delegate;
        let ghost handed = properties;
        let created = self.delegate.create_region_sequence(&create, properties);
        let ghost outcome = created;
        proof {
            assert(P::creates_region_sequence(initial, self.delegate, create, handed, outcome));
        }
        let value = match created {
            Ok(value) => value,
            Err(e) => {
                proof {
                    assert(outcome == Err::<<P as RegionSequences>::RegionSequence, AraError>(e));
                    assert(initial == old(self).spec_delegate());
                    assert(P::creates_region_sequence(
                        old(self).spec_delegate(),
                        self.spec_delegate(),
                        CreateContext::for_object(
                            old(self).spec_generation(),
                            RawHandle { session: old(self).spec_session(), id: old(self).spec_next_id() },
                        ),
                        properties,
                        outcome,
                    ));
                }
                return Err(e);
            },
        };
        let ghost after_call = self.delegate;
        let ghost before = *self;
        self.sequences.insert(raw.id, RegionSequenceNode { node: Node::committed(value), context: c });
        let total = self.sequences.len();
        proof {
            let rt = *self;
            let v = rt.sequences@[raw.id];
            assert(rt.sequences@ == before.sequences@.insert(raw.id, v));
            lemma_children_insert_fresh(before.sequences@, by_context(), c, raw.id, v);
            lemma_children_finite(before.sequences@, by_context(), c);
            lemma_children_finite(rt.sequences@, by_context(), c);
            assert(before.contexts@[c].children < usize::MAX);
        }
        adjust_node(&mut self.contexts, c, true);
        proof {
            let rt = *self;
            let v = rt.sequences@[raw.id];
            assert(rt.sequences@.remove(raw.id) =~= before.sequences@);
            assert forall|k: u64| #[trigger] rt.contexts@.contains_key(k) implies rt.contexts@[k].children == children_in(rt.sequences@, by_context(), k).len() by {
                lemma_children_insert_fresh(before.sequences@, by_context(), k, raw.id, v);
            }
            assert(children_in(rt.regions@, by_sequence(), raw.id) =~= Set::empty());
            assert forall|k: u64| #[trigger] rt.sequences@.contains_key(k) implies rt.contexts@.contains_key(rt.sequences@[k].context) by {
                if k != raw.id {
                    assert(before.sequences@.contains_key(k));
                }
            }
        }
        proof {
            assert(outcome == Ok::<<P as RegionSequences>::RegionSequence, AraError>(value));
            assert(self.spec_delegate() == after_call);
            assert(self.sequences_view()[old(self).spec_next_id()].node.value == Some(value));
            assert(P::creates_region_sequence(
                        old(self).spec_delegate(),
                        self.spec_delegate(),
                        CreateContext::for_object(
                            old(self).spec_generation(),
                            RawHandle { session: old(self).spec_session(), id: old(self).spec_next_id() },
                        ),
                        properties,
                        outcome,
                    ));
        }
        Ok(handle)
    }

    /// Provisions and creates an audio source.
    ///
    /// The delegate receives the provisional identity; when it fails, nothing becomes live and
    /// the identity is never reused. Fails with `InvalidState` when identities are exhausted.
    pub(crate) fn create_audio_source(
        &mut self,
        properties: <P as AudioSources>::AudioSourceProperties,
    ) -> (r: Result<Handle<AudioSourceKind>, AraError>)
        requires
            old(self).wf(),
        ensures
            final(self).wf(),
            final(self).spec_session() == old(self).spec_session(),
            final(self).spec_generation() == old(self).spec_generation(),
            final(self).spec_editing() == old(self).spec_editing(),
            final(self).contexts_view() == old(self).contexts_view(),
            final(self).sequences_view() == old(self).sequences_view(),
            final(self).modifications_view() == old(self).modifications_view(),
            final(self).regions_view() == old(self).regions_view(),
            old(self).spec_next_id() == u64::MAX ==> (r matches Err(e) && e is InvalidState)
                && *final(self) == *old(self),
            old(self).spec_next_id() < u64::MAX ==> exists|
                result: Result<<P as AudioSources>::AudioSource, AraError>,
            | {
                &&& #[trigger] P::creates_audio_source(
                    old(self).spec_delegate(),
                    final(self).spec_delegate(),
                    CreateContext::for_object(
                        old(self).spec_generation(),
                        RawHandle { session: old(self).spec_session(), id: old(self).spec_next_id() },
                    ),
                    properties,
                    result,
                )
                &&& result matches Err(e) ==> r == Err::<Handle<AudioSourceKind>, AraError>(e)
                &&& result matches Ok(v) ==> r is Ok && final(self).sources_view()[old(self).spec_next_id()].value
                    == Some(v)
            },
            r is Err ==> final(self).sources_view() == old(self).sources_view(),
            r matches Ok(h) ==> {
                &&& h.raw == (RawHandle { session: old(self).spec_session(), id: old(self).spec_next_id() })
                &&& final(self).spec_next_id() == old(self).spec_next_id() + 1
                &&& added(final(self).sources_view(), old(self).sources_view(), h.raw.id)
                &&& final(self).sources_view()[h.raw.id].active
                &&& final(self).sources_view()[h.raw.id].children == 0
            },
    {
        let raw = self.reserve_id()?;
        let handle = Handle::<AudioSourceKind>::from_raw(raw);
        let context = CreateContext::object(self.generation, raw);
        let ghost initial = self.delegate;
        let ghost handed = properties;
        let created = self.delegate.create_audio_source(&context, properties);
        let ghost outcome = created;
        proof {
            assert(P::creates_audio_source(initial, self.delegate, context, handed, outcome));
        }
        let value = match created {
            Ok(value) => value,
            Err(e) => {
                proof {
                    assert(outcome == Err::<<P as AudioSources>::AudioSource, AraError>(e));
                    assert(context == CreateContext::for_object(
                        old(self).spec_generation(),
                        RawHandle { session: old(self).spec_session(), id: old(self).spec_next_id() },
                    ));
                    assert(initial == old(self).spec_delegate());
                    assert(handed == properties);
                    assert(P::creates_audio_source(
                        old(self).spec_delegate(),
                        self.spec_delegate(),
                        CreateContext::for_object(
                            old(self).spec_generation(),
                            RawHandle { session: old(self).spec_session(), id: old(self).spec_next_id() },
                        ),
                        properties,
                        outcome,
                    ));
                }
                return Err(e);
            },
        };
        let ghost before = *self;
        self.sources.insert(raw.id, Node::committed(value));
        proof {
            let rt = *self;
            assert(rt.sources@.remove(raw.id) =~= before.sources@);
            assert(children_in(rt.modifications@, by_source(), raw.id) =~= Set::empty());
            assert(rt.sources@[raw.id].value == Some(value));
            assert(outcome == Ok::<<P as AudioSources>::AudioSource, AraError>(value));
            assert(P::creates_audio_source(
                old(self).spec_delegate(),
                rt.spec_delegate(),
                CreateContext::for_object(
                    old(self).spec_generation(),
                    RawHandle { session: old(self).spec_session(), id: old(self).spec_next_id() },
                ),
                properties,
                outcome,
            ));
        }
        Ok(handle)
    }

    /// Provisions an audio modification under a live, active audio source.
    ///
    /// Fails with `InvalidArgument` when the source is not live, with `InvalidState` when it is
    /// deactivated or identities are exhausted, and with the delegate's error when it rejects
    /// the modification; nothing becomes live on failure.
    pub(crate) fn create_audio_modification(
        &mut self,
        source: Handle<AudioSourceKind>,
        properties: <P as AudioModifications>::AudioModificationProperties,
    ) -> (r: Result<Handle<AudioModificationKind>, AraError>)
        requires
            old(self).wf(),
        ensures
            final(self).wf(),
            final(self).spec_session() == old(self).spec_session(),
            final(self).spec_generation() == old(self).spec_generation(),
            final(self).spec_editing() == old(self).spec_editing(),
            final(self).contexts_view() == old(self).contexts_view(),
            final(self).sequences_view() == old(self).sequences_view(),
            final(self).regions_view() == old(self).regions_view(),
            !old(self).live_source(source) ==> (r matches Err(e) && e is InvalidArgument),
            old(self).live_source(source) && !old(self).sources_view()[source.raw.id].active
                ==> (r matches Err(e) && e is InvalidState),
            old(self).spec_next_id() == u64::MAX ==> r is Err,
            r is Err ==> final(self).sources_view() == old(self).sources_view()
                && final(self).modifications_view() == old(self).modifications_view(),
            r matches Ok(h) ==> {
                &&& old(self).live_source(source)
                &&& old(self).sources_view()[source.raw.id].active
                &&& h.raw == (RawHandle { session: old(self).spec_session(), id: old(self).spec_next_id() })
                &&& final(self).spec_next_id() == old(self).spec_next_id() + 1
                &&& added(final(self).modifications_view(), old(self).modifications_view(), h.raw.id)
                &&& final(self).modifications_view()[h.raw.id].source == source.raw.id
                &&& final(self).modifications_view()[h.raw.id].node.active
                &&& final(self).modifications_view()[h.raw.id].node.children == 0
                &&& final(self).sources_view() == node_children_moved(old(self).sources_view(), source.raw.id, 1)
            },
            old(self).live_source(source) && old(self).sources_view()[source.raw.id].active
                && old(self).spec_next_id() < u64::MAX ==> exists|
                result: Result<<P as AudioModifications>::AudioModification, AraError>,
            | {
                &&& #[trigger] P::creates_audio_modification(
                    old(self).spec_delegate(),
                    final(self).spec_delegate(),
                    CreateContext::for_object(
                        old(self).spec_generation(),
                        RawHandle { session: old(self).spec_session(), id: old(self).spec_next_id() },
                    ),
                    properties,
                    result,
                )
                &&& result matches Err(e) ==> r == Err::<Handle<AudioModificationKind>, AraError>(e)
                &&& result matches Ok(v) ==> r is Ok && final(self).modifications_view()[old(self).spec_next_id()].node.value == Some(v)
            },
    {
        self.check_source(source)?;
        let s = source.raw.id;
        if !self.sources.get(&s).unwrap().active {
            return Err(AraError::InvalidState("audio source is deactivated"));
        }
        let raw = self.reserve_id()?;
        let handle = Handle::<AudioModificationKind>::from_raw(raw);
        let context = CreateContext::object(self.generation, raw);
        let ghost initial = self.delegate;
        let ghost handed = properties;
        let created = self.delegate.create_audio_modification(&context, properties);
        let ghost outcome = created;
        proof {
            assert(P::creates_audio_modification(initial, self.delegate, context, handed, outcome));
        }
        let value = match created {
            Ok(value) => value,
            Err(e) => {
                proof {
                    assert(outcome == Err::<<P as AudioModifications>::AudioModification, AraError>(e));
                    assert(initial == old(self).spec_delegate());
                    assert(P::creates_audio_modification(
                        old(self).spec_delegate(),
                        self.spec_delegate(),
                        CreateContext::for_object(
                            old(self).spec_generation(),
                            RawHandle { session: old(self).spec_session(), id: old(self).spec_next_id() },
                        ),
                        properties,
                        outcome,
                    ));
                }
                return Err(e);
            },
        };
        let ghost after_call = self.delegate;
        self.commit_modification(raw, s, value);
        proof {
            assert(outcome == Ok::<<P as AudioModifications>::AudioModification, AraError>(value));
            assert(self.spec_delegate() == after_call);
            assert(self.modifications_view()[old(self).spec_next_id()].node.value == Some(value));
            assert(P::creates_audio_modification(
                        old(self).spec_delegate(),
                        self.spec_delegate(),
                        CreateContext::for_object(
                            old(self).spec_generation(),
                            RawHandle { session: old(self).spec_session(), id: old(self).spec_next_id() },
                        ),
                        properties,
                        outcome,
                    ));
        }
        Ok(handle)
    }

    fn commit_modification(
        &mut self,
        raw: RawHandle,
        s: u64,
        value: <P as AudioModifications>::AudioModification,
    )
        requires
            old(self).wf(),
            raw.session == old(self).spec_session(),
            raw.id + 1 == old(self).spec_next_id(),
            !old(self).modifications_view().contains_key(raw.id),
            old(self).sources_view().contains_key(s),
            old(self).sources_view()[s].active,
        ensures
            final(self).wf(),
            final(self).spec_session() == old(self).spec_session(),
            final(self).spec_generation() == old(self).spec_generation(),
            final(self).spec_editing() == old(self).spec_editing(),
            final(self).spec_next_id() == old(self).spec_next_id(),
            final(self).contexts_view() == old(self).contexts_view(),
            final(self).sequences_view() == old(self).sequences_view(),
            final(self).regions_view() == old(self).regions_view(),
            added(final(self).modifications_view(), old(self).modifications_view(), raw.id),
            final(self).modifications_view()[raw.id].source == s,
            final(self).modifications_view()[raw.id].node.active,
            final(self).modifications_view()[raw.id].node.children == 0,
            final(self).spec_delegate() == old(self).spec_delegate(),
            final(self).modifications_view()[raw.id].node.value == Some(value),
            final(self).sources_view() == node_children_moved(old(self).sources_view(), s, 1),
    {
        let ghost before = *self;
        self.modifications.insert(
            raw.id,
            AudioModificationNode { node: Node::committed(value), source: s },
        );
        let total = self.modifications.len();
        proof {
            let rt = *self;
            let v = rt.modifications@[raw.id];
            assert(!before.modifications@.contains_key(raw.id));
            assert(rt.modifications@ == before.modifications@.insert(raw.id, v));
            lemma_children_insert_fresh(before.modifications@, by_source(), s, raw.id, v);
            lemma_children_finite(before.modifications@, by_source(), s);
            lemma_children_finite(rt.modifications@, by_source(), s);
        }
        adjust_node(&mut self.sources, s, true);
        proof {
            let rt = *self;
            let v = rt.modifications@[raw.id];
            assert(rt.modifications@.remove(raw.id) =~= before.modifications@);
            assert forall|k: u64| #[trigger] rt.sources@.contains_key(k) implies rt.sources@[k].children == children_in(rt.modifications@, by_source(), k).len() by {
                lemma_children_insert_fresh(before.modifications@, by_source(), k, raw.id, v);
            }
            assert(children_in(rt.regions@, by_modification(), raw.id) =~= Set::empty());
            assert forall|k: u64| #[trigger] rt.modifications@.contains_key(k) implies rt.sources@.contains_key(rt.modifications@[k].source) by {
                if k != raw.id {
                    assert(before.modifications@.contains_key(k));
                }
            }
            assert forall|k: u64| #[trigger] rt.modifications@.contains_key(k) && rt.modifications@[k].node.active
                implies rt.sources@[rt.modifications@[k].source].active by {
                if k != raw.id {
                    assert(before.modifications@.contains_key(k));
                }
            }
            assert forall|k: u64| #[trigger] rt.regions@.contains_key(k)
                implies rt.modifications@[rt.regions@[k].modification].node.active by {
                assert(before.modifications@.contains_key(rt.regions@[k].modification));
            }
        }
    }

    /// Creates an independent modification by cloning a live sibling's application state.
    ///
    /// Fails with `InvalidArgument` when the sibling is not live, with `InvalidState` when its
    /// audio source is deactivated or identities are exhausted, and with the delegate's error
    /// when it rejects the clone; nothing becomes live on failure.
    pub(crate) fn clone_audio_modification(
        &mut self,
        source_modification: Handle<AudioModificationKind>,
        properties: <P as AudioModifications>::AudioModificationProperties,
    ) -> (r: Result<Handle<AudioModificationKind>, AraError>)
        requires
            old(self).wf(),
        ensures
            final(self).wf(),
            final(self).spec_session() == old(self).spec_session(),
            final(self).spec_generation() == old(self).spec_generation(),
            final(self).spec_editing() == old(self).spec_editing(),
            final(self).contexts_view() == old(self).contexts_view(),
            final(self).sequences_view() == old(self).sequences_view(),
            final(self).regions_view() == old(self).regions_view(),
            !old(self).live_modification(source_modification) ==> (r matches Err(e) && e is InvalidArgument),
            old(self).live_modification(source_modification)
                && !old(self).sources_view()[old(self).modifications_view()[source_modification.raw.id].source].active
                ==> (r matches Err(e) && e is InvalidState),
            old(self).spec_next_id() == u64::MAX ==> r is Err,
            r is Err ==> final(self).sources_view() == old(self).sources_view()
                && final(self).modifications_view() == old(self).modifications_view(),
            r matches Ok(h) ==> {
                let s = old(self).modifications_view()[source_modification.raw.id].source;
                &&& old(self).live_modification(source_modification)
                &&& old(self).sources_view()[s].active
                &&& h.raw == (RawHandle { session: old(self).spec_session(), id: old(self).spec_next_id() })
                &&& final(self).spec_next_id() == old(self).spec_next_id() + 1
                &&& added(final(self).modifications_view(), old(self).modifications_view(), h.raw.id)
                &&& final(self).modifications_view()[h.raw.id].source == s
                &&& final(self).modifications_view()[h.raw.id].node.active
                &&& final(self).modifications_view()[h.raw.id].node.children == 0
                &&& final(self).sources_view() == node_children_moved(old(self).sources_view(), s, 1)
            },
            old(self).live_modification(source_modification)
                && old(self).sources_view()[old(self).modifications_view()[source_modification.raw.id].source].active
                && old(self).spec_next_id() < u64::MAX ==> exists|
                result: Result<<P as AudioModifications>::AudioModification, AraError>,
            | {
                &&& #[trigger] P::clones_audio_modification(
                    old(self).spec_delegate(),
                    final(self).spec_delegate(),
                    CreateContext::for_object(
                        old(self).spec_generation(),
                        RawHandle { session: old(self).spec_session(), id: old(self).spec_next_id() },
                    ),
                    old(self).modifications_view()[source_modification.raw.id].node.value->0,
                    properties,
                    result,
                )
                &&& result matches Err(e) ==> r == Err::<Handle<AudioModificationKind>, AraError>(e)
                &&& result matches Ok(v) ==> r is Ok && final(self).modifications_view()[old(self).spec_next_id()].node.value
                    == Some(v)
            },
    {
        self.check_modification(source_modification)?;
        let s = self.modifications.get(&source_modification.raw.id).unwrap().source;
        if !self.sources.get(&s).unwrap().active {
            return Err(AraError::InvalidState("audio source is deactivated"));
        }
        let raw = self.reserve_id()?;
        let handle = Handle::<AudioModificationKind>::from_raw(raw);
        let context = CreateContext::object(self.generation, raw);
        let ghost initial = self.delegate;
        let ghost original_state = self.modifications@[source_modification.raw.id].node.value->0;
        let ghost handed = properties;
        let result = {
            let cloned = self.modifications.get(&source_modification.raw.id).unwrap();
            let source_value = cloned.node.value.as_ref().unwrap();
            self.delegate.clone_audio_modification(&context, source_value, properties)
        };
        let ghost outcome = result;
        proof {
            assert(P::clones_audio_modification(initial, self.delegate, context, original_state, handed, outcome));
            assert(initial == old(self).spec_delegate());
            assert(original_state == old(self).modifications_view()[source_modification.raw.id].node.value->0);
        }
        let value = match result {
            Ok(value) => value,
            Err(e) => {
                proof {
                    assert(outcome == Err::<<P as AudioModifications>::AudioModification, AraError>(e));
                    assert(P::clones_audio_modification(
                        old(self).spec_delegate(),
                        self.spec_delegate(),
                        CreateContext::for_object(
                            old(self).spec_generation(),
                            RawHandle { session: old(self).spec_session(), id: old(self).spec_next_id() },
                        ),
                        old(self).modifications_view()[source_modification.raw.id].node.value->0,
                        properties,
                        outcome,
                    ));
                }
                return Err(e);
            },
        };
        let ghost after_call = self.delegate;
        self.commit_modification(raw, s, value);
        proof {
            assert(self.spec_delegate() == after_call);
        }
        Ok(handle)
    }

    fn check_region_properties<D>(
        &self,
        sequence: Handle<RegionSequenceKind>,
        properties: &PlaybackRegionProperties<D>,
    ) -> (r: Result<(), AraError>)
        requires
            self.wf(),
            self.live_sequence(sequence),
        ensures
            r is Ok <==> self.region_properties_match(sequence, *properties),
            r matches Err(e) ==> e is InvalidArgument,
    {
        if !self.generation.is_legacy() {
            match &properties.region_sequence {
                Some(m) => {
                    if m.raw.same(&sequence.raw) {
                        return Ok(());
                    }
                },
                None => {},
            }
            Err(
                AraError::InvalidArgument(
                    "playback-region properties reference a different region sequence",
                ),
            )
        } else {
            let c = self.sequences.get(&sequence.raw.id).unwrap().context;
            let expected = RawHandle { session: self.session, id: c };
            match &properties.musical_context {
                Some(m) => {
                    if m.raw.same(&expected) {
                        return Ok(());
                    }
                },
                None => {},
            }
            Err(
                AraError::InvalidArgument(
                    "ARA 1 playback region references a different musical context",
                ),
            )
        }
    }

    /// Provisions a playback region after validating both required parent edges.
    ///
    /// Fails with `InvalidArgument` when a parent is not live or the properties name another
    /// parent, with `InvalidState` when the modification is deactivated or identities are
    /// exhausted, and with the delegate's error when it rejects the region; nothing becomes
    /// live on failure, and the delegate is not called unless every check passed.
    pub(crate) fn create_playback_region(
        &mut self,
        modification: Handle<AudioModificationKind>,
        sequence: Handle<RegionSequenceKind>,
        properties: PlaybackRegionProperties<<P as PlaybackRegions>::PlaybackRegionData>,
    ) -> (r: Result<Handle<PlaybackRegionKind>, AraError>)
        requires
            old(self).wf(),
        ensures
            final(self).wf(),
            final(self).spec_session() == old(self).spec_session(),
            final(self).spec_generation() == old(self).spec_generation(),
            final(self).spec_editing() == old(self).spec_editing(),
            final(self).contexts_view() == old(self).contexts_view(),
            final(self).sources_view() == old(self).sources_view(),
            !old(self).live_modification(modification) ==> (r matches Err(e) && e is InvalidArgument)
                && *final(self) == *old(self),
            old(self).live_modification(modification)
                && !old(self).modifications_view()[modification.raw.id].node.active
                ==> (r matches Err(e) && e is InvalidState) && *final(self) == *old(self),
            old(self).live_modification(modification)
                && old(self).modifications_view()[modification.raw.id].node.active
                && !old(self).live_sequence(sequence) ==> (r matches Err(e) && e is InvalidArgument)
                && *final(self) == *old(self),
            old(self).live_modification(modification)
                && old(self).modifications_view()[modification.raw.id].node.active
                && old(self).live_sequence(sequence)
                && !old(self).region_properties_match(sequence, properties)
                ==> (r matches Err(e) && e is InvalidArgument) && *final(self) == *old(self),
            old(self).spec_next_id() == u64::MAX ==> r is Err && *final(self) == *old(self),
            r is Err ==> final(self).sequences_view() == old(self).sequences_view()
                && final(self).modifications_view() == old(self).modifications_view()
                && final(self).regions_view() == old(self).regions_view(),
            r matches Ok(h) ==> {
                let m = modification.raw.id;
                let q = sequence.raw.id;
                &&& old(self).live_modification(modification)
                &&& old(self).modifications_view()[m].node.active
                &&& old(self).live_sequence(sequence)
                &&& old(self).region_properties_match(sequence, properties)
                &&& h.raw == (RawHandle { session: old(self).spec_session(), id: old(self).spec_next_id() })
                &&& final(self).spec_next_id() == old(self).spec_next_id() + 1
                &&& added(final(self).regions_view(), old(self).regions_view(), h.raw.id)
                &&& final(self).regions_view()[h.raw.id].modification == m
                &&& final(self).regions_view()[h.raw.id].sequence == q
                &&& final(self).modifications_view() == modification_children_moved(old(self).modifications_view(), m, 1)
                &&& final(self).sequences_view() == sequence_children_moved(old(self).sequences_view(), q, 1)
            },
            old(self).live_modification(modification)
                && old(self).modifications_view()[modification.raw.id].node.active
                && old(self).live_sequence(sequence) && old(self).region_properties_match(sequence, properties)
                && old(self).spec_next_id() < u64::MAX ==> exists|
                result: Result<<P as PlaybackRegions>::PlaybackRegion, AraError>,
            | {
                &&& #[trigger] P::creates_playback_region(
                    old(self).spec_delegate(),
                    final(self).spec_delegate(),
                    CreateContext::for_object(
                        old(self).spec_generation(),
                        RawHandle { session: old(self).spec_session(), id: old(self).spec_next_id() },
                    ),
                    properties,
                    result,
                )
                &&& result matches Err(e) ==> r == Err::<Handle<PlaybackRegionKind>, AraError>(e)
                &&& result matches Ok(v) ==> r is Ok && final(self).regions_view()[old(self).spec_next_id()].node.value == Some(v)
            },
    {
        self.check_modification(modification)?;
        let m = modification.raw.id;
        if !self.modifications.get(&m).unwrap().node.active {
            return Err(AraError::InvalidState("audio modification is deactivated"));
        }
        self.check_sequence(sequence)?;
        let q = sequence.raw.id;
        if !self.sequences.get(&q).unwrap().node.active {
            return Err(AraError::InvalidState("region sequence is deactivated"));
        }
        self.check_region_properties(sequence, &properties)?;
        let raw = self.reserve_id()?;
        let handle = Handle::<PlaybackRegionKind>::from_raw(raw);
        let context = CreateContext::object(self.generation, raw);
        let ghost initial = self.delegate;
        let ghost handed = properties;
        let created = self.delegate.create_playback_region(&context, properties);
        let ghost outcome = created;
        proof {
            assert(P::creates_playback_region(initial, self.delegate, context, handed, outcome));
        }
        let value = match created {
            Ok(value) => value,
            Err(e) => {
                proof {
                    assert(outcome == Err::<<P as PlaybackRegions>::PlaybackRegion, AraError>(e));
                    assert(initial == old(self).spec_delegate());
                    assert(P::creates_playback_region(
                        old(self).spec_delegate(),
                        self.spec_delegate(),
                        CreateContext::for_object(
                            old(self).spec_generation(),
                            RawHandle { session: old(self).spec_session(), id: old(self).spec_next_id() },
                        ),
                        properties,
                        outcome,
                    ));
                }
                return Err(e);
            },
        };
        let ghost after_call = self.delegate;
        let ghost before = *self;
        self.regions.insert(
            raw.id,
            PlaybackRegionNode { node: Node::committed(value), modification: m, sequence: q },
        );
        let total = self.regions.len();
        proof {
            let rt = *self;
            let v = rt.regions@[raw.id];
            assert(!before.regions@.contains_key(raw.id));
            assert(rt.regions@ == before.regions@.insert(raw.id, v));
            lemma_children_insert_fresh(before.regions@, by_modification(), m, raw.id, v);
            lemma_children_insert_fresh(before.regions@, by_sequence(), q, raw.id, v);
            lemma_children_finite(before.regions@, by_modification(), m);
            lemma_children_finite(rt.regions@, by_modification(), m);
            lemma_children_finite(before.regions@, by_sequence(), q);
            lemma_children_finite(rt.regions@, by_sequence(), q);
        }
        adjust_modification(&mut self.modifications, m, true);
        adjust_sequence(&mut self.sequences, q, true);
        proof {
            let rt = *self;
            let v = rt.regions@[raw.id];
            assert(rt.regions@.remove(raw.id) =~= before.regions@);
            assert forall|k: u64| #[trigger] rt.modifications@.contains_key(k) implies rt.modifications@[k].node.children == children_in(rt.regions@, by_modification(), k).len() by {
                lemma_children_insert_fresh(before.regions@, by_modification(), k, raw.id, v);
            }
            assert forall|k: u64| #[trigger] rt.sequences@.contains_key(k) implies rt.sequences@[k].node.children == children_in(rt.regions@, by_sequence(), k).len() by {
                lemma_children_insert_fresh(before.regions@, by_sequence(), k, raw.id, v);
            }
            assert forall|k: u64| #[trigger] rt.sources@.contains_key(k) implies rt.sources@[k].children == children_in(rt.modifications@, by_source(), k).len() by {
                lemma_children_same_parent(before.modifications@, by_source(), k, m, rt.modifications@[m]);
            }
            assert forall|k: u64| #[trigger] rt.contexts@.contains_key(k) implies rt.contexts@[k].children == children_in(rt.sequences@, by_context(), k).len() by {
                lemma_children_same_parent(before.sequences@, by_context(), k, q, rt.sequences@[q]);
            }
            assert forall|k: u64| #[trigger] rt.regions@.contains_key(k) implies {
                &&& rt.modifications@.contains_key(rt.regions@[k].modification)
                &&& rt.sequences@.contains_key(rt.regions@[k].sequence)
                &&& rt.modifications@[rt.regions@[k].modification].node.active
            } by {
                if k != raw.id {
                    assert(before.regions@.contains_key(k));
                }
            }
        }
        proof {
            assert(outcome == Ok::<<P as PlaybackRegions>::PlaybackRegion, AraError>(value));
            assert(self.spec_delegate() == after_call);
            assert(self.regions_view()[old(self).spec_next_id()].node.value == Some(value));
            assert(P::creates_playback_region(
                        old(self).spec_delegate(),
                        self.spec_delegate(),
                        CreateContext::for_object(
                            old(self).spec_generation(),
                            RawHandle { session: old(self).spec_session(), id: old(self).spec_next_id() },
                        ),
                        properties,
                        outcome,
                    ));
        }
        Ok(handle)
    }

    /// Destroys a playback region and decrements both parent edges.
    ///
    /// Fails with `InvalidArgument`, changing nothing, when the region is not live.
    pub(crate) fn destroy_playback_region(&mut self, region: Handle<PlaybackRegionKind>) -> (r: Result<
        (),
        AraError,
    >)
        requires
            old(self).wf(),
        ensures
            final(self).wf(),
            final(self).spec_session() == old(self).spec_session(),
            final(self).spec_generation() == old(self).spec_generation(),
            final(self).spec_editing() == old(self).spec_editing(),
            final(self).spec_next_id() == old(self).spec_next_id(),
            final(self).contexts_view() == old(self).contexts_view(),
            final(self).sources_view() == old(self).sources_view(),
            r is Ok <==> old(self).live_region(region),
            r matches Err(e) ==> e is InvalidArgument,
            r is Err ==> *final(self) == *old(self),
            r is Ok ==> {
                let old_rt = *old(self);
                let new_rt = *final(self);
                let k = region.raw.id;
                let m = old_rt.regions_view()[k].modification;
                let q = old_rt.regions_view()[k].sequence;
                &&& new_rt.regions_view() == old_rt.regions_view().remove(k)
                &&& new_rt.modifications_view() == modification_children_moved(old_rt.modifications_view(), m, -1)
                &&& new_rt.sequences_view() == sequence_children_moved(old_rt.sequences_view(), q, -1)
            },
            r is Ok ==> P::destroys_playback_region(
                old(self).spec_delegate(),
                final(self).spec_delegate(),
                old(self).regions_view()[region.raw.id].node.value->0,
            ),
    {
        self.check_region(region)?;
        let k = region.raw.id;
        let ghost before = *self;
        let removed = self.regions.remove(&k).unwrap();
        let m = removed.modification;
        let q = removed.sequence;
        proof {
            let rt = *self;
            assert(before.regions@.contains_key(k));
            lemma_children_remove(before.regions@, by_modification(), m, k);
            lemma_children_remove(before.regions@, by_sequence(), q, k);
            lemma_children_finite(before.regions@, by_modification(), m);
            lemma_children_finite(before.regions@, by_sequence(), q);
            assert(children_in(before.regions@, by_modification(), m).contains(k));
            assert(children_in(before.regions@, by_sequence(), q).contains(k));
        }
        adjust_modification(&mut self.modifications, m, false);
        adjust_sequence(&mut self.sequences, q, false);
        proof {
            let rt = *self;
            assert forall|j: u64| #[trigger] rt.modifications@.contains_key(j) implies rt.modifications@[j].node.children == children_in(rt.regions@, by_modification(), j).len() by {
                lemma_children_remove(before.regions@, by_modification(), j, k);
            }
            assert forall|j: u64| #[trigger] rt.sequences@.contains_key(j) implies rt.sequences@[j].node.children == children_in(rt.regions@, by_sequence(), j).len() by {
                lemma_children_remove(before.regions@, by_sequence(), j, k);
            }
            assert forall|j: u64| #[trigger] rt.sources@.contains_key(j) implies rt.sources@[j].children == children_in(rt.modifications@, by_source(), j).len() by {
                lemma_children_same_parent(before.modifications@, by_source(), j, m, rt.modifications@[m]);
            }
            assert forall|j: u64| #[trigger] rt.contexts@.contains_key(j) implies rt.contexts@[j].children == children_in(rt.sequences@, by_context(), j).len() by {
                lemma_children_same_parent(before.sequences@, by_context(), j, q, rt.sequences@[q]);
            }
        }
        let value = removed.node.value.unwrap();
        self.delegate.destroy_playback_region(value);
        Ok(())
    }

    /// Destroys a childless audio modification after invalidating its identity.
    ///
    /// Fails with `InvalidArgument` when the modification is not live and with `InvalidState`
    /// while a playback region still plays it; nothing changes on failure.
    pub(crate) fn destroy_audio_modification(
        &mut self,
        modification: Handle<AudioModificationKind>,
    ) -> (r: Result<(), AraError>)
        requires
            old(self).wf(),
        ensures
            final(self).wf(),
            final(self).spec_session() == old(self).spec_session(),
            final(self).spec_generation() == old(self).spec_generation(),
            final(self).spec_editing() == old(self).spec_editing(),
            final(self).spec_next_id() == old(self).spec_next_id(),
            final(self).contexts_view() == old(self).contexts_view(),
            final(self).sequences_view() == old(self).sequences_view(),
            final(self).regions_view() == old(self).regions_view(),
            !old(self).live_modification(modification) ==> (r matches Err(e) && e is InvalidArgument),
            r matches Err(e) && e is InvalidArgument ==> !old(self).live_modification(modification),
            r is Ok <==> old(self).live_modification(modification)
                && old(self).modifications_view()[modification.raw.id].node.children == 0,
            r matches Err(e) ==> e is InvalidArgument || e is InvalidState,
            r is Err ==> *final(self) == *old(self),
            r is Ok ==> {
                let old_rt = *old(self);
                let new_rt = *final(self);
                let k = modification.raw.id;
                let s = old_rt.modifications_view()[k].source;
                &&& new_rt.modifications_view() == old_rt.modifications_view().remove(k)
                &&& new_rt.sources_view() == node_children_moved(old_rt.sources_view(), s, -1)
            },
            r is Ok ==> P::destroys_audio_modification(
                old(self).spec_delegate(),
                final(self).spec_delegate(),
                old(self).modifications_view()[modification.raw.id].node.value->0,
            ),
    {
        self.check_modification(modification)?;
        let k = modification.raw.id;
        if self.modifications.get(&k).unwrap().node.children != 0 {
            return Err(AraError::InvalidState("audio modification still owns playback regions"));
        }
        let ghost before = *self;
        let removed = self.modifications.remove(&k).unwrap();
        let s = removed.source;
        proof {
            assert(before.modifications@.contains_key(k));
            lemma_children_remove(before.modifications@, by_source(), s, k);
            lemma_children_finite(before.modifications@, by_source(), s);
            assert(children_in(before.modifications@, by_source(), s).contains(k));
            assert(children_in(before.regions@, by_modification(), k) =~= Set::empty()) by {
                lemma_children_finite(before.regions@, by_modification(), k);
            }
        }
        adjust_node(&mut self.sources, s, false);
        proof {
            let rt = *self;
            assert forall|j: u64| #[trigger] rt.sources@.contains_key(j) implies rt.sources@[j].children == children_in(rt.modifications@, by_source(), j).len() by {
                lemma_children_remove(before.modifications@, by_source(), j, k);
            }
            assert forall|j: u64| #[trigger] rt.regions@.contains_key(j) implies rt.regions@[j].modification != k by {
                if rt.regions@[j].modification == k {
                    assert(children_in(before.regions@, by_modification(), k).contains(j));
                }
            }
        }
        let value = removed.node.value.unwrap();
        self.delegate.destroy_audio_modification(value);
        Ok(())
    }

    /// Destroys a childless region sequence after invalidating its identity.
    ///
    /// Fails with `InvalidArgument` when the sequence is not live and with `InvalidState`
    /// while a playback region still belongs to it; nothing changes on failure.
    pub(crate) fn destroy_region_sequence(&mut self, sequence: Handle<RegionSequenceKind>) -> (r: Result<
        (),
        AraError,
    >)
        requires
            old(self).wf(),
        ensures
            final(self).wf(),
            final(self).spec_session() == old(self).spec_session(),
            final(self).spec_generation() == old(self).spec_generation(),
            final(self).spec_editing() == old(self).spec_editing(),
            final(self).spec_next_id() == old(self).spec_next_id(),
            final(self).sources_view() == old(self).sources_view(),
            final(self).modifications_view() == old(self).modifications_view(),
            final(self).regions_view() == old(self).regions_view(),
            !old(self).live_sequence(sequence) ==> (r matches Err(e) && e is InvalidArgument),
            r matches Err(e) && e is InvalidArgument ==> !old(self).live_sequence(sequence),
            r is Ok <==> old(self).live_sequence(sequence)
                && old(self).sequences_view()[sequence.raw.id].node.children == 0,
            r matches Err(e) ==> e is InvalidArgument || e is InvalidState,
            r is Err ==> *final(self) == *old(self),
            r is Ok ==> {
                let old_rt = *old(self);
                let new_rt = *final(self);
                let k = sequence.raw.id;
                let c = old_rt.sequences_view()[k].context;
                &&& new_rt.sequences_view() == old_rt.sequences_view().remove(k)
                &&& new_rt.contexts_view() == node_children_moved(old_rt.contexts_view(), c, -1)
            },
            r is Ok ==> P::destroys_region_sequence(
                old(self).spec_delegate(),
                final(self).spec_delegate(),
                old(self).sequences_view()[sequence.raw.id].node.value->0,
            ),
    {
        self.check_sequence(sequence)?;
        let k = sequence.raw.id;
        if self.sequences.get(&k).unwrap().node.children != 0 {
            return Err(AraError::InvalidState("region sequence still owns playback regions"));
        }
        let ghost before = *self;
        let removed = self.sequences.remove(&k).unwrap();
        let c = removed.context;
        proof {
            assert(before.sequences@.contains_key(k));
            lemma_children_remove(before.sequences@, by_context(), c, k);
            lemma_children_finite(before.sequences@, by_context(), c);
            assert(children_in(before.sequences@, by_context(), c).contains(k));
            assert(children_in(before.regions@, by_sequence(), k) =~= Set::empty()) by {
                lemma_children_finite(before.regions@, by_sequence(), k);
            }
        }
        adjust_node(&mut self.contexts, c, false);
        proof {
            let rt = *self;
            assert forall|j: u64| #[trigger] rt.contexts@.contains_key(j) implies rt.contexts@[j].children == children_in(rt.sequences@, by_context(), j).len() by {
                lemma_children_remove(before.sequences@, by_context(), j, k);
            }
            assert forall|j: u64| #[trigger] rt.regions@.contains_key(j) implies rt.regions@[j].sequence != k by {
                if rt.regions@[j].sequence == k {
                    assert(children_in(before.regions@, by_sequence(), k).contains(j));
                }
            }
        }
        let value = removed.node.value.unwrap();
        self.delegate.destroy_region_sequence(value);
        Ok(())
    }

    /// Destroys a childless musical context after invalidating its identity.
    ///
    /// Fails with `InvalidArgument` when the context is not live and with `InvalidState`
    /// while a region sequence still belongs to it; nothing changes on failure.
    pub(crate) fn destroy_musical_context(&mut self, context: Handle<MusicalContextKind>) -> (r: Result<
        (),
        AraError,
    >)
        requires
            old(self).wf(),
        ensures
            final(self).wf(),
            final(self).spec_session() == old(self).spec_session(),
            final(self).spec_generation() == old(self).spec_generation(),
            final(self).spec_editing() == old(self).spec_editing(),
            final(self).spec_next_id() == old(self).spec_next_id(),
            final(self).sequences_view() == old(self).sequences_view(),
            final(self).sources_view() == old(self).sources_view(),
            final(self).modifications_view() == old(self).modifications_view(),
            final(self).regions_view() == old(self).regions_view(),
            !old(self).live_context(context) ==> (r matches Err(e) && e is InvalidArgument),
            r matches Err(e) && e is InvalidArgument ==> !old(self).live_context(context),
            r is Ok <==> old(self).live_context(context)
                && old(self).contexts_view()[context.raw.id].children == 0,
            r matches Err(e) ==> e is InvalidArgument || e is InvalidState,
            r is Err ==> *final(self) == *old(self),
            r is Ok ==> final(self).contexts_view() == old(self).contexts_view().remove(context.raw.id),
            r is Ok ==> P::destroys_musical_context(
                old(self).spec_delegate(),
                final(self).spec_delegate(),
                old(self).contexts_view()[context.raw.id].value->0,
            ),
    {
        self.check_context(context)?;
        let k = context.raw.id;
        if self.contexts.get(&k).unwrap().children != 0 {
            return Err(AraError::InvalidState("musical context still owns region sequences"));
        }
        let ghost before = *self;
        let removed = self.contexts.remove(&k).unwrap();
        proof {
            let rt = *self;
            assert(before.contexts@.contains_key(k));
            lemma_children_finite(before.sequences@, by_context(), k);
            assert forall|j: u64| #[trigger] rt.sequences@.contains_key(j) implies rt.sequences@[j].context != k by {
                if rt.sequences@[j].context == k {
                    assert(children_in(before.sequences@, by_context(), k).contains(j));
                }
            }
        }
        let value = removed.value.unwrap();
        self.delegate.destroy_musical_context(value);
        Ok(())
    }

    /// Destroys a childless audio source after invalidating its identity.
    ///
    /// Fails with `InvalidArgument` when the source is not live and with `InvalidState` while
    /// an audio modification still belongs to it; nothing changes on failure.
    pub(crate) fn destroy_audio_source(&mut self, source: Handle<AudioSourceKind>) -> (r: Result<
        (),
        AraError,
    >)
        requires
            old(self).wf(),
        ensures
            final(self).wf(),
            final(self).spec_session() == old(self).spec_session(),
            final(self).spec_generation() == old(self).spec_generation(),
            final(self).spec_editing() == old(self).spec_editing(),
            final(self).spec_next_id() == old(self).spec_next_id(),
            final(self).contexts_view() == old(self).contexts_view(),
            final(self).sequences_view() == old(self).sequences_view(),
            final(self).modifications_view() == old(self).modifications_view(),
            final(self).regions_view() == old(self).regions_view(),
            !old(self).live_source(source) ==> (r matches Err(e) && e is InvalidArgument),
            r matches Err(e) && e is InvalidArgument ==> !old(self).live_source(source),
            r is Ok <==> old(self).live_source(source)
                && old(self).sources_view()[source.raw.id].children == 0,
            r matches Err(e) ==> e is InvalidArgument || e is InvalidState,
            r is Err ==> *final(self) == *old(self),
            r is Ok ==> final(self).sources_view() == old(self).sources_view().remove(source.raw.id),
            r is Ok ==> P::destroys_audio_source(
                old(self).spec_delegate(),
                final(self).spec_delegate(),
                old(self).sources_view()[source.raw.id].value->0,
            ),
    {
        self.check_source(source)?;
        let k = source.raw.id;
        if self.sources.get(&k).unwrap().children != 0 {
            return Err(AraError::InvalidState("audio source still owns audio modifications"));
        }
        let ghost before = *self;
        let removed = self.sources.remove(&k).unwrap();
        proof {
            let rt = *self;
            assert(before.sources@.contains_key(k));
            lemma_children_finite(before.modifications@, by_source(), k);
            assert forall|j: u64| #[trigger] rt.modifications@.contains_key(j) implies rt.modifications@[j].source != k by {
                if rt.modifications@[j].source == k {
                    assert(children_in(before.modifications@, by_source(), k).contains(j));
                }
            }
        }
        let value = removed.value.unwrap();
        self.delegate.destroy_audio_source(value);
        Ok(())
    }

    /// Applies copied document properties during this edit.
    pub(crate) fn update_document(&mut self, properties: <P as DocumentLifecycle>::DocumentProperties) -> (r:
        Result<(), AraError>)
        requires
            old(self).wf(),
        ensures
            final(self).wf(),
            final(self).same_objects(*old(self)),
            final(self).spec_editing() == old(self).spec_editing(),
            P::updates_document(
                old(self).spec_delegate(),
                final(self).spec_delegate(),
                old(self).spec_document(),
                final(self).spec_document(),
                properties,
                r,
            ),
    {
        match self.document.as_mut() {
            Some(document) => self.delegate.update_document(document, properties),
            None => Err(AraError::InvalidState("document has been destroyed")),
        }
    }

    /// Updates a live musical context.
    ///
    /// Fails with `InvalidArgument` when the context is not live, otherwise with whatever the
    /// delegate reports; the graph's structure never changes.
    pub(crate) fn update_musical_context(
        &mut self,
        context: Handle<MusicalContextKind>,
        properties: <P as MusicalContexts>::MusicalContextProperties,
    ) -> (r: Result<(), AraError>)
        requires
            old(self).wf(),
        ensures
            final(self).wf(),
            final(self).same_structure(*old(self)),
            !old(self).live_context(context) ==> (r matches Err(e) && e is InvalidArgument)
                && *final(self) == *old(self),
            old(self).live_context(context) ==> P::updates_musical_context(
                old(self).spec_delegate(),
                final(self).spec_delegate(),
                old(self).contexts_view()[context.raw.id].value->0,
                final(self).contexts_view()[context.raw.id].value->0,
                properties,
                r,
            ),
    {
        self.check_context(context)?;
        let k = context.raw.id;
        let ghost before = *self;
        let mut node = self.contexts.remove(&k).unwrap();
        let r = self.delegate.update_musical_context(node.live_value(), properties);
        self.contexts.insert(k, node);
        proof {
            assert(self.contexts@ =~= before.contexts@.insert(k, self.contexts@[k]));
            self.lemma_context_value_changed(before, k);
        }
        r
    }

    /// Applies host-originated musical-context content input.
    ///
    /// Fails with `InvalidArgument` when the context is not live, otherwise with whatever the
    /// delegate reports; the graph's structure never changes.
    pub(crate) fn update_musical_context_content(
        &mut self,
        context: Handle<MusicalContextKind>,
        range: Option<<P as MusicalContexts>::MusicalContextRange>,
        flags: crate::updates::ContentUpdateScopes,
    ) -> (r: Result<(), AraError>)
        requires
            old(self).wf(),
        ensures
            final(self).wf(),
            final(self).same_structure(*old(self)),
            !old(self).live_context(context) ==> (r matches Err(e) && e is InvalidArgument)
                && *final(self) == *old(self),
            old(self).live_context(context) ==> P::updates_musical_context_content(
                old(self).spec_delegate(),
                final(self).spec_delegate(),
                old(self).contexts_view()[context.raw.id].value->0,
                final(self).contexts_view()[context.raw.id].value->0,
                range,
                flags,
                r,
            ),
    {
        self.check_context(context)?;
        let k = context.raw.id;
        let ghost before = *self;
        let mut node = self.contexts.remove(&k).unwrap();
        let r = self.delegate.update_musical_context_content(
            node.live_value(),
            range,
            flags,
        );
        self.contexts.insert(k, node);
        proof {
            assert(self.contexts@ =~= before.contexts@.insert(k, self.contexts@[k]));
            self.lemma_context_value_changed(before, k);
        }
        r
    }

    proof fn lemma_context_value_changed(&self, before: PluginRuntime<P>, k: u64)
        requires
            before.wf(),
            before.contexts@.contains_key(k),
            self.contexts@ == before.contexts@.insert(k, self.contexts@[k]),
            self.contexts@[k].active == before.contexts@[k].active,
            self.contexts@[k].children == before.contexts@[k].children,
            self.contexts@[k].value is Some,
            self.sequences@ == before.sequences@,
            self.sources@ == before.sources@,
            self.modifications@ == before.modifications@,
            self.regions@ == before.regions@,
            self.session == before.session,
            self.generation == before.generation,
            self.editing == before.editing,
            self.next_id == before.next_id,
            self.document is Some,
        ensures
            self.wf(),
            self.same_structure(before),
    {
        let rt = *self;
        assert(rt.contexts@.dom() =~= before.contexts@.dom());
    }

    /// Updates a live, active audio source.
    ///
    /// Fails with `InvalidArgument` when the source is not live, with `InvalidState` when it
    /// is deactivated, otherwise with whatever the delegate reports.
    pub(crate) fn update_audio_source(
        &mut self,
        source: Handle<AudioSourceKind>,
        properties: <P as AudioSources>::AudioSourceProperties,
    ) -> (r: Result<(), AraError>)
        requires
            old(self).wf(),
        ensures
            final(self).wf(),
            final(self).same_structure(*old(self)),
            !old(self).live_source(source) ==> (r matches Err(e) && e is InvalidArgument),
            old(self).live_source(source) && !old(self).sources_view()[source.raw.id].active
                ==> (r matches Err(e) && e is InvalidState)
                && *final(self) == *old(self),
            !old(self).live_source(source) ==> *final(self) == *old(self),
            old(self).live_source(source) && old(self).sources_view()[source.raw.id].active ==> P::updates_audio_source(
                old(self).spec_delegate(),
                final(self).spec_delegate(),
                old(self).sources_view()[source.raw.id].value->0,
                final(self).sources_view()[source.raw.id].value->0,
                properties,
                r,
            ),
    {
        self.check_source(source)?;
        let k = source.raw.id;
        if !self.sources.get(&k).unwrap().active {
            return Err(AraError::InvalidState("audio source is deactivated"));
        }
        let ghost before = *self;
        let mut node = self.sources.remove(&k).unwrap();
        let r = self.delegate.update_audio_source(node.live_value(), properties);
        self.sources.insert(k, node);
        proof {
            assert(self.sources@ =~= before.sources@.insert(k, self.sources@[k]));
            self.lemma_source_value_changed(before, k);
        }
        r
    }

    /// Applies host-originated audio-source content input to a live, active source.
    ///
    /// Fails with `InvalidArgument` when the source is not live, with `InvalidState` when it
    /// is deactivated, otherwise with whatever the delegate reports.
    pub(crate) fn update_audio_source_content(
        &mut self,
        source: Handle<AudioSourceKind>,
        range: Option<<P as AudioSources>::AudioSourceRange>,
        flags: crate::updates::ContentUpdateScopes,
    ) -> (r: Result<(), AraError>)
        requires
            old(self).wf(),
        ensures
            final(self).wf(),
            final(self).same_structure(*old(self)),
            !old(self).live_source(source) ==> (r matches Err(e) && e is InvalidArgument),
            old(self).live_source(source) && !old(self).sources_view()[source.raw.id].active
                ==> (r matches Err(e) && e is InvalidState)
                && *final(self) == *old(self),
            !old(self).live_source(source) ==> *final(self) == *old(self),
            old(self).live_source(source) && old(self).sources_view()[source.raw.id].active ==> P::updates_audio_source_content(
                old(self).spec_delegate(),
                final(self).spec_delegate(),
                old(self).sources_view()[source.raw.id].value->0,
                final(self).sources_view()[source.raw.id].value->0,
                range,
                flags,
                r,
            ),
    {
        self.check_source(source)?;
        let k = source.raw.id;
        if !self.sources.get(&k).unwrap().active {
            return Err(AraError::InvalidState("audio source is deactivated"));
        }
        let ghost before = *self;
        let mut node = self.sources.remove(&k).unwrap();
        let r = self.delegate.update_audio_source_content(node.live_value(), range, flags);
        self.sources.insert(k, node);
        proof {
            assert(self.sources@ =~= before.sources@.insert(k, self.sources@[k]));
            self.lemma_source_value_changed(before, k);
        }
        r
    }

    /// Enables or revokes host sample access after validating source liveness.
    ///
    /// Fails with `InvalidArgument` when the source is not live, otherwise with whatever the
    /// delegate reports.
    pub(crate) fn enable_audio_source_samples_access(
        &mut self,
        source: Handle<AudioSourceKind>,
        enable: bool,
    ) -> (r: Result<(), AraError>)
        requires
            old(self).wf(),
        ensures
            final(self).wf(),
            final(self).same_structure(*old(self)),
            !old(self).live_source(source) ==> (r matches Err(e) && e is InvalidArgument),
            old(self).live_source(source) ==> P::enables_samples_access(
                old(self).spec_delegate(),
                final(self).spec_delegate(),
                old(self).sources_view()[source.raw.id].value->0,
                final(self).sources_view()[source.raw.id].value->0,
                enable,
                r,
            ),
    {
        self.check_source(source)?;
        let k = source.raw.id;
        let ghost before = *self;
        let mut node = self.sources.remove(&k).unwrap();
        let r = self.delegate.enable_audio_source_samples_access(node.live_value(), enable);
        self.sources.insert(k, node);
        proof {
            assert(self.sources@ =~= before.sources@.insert(k, self.sources@[k]));
            self.lemma_source_value_changed(before, k);
        }
        r
    }

    /// Updates a live, active audio modification.
    ///
    /// Fails with `InvalidArgument` when the modification is not live, with `InvalidState` when
    /// it is deactivated, otherwise with whatever the delegate reports.
    pub(crate) fn update_audio_modification(
        &mut self,
        modification: Handle<AudioModificationKind>,
        properties: <P as AudioModifications>::AudioModificationProperties,
    ) -> (r: Result<(), AraError>)
        requires
            old(self).wf(),
        ensures
            final(self).wf(),
            final(self).same_structure(*old(self)),
            !old(self).live_modification(modification) ==> (r matches Err(e) && e is InvalidArgument),
            old(self).live_modification(modification)
                && !old(self).modifications_view()[modification.raw.id].node.active
                ==> (r matches Err(e) && e is InvalidState)
                && *final(self) == *old(self),
            !old(self).live_modification(modification) ==> *final(self) == *old(self),
            old(self).live_modification(modification)
                && old(self).modifications_view()[modification.raw.id].node.active
                ==> P::updates_audio_modification(
                old(self).spec_delegate(),
                final(self).spec_delegate(),
                old(self).modifications_view()[modification.raw.id].node.value->0,
                final(self).modifications_view()[modification.raw.id].node.value->0,
                properties,
                r,
            ),
    {
        self.check_modification(modification)?;
        let k = modification.raw.id;
        if !self.modifications.get(&k).unwrap().node.active {
            return Err(AraError::InvalidState("audio modification is deactivated"));
        }
        let ghost before = *self;
        let mut node = self.modifications.remove(&k).unwrap();
        let r = self.delegate.update_audio_modification(node.node.live_value(), properties);
        self.modifications.insert(k, node);
        proof {
            let rt = *self;
            assert(rt.modifications@ =~= before.modifications@.insert(k, rt.modifications@[k]));
            assert(rt.modifications@.dom() =~= before.modifications@.dom());
            assert forall|j: u64| #[trigger] rt.sources@.contains_key(j) implies rt.sources@[j].children == children_in(rt.modifications@, by_source(), j).len() by {
                lemma_children_same_parent(before.modifications@, by_source(), j, k, rt.modifications@[k]);
            }
        }
        r
    }

    proof fn lemma_source_value_changed(&self, before: PluginRuntime<P>, k: u64)
        requires
            before.wf(),
            before.sources@.contains_key(k),
            self.sources@ == before.sources@.insert(k, self.sources@[k]),
            self.sources@[k].active == before.sources@[k].active,
            self.sources@[k].children == before.sources@[k].children,
            self.sources@[k].value is Some,
            self.contexts@ == before.contexts@,
            self.sequences@ == before.sequences@,
            self.modifications@ == before.modifications@,
            self.regions@ == before.regions@,
            self.session == before.session,
            self.generation == before.generation,
            self.editing == before.editing,
            self.next_id == before.next_id,
            self.document is Some,
        ensures
            self.wf(),
            self.same_structure(before),
    {
        let rt = *self;
        assert(rt.sources@.dom() =~= before.sources@.dom());
    }

    /// Deactivates an audio source without destroying its identity or state.
    pub(crate) fn deactivate_audio_source(&mut self, source: Handle<AudioSourceKind>) -> (r: Result<
        (),
        AraError,
    >)
        requires
            old(self).wf(),
        ensures
            final(self).wf(),
            old(self).has_active_modification(source) ==> (r matches Err(e) && e is InvalidState),
            !old(self).has_active_modification(source) && !old(self).live_source(source)
                ==> (r matches Err(e) && e is InvalidArgument),
            r is Ok ==> !final(self).sources_view()[source.raw.id].active,
            r is Ok ==> old(self).live_source(source) && !old(self).has_active_modification(source),
            final(self).same_objects_but_source_activity(*old(self), source.raw.id),
            r is Err ==> final(self).same_structure(*old(self)),
            !old(self).has_active_modification(source) && old(self).live_source(source)
                ==> P::deactivates_audio_source(
                old(self).spec_delegate(),
                final(self).spec_delegate(),
                old(self).sources_view()[source.raw.id].value->0,
                final(self).sources_view()[source.raw.id].value->0,
                true,
                r,
            ),
    {
        self.set_audio_source_deactivated(source, true)
    }

    /// Deactivates (`deactivated`) or reactivates an audio source for the undo history.
    ///
    /// Deactivation fails with `InvalidState` while an active modification belongs to the
    /// source; otherwise a source that is not live fails with `InvalidArgument` and the
    /// delegate's error is passed on. Only the source's activation changes on success.
    pub(crate) fn set_audio_source_deactivated(
        &mut self,
        source: Handle<AudioSourceKind>,
        deactivated: bool,
    ) -> (r: Result<(), AraError>)
        requires
            old(self).wf(),
        ensures
            final(self).wf(),
            deactivated && old(self).has_active_modification(source) ==> (r matches Err(e) && e is InvalidState),
            !(deactivated && old(self).has_active_modification(source)) && !old(self).live_source(source)
                ==> (r matches Err(e) && e is InvalidArgument),
            r is Ok ==> final(self).sources_view()[source.raw.id].active == !deactivated,
            r is Ok ==> old(self).live_source(source) && !(deactivated && old(self).has_active_modification(source)),
            final(self).same_objects_but_source_activity(*old(self), source.raw.id),
            r is Err ==> final(self).same_structure(*old(self)),
            !(deactivated && old(self).has_active_modification(source)) && old(self).live_source(source)
                ==> P::deactivates_audio_source(
                old(self).spec_delegate(),
                final(self).spec_delegate(),
                old(self).sources_view()[source.raw.id].value->0,
                final(self).sources_view()[source.raw.id].value->0,
                deactivated,
                r,
            ),
    {
        if deactivated && self.source_has_active_modification(source) {
            return Err(AraError::InvalidState("audio source still owns an active audio modification"));
        }
        self.check_source(source)?;
        let k = source.raw.id;
        let ghost before = *self;
        let mut node = self.sources.remove(&k).unwrap();
        let r = self.delegate.deactivate_audio_source(node.live_value(), deactivated);
        if r.is_ok() {
            node.active = !deactivated;
        }
        self.sources.insert(k, node);
        proof {
            let rt = *self;
            assert(rt.sources@ =~= before.sources@.insert(k, rt.sources@[k]));
            assert(rt.sources@.dom() =~= before.sources@.dom());
            if deactivated && r is Ok {
                assert forall|j: u64| #[trigger] rt.modifications@.contains_key(j) && rt.modifications@[j].node.active
                    implies rt.sources@[rt.modifications@[j].source].active by {
                    if rt.modifications@[j].source == k {
                        assert(before.has_active_modification(source));
                    }
                }
            }
        }
        r
    }

    /// Deactivates an audio modification without destroying its identity or state.
    pub(crate) fn deactivate_audio_modification(&mut self, modification: Handle<AudioModificationKind>) -> (r:
        Result<(), AraError>)
        requires
            old(self).wf(),
        ensures
            final(self).wf(),
            !old(self).live_modification(modification) ==> (r matches Err(e) && e is InvalidArgument),
            old(self).live_modification(modification)
                && old(self).modifications_view()[modification.raw.id].node.children != 0
                ==> (r matches Err(e) && e is InvalidState),
            r is Ok ==> !final(self).modifications_view()[modification.raw.id].node.active,
            final(self).same_objects_but_modification_activity(*old(self), modification.raw.id),
            r is Err ==> final(self).same_structure(*old(self)),
            old(self).live_modification(modification)
                && old(self).modifications_view()[modification.raw.id].node.children == 0
                ==> P::deactivates_audio_modification(
                old(self).spec_delegate(),
                final(self).spec_delegate(),
                old(self).modifications_view()[modification.raw.id].node.value->0,
                final(self).modifications_view()[modification.raw.id].node.value->0,
                true,
                r,
            ),
    {
        self.set_audio_modification_deactivated(modification, true)
    }

    /// Deactivates (`deactivated`) or reactivates an audio modification for the undo history.
    ///
    /// Fails with `InvalidArgument` when the modification is not live, with `InvalidState`
    /// when deactivating while playback regions play it or reactivating under a deactivated
    /// source, and with the delegate's error; only its activation changes on success.
    pub(crate) fn set_audio_modification_deactivated(
        &mut self,
        modification: Handle<AudioModificationKind>,
        deactivated: bool,
    ) -> (r: Result<(), AraError>)
        requires
            old(self).wf(),
        ensures
            final(self).wf(),
            !old(self).live_modification(modification) ==> (r matches Err(e) && e is InvalidArgument),
            old(self).live_modification(modification) && deactivated
                && old(self).modifications_view()[modification.raw.id].node.children != 0
                ==> (r matches Err(e) && e is InvalidState),
            old(self).live_modification(modification) && !deactivated
                && !old(self).sources_view()[old(self).modifications_view()[modification.raw.id].source].active
                ==> (r matches Err(e) && e is InvalidState),
            r is Ok ==> final(self).modifications_view()[modification.raw.id].node.active == !deactivated,
            final(self).same_objects_but_modification_activity(*old(self), modification.raw.id),
            r is Err ==> final(self).same_structure(*old(self)),
            old(self).live_modification(modification)
                && !(deactivated && old(self).modifications_view()[modification.raw.id].node.children != 0)
                && !(!deactivated
                && !old(self).sources_view()[old(self).modifications_view()[modification.raw.id].source].active)
                ==> P::deactivates_audio_modification(
                old(self).spec_delegate(),
                final(self).spec_delegate(),
                old(self).modifications_view()[modification.raw.id].node.value->0,
                final(self).modifications_view()[modification.raw.id].node.value->0,
                deactivated,
                r,
            ),
    {
        self.check_modification(modification)?;
        let k = modification.raw.id;
        let ghost before = *self;
        let s = self.modifications.get(&k).unwrap().source;
        if deactivated && self.modifications.get(&k).unwrap().node.children != 0 {
            return Err(AraError::InvalidState("audio modification still owns playback regions"));
        }
        if !deactivated && !self.sources.get(&s).unwrap().active {
            return Err(
                AraError::InvalidState("audio modification cannot reactivate before its audio source"),
            );
        }
        let mut node = self.modifications.remove(&k).unwrap();
        let r = self.delegate.deactivate_audio_modification(node.node.live_value(), deactivated);
        if r.is_ok() {
            node.node.active = !deactivated;
        }
        self.modifications.insert(k, node);
        proof {
            let rt = *self;
            assert(rt.modifications@ =~= before.modifications@.insert(k, rt.modifications@[k]));
            assert(rt.modifications@.dom() =~= before.modifications@.dom());
            assert forall|j: u64| #[trigger] rt.sources@.contains_key(j) implies rt.sources@[j].children == children_in(rt.modifications@, by_source(), j).len() by {
                lemma_children_same_parent(before.modifications@, by_source(), j, k, rt.modifications@[k]);
            }
            if deactivated && r is Ok {
                lemma_children_finite(before.regions@, by_modification(), k);
                assert forall|j: u64| #[trigger] rt.regions@.contains_key(j)
                    implies rt.modifications@[rt.regions@[j].modification].node.active by {
                    if rt.regions@[j].modification == k {
                        assert(children_in(before.regions@, by_modification(), k).contains(j));
                    }
                }
            }
        }
        r
    }

    /// Updates a live region sequence without changing its required parent edge.
    ///
    /// Fails with `InvalidArgument` when the sequence is not live or the properties name
    /// another musical context, otherwise with whatever the delegate reports.
    pub(crate) fn update_region_sequence(
        &mut self,
        sequence: Handle<RegionSequenceKind>,
        properties: RegionSequenceProperties<<P as RegionSequences>::RegionSequenceData>,
    ) -> (r: Result<(), AraError>)
        requires
            old(self).wf(),
        ensures
            final(self).wf(),
            final(self).spec_session() == old(self).spec_session(),
            final(self).spec_generation() == old(self).spec_generation(),
            final(self).spec_editing() == old(self).spec_editing(),
            final(self).spec_next_id() == old(self).spec_next_id(),
            final(self).same_structure(*old(self)),
            !old(self).live_sequence(sequence) ==> (r matches Err(e) && e is InvalidArgument),
            old(self).live_sequence(sequence) && properties.musical_context.raw != (RawHandle {
                session: old(self).spec_session(),
                id: old(self).sequences_view()[sequence.raw.id].context,
            }) ==> (r matches Err(e) && e is InvalidArgument),
            old(self).live_sequence(sequence) && properties.musical_context.raw == (RawHandle {
                session: old(self).spec_session(),
                id: old(self).sequences_view()[sequence.raw.id].context,
            }) ==> P::updates_region_sequence(
                old(self).spec_delegate(),
                final(self).spec_delegate(),
                old(self).sequences_view()[sequence.raw.id].node.value->0,
                final(self).sequences_view()[sequence.raw.id].node.value->0,
                properties,
                r,
            ),
    {
        self.check_sequence(sequence)?;
        let c = self.sequences.get(&sequence.raw.id).unwrap().context;
        let context = Handle::<MusicalContextKind>::from_raw(RawHandle { session: self.session, id: c });
        let r = self.update_region_sequence_with_context(sequence, context, properties);
        proof {
            let new_rt = self;
            let old_rt = *old(self);
            assert forall|j: u64| #[trigger] old_rt.contexts_view().contains_key(j)
                implies new_rt.contexts_view()[j].children == old_rt.contexts_view()[j].children by {
                lemma_children_same_links(new_rt.sequences_view(), old_rt.sequences_view(), by_context(), j);
            }
        }
        r
    }

    /// Updates a live region sequence and moves it to the musical context its properties name.
    ///
    /// Fails with `InvalidArgument` when the context is not live, the properties name another
    /// context or the sequence is not live, otherwise with whatever the delegate reports; the
    /// sequence moves to `context` only on success.
    pub(crate) fn update_region_sequence_with_context(
        &mut self,
        sequence: Handle<RegionSequenceKind>,
        context: Handle<MusicalContextKind>,
        properties: RegionSequenceProperties<<P as RegionSequences>::RegionSequenceData>,
    ) -> (r: Result<(), AraError>)
        requires
            old(self).wf(),
        ensures
            final(self).wf(),
            final(self).spec_session() == old(self).spec_session(),
            final(self).spec_generation() == old(self).spec_generation(),
            final(self).spec_editing() == old(self).spec_editing(),
            final(self).spec_next_id() == old(self).spec_next_id(),
            activations_kept(final(self).contexts_view(), old(self).contexts_view()),
            nodes_kept_except(final(self).sources_view(), old(self).sources_view(), None),
            modifications_kept_except(final(self).modifications_view(), old(self).modifications_view(), None),
            regions_kept_except(final(self).regions_view(), old(self).regions_view(), None),
            sequences_kept_except(final(self).sequences_view(), old(self).sequences_view(), Some(sequence.raw.id)),
            !old(self).live_context(context) ==> (r matches Err(e) && e is InvalidArgument),
            old(self).live_context(context) && properties.musical_context.raw != context.raw
                ==> (r matches Err(e) && e is InvalidArgument),
            old(self).live_context(context) && properties.musical_context.raw == context.raw
                && !old(self).live_sequence(sequence) ==> (r matches Err(e) && e is InvalidArgument),
            old(self).live_sequence(sequence) ==> {
                let k = sequence.raw.id;
                &&& final(self).sequences_view()[k].node.active == old(self).sequences_view()[k].node.active
                &&& final(self).sequences_view()[k].node.children == old(self).sequences_view()[k].node.children
                &&& final(self).sequences_view()[k].context == if r is Ok {
                    context.raw.id
                } else {
                    old(self).sequences_view()[k].context
                }
            },
            r is Ok ==> old(self).live_context(context) && old(self).live_sequence(sequence)
                && properties.musical_context.raw == context.raw,
            old(self).live_context(context) && properties.musical_context.raw == context.raw
                && old(self).live_sequence(sequence) ==> P::updates_region_sequence(
                old(self).spec_delegate(),
                final(self).spec_delegate(),
                old(self).sequences_view()[sequence.raw.id].node.value->0,
                final(self).sequences_view()[sequence.raw.id].node.value->0,
                properties,
                r,
            ),
    {
        self.check_context(context)?;
        if !properties.musical_context.raw.same(&context.raw) {
            return Err(
                AraError::InvalidArgument(
                    "region-sequence properties reference a different musical context",
                ),
            );
        }
        self.check_sequence(sequence)?;
        let k = sequence.raw.id;
        let c = context.raw.id;
        let ghost before = *self;
        let mut node = self.sequences.remove(&k).unwrap();
        let previous = node.context;
        let ghost delegate_before = self.delegate;
        let ghost state_before = node.node.value->0;
        let ghost handed = properties;
        let r = self.delegate.update_region_sequence(node.node.live_value(), properties);
        let ghost state_after = node.node.value->0;
        proof {
            assert(P::updates_region_sequence(delegate_before, self.delegate, state_before, state_after, handed, r));
            assert(state_before == old(self).sequences_view()[sequence.raw.id].node.value->0);
        }
        if r.is_err() {
            self.sequences.insert(k, node);
            proof {
                let rt = *self;
                assert(rt.sequences@ =~= before.sequences@.insert(k, rt.sequences@[k]));
                assert(rt.sequences@.dom() =~= before.sequences@.dom());
                assert forall|j: u64| #[trigger] rt.contexts@.contains_key(j) implies rt.contexts@[j].children == children_in(rt.sequences@, by_context(), j).len() by {
                    lemma_children_same_parent(before.sequences@, by_context(), j, k, rt.sequences@[k]);
                }
                assert forall|j: u64| #[trigger] rt.sequences@.contains_key(j) implies rt.sequences@[j].node.children == children_in(rt.regions@, by_sequence(), j).len() by {}
            }
            return r;
        }
        node.context = c;
        self.sequences.insert(k, node);
        let total = self.sequences.len();
        proof {
            let rt = *self;
            assert(rt.sequences@ =~= before.sequences@.insert(k, rt.sequences@[k]));
            assert(rt.sequences@.dom() =~= before.sequences@.dom());
            lemma_children_finite(rt.sequences@, by_context(), c);
            lemma_children_finite(before.sequences@, by_context(), c);
            lemma_children_finite(before.sequences@, by_context(), previous);
            lemma_children_reparent(before.sequences@, by_context(), c, k, rt.sequences@[k]);
            lemma_children_reparent(before.sequences@, by_context(), previous, k, rt.sequences@[k]);
            assert(children_in(before.sequences@, by_context(), previous).contains(k));
        }
        if previous != c {
            adjust_node(&mut self.contexts, previous, false);
            adjust_node(&mut self.contexts, c, true);
        }
        proof {
            let rt = *self;
            if previous != c {
                assert forall|j: u64| #[trigger] rt.contexts@.contains_key(j) implies rt.contexts@[j].children == children_in(rt.sequences@, by_context(), j).len() by {
                    lemma_children_reparent(before.sequences@, by_context(), j, k, rt.sequences@[k]);
                }
            } else {
                assert forall|j: u64| #[trigger] rt.contexts@.contains_key(j) implies rt.contexts@[j].children == children_in(rt.sequences@, by_context(), j).len() by {
                    lemma_children_same_parent(before.sequences@, by_context(), j, k, rt.sequences@[k]);
                }
            }
            assert(rt.contexts@.dom() =~= before.contexts@.dom());
            assert(rt.sequences@[k].node.value->0 == state_after);
        }
        r
    }

    /// Updates a playback region while preserving both parent edges.
    ///
    /// Fails with `InvalidArgument` when the region is not live or the properties name another
    /// parent, otherwise with whatever the delegate reports.
    pub(crate) fn update_playback_region(
        &mut self,
        region: Handle<PlaybackRegionKind>,
        properties: PlaybackRegionProperties<<P as PlaybackRegions>::PlaybackRegionData>,
    ) -> (r: Result<(), AraError>)
        requires
            old(self).wf(),
        ensures
            final(self).wf(),
            final(self).spec_session() == old(self).spec_session(),
            final(self).spec_generation() == old(self).spec_generation(),
            final(self).spec_editing() == old(self).spec_editing(),
            final(self).spec_next_id() == old(self).spec_next_id(),
            final(self).same_structure(*old(self)),
            !old(self).live_region(region) ==> (r matches Err(e) && e is InvalidArgument),
            old(self).live_region(region) && !old(self).region_properties_match(
                Handle::<RegionSequenceKind>::from_raw_spec(RawHandle {
                    session: old(self).spec_session(),
                    id: old(self).regions_view()[region.raw.id].sequence,
                }),
                properties,
            ) ==> (r matches Err(e) && e is InvalidArgument),
            old(self).live_region(region) && old(self).region_properties_match(
                Handle::<RegionSequenceKind>::from_raw_spec(RawHandle {
                    session: old(self).spec_session(),
                    id: old(self).regions_view()[region.raw.id].sequence,
                }),
                properties,
            ) ==> P::updates_playback_region(
                old(self).spec_delegate(),
                final(self).spec_delegate(),
                old(self).regions_view()[region.raw.id].node.value->0,
                final(self).regions_view()[region.raw.id].node.value->0,
                properties,
                r,
            ),
    {
        self.check_region(region)?;
        let q = self.regions.get(&region.raw.id).unwrap().sequence;
        let sequence = Handle::<RegionSequenceKind>::from_raw(RawHandle { session: self.session, id: q });
        let r = self.update_playback_region_with_sequence(region, sequence, properties);
        proof {
            let new_rt = self;
            let old_rt = *old(self);
            assert forall|j: u64| #[trigger] old_rt.sequences_view().contains_key(j)
                implies new_rt.sequences_view()[j].node.children == old_rt.sequences_view()[j].node.children by {
                lemma_children_same_links(new_rt.regions_view(), old_rt.regions_view(), by_sequence(), j);
            }
        }
        r
    }

    /// Updates a live playback region and moves it to the region sequence given.
    ///
    /// Fails with `InvalidArgument` when the sequence is not live, the properties name another
    /// parent or the region is not live, otherwise with whatever the delegate reports; the
    /// region moves to `sequence` only on success.
    pub(crate) fn update_playback_region_with_sequence(
        &mut self,
        region: Handle<PlaybackRegionKind>,
        sequence: Handle<RegionSequenceKind>,
        properties: PlaybackRegionProperties<<P as PlaybackRegions>::PlaybackRegionData>,
    ) -> (r: Result<(), AraError>)
        requires
            old(self).wf(),
        ensures
            final(self).wf(),
            final(self).spec_session() == old(self).spec_session(),
            final(self).spec_generation() == old(self).spec_generation(),
            final(self).spec_editing() == old(self).spec_editing(),
            final(self).spec_next_id() == old(self).spec_next_id(),
            nodes_kept_except(final(self).contexts_view(), old(self).contexts_view(), None),
            nodes_kept_except(final(self).sources_view(), old(self).sources_view(), None),
            modifications_kept_except(final(self).modifications_view(), old(self).modifications_view(), None),
            final(self).sequences_view().dom() == old(self).sequences_view().dom(),
            forall|j: u64| #[trigger] old(self).sequences_view().contains_key(j) ==> {
                &&& final(self).sequences_view()[j].context == old(self).sequences_view()[j].context
                &&& final(self).sequences_view()[j].node.active == old(self).sequences_view()[j].node.active
            },
            regions_kept_except(final(self).regions_view(), old(self).regions_view(), Some(region.raw.id)),
            !old(self).live_sequence(sequence) ==> (r matches Err(e) && e is InvalidArgument)
                && *final(self) == *old(self),
            old(self).live_sequence(sequence) && !old(self).region_properties_match(sequence, properties)
                ==> (r matches Err(e) && e is InvalidArgument) && *final(self) == *old(self),
            old(self).live_sequence(sequence) && old(self).region_properties_match(sequence, properties)
                && !old(self).live_region(region) ==> (r matches Err(e) && e is InvalidArgument)
                && *final(self) == *old(self),
            old(self).live_region(region) ==> {
                let k = region.raw.id;
                &&& final(self).regions_view()[k].modification == old(self).regions_view()[k].modification
                &&& final(self).regions_view()[k].node.active == old(self).regions_view()[k].node.active
                &&& final(self).regions_view()[k].node.children == old(self).regions_view()[k].node.children
                &&& final(self).regions_view()[k].sequence == if r is Ok {
                    sequence.raw.id
                } else {
                    old(self).regions_view()[k].sequence
                }
            },
            r is Ok ==> old(self).live_sequence(sequence) && old(self).live_region(region)
                && old(self).region_properties_match(sequence, properties),
            old(self).live_sequence(sequence) && old(self).region_properties_match(sequence, properties)
                && old(self).live_region(region) ==> P::updates_playback_region(
                old(self).spec_delegate(),
                final(self).spec_delegate(),
                old(self).regions_view()[region.raw.id].node.value->0,
                final(self).regions_view()[region.raw.id].node.value->0,
                properties,
                r,
            ),
    {
        self.check_sequence(sequence)?;
        self.check_region_properties(sequence, &properties)?;
        self.check_region(region)?;
        let k = region.raw.id;
        let q = sequence.raw.id;
        let ghost before = *self;
        let mut node = self.regions.remove(&k).unwrap();
        let previous = node.sequence;
        let ghost delegate_before = self.delegate;
        let ghost state_before = node.node.value->0;
        let ghost handed = properties;
        let r = self.delegate.update_playback_region(node.node.live_value(), properties);
        let ghost state_after = node.node.value->0;
        proof {
            assert(P::updates_playback_region(delegate_before, self.delegate, state_before, state_after, handed, r));
            assert(state_before == old(self).regions_view()[region.raw.id].node.value->0);
        }
        if r.is_err() {
            self.regions.insert(k, node);
            proof {
                let rt = *self;
                assert(rt.regions@ =~= before.regions@.insert(k, rt.regions@[k]));
                assert(rt.regions@.dom() =~= before.regions@.dom());
                assert forall|j: u64| #[trigger] rt.sequences@.contains_key(j) implies rt.sequences@[j].node.children == children_in(rt.regions@, by_sequence(), j).len() by {
                    lemma_children_same_parent(before.regions@, by_sequence(), j, k, rt.regions@[k]);
                }
                assert forall|j: u64| #[trigger] rt.modifications@.contains_key(j) implies rt.modifications@[j].node.children == children_in(rt.regions@, by_modification(), j).len() by {
                    lemma_children_same_parent(before.regions@, by_modification(), j, k, rt.regions@[k]);
                }
            }
            return r;
        }
        node.sequence = q;
        self.regions.insert(k, node);
        let total = self.regions.len();
        proof {
            let rt = *self;
            assert(rt.regions@ =~= before.regions@.insert(k, rt.regions@[k]));
            assert(rt.regions@.dom() =~= before.regions@.dom());
            lemma_children_finite(rt.regions@, by_sequence(), q);
            lemma_children_finite(before.regions@, by_sequence(), q);
            lemma_children_finite(before.regions@, by_sequence(), previous);
            lemma_children_reparent(before.regions@, by_sequence(), q, k, rt.regions@[k]);
            lemma_children_reparent(before.regions@, by_sequence(), previous, k, rt.regions@[k]);
            assert(children_in(before.regions@, by_sequence(), previous).contains(k));
        }
        if previous != q {
            adjust_sequence(&mut self.sequences, previous, false);
            adjust_sequence(&mut self.sequences, q, true);
        }
        proof {
            let rt = *self;
            assert(rt.sequences@.dom() =~= before.sequences@.dom());
            if previous != q {
                assert forall|j: u64| #[trigger] rt.sequences@.contains_key(j) implies rt.sequences@[j].node.children == children_in(rt.regions@, by_sequence(), j).len() by {
                    lemma_children_reparent(before.regions@, by_sequence(), j, k, rt.regions@[k]);
                }
                assert forall|j: u64| #[trigger] rt.contexts@.contains_key(j) implies rt.contexts@[j].children == children_in(rt.sequences@, by_context(), j).len() by {
                    lemma_children_same_links(rt.sequences@, before.sequences@, by_context(), j);
                }
            } else {
                assert forall|j: u64| #[trigger] rt.sequences@.contains_key(j) implies rt.sequences@[j].node.children == children_in(rt.regions@, by_sequence(), j).len() by {
                    lemma_children_same_parent(before.regions@, by_sequence(), j, k, rt.regions@[k]);
                }
            }
            assert forall|j: u64| #[trigger] rt.modifications@.contains_key(j) implies rt.modifications@[j].node.children == children_in(rt.regions@, by_modification(), j).len() by {
                lemma_children_same_parent(before.regions@, by_modification(), j, k, rt.regions@[k]);
            }
            assert(rt.sequences@.dom() =~= before.sequences@.dom());
            assert(rt.regions@[k].node.value->0 == state_after);
        }
        r
    }
}

/// Only an active modification holds its audio source active: a live source none of whose
/// modifications is active may be deactivated, however many deactivated modifications it has,
/// and a source with an active modification may not.
pub proof fn only_active_modifications_block_source_deactivation<P: PluginModel>(
    rt: PluginRuntime<P>,
    source: Handle<AudioSourceKind>,
)
    requires
        rt.wf(),
        rt.live_source(source),
    ensures
        (forall|k: u64| #[trigger] rt.modifications_view().contains_key(k)
            && rt.modifications_view()[k].source == source.raw.id ==> !rt.modifications_view()[k].node.active)
            ==> !rt.has_active_modification(source),
        forall|k: u64| #[trigger] rt.modifications_view().contains_key(k)
            && rt.modifications_view()[k].source == source.raw.id && rt.modifications_view()[k].node.active
            ==> rt.has_active_modification(source),
{
    assert(source.raw.session == rt.spec_session());
}

/// Every live identity of a well-formed runtime was issued before its next identity, and
/// identity zero is never live; since every creation is handed `spec_next_id` and advances it,
/// an identity is never reused.
pub proof fn live_identities_precede_next<P: PluginModel>(rt: PluginRuntime<P>, k: u64)
    requires
        rt.wf(),
        rt.contexts_view().contains_key(k) || rt.sequences_view().contains_key(k)
            || rt.sources_view().contains_key(k) || rt.modifications_view().contains_key(k)
            || rt.regions_view().contains_key(k),
    ensures
        0 < k < rt.spec_next_id(),
{
}

/// Destroying a playback region undoes creating it: the graph after `create_playback_region`
/// of modification `m` in sequence `q` followed by `destroy_playback_region` of the new region
/// equals the graph before.
#[verifier::spinoff_prover]
pub proof fn region_destruction_undoes_creation<P: PluginModel>(
    before: PluginRuntime<P>,
    created: PluginRuntime<P>,
    after: PluginRuntime<P>,
    region: u64,
    m: u64,
    q: u64,
)
    requires
        before.wf(),
        before.modifications_view().contains_key(m),
        before.sequences_view().contains_key(q),
        created.wf(),
        added(created.regions_view(), before.regions_view(), region),
        created.regions_view()[region].modification == m,
        created.regions_view()[region].sequence == q,
        created.modifications_view() == modification_children_moved(before.modifications_view(), m, 1),
        created.sequences_view() == sequence_children_moved(before.sequences_view(), q, 1),
        created.contexts_view() == before.contexts_view(),
        created.sources_view() == before.sources_view(),
        after.regions_view() == created.regions_view().remove(region),
        after.modifications_view() == modification_children_moved(created.modifications_view(), m, -1),
        after.sequences_view() == sequence_children_moved(created.sequences_view(), q, -1),
        after.contexts_view() == created.contexts_view(),
        after.sources_view() == created.sources_view(),
    ensures
        after.contexts_view() == before.contexts_view(),
        after.sequences_view() == before.sequences_view(),
        after.sources_view() == before.sources_view(),
        after.modifications_view() == before.modifications_view(),
        after.regions_view() == before.regions_view(),
{
    let v = created.regions_view()[region];
    assert(created.regions_view() =~= before.regions_view().insert(region, v));
    lemma_children_insert_fresh(before.regions_view(), by_modification(), m, region, v);
    lemma_children_insert_fresh(before.regions_view(), by_sequence(), q, region, v);
    lemma_children_finite(before.regions_view(), by_modification(), m);
    lemma_children_finite(before.regions_view(), by_sequence(), q);
    assert(after.modifications_view() =~= before.modifications_view());
    assert(after.sequences_view() =~= before.sequences_view());
}

/// Destroying an audio modification undoes creating it: the graph after
/// `create_audio_modification` of source `s` followed by `destroy_audio_modification` of the new
/// modification equals the graph before.
#[verifier::spinoff_prover]
pub proof fn modification_destruction_undoes_creation<P: PluginModel>(
    before: PluginRuntime<P>,
    created: PluginRuntime<P>,
    after: PluginRuntime<P>,
    modification: u64,
    s: u64,
)
    requires
        before.wf(),
        before.sources_view().contains_key(s),
        created.wf(),
        added(created.modifications_view(), before.modifications_view(), modification),
        created.modifications_view()[modification].source == s,
        created.sources_view() == node_children_moved(before.sources_view(), s, 1),
        created.contexts_view() == before.contexts_view(),
        created.sequences_view() == before.sequences_view(),
        created.regions_view() == before.regions_view(),
        after.modifications_view() == created.modifications_view().remove(modification),
        after.sources_view() == node_children_moved(created.sources_view(), s, -1),
        after.contexts_view() == created.contexts_view(),
        after.sequences_view() == created.sequences_view(),
        after.regions_view() == created.regions_view(),
    ensures
        after.contexts_view() == before.contexts_view(),
        after.sequences_view() == before.sequences_view(),
        after.sources_view() == before.sources_view(),
        after.modifications_view() == before.modifications_view(),
        after.regions_view() == before.regions_view(),
{
    let v = created.modifications_view()[modification];
    assert(created.modifications_view() =~= before.modifications_view().insert(modification, v));
    lemma_children_insert_fresh(before.modifications_view(), by_source(), s, modification, v);
    lemma_children_finite(before.modifications_view(), by_source(), s);
    assert(after.sources_view() =~= before.sources_view());
}

/// `m` with the child count of record `k` moved by `delta`.
pub open spec fn node_children_moved<T>(m: Map<u64, Node<T>>, k: u64, delta: int) -> Map<u64, Node<T>> {
    m.insert(k, Node { children: (m[k].children + delta) as usize, ..m[k] })
}

/// `m` with the child count of sequence `k` moved by `delta`.
pub open spec fn sequence_children_moved<T>(
    m: Map<u64, RegionSequenceNode<T>>,
    k: u64,
    delta: int,
) -> Map<u64, RegionSequenceNode<T>> {
    m.insert(
        k,
        RegionSequenceNode { node: Node { children: (m[k].node.children + delta) as usize, ..m[k].node }, ..m[k] },
    )
}

/// `m` with the child count of modification `k` moved by `delta`.
pub open spec fn modification_children_moved<T>(
    m: Map<u64, AudioModificationNode<T>>,
    k: u64,
    delta: int,
) -> Map<u64, AudioModificationNode<T>> {
    m.insert(
        k,
        AudioModificationNode {
            node: Node { children: (m[k].node.children + delta) as usize, ..m[k].node },
            ..m[k]
        },
    )
}

/// Same identities, and every record except `x` keeps its activation and child count.
pub open spec fn nodes_kept_except<T>(new: Map<u64, Node<T>>, old: Map<u64, Node<T>>, x: Option<u64>) -> bool {
    &&& new.dom() == old.dom()
    &&& forall|k: u64|
        #[trigger] old.contains_key(k) && x != Some(k) ==> new[k].active == old[k].active
            && new[k].children == old[k].children
}

/// Same identities, and every record except `x` keeps its parent, activation and child count.
pub open spec fn sequences_kept_except<T>(
    new: Map<u64, RegionSequenceNode<T>>,
    old: Map<u64, RegionSequenceNode<T>>,
    x: Option<u64>,
) -> bool {
    &&& new.dom() == old.dom()
    &&& forall|k: u64|
        #[trigger] old.contains_key(k) && x != Some(k) ==> new[k].context == old[k].context
            && new[k].node.active == old[k].node.active && new[k].node.children == old[k].node.children
}

/// Same identities, and every record except `x` keeps its parent, activation and child count.
pub open spec fn modifications_kept_except<T>(
    new: Map<u64, AudioModificationNode<T>>,
    old: Map<u64, AudioModificationNode<T>>,
    x: Option<u64>,
) -> bool {
    &&& new.dom() == old.dom()
    &&& forall|k: u64|
        #[trigger] old.contains_key(k) && x != Some(k) ==> new[k].source == old[k].source
            && new[k].node.active == old[k].node.active && new[k].node.children == old[k].node.children
}

/// Same identities, and every record except `x` keeps its parents, activation and child count.
pub open spec fn regions_kept_except<T>(
    new: Map<u64, PlaybackRegionNode<T>>,
    old: Map<u64, PlaybackRegionNode<T>>,
    x: Option<u64>,
) -> bool {
    &&& new.dom() == old.dom()
    &&& forall|k: u64|
        #[trigger] old.contains_key(k) && x != Some(k) ==> new[k].modification == old[k].modification
            && new[k].sequence == old[k].sequence && new[k].node.active == old[k].node.active
            && new[k].node.children == old[k].node.children
}

/// Same identities with the same activations; child counts may differ.
pub open spec fn activations_kept<T>(new: Map<u64, Node<T>>, old: Map<u64, Node<T>>) -> bool {
    &&& new.dom() == old.dom()
    &&& forall|k: u64| #[trigger] old.contains_key(k) ==> new[k].active == old[k].active
}

/// `new` is `old` with the fresh identity `k` added.
pub open spec fn added<V>(new: Map<u64, V>, old: Map<u64, V>, k: u64) -> bool {
    !old.contains_key(k) && new.contains_key(k) && new.remove(k) == old
}

fn adjust_node<T>(m: &mut HashMap<u64, Node<T>>, k: u64, increase: bool)
    requires
        old(m)@.contains_key(k),
        increase ==> old(m)@[k].children < usize::MAX,
        !increase ==> old(m)@[k].children > 0,
    ensures
        final(m)@ == old(m)@.insert(
            k,
            Node {
                children: if increase {
                    (old(m)@[k].children + 1) as usize
                } else {
                    (old(m)@[k].children - 1) as usize
                },
                ..old(m)@[k]
            },
        ),
{
    let mut n = m.remove(&k).unwrap();
    if increase {
        n.children = n.children + 1;
    } else {
        n.children = n.children - 1;
    }
    m.insert(k, n);
    proof {
        assert(m@ =~= old(m)@.insert(k, m@[k]));
    }
}

fn adjust_sequence<T>(m: &mut HashMap<u64, RegionSequenceNode<T>>, k: u64, increase: bool)
    requires
        old(m)@.contains_key(k),
        increase ==> old(m)@[k].node.children < usize::MAX,
        !increase ==> old(m)@[k].node.children > 0,
    ensures
        final(m)@ == old(m)@.insert(
            k,
            RegionSequenceNode {
                node: Node {
                    children: if increase {
                        (old(m)@[k].node.children + 1) as usize
                    } else {
                        (old(m)@[k].node.children - 1) as usize
                    },
                    ..old(m)@[k].node
                },
                ..old(m)@[k]
            },
        ),
{
    let mut n = m.remove(&k).unwrap();
    if increase {
        n.node.children = n.node.children + 1;
    } else {
        n.node.children = n.node.children - 1;
    }
    m.insert(k, n);
    proof {
        assert(m@ =~= old(m)@.insert(k, m@[k]));
    }
}

fn adjust_modification<T>(m: &mut HashMap<u64, AudioModificationNode<T>>, k: u64, increase: bool)
    requires
        old(m)@.contains_key(k),
        increase ==> old(m)@[k].node.children < usize::MAX,
        !increase ==> old(m)@[k].node.children > 0,
    ensures
        final(m)@ == old(m)@.insert(
            k,
            AudioModificationNode {
                node: Node {
                    children: if increase {
                        (old(m)@[k].node.children + 1) as usize
                    } else {
                        (old(m)@[k].node.children - 1) as usize
                    },
                    ..old(m)@[k].node
                },
                ..old(m)@[k]
            },
        ),
{
    let mut n = m.remove(&k).unwrap();
    if increase {
        n.node.children = n.node.children + 1;
    } else {
        n.node.children = n.node.children - 1;
    }
    m.insert(k, n);
    proof {
        assert(m@ =~= old(m)@.insert(k, m@[k]));
    }
}

/// Error for a handle that does not name a live object of this document.
fn not_live(kind: &'static str) -> (e: AraError)
    ensures
        e == AraError::InvalidArgument(kind),
{
    AraError::InvalidArgument(kind)
}

impl<P: PluginModel> PluginRuntime<P> {
    /// Creates application document state and empty typed registries.
    ///
    /// `session` identifies this document runtime: handles it issues carry it, and handles
    /// carrying another session are rejected. Fails with `Unsupported` when the generation
    /// cannot be negotiated on `target`, and with the delegate's error when it rejects the
    /// document.
    pub fn new(
        delegate: P,
        generation: ApiGeneration,
        properties: <P as DocumentLifecycle>::DocumentProperties,
        session: u64,
        target: TargetArch,
    ) -> (r: Result<PluginRuntime<P>, AraError>)
        ensures
            !generation.spec_supported_on(target) ==> (r matches Err(e) && e is Unsupported),
            r is Ok ==> generation.spec_supported_on(target),
            generation.spec_supported_on(target) ==> exists|
                after: P,
                result: Result<<P as DocumentLifecycle>::Document, AraError>,
            | {
                &&& #[trigger] P::creates_document(
                    delegate,
                    after,
                    CreateContext::for_document(generation),
                    properties,
                    result,
                )
                &&& result matches Err(e) ==> r == Err::<PluginRuntime<P>, AraError>(e)
                &&& result matches Ok(d) ==> (r matches Ok(rt) && rt.spec_delegate() == after
                    && rt.spec_document() == d)
            },
            r matches Ok(rt) ==> {
                &&& rt.wf()
                &&& rt.live_total() == 0
                &&& rt.is_empty_graph()
                &&& !rt.spec_editing()
                &&& rt.spec_session() == session
                &&& rt.spec_generation() == generation
                &&& rt.spec_next_id() == 1
            },
    {
        if !generation.supported_on(target) {
            return Err(AraError::Unsupported("runtime generation is unavailable on this target"));
        }
        let mut delegate = delegate;
        let ghost initial = delegate;
        let ghost handed = properties;
        let created = delegate.create_document(&CreateContext::document(generation), properties);
        let document = match created {
            Ok(document) => document,
            Err(e) => {
                proof {
                    assert(P::creates_document(
                        initial,
                        delegate,
                        CreateContext::for_document(generation),
                        handed,
                        created,
                    ));
                }
                return Err(e);
            },
        };
        let rt = PluginRuntime {
            delegate,
            generation,
            session,
            next_id: 1,
            document: Some(document),
            contexts: HashMap::new(),
            sequences: HashMap::new(),
            sources: HashMap::new(),
            modifications: HashMap::new(),
            regions: HashMap::new(),
            editing: false,
        };
        proof {
            assert(rt.contexts@ =~= Map::empty());
            assert(rt.sequences@ =~= Map::empty());
            assert(rt.sources@ =~= Map::empty());
            assert(rt.modifications@ =~= Map::empty());
            assert(rt.regions@ =~= Map::empty());
            assert(P::creates_document(
                initial,
                rt.delegate,
                CreateContext::for_document(generation),
                handed,
                created,
            ));
        }
        Ok(rt)
    }

    /// Borrows the application delegate for observation.
    pub fn delegate(&self) -> (d: &P)
        ensures
            *d == self.spec_delegate(),
    {
        &self.delegate
    }

    /// Returns the negotiated API generation.
    pub fn generation(&self) -> (g: ApiGeneration)
        ensures
            g == self.spec_generation(),
    {
        self.generation
    }

    /// Returns the identity of this document runtime.
    pub fn session(&self) -> (s: u64)
        ensures
            s == self.spec_session(),
    {
        self.session
    }

    /// Returns whether an editing session is active.
    pub fn is_editing(&self) -> (b: bool)
        ensures
            b == self.spec_editing(),
    {
        self.editing
    }

    /// Begins an exclusive graph mutation session.
    ///
    /// Fails with `InvalidState` while another session is active, and with the delegate's
    /// error when it refuses to begin; the graph is unchanged either way.
    pub fn begin_editing(&mut self) -> (r: Result<EditSession<'_, P>, AraError>)
        requires
            old(self).wf(),
        ensures
            old(self).spec_editing() ==> (r matches Err(e) && e is InvalidState),
            r matches Ok(s) ==> {
                &&& !old(self).spec_editing()
                &&& s.rt().spec_editing()
                &&& s.rt().same_objects(*old(self))
                &&& s.rt().wf()
                &&& s.owns_editing()
                &&& *final(self) == *final(s.borrowed())
            },
            r is Err ==> final(self).same_objects(*old(self)) && final(self).spec_editing()
                == old(self).spec_editing() && final(self).wf(),
            r matches Err(e) ==> !old(self).spec_editing() ==> P::begins_editing(
                old(self).spec_delegate(),
                final(self).spec_delegate(),
                old(self).spec_document(),
                final(self).spec_document(),
                Err(e),
            ),
            r matches Ok(s) ==> exists|answer: Result<(), AraError>| answer is Ok && #[trigger] P::begins_editing(
                old(self).spec_delegate(),
                s.rt().spec_delegate(),
                old(self).spec_document(),
                s.rt().spec_document(),
                answer,
            ),
    {
        let entered = self.begin_callback_editing();
        let ghost answer = entered;
        match entered {
            Ok(unit) => {
                proof {
                    assert(answer == Ok::<(), AraError>(unit));
                    assert(P::begins_editing(
                        old(self).spec_delegate(),
                        self.spec_delegate(),
                        old(self).spec_document(),
                        self.spec_document(),
                        answer,
                    ));
                }
                Ok(EditSession { runtime: self, owns_state: true })
            },
            Err(e) => Err(e),
        }
    }

    /// Enters the editing state for a host `beginEditing` call.
    ///
    /// Fails with `InvalidState` while editing, and with the delegate's error when it refuses.
    pub fn begin_callback_editing(&mut self) -> (r: Result<(), AraError>)
        requires
            old(self).wf(),
        ensures
            final(self).wf(),
            final(self).same_objects(*old(self)),
            old(self).spec_editing() ==> (r matches Err(e) && e is InvalidState) && *final(self) == *old(self),
            r is Ok ==> !old(self).spec_editing() && final(self).spec_editing(),
            r is Err ==> final(self).spec_editing() == old(self).spec_editing(),
            !old(self).spec_editing() ==> P::begins_editing(
                old(self).spec_delegate(),
                final(self).spec_delegate(),
                old(self).spec_document(),
                final(self).spec_document(),
                r,
            ),
    {
        if self.editing {
            return Err(AraError::InvalidState("editing is already active"));
        }
        match self.document.as_mut() {
            Some(document) => {
                self.delegate.begin_editing(document)?;
            },
            None => {
                return Err(AraError::InvalidState("document has been destroyed"));
            },
        }
        self.editing = true;
        Ok(())
    }

    /// Leaves the editing state for a host `endEditing` call.
    ///
    /// Fails with `InvalidState` when not editing, and with the delegate's error when it
    /// refuses, in which case editing stays active.
    pub fn end_callback_editing(&mut self) -> (r: Result<(), AraError>)
        requires
            old(self).wf(),
        ensures
            final(self).wf(),
            final(self).same_objects(*old(self)),
            !old(self).spec_editing() ==> (r matches Err(e) && e is InvalidState) && *final(self) == *old(self),
            r is Ok ==> old(self).spec_editing() && !final(self).spec_editing(),
            r is Err ==> final(self).spec_editing() == old(self).spec_editing(),
            old(self).spec_editing() ==> P::ends_editing(
                old(self).spec_delegate(),
                final(self).spec_delegate(),
                old(self).spec_document(),
                final(self).spec_document(),
                r,
            ),
    {
        if !self.editing {
            return Err(AraError::InvalidState("editing is not active"));
        }
        match self.document.as_mut() {
            Some(document) => {
                self.delegate.end_editing(document)?;
            },
            None => {
                return Err(AraError::InvalidState("document has been destroyed"));
            },
        }
        self.editing = false;
        Ok(())
    }

    /// Opens a mutation session inside an editing state entered by `begin_callback_editing`.
    pub fn callback_edit(&mut self) -> (r: Result<EditSession<'_, P>, AraError>)
        requires
            old(self).wf(),
        ensures
            r is Ok <==> old(self).spec_editing(),
            r matches Err(e) ==> e is InvalidState,
            r matches Ok(s) ==> s.rt() == *old(self) && !s.owns_editing() 
                && *final(self) == *final(s.borrowed()),
            r is Err ==> *final(self) == *old(self),
    {
        if !self.editing {
            return Err(AraError::InvalidState("editing is not active"));
        }
        Ok(EditSession { runtime: self, owns_state: false })
    }

    fn reserve_id(&mut self) -> (r: Result<RawHandle, AraError>)
        requires
            old(self).wf(),
        ensures
            final(self).wf(),
            final(self).same_graph(*old(self)),
            final(self).spec_delegate() == old(self).spec_delegate(),
            old(self).spec_next_id() == u64::MAX ==> (r matches Err(e) && e is InvalidState),
            old(self).spec_next_id() < u64::MAX ==> r is Ok,
            r is Err ==> *final(self) == *old(self),
            r matches Ok(h) ==> h == (RawHandle { session: old(self).spec_session(), id: old(self).spec_next_id() })
                && final(self).spec_next_id() == old(self).spec_next_id() + 1,
    {
        if self.next_id == u64::MAX {
            return Err(AraError::InvalidState("document identity space is exhausted"));
        }
        let id = self.next_id;
        self.next_id = id + 1;
        Ok(RawHandle { session: self.session, id })
    }

    /// Tears down an empty document and returns its application delegate.
    ///
    /// Fails with `InvalidState` while any model object is still live.
    pub fn destroy(self) -> (r: Result<P, AraError>)
        requires
            self.wf(),
        ensures
            r is Ok <==> self.live_total() == 0,
            r matches Err(e) ==> e is InvalidState,
            r matches Ok(d) ==> P::destroys_document(self.spec_delegate(), d, self.spec_document()),
    {
        let mut rt = self;
        if !(rt.contexts.is_empty() && rt.sequences.is_empty() && rt.sources.is_empty()
            && rt.modifications.is_empty() && rt.regions.is_empty()) {
            return Err(
                AraError::InvalidState(
                    "document graph must be destroyed leaf-first before controller teardown",
                ),
            );
        }
        let document = rt.document.take().unwrap();
        rt.delegate.destroy_document(document);
        Ok(rt.delegate)
    }

    fn check_context(&self, h: Handle<MusicalContextKind>) -> (r: Result<(), AraError>)
        ensures
            r is Ok <==> self.live_context(h),
            r matches Err(e) ==> e is InvalidArgument,
    {
        if h.raw.session == self.session && self.contexts.contains_key(&h.raw.id) {
            Ok(())
        } else {
            Err(not_live("musical-context handle is not live in this document"))
        }
    }

    fn check_sequence(&self, h: Handle<RegionSequenceKind>) -> (r: Result<(), AraError>)
        ensures
            r is Ok <==> self.live_sequence(h),
            r matches Err(e) ==> e is InvalidArgument,
    {
        if h.raw.session == self.session && self.sequences.contains_key(&h.raw.id) {
            Ok(())
        } else {
            Err(not_live("region-sequence handle is not live in this document"))
        }
    }

    fn check_source(&self, h: Handle<AudioSourceKind>) -> (r: Result<(), AraError>)
        ensures
            r is Ok <==> self.live_source(h),
            r matches Err(e) ==> e is InvalidArgument,
    {
        if h.raw.session == self.session && self.sources.contains_key(&h.raw.id) {
            Ok(())
        } else {
            Err(not_live("audio-source handle is not live in this document"))
        }
    }

    fn check_modification(&self, h: Handle<AudioModificationKind>) -> (r: Result<(), AraError>)
        ensures
            r is Ok <==> self.live_modification(h),
            r matches Err(e) ==> e is InvalidArgument,
    {
        if h.raw.session == self.session && self.modifications.contains_key(&h.raw.id) {
            Ok(())
        } else {
            Err(not_live("audio-modification handle is not live in this document"))
        }
    }

    fn check_region(&self, h: Handle<PlaybackRegionKind>) -> (r: Result<(), AraError>)
        ensures
            r is Ok <==> self.live_region(h),
            r matches Err(e) ==> e is InvalidArgument,
    {
        if h.raw.session == self.session && self.regions.contains_key(&h.raw.id) {
            Ok(())
        } else {
            Err(not_live("playback-region handle is not live in this document"))
        }
    }

    /// Returns the stable model reference for a live musical context.
    pub fn musical_context_ref(&self, context: Handle<MusicalContextKind>) -> (r: Result<
        ModelRef<MusicalContextKind>,
        AraError,
    >)
        ensures
            r is Ok <==> self.live_context(context),
            r matches Ok(m) ==> m.raw == context.raw,
            r matches Err(e) ==> e is InvalidArgument,
    {
        self.check_context(context)?;
        Ok(ModelRef::from_handle(context))
    }

    /// Returns the stable model reference for a live region sequence.
    pub fn region_sequence_ref(&self, sequence: Handle<RegionSequenceKind>) -> (r: Result<
        ModelRef<RegionSequenceKind>,
        AraError,
    >)
        ensures
            r is Ok <==> self.live_sequence(sequence),
            r matches Ok(m) ==> m.raw == sequence.raw,
            r matches Err(e) ==> e is InvalidArgument,
    {
        self.check_sequence(sequence)?;
        Ok(ModelRef::from_handle(sequence))
    }

    /// Returns the stable model reference for a live audio source.
    pub fn audio_source_ref(&self, source: Handle<AudioSourceKind>) -> (r: Result<
        ModelRef<AudioSourceKind>,
        AraError,
    >)
        ensures
            r is Ok <==> self.live_source(source),
            r matches Ok(m) ==> m.raw == source.raw,
            r matches Err(e) ==> e is InvalidArgument,
    {
        self.check_source(source)?;
        Ok(ModelRef::from_handle(source))
    }

    /// Returns the stable model reference for a live audio modification.
    pub fn audio_modification_ref(&self, modification: Handle<AudioModificationKind>) -> (r:
        Result<ModelRef<AudioModificationKind>, AraError>)
        ensures
            r is Ok <==> self.live_modification(modification),
            r matches Ok(m) ==> m.raw == modification.raw,
            r matches Err(e) ==> e is InvalidArgument,
    {
        self.check_modification(modification)?;
        Ok(ModelRef::from_handle(modification))
    }

    /// Returns the stable model reference for a live playback region.
    pub fn playback_region_ref(&self, region: Handle<PlaybackRegionKind>) -> (r: Result<
        ModelRef<PlaybackRegionKind>,
        AraError,
    >)
        ensures
            r is Ok <==> self.live_region(region),
            r matches Ok(m) ==> m.raw == region.raw,
            r matches Err(e) ==> e is InvalidArgument,
    {
        self.check_region(region)?;
        Ok(ModelRef::from_handle(region))
    }

    /// Resolves a host-supplied musical-context reference to a live handle.
    pub fn resolve_musical_context(&self, reference: ModelRef<MusicalContextKind>) -> (r: Result<
        Handle<MusicalContextKind>,
        AraError,
    >)
        ensures
            r matches Ok(h) ==> h.raw == reference.raw && self.live_context(h),
            r is Err ==> !self.live_context(Handle::<MusicalContextKind>::from_raw_spec(reference.raw)),
            r matches Err(e) ==> e is InvalidArgument,
    {
        let h = Handle::from_raw(reference.raw);
        self.check_context(h)?;
        Ok(h)
    }

    /// Resolves a host-supplied region-sequence reference to a live handle.
    pub fn resolve_region_sequence(&self, reference: ModelRef<RegionSequenceKind>) -> (r: Result<
        Handle<RegionSequenceKind>,
        AraError,
    >)
        ensures
            r matches Ok(h) ==> h.raw == reference.raw && self.live_sequence(h),
            r is Err ==> !self.live_sequence(Handle::<RegionSequenceKind>::from_raw_spec(reference.raw)),
            r matches Err(e) ==> e is InvalidArgument,
    {
        let h = Handle::from_raw(reference.raw);
        self.check_sequence(h)?;
        Ok(h)
    }

    /// Resolves a host-supplied audio-source reference to a live handle.
    pub fn resolve_audio_source(&self, reference: ModelRef<AudioSourceKind>) -> (r: Result<
        Handle<AudioSourceKind>,
        AraError,
    >)
        ensures
            r matches Ok(h) ==> h.raw == reference.raw && self.live_source(h),
            r is Err ==> !self.live_source(Handle::<AudioSourceKind>::from_raw_spec(reference.raw)),
            r matches Err(e) ==> e is InvalidArgument,
    {
        let h = Handle::from_raw(reference.raw);
        self.check_source(h)?;
        Ok(h)
    }

    /// Resolves a host-supplied audio-modification reference to a live handle.
    pub fn resolve_audio_modification(&self, reference: ModelRef<AudioModificationKind>) -> (r:
        Result<Handle<AudioModificationKind>, AraError>)
        ensures
            r matches Ok(h) ==> h.raw == reference.raw && self.live_modification(h),
            r is Err ==> !self.live_modification(
                Handle::<AudioModificationKind>::from_raw_spec(reference.raw),
            ),
            r matches Err(e) ==> e is InvalidArgument,
    {
        let h = Handle::from_raw(reference.raw);
        self.check_modification(h)?;
        Ok(h)
    }

    /// Resolves a host-supplied playback-region reference to a live handle.
    pub fn resolve_playback_region(&self, reference: ModelRef<PlaybackRegionKind>) -> (r: Result<
        Handle<PlaybackRegionKind>,
        AraError,
    >)
        ensures
            r matches Ok(h) ==> h.raw == reference.raw && self.live_region(h),
            r is Err ==> !self.live_region(Handle::<PlaybackRegionKind>::from_raw_spec(reference.raw)),
            r matches Err(e) ==> e is InvalidArgument,
    {
        let h = Handle::from_raw(reference.raw);
        self.check_region(h)?;
        Ok(h)
    }

    /// Returns whether a live audio source is active in the undo history.
    pub fn audio_source_is_active(&self, source: Handle<AudioSourceKind>) -> (r: Result<bool, AraError>)
        ensures
            r is Ok <==> self.live_source(source),
            r matches Ok(b) ==> b == self.sources_view()[source.raw.id].active,
            r matches Err(e) ==> e is InvalidArgument,
    {
        self.check_source(source)?;
        Ok(self.sources.get(&source.raw.id).unwrap().active)
    }

    /// Returns whether a live audio modification is active in the undo history.
    pub fn audio_modification_is_active(&self, modification: Handle<AudioModificationKind>) -> (r:
        Result<bool, AraError>)
        ensures
            r is Ok <==> self.live_modification(modification),
            r matches Ok(b) ==> b == self.modifications_view()[modification.raw.id].node.active,
            r matches Err(e) ==> e is InvalidArgument,
    {
        self.check_modification(modification)?;
        Ok(self.modifications.get(&modification.raw.id).unwrap().node.active)
    }

    /// Checks that a live audio source may be destroyed now: an editing session is active and
    /// no audio modification names the source.
    pub fn validate_audio_source_destruction(&self, source: Handle<AudioSourceKind>) -> (r: Result<
        (),
        AraError,
    >)
        ensures
            r is Ok <==> self.spec_editing() && self.live_source(source)
                && self.sources_view()[source.raw.id].children == 0,
            !self.spec_editing() ==> (r matches Err(e) && e is InvalidState),
            self.spec_editing() && !self.live_source(source) ==> (r matches Err(e)
                && e is InvalidArgument),
            r matches Err(e) ==> e is InvalidState || e is InvalidArgument,
    {
        if !self.editing {
            return Err(
                AraError::InvalidState("audio-source destruction requires an editing session"),
            );
        }
        self.check_source(source)?;
        if self.sources.get(&source.raw.id).unwrap().children != 0 {
            return Err(AraError::InvalidState("audio source still owns audio modifications"));
        }
        Ok(())
    }
}

} // verus!
