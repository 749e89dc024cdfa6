use ara2_bridge_plugin::{
    HostServices, ServiceShape,
    published_archive_id, AnalysisFraction, ApiGeneration, AraError, AudioModifications,
    AudioSources, ContentObject, ContentUpdateScopes, ControllerCapabilities, CreateContext,
    DocumentController, DocumentLifecycle, FactoryTerms, HostNotification,
    MusicalContexts, PlaybackRegionProperties, PlaybackRegions, PlaybackTransformationFlags,
    ProgressQueue, PublishedArchiveId, RangeUnion, RegionSequenceProperties, RegionSequences,
    TargetArch, UpdateOrigin, UpdateTracker, MAX_ANALYZABLE_CONTENT_TYPES,
};

#[test]
fn ara1_playback_regions_use_internal_synthetic_sequences() {
    let (mut controller, interface) = create(ApiGeneration::V1Final, terms(vec![]), false).unwrap();
    assert_eq!(interface.represented_callback_count(), 41);
    controller.begin_editing().unwrap();
    let context = controller.create_musical_context(11, "Context", "synthetic").unwrap();
    let source = controller.create_audio_source(12, "legacy-source").unwrap();
    let modification = controller
        .create_audio_modification(source, 13, "legacy-modification")
        .unwrap();
    let region = controller
        .create_playback_region(
            modification,
            14,
            PlaybackRegionProperties {
                region_sequence: None,
                musical_context: Some(context),
                data: (0.0, 1.0, 0.0, 1.0),
            },
            PlaybackTransformationFlags::empty(),
        )
        .unwrap();
    assert_eq!(
        controller.runtime().unwrap().delegate().sequence_creates,
        1,
        "the ARA 1 context received one internal sequence"
    );
    controller.destroy_playback_region(region).unwrap();
    controller.destroy_audio_modification(modification).unwrap();
    controller.destroy_audio_source(source).unwrap();
    controller.destroy_musical_context(context).unwrap();
    controller.end_editing().unwrap();
    assert!(matches!(controller.destroy(), Some(Ok(_))));
    assert!(controller.destroy().is_none());
}

#[test]
fn ara2_playback_regions_require_a_named_sequence() {
    let (mut controller, interface) =
        create(ApiGeneration::V23Final, terms(vec![]), false).unwrap();
    assert_eq!(interface.represented_callback_count(), 47);
    controller.begin_editing().unwrap();
    let context = controller.create_musical_context(11, "Context", "unused").unwrap();
    let source = controller.create_audio_source(12, "source").unwrap();
    let modification = controller.create_audio_modification(source, 13, "modification").unwrap();
    let by_context = controller.create_playback_region(
        modification,
        14,
        PlaybackRegionProperties {
            region_sequence: None,
            musical_context: Some(context),
            data: (0.0, 1.0, 0.0, 1.0),
        },
        PlaybackTransformationFlags::empty(),
    );
    assert!(matches!(by_context, Err(AraError::InvalidArgument(_))));
    let sequence = controller
        .create_region_sequence(RegionSequenceProperties { musical_context: context, data: "sequence" })
        .unwrap();
    let region = controller
        .create_playback_region(
            modification,
            14,
            PlaybackRegionProperties {
                region_sequence: Some(sequence),
                musical_context: None,
                data: (0.0, 1.0, 0.0, 1.0),
            },
            PlaybackTransformationFlags::empty(),
        )
        .unwrap();
    let unsupported = controller.update_playback_region(
        region,
        PlaybackRegionProperties {
            region_sequence: Some(sequence),
            musical_context: None,
            data: (0.0, 2.0, 0.0, 2.0),
        },
        PlaybackTransformationFlags::timestretch(),
    );
    assert!(matches!(unsupported, Err(AraError::InvalidArgument(_))));
    assert!(matches!(
        controller.destroy_region_sequence(sequence),
        Err(AraError::InvalidState(_))
    ));
    controller.destroy_playback_region(region).unwrap();
    controller.destroy_region_sequence(sequence).unwrap();
    controller.destroy_audio_modification(modification).unwrap();
    controller.destroy_audio_source(source).unwrap();
    controller.destroy_musical_context(context).unwrap();
    controller.end_editing().unwrap();
    assert!(matches!(controller.destroy(), Some(Ok(_))));
}

#[test]
fn null_host_references_and_missing_sessions_are_refused() {
    let (mut controller, _) = create(ApiGeneration::V23Final, terms(vec![]), false).unwrap();
    assert!(matches!(
        controller.create_audio_source(12, "outside"),
        Err(AraError::InvalidState(_))
    ));
    controller.begin_editing().unwrap();
    assert!(matches!(
        controller.create_audio_source(0, "null"),
        Err(AraError::InvalidArgument(_))
    ));
    assert!(matches!(
        controller.begin_editing(),
        Err(AraError::InvalidState(_))
    ));
    controller.end_editing().unwrap();
}

#[test]
fn an_open_content_reader_blocks_model_operations() {
    let (mut controller, _) = create(ApiGeneration::V23Final, terms(vec![]), false).unwrap();
    controller.begin_editing().unwrap();
    let source = controller.create_audio_source(12, "source").unwrap();
    assert_eq!(
        controller.audio_source_object(source),
        Some(ContentObject::AudioSource(source.raw))
    );
    let reader = controller.publish_reader().unwrap();
    assert!(controller.reader_is_open(reader));
    assert!(matches!(controller.publish_reader(), Err(AraError::InvalidState(_))));
    assert!(matches!(
        controller.create_audio_source(13, "blocked"),
        Err(AraError::InvalidState(_))
    ));
    assert!(matches!(controller.end_editing(), Err(AraError::InvalidState(_))));
    assert!(!controller.destroy_reader(reader + 1));
    assert!(controller.destroy_reader(reader));
    assert!(!controller.destroy_reader(reader));
    controller.destroy_audio_source(source).unwrap();
    controller.end_editing().unwrap();
}

#[test]
fn model_updates_reach_the_host_identities_outside_editing() {
    let (mut controller, _) = create(ApiGeneration::V23Final, terms(vec![3]), true).unwrap();
    controller.begin_editing().unwrap();
    let source = controller.create_audio_source(21, "source").unwrap();
    controller.end_editing().unwrap();
    let mut progress: ProgressQueue<Fraction> = ProgressQueue::new();
    let mut updates: UpdateTracker<Span> = UpdateTracker::new();
    updates
        .mark_source(source.raw, None, ContentUpdateScopes::empty(), UpdateOrigin::Application)
        .unwrap();
    updates.mark_document(UpdateOrigin::Application);

    let mut requested = Vec::new();
    controller
        .request_content_analysis(source, vec![3], |s, types| {
            requested.push((s, types.clone()));
            Ok(())
        })
        .unwrap();
    assert_eq!(requested, vec![(source.raw, vec![3])]);
    assert_eq!(controller.analysis_requested(source, 3), Some(true));
    progress.update(source.raw, Fraction(0.5)).unwrap();
    progress.complete(source.raw);

    controller.begin_editing().unwrap();
    assert!(controller
        .notify_model_updates(true, &mut progress, &mut updates)
        .is_empty());
    assert_eq!(updates.pending_count(), 2);
    controller.end_editing().unwrap();
    assert!(controller
        .notify_model_updates(false, &mut progress, &mut updates)
        .is_empty());

    let notes = controller.notify_model_updates(true, &mut progress, &mut updates);
    assert_eq!(notes.len(), 5);
    assert!(matches!(notes[0], HostNotification::AnalysisStarted { host_ref: 21 }));
    assert!(matches!(
        notes[1],
        HostNotification::AnalysisProgressed { host_ref: 21, progress: Fraction(p) } if p == 0.5
    ));
    assert!(matches!(notes[2], HostNotification::AnalysisCompleted { host_ref: 21 }));
    assert!(matches!(
        notes[3],
        HostNotification::AudioSourceChanged { host_ref: 21, range: None, .. }
    ));
    assert!(matches!(notes[4], HostNotification::DocumentDataChanged));
    assert_eq!(updates.pending_count(), 0);
    assert_eq!(controller.analysis_requested(source, 3), Some(false));
    assert!(controller
        .notify_model_updates(true, &mut progress, &mut updates)
        .is_empty());
}

#[test]
fn analysis_requests_are_validated_and_refusals_roll_back() {
    let (mut controller, _) = create(ApiGeneration::V23Final, terms(vec![3, 4]), true).unwrap();
    controller.begin_editing().unwrap();
    let source = controller.create_audio_source(21, "source").unwrap();
    controller.end_editing().unwrap();
    assert!(matches!(
        controller.request_content_analysis(source, vec![], |_, _| Ok(())),
        Err(AraError::InvalidArgument(_))
    ));
    assert!(matches!(
        controller.request_content_analysis(source, vec![5], |_, _| Ok(())),
        Err(AraError::InvalidArgument(_))
    ));
    assert!(matches!(
        controller.request_content_analysis(source, vec![3, 3], |_, _| Ok(())),
        Err(AraError::InvalidArgument(_))
    ));
    assert!(matches!(
        controller.request_content_analysis(source, vec![3], |_, _| Err(AraError::Peer("busy"))),
        Err(AraError::Peer("busy"))
    ));
    assert_eq!(controller.analysis_requested(source, 3), Some(false));
    controller.request_content_analysis(source, vec![3, 4], |_, _| Ok(())).unwrap();
    assert!(matches!(
        controller.request_content_analysis(source, vec![4], |_, _| Ok(())),
        Err(AraError::InvalidState(_))
    ));
    let host = controller.enable_audio_source_samples_access(source, false).unwrap();
    assert_eq!(host, 21);
    assert_eq!(controller.analysis_requested(source, 4), Some(false));
}

#[test]
fn deactivated_sources_lose_analysis_and_stay_out_of_content_queries() {
    let (mut controller, _) = create(ApiGeneration::V23Final, terms(vec![3]), true).unwrap();
    controller.begin_editing().unwrap();
    let source = controller.create_audio_source(21, "source").unwrap();
    controller.request_content_analysis(source, vec![3], |_, _| Ok(())).unwrap();
    assert_eq!(controller.deactivate_audio_source(source, true).unwrap(), 21);
    assert_eq!(controller.audio_source_object(source), None);
    assert_eq!(controller.analysis_requested(source, 3), None);
    assert_eq!(controller.deactivate_audio_source(source, false).unwrap(), 21);
    assert_eq!(controller.analysis_requested(source, 3), Some(false));
    controller.destroy_audio_source(source).unwrap();
    controller.end_editing().unwrap();
}

#[test]
fn factory_terms_must_agree_with_registered_providers() {
    let too_many = (0..(MAX_ANALYZABLE_CONTENT_TYPES as i32 + 1)).collect::<Vec<_>>();
    assert!(matches!(
        create(ApiGeneration::V23Final, terms(too_many), true),
        Err(AraError::InvalidArgument(_))
    ));
    assert!(matches!(
        create(ApiGeneration::V23Final, terms(vec![3]), false),
        Err(AraError::InvalidArgument(_))
    ));
    let mut chunks = terms(vec![]);
    chunks.stores_audio_file_chunks = true;
    assert!(matches!(
        create(ApiGeneration::V23Final, chunks, false),
        Err(AraError::InvalidArgument(_))
    ));
    let legacy_on_arm = DocumentController::<Model, Fraction>::create(
        Model::default(),
        ApiGeneration::V1Final,
        "document",
        1,
        TargetArch::Aarch64,
        ControllerCapabilities::default(),
        terms(vec![]),
        false,
        false,
    );
    assert!(matches!(legacy_on_arm, Err(AraError::Unsupported(_))));
}

#[test]
fn tail_capabilities_are_advertised_only_from_ara2_final() {
    let tail = ControllerCapabilities::default().with_signal_preservation(true);
    let (_, modern) = DocumentController::<Model, Fraction>::create(
        Model::default(),
        ApiGeneration::V23Final,
        "document",
        1,
        TargetArch::X86_64,
        tail,
        terms(vec![]),
        false,
        false,
    )
    .unwrap();
    assert_eq!(modern.represented_callback_count(), 54);
    let (_, draft) = DocumentController::<Model, Fraction>::create(
        Model::default(),
        ApiGeneration::V2Draft,
        "document",
        1,
        TargetArch::X86_64,
        tail,
        terms(vec![]),
        false,
        false,
    )
    .unwrap();
    assert_eq!(draft.represented_callback_count(), 45);
}

#[test]
fn document_restores_hold_an_editing_session() {
    let (mut controller, _) = create(ApiGeneration::V1Final, terms(vec![]), false).unwrap();
    assert!(matches!(
        controller.begin_document_restore(7, || Err(AraError::Peer("corrupt"))),
        Err(AraError::Peer("corrupt"))
    ));
    assert!(!controller.runtime().unwrap().is_editing());
    controller.begin_document_restore(7, || Ok(())).unwrap();
    assert!(controller.runtime().unwrap().is_editing());
    assert!(matches!(
        controller.begin_document_restore(8, || Ok(())),
        Err(AraError::InvalidState(_))
    ));
    assert!(matches!(controller.check_archive_store(), Err(AraError::InvalidState(_))));
    assert!(controller.check_archive_restore().is_ok());
    assert!(matches!(
        controller.end_document_restore(8),
        Err(AraError::InvalidArgument(_))
    ));
    controller.end_document_restore(7).unwrap();
    assert!(!controller.runtime().unwrap().is_editing());
    assert!(controller.check_archive_store().is_ok());
}

#[test]
fn chunk_archive_ids_resolve_to_the_factory_published_identifier() {
    let compatible = vec![String::from("archive.old"), String::from("archive.older")];
    assert_eq!(
        published_archive_id("archive.current", &compatible, "archive.current"),
        Some(PublishedArchiveId::Document)
    );
    assert_eq!(
        published_archive_id("archive.current", &compatible, "archive.older"),
        Some(PublishedArchiveId::Compatible(1))
    );
    assert_eq!(published_archive_id("archive.current", &compatible, "archive.other"), None);
}

#[test]
fn license_requests_must_stay_within_the_factory_terms() {
    let mut factory = terms(vec![3, 4]);
    factory.playback_transformations = PlaybackTransformationFlags::timestretch();
    let (controller, _) = create(ApiGeneration::V23Final, factory, true).unwrap();
    assert!(controller.license_request_supported(&vec![], PlaybackTransformationFlags::empty()));
    assert!(controller.license_request_supported(&vec![4], PlaybackTransformationFlags::timestretch()));
    assert!(!controller.license_request_supported(&vec![5], PlaybackTransformationFlags::empty()));
    assert!(!controller
        .license_request_supported(&vec![3], PlaybackTransformationFlags::reflect_tempo()));
}

#[test]
fn playback_regions_outside_editing_never_reach_the_application() {
    let (mut controller, _) = create(ApiGeneration::V23Final, terms(vec![]), false).unwrap();
    controller.begin_editing().unwrap();
    let context = controller.create_musical_context(11, "Context", "unused").unwrap();
    let source = controller.create_audio_source(12, "source").unwrap();
    let modification = controller.create_audio_modification(source, 13, "modification").unwrap();
    let sequence = controller
        .create_region_sequence(RegionSequenceProperties { musical_context: context, data: "sequence" })
        .unwrap();
    controller.end_editing().unwrap();
    let outside = controller.create_playback_region(
        modification,
        14,
        PlaybackRegionProperties {
            region_sequence: Some(sequence),
            musical_context: None,
            data: (0.0, 1.0, 0.0, 1.0),
        },
        PlaybackTransformationFlags::empty(),
    );
    assert!(matches!(outside, Err(AraError::InvalidState(_))));
    assert_eq!(controller.runtime().unwrap().delegate().region_creates, 0);
    controller.begin_editing().unwrap();
    let region = controller
        .create_playback_region(
            modification,
            14,
            PlaybackRegionProperties {
                region_sequence: Some(sequence),
                musical_context: None,
                data: (0.0, 1.0, 0.0, 1.0),
            },
            PlaybackTransformationFlags::empty(),
        )
        .unwrap();
    assert_eq!(controller.runtime().unwrap().delegate().region_creates, 1);
    controller.end_editing().unwrap();
    let moved = controller.update_playback_region(
        region,
        PlaybackRegionProperties {
            region_sequence: Some(sequence),
            musical_context: None,
            data: (0.0, 2.0, 0.0, 2.0),
        },
        PlaybackTransformationFlags::empty(),
    );
    assert!(matches!(moved, Err(AraError::InvalidState(_))));
}

fn create(
    generation: ApiGeneration,
    factory: FactoryTerms,
    provides_analysis: bool,
) -> Result<(DocumentController<Model, Fraction>, ara2_bridge_plugin::ControllerInterface), AraError>
{
    DocumentController::create(
        Model::default(),
        generation,
        "document",
        1,
        TargetArch::X86_64,
        ControllerCapabilities::default(),
        factory,
        provides_analysis,
        false,
    )
}

fn terms(analyzable_content: Vec<i32>) -> FactoryTerms {
    FactoryTerms {
        analyzable_content,
        playback_transformations: PlaybackTransformationFlags::empty(),
        stores_audio_file_chunks: false,
    }
}

/// Analysis progress as a fraction of one.
#[derive(Clone, Copy, Debug, PartialEq)]
struct Fraction(f32);

impl AnalysisFraction for Fraction {
    fn spec_started() -> Self {
        Self::started()
    }

    fn spec_is_unit_fraction(&self) -> bool {
        self.is_unit_fraction()
    }

    fn spec_advances_to(&self, next: &Self) -> bool {
        self.advances_to(next)
    }

    fn started() -> Self {
        Fraction(0.0)
    }

    fn is_unit_fraction(&self) -> bool {
        self.0.is_finite() && (0.0..1.0).contains(&self.0)
    }

    fn advances_to(&self, next: &Self) -> bool {
        next.is_unit_fraction() && next.0 >= self.0
    }
}

/// Changed range in seconds.
#[derive(Clone, Copy, Debug, PartialEq)]
struct Span(f64, f64);

impl RangeUnion for Span {
    fn spec_covering(&self, other: &Self) -> Result<Self, AraError> {
        self.covering(other)
    }

    fn covering(&self, other: &Self) -> Result<Self, AraError> {
        Ok(Span(self.0.min(other.0), self.1.max(other.1)))
    }
}

#[derive(Default)]
struct Model {
    sequence_creates: usize,
    region_creates: usize,
}

impl DocumentLifecycle for Model {
    type Document = ();
    type DocumentProperties = &'static str;

    fn create_document(&mut self, _: &CreateContext, _: &'static str) -> Result<(), AraError> {
        Ok(())
    }

    fn update_document(&mut self, _: &mut (), _: &'static str) -> Result<(), AraError> {
        Ok(())
    }

    fn destroy_document(&mut self, _: ()) {}

    fn begin_editing(&mut self, _: &mut ()) -> Result<(), AraError> {
        Ok(())
    }

    fn end_editing(&mut self, _: &mut ()) -> Result<(), AraError> {
        Ok(())
    }
}

impl MusicalContexts for Model {
    type MusicalContext = ();
    type MusicalContextProperties = &'static str;
    type MusicalContextRange = Span;

    fn create_musical_context(&mut self, _: &CreateContext, _: &'static str) -> Result<(), AraError> {
        Ok(())
    }

    fn update_musical_context(&mut self, _: &mut (), _: &'static str) -> Result<(), AraError> {
        Ok(())
    }

    fn update_musical_context_content(
        &mut self,
        _: &mut (),
        _: Option<Self::MusicalContextRange>,
        _: ContentUpdateScopes,
    ) -> Result<(), AraError> {
        Ok(())
    }

    fn destroy_musical_context(&mut self, _: ()) {}
}

impl RegionSequences for Model {
    type RegionSequence = ();
    type RegionSequenceData = &'static str;

    fn create_region_sequence(
        &mut self,
        _: &CreateContext,
        _: RegionSequenceProperties<&'static str>,
    ) -> Result<(), AraError> {
        self.sequence_creates += 1;
        Ok(())
    }

    fn update_region_sequence(
        &mut self,
        _: &mut (),
        _: RegionSequenceProperties<&'static str>,
    ) -> Result<(), AraError> {
        Ok(())
    }

    fn destroy_region_sequence(&mut self, _: ()) {}
}

impl AudioSources for Model {
    type AudioSource = ();
    type AudioSourceProperties = &'static str;
    type AudioSourceRange = Span;

    fn create_audio_source(&mut self, _: &CreateContext, _: &'static str) -> Result<(), AraError> {
        Ok(())
    }

    fn update_audio_source(&mut self, _: &mut (), _: &'static str) -> Result<(), AraError> {
        Ok(())
    }

    fn update_audio_source_content(
        &mut self,
        _: &mut (),
        _: Option<Self::AudioSourceRange>,
        _: ContentUpdateScopes,
    ) -> Result<(), AraError> {
        Ok(())
    }

    fn destroy_audio_source(&mut self, _: ()) {}

    fn enable_audio_source_samples_access(&mut self, _: &mut (), _: bool) -> Result<(), AraError> {
        Ok(())
    }

    fn deactivate_audio_source(&mut self, _: &mut (), _: bool) -> Result<(), AraError> {
        Ok(())
    }
}

impl AudioModifications for Model {
    type AudioModification = ();
    type AudioModificationProperties = &'static str;

    fn create_audio_modification(
        &mut self,
        _: &CreateContext,
        _: &'static str,
    ) -> Result<(), AraError> {
        Ok(())
    }

    fn clone_audio_modification(
        &mut self,
        _: &CreateContext,
        _: &(),
        _: &'static str,
    ) -> Result<(), AraError> {
        Ok(())
    }

    fn update_audio_modification(&mut self, _: &mut (), _: &'static str) -> Result<(), AraError> {
        Ok(())
    }

    fn destroy_audio_modification(&mut self, _: ()) {}

    fn deactivate_audio_modification(&mut self, _: &mut (), _: bool) -> Result<(), AraError> {
        Ok(())
    }
}

impl PlaybackRegions for Model {
    type PlaybackRegion = ();
    type PlaybackRegionData = (f64, f64, f64, f64);

    fn create_playback_region(
        &mut self,
        _: &CreateContext,
        _: PlaybackRegionProperties<(f64, f64, f64, f64)>,
    ) -> Result<(), AraError> {
        self.region_creates += 1;
        Ok(())
    }

    fn update_playback_region(
        &mut self,
        _: &mut (),
        _: PlaybackRegionProperties<(f64, f64, f64, f64)>,
    ) -> Result<(), AraError> {
        Ok(())
    }

    fn destroy_playback_region(&mut self, _: ()) {}
}

#[test]
fn host_services_are_validated_before_the_document_is_created() {
    let present = ServiceShape { host_ref: true, interface: true, required_callbacks: true };
    let mut host = HostServices {
        audio: present,
        archiving: present,
        archive_id_callback: true,
        content: present,
        model_updates: present,
        playback: present,
    };
    let created = DocumentController::<Model, Fraction>::create_for_host(
        Model::default(),
        ApiGeneration::V23Final,
        "document",
        1,
        TargetArch::X86_64,
        ControllerCapabilities::default(),
        terms(vec![]),
        false,
        false,
        host,
    );
    let (_, interface, optional) = created.unwrap();
    assert_eq!(interface.represented_callback_count(), 47);
    assert!(optional.content && optional.model_updates && optional.playback);
    host.archive_id_callback = false;
    let refused = DocumentController::<Model, Fraction>::create_for_host(
        Model::default(),
        ApiGeneration::V23Final,
        "document",
        1,
        TargetArch::X86_64,
        ControllerCapabilities::default(),
        terms(vec![]),
        false,
        false,
        host,
    );
    assert!(matches!(refused, Err(AraError::Abi(_))));
    let terms_first = DocumentController::<Model, Fraction>::create_for_host(
        Model::default(),
        ApiGeneration::V23Final,
        "document",
        1,
        TargetArch::X86_64,
        ControllerCapabilities::default(),
        terms(vec![3]),
        false,
        false,
        host,
    );
    assert!(matches!(terms_first, Err(AraError::InvalidArgument(_))));
}
