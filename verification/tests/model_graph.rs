use ara2_bridge_plugin::{
    ContentUpdateScopes,
    ApiGeneration, AraError, AudioModifications, AudioSources, CreateContext, DocumentLifecycle,
    MusicalContexts, PlaybackRegionProperties, PlaybackRegions, PluginRuntime,
    RegionSequenceProperties, RegionSequences, SessionIds, TargetArch,
};

#[test]
fn playback_region_requires_live_modification_and_sequence_before_delegation() {
    let mut runtime = fixture_runtime(Delegate::default(), 1);
    let mut other = fixture_runtime(Delegate::default(), 2);
    let foreign_modification = {
        let mut edit = other.begin_editing().unwrap();
        let source = edit.create_audio_source("foreign").unwrap();
        let modification = edit.create_audio_modification(source, "foreign").unwrap();
        edit.finish().unwrap();
        modification
    };

    let (context, sequence, source, modification) = {
        let mut edit = runtime.begin_editing().unwrap();
        let context = edit.create_musical_context("context").unwrap();
        let context_ref = edit.musical_context_ref(context).unwrap();
        let sequence = edit
            .create_region_sequence(
                context,
                RegionSequenceProperties { musical_context: context_ref, data: "sequence" },
            )
            .unwrap();
        let source = edit.create_audio_source("source").unwrap();
        let modification = edit.create_audio_modification(source, "modification").unwrap();
        edit.finish().unwrap();
        (context, sequence, source, modification)
    };
    let calls_before = runtime.delegate().playback_creates;
    let sequence_ref = runtime.region_sequence_ref(sequence).unwrap();
    let properties = PlaybackRegionProperties {
        region_sequence: Some(sequence_ref),
        musical_context: None,
        data: (0.0, 1.0, 0.0, 1.0),
    };
    let mut edit = runtime.begin_editing().unwrap();
    assert!(edit
        .create_playback_region(foreign_modification, sequence, properties)
        .is_err());
    assert_eq!(edit.delegate().playback_creates, calls_before);

    let sequence_ref = edit.region_sequence_ref(sequence).unwrap();
    let region = edit
        .create_playback_region(
            modification,
            sequence,
            PlaybackRegionProperties {
                region_sequence: Some(sequence_ref),
                musical_context: None,
                data: (0.0, 1.0, 0.0, 1.0),
            },
        )
        .unwrap();
    assert!(edit.destroy_audio_modification(modification).is_err());
    edit.destroy_playback_region(region).unwrap();
    edit.destroy_audio_modification(modification).unwrap();
    assert!(edit.destroy_audio_modification(modification).is_err());
    edit.destroy_audio_source(source).unwrap();
    edit.destroy_region_sequence(sequence).unwrap();
    edit.destroy_musical_context(context).unwrap();
    edit.finish().unwrap();
    assert!(runtime.destroy().is_ok());
}

#[test]
fn failed_creation_rolls_back_without_exposing_a_live_object() {
    let mut runtime = fixture_runtime(
        Delegate { fail_next_source: true, ..Delegate::default() },
        1,
    );
    let mut edit = runtime.begin_editing().unwrap();
    assert!(edit.create_audio_source("rejected").is_err());
    assert_eq!(edit.live_audio_source_count(), 0);
    assert_eq!(edit.delegate().source_creates, 1);
    assert!(edit.delegate().source_received_provisional_identity);
}

#[test]
fn destroying_a_runtime_with_live_objects_is_refused() {
    let mut runtime = fixture_runtime(Delegate::default(), 3);
    let mut edit = runtime.begin_editing().unwrap();
    edit.create_audio_source("kept").unwrap();
    edit.finish().unwrap();
    assert!(matches!(runtime.destroy(), Err(AraError::InvalidState(_))));
}

#[test]
fn handles_of_another_session_are_rejected_by_resolution() {
    let mut first = fixture_runtime(Delegate::default(), 1);
    let second = fixture_runtime(Delegate::default(), 2);
    let mut edit = first.begin_editing().unwrap();
    let source = edit.create_audio_source("source").unwrap();
    let reference = edit.audio_source_ref(source).unwrap();
    edit.finish().unwrap();
    assert!(first.resolve_audio_source(reference).is_ok());
    assert!(matches!(
        second.resolve_audio_source(reference),
        Err(AraError::InvalidArgument(_))
    ));
}

#[test]
fn nested_editing_sessions_are_refused() {
    let mut runtime = fixture_runtime(Delegate::default(), 1);
    runtime.begin_callback_editing().unwrap();
    assert!(matches!(
        runtime.begin_callback_editing(),
        Err(AraError::InvalidState(_))
    ));
    runtime.end_callback_editing().unwrap();
    assert!(matches!(
        runtime.end_callback_editing(),
        Err(AraError::InvalidState(_))
    ));
}

#[test]
fn ara1_generation_is_refused_on_arm_targets() {
    let refused = PluginRuntime::new(
        Delegate::default(),
        ApiGeneration::V1Final,
        "document",
        1,
        TargetArch::Aarch64,
    );
    assert!(matches!(refused, Err(AraError::Unsupported(_))));
    assert!(PluginRuntime::new(
        Delegate::default(),
        ApiGeneration::V1Final,
        "document",
        1,
        TargetArch::X86_64,
    )
    .is_ok());
}

#[test]
fn identities_are_sequential_and_never_reused() {
    let mut runtime = fixture_runtime(Delegate::default(), 5);
    let mut edit = runtime.begin_editing().unwrap();
    let first = edit.create_audio_source("first").unwrap();
    edit.destroy_audio_source(first).unwrap();
    let second = edit.create_audio_source("second").unwrap();
    edit.finish().unwrap();
    assert_eq!(first.into_raw().id, 1);
    assert_eq!(second.into_raw().id, 2);
    assert_eq!(second.into_raw().session, 5);
}

fn fixture_runtime(delegate: Delegate, session: u64) -> PluginRuntime<Delegate> {
    PluginRuntime::new(
        delegate,
        ApiGeneration::V23Final,
        "document",
        session,
        TargetArch::X86_64,
    )
    .unwrap()
}

#[derive(Default)]
struct Delegate {
    source_creates: usize,
    playback_creates: usize,
    fail_next_source: bool,
    source_received_provisional_identity: bool,
    documents_destroyed: usize,
    refuse_editing: bool,
    editing_requests: usize,
}

impl DocumentLifecycle for Delegate {
    type Document = ();
    type DocumentProperties = &'static str;

    fn create_document(&mut self, _: &CreateContext, _: &'static str) -> Result<(), AraError> {
        Ok(())
    }

    fn update_document(&mut self, _: &mut (), _: &'static str) -> Result<(), AraError> {
        Ok(())
    }

    fn destroy_document(&mut self, _: ()) {
        self.documents_destroyed += 1;
    }

    fn begin_editing(&mut self, _: &mut ()) -> Result<(), AraError> {
        self.editing_requests += 1;
        if self.refuse_editing {
            Err(AraError::Peer("fixture refused editing"))
        } else {
            Ok(())
        }
    }

    fn end_editing(&mut self, _: &mut ()) -> Result<(), AraError> {
        Ok(())
    }
}

impl MusicalContexts for Delegate {
    type MusicalContext = ();
    type MusicalContextProperties = &'static str;
    type MusicalContextRange = (f64, f64);

    fn create_musical_context(
        &mut self,
        _: &CreateContext,
        _: &'static str,
    ) -> Result<(), AraError> {
        Ok(())
    }

    fn update_musical_context(&mut self, _: &mut (), _: &'static str) -> Result<(), AraError> {
        Ok(())
    }

    fn update_musical_context_content(
        &mut self,
        _: &mut (),
        _: Option<Self::MusicalContextRange>,
        _: ContentUpdateScopes,
    ) -> Result<(), AraError> {
        Ok(())
    }

    fn destroy_musical_context(&mut self, _: ()) {}
}

impl RegionSequences for Delegate {
    type RegionSequence = ();
    type RegionSequenceData = &'static str;

    fn create_region_sequence(
        &mut self,
        _: &CreateContext,
        _: RegionSequenceProperties<&'static str>,
    ) -> Result<(), AraError> {
        Ok(())
    }

    fn update_region_sequence(
        &mut self,
        _: &mut (),
        _: RegionSequenceProperties<&'static str>,
    ) -> Result<(), AraError> {
        Ok(())
    }

    fn destroy_region_sequence(&mut self, _: ()) {}
}

impl AudioSources for Delegate {
    type AudioSource = ();
    type AudioSourceProperties = &'static str;
    type AudioSourceRange = (f64, f64);

    fn create_audio_source(
        &mut self,
        context: &CreateContext,
        _: &'static str,
    ) -> Result<(), AraError> {
        self.source_creates += 1;
        self.source_received_provisional_identity = context.object_handle().is_some();
        if std::mem::take(&mut self.fail_next_source) {
            Err(AraError::Peer("fixture rejected source"))
        } else {
            Ok(())
        }
    }

    fn update_audio_source(&mut self, _: &mut (), _: &'static str) -> Result<(), AraError> {
        Ok(())
    }

    fn update_audio_source_content(
        &mut self,
        _: &mut (),
        _: Option<Self::AudioSourceRange>,
        _: ContentUpdateScopes,
    ) -> Result<(), AraError> {
        Ok(())
    }

    fn destroy_audio_source(&mut self, _: ()) {}

    fn enable_audio_source_samples_access(&mut self, _: &mut (), _: bool) -> Result<(), AraError> {
        Ok(())
    }

    fn deactivate_audio_source(&mut self, _: &mut (), _: bool) -> Result<(), AraError> {
        Ok(())
    }
}

impl AudioModifications for Delegate {
    type AudioModification = ();
    type AudioModificationProperties = &'static str;

    fn create_audio_modification(
        &mut self,
        _: &CreateContext,
        _: &'static str,
    ) -> Result<(), AraError> {
        Ok(())
    }

    fn clone_audio_modification(
        &mut self,
        _: &CreateContext,
        _: &(),
        _: &'static str,
    ) -> Result<(), AraError> {
        Ok(())
    }

    fn update_audio_modification(&mut self, _: &mut (), _: &'static str) -> Result<(), AraError> {
        Ok(())
    }

    fn destroy_audio_modification(&mut self, _: ()) {}

    fn deactivate_audio_modification(&mut self, _: &mut (), _: bool) -> Result<(), AraError> {
        Ok(())
    }
}

impl PlaybackRegions for Delegate {
    type PlaybackRegion = ();
    type PlaybackRegionData = (f64, f64, f64, f64);

    fn create_playback_region(
        &mut self,
        _: &CreateContext,
        _: PlaybackRegionProperties<(f64, f64, f64, f64)>,
    ) -> Result<(), AraError> {
        self.playback_creates += 1;
        Ok(())
    }

    fn update_playback_region(
        &mut self,
        _: &mut (),
        _: PlaybackRegionProperties<(f64, f64, f64, f64)>,
    ) -> Result<(), AraError> {
        Ok(())
    }

    fn destroy_playback_region(&mut self, _: ()) {}
}

#[test]
fn an_issuer_never_hands_out_a_session_twice() {
    let mut sessions = SessionIds::new();
    let first = sessions.issue().unwrap();
    let second = sessions.issue().unwrap();
    assert_eq!((first, second), (1, 2));
    let mut runtime = fixture_runtime(Delegate::default(), first);
    let other = fixture_runtime(Delegate::default(), second);
    let source = {
        let mut edit = runtime.begin_editing().unwrap();
        let source = edit.create_audio_source("source").unwrap();
        edit.finish().unwrap();
        source
    };
    assert!(other.resolve_audio_source(ara2_bridge_plugin::ModelRef::from_raw(source.raw)).is_err());
}

#[test]
fn destroying_an_empty_runtime_hands_the_document_to_the_application() {
    let runtime = fixture_runtime(Delegate::default(), 7);
    let delegate = runtime.destroy().unwrap();
    assert_eq!(delegate.documents_destroyed, 1);
}

#[test]
fn the_model_decides_whether_editing_begins() {
    let mut runtime = fixture_runtime(
        Delegate { refuse_editing: true, ..Delegate::default() },
        9,
    );
    assert!(matches!(runtime.begin_callback_editing(), Err(AraError::Peer(_))));
    assert!(!runtime.is_editing());
    assert_eq!(runtime.delegate().editing_requests, 1);
}
