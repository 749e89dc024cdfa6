use ara2_bridge_plugin::{
    document_controller_interface, ApiGeneration, AraError, CallbackContract,
    ControllerCapabilities, Delegate, TargetArch,
};

#[test]
fn later_signal_capability_populates_ara_defined_intervening_defaults() {
    let interface = document_controller_interface(
        ApiGeneration::V23Final,
        ControllerCapabilities::default().with_signal_preservation(true),
        TargetArch::X86_64,
    )
    .unwrap();
    assert_eq!(interface.represented_callback_count(), 54);
    assert!(interface.capabilities().signal_preservation);
    assert!(!interface.capabilities().processing_algorithms);
}

#[test]
fn every_single_tail_capability_builds_a_consecutive_non_null_prefix() {
    let capabilities = [
        ControllerCapabilities::default().with_processing_algorithms(true),
        ControllerCapabilities::default().with_licensing(true),
        ControllerCapabilities::default().with_audio_file_chunk_storage(true),
        ControllerCapabilities::default().with_signal_preservation(true),
    ];
    let expected = [51, 52, 53, 54];
    for (capability, count) in capabilities.into_iter().zip(expected) {
        let interface =
            document_controller_interface(ApiGeneration::V23Final, capability, TargetArch::X86_64)
                .unwrap();
        assert_eq!(interface.represented_callback_count(), count);
    }
}

#[test]
fn generation_prefixes_and_later_capabilities_have_non_null_intervening_slots() {
    let prefixes = [41, 45, 47, 47];
    for (generation, prefix) in ApiGeneration::ALL.into_iter().zip(prefixes) {
        if generation.supported_on(TargetArch::X86_64) {
            let base = document_controller_interface(
                generation,
                ControllerCapabilities::default(),
                TargetArch::X86_64,
            )
            .unwrap();
            assert_eq!(base.represented_callback_count(), prefix);
            assert_eq!(base.generation(), generation);
        }
    }
    let later = document_controller_interface(
        ApiGeneration::V23Final,
        ControllerCapabilities::default().with_signal_preservation(true),
        TargetArch::X86_64,
    )
    .unwrap();
    assert!(later.represented_callback_count() > 50);
}

#[test]
fn tail_capabilities_are_refused_before_ara2_final() {
    for generation in [ApiGeneration::V1Final, ApiGeneration::V2Draft] {
        let refused = document_controller_interface(
            generation,
            ControllerCapabilities::default().with_licensing(true),
            TargetArch::X86_64,
        );
        assert!(matches!(refused, Err(AraError::Unsupported(_))));
    }
    assert!(matches!(
        document_controller_interface(
            ApiGeneration::V1Final,
            ControllerCapabilities::default(),
            TargetArch::Aarch64,
        ),
        Err(AraError::Unsupported(_))
    ));
}

#[test]
fn default_capabilities_advertise_nothing() {
    let none = ControllerCapabilities::default();
    assert!(!none.any());
    assert!(none.with_audio_file_chunk_storage(true).any());
}

#[test]
fn callback_coverage_entries_keep_name_and_slot() {
    let delegate = Delegate::new("createAudioSource", 12);
    let contract = CallbackContract::new("createAudioSource", 12);
    assert_eq!(delegate.c_name, contract.c_name);
    assert_eq!(delegate.slot, 12);
    assert_eq!(contract.slot, delegate.slot);
}

#[test]
fn raw_generation_values_round_trip() {
    for generation in ApiGeneration::ALL {
        assert_eq!(ApiGeneration::try_from_raw(generation.as_raw()), Ok(generation));
    }
    assert_eq!(ApiGeneration::V1Final.as_raw(), 2);
    assert_eq!(ApiGeneration::V23Final.as_raw(), 6);
    assert!(matches!(ApiGeneration::try_from_raw(5), Err(AraError::InvalidArgument(_))));
    assert!(ApiGeneration::V2Draft.precedes(ApiGeneration::V2Final));
    assert!(ApiGeneration::V1Final.is_legacy());
    assert!(!ApiGeneration::V2Draft.is_legacy());
}
