use ara2_bridge_plugin::{
    validate_host_services, ApiGeneration, AraError, AudioReaderRegistry, HostServices,
    OptionalServices, ScopeObject, ServiceShape,
};

#[test]
fn required_host_services_and_ara2_archive_id_are_validated() {
    let mut host = complete_host();
    host.audio.interface = false;
    assert!(matches!(
        validate_host_services(host, ApiGeneration::V23Final),
        Err(AraError::Abi(_))
    ));

    let mut host = complete_host();
    host.content = absent();
    host.model_updates = absent();
    host.playback = absent();
    host.archive_id_callback = false;
    assert!(validate_host_services(host, ApiGeneration::V2Final).is_err());
    assert!(validate_host_services(host, ApiGeneration::V1Final).is_ok());
}

#[test]
fn truncated_optional_model_update_tail_is_accepted() {
    let mut host = complete_host();
    host.model_updates = ServiceShape { host_ref: true, interface: true, required_callbacks: false };
    let services = validate_host_services(host, ApiGeneration::V23Final).unwrap();
    assert!(services.model_updates);
}

#[test]
fn optional_services_need_their_host_reference() {
    let mut host = complete_host();
    host.playback = ServiceShape { host_ref: false, interface: true, required_callbacks: true };
    assert!(matches!(
        validate_host_services(host, ApiGeneration::V23Final),
        Err(AraError::Abi(_))
    ));
    let mut host = complete_host();
    host.content = ServiceShape { host_ref: true, interface: true, required_callbacks: false };
    assert!(validate_host_services(host, ApiGeneration::V23Final).is_err());
    let mut host = complete_host();
    host.content = absent();
    assert_eq!(
        validate_host_services(host, ApiGeneration::V23Final).unwrap(),
        OptionalServices { content: false, model_updates: true, playback: true }
    );
}

#[test]
fn content_readers_require_the_current_object_scope_and_are_destroyed() {
    let current: usize = 0x10;
    let other: usize = 0x20;
    let scope = ScopeObject::AudioSource(current);
    assert!(!scope.allows_audio_source(other));
    assert!(scope.allows_audio_source(current));
    assert!(!scope.allows_musical_context(current));
    assert!(ScopeObject::EndEditing.allows_audio_source(other));
    assert_eq!(scope.current_audio_source(), Some(current));
    assert_eq!(ScopeObject::MusicalContext(other).current_musical_context(), Some(other));
}

#[test]
fn audio_reader_escapes_the_creation_scope_but_stays_controller_bound() {
    let mut readers = AudioReaderRegistry::new();
    let current: usize = 0x10;
    let reader = readers.open(current, 2).unwrap();
    assert_eq!(readers.check_read(reader, &[4, 4]), Ok(4));
    assert!(matches!(readers.check_read(reader, &[4]), Err(AraError::InvalidArgument(_))));
    assert!(matches!(readers.check_read(reader, &[4, 3]), Err(AraError::InvalidArgument(_))));
    readers.revoke(None);
    assert!(matches!(readers.check_read(reader, &[4, 4]), Err(AraError::InvalidState(_))));
}

#[test]
fn revoking_one_source_keeps_readers_of_others() {
    let mut readers = AudioReaderRegistry::new();
    let first = readers.open(0x10, 1).unwrap();
    let second = readers.open(0x20, 1).unwrap();
    assert!(matches!(readers.open(0, 1), Err(AraError::InvalidArgument(_))));
    readers.revoke(Some(0x10));
    assert!(readers.check_read(first, &[8]).is_err());
    assert_eq!(readers.check_read(second, &[8]), Ok(8));
}

fn present() -> ServiceShape {
    ServiceShape { host_ref: true, interface: true, required_callbacks: true }
}

fn absent() -> ServiceShape {
    ServiceShape { host_ref: false, interface: false, required_callbacks: false }
}

fn complete_host() -> HostServices {
    HostServices {
        audio: present(),
        archiving: present(),
        archive_id_callback: true,
        content: present(),
        model_updates: present(),
        playback: present(),
    }
}
