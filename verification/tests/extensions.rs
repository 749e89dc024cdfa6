use ara2_bridge_plugin::{
    ApiGeneration, AraError, ExtensionBinding, ExtensionRoles, ExtensionViewSelection, TargetArch,
};

#[test]
fn role_enablement_matches_the_sdk_formula() {
    let all = ExtensionRoles::all();
    assert_eq!(
        ExtensionRoles::resolve(ExtensionRoles::empty(), ExtensionRoles::empty(), all).unwrap(),
        all
    );
    assert_eq!(
        ExtensionRoles::resolve(all, ExtensionRoles::empty(), all).unwrap(),
        ExtensionRoles::empty()
    );
    let assigned = ExtensionRoles::playback_renderer().union(ExtensionRoles::editor_view());
    assert_eq!(ExtensionRoles::resolve(all, assigned, all).unwrap(), assigned);
    assert!(ExtensionRoles::resolve(
        ExtensionRoles::playback_renderer(),
        ExtensionRoles::editor_renderer(),
        all,
    )
    .is_err());
}

#[test]
fn role_calls_validate_assignment_and_controller_lifetime() {
    let mut binding: ExtensionBinding<(f64, f64)> = ExtensionBinding::new(
        ApiGeneration::V23Final,
        ExtensionRoles::all(),
        ExtensionRoles::playback_renderer(),
        ExtensionRoles::all(),
        TargetArch::X86_64,
    )
    .unwrap();
    assert!(binding
        .add_playback_region(ExtensionRoles::playback_renderer(), 11)
        .is_ok());
    assert!(binding
        .add_playback_region(ExtensionRoles::editor_renderer(), 11)
        .is_err());
    binding.destroy_controller();
    assert!(binding
        .remove_playback_region(ExtensionRoles::playback_renderer(), 11)
        .is_err());
}

#[test]
fn ara1_binding_exposes_legacy_extension_prefix() {
    let mut binding: ExtensionBinding<(f64, f64)> = ExtensionBinding::new(
        ApiGeneration::V1Final,
        ExtensionRoles::empty(),
        ExtensionRoles::empty(),
        ExtensionRoles::all(),
        TargetArch::X86_64,
    )
    .unwrap();
    assert!(binding.has_legacy_extension());
    assert_eq!(binding.enabled_roles(), ExtensionRoles::empty());
    binding.legacy_set_playback_region(42);
    assert_eq!(binding.view_selection().unwrap().playback_regions, vec![42]);
    assert_eq!(binding.assignment_counts(), (2, 0));
    binding.legacy_remove_playback_region(42);
    assert!(binding.view_selection().is_none());
    assert_eq!(binding.assignment_counts(), (0, 0));
}

#[test]
fn ara1_bindings_are_unavailable_on_arm() {
    let refused = ExtensionBinding::<(f64, f64)>::new(
        ApiGeneration::V1Final,
        ExtensionRoles::empty(),
        ExtensionRoles::empty(),
        ExtensionRoles::all(),
        TargetArch::Aarch64,
    );
    assert!(matches!(refused, Err(AraError::Unsupported(_))));
}

#[test]
fn editor_view_callbacks_copy_selection_and_hidden_sequence_arrays() {
    let mut binding: ExtensionBinding<(f64, f64)> = ExtensionBinding::new(
        ApiGeneration::V23Final,
        ExtensionRoles::all(),
        ExtensionRoles::editor_view(),
        ExtensionRoles::all(),
        TargetArch::X86_64,
    )
    .unwrap();
    let playback: usize = 0x1000;
    let sequence: usize = 0x2000;
    binding.notify_selection(ExtensionViewSelection {
        playback_regions: vec![playback],
        region_sequences: vec![sequence],
        time_range: Some((1.0, 2.0)),
    });
    binding.notify_hide_region_sequences(vec![sequence]);
    let copied = binding.view_selection().unwrap();
    assert_eq!(copied.playback_regions, vec![playback]);
    assert_eq!(copied.region_sequences, vec![sequence]);
    assert_eq!(copied.time_range, Some((1.0, 2.0)));
    assert_eq!(binding.hidden_region_sequences(), [sequence]);
}

#[test]
fn region_sequences_follow_the_editor_renderer_role() {
    let mut binding: ExtensionBinding<(f64, f64)> = ExtensionBinding::new(
        ApiGeneration::V23Final,
        ExtensionRoles::all(),
        ExtensionRoles::editor_renderer(),
        ExtensionRoles::all(),
        TargetArch::X86_64,
    )
    .unwrap();
    binding.add_region_sequence(7);
    binding.add_region_sequence(0);
    assert_eq!(binding.assignment_counts(), (0, 1));
    binding.remove_region_sequence(7);
    assert_eq!(binding.assignment_counts(), (0, 0));
    assert!(matches!(
        binding.add_playback_region(ExtensionRoles::editor_renderer(), 0),
        Err(AraError::InvalidArgument(_))
    ));
    binding
        .add_playback_region(ExtensionRoles::editor_renderer(), 3)
        .unwrap();
    assert!(matches!(
        binding.add_playback_region(ExtensionRoles::editor_renderer(), 3),
        Err(AraError::InvalidState(_))
    ));
}

#[test]
fn unknown_roles_are_enabled_only_when_supported() {
    let supported = ExtensionRoles::playback_renderer().union(ExtensionRoles::editor_view());
    let resolved =
        ExtensionRoles::resolve(ExtensionRoles::playback_renderer(), ExtensionRoles::empty(), supported)
            .unwrap();
    assert_eq!(resolved, ExtensionRoles::editor_view());
    assert_eq!(resolved.bits(), 4);
}

#[test]
fn an_enabled_role_bit_outside_the_known_roles_accepts_assignments() {
    let extra = ExtensionRoles { bits: 8 };
    let mut binding: ExtensionBinding<(f64, f64)> = ExtensionBinding::new(
        ApiGeneration::V23Final,
        ExtensionRoles::empty(),
        extra,
        extra,
        TargetArch::X86_64,
    )
    .unwrap();
    assert_eq!(binding.enabled_roles().bits(), 8);
    assert!(binding.view_selection().is_none());
    assert!(binding.hidden_region_sequences().is_empty());
    assert!(binding.add_playback_region(extra, 11).is_ok());
    assert!(matches!(
        binding.add_playback_region(ExtensionRoles { bits: 12 }, 12),
        Err(AraError::InvalidArgument(_))
    ));
    assert!(matches!(
        binding.add_playback_region(extra, 11),
        Err(AraError::InvalidState(_))
    ));
    assert_eq!(binding.assignment_counts(), (1, 0));
}

#[test]
fn an_undeclared_assigned_role_is_an_invalid_argument() {
    let result: Result<ExtensionBinding<(f64, f64)>, AraError> = ExtensionBinding::new(
        ApiGeneration::V23Final,
        ExtensionRoles::playback_renderer(),
        ExtensionRoles::editor_renderer(),
        ExtensionRoles::all(),
        TargetArch::X86_64,
    );
    assert!(matches!(result, Err(AraError::InvalidArgument(_))));
}
