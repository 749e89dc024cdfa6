use ara2_bridge_plugin::{
    ApiGeneration, AraError, AssertionRegistry, CallbackSlots, Factory, FactoryBuilder, FactoryCapabilities,
    PlaybackTransformationFlags, PluginRegistry, TargetArch,
};

#[test]
fn each_factory_entry_has_independent_generation_state() {
    let mut registry = PluginRegistry::builder()
        .factory(factory("one", ApiGeneration::V2Final, ApiGeneration::V23Final))
        .factory(factory("two", ApiGeneration::V2Final, ApiGeneration::V23Final))
        .build()
        .unwrap();
    let mut assertions = AssertionRegistry::new();
    let first_assert: usize = 0x1000;
    let second_assert: usize = 0x2000;
    registry
        .entry_mut("one")
        .unwrap()
        .initialize(&mut assertions, ApiGeneration::V2Final, first_assert, TargetArch::X86_64)
        .unwrap();
    registry
        .entry_mut("two")
        .unwrap()
        .initialize(&mut assertions, ApiGeneration::V23Final, second_assert, TargetArch::X86_64)
        .unwrap();
    assert_eq!(
        registry.entry("one").unwrap().generation(),
        Some(ApiGeneration::V2Final)
    );
    assert_eq!(
        registry.entry("two").unwrap().generation(),
        Some(ApiGeneration::V23Final)
    );
}

#[test]
fn raw_factory_pointer_and_callbacks_are_stable_across_balanced_reinitialization() {
    let mut registry = PluginRegistry::builder()
        .factory(factory("stable", ApiGeneration::V2Final, ApiGeneration::V23Final))
        .build()
        .unwrap();
    let mut assertions = AssertionRegistry::new();
    let assertion: usize = 0x3000;
    registry
        .entry_mut("stable")
        .unwrap()
        .initialize(&mut assertions, ApiGeneration::V23Final, assertion, TargetArch::X86_64)
        .unwrap();
    assert_eq!(
        registry.entry("stable").unwrap().generation(),
        Some(ApiGeneration::V23Final)
    );
    registry
        .entry_mut("stable")
        .unwrap()
        .uninitialize(&mut assertions)
        .unwrap();
    assert_eq!(registry.entry("stable").unwrap().generation(), None);
    assert_eq!(assertions.registration(ApiGeneration::V23Final), None);

    registry
        .entry_mut("stable")
        .unwrap()
        .initialize(&mut assertions, ApiGeneration::V2Final, assertion, TargetArch::X86_64)
        .unwrap();
    registry
        .entry_mut("stable")
        .unwrap()
        .uninitialize(&mut assertions)
        .unwrap();
    assert!(matches!(
        registry.entry_mut("stable").unwrap().uninitialize(&mut assertions),
        Err(AraError::InvalidState(_))
    ));
}

#[test]
fn invalid_ranges_capabilities_duplicates_and_assert_addresses_are_rejected() {
    assert!(FactoryBuilder::new(String::from("bad"), String::from("archive.bad"))
        .generations(ApiGeneration::V23Final, ApiGeneration::V2Final)
        .build(TargetArch::X86_64)
        .is_err());
    assert!(FactoryBuilder::new(String::from("bad"), String::from("é"))
        .generations(ApiGeneration::V2Final, ApiGeneration::V23Final)
        .build(TargetArch::X86_64)
        .is_err());
    assert!(FactoryBuilder::new(String::from("bad"), String::from("archive.bad"))
        .capabilities(
            FactoryCapabilities::default()
                .with_playback_transformations(PlaybackTransformationFlags::reflect_tempo())
        )
        .build(TargetArch::X86_64)
        .is_err());

    let registry = PluginRegistry::builder()
        .factory(factory("duplicate", ApiGeneration::V2Final, ApiGeneration::V23Final))
        .factory(factory("duplicate", ApiGeneration::V2Final, ApiGeneration::V23Final))
        .build();
    assert!(registry.is_err());

    let mut registry = PluginRegistry::builder()
        .factory(factory("first", ApiGeneration::V2Final, ApiGeneration::V23Final))
        .factory(factory("second", ApiGeneration::V2Final, ApiGeneration::V23Final))
        .build()
        .unwrap();
    let mut assertions = AssertionRegistry::new();
    let first: usize = 0x4000;
    let dirty: usize = 0x5000;
    registry
        .entry_mut("first")
        .unwrap()
        .initialize(&mut assertions, ApiGeneration::V2Final, first, TargetArch::X86_64)
        .unwrap();
    assert!(registry
        .entry_mut("second")
        .unwrap()
        .initialize(&mut assertions, ApiGeneration::V2Final, dirty, TargetArch::X86_64)
        .is_err());
    assert!(registry
        .entry_mut("second")
        .unwrap()
        .initialize(&mut assertions, ApiGeneration::V2Final, 0, TargetArch::X86_64)
        .is_err());
}

#[test]
fn shared_assert_addresses_are_counted_and_released() {
    let mut assertions = AssertionRegistry::new();
    assertions.acquire(ApiGeneration::V2Final, 0x10).unwrap();
    assertions.acquire(ApiGeneration::V2Final, 0x10).unwrap();
    assert_eq!(assertions.registration(ApiGeneration::V2Final), Some((0x10, 2)));
    assert!(matches!(
        assertions.acquire(ApiGeneration::V2Final, 0x20),
        Err(AraError::InvalidState(_))
    ));
    assertions.release(ApiGeneration::V2Final, 0x10);
    assert_eq!(assertions.registration(ApiGeneration::V2Final), Some((0x10, 1)));
    assertions.release(ApiGeneration::V2Final, 0x10);
    assert_eq!(assertions.registration(ApiGeneration::V2Final), None);
    assertions.acquire(ApiGeneration::V2Final, 0x20).unwrap();
}

#[test]
fn legacy_generations_are_unavailable_on_arm_factories() {
    let mut registry = PluginRegistry::builder()
        .factory(factory("legacy", ApiGeneration::V1Final, ApiGeneration::V23Final))
        .build()
        .unwrap();
    let mut assertions = AssertionRegistry::new();
    assert!(matches!(
        registry.entry_mut("legacy").unwrap().initialize(
            &mut assertions,
            ApiGeneration::V1Final,
            0x10,
            TargetArch::Aarch64,
        ),
        Err(AraError::Unsupported(_))
    ));
    assert!(matches!(
        registry.entry_mut("legacy").unwrap().initialize(
            &mut assertions,
            ApiGeneration::V2Draft,
            0x10,
            TargetArch::Aarch64,
        ),
        Ok(())
    ));
}

#[test]
fn registry_looks_factories_up_by_identifier() {
    let registry = PluginRegistry::builder()
        .factory(factory("alpha", ApiGeneration::V2Final, ApiGeneration::V23Final))
        .factory(factory("beta", ApiGeneration::V2Final, ApiGeneration::V23Final))
        .build()
        .unwrap();
    assert_eq!(registry.factories().len(), 2);
    assert_eq!(registry.factory("beta").unwrap().id(), "beta");
    assert!(registry.factory("gamma").is_none());
    assert!(registry.entry("gamma").is_none());
}

#[test]
fn callback_slots_are_assigned_first_free_and_bounded() {
    let mut slots = CallbackSlots::new();
    for owner in 1..=64u64 {
        assert_eq!(slots.allocate(owner), Ok((owner - 1) as usize));
    }
    assert!(matches!(slots.allocate(65), Err(AraError::Unsupported(_))));
    slots.release(10, 999);
    assert_eq!(slots.owner(10), Some(11));
    slots.release(10, 11);
    assert_eq!(slots.owner(10), None);
    assert_eq!(slots.allocate(70), Ok(10));
    assert!(matches!(slots.allocate(0), Err(AraError::InvalidArgument(_))));
}

fn factory(id: &str, low: ApiGeneration, high: ApiGeneration) -> Factory {
    FactoryBuilder::new(String::from(id), format!("archive.{id}"))
        .display(
            String::from(id),
            String::from("Example"),
            String::from("https://example.test"),
            String::from("1.0"),
        )
        .generations(low, high)
        .build(TargetArch::X86_64)
        .unwrap()
}

#[test]
fn an_identifier_with_nul_on_an_unsupported_target_is_unsupported() {
    let result = FactoryBuilder::new(String::from("nul\0id"), String::from("archive.nul"))
        .display(
            String::from("nul"),
            String::from("Example"),
            String::from("https://example.test"),
            String::from("1.0"),
        )
        .generations(ApiGeneration::V1Final, ApiGeneration::V23Final)
        .build(TargetArch::Aarch64);
    assert!(matches!(result, Err(AraError::Unsupported(_))));
    let result = FactoryBuilder::new(String::from("nul\0id"), String::from("archive.nul"))
        .display(
            String::from("nul"),
            String::from("Example"),
            String::from("https://example.test"),
            String::from("1.0"),
        )
        .generations(ApiGeneration::V2Final, ApiGeneration::V23Final)
        .build(TargetArch::Aarch64);
    assert!(matches!(result, Err(AraError::InvalidArgument(_))));
}

#[test]
fn a_factory_beyond_the_callback_slots_is_refused() {
    let mut slots = CallbackSlots::new();
    for owner in 1..=64u64 {
        let id = format!("factory.{owner}");
        let (built, slot) = FactoryBuilder::new(id.clone(), format!("archive.{owner}"))
            .display(
                id,
                String::from("Example"),
                String::from("https://example.test"),
                String::from("1.0"),
            )
            .generations(ApiGeneration::V2Final, ApiGeneration::V23Final)
            .build_in(&mut slots, owner, TargetArch::X86_64)
            .unwrap();
        assert_eq!(slot, (owner - 1) as usize);
        assert_eq!(built.id(), format!("factory.{owner}"));
    }
    let extra = FactoryBuilder::new(String::from("factory.65"), String::from("archive.65"))
        .display(
            String::from("extra"),
            String::from("Example"),
            String::from("https://example.test"),
            String::from("1.0"),
        )
        .generations(ApiGeneration::V2Final, ApiGeneration::V23Final)
        .build_in(&mut slots, 65, TargetArch::X86_64);
    assert!(matches!(extra, Err(AraError::Unsupported(_))));
}

#[test]
fn a_free_slot_is_always_granted() {
    let mut slots = CallbackSlots::new();
    for owner in 1..=64u64 {
        slots.allocate(owner).unwrap();
    }
    slots.release(40, 41);
    assert_eq!(slots.allocate(99), Ok(40));
}
