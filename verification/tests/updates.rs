use ara2_bridge_plugin::{
    AraError, ContentUpdateScopes, RangeUnion, RawHandle, UpdateNotification, UpdateOrigin,
    UpdateTracker,
};

#[test]
fn every_persistent_category_flushes_only_during_notify_model_updates() {
    let [source, modification, region] = ids();
    let mut tracker = UpdateTracker::new();
    tracker
        .mark_source(
            source,
            Some(TimeRange::new(1.0, 2.0).unwrap()),
            ContentUpdateScopes::signal_remains_unchanged(),
            UpdateOrigin::Application,
        )
        .unwrap();
    tracker
        .mark_modification(
            modification,
            None,
            ContentUpdateScopes::empty(),
            UpdateOrigin::Recovery,
        )
        .unwrap();
    tracker
        .mark_region(
            region,
            None,
            ContentUpdateScopes::empty(),
            UpdateOrigin::Application,
        )
        .unwrap();
    tracker.mark_document(UpdateOrigin::Application);
    assert_eq!(tracker.pending_count(), 4);

    let mut delivered = Vec::new();
    tracker.flush_with(|notification, _| delivered.push(notification));
    assert!(matches!(
        delivered[0],
        UpdateNotification::AudioSource { .. }
    ));
    assert!(matches!(
        delivered[1],
        UpdateNotification::AudioModification { .. }
    ));
    assert!(matches!(
        delivered[2],
        UpdateNotification::PlaybackRegion { .. }
    ));
    assert!(matches!(delivered[3], UpdateNotification::Document));
    assert_eq!(tracker.pending_count(), 0);
}

#[test]
fn ranges_and_flags_coalesce_and_reentrant_changes_wait_for_next_flush() {
    let [source, modification, _] = ids();
    let mut tracker = UpdateTracker::new();
    tracker
        .mark_source(
            source,
            Some(TimeRange::new(4.0, 2.0).unwrap()),
            ContentUpdateScopes::signal_remains_unchanged()
                .union(ContentUpdateScopes::timing_remains_unchanged()),
            UpdateOrigin::Application,
        )
        .unwrap();
    tracker
        .mark_source(
            source,
            Some(TimeRange::new(2.0, 3.0).unwrap()),
            ContentUpdateScopes::signal_remains_unchanged(),
            UpdateOrigin::Application,
        )
        .unwrap();
    let mut first = Vec::new();
    tracker.flush_with(|notification, pending| {
        first.push(notification);
        pending
            .mark_modification(
                modification,
                None,
                ContentUpdateScopes::empty(),
                UpdateOrigin::Application,
            )
            .unwrap();
    });
    let UpdateNotification::AudioSource { range, flags, .. } = &first[0] else {
        panic!("expected source notification")
    };
    let range = range.as_ref().unwrap();
    assert_eq!((range.start, range.duration), (2.0, 4.0));
    assert_eq!(*flags, ContentUpdateScopes::signal_remains_unchanged());
    assert_eq!(tracker.pending_count(), 1);

    let mut second = Vec::new();
    tracker.flush_with(|notification, _| second.push(notification));
    assert!(matches!(
        second.as_slice(),
        [UpdateNotification::AudioModification { .. }]
    ));
}

#[test]
fn host_and_restore_changes_do_not_echo_but_recovery_changes_do() {
    let [source, _, _] = ids();
    let mut tracker: UpdateTracker<TimeRange> = UpdateTracker::new();
    for origin in [UpdateOrigin::Host, UpdateOrigin::Restore] {
        tracker
            .mark_source(source, None, ContentUpdateScopes::empty(), origin)
            .unwrap();
    }
    assert_eq!(tracker.pending_count(), 0);
    tracker
        .mark_source(
            source,
            None,
            ContentUpdateScopes::empty(),
            UpdateOrigin::Recovery,
        )
        .unwrap();
    assert_eq!(tracker.pending_count(), 1);
}

#[test]
fn a_whole_object_change_absorbs_ranged_changes() {
    let [source, _, _] = ids();
    let mut tracker = UpdateTracker::new();
    tracker
        .mark_source(
            source,
            Some(TimeRange::new(1.0, 1.0).unwrap()),
            ContentUpdateScopes::notes_remain_unchanged(),
            UpdateOrigin::Application,
        )
        .unwrap();
    tracker
        .mark_source(source, None, ContentUpdateScopes::notes_remain_unchanged(), UpdateOrigin::Application)
        .unwrap();
    tracker
        .mark_source(
            source,
            Some(TimeRange::new(5.0, 1.0).unwrap()),
            ContentUpdateScopes::empty(),
            UpdateOrigin::Application,
        )
        .unwrap();
    assert_eq!(tracker.pending_count(), 1);
    let batch = tracker.take_batch();
    match &batch[0] {
        UpdateNotification::AudioSource { source: s, range, flags } => {
            assert_eq!(*s, source);
            assert!(range.is_none());
            assert!(flags.is_empty());
        }
        _ => panic!("expected source notification"),
    }
    assert_eq!(tracker.pending_count(), 0);
}

#[test]
fn a_failed_range_union_records_nothing() {
    let [source, _, _] = ids();
    let mut tracker = UpdateTracker::new();
    tracker
        .mark_source(
            source,
            Some(TimeRange { start: 0.0, duration: f64::MAX }),
            ContentUpdateScopes::empty(),
            UpdateOrigin::Application,
        )
        .unwrap();
    let refused = tracker.mark_source(
        source,
        Some(TimeRange { start: -f64::MAX, duration: 1.0 }),
        ContentUpdateScopes::signal_remains_unchanged(),
        UpdateOrigin::Application,
    );
    assert!(matches!(refused, Err(AraError::InvalidArgument(_))));
    let batch = tracker.take_batch();
    assert_eq!(batch.len(), 1);
    match &batch[0] {
        UpdateNotification::AudioSource { range, .. } => {
            assert_eq!(range.unwrap().duration, f64::MAX);
        }
        _ => panic!("expected source notification"),
    }
}

#[test]
fn document_changes_are_reported_once_per_flush() {
    let mut tracker: UpdateTracker<TimeRange> = UpdateTracker::new();
    tracker.mark_document(UpdateOrigin::Application);
    tracker.mark_document(UpdateOrigin::Recovery);
    tracker.mark_document(UpdateOrigin::Host);
    assert_eq!(tracker.pending_count(), 1);
    let batch = tracker.take_batch();
    assert!(matches!(batch.as_slice(), [UpdateNotification::Document]));
}

#[test]
fn scope_flags_combine_bitwise() {
    let both = ContentUpdateScopes::signal_remains_unchanged()
        .union(ContentUpdateScopes::timing_remains_unchanged());
    assert_eq!(both.bits(), 1 | 4);
    assert!(both.contains(ContentUpdateScopes::timing_remains_unchanged()));
    assert!(!both.contains(ContentUpdateScopes::notes_remain_unchanged()));
    assert_eq!(
        both.intersection(ContentUpdateScopes::signal_remains_unchanged()),
        ContentUpdateScopes::signal_remains_unchanged()
    );
    assert_eq!(ContentUpdateScopes::harmonics_remain_unchanged().bits(), 16);
    assert_eq!(ContentUpdateScopes::tuning_remains_unchanged().bits(), 8);
    assert_eq!(ContentUpdateScopes::notes_remain_unchanged().bits(), 2);
}

/// Time range in seconds used by these tests.
#[derive(Clone, Copy, Debug, PartialEq)]
struct TimeRange {
    start: f64,
    duration: f64,
}

impl TimeRange {
    fn new(start: f64, duration: f64) -> Result<Self, AraError> {
        if !start.is_finite() || !duration.is_finite() || duration < 0.0 {
            return Err(AraError::InvalidArgument("invalid time range"));
        }
        Ok(Self { start, duration })
    }
}

impl RangeUnion for TimeRange {
    fn spec_covering(&self, other: &Self) -> Result<Self, AraError> {
        self.covering(other)
    }

    fn covering(&self, other: &Self) -> Result<Self, AraError> {
        let start = self.start.min(other.start);
        let end = (self.start + self.duration).max(other.start + other.duration);
        TimeRange::new(start, end - start)
    }
}

fn ids() -> [RawHandle; 3] {
    [
        RawHandle { session: 1, id: 1 },
        RawHandle { session: 1, id: 2 },
        RawHandle { session: 1, id: 3 },
    ]
}
