use ara2_bridge_plugin::{
    validate_snapshot_keys,
    contains_nul, is_nonempty_ascii, validate_audio_file_chunk, AlgorithmSelection,
    AnalysisCoordinator, AnalysisFraction, AnalysisProgress, AraError, AudioFileChunk,
    PartialPersistence, PendingAnalysisProgress, Persistence, PersistenceAdapter, ProgressQueue,
    RawHandle,
};

#[test]
fn algorithm_selection_validates_the_catalog_index() {
    let source = RawHandle { session: 1, id: 4 };
    let mut none = AlgorithmSelection::new(None);
    assert!(matches!(none.request_algorithm(source, 0), Err(AraError::Unsupported(_))));
    let mut selection = AlgorithmSelection::new(Some(3));
    assert!(matches!(selection.active_algorithm(source), Err(AraError::InvalidState(_))));
    assert!(matches!(selection.request_algorithm(source, 3), Err(AraError::InvalidArgument(_))));
    assert!(matches!(selection.request_algorithm(source, -1), Err(AraError::InvalidArgument(_))));
    selection.request_algorithm(source, 2).unwrap();
    selection.request_algorithm(source, 1).unwrap();
    assert_eq!(selection.active_algorithm(source), Ok(1));
    assert!(selection.active_algorithm(RawHandle { session: 1, id: 5 }).is_err());
}

#[test]
fn audio_file_chunks_need_a_nonempty_ascii_archive_id_without_nul() {
    let chunk = |id: &str| AudioFileChunk {
        bytes: vec![1, 2, 3],
        document_archive_id: String::from(id),
        open_automatically: true,
    };
    assert_eq!(validate_audio_file_chunk(chunk("archive.id")), Ok(chunk("archive.id")));
    assert!(matches!(validate_audio_file_chunk(chunk("")), Err(AraError::InvalidArgument(_))));
    assert!(matches!(validate_audio_file_chunk(chunk("é")), Err(AraError::InvalidArgument(_))));
    assert!(matches!(
        validate_audio_file_chunk(chunk("a\u{0}b")),
        Err(AraError::InvalidArgument(_))
    ));
    assert!(is_nonempty_ascii("id"));
    assert!(!is_nonempty_ascii(""));
    assert!(contains_nul("a\u{0}"));
    assert!(!contains_nul("a"));
}

#[test]
fn document_restores_are_balanced_and_stores_reach_the_delegate() {
    let mut adapter = PersistenceAdapter::new(Archive::default());
    assert!(matches!(adapter.end_restore(), Err(AraError::InvalidState(_))));
    assert!(adapter.begin_restore(b"bad").is_err());
    assert!(!adapter.is_restoring());
    adapter.begin_restore(b"doc").unwrap();
    assert!(adapter.is_restoring());
    assert!(matches!(adapter.begin_restore(b"doc"), Err(AraError::InvalidState(_))));
    assert_eq!(adapter.delegate().restored, vec![b"doc".to_vec()]);
    adapter.end_restore().unwrap();
    assert!(!adapter.is_restoring());
    assert_eq!(adapter.store_document().unwrap(), b"doc".to_vec());
    adapter.restore_objects(&vec![7], b"part").unwrap();
    assert_eq!(adapter.store_objects(&vec![7]).unwrap(), vec![7]);
    adapter.delegate_mut().restored.clear();
    assert!(adapter.delegate().restored.is_empty());
}

#[test]
fn analysis_jobs_advance_monotonically_and_complete_once() {
    let source = RawHandle { session: 1, id: 9 };
    let mut jobs: AnalysisCoordinator<Fraction> = AnalysisCoordinator::new();
    assert!(matches!(jobs.start(source, vec![]), Err(AraError::InvalidArgument(_))));
    assert!(matches!(jobs.start(source, vec![3, 3]), Err(AraError::InvalidArgument(_))));
    assert_eq!(jobs.start(source, vec![3, 4]), Ok(AnalysisProgress::Started));
    assert!(matches!(jobs.start(source, vec![3]), Err(AraError::InvalidState(_))));
    assert!(jobs.contains(source, 4));
    assert_eq!(jobs.update(source, Fraction(0.5)), Ok(AnalysisProgress::Updated(Fraction(0.5))));
    assert!(matches!(jobs.update(source, Fraction(0.25)), Err(AraError::InvalidArgument(_))));
    assert_eq!(jobs.complete(source), Ok(AnalysisProgress::Completed));
    assert!(matches!(jobs.complete(source), Err(AraError::InvalidState(_))));
    assert_eq!(jobs.cancel(source), None);
    jobs.start(source, vec![3]).unwrap();
    assert_eq!(jobs.cancel(source), Some(AnalysisProgress::Cancelled));
    assert!(!jobs.contains(source, 3));
}

#[test]
fn queued_progress_is_validated_and_cancelled_per_source() {
    let first = RawHandle { session: 1, id: 1 };
    let second = RawHandle { session: 1, id: 2 };
    let mut queue: ProgressQueue<Fraction> = ProgressQueue::new();
    assert!(matches!(queue.update(first, Fraction(1.5)), Err(AraError::InvalidArgument(_))));
    queue.update(first, Fraction(0.5)).unwrap();
    queue.update(second, Fraction(0.5)).unwrap();
    queue.complete(first);
    queue.cancel(first);
    let events = queue.take_pending();
    assert_eq!(events.len(), 1);
    assert!(matches!(events[0], PendingAnalysisProgress::Updated(s, _) if s == second));
    assert!(queue.take_pending().is_empty());
}

/// Analysis progress as a fraction of one.
#[derive(Clone, Copy, Debug, PartialEq)]
struct Fraction(f32);

impl AnalysisFraction for Fraction {
    fn spec_started() -> Self {
        Self::started()
    }

    fn spec_is_unit_fraction(&self) -> bool {
        self.is_unit_fraction()
    }

    fn spec_advances_to(&self, next: &Self) -> bool {
        self.advances_to(next)
    }

    fn started() -> Self {
        Fraction(0.0)
    }

    fn is_unit_fraction(&self) -> bool {
        self.0.is_finite() && (0.0..1.0).contains(&self.0)
    }

    fn advances_to(&self, next: &Self) -> bool {
        next.is_unit_fraction() && next.0 >= self.0
    }
}

#[derive(Default)]
struct Archive {
    restored: Vec<Vec<u8>>,
}

impl Persistence for Archive {
    fn restore_document(&mut self, bytes: &[u8]) -> Result<(), AraError> {
        if bytes == b"bad" {
            return Err(AraError::Peer("corrupt archive"));
        }
        self.restored.push(bytes.to_vec());
        Ok(())
    }

    fn store_document(&mut self) -> Result<Vec<u8>, AraError> {
        Ok(self.restored.last().cloned().unwrap_or_default())
    }
}

impl PartialPersistence for Archive {
    type RestoreSelection = Vec<u8>;
    type StoreSelection = Vec<u8>;

    fn restore_objects(&mut self, _filter: &Vec<u8>, bytes: &[u8]) -> Result<(), AraError> {
        self.restored.push(bytes.to_vec());
        Ok(())
    }

    fn store_objects(&mut self, filter: &Vec<u8>) -> Result<Vec<u8>, AraError> {
        Ok(filter.clone())
    }
}

#[test]
fn snapshot_keys_must_be_distinct_and_within_capacity() {
    assert!(validate_snapshot_keys(&vec![3, 5, 8], 3).is_ok());
    assert!(matches!(
        validate_snapshot_keys(&vec![3, 5, 3], 8),
        Err(AraError::InvalidArgument(_))
    ));
    assert!(matches!(
        validate_snapshot_keys(&vec![3, 5, 8], 2),
        Err(AraError::InvalidArgument(_))
    ));
    assert!(validate_snapshot_keys(&vec![], 0).is_ok());
}

#[test]
fn analysis_progress_must_advance_for_an_active_job() {
    let source = RawHandle { session: 1, id: 4 };
    let mut analysis: AnalysisCoordinator<Fraction> = AnalysisCoordinator::new();
    assert!(matches!(analysis.update(source, Fraction(0.5)), Err(AraError::InvalidState(_))));
    analysis.start(source, vec![1]).unwrap();
    assert_eq!(analysis.update(source, Fraction(0.5)), Ok(AnalysisProgress::Updated(Fraction(0.5))));
    assert!(matches!(analysis.update(source, Fraction(0.25)), Err(AraError::InvalidArgument(_))));
    assert!(matches!(analysis.update(source, Fraction(1.0)), Err(AraError::InvalidArgument(_))));
    assert_eq!(analysis.update(source, Fraction(0.75)), Ok(AnalysisProgress::Updated(Fraction(0.75))));
}
