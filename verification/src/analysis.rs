use crate::builder::{all_unique, ints_unique};
use crate::error::AraError;
use crate::handle::RawHandle;
use crate::seqset::{keyed, keys_unique, lemma_keyed_at, lemma_keyed_push, lemma_keyed_remove, lemma_keyed_update};
use vstd::prelude::*;

verus! {

/// An analysis progress fraction as the application represents it.
pub trait AnalysisFraction: Copy {
    /// Progress of a job that has just started.
    spec fn spec_started() -> Self;

    /// Whether the value is a finite fraction in `0..1`.
    spec fn spec_is_unit_fraction(&self) -> bool;

    /// Whether `next` is finite, not below `self`, and below one.
    spec fn spec_advances_to(&self, next: &Self) -> bool;

    /// Progress of a job that has just started.
    fn started() -> (q: Self)
        ensures
            q == Self::spec_started(),
    ;

    /// Whether the value is a finite fraction in `0..1`.
    fn is_unit_fraction(&self) -> (b: bool)
        ensures
            b == self.spec_is_unit_fraction(),
    ;

    /// Whether `next` is finite, not below `self`, and below one.
    fn advances_to(&self, next: &Self) -> (b: bool)
        ensures
            b == self.spec_advances_to(next),
    ;
}

/// Ordered analysis progress emitted toward the host.
#[derive(Clone, Copy, Debug, PartialEq)]
pub enum AnalysisProgress<Q> {
    /// The job started at zero progress.
    Started,
    /// The job advanced monotonically to the contained fraction.
    Updated(Q),
    /// The job completed at one.
    Completed,
    /// The job was synchronously cancelled because access or object lifetime ended.
    Cancelled,
}

/// One active analysis job.
pub struct Job<Q> {
    /// Requested content types, without repetition.
    pub content_types: Vec<i32>,
    /// Latest delivered progress.
    pub progress: Q,
}

/// Model-thread analysis registry keyed by audio-source identity.
pub struct AnalysisCoordinator<Q> {
    jobs: Vec<(RawHandle, Job<Q>)>,
}

impl<Q> AnalysisCoordinator<Q> {
    /// The active job of `source`: its content types and latest progress.
    pub closed spec fn job(self, source: RawHandle) -> Option<(Seq<i32>, Q)> {
        match keyed(self.jobs@, source) {
            Some(j) => Some((j.content_types@, j.progress)),
            None => None,
        }
    }

    #[verifier::type_invariant]
    closed spec fn inv(self) -> bool {
        keys_unique(self.jobs@)
    }
}

impl<Q: AnalysisFraction> AnalysisCoordinator<Q> {
    /// Creates a coordinator with no active job.
    pub fn new() -> (c: AnalysisCoordinator<Q>)
        ensures
            forall|s: RawHandle| c.job(s) is None,
    {
        AnalysisCoordinator { jobs: Vec::new() }
    }

    fn find(&self, source: RawHandle) -> (r: Option<usize>)
        ensures
            r is Some <==> keyed(self.jobs@, source) is Some,
            r matches Some(i) ==> i < self.jobs@.len() && self.jobs@[i as int].0 == source,
    {
        proof {
            use_type_invariant(self);
        }
        let n = self.jobs.len();
        let mut i: usize = 0;
        while i < n
            invariant
                n == self.jobs@.len(),
                0 <= i <= n,
                forall|j: int| 0 <= j < i ==> self.jobs@[j].0 != source,
            decreases n - i,
        {
            if self.jobs[i].0.same(&source) {
                return Some(i);
            }
            i += 1;
        }
        None
    }

    /// Starts one job and rejects empty, duplicate, or already-active requests.
    ///
    /// Fails with `InvalidArgument` for an empty or repeating content-type list and with
    /// `InvalidState` while the source already has a job; only the new job is added.
    pub fn start(&mut self, source: RawHandle, content_types: Vec<i32>) -> (r: Result<
        AnalysisProgress<Q>,
        AraError,
    >)
        ensures
            content_types@.len() == 0 || !ints_unique(content_types@) ==> (r matches Err(e)
                && e is InvalidArgument),
            content_types@.len() > 0 && ints_unique(content_types@) && old(self).job(source) is Some
                ==> (r matches Err(e) && e is InvalidState),
            r is Ok <==> content_types@.len() > 0 && ints_unique(content_types@) && old(self).job(
                source,
            ) is None,
            r matches Ok(p) ==> p is Started,
            r is Ok ==> final(self).job(source) == Some((content_types@, Q::spec_started())),
            forall|s: RawHandle| s != source ==> final(self).job(s) == old(self).job(s),
            r is Err ==> final(self).job(source) == old(self).job(source),
    {
        proof {
            use_type_invariant(&*self);
        }
        if content_types.len() == 0 || !all_unique(&content_types) {
            return Err(AraError::InvalidArgument("analysis content types must be nonempty and unique"));
        }
        if self.find(source).is_some() {
            return Err(AraError::InvalidState("audio source analysis is already active"));
        }
        let job = Job { content_types, progress: Q::started() };
        let ghost before = self.jobs@;
        proof {
            lemma_keyed_push(before, source, job);
        }
        let mut jobs = Vec::new();
        std::mem::swap(&mut jobs, &mut self.jobs);
        jobs.push((source, job));
        proof {
            assert(jobs@ == before.push((source, job)));
        }
        self.jobs = jobs;
        Ok(AnalysisProgress::Started)
    }

    /// Advances one active job to `progress`.
    ///
    /// Fails with `InvalidState` when the source has no job and with `InvalidArgument` when the
    /// job's progress does not advance to `progress`; nothing changes on failure.
    pub fn update(&mut self, source: RawHandle, progress: Q) -> (r: Result<AnalysisProgress<Q>, AraError>)
        ensures
            old(self).job(source) is None ==> (r matches Err(e) && e is InvalidState),
            r matches Ok(p) ==> p == AnalysisProgress::Updated(progress),
            r is Ok ==> (old(self).job(source) matches Some(j) && final(self).job(source) == Some(
                (j.0, progress),
            )),
            r is Err ==> final(self).job(source) == old(self).job(source),
            r matches Err(e) ==> e is InvalidState || e is InvalidArgument,
            old(self).job(source) is Some ==> (r matches Err(e) ==> e is InvalidArgument),
            r is Ok <==> (old(self).job(source) matches Some(j) && j.1.spec_advances_to(&progress)),
            forall|s: RawHandle| s != source ==> final(self).job(s) == old(self).job(s),
    {
        proof {
            use_type_invariant(&*self);
        }
        let i = match self.find(source) {
            Some(i) => i,
            None => {
                return Err(AraError::InvalidState("audio source analysis is not active"));
            },
        };
        if !self.jobs[i].1.progress.advances_to(&progress) {
            return Err(
                AraError::InvalidArgument("analysis progress must increase and remain below one"),
            );
        }
        let ghost before = self.jobs@;
        let mut jobs = Vec::new();
        std::mem::swap(&mut jobs, &mut self.jobs);
        let (key, job) = jobs.remove(i);
        let updated = Job { content_types: job.content_types, progress };
        let ghost new_job = updated;
        jobs.insert(i, (key, updated));
        proof {
            assert(jobs@ =~= before.update(i as int, (before[i as int].0, new_job)));
            lemma_keyed_update(before, i as int, new_job);
            lemma_keyed_at(before, i as int);
        }
        self.jobs = jobs;
        Ok(AnalysisProgress::Updated(progress))
    }

    /// Completes and removes one active job.
    ///
    /// Fails with `InvalidState`, changing nothing, when the source has no job.
    pub fn complete(&mut self, source: RawHandle) -> (r: Result<AnalysisProgress<Q>, AraError>)
        ensures
            r is Ok <==> old(self).job(source) is Some,
            r matches Ok(p) ==> p is Completed,
            r matches Err(e) ==> e is InvalidState,
            final(self).job(source) is None,
            forall|s: RawHandle| s != source ==> final(self).job(s) == old(self).job(s),
    {
        match self.remove_job(source) {
            true => Ok(AnalysisProgress::Completed),
            false => Err(AraError::InvalidState("audio source analysis is not active")),
        }
    }

    /// Cancels one job synchronously, returning `Cancelled` when a job was active.
    pub fn cancel(&mut self, source: RawHandle) -> (r: Option<AnalysisProgress<Q>>)
        ensures
            r is Some <==> old(self).job(source) is Some,
            r matches Some(p) ==> p is Cancelled,
            final(self).job(source) is None,
            forall|s: RawHandle| s != source ==> final(self).job(s) == old(self).job(s),
    {
        if self.remove_job(source) {
            Some(AnalysisProgress::Cancelled)
        } else {
            None
        }
    }

    fn remove_job(&mut self, source: RawHandle) -> (removed: bool)
        ensures
            removed == old(self).job(source) is Some,
            final(self).job(source) is None,
            forall|s: RawHandle| s != source ==> final(self).job(s) == old(self).job(s),
    {
        proof {
            use_type_invariant(&*self);
        }
        match self.find(source) {
            Some(i) => {
                let ghost before = self.jobs@;
                proof {
                    lemma_keyed_remove(before, i as int);
                }
                let mut jobs = Vec::new();
                std::mem::swap(&mut jobs, &mut self.jobs);
                jobs.remove(i);
                self.jobs = jobs;
                true
            },
            None => false,
        }
    }

    /// Returns whether the source's active job includes a content type.
    pub fn contains(&self, source: RawHandle, content_type: i32) -> (b: bool)
        ensures
            b == (self.job(source) matches Some(j) && j.0.contains(content_type)),
    {
        proof {
            use_type_invariant(self);
        }
        match self.find(source) {
            Some(i) => {
                proof {
                    lemma_keyed_at(self.jobs@, i as int);
                }
                let types = &self.jobs[i].1.content_types;
                let n = types.len();
                let mut k: usize = 0;
                while k < n
                    invariant
                        n == types@.len(),
                        i < self.jobs@.len(),
                        keyed(self.jobs@, source) == Some(self.jobs@[i as int].1),
                        types@ == self.jobs@[i as int].1.content_types@,
                        0 <= k <= n,
                        forall|j: int| 0 <= j < k ==> types@[j] != content_type,
                    decreases n - k,
                {
                    if types[k] == content_type {
                        proof {
                            assert(types@[k as int] == content_type);
                        }
                        return true;
                    }
                    k += 1;
                }
                false
            },
            None => false,
        }
    }
}

/// Analysis progress queued by worker threads for delivery on the model thread.
#[derive(Clone, Copy, Debug)]
pub enum PendingAnalysisProgress<Q> {
    /// A job advanced to the contained fraction.
    Updated(RawHandle, Q),
    /// A job completed.
    Completed(RawHandle),
}

/// Source an event belongs to.
pub open spec fn event_source<Q>(e: PendingAnalysisProgress<Q>) -> RawHandle {
    match e {
        PendingAnalysisProgress::Updated(s, _) => s,
        PendingAnalysisProgress::Completed(s) => s,
    }
}

/// One queued progress event applied to the analysis jobs: a completion is `accepted` exactly
/// when the source's job was active, and ends it; an update is accepted exactly when the
/// source's job is active and its progress advances to the new one, which it then records, and
/// a rejected update changes nothing. No other source's job changes.
pub open spec fn analysis_step<Q: AnalysisFraction>(
    before: AnalysisCoordinator<Q>,
    after: AnalysisCoordinator<Q>,
    event: PendingAnalysisProgress<Q>,
    accepted: bool,
) -> bool {
    &&& forall|t: RawHandle| t != event_source(event) ==> #[trigger] after.job(t) == before.job(t)
    &&& match event {
        PendingAnalysisProgress::Completed(s) => {
            &&& accepted == before.job(s) is Some
            &&& after.job(s) is None
        },
        PendingAnalysisProgress::Updated(s, q) => {
            &&& accepted == (before.job(s) matches Some(j) && j.1.spec_advances_to(&q))
            &&& accepted ==> (before.job(s) matches Some(j) && after.job(s) == Some((j.0, q)))
            &&& !accepted ==> after.job(s) == before.job(s)
        },
    }
}

/// Ordered queue of analysis progress awaiting model-thread delivery.
pub struct ProgressQueue<Q> {
    events: Vec<PendingAnalysisProgress<Q>>,
}

impl<Q: AnalysisFraction> ProgressQueue<Q> {
    /// Queued events in arrival order.
    pub closed spec fn events(self) -> Seq<PendingAnalysisProgress<Q>> {
        self.events@
    }

    /// Creates an empty queue.
    pub fn new() -> (q: ProgressQueue<Q>)
        ensures
            q.events().len() == 0,
    {
        ProgressQueue { events: Vec::new() }
    }

    /// Queues an in-progress fraction, failing with `InvalidArgument`, queuing nothing, unless
    /// it is a finite fraction in `0..1`.
    pub fn update(&mut self, source: RawHandle, progress: Q) -> (r: Result<(), AraError>)
        ensures
            r is Ok <==> progress.spec_is_unit_fraction(),
            r matches Err(e) ==> e is InvalidArgument,
            r is Ok ==> final(self).events() == old(self).events().push(
                PendingAnalysisProgress::Updated(source, progress),
            ),
            r is Err ==> final(self).events() == old(self).events(),
    {
        if !progress.is_unit_fraction() {
            return Err(AraError::InvalidArgument("analysis progress must be finite and in 0..1"));
        }
        self.events.push(PendingAnalysisProgress::Updated(source, progress));
        Ok(())
    }

    /// Queues successful analysis completion.
    pub fn complete(&mut self, source: RawHandle)
        ensures
            final(self).events() == old(self).events().push(PendingAnalysisProgress::Completed(source)),
    {
        self.events.push(PendingAnalysisProgress::Completed(source));
    }

    /// Removes and returns every queued event in arrival order.
    pub fn take_pending(&mut self) -> (events: Vec<PendingAnalysisProgress<Q>>)
        ensures
            events@ == old(self).events(),
            final(self).events().len() == 0,
    {
        let mut events = Vec::new();
        std::mem::swap(&mut events, &mut self.events);
        events
    }

    /// Drops every queued event of one source, keeping the others in order.
    pub fn cancel(&mut self, source: RawHandle)
        ensures
            final(self).events() == old(self).events().filter(
                |e: PendingAnalysisProgress<Q>| event_source(e) != source,
            ),
    {
        let mut kept = Vec::new();
        let n = self.events.len();
        let ghost initial = self.events@;
        let ghost keep = |e: PendingAnalysisProgress<Q>| event_source(e) != source;
        let mut i: usize = 0;
        while i < n
            invariant
                n == self.events@.len(),
                initial == self.events@,
                keep == (|e: PendingAnalysisProgress<Q>| event_source(e) != source),
                0 <= i <= n,
                kept@ == initial.take(i as int).filter(keep),
            decreases n - i,
        {
            let e = self.events[i];
            let s = match e {
                PendingAnalysisProgress::Updated(s, _) => s,
                PendingAnalysisProgress::Completed(s) => s,
            };
            proof {
                assert(initial.take(i + 1) =~= initial.take(i as int).push(e));
                initial.take(i as int).lemma_filter_push(e, keep);
            }
            if !s.same(&source) {
                kept.push(e);
            }
            i += 1;
        }
        proof {
            assert(initial.take(n as int) =~= initial);
        }
        self.events = kept;
    }
}

} // verus!
