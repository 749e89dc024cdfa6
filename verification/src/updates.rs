use crate::error::AraError;
use crate::handle::RawHandle;
use vstd::prelude::*;

verus! {

/// ARA content-update scopes: each set bit names a scope known to remain unchanged.
#[derive(Clone, Copy, Debug, PartialEq, Eq)]
pub struct ContentUpdateScopes {
    /// Raw `ARAContentUpdateFlags` bits.
    pub bits: u32,
}

impl ContentUpdateScopes {
    /// No scope is known to remain unchanged: everything may have changed.
    pub fn empty() -> (s: ContentUpdateScopes)
        ensures
            s.bits == 0,
    {
        ContentUpdateScopes { bits: 0 }
    }

    /// Keeps every given bit, known or not.
    pub fn from_bits_retain(bits: u32) -> (s: ContentUpdateScopes)
        ensures
            s.bits == bits,
    {
        ContentUpdateScopes { bits }
    }

    /// The audio signal remains unchanged.
    pub fn signal_remains_unchanged() -> (s: ContentUpdateScopes)
        ensures
            s.bits == 1,
    {
        ContentUpdateScopes { bits: 1 }
    }

    /// Note content remains unchanged.
    pub fn notes_remain_unchanged() -> (s: ContentUpdateScopes)
        ensures
            s.bits == 2,
    {
        ContentUpdateScopes { bits: 2 }
    }

    /// Timing content remains unchanged.
    pub fn timing_remains_unchanged() -> (s: ContentUpdateScopes)
        ensures
            s.bits == 4,
    {
        ContentUpdateScopes { bits: 4 }
    }

    /// Tuning content remains unchanged.
    pub fn tuning_remains_unchanged() -> (s: ContentUpdateScopes)
        ensures
            s.bits == 8,
    {
        ContentUpdateScopes { bits: 8 }
    }

    /// Harmonic content remains unchanged.
    pub fn harmonics_remain_unchanged() -> (s: ContentUpdateScopes)
        ensures
            s.bits == 16,
    {
        ContentUpdateScopes { bits: 16 }
    }

    /// Returns the raw bits.
    pub fn bits(self) -> (b: u32)
        ensures
            b == self.bits,
    {
        self.bits
    }

    /// Scopes unchanged in both values.
    pub open spec fn spec_intersection(self, other: ContentUpdateScopes) -> ContentUpdateScopes {
        ContentUpdateScopes { bits: self.bits & other.bits }
    }

    /// Returns the scopes that remain unchanged in both values.
    pub fn intersection(self, other: ContentUpdateScopes) -> (s: ContentUpdateScopes)
        ensures
            s == self.spec_intersection(other),
    {
        ContentUpdateScopes { bits: self.bits & other.bits }
    }

    /// Returns the scopes that remain unchanged in either value.
    pub fn union(self, other: ContentUpdateScopes) -> (s: ContentUpdateScopes)
        ensures
            s.bits == self.bits | other.bits,
    {
        ContentUpdateScopes { bits: self.bits | other.bits }
    }

    /// Returns whether every scope of `other` is also in `self`.
    pub fn contains(self, other: ContentUpdateScopes) -> (b: bool)
        ensures
            b == (self.bits & other.bits == other.bits),
    {
        self.bits & other.bits == other.bits
    }

    /// Returns whether no scope is known to remain unchanged.
    pub fn is_empty(self) -> (b: bool)
        ensures
            b == (self.bits == 0),
    {
        self.bits == 0
    }
}

/// Origin of a persistent-state mutation, used to suppress host echo notifications.
#[derive(Clone, Copy, Debug, PartialEq, Eq)]
pub enum UpdateOrigin {
    /// Application or analysis code produced a new persistent change.
    Application,
    /// Host-originated property or content input already known to the host.
    Host,
    /// State was copied directly from a host-provided archive.
    Restore,
    /// Recovery, conversion, or derived-state work produced an additional real change.
    Recovery,
}

impl UpdateOrigin {
    /// Changes the host does not already know about are reported back to it.
    pub open spec fn spec_should_notify(self) -> bool {
        self == UpdateOrigin::Application || self == UpdateOrigin::Recovery
    }

    /// Returns whether a change of this origin must be reported to the host.
    pub fn should_notify(self) -> (b: bool)
        ensures
            b == self.spec_should_notify(),
    {
        match self {
            UpdateOrigin::Application => true,
            UpdateOrigin::Host => false,
            UpdateOrigin::Restore => false,
            UpdateOrigin::Recovery => true,
        }
    }
}

/// A changed time range that can be widened to cover another one.
///
/// Implemented by the application's time-range type; the tracker only ever combines two ranges
/// recorded for the same object.
pub trait RangeUnion: Sized {
    /// The smallest range covering both `self` and `other`, or why it cannot be formed.
    spec fn spec_covering(&self, other: &Self) -> Result<Self, AraError>;

    /// Returns the smallest range covering both `self` and `other`, or why it cannot be formed.
    fn covering(&self, other: &Self) -> (r: Result<Self, AraError>)
        ensures
            r == self.spec_covering(other),
    ;
}

/// One pending object change: its identity, its changed range (`None` for the whole object) and
/// the scopes known to remain unchanged.
pub type PendingChange<R> = (RawHandle, Option<R>, ContentUpdateScopes);

/// No object occurs twice in a pending category.
pub open spec fn objects_unique<R>(s: Seq<PendingChange<R>>) -> bool {
    forall|i: int, j: int| 0 <= i < j < s.len() ==> s[i].0 != s[j].0
}

/// Whether a pending category already records `object`.
pub open spec fn records<R>(s: Seq<PendingChange<R>>, object: RawHandle) -> bool {
    exists|i: int| 0 <= i < s.len() && s[i].0 == object
}

/// One owned notification ready for delivery during `notifyModelUpdates`.
#[derive(Clone, Debug)]
pub enum UpdateNotification<R> {
    /// Persistent audio-source state changed.
    AudioSource {
        /// Runtime-owned audio-source identity.
        source: RawHandle,
        /// Coalesced changed range, or `None` for the entire object.
        range: Option<R>,
        /// Scopes known to remain unchanged across every coalesced mutation.
        flags: ContentUpdateScopes,
    },
    /// Persistent audio-modification state changed.
    AudioModification {
        /// Runtime-owned audio-modification identity.
        modification: RawHandle,
        /// Coalesced changed range, or `None` for the entire object.
        range: Option<R>,
        /// Scopes known to remain unchanged across every coalesced mutation.
        flags: ContentUpdateScopes,
    },
    /// Persistent playback-region state changed.
    PlaybackRegion {
        /// Runtime-owned playback-region identity.
        region: RawHandle,
        /// Coalesced changed range, or `None` for the entire object.
        range: Option<R>,
        /// Scopes known to remain unchanged across every coalesced mutation.
        flags: ContentUpdateScopes,
    },
    /// Private persistent document data changed.
    Document,
}

/// Notifications for a pending source category, in recording order.
pub open spec fn source_notifications<R>(s: Seq<PendingChange<R>>) -> Seq<UpdateNotification<R>> {
    s.map_values(
        |p: PendingChange<R>|
            UpdateNotification::AudioSource { source: p.0, range: p.1, flags: p.2 },
    )
}

/// Notifications for a pending modification category, in recording order.
pub open spec fn modification_notifications<R>(s: Seq<PendingChange<R>>) -> Seq<
    UpdateNotification<R>,
> {
    s.map_values(
        |p: PendingChange<R>|
            UpdateNotification::AudioModification { modification: p.0, range: p.1, flags: p.2 },
    )
}

/// Notifications for a pending region category, in recording order.
pub open spec fn region_notifications<R>(s: Seq<PendingChange<R>>) -> Seq<UpdateNotification<R>> {
    s.map_values(
        |p: PendingChange<R>|
            UpdateNotification::PlaybackRegion { region: p.0, range: p.1, flags: p.2 },
    )
}

/// Object category of a pending change.
#[derive(Clone, Copy, Debug, PartialEq, Eq)]
enum Category {
    Source,
    Modification,
    Region,
}

spec fn notifications_of<R>(category: Category, s: Seq<PendingChange<R>>) -> Seq<
    UpdateNotification<R>,
> {
    match category {
        Category::Source => source_notifications(s),
        Category::Modification => modification_notifications(s),
        Category::Region => region_notifications(s),
    }
}

fn notification_for<R>(category: Category, change: PendingChange<R>) -> (n: UpdateNotification<R>)
    ensures
        n == notifications_of(category, seq![change])[0],
{
    let (object, range, flags) = change;
    match category {
        Category::Source => UpdateNotification::AudioSource { source: object, range, flags },
        Category::Modification => UpdateNotification::AudioModification {
            modification: object,
            range,
            flags,
        },
        Category::Region => UpdateNotification::PlaybackRegion { region: object, range, flags },
    }
}

/// Moves every pending change of one category, in order, onto the end of `batch`.
fn drain_into<R>(
    batch: &mut Vec<UpdateNotification<R>>,
    pending: Vec<PendingChange<R>>,
    category: Category,
)
    ensures
        final(batch)@ == old(batch)@ + notifications_of(category, pending@),
{
    let ghost initial = pending@;
    let mut pending = pending;
    let ghost start = batch@;
    while pending.len() > 0
        invariant
            initial.len() >= pending@.len(),
            pending@ == initial.skip(initial.len() - pending@.len()),
            batch@ == start + notifications_of(
                category,
                initial.take(initial.len() - pending@.len()),
            ),
        decreases pending@.len(),
    {
        let ghost k = initial.len() - pending@.len();
        let change = pending.remove(0);
        let n = notification_for(category, change);
        batch.push(n);
        proof {
            assert(initial.take(k + 1) =~= initial.take(k).push(initial[k]));
            assert(pending@ =~= initial.skip(k + 1));
            assert(notifications_of(category, initial.take(k + 1)) =~= notifications_of(
                category,
                initial.take(k),
            ).push(n));
        }
    }
    proof {
        assert(initial.take(initial.len() as int) =~= initial);
    }
}

/// Abstract state of an update tracker.
pub struct TrackerView<R> {
    /// Pending audio-source changes in first-recorded order.
    pub sources: Seq<PendingChange<R>>,
    /// Pending audio-modification changes in first-recorded order.
    pub modifications: Seq<PendingChange<R>>,
    /// Pending playback-region changes in first-recorded order.
    pub regions: Seq<PendingChange<R>>,
    /// Whether private document data changed.
    pub document: bool,
}

impl<R> TrackerView<R> {
    /// The batch delivered by one flush: every source, then every modification, then every
    /// region, then the document notification.
    pub open spec fn batch(self) -> Seq<UpdateNotification<R>> {
        source_notifications(self.sources) + modification_notifications(self.modifications)
            + region_notifications(self.regions) + if self.document {
            seq![UpdateNotification::Document]
        } else {
            Seq::empty()
        }
    }

    /// Number of pending object and document notifications.
    pub open spec fn pending(self) -> nat {
        self.sources.len() + self.modifications.len() + self.regions.len() + if self.document {
            1nat
        } else {
            0nat
        }
    }

    /// No object is pending twice in one category.
    pub open spec fn wf(self) -> bool {
        objects_unique(self.sources) && objects_unique(self.modifications) && objects_unique(
            self.regions,
        )
    }

    /// Nothing is pending.
    pub open spec fn is_empty(self) -> bool {
        self.sources.len() == 0 && self.modifications.len() == 0 && self.regions.len() == 0
            && !self.document
    }
}

/// The category tag and object a notification names; `None` for the document.
pub open spec fn notified_object<R>(n: UpdateNotification<R>) -> Option<(int, RawHandle)> {
    match n {
        UpdateNotification::AudioSource { source, .. } => Some((0, source)),
        UpdateNotification::AudioModification { modification, .. } => Some((1, modification)),
        UpdateNotification::PlaybackRegion { region, .. } => Some((2, region)),
        UpdateNotification::Document => None,
    }
}

/// Coalescing law: one flush reports every object of every category at most once, and the
/// document at most once.
pub proof fn batch_names_each_object_once<R>(v: TrackerView<R>)
    requires
        v.wf(),
    ensures
        forall|i: int, j: int|
            0 <= i < j < v.batch().len() ==> notified_object(#[trigger] v.batch()[i])
                != notified_object(#[trigger] v.batch()[j]),
{
    let a = source_notifications(v.sources);
    let b = modification_notifications(v.modifications);
    let c = region_notifications(v.regions);
    let d: Seq<UpdateNotification<R>> = if v.document {
        seq![UpdateNotification::Document]
    } else {
        Seq::empty()
    };
    let batch = v.batch();
    assert(batch == a + b + c + d);
    let na = a.len() as int;
    let nb = b.len() as int;
    let nc = c.len() as int;
    assert forall|i: int, j: int| 0 <= i < j < batch.len() implies notified_object(
        #[trigger] batch[i],
    ) != notified_object(#[trigger] batch[j]) by {
        if j < na {
            assert(batch[i] == a[i] && batch[j] == a[j]);
            assert(v.sources[i].0 != v.sources[j].0);
        } else if j < na + nb {
            assert(batch[j] == b[j - na]);
            if i < na {
                assert(batch[i] == a[i]);
            } else {
                assert(batch[i] == b[i - na]);
                assert(v.modifications[i - na].0 != v.modifications[j - na].0);
            }
        } else if j < na + nb + nc {
            assert(batch[j] == c[j - na - nb]);
            if i < na {
                assert(batch[i] == a[i]);
            } else if i < na + nb {
                assert(batch[i] == b[i - na]);
            } else {
                assert(batch[i] == c[i - na - nb]);
                assert(v.regions[i - na - nb].0 != v.regions[j - na - nb].0);
            }
        } else {
            assert(batch[j] == d[j - na - nb - nc]);
            assert(d.len() <= 1);
            if i < na {
                assert(batch[i] == a[i]);
            } else if i < na + nb {
                assert(batch[i] == b[i - na]);
            } else if i < na + nb + nc {
                assert(batch[i] == c[i - na - nb]);
            }
        }
    }
}

/// Pending per-object and per-category state flushed only from `notifyModelUpdates`.
pub struct UpdateTracker<R> {
    sources: Vec<PendingChange<R>>,
    modifications: Vec<PendingChange<R>>,
    regions: Vec<PendingChange<R>>,
    document: bool,
}

impl<R> View for UpdateTracker<R> {
    type V = TrackerView<R>;

    closed spec fn view(&self) -> TrackerView<R> {
        TrackerView {
            sources: self.sources@,
            modifications: self.modifications@,
            regions: self.regions@,
            document: self.document,
        }
    }
}

impl<R> UpdateTracker<R> {
    #[verifier::type_invariant]
    closed spec fn inv(self) -> bool {
        self@.wf()
    }

    /// Creates an empty update tracker.
    pub fn new() -> (t: UpdateTracker<R>)
        ensures
            t@.is_empty(),
            t@.wf(),
    {
        UpdateTracker {
            sources: Vec::new(),
            modifications: Vec::new(),
            regions: Vec::new(),
            document: false,
        }
    }

    /// Marks private persistent document state changed.
    pub fn mark_document(&mut self, origin: UpdateOrigin)
        ensures
            final(self)@ == (TrackerView {
                document: old(self)@.document || origin.spec_should_notify(),
                ..old(self)@
            }),
            final(self)@.wf(),
    {
        proof {
            use_type_invariant(&*self);
        }
        self.document = self.document || origin.should_notify();
    }

    /// Returns the number of pending object and document notifications, saturating at the
    /// largest `usize`.
    pub fn pending_count(&self) -> (n: usize)
        ensures
            n == if self@.pending() <= usize::MAX {
                self@.pending()
            } else {
                usize::MAX as nat
            },
    {
        let document: usize = if self.document {
            1
        } else {
            0
        };
        self.sources.len().saturating_add(self.modifications.len()).saturating_add(
            self.regions.len(),
        ).saturating_add(document)
    }
}

impl<R> UpdateTracker<R> {
    /// Removes and returns the current batch in delivery order: sources, modifications,
    /// regions, then the document; the tracker is left empty.
    pub fn take_batch(&mut self) -> (batch: Vec<UpdateNotification<R>>)
        ensures
            batch@ == old(self)@.batch(),
            final(self)@.is_empty(),
            final(self)@.wf(),
    {
        proof {
            use_type_invariant(&*self);
        }
        let mut sources = Vec::new();
        std::mem::swap(&mut sources, &mut self.sources);
        let mut modifications = Vec::new();
        std::mem::swap(&mut modifications, &mut self.modifications);
        let mut regions = Vec::new();
        std::mem::swap(&mut regions, &mut self.regions);
        let document = self.document;
        self.document = false;
        let mut batch = Vec::new();
        drain_into(&mut batch, sources, Category::Source);
        drain_into(&mut batch, modifications, Category::Modification);
        drain_into(&mut batch, regions, Category::Region);
        if document {
            batch.push(UpdateNotification::Document);
        }
        proof {
            assert(batch@ =~= old(self)@.batch());
        }
        batch
    }

    /// Delivers the current batch in category order while retaining reentrant changes for the
    /// next flush: `deliver` receives each notification of `take_batch` in order together with
    /// the tracker, which is empty when the first notification is delivered.
    pub fn flush_with<F>(&mut self, mut deliver: F)
        where
            F: FnMut(UpdateNotification<R>, &mut UpdateTracker<R>),
        requires
            forall|n: UpdateNotification<R>, t: &mut UpdateTracker<R>|
                call_requires(deliver, (n, t)),
        ensures
            final(self)@.wf(),
            exists|trace: Seq<UpdateTracker<R>>| {
                &&& trace.len() == old(self)@.batch().len() + 1
                &&& trace[0]@.is_empty()
                &&& trace.last() == *final(self)
                &&& forall|i: int| 0 <= i < old(self)@.batch().len() ==> exists|t: &mut UpdateTracker<R>| {
                    &&& *t == #[trigger] trace[i]
                    &&& *final(t) == trace[i + 1]
                    &&& call_ensures(deliver, (old(self)@.batch()[i], t), ())
                }
            },
    {
        let ghost initial = deliver;
        let batch = self.take_batch();
        let ghost notifications = batch@;
        let ghost mut trace: Seq<UpdateTracker<R>> = seq![*self];
        for notification in iter: batch
            invariant
                deliver == initial,
                notifications == old(self)@.batch(),
                iter.seq() == notifications,
                forall|n: UpdateNotification<R>, t: &mut UpdateTracker<R>|
                    call_requires(deliver, (n, t)),
                self@.wf(),
                trace.len() == iter.index() + 1,
                trace[0]@.is_empty(),
                trace.last() == *self,
                forall|i: int| 0 <= i < iter.index() ==> exists|t: &mut UpdateTracker<R>| {
                    &&& *t == #[trigger] trace[i]
                    &&& *final(t) == trace[i + 1]
                    &&& call_ensures(deliver, (notifications[i], t), ())
                },
        {
            let ghost before = *self;
            let ghost k = iter.index();
            let step = &mut *self;
            let ghost reference = step;
            deliver(notification, step);
            proof {
                use_type_invariant(&*self);
                let old_trace = trace;
                trace = trace.push(*self);
                assert(notifications[k] == notification);
                assert forall|i: int| 0 <= i < k + 1 implies exists|t: &mut UpdateTracker<R>| {
                    &&& *t == #[trigger] trace[i]
                    &&& *final(t) == trace[i + 1]
                    &&& call_ensures(deliver, (notifications[i], t), ())
                } by {
                    if i < k {
                        assert(trace[i] == old_trace[i]);
                        assert(trace[i + 1] == old_trace[i + 1]);
                        assert(old_trace[i] == trace[i]);
                    } else {
                        assert(*reference == trace[i]);
                        assert(*final(reference) == trace[i + 1]);
                    }
                }
            }
        }
    }
}

impl<R: RangeUnion> UpdateTracker<R> {
    /// Marks persistent audio-source state changed.
    ///
    /// Only application and recovery changes are recorded; a repeated change of the same source
    /// is coalesced into its first record. Fails only when two recorded ranges cannot be
    /// combined, and then records nothing.
    pub fn mark_source(
        &mut self,
        source: RawHandle,
        range: Option<R>,
        flags: ContentUpdateScopes,
        origin: UpdateOrigin,
    ) -> (r: Result<(), AraError>)
        ensures
            !origin.spec_should_notify() ==> r is Ok && final(self)@ == old(self)@,
            !needs_union(old(self)@.sources, source, range) ==> r is Ok,
            origin.spec_should_notify() ==> (r is Ok <==> !needs_union(old(self)@.sources, source, range)
                || union_of(old(self)@.sources, source, range) is Ok),
            r matches Err(e) ==> union_of(old(self)@.sources, source, range) == Err::<R, AraError>(e),
            final(self)@.wf(),
            r is Err ==> final(self)@ == old(self)@,
            r is Ok && origin.spec_should_notify() ==> final(self)@.sources == merged(
                old(self)@.sources,
                source,
                range,
                flags,
                covering_of(old(self)@.sources, source, range),
            ),
            final(self)@.modifications == old(self)@.modifications,
            final(self)@.regions == old(self)@.regions,
            final(self)@.document == old(self)@.document,
    {
        proof {
            use_type_invariant(&*self);
        }
        if origin.should_notify() {
            let mut pending = Vec::new();
            std::mem::swap(&mut pending, &mut self.sources);
            let r = merge(&mut pending, source, range, flags);
            self.sources = pending;
            r
        } else {
            Ok(())
        }
    }

    /// Marks persistent audio-modification state changed, as `mark_source` does for sources.
    pub fn mark_modification(
        &mut self,
        modification: RawHandle,
        range: Option<R>,
        flags: ContentUpdateScopes,
        origin: UpdateOrigin,
    ) -> (r: Result<(), AraError>)
        ensures
            !origin.spec_should_notify() ==> r is Ok && final(self)@ == old(self)@,
            !needs_union(old(self)@.modifications, modification, range) ==> r is Ok,
            origin.spec_should_notify() ==> (r is Ok <==> !needs_union(old(self)@.modifications, modification, range)
                || union_of(old(self)@.modifications, modification, range) is Ok),
            r matches Err(e) ==> union_of(old(self)@.modifications, modification, range) == Err::<R, AraError>(e),
            final(self)@.wf(),
            r is Err ==> final(self)@ == old(self)@,
            r is Ok && origin.spec_should_notify() ==> final(self)@.modifications == merged(
                old(self)@.modifications,
                modification,
                range,
                flags,
                covering_of(old(self)@.modifications, modification, range),
            ),
            final(self)@.sources == old(self)@.sources,
            final(self)@.regions == old(self)@.regions,
            final(self)@.document == old(self)@.document,
    {
        proof {
            use_type_invariant(&*self);
        }
        if origin.should_notify() {
            let mut pending = Vec::new();
            std::mem::swap(&mut pending, &mut self.modifications);
            let r = merge(&mut pending, modification, range, flags);
            self.modifications = pending;
            r
        } else {
            Ok(())
        }
    }

    /// Marks persistent playback-region state changed, as `mark_source` does for sources.
    pub fn mark_region(
        &mut self,
        region: RawHandle,
        range: Option<R>,
        flags: ContentUpdateScopes,
        origin: UpdateOrigin,
    ) -> (r: Result<(), AraError>)
        ensures
            !origin.spec_should_notify() ==> r is Ok && final(self)@ == old(self)@,
            !needs_union(old(self)@.regions, region, range) ==> r is Ok,
            origin.spec_should_notify() ==> (r is Ok <==> !needs_union(old(self)@.regions, region, range)
                || union_of(old(self)@.regions, region, range) is Ok),
            r matches Err(e) ==> union_of(old(self)@.regions, region, range) == Err::<R, AraError>(e),
            final(self)@.wf(),
            r is Err ==> final(self)@ == old(self)@,
            r is Ok && origin.spec_should_notify() ==> final(self)@.regions == merged(
                old(self)@.regions,
                region,
                range,
                flags,
                covering_of(old(self)@.regions, region, range),
            ),
            final(self)@.sources == old(self)@.sources,
            final(self)@.modifications == old(self)@.modifications,
            final(self)@.document == old(self)@.document,
    {
        proof {
            use_type_invariant(&*self);
        }
        if origin.should_notify() {
            let mut pending = Vec::new();
            std::mem::swap(&mut pending, &mut self.regions);
            let r = merge(&mut pending, region, range, flags);
            self.regions = pending;
            r
        } else {
            Ok(())
        }
    }
}

/// The recorded change after `object` changed again over `range` with unchanged scopes `flags`.
///
/// A first change is appended; a repeated change keeps its position, widens its range to cover
/// both (`covering` is the widened range) or to the whole object when either was whole, and keeps
/// only the scopes unchanged in both.
pub open spec fn merged<R>(
    s: Seq<PendingChange<R>>,
    object: RawHandle,
    range: Option<R>,
    flags: ContentUpdateScopes,
    covering: R,
) -> Seq<PendingChange<R>> {
    if records(s, object) {
        let i = choose|i: int| 0 <= i < s.len() && s[i].0 == object;
        let new_range = match (s[i].1, range) {
            (Some(_), Some(_)) => Some(covering),
            _ => None,
        };
        s.update(i, (object, new_range, s[i].2.spec_intersection(flags)))
    } else {
        s.push((object, range, flags))
    }
}

/// Coalescing keeps a scope marked unchanged only when both changes declared it unchanged:
/// every scope bit of the intersection is set in both values, and every bit set in both values
/// is kept.
pub proof fn intersection_keeps_only_common_scopes(a: ContentUpdateScopes, b: ContentUpdateScopes, bit: u32)
    requires
        bit < 32,
    ensures
        (a.spec_intersection(b).bits & (1u32 << bit) != 0) == ((a.bits & (1u32 << bit) != 0) && (b.bits
            & (1u32 << bit) != 0)),
{
    let x = a.bits;
    let y = b.bits;
    assert(((x & y) & (1u32 << bit) != 0) == ((x & (1u32 << bit) != 0) && (y & (1u32 << bit) != 0)))
        by (bit_vector)
        requires
            bit < 32,
    ;
}

/// When a later change of an already pending object is coalesced, the pending entry keeps a
/// scope marked unchanged only when the earlier entry and the later change both declared it
/// unchanged; its object stays the same and no other entry changes.
pub proof fn coalesced_flags_are_common_to_both_changes<R>(
    s: Seq<PendingChange<R>>,
    i: int,
    range: Option<R>,
    flags: ContentUpdateScopes,
    covering: R,
    bit: u32,
)
    requires
        objects_unique(s),
        0 <= i < s.len(),
        bit < 32,
    ensures
        merged(s, s[i].0, range, flags, covering).len() == s.len(),
        merged(s, s[i].0, range, flags, covering)[i].0 == s[i].0,
        (merged(s, s[i].0, range, flags, covering)[i].2.bits & (1u32 << bit) != 0) == ((s[i].2.bits & (1u32
            << bit) != 0) && (flags.bits & (1u32 << bit) != 0)),
        forall|j: int| 0 <= j < s.len() && j != i ==> merged(s, s[i].0, range, flags, covering)[j] == s[j],
{
    let object = s[i].0;
    assert(records(s, object));
    let k = choose|k: int| 0 <= k < s.len() && s[k].0 == object;
    assert(k == i);
    intersection_keeps_only_common_scopes(s[i].2, flags, bit);
}

/// Marking the document changed twice in a row has the effect of marking it once: the second
/// mark changes nothing, and the first adds one pending notification exactly when the origin
/// notifies and no document change was pending.
pub proof fn document_marking_is_idempotent<R>(v: TrackerView<R>, origin: UpdateOrigin)
    ensures
        ({
            let once = TrackerView { document: v.document || origin.spec_should_notify(), ..v };
            let twice = TrackerView { document: once.document || origin.spec_should_notify(), ..once };
            &&& twice == once
            &&& once.pending() == v.pending() + if origin.spec_should_notify() && !v.document {
                1nat
            } else {
                0nat
            }
        }),
{
}

/// The recorded change of `object`; meaningful when `records(s, object)`.
pub open spec fn recorded<R>(s: Seq<PendingChange<R>>, object: RawHandle) -> PendingChange<R> {
    s[choose|i: int| 0 <= i < s.len() && s[i].0 == object]
}

/// The union of the recorded range of `object` with `range`, as the range type forms it;
/// meaningful when `needs_union(s, object, range)`.
pub open spec fn union_of<R: RangeUnion>(s: Seq<PendingChange<R>>, object: RawHandle, range: Option<R>) -> Result<
    R,
    AraError,
> {
    recorded(s, object).1->0.spec_covering(&range->0)
}

/// The range covering the recorded range of `object` and `range` when both exist and their
/// union can be formed.
pub open spec fn covering_of<R: RangeUnion>(s: Seq<PendingChange<R>>, object: RawHandle, range: Option<R>) -> R {
    match union_of(s, object, range) {
        Ok(c) => c,
        Err(_) => arbitrary(),
    }
}

/// Whether coalescing `range` into the recorded change of `object` needs a range union.
pub open spec fn needs_union<R>(s: Seq<PendingChange<R>>, object: RawHandle, range: Option<R>) -> bool {
    records(s, object) && range is Some && s[choose|i: int|
        0 <= i < s.len() && s[i].0 == object].1 is Some
}

fn merge<R: RangeUnion>(
    pending: &mut Vec<PendingChange<R>>,
    object: RawHandle,
    range: Option<R>,
    flags: ContentUpdateScopes,
) -> (r: Result<(), AraError>)
    requires
        objects_unique(old(pending)@),
    ensures
        objects_unique(final(pending)@),
        r is Ok <==> !needs_union(old(pending)@, object, range) || union_of(old(pending)@, object, range) is Ok,
        r matches Err(e) ==> union_of(old(pending)@, object, range) == Err::<R, AraError>(e),
        r is Err ==> final(pending)@ == old(pending)@,
        r is Ok ==> final(pending)@ == merged(old(pending)@, object, range, flags, covering_of(old(pending)@, object, range)),
{
    let n = pending.len();
    let mut i: usize = 0;
    while i < n
        invariant
            n == pending.len(),
            pending@ == old(pending)@,
            objects_unique(pending@),
            0 <= i <= n,
            forall|j: int| 0 <= j < i ==> pending@[j].0 != object,
        decreases n - i,
    {
        if pending[i].0.same(&object) {
            proof {
                assert(records(pending@, object));
                let k = choose|k: int| 0 <= k < pending@.len() && pending@[k].0 == object;
                assert(k == i as int);
            }
            let new_range = match (&pending[i].1, &range) {
                (Some(existing), Some(incoming)) => {
                    match existing.covering(incoming) {
                        Ok(c) => Some(c),
                        Err(e) => {
                            proof {
                                assert(needs_union(old(pending)@, object, range));
                            }
                            return Err(e);
                        },
                    }
                },
                _ => None,
            };
            let new_flags = pending[i].2.intersection(flags);
            let ghost before = pending@;
            let ghost g_range = new_range;
            pending.set(i, (object, new_range, new_flags));
            proof {
                assert forall|a: int, b: int| 0 <= a < b < pending@.len() implies pending@[a].0
                    != pending@[b].0 by {
                    if a != i && b != i {
                        assert(before[a].0 != before[b].0);
                    }
                }
                assert(pending@ == merged(before, object, range, flags, covering_of(before, object, range)));
            }
            return Ok(());
        }
        i += 1;
    }
    proof {
        assert(!records(pending@, object));
    }
    pending.push((object, range, flags));
    proof {
        assert forall|a: int, b: int| 0 <= a < b < pending@.len() implies pending@[a].0
            != pending@[b].0 by {
            if b == n {
                assert(old(pending)@[a].0 != object);
            }
        }
        assert(pending@ == merged(old(pending)@, object, range, flags, arbitrary()));
    }
    Ok(())
}

} // verus!
