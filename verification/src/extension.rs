use crate::error::AraError;
use crate::generation::{ApiGeneration, TargetArch};
use crate::seqset::{lemma_push_fresh, lemma_remove_at, lemma_set_unchanged};
use vstd::prelude::*;

verus! {

/// ARA 2 renderer and view roles, as raw role bits.
#[derive(Clone, Copy, Debug, PartialEq, Eq)]
pub struct ExtensionRoles {
    /// Raw `ARAPlugInInstanceRoleFlags` bits.
    pub bits: i32,
}

/// Every role the runtime knows.
pub open spec fn all_role_bits() -> i32 {
    7
}

impl ExtensionRoles {
    /// No role.
    pub fn empty() -> (r: ExtensionRoles)
        ensures
            r.bits == 0,
    {
        ExtensionRoles { bits: 0 }
    }

    /// Every known role.
    pub fn all() -> (r: ExtensionRoles)
        ensures
            r.bits == all_role_bits(),
    {
        ExtensionRoles { bits: 7 }
    }

    /// Playback renderer assignment.
    pub fn playback_renderer() -> (r: ExtensionRoles)
        ensures
            r.bits == 1,
    {
        ExtensionRoles { bits: 1 }
    }

    /// Editor renderer assignment.
    pub fn editor_renderer() -> (r: ExtensionRoles)
        ensures
            r.bits == 2,
    {
        ExtensionRoles { bits: 2 }
    }

    /// Editor view assignment.
    pub fn editor_view() -> (r: ExtensionRoles)
        ensures
            r.bits == 4,
    {
        ExtensionRoles { bits: 4 }
    }

    /// Returns the raw bits.
    pub fn bits(self) -> (b: i32)
        ensures
            b == self.bits,
    {
        self.bits
    }

    /// Returns the roles in either value.
    pub fn union(self, other: ExtensionRoles) -> (r: ExtensionRoles)
        ensures
            r.bits == self.bits | other.bits,
    {
        ExtensionRoles { bits: self.bits | other.bits }
    }

    /// Returns whether every role of `other` is in `self`.
    pub fn contains(self, other: ExtensionRoles) -> (b: bool)
        ensures
            b == (self.bits & other.bits == other.bits),
    {
        self.bits & other.bits == other.bits
    }

    /// Whether exactly one role bit is set.
    pub open spec fn spec_is_single(self) -> bool {
        (self.bits as u32) != 0 && (self.bits as u32) & (((self.bits as u32) - 1) as u32) == 0
    }

    /// Returns whether exactly one role bit is set.
    pub fn is_single(self) -> (b: bool)
        ensures
            b == self.spec_is_single(),
    {
        let raw = self.bits as u32;
        raw != 0 && raw & (raw - 1) == 0
    }

    /// Roles enabled for known, assigned and supported roles, or `None` when an assigned role is
    /// not declared known: `supported & (!known | assigned)`, complements taken within the known
    /// roles.
    pub open spec fn spec_resolve(known: ExtensionRoles, assigned: ExtensionRoles, supported: ExtensionRoles) -> Option<
        ExtensionRoles,
    > {
        if assigned.bits & (!known.bits & 7) != 0 {
            None
        } else {
            Some(ExtensionRoles { bits: supported.bits & ((!known.bits & 7) | assigned.bits) })
        }
    }

    /// Resolves enabled roles using `supported & (!known | assigned)` and rejects assigned roles
    /// that are not declared known, with `InvalidArgument`.
    pub fn resolve(known: ExtensionRoles, assigned: ExtensionRoles, supported: ExtensionRoles) -> (r:
        Result<ExtensionRoles, AraError>)
        ensures
            r is Ok <==> Self::spec_resolve(known, assigned, supported) is Some,
            r matches Ok(roles) ==> Self::spec_resolve(known, assigned, supported) == Some(roles),
            r matches Err(e) ==> e is InvalidArgument,
    {
        let unknown = !known.bits & 7;
        if assigned.bits & unknown != 0 {
            return Err(
                AraError::InvalidArgument("assigned extension roles must be declared known"),
            );
        }
        Ok(ExtensionRoles { bits: supported.bits & (unknown | assigned.bits) })
    }
}

/// Enabled roles are always supported roles, and a role that is known but not assigned is never
/// enabled.
pub proof fn resolved_roles_are_supported_and_assigned(
    known: ExtensionRoles,
    assigned: ExtensionRoles,
    supported: ExtensionRoles,
)
    requires
        ExtensionRoles::spec_resolve(known, assigned, supported) is Some,
    ensures
        ({
            let e = ExtensionRoles::spec_resolve(known, assigned, supported)->0.bits;
            &&& e & supported.bits == e
            &&& e & known.bits & !assigned.bits == 0
        }),
{
    let e = ExtensionRoles::spec_resolve(known, assigned, supported)->0.bits;
    let k = known.bits;
    let a = assigned.bits;
    let s = supported.bits;
    assert(e == s & ((!k & 7) | a));
    assert((s & ((!k & 7) | a)) & s == s & ((!k & 7) | a)) by (bit_vector);
    assert((s & ((!k & 7) | a)) & k & !a == 0) by (bit_vector);
}

/// A single role names exactly one role bit: two single roles are equal or share no bit, and
/// the union of two different single roles is never single.
pub proof fn single_roles_name_one_bit(a: ExtensionRoles, b: ExtensionRoles)
    requires
        a.spec_is_single(),
        b.spec_is_single(),
    ensures
        a.bits != 0,
        a.bits == b.bits || a.bits & b.bits == 0,
        a.bits != b.bits ==> !(ExtensionRoles { bits: a.bits | b.bits }).spec_is_single(),
{
    let x = a.bits;
    let y = b.bits;
    assert(x as u32 != 0 && (x as u32) & (((x as u32) - 1) as u32) == 0 && y as u32 != 0 && (y as u32) & (
    ((y as u32) - 1) as u32) == 0 ==> {
        &&& x != 0
        &&& (x == y || x & y == 0)
        &&& (x != y ==> !((x | y) as u32 != 0 && ((x | y) as u32) & ((((x | y) as u32) - 1) as u32) == 0))
    }) by (bit_vector);
}

/// Most objects one view notification may name.
pub open spec fn max_view_objects() -> usize {
    1048576
}

/// Owned copy of one editor-view selection notification.
#[derive(Clone, Debug)]
pub struct ExtensionViewSelection<R> {
    /// Selected playback-region keys in caller order.
    pub playback_regions: Vec<usize>,
    /// Selected region-sequence keys in caller order.
    pub region_sequences: Vec<usize>,
    /// The selected time range, if any.
    pub time_range: Option<R>,
}

/// Abstract state of an extension binding.
pub struct ExtensionView<R> {
    /// Whether the document controller is still alive.
    pub controller_alive: bool,
    /// Enabled ARA 2 roles.
    pub enabled: ExtensionRoles,
    /// Whether the ARA 1 extension is represented instead.
    pub legacy: bool,
    /// Playback-region assignments as (role bits, region key).
    pub playback_regions: Set<(i32, usize)>,
    /// Region-sequence keys assigned to the editor renderer.
    pub region_sequences: Set<usize>,
    /// The latest fully copied editor-view selection, if any.
    pub selection: Option<ExtensionViewSelection<R>>,
    /// The latest hidden region-sequence keys.
    pub hidden: Seq<usize>,
}

/// Role resolution, assignment bookkeeping and view notifications for one extension binding.
pub struct ExtensionBinding<R> {
    controller_alive: bool,
    enabled: ExtensionRoles,
    legacy: bool,
    playback_regions: Vec<(i32, usize)>,
    region_sequences: Vec<usize>,
    selection: Option<ExtensionViewSelection<R>>,
    hidden_sequences: Vec<usize>,
}

impl<R> View for ExtensionBinding<R> {
    type V = ExtensionView<R>;

    closed spec fn view(&self) -> ExtensionView<R> {
        ExtensionView {
            controller_alive: self.controller_alive,
            enabled: self.enabled,
            legacy: self.legacy,
            playback_regions: self.playback_regions@.to_set(),
            region_sequences: self.region_sequences@.to_set(),
            selection: self.selection,
            hidden: self.hidden_sequences@,
        }
    }
}

fn insert_pair(v: &mut Vec<(i32, usize)>, x: (i32, usize)) -> (inserted: bool)
    requires
        old(v)@.no_duplicates(),
    ensures
        final(v)@.no_duplicates(),
        final(v)@.to_set() == old(v)@.to_set().insert(x),
        inserted == !old(v)@.to_set().contains(x),
        !inserted ==> final(v)@ == old(v)@,
{
    let n = v.len();
    let mut i: usize = 0;
    while i < n
        invariant
            n == v.len(),
            v@ == old(v)@,
            old(v)@.no_duplicates(),
            0 <= i <= n,
            forall|j: int| 0 <= j < i ==> v@[j] != x,
        decreases n - i,
    {
        if v[i].0 == x.0 && v[i].1 == x.1 {
            proof {
                assert(v@.contains(x));
                lemma_set_unchanged(v@, x);
            }
            return false;
        }
        i += 1;
    }
    proof {
        assert(!v@.contains(x));
        lemma_push_fresh(v@, x);
    }
    v.push(x);
    true
}

fn remove_pair(v: &mut Vec<(i32, usize)>, x: (i32, usize)) -> (removed: bool)
    requires
        old(v)@.no_duplicates(),
    ensures
        final(v)@.no_duplicates(),
        final(v)@.to_set() == old(v)@.to_set().remove(x),
        removed == old(v)@.to_set().contains(x),
        !removed ==> final(v)@ == old(v)@,
{
    let n = v.len();
    let mut i: usize = 0;
    while i < n
        invariant
            n == v.len(),
            v@ == old(v)@,
            old(v)@.no_duplicates(),
            0 <= i <= n,
            forall|j: int| 0 <= j < i ==> v@[j] != x,
        decreases n - i,
    {
        if v[i].0 == x.0 && v[i].1 == x.1 {
            proof {
                lemma_remove_at(v@, i as int);
                assert(v@.contains(x));
            }
            v.remove(i);
            return true;
        }
        i += 1;
    }
    proof {
        assert(!v@.contains(x));
        lemma_set_unchanged(v@, x);
    }
    false
}

fn insert_key(v: &mut Vec<usize>, x: usize)
    requires
        old(v)@.no_duplicates(),
    ensures
        final(v)@.no_duplicates(),
        final(v)@.to_set() == old(v)@.to_set().insert(x),
{
    let n = v.len();
    let mut i: usize = 0;
    while i < n
        invariant
            n == v.len(),
            v@ == old(v)@,
            old(v)@.no_duplicates(),
            0 <= i <= n,
            forall|j: int| 0 <= j < i ==> v@[j] != x,
        decreases n - i,
    {
        if v[i] == x {
            proof {
                assert(v@.contains(x));
                lemma_set_unchanged(v@, x);
            }
            return;
        }
        i += 1;
    }
    proof {
        assert(!v@.contains(x));
        lemma_push_fresh(v@, x);
    }
    v.push(x);
}

fn remove_key(v: &mut Vec<usize>, x: usize)
    requires
        old(v)@.no_duplicates(),
    ensures
        final(v)@.no_duplicates(),
        final(v)@.to_set() == old(v)@.to_set().remove(x),
{
    let n = v.len();
    let mut i: usize = 0;
    while i < n
        invariant
            n == v.len(),
            v@ == old(v)@,
            old(v)@.no_duplicates(),
            0 <= i <= n,
            forall|j: int| 0 <= j < i ==> v@[j] != x,
        decreases n - i,
    {
        if v[i] == x {
            proof {
                lemma_remove_at(v@, i as int);
            }
            v.remove(i);
            return;
        }
        i += 1;
    }
    proof {
        assert(!v@.contains(x));
        lemma_set_unchanged(v@, x);
    }
}

impl<R> ExtensionBinding<R> {
    /// Assignment lists never repeat an entry.
    #[verifier::type_invariant]
    closed spec fn wf(self) -> bool {
        self.playback_regions@.no_duplicates() && self.region_sequences@.no_duplicates()
    }

    /// Resolves roles and creates the binding with no assignment.
    ///
    /// Fails with `Unsupported` for a generation unavailable on `target`; ARA 1 bindings enable
    /// no ARA 2 role and represent the legacy extension instead; otherwise fails as `resolve`.
    pub fn new(
        generation: ApiGeneration,
        known: ExtensionRoles,
        assigned: ExtensionRoles,
        supported: ExtensionRoles,
        target: TargetArch,
    ) -> (r: Result<ExtensionBinding<R>, AraError>)
        ensures
            !generation.spec_supported_on(target) ==> (r matches Err(e) && e is Unsupported),
            r is Ok <==> generation.spec_supported_on(target) && (generation.spec_is_legacy()
                || ExtensionRoles::spec_resolve(known, assigned, supported) is Some),
            r matches Ok(b) ==> {
                &&& b@.controller_alive
                &&& b@.legacy == generation.spec_is_legacy()
                &&& b@.enabled == if generation.spec_is_legacy() {
                    ExtensionRoles { bits: 0 }
                } else {
                    ExtensionRoles::spec_resolve(known, assigned, supported)->0
                }
                &&& b@.playback_regions.is_empty()
                &&& b@.region_sequences.is_empty()
                &&& b.spec_selection() is None
                &&& b.hidden().len() == 0
            },
            r matches Err(e) ==> e is Unsupported || e is InvalidArgument,
            generation.spec_supported_on(target) ==> (r matches Err(e) ==> e is InvalidArgument),
    {
        if !generation.supported_on(target) {
            return Err(AraError::Unsupported("extension generation is unavailable on this target"));
        }
        let legacy = generation.is_legacy();
        let enabled = if legacy {
            ExtensionRoles::empty()
        } else {
            ExtensionRoles::resolve(known, assigned, supported)?
        };
        let b = ExtensionBinding {
            controller_alive: true,
            enabled,
            legacy,
            playback_regions: Vec::new(),
            region_sequences: Vec::new(),
            selection: None,
            hidden_sequences: Vec::new(),
        };
        proof {
            assert(b.playback_regions@.to_set() =~= Set::empty());
            assert(b.region_sequences@.to_set() =~= Set::empty());
        }
        Ok(b)
    }

    /// Returns the enabled ARA 2 role set.
    pub fn enabled_roles(&self) -> (r: ExtensionRoles)
        ensures
            r == self@.enabled,
    {
        self.enabled
    }

    /// Returns whether the deprecated ARA 1 extension pair is represented.
    pub fn has_legacy_extension(&self) -> (b: bool)
        ensures
            b == self@.legacy,
    {
        self.legacy
    }

    /// Returns whether the document controller still accepts role calls.
    pub fn controller_alive(&self) -> (b: bool)
        ensures
            b == self@.controller_alive,
    {
        self.controller_alive
    }

    /// Tombstones controller-facing role calls after the document controller is destroyed.
    pub fn destroy_controller(&mut self)
        ensures
            final(self)@ == (ExtensionView { controller_alive: false, ..old(self)@ }),
    {
        proof {
            use_type_invariant(&*self);
        }
        self.controller_alive = false;
    }

    /// Assigns a playback region to one enabled renderer role.
    ///
    /// Fails with `InvalidState` after controller teardown or when already assigned, and with
    /// `InvalidArgument` for a null region or a role that is not exactly one enabled role bit.
    pub fn add_playback_region(&mut self, role: ExtensionRoles, region_key: usize) -> (r: Result<
        (),
        AraError,
    >)
        ensures
            !old(self)@.controller_alive ==> (r matches Err(e) && e is InvalidState),
            old(self)@.controller_alive && (region_key == 0 || old(self)@.enabled.bits & role.bits
                != role.bits || !role.spec_is_single()) ==> (r matches Err(e) && e is InvalidArgument),
            r is Ok <==> old(self)@.controller_alive && region_key != 0 && old(self)@.enabled.bits
                & role.bits == role.bits && role.spec_is_single()
                && !old(self)@.playback_regions.contains((role.bits, region_key)),
            old(self)@.controller_alive && region_key != 0 && old(self)@.enabled.bits & role.bits
                == role.bits && role.spec_is_single() && old(self)@.playback_regions.contains(
                (role.bits, region_key),
            ) ==> (r matches Err(e) && e is InvalidState),
            r is Ok ==> final(self)@ == (ExtensionView {
                playback_regions: old(self)@.playback_regions.insert((role.bits, region_key)),
                ..old(self)@
            }),
            r is Err ==> final(self)@ == old(self)@,
            old(self)@.playback_regions.finite() && final(self)@.playback_regions.finite(),
            r is Ok ==> final(self)@.playback_regions.len() == old(self)@.playback_regions.len() + 1,
    {
        proof {
            use_type_invariant(&*self);
            broadcast use vstd::seq_lib::seq_to_set_is_finite;
        }
        if !self.controller_alive {
            return Err(AraError::InvalidState("document controller has been destroyed"));
        }
        if region_key == 0 || !self.enabled.contains(role) || !role.is_single() {
            return Err(AraError::InvalidArgument("playback region role is not enabled"));
        }
        let mut regions = Vec::new();
        std::mem::swap(&mut regions, &mut self.playback_regions);
        let inserted = insert_pair(&mut regions, (role.bits, region_key));
        self.playback_regions = regions;
        if !inserted {
            return Err(AraError::InvalidState("playback region is already assigned to this role"));
        }
        Ok(())
    }

    /// Removes a playback region from one renderer role.
    ///
    /// Fails with `InvalidState`, changing nothing, after controller teardown or when the
    /// region is not assigned to the role.
    pub fn remove_playback_region(&mut self, role: ExtensionRoles, region_key: usize) -> (r: Result<
        (),
        AraError,
    >)
        ensures
            r is Ok <==> old(self)@.controller_alive && old(self)@.playback_regions.contains(
                (role.bits, region_key),
            ),
            r matches Err(e) ==> e is InvalidState,
            final(self)@ == (ExtensionView {
                playback_regions: old(self)@.playback_regions.remove((role.bits, region_key)),
                ..old(self)@
            }) || final(self)@ == old(self)@,
            r is Ok ==> final(self)@ == (ExtensionView {
                playback_regions: old(self)@.playback_regions.remove((role.bits, region_key)),
                ..old(self)@
            }),
            old(self)@.playback_regions.finite() && final(self)@.playback_regions.finite(),
            r is Ok ==> final(self)@.playback_regions.len() + 1 == old(self)@.playback_regions.len(),
    {
        proof {
            use_type_invariant(&*self);
            broadcast use vstd::seq_lib::seq_to_set_is_finite;
        }
        if !self.controller_alive {
            return Err(AraError::InvalidState("document controller has been destroyed"));
        }
        let mut regions = Vec::new();
        std::mem::swap(&mut regions, &mut self.playback_regions);
        let removed = remove_pair(&mut regions, (role.bits, region_key));
        self.playback_regions = regions;
        if !removed {
            return Err(AraError::InvalidState("playback region is not assigned to this role"));
        }
        Ok(())
    }

    /// Editor-renderer sequence assignment: recorded only while the controller is alive, the
    /// editor renderer is enabled and the key is not null.
    pub fn add_region_sequence(&mut self, sequence_key: usize)
        ensures
            final(self)@ == if old(self)@.controller_alive && old(self)@.enabled.bits & 2 == 2
                && sequence_key != 0 {
                ExtensionView {
                    region_sequences: old(self)@.region_sequences.insert(sequence_key),
                    ..old(self)@
                }
            } else {
                old(self)@
            },
    {
        proof {
            use_type_invariant(&*self);
        }
        if self.controller_alive && self.enabled.contains(ExtensionRoles::editor_renderer())
            && sequence_key != 0 {
            let mut sequences = Vec::new();
            std::mem::swap(&mut sequences, &mut self.region_sequences);
            insert_key(&mut sequences, sequence_key);
            self.region_sequences = sequences;
        }
    }

    /// Editor-renderer sequence removal, honoured while the controller is alive.
    pub fn remove_region_sequence(&mut self, sequence_key: usize)
        ensures
            final(self)@ == if old(self)@.controller_alive {
                ExtensionView {
                    region_sequences: old(self)@.region_sequences.remove(sequence_key),
                    ..old(self)@
                }
            } else {
                old(self)@
            },
    {
        proof {
            use_type_invariant(&*self);
        }
        if self.controller_alive {
            let mut sequences = Vec::new();
            std::mem::swap(&mut sequences, &mut self.region_sequences);
            remove_key(&mut sequences, sequence_key);
            self.region_sequences = sequences;
        }
    }

    /// ARA 1 `setPlaybackRegion`: assigns the region to both renderer roles and selects it.
    pub fn legacy_set_playback_region(&mut self, region_key: usize)
        ensures
            old(self)@.controller_alive && old(self)@.legacy && region_key != 0 ==> {
                &&& final(self)@ == (ExtensionView {
                    playback_regions: old(self)@.playback_regions.insert((1, region_key)).insert(
                        (2, region_key),
                    ),
                    selection: final(self)@.selection,
                    ..old(self)@
                })
                &&& final(self)@.selection matches Some(selection) && selection.playback_regions@
                    == seq![region_key] && selection.region_sequences@.len() == 0
                    && selection.time_range is None
            },
            !(old(self)@.controller_alive && old(self)@.legacy && region_key != 0) ==> final(self)@
                == old(self)@,
    {
        proof {
            use_type_invariant(&*self);
        }
        if self.controller_alive && self.legacy && region_key != 0 {
            let mut regions = Vec::new();
            std::mem::swap(&mut regions, &mut self.playback_regions);
            insert_pair(&mut regions, (1, region_key));
            insert_pair(&mut regions, (2, region_key));
            self.playback_regions = regions;
            let mut regions = Vec::new();
            regions.push(region_key);
            self.selection = Some(
                ExtensionViewSelection {
                    playback_regions: regions,
                    region_sequences: Vec::new(),
                    time_range: None,
                },
            );
        }
    }

    /// ARA 1 `removePlaybackRegion`: removes the region from both renderer roles and clears a
    /// selection of exactly that region.
    pub fn legacy_remove_playback_region(&mut self, region_key: usize)
        ensures
            old(self)@.controller_alive && old(self)@.legacy ==> {
                &&& final(self)@ == (ExtensionView {
                    playback_regions: old(self)@.playback_regions.remove((1, region_key)).remove(
                        (2, region_key),
                    ),
                    selection: if old(self).selected_regions() == Some(seq![region_key]) {
                        None
                    } else {
                        old(self)@.selection
                    },
                    ..old(self)@
                })
            },
            !(old(self)@.controller_alive && old(self)@.legacy) ==> final(self)@ == old(self)@,
    {
        proof {
            use_type_invariant(&*self);
        }
        if self.controller_alive && self.legacy {
            let mut regions = Vec::new();
            std::mem::swap(&mut regions, &mut self.playback_regions);
            remove_pair(&mut regions, (1, region_key));
            remove_pair(&mut regions, (2, region_key));
            self.playback_regions = regions;
            let clear = match &self.selection {
                Some(selection) => selection.playback_regions.len() == 1
                    && selection.playback_regions[0] == region_key,
                None => false,
            };
            if clear {
                proof {
                    assert(self.selection->0.playback_regions@ =~= seq![region_key]);
                }
                self.selection = None;
            } else {
                proof {
                    if self.selection is Some {
                        assert(self.selection->0.playback_regions@ != seq![region_key]);
                    }
                }
            }
        }
    }

    /// The latest fully copied editor-view selection, if any.
    pub open spec fn spec_selection(self) -> Option<ExtensionViewSelection<R>> {
        self@.selection
    }

    /// The selected playback-region keys of the latest selection, if any.
    pub open spec fn selected_regions(self) -> Option<Seq<usize>> {
        match self.spec_selection() {
            Some(s) => Some(s.playback_regions@),
            None => None,
        }
    }

    /// Records a fully copied editor-view selection while the controller is alive and the
    /// selection names at most `max_view_objects` regions and sequences.
    pub fn notify_selection(&mut self, selection: ExtensionViewSelection<R>)
        ensures
            final(self)@ == (ExtensionView {
                selection: if old(self)@.controller_alive && selection.playback_regions@.len()
                    <= max_view_objects() && selection.region_sequences@.len() <= max_view_objects() {
                    Some(selection)
                } else {
                    old(self)@.selection
                },
                ..old(self)@
            }),
    {
        proof {
            use_type_invariant(&*self);
        }
        if self.controller_alive && selection.playback_regions.len() <= 1048576
            && selection.region_sequences.len() <= 1048576 {
            self.selection = Some(selection);
        }
    }

    /// Records the hidden region-sequence keys while the controller is alive and at most
    /// `max_view_objects` keys are given.
    pub fn notify_hide_region_sequences(&mut self, sequences: Vec<usize>)
        ensures
            final(self)@ == (ExtensionView {
                hidden: if old(self)@.controller_alive && sequences@.len() <= max_view_objects() {
                    sequences@
                } else {
                    old(self)@.hidden
                },
                ..old(self)@
            }),
    {
        proof {
            use_type_invariant(&*self);
        }
        if self.controller_alive && sequences.len() <= 1048576 {
            self.hidden_sequences = sequences;
        }
    }

    /// The latest hidden region-sequence keys.
    pub open spec fn hidden(self) -> Seq<usize> {
        self@.hidden
    }

    /// Returns the most recent fully copied editor-view selection.
    pub fn view_selection(&self) -> (s: Option<&ExtensionViewSelection<R>>)
        ensures
            match s {
                Some(v) => self.spec_selection() == Some(*v),
                None => self.spec_selection() is None,
            },
    {
        self.selection.as_ref()
    }

    /// Returns the most recent hidden-sequence keys.
    pub fn hidden_region_sequences(&self) -> (h: &[usize])
        ensures
            h@ == self.hidden(),
    {
        self.hidden_sequences.as_slice()
    }

    /// Returns the current playback-region and region-sequence assignment counts.
    pub fn assignment_counts(&self) -> (c: (usize, usize))
        ensures
            c.0 == self@.playback_regions.len(),
            c.1 == self@.region_sequences.len(),
    {
        proof {
            use_type_invariant(&*self);
        }
        proof {
            self.playback_regions@.unique_seq_to_set();
            self.region_sequences@.unique_seq_to_set();
        }
        (self.playback_regions.len(), self.region_sequences.len())
    }
}

} // verus!
