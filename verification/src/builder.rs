use crate::entry::PluginEntry;
use crate::error::AraError;
use crate::slots::CallbackSlots;
use crate::generation::{ApiGeneration, TargetArch};
use crate::text::{contains_nul, has_nul, is_nonempty_ascii, nonempty_ascii};
use vstd::prelude::*;

verus! {

/// ARA playback transformations a factory supports, as raw flag bits.
#[derive(Clone, Copy, Debug, PartialEq, Eq)]
pub struct PlaybackTransformationFlags {
    /// Raw `ARAPlaybackTransformationFlags` bits.
    pub bits: u32,
}

impl PlaybackTransformationFlags {
    /// No transformation.
    pub fn empty() -> (f: PlaybackTransformationFlags)
        ensures
            f.bits == 0,
    {
        PlaybackTransformationFlags { bits: 0 }
    }

    /// Time-stretching.
    pub fn timestretch() -> (f: PlaybackTransformationFlags)
        ensures
            f.bits == 1,
    {
        PlaybackTransformationFlags { bits: 1 }
    }

    /// Time-stretching that reflects tempo changes.
    pub fn reflect_tempo() -> (f: PlaybackTransformationFlags)
        ensures
            f.bits == 2,
    {
        PlaybackTransformationFlags { bits: 2 }
    }

    /// Content-based fade at the region head.
    pub fn content_fade_at_head() -> (f: PlaybackTransformationFlags)
        ensures
            f.bits == 4,
    {
        PlaybackTransformationFlags { bits: 4 }
    }

    /// Content-based fade at the region tail.
    pub fn content_fade_at_tail() -> (f: PlaybackTransformationFlags)
        ensures
            f.bits == 8,
    {
        PlaybackTransformationFlags { bits: 8 }
    }

    /// Keeps every given bit, known or not.
    pub fn from_bits_retain(bits: u32) -> (f: PlaybackTransformationFlags)
        ensures
            f.bits == bits,
    {
        PlaybackTransformationFlags { bits }
    }

    /// Returns the raw bits.
    pub fn bits(self) -> (b: u32)
        ensures
            b == self.bits,
    {
        self.bits
    }

    /// Returns the flags set in either value.
    pub fn union(self, other: PlaybackTransformationFlags) -> (f: PlaybackTransformationFlags)
        ensures
            f.bits == self.bits | other.bits,
    {
        PlaybackTransformationFlags { bits: self.bits | other.bits }
    }

    /// Whether every flag of `other` is also set here.
    pub open spec fn spec_contains(self, other: PlaybackTransformationFlags) -> bool {
        self.bits & other.bits == other.bits
    }

    /// Returns whether every flag of `other` is also set here.
    pub fn contains(self, other: PlaybackTransformationFlags) -> (b: bool)
        ensures
            b == self.spec_contains(other),
    {
        self.bits & other.bits == other.bits
    }
}

/// Whether advertised playback transformations are coherent: tempo reflection comes with
/// time-stretching, and the two content-based fades are advertised together or not at all.
pub open spec fn transformations_coherent(bits: u32) -> bool {
    &&& (bits & 2 != 0 ==> bits & 1 != 0)
    &&& (bits & 12 == 0 || bits & 12 == 12)
}

/// No value occurs twice.
pub open spec fn ints_unique(s: Seq<i32>) -> bool {
    forall|i: int, j: int| 0 <= i < j < s.len() ==> s[i] != s[j]
}

/// No text occurs twice.
pub open spec fn texts_unique(s: Seq<Seq<char>>) -> bool {
    forall|i: int, j: int| 0 <= i < j < s.len() ==> s[i] != s[j]
}

/// The views of a list of strings.
pub open spec fn texts(s: Seq<String>) -> Seq<Seq<char>> {
    s.map_values(|x: String| x@)
}

pub(crate) fn all_unique(values: &Vec<i32>) -> (b: bool)
    ensures
        b == ints_unique(values@),
{
    let n = values.len();
    let mut i: usize = 0;
    while i < n
        invariant
            n == values.len(),
            0 <= i <= n,
            forall|a: int, b: int| 0 <= a < b < n && a < i ==> values@[a] != values@[b],
        decreases n - i,
    {
        let mut j: usize = i + 1;
        while j < n
            invariant
                n == values.len(),
                0 <= i < n,
                i + 1 <= j <= n,
                forall|a: int, b: int| 0 <= a < b < n && a < i ==> values@[a] != values@[b],
                forall|b: int| i < b < j ==> values@[i as int] != values@[b],
            decreases n - j,
        {
            if values[i] == values[j] {
                return false;
            }
            j += 1;
        }
        i += 1;
    }
    true
}

/// Capabilities advertised by an immutable ARA factory.
#[derive(Clone, Debug)]
pub struct FactoryCapabilities {
    /// Content types accepted for analysis.
    pub analyzable_content_types: Vec<i32>,
    /// Supported playback transformations.
    pub playback_transformations: PlaybackTransformationFlags,
    /// Whether the plug-in persists data in audio-file chunks.
    pub stores_audio_file_chunks: bool,
}

impl Default for FactoryCapabilities {
    fn default() -> (c: FactoryCapabilities)
        ensures
            c.analyzable_content_types@.len() == 0,
            c.playback_transformations.bits == 0,
            !c.stores_audio_file_chunks,
    {
        FactoryCapabilities {
            analyzable_content_types: Vec::new(),
            playback_transformations: PlaybackTransformationFlags { bits: 0 },
            stores_audio_file_chunks: false,
        }
    }
}

impl FactoryCapabilities {
    /// Advertises the content types accepted for analysis.
    pub fn with_analyzable_content_types(self, content_types: Vec<i32>) -> (c: FactoryCapabilities)
        ensures
            c.analyzable_content_types@ == content_types@,
            c.playback_transformations == self.playback_transformations,
            c.stores_audio_file_chunks == self.stores_audio_file_chunks,
    {
        FactoryCapabilities { analyzable_content_types: content_types, ..self }
    }

    /// Advertises supported playback transformations.
    pub fn with_playback_transformations(self, flags: PlaybackTransformationFlags) -> (c:
        FactoryCapabilities)
        ensures
            c.analyzable_content_types@ == self.analyzable_content_types@,
            c.playback_transformations == flags,
            c.stores_audio_file_chunks == self.stores_audio_file_chunks,
    {
        FactoryCapabilities { playback_transformations: flags, ..self }
    }

    /// Advertises whether the plug-in persists data in audio-file chunks.
    pub fn with_audio_file_chunk_storage(self, supported: bool) -> (c: FactoryCapabilities)
        ensures
            c.analyzable_content_types@ == self.analyzable_content_types@,
            c.playback_transformations == self.playback_transformations,
            c.stores_audio_file_chunks == supported,
    {
        FactoryCapabilities { stores_audio_file_chunks: supported, ..self }
    }

    /// Whether the capabilities may be advertised.
    pub open spec fn spec_valid(self) -> bool {
        transformations_coherent(self.playback_transformations.bits) && ints_unique(
            self.analyzable_content_types@,
        )
    }
}

/// Checks advertised capabilities, failing with `InvalidArgument` when they are incoherent or
/// repeat a content type.
pub fn validate_capabilities(capabilities: &FactoryCapabilities) -> (r: Result<(), AraError>)
    ensures
        r is Ok <==> capabilities.spec_valid(),
        r matches Err(e) ==> e is InvalidArgument,
{
    let flags = capabilities.playback_transformations.bits;
    if flags & 2 != 0 && flags & 1 == 0 {
        return Err(AraError::InvalidArgument("tempo reflection requires timestretch support"));
    }
    let fades = flags & 12;
    if fades != 0 && fades != 12 {
        return Err(
            AraError::InvalidArgument(
                "content-based head and tail fades must be advertised together",
            ),
        );
    }
    if !all_unique(&capabilities.analyzable_content_types) {
        return Err(AraError::InvalidArgument("analyzable content types must be unique"));
    }
    Ok(())
}

/// A persistent identifier is nonempty ASCII without NUL.
pub open spec fn valid_id(s: Seq<char>) -> bool {
    nonempty_ascii(s) && !has_nul(s)
}

/// A display string is nonempty and without NUL.
pub open spec fn valid_display(s: Seq<char>) -> bool {
    s.len() > 0 && !has_nul(s)
}

fn check_id(value: &String, message: &'static str) -> (r: Result<(), AraError>)
    ensures
        r is Ok <==> valid_id(value@),
        r matches Err(e) ==> e is InvalidArgument,
{
    if !is_nonempty_ascii(value.as_str()) {
        return Err(AraError::InvalidArgument(message));
    }
    if contains_nul(value.as_str()) {
        return Err(AraError::InvalidArgument("factory identifier contains NUL"));
    }
    Ok(())
}

fn check_ascii(value: &String, message: &'static str) -> (r: Result<(), AraError>)
    ensures
        r is Ok <==> nonempty_ascii(value@),
        r matches Err(e) ==> e is InvalidArgument,
{
    if !is_nonempty_ascii(value.as_str()) {
        return Err(AraError::InvalidArgument(message));
    }
    Ok(())
}

fn check_display(value: &String, message: &'static str) -> (r: Result<(), AraError>)
    ensures
        r is Ok <==> valid_display(value@),
        r matches Err(e) ==> e is InvalidArgument,
{
    if value.as_str().unicode_len() == 0 {
        return Err(AraError::InvalidArgument(message));
    }
    if contains_nul(value.as_str()) {
        return Err(AraError::InvalidArgument("factory display string contains NUL"));
    }
    Ok(())
}

/// Validated description of one immutable ARA factory.
pub struct FactorySpec {
    /// Persistent factory identifier.
    pub factory_id: String,
    /// Document archive identifier written by the factory.
    pub archive_id: String,
    /// Further document archive identifiers accepted during restore.
    pub compatible_ids: Vec<String>,
    /// Lowest supported generation.
    pub lowest: ApiGeneration,
    /// Highest supported generation.
    pub highest: ApiGeneration,
    /// Advertised capabilities.
    pub capabilities: FactoryCapabilities,
    /// Plug-in name.
    pub name: String,
    /// Manufacturer name.
    pub manufacturer: String,
    /// Information URL.
    pub information_url: String,
    /// Version string.
    pub version: String,
}

/// Builder for one immutable ARA factory.
pub struct FactoryBuilder {
    /// The description being built.
    pub spec: FactorySpec,
}

/// Whether a factory description may be built, before target support is considered.
pub open spec fn spec_well_formed(s: FactorySpec) -> bool {
    &&& valid_id(s.factory_id@)
    &&& valid_id(s.archive_id@)
    &&& s.lowest.rank() <= s.highest.rank()
    &&& s.capabilities.spec_valid()
    &&& forall|i: int| 0 <= i < s.compatible_ids@.len() ==> valid_id(#[trigger] s.compatible_ids@[i]@)
    &&& texts_unique(texts(s.compatible_ids@).push(s.archive_id@))
    &&& valid_display(s.name@)
    &&& valid_display(s.manufacturer@)
    &&& valid_display(s.information_url@)
    &&& valid_display(s.version@)
}

/// A buildable factory advertises the content-based head fade exactly when it advertises the
/// content-based tail fade, and tempo reflection only together with time stretching.
pub proof fn buildable_factories_advertise_fades_in_pairs(s: FactorySpec)
    requires
        spec_well_formed(s),
    ensures
        (s.capabilities.playback_transformations.bits & 4 != 0) == (s.capabilities.playback_transformations.bits
            & 8 != 0),
        s.capabilities.playback_transformations.bits & 2 != 0 ==> s.capabilities.playback_transformations.bits
            & 1 != 0,
{
    let b = s.capabilities.playback_transformations.bits;
    assert(transformations_coherent(b));
    assert((b & 12 == 0 || b & 12 == 12) ==> ((b & 4 != 0) == (b & 8 != 0))) by (bit_vector);
}

fn check_compatible_ids(archive_id: &String, ids: &Vec<String>) -> (r: Result<(), AraError>)
    ensures
        r is Ok <==> (forall|i: int| 0 <= i < ids@.len() ==> valid_id(#[trigger] ids@[i]@))
            && texts_unique(texts(ids@).push(archive_id@)),
        r matches Err(e) ==> e is InvalidArgument,
{
    let n = ids.len();
    let ghost all = texts(ids@).push(archive_id@);
    let mut i: usize = 0;
    while i < n
        invariant
            n == ids@.len(),
            all == texts(ids@).push(archive_id@),
            0 <= i <= n,
            forall|a: int| 0 <= a < i ==> valid_id(#[trigger] ids@[a]@),
            forall|a: int, b: int| 0 <= a < b <= n && a < i ==> all[a] != all[b],
        decreases n - i,
    {
        check_id(&ids[i], "compatible document archive ID must be nonempty ASCII")?;
        if ids[i] == *archive_id {
            proof {
                assert(all[i as int] == all[n as int]);
            }
            return Err(AraError::InvalidArgument("document archive IDs must be unique"));
        }
        let mut j: usize = i + 1;
        while j < n
            invariant
                n == ids@.len(),
                all == texts(ids@).push(archive_id@),
                0 <= i < n,
                i + 1 <= j <= n,
                all[i as int] != all[n as int],
                forall|a: int, b: int| 0 <= a < b <= n && a < i ==> all[a] != all[b],
                forall|b: int| i < b < j ==> all[i as int] != all[b],
            decreases n - j,
        {
            if ids[i] == ids[j] {
                proof {
                    assert(all[i as int] == all[j as int]);
                }
                return Err(AraError::InvalidArgument("document archive IDs must be unique"));
            }
            j += 1;
        }
        i += 1;
    }
    Ok(())
}

impl FactoryBuilder {
    /// Starts a factory supporting ARA 2.0 Final through 2.3 Final, named after its identifier,
    /// with no capabilities and empty display metadata.
    pub fn new(factory_id: String, archive_id: String) -> (b: FactoryBuilder)
        ensures
            b.spec.factory_id@ == factory_id@,
            b.spec.archive_id@ == archive_id@,
            b.spec.name@ == factory_id@,
            b.spec.compatible_ids@.len() == 0,
            b.spec.lowest == ApiGeneration::V2Final,
            b.spec.highest == ApiGeneration::V23Final,
            b.spec.manufacturer@.len() == 0,
            b.spec.information_url@.len() == 0,
            b.spec.version@.len() == 0,
            b.spec.capabilities.analyzable_content_types@.len() == 0,
            b.spec.capabilities.playback_transformations.bits == 0,
            !b.spec.capabilities.stores_audio_file_chunks,
    {
        FactoryBuilder {
            spec: FactorySpec {
                name: factory_id.clone(),
                factory_id,
                archive_id,
                compatible_ids: Vec::new(),
                lowest: ApiGeneration::V2Final,
                highest: ApiGeneration::V23Final,
                capabilities: FactoryCapabilities::default(),
                manufacturer: String::new(),
                information_url: String::new(),
                version: String::new(),
            },
        }
    }

    /// Sets the user-visible plug-in metadata retained by the factory.
    pub fn display(self, name: String, manufacturer: String, information_url: String, version: String) -> (b:
        FactoryBuilder)
        ensures
            b.spec.name == name,
            b.spec.manufacturer == manufacturer,
            b.spec.information_url == information_url,
            b.spec.version == version,
            b.spec.factory_id == self.spec.factory_id,
            b.spec.archive_id == self.spec.archive_id,
            b.spec.compatible_ids == self.spec.compatible_ids,
            b.spec.lowest == self.spec.lowest,
            b.spec.highest == self.spec.highest,
            b.spec.capabilities == self.spec.capabilities,
    {
        FactoryBuilder {
            spec: FactorySpec { name, manufacturer, information_url, version, ..self.spec },
        }
    }

    /// Sets the inclusive range of released API generations supported by the factory.
    pub fn generations(self, lowest: ApiGeneration, highest: ApiGeneration) -> (b: FactoryBuilder)
        ensures
            b.spec == (FactorySpec { lowest, highest, ..self.spec }),
    {
        FactoryBuilder { spec: FactorySpec { lowest, highest, ..self.spec } }
    }

    /// Adds a document archive identifier accepted during restore.
    pub fn compatible_archive_id(self, archive_id: String) -> (b: FactoryBuilder)
        ensures
            b.spec.compatible_ids@ == self.spec.compatible_ids@.push(archive_id),
            b.spec.factory_id == self.spec.factory_id,
            b.spec.archive_id == self.spec.archive_id,
            b.spec.name == self.spec.name,
            b.spec.manufacturer == self.spec.manufacturer,
            b.spec.information_url == self.spec.information_url,
            b.spec.version == self.spec.version,
            b.spec.lowest == self.spec.lowest,
            b.spec.highest == self.spec.highest,
            b.spec.capabilities == self.spec.capabilities,
    {
        let mut b = self;
        b.spec.compatible_ids.push(archive_id);
        b
    }

    /// Sets the capability values advertised by the factory.
    pub fn capabilities(self, capabilities: FactoryCapabilities) -> (b: FactoryBuilder)
        ensures
            b.spec == (FactorySpec { capabilities, ..self.spec }),
    {
        FactoryBuilder { spec: FactorySpec { capabilities, ..self.spec } }
    }

    /// Validates and builds the factory.
    ///
    /// Fails with `Unsupported` when the identifiers are nonempty ASCII and the range is
    /// ordered but an end of the range is unavailable on `target`, and with `InvalidArgument`
    /// for every other invalid description (see `spec_well_formed`).
    pub fn build(self, target: TargetArch) -> (r: Result<Factory, AraError>)
        ensures
            r is Ok <==> spec_well_formed(self.spec) && self.spec.lowest.spec_supported_on(target)
                && self.spec.highest.spec_supported_on(target),
            r matches Err(e) ==> e is InvalidArgument || e is Unsupported,
            r matches Err(e) ==> (e is Unsupported <==> nonempty_ascii(self.spec.factory_id@)
                && nonempty_ascii(self.spec.archive_id@) && self.spec.lowest.rank() <= self.spec.highest.rank()
                && !(self.spec.lowest.spec_supported_on(target)
                && self.spec.highest.spec_supported_on(target))),
            r matches Ok(f) ==> f.spec_spec() == self.spec && f.spec_entry().spec_selection() is None
                && f.spec_entry().spec_lowest() == self.spec.lowest
                && f.spec_entry().spec_highest() == self.spec.highest,
    {
        let spec = self.spec;
        check_ascii(&spec.factory_id, "factory ID must be nonempty ASCII")?;
        check_ascii(&spec.archive_id, "document archive ID must be nonempty ASCII")?;
        if spec.highest.precedes(spec.lowest) {
            return Err(
                AraError::InvalidArgument("lowest API generation exceeds highest generation"),
            );
        }
        if !spec.lowest.supported_on(target) || !spec.highest.supported_on(target) {
            return Err(AraError::Unsupported("factory generation range is unavailable on this target"));
        }
        validate_capabilities(&spec.capabilities)?;
        check_compatible_ids(&spec.archive_id, &spec.compatible_ids)?;
        check_id(&spec.factory_id, "factory ID must be nonempty ASCII")?;
        check_id(&spec.archive_id, "document archive ID must be nonempty ASCII")?;
        check_display(&spec.name, "plug-in name must be nonempty")?;
        check_display(&spec.manufacturer, "manufacturer name must be nonempty")?;
        check_display(&spec.information_url, "information URL must be nonempty")?;
        check_display(&spec.version, "version must be nonempty")?;
        let entry = PluginEntry::new(spec.lowest, spec.highest);
        Ok(Factory { spec, entry })
    }

    /// Validates and builds the factory as `build` does, then assigns it the first free
    /// callback slot of `slots` under identity `owner`; returns the factory and its slot.
    ///
    /// Fails as `build` does, changing no slot; then with `InvalidArgument` for owner zero and
    /// with `Unsupported` when every slot is taken, changing nothing.
    pub fn build_in(self, slots: &mut CallbackSlots, owner: u64, target: TargetArch) -> (r: Result<
        (Factory, usize),
        AraError,
    >)
        ensures
            !(spec_well_formed(self.spec) && self.spec.lowest.spec_supported_on(target)
                && self.spec.highest.spec_supported_on(target)) ==> r is Err && final(slots).owners()
                == old(slots).owners(),
            spec_well_formed(self.spec) && self.spec.lowest.spec_supported_on(target)
                && self.spec.highest.spec_supported_on(target) ==> {
                &&& owner == 0 ==> (r matches Err(e) && e is InvalidArgument)
                &&& owner != 0 && (forall|j: int| 0 <= j < old(slots).owners().len() ==> old(slots).owners()[j]
                    != 0) ==> (r matches Err(e) && e is Unsupported)
                &&& owner != 0 && (exists|j: int| 0 <= j < old(slots).owners().len() && old(slots).owners()[j]
                    == 0) ==> r is Ok
            },
            r is Err ==> final(slots).owners() == old(slots).owners(),
            r matches Ok((f, i)) ==> {
                &&& f.spec_spec() == self.spec
                &&& f.spec_entry().spec_selection() is None
                &&& owner != 0
                &&& i < old(slots).owners().len()
                &&& old(slots).owners()[i as int] == 0
                &&& forall|j: int| 0 <= j < i ==> old(slots).owners()[j] != 0
                &&& final(slots).owners() == old(slots).owners().update(i as int, owner)
            },
    {
        let factory = self.build(target)?;
        let slot = slots.allocate(owner)?;
        Ok((factory, slot))
    }
}

/// One validated ARA factory and its independent initialization entry.
pub struct Factory {
    spec: FactorySpec,
    entry: PluginEntry,
}

impl Factory {
    /// The validated description.
    pub closed spec fn spec_spec(self) -> FactorySpec {
        self.spec
    }

    /// The initialization entry.
    pub closed spec fn spec_entry(self) -> PluginEntry {
        self.entry
    }

    /// Returns this factory's persistent identifier.
    pub fn id(&self) -> (id: &str)
        ensures
            id@ == self.spec_spec().factory_id@,
    {
        self.spec.factory_id.as_str()
    }

    /// Returns the validated description.
    pub fn spec(&self) -> (s: &FactorySpec)
        ensures
            *s == self.spec_spec(),
    {
        &self.spec
    }

    /// Returns this factory's independent initialization entry.
    pub fn entry(&self) -> (e: &PluginEntry)
        ensures
            *e == self.spec_entry(),
    {
        &self.entry
    }

    /// Mutably borrows this factory's initialization entry.
    pub fn entry_mut(&mut self) -> (e: &mut PluginEntry)
        ensures
            *e == old(self).spec_entry(),
            final(self).spec_entry() == *final(e),
            final(self).spec_spec() == old(self).spec_spec(),
    {
        &mut self.entry
    }
}

/// Identifiers of a list of factories.
pub open spec fn factory_ids(factories: Seq<Factory>) -> Seq<Seq<char>> {
    factories.map_values(|f: Factory| f.spec_spec().factory_id@)
}

/// Builder for all factories exported by one plug-in binary.
pub struct PluginRegistryBuilder {
    factories: Vec<Factory>,
}

impl PluginRegistryBuilder {
    /// Factories added so far, in order.
    pub closed spec fn spec_factories(self) -> Seq<Factory> {
        self.factories@
    }

    /// Starts with no factory.
    pub fn new() -> (b: PluginRegistryBuilder)
        ensures
            b.spec_factories().len() == 0,
    {
        PluginRegistryBuilder { factories: Vec::new() }
    }

    /// Adds one already validated factory to the binary registry.
    pub fn factory(self, factory: Factory) -> (b: PluginRegistryBuilder)
        ensures
            b.spec_factories() == self.spec_factories().push(factory),
    {
        let mut b = self;
        b.factories.push(factory);
        b
    }

    /// Rejects duplicate factory IDs and completes the registry.
    pub fn build(self) -> (r: Result<PluginRegistry, AraError>)
        ensures
            r is Ok <==> texts_unique(factory_ids(self.spec_factories())),
            r matches Err(e) ==> e is InvalidArgument,
            r matches Ok(reg) ==> reg.spec_factories() == self.spec_factories(),
    {
        let n = self.factories.len();
        let ghost ids = factory_ids(self.factories@);
        let mut i: usize = 0;
        while i < n
            invariant
                n == self.factories@.len(),
                ids == factory_ids(self.factories@),
                0 <= i <= n,
                forall|a: int, b: int| 0 <= a < b < n && a < i ==> ids[a] != ids[b],
            decreases n - i,
        {
            let mut j: usize = i + 1;
            while j < n
                invariant
                    n == self.factories@.len(),
                    ids == factory_ids(self.factories@),
                    0 <= i < n,
                    i + 1 <= j <= n,
                    forall|a: int, b: int| 0 <= a < b < n && a < i ==> ids[a] != ids[b],
                    forall|b: int| i < b < j ==> ids[i as int] != ids[b],
                decreases n - j,
            {
                if str_eq(self.factories[i].id(), self.factories[j].id()) {
                    proof {
                        assert(ids[i as int] == ids[j as int]);
                    }
                    return Err(AraError::InvalidArgument("duplicate factory ID"));
                }
                j += 1;
            }
            i += 1;
        }
        Ok(PluginRegistry { factories: self.factories })
    }
}

pub(crate) fn str_eq(a: &str, b: &str) -> (r: bool)
    ensures
        r == (a@ == b@),
{
    let n = a.unicode_len();
    if n != b.unicode_len() {
        return false;
    }
    let mut i: usize = 0;
    while i < n
        invariant
            n == a@.len(),
            n == b@.len(),
            0 <= i <= n,
            forall|j: int| 0 <= j < i ==> a@[j] == b@[j],
        decreases n - i,
    {
        if a.get_char(i) != b.get_char(i) {
            return false;
        }
        i += 1;
    }
    proof {
        assert(a@ =~= b@);
    }
    true
}

/// Binary-level collection of factories with unique identifiers.
pub struct PluginRegistry {
    factories: Vec<Factory>,
}

impl PluginRegistry {
    /// Factories in registration order.
    pub closed spec fn spec_factories(self) -> Seq<Factory> {
        self.factories@
    }

    /// Starts an empty plug-in binary registry.
    pub fn builder() -> (b: PluginRegistryBuilder)
        ensures
            b.spec_factories().len() == 0,
    {
        PluginRegistryBuilder::new()
    }

    /// Finds a factory by persistent ID.
    pub fn factory(&self, id: &str) -> (r: Option<&Factory>)
        ensures
            r is Some <==> factory_ids(self.spec_factories()).contains(id@),
            r matches Some(f) ==> f.spec_spec().factory_id@ == id@ && self.spec_factories().contains(*f),
    {
        match self.position(id) {
            Some(i) => Some(&self.factories[i]),
            None => None,
        }
    }

    fn position(&self, id: &str) -> (r: Option<usize>)
        ensures
            r is Some <==> factory_ids(self.spec_factories()).contains(id@),
            r matches Some(i) ==> i < self.spec_factories().len()
                && self.spec_factories()[i as int].spec_spec().factory_id@ == id@,
            r matches Some(i) ==> forall|j: int| 0 <= j < i ==> self.spec_factories()[j].spec_spec().factory_id@ != id@,
    {
        let n = self.factories.len();
        let mut i: usize = 0;
        while i < n
            invariant
                n == self.factories@.len(),
                0 <= i <= n,
                forall|j: int| 0 <= j < i ==> self.factories@[j].spec_spec().factory_id@ != id@,
            decreases n - i,
        {
            if str_eq(self.factories[i].id(), id) {
                proof {
                    assert(factory_ids(self.factories@)[i as int] == id@);
                }
                return Some(i);
            }
            i += 1;
        }
        proof {
            if factory_ids(self.factories@).contains(id@) {
                let k = choose|k: int| 0 <= k < factory_ids(self.factories@).len() && factory_ids(self.factories@)[k] == id@;
                assert(self.factories@[k].spec_spec().factory_id@ == id@);
            }
        }
        None
    }

    /// Finds one factory's independent initialization entry by persistent ID.
    pub fn entry(&self, id: &str) -> (r: Option<&PluginEntry>)
        ensures
            r is Some <==> factory_ids(self.spec_factories()).contains(id@),
    {
        match self.factory(id) {
            Some(f) => Some(f.entry()),
            None => None,
        }
    }

    /// Finds one factory's initialization entry by persistent ID for initialization.
    pub fn entry_mut(&mut self, id: &str) -> (r: Option<&mut PluginEntry>)
        ensures
            r is Some <==> factory_ids(old(self).spec_factories()).contains(id@),
    {
        match self.position(id) {
            Some(i) => Some(self.factories[i].entry_mut()),
            None => None,
        }
    }

    /// Returns all factories in registration order.
    pub fn factories(&self) -> (f: &[Factory])
        ensures
            f@ == self.spec_factories(),
    {
        self.factories.as_slice()
    }
}

} // verus!
