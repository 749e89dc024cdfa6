use crate::error::AraError;
use crate::handle::RawHandle;
use crate::text::{contains_nul, has_nul, is_nonempty_ascii, nonempty_ascii};
use vstd::prelude::*;

verus! {

/// Bytes and metadata produced for ARA audio-file chunk persistence.
#[derive(Clone, Debug, PartialEq, Eq)]
pub struct AudioFileChunk {
    /// Serialized plug-in archive bytes.
    pub bytes: Vec<u8>,
    /// Persistent document archive identifier associated with the bytes.
    pub document_archive_id: String,
    /// Whether a compatible plug-in should open the archive automatically.
    pub open_automatically: bool,
}

/// Whether a chunk may be handed to the host: its archive identifier is nonempty ASCII without
/// NUL.
pub open spec fn chunk_publishable(chunk: AudioFileChunk) -> bool {
    nonempty_ascii(chunk.document_archive_id@) && !has_nul(chunk.document_archive_id@)
}

/// Accepts an application-produced audio-file chunk for the host.
///
/// Fails with `InvalidArgument` when the archive identifier is empty, not ASCII, or contains
/// NUL; otherwise returns the chunk unchanged.
pub fn validate_audio_file_chunk(chunk: AudioFileChunk) -> (r: Result<AudioFileChunk, AraError>)
    ensures
        r is Ok <==> chunk_publishable(chunk),
        r matches Ok(c) ==> c == chunk,
        r matches Err(e) ==> e is InvalidArgument,
{
    if !is_nonempty_ascii(chunk.document_archive_id.as_str()) {
        return Err(AraError::InvalidArgument("audio-file chunk archive ID must be nonempty ASCII"));
    }
    if contains_nul(chunk.document_archive_id.as_str()) {
        return Err(AraError::InvalidArgument("audio-file chunk archive ID contains NUL"));
    }
    Ok(chunk)
}

/// Processing-algorithm catalog size and the algorithm selected for each audio source.
pub struct AlgorithmSelection {
    catalog_len: Option<usize>,
    active: Vec<(RawHandle, i32)>,
}

/// No source occurs twice.
pub open spec fn sources_unique(s: Seq<(RawHandle, i32)>) -> bool {
    forall|i: int, j: int| 0 <= i < j < s.len() ==> s[i].0 != s[j].0
}

/// The selection recorded for `source`, if any.
pub open spec fn selected_in(s: Seq<(RawHandle, i32)>, source: RawHandle) -> Option<i32> {
    if exists|i: int| 0 <= i < s.len() && s[i].0 == source {
        Some(s[choose|i: int| 0 <= i < s.len() && s[i].0 == source].1)
    } else {
        None
    }
}

impl AlgorithmSelection {
    /// Number of catalog entries, `None` when processing algorithms are unavailable.
    pub closed spec fn spec_catalog_len(self) -> Option<usize> {
        self.catalog_len
    }

    /// The algorithm index selected for `source`, if any.
    pub closed spec fn spec_selected(self, source: RawHandle) -> Option<i32> {
        selected_in(self.active@, source)
    }

    #[verifier::type_invariant]
    closed spec fn inv(self) -> bool {
        sources_unique(self.active@)
    }

    /// Starts with no selection, over a catalog of `catalog_len` entries when algorithms are
    /// offered.
    pub fn new(catalog_len: Option<usize>) -> (s: AlgorithmSelection)
        ensures
            s.spec_catalog_len() == catalog_len,
            forall|source: RawHandle| s.spec_selected(source) is None,
    {
        AlgorithmSelection { catalog_len, active: Vec::new() }
    }

    /// Selects a catalog entry for one audio source, replacing any earlier selection.
    ///
    /// Fails with `Unsupported` without a catalog and with `InvalidArgument` for an index
    /// outside it; nothing changes on failure.
    pub fn request_algorithm(&mut self, source: RawHandle, index: i32) -> (r: Result<(), AraError>)
        ensures
            old(self).spec_catalog_len() is None ==> (r matches Err(e) && e is Unsupported),
            old(self).spec_catalog_len() matches Some(n) ==> (r is Ok <==> 0 <= index < n),
            r matches Err(e) ==> e is Unsupported || e is InvalidArgument,
            final(self).spec_catalog_len() == old(self).spec_catalog_len(),
            forall|other: RawHandle| other != source ==> final(self).spec_selected(other)
                == old(self).spec_selected(other),
            final(self).spec_selected(source) == if r is Ok {
                Some(index)
            } else {
                old(self).spec_selected(source)
            },
    {
        proof {
            use_type_invariant(&*self);
        }
        let n = match self.catalog_len {
            Some(n) => n,
            None => {
                return Err(AraError::Unsupported("processing algorithms are unavailable"));
            },
        };
        if index < 0 || index as usize >= n {
            return Err(AraError::InvalidArgument("processing algorithm index is out of range"));
        }
        let mut active = Vec::new();
        std::mem::swap(&mut active, &mut self.active);
        let ghost before = active@;
        let len = active.len();
        let mut i: usize = 0;
        while i < len
            invariant
                len == active.len(),
                active@ == before,
                self.catalog_len == old(self).catalog_len,
                old(self).catalog_len == Some(n),
                0 <= index < n,
                old(self).active@ == before,
                sources_unique(before),
                0 <= i <= len,
                forall|j: int| 0 <= j < i ==> before[j].0 != source,
            decreases len - i,
        {
            if active[i].0.same(&source) {
                active.set(i, (source, index));
                proof {
                    assert forall|a: int, b: int| 0 <= a < b < active@.len() implies active@[a].0
                        != active@[b].0 by {
                        if a != i && b != i {
                            assert(before[a].0 != before[b].0);
                        }
                    }
                    assert forall|other: RawHandle| #![auto] other != source implies selected_in(active@, other)
                        == selected_in(before, other) by {
                        if exists|j: int| 0 <= j < before.len() && before[j].0 == other {
                            let j = choose|j: int| 0 <= j < before.len() && before[j].0 == other;
                            assert(active@[j].0 == other);
                            let k = choose|k: int| 0 <= k < active@.len() && active@[k].0 == other;
                            assert(k == j);
                        } else {
                            assert forall|j: int| 0 <= j < active@.len() implies active@[j].0 != other by {
                                if j != i {
                                    assert(before[j].0 != other);
                                }
                            }
                        }
                    }
                    let k = choose|k: int| 0 <= k < active@.len() && active@[k].0 == source;
                    assert(active@[i as int].0 == source);
                    assert(k == i);
                }
                self.active = active;
                return Ok(());
            }
            i += 1;
        }
        active.push((source, index));
        proof {
            assert forall|a: int, b: int| 0 <= a < b < active@.len() implies active@[a].0
                != active@[b].0 by {
                if b == len {
                    assert(before[a].0 != source);
                }
            }
            assert forall|other: RawHandle| #![auto] other != source implies selected_in(active@, other)
                == selected_in(before, other) by {
                if exists|j: int| 0 <= j < before.len() && before[j].0 == other {
                    let j = choose|j: int| 0 <= j < before.len() && before[j].0 == other;
                    assert(active@[j].0 == other);
                    let k = choose|k: int| 0 <= k < active@.len() && active@[k].0 == other;
                    assert(k == j);
                } else {
                    assert forall|j: int| 0 <= j < active@.len() implies active@[j].0 != other by {
                        if j < len {
                            assert(before[j].0 != other);
                        }
                    }
                }
            }
            assert(active@[len as int].0 == source);
            let k = choose|k: int| 0 <= k < active@.len() && active@[k].0 == source;
            assert(k == len);
        }
        self.active = active;
        Ok(())
    }

    /// Returns the algorithm index selected for an audio source.
    ///
    /// Fails with `InvalidState` when none was selected.
    pub fn active_algorithm(&self, source: RawHandle) -> (r: Result<i32, AraError>)
        ensures
            r is Ok <==> self.spec_selected(source) is Some,
            r matches Ok(i) ==> self.spec_selected(source) == Some(i),
            r matches Err(e) ==> e is InvalidState,
    {
        proof {
            use_type_invariant(self);
        }
        let len = self.active.len();
        let mut i: usize = 0;
        while i < len
            invariant
                len == self.active.len(),
                sources_unique(self.active@),
                0 <= i <= len,
                forall|j: int| 0 <= j < i ==> self.active@[j].0 != source,
            decreases len - i,
        {
            if self.active[i].0.same(&source) {
                proof {
                    let k = choose|k: int| 0 <= k < self.active@.len() && self.active@[k].0 == source;
                    assert(self.active@[i as int].0 == source);
                    assert(k == i);
                }
                return Ok(self.active[i].1);
            }
            i += 1;
        }
        Err(AraError::InvalidState("audio source has no active processing algorithm"))
    }
}

/// No key occurs twice.
pub open spec fn keys_distinct(keys: Seq<u64>) -> bool {
    forall|i: int, j: int| 0 <= i < j < keys.len() ==> keys[i] != keys[j]
}

/// Validates the region keys of one head/tail snapshot: no region occurs twice and at most
/// `capacity` regions are named.
///
/// Fails with `InvalidArgument` otherwise.
pub fn validate_snapshot_keys(keys: &Vec<u64>, capacity: usize) -> (r: Result<(), AraError>)
    ensures
        r is Ok <==> keys_distinct(keys@) && keys@.len() <= capacity,
        r matches Err(e) ==> e is InvalidArgument,
{
    let n = keys.len();
    let mut i: usize = 0;
    while i < n
        invariant
            n == keys@.len(),
            0 <= i <= n,
            forall|a: int, b: int| 0 <= a < b < i ==> keys@[a] != keys@[b],
            i <= capacity || i == 0,
        decreases n - i,
    {
        let mut j: usize = 0;
        while j < i
            invariant
                n == keys@.len(),
                0 <= j <= i < n,
                forall|a: int| 0 <= a < j ==> keys@[a] != keys@[i as int],
            decreases i - j,
        {
            if keys[j] == keys[i] {
                return Err(AraError::InvalidArgument("head/tail snapshot repeats a region"));
            }
            j += 1;
        }
        if i + 1 > capacity {
            return Err(AraError::InvalidArgument("head/tail snapshot exceeds its capacity"));
        }
        i += 1;
    }
    Ok(())
}

} // verus!
