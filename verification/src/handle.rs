use crate::error::AraError;
use std::marker::PhantomData;
use vstd::prelude::*;

verus! {

/// Kind-erased identity of one runtime-owned model object.
///
/// `session` names the document runtime that issued the identity and `id` is unique within it;
/// identities are never reused, so a handle of a destroyed object never names a later one.
#[derive(Clone, Copy, Debug, PartialEq, Eq, Hash)]
pub struct RawHandle {
    /// Session of the issuing document runtime.
    pub session: u64,
    /// Identity within that session.
    pub id: u64,
}

impl RawHandle {
    /// Returns whether two raw identities are the same.
    pub fn same(&self, other: &RawHandle) -> (b: bool)
        ensures
            b == (*self == *other),
    {
        self.session == other.session && self.id == other.id
    }
}

/// Marker for musical-context identities.
pub struct MusicalContextKind;

/// Marker for region-sequence identities.
pub struct RegionSequenceKind;

/// Marker for audio-source identities.
pub struct AudioSourceKind;

/// Marker for audio-modification identities.
pub struct AudioModificationKind;

/// Marker for playback-region identities.
pub struct PlaybackRegionKind;

/// Typed identity of one runtime-owned model object of kind `K`.
pub struct Handle<K> {
    /// Kind-erased identity.
    pub raw: RawHandle,
    /// Kind marker.
    pub kind: PhantomData<K>,
}

impl<K> Clone for Handle<K> {
    fn clone(&self) -> (r: Self)
        ensures
            r == *self,
    {
        Handle { raw: self.raw, kind: PhantomData }
    }
}

impl<K> Copy for Handle<K> {
}

impl<K> Handle<K> {
    /// The kind-erased identity carried by this handle.
    pub open spec fn spec_raw(self) -> RawHandle {
        self.raw
    }

    /// The handle carrying `raw`.
    pub open spec fn from_raw_spec(raw: RawHandle) -> Handle<K> {
        Handle { raw, kind: PhantomData }
    }

    pub(crate) fn from_raw(raw: RawHandle) -> (h: Handle<K>)
        ensures
            h.spec_raw() == raw,
            h == Self::from_raw_spec(raw),
    {
        Handle { raw, kind: PhantomData }
    }

    /// Returns the kind-erased identity.
    pub fn into_raw(self) -> (r: RawHandle)
        ensures
            r == self.spec_raw(),
    {
        self.raw
    }

    /// Returns whether two handles name the same object.
    pub fn same(&self, other: &Handle<K>) -> (b: bool)
        ensures
            b == (self.spec_raw() == other.spec_raw()),
    {
        self.raw.same(&other.raw)
    }
}

/// Stable opaque reference published to the host for a live object of kind `K`.
pub struct ModelRef<K> {
    /// Published identity.
    pub raw: RawHandle,
    /// Kind marker.
    pub kind: PhantomData<K>,
}

impl<K> Clone for ModelRef<K> {
    fn clone(&self) -> (r: Self)
        ensures
            r == *self,
    {
        ModelRef { raw: self.raw, kind: PhantomData }
    }
}

impl<K> Copy for ModelRef<K> {
}

impl<K> ModelRef<K> {
    /// The identity this reference publishes.
    pub open spec fn spec_raw(self) -> RawHandle {
        self.raw
    }

    pub(crate) fn from_handle(h: Handle<K>) -> (r: ModelRef<K>)
        ensures
            r.spec_raw() == h.spec_raw(),
    {
        ModelRef { raw: h.raw, kind: PhantomData }
    }

    /// Builds a reference from a published identity, as a host passes it back.
    pub fn from_raw(raw: RawHandle) -> (r: ModelRef<K>)
        ensures
            r.spec_raw() == raw,
    {
        ModelRef { raw, kind: PhantomData }
    }

    /// Returns the published identity.
    pub fn as_raw(self) -> (r: RawHandle)
        ensures
            r == self.spec_raw(),
    {
        self.raw
    }
}

/// Issues document-runtime sessions in increasing order, so that no session is issued twice by
/// one issuer; handles of runtimes created with sessions from one issuer never resolve in
/// another of them.
pub struct SessionIds {
    next: u64,
}

impl SessionIds {
    /// The next session this issuer hands out.
    pub closed spec fn spec_next(self) -> u64 {
        self.next
    }

    /// An issuer whose first session is one.
    pub fn new() -> (s: SessionIds)
        ensures
            s.spec_next() == 1,
    {
        SessionIds { next: 1 }
    }

    /// Issues the next session.
    ///
    /// Fails with `InvalidState`, changing nothing, once every session has been issued.
    pub fn issue(&mut self) -> (r: Result<u64, AraError>)
        ensures
            old(self).spec_next() < u64::MAX ==> r == Ok::<u64, AraError>(old(self).spec_next())
                && final(self).spec_next() == old(self).spec_next() + 1,
            old(self).spec_next() == u64::MAX ==> (r matches Err(e) && e is InvalidState)
                && final(self).spec_next() == old(self).spec_next(),
    {
        if self.next == u64::MAX {
            return Err(AraError::InvalidState("document sessions are exhausted"));
        }
        let session = self.next;
        self.next = self.next + 1;
        Ok(session)
    }
}

/// Every session an issuer hands out is below the sessions it hands out later: the first of
/// two successive issues precedes everything the issuer can issue afterwards.
pub proof fn issued_sessions_are_distinct(before: SessionIds, between: SessionIds, after: SessionIds)
    requires
        before.spec_next() < u64::MAX,
        between.spec_next() == before.spec_next() + 1,
        between.spec_next() <= after.spec_next(),
    ensures
        before.spec_next() < after.spec_next(),
{
}

} // verus!
