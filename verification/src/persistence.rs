use crate::error::AraError;
use vstd::prelude::*;

verus! {

/// Stores and restores the complete document state.
pub trait Persistence: Sized {
    /// What the application states of one `restore_document` call: the delegate held `before`,
    /// was handed `bytes`, returned `result` and then held `after`. By default nothing is
    /// stated.
    open spec fn restores_document(
        before: Self,
        after: Self,
        bytes: Seq<u8>,
        result: Result<(), AraError>,
    ) -> bool {
        true
    }

    /// Restores a complete document archive.
    fn restore_document(&mut self, bytes: &[u8]) -> (r: Result<(), AraError>)
        ensures
            Self::restores_document(*old(self), *final(self), bytes@, r),
    ;

    /// What the application states of one `store_document` call: the delegate held `before`,
    /// returned `result` and then held `after`. By default nothing is stated.
    open spec fn stores_document(before: Self, after: Self, result: Result<Vec<u8>, AraError>) -> bool {
        true
    }

    /// Produces a complete document archive.
    fn store_document(&mut self) -> (r: Result<Vec<u8>, AraError>)
        ensures
            Self::stores_document(*old(self), *final(self), r),
    ;
}

/// Stores and restores ARA 2 filtered object subsets.
pub trait PartialPersistence: Persistence {
    /// Validated selection of objects to restore.
    type RestoreSelection;

    /// Validated selection of objects to store.
    type StoreSelection;

    /// What the application states of one `restore_objects` call: the delegate held `before`,
    /// was handed `filter` and `bytes`, returned `result` and then held `after`. By default
    /// nothing is stated.
    open spec fn restores_objects(
        before: Self,
        after: Self,
        filter: Self::RestoreSelection,
        bytes: Seq<u8>,
        result: Result<(), AraError>,
    ) -> bool {
        true
    }

    /// What the application states of one `store_objects` call: the delegate held `before`,
    /// was handed `filter`, returned `result` and then held `after`. By default nothing is
    /// stated.
    open spec fn stores_objects(
        before: Self,
        after: Self,
        filter: Self::StoreSelection,
        result: Result<Vec<u8>, AraError>,
    ) -> bool {
        true
    }

    /// Restores only the objects selected by the validated filter.
    fn restore_objects(&mut self, filter: &Self::RestoreSelection, bytes: &[u8]) -> (r: Result<
        (),
        AraError,
    >)
        ensures
            Self::restores_objects(*old(self), *final(self), *filter, bytes@, r),
    ;

    /// Stores only the objects selected by the validated filter.
    fn store_objects(&mut self, filter: &Self::StoreSelection) -> (r: Result<Vec<u8>, AraError>)
        ensures
            Self::stores_objects(*old(self), *final(self), *filter, r),
    ;
}

/// Enforces a dedicated restore call scope around an application persistence delegate.
pub struct PersistenceAdapter<P> {
    delegate: P,
    restoring: bool,
}

impl<P> PersistenceAdapter<P> {
    /// The wrapped delegate.
    pub closed spec fn spec_delegate(self) -> P {
        self.delegate
    }

    /// Whether a complete-document restore is in progress.
    pub closed spec fn spec_restoring(self) -> bool {
        self.restoring
    }

    /// Wraps a persistence delegate in an idle lifecycle.
    pub fn new(delegate: P) -> (a: PersistenceAdapter<P>)
        ensures
            a.spec_delegate() == delegate,
            !a.spec_restoring(),
    {
        PersistenceAdapter { delegate, restoring: false }
    }

    /// Borrows the underlying delegate.
    pub fn delegate(&self) -> (d: &P)
        ensures
            *d == self.spec_delegate(),
    {
        &self.delegate
    }

    /// Mutably borrows the underlying delegate.
    pub fn delegate_mut(&mut self) -> (d: &mut P)
        ensures
            *d == old(self).spec_delegate(),
            final(self).spec_delegate() == *final(d),
            final(self).spec_restoring() == old(self).spec_restoring(),
    {
        &mut self.delegate
    }

    /// Returns whether a complete-document restore is in progress.
    pub fn is_restoring(&self) -> (b: bool)
        ensures
            b == self.spec_restoring(),
    {
        self.restoring
    }

    /// Ends a balanced complete-document restore.
    ///
    /// Fails with `InvalidState`, changing nothing, when no restore is in progress.
    pub fn end_restore(&mut self) -> (r: Result<(), AraError>)
        ensures
            r is Ok <==> old(self).spec_restoring(),
            r matches Err(e) ==> e is InvalidState,
            !final(self).spec_restoring(),
            final(self).spec_delegate() == old(self).spec_delegate(),
    {
        if !self.restoring {
            return Err(AraError::InvalidState("document restore is not active"));
        }
        self.restoring = false;
        Ok(())
    }
}

impl<P: Persistence> PersistenceAdapter<P> {
    /// Begins a complete-document restore from the current archive bytes.
    ///
    /// Fails with `InvalidState` while a restore is in progress, without calling the delegate,
    /// and with the delegate's error when it rejects the archive; the restore is in progress
    /// exactly when this succeeds.
    pub fn begin_restore(&mut self, bytes: &[u8]) -> (r: Result<(), AraError>)
        ensures
            old(self).spec_restoring() ==> (r matches Err(e) && e is InvalidState) && *final(self)
                == *old(self),
            !old(self).spec_restoring() ==> P::restores_document(
                old(self).spec_delegate(),
                final(self).spec_delegate(),
                bytes@,
                r,
            ),
            r is Ok ==> !old(self).spec_restoring() && final(self).spec_restoring(),
            r is Err ==> final(self).spec_restoring() == old(self).spec_restoring(),
    {
        if self.restoring {
            return Err(AraError::InvalidState("document restore is already active"));
        }
        self.delegate.restore_document(bytes)?;
        self.restoring = true;
        Ok(())
    }

    /// Produces the complete document archive bytes for the host writer.
    pub fn store_document(&mut self) -> (r: Result<Vec<u8>, AraError>)
        ensures
            final(self).spec_restoring() == old(self).spec_restoring(),
            P::stores_document(old(self).spec_delegate(), final(self).spec_delegate(), r),
    {
        self.delegate.store_document()
    }
}

impl<P: PartialPersistence> PersistenceAdapter<P> {
    /// Restores an ARA 2 validated object subset from the current archive bytes.
    pub fn restore_objects(&mut self, filter: &P::RestoreSelection, bytes: &[u8]) -> (r: Result<
        (),
        AraError,
    >)
        ensures
            final(self).spec_restoring() == old(self).spec_restoring(),
            P::restores_objects(old(self).spec_delegate(), final(self).spec_delegate(), *filter, bytes@, r),
    {
        self.delegate.restore_objects(filter, bytes)
    }

    /// Produces the archive bytes of an ARA 2 validated object subset.
    pub fn store_objects(&mut self, filter: &P::StoreSelection) -> (r: Result<Vec<u8>, AraError>)
        ensures
            final(self).spec_restoring() == old(self).spec_restoring(),
            P::stores_objects(old(self).spec_delegate(), final(self).spec_delegate(), *filter, r),
    {
        self.delegate.store_objects(filter)
    }
}

} // verus!
