use crate::error::AraError;
use crate::generation::{ApiGeneration, TargetArch};
use vstd::prelude::*;

verus! {

/// Slot of a generation in the shared-assertion table.
pub open spec fn generation_slot(g: ApiGeneration) -> int {
    match g {
        ApiGeneration::V1Final => 0,
        ApiGeneration::V2Draft => 1,
        ApiGeneration::V2Final => 2,
        ApiGeneration::V23Final => 3,
    }
}

/// One shared assert-function registration: its address and how many initialized factories
/// use it.
pub type SharedAssertion = (usize, usize);

/// The assertion table after a factory initialized for `g` with `address` succeeded.
pub open spec fn acquired(
    table: Seq<Option<SharedAssertion>>,
    g: ApiGeneration,
    address: usize,
) -> Seq<Option<SharedAssertion>> {
    match table[generation_slot(g)] {
        Some(shared) => table.update(generation_slot(g), Some((shared.0, (shared.1 + 1) as usize))),
        None => table.update(generation_slot(g), Some((address, 1usize))),
    }
}

/// Whether a factory may initialize for `g` with `address`: no other address is registered
/// for the generation and its user count can grow.
pub open spec fn can_acquire(table: Seq<Option<SharedAssertion>>, g: ApiGeneration, address: usize) -> bool {
    match table[generation_slot(g)] {
        Some(shared) => shared.0 == address && shared.1 < usize::MAX,
        None => true,
    }
}

/// The assertion table after a factory initialized for `g` with `address` uninitialized: one
/// user fewer, and the registration disappears with its last user.
pub open spec fn released(
    table: Seq<Option<SharedAssertion>>,
    g: ApiGeneration,
    address: usize,
) -> Seq<Option<SharedAssertion>> {
    match table[generation_slot(g)] {
        Some(shared) => if shared.0 == address && shared.1 > 1 {
            table.update(generation_slot(g), Some((shared.0, (shared.1 - 1) as usize)))
        } else if shared.0 == address {
            table.update(generation_slot(g), None)
        } else {
            table
        },
        None => table,
    }
}

/// Process-wide table of assert-function addresses shared by factories of one generation.
pub struct AssertionRegistry {
    v1_final: Option<SharedAssertion>,
    v2_draft: Option<SharedAssertion>,
    v2_final: Option<SharedAssertion>,
    v23_final: Option<SharedAssertion>,
}

impl AssertionRegistry {
    /// Registration per generation slot.
    pub closed spec fn table(self) -> Seq<Option<SharedAssertion>> {
        seq![self.v1_final, self.v2_draft, self.v2_final, self.v23_final]
    }

    #[verifier::type_invariant]
    closed spec fn inv(self) -> bool {
        forall|i: int| 0 <= i < 4 ==> (#[trigger] self.table()[i] matches Some(s) ==> s.1 >= 1)
    }

    /// Creates an empty table.
    pub fn new() -> (r: AssertionRegistry)
        ensures
            r.table() == seq![None::<SharedAssertion>, None, None, None],
    {
        AssertionRegistry { v1_final: None, v2_draft: None, v2_final: None, v23_final: None }
    }

    /// Returns the registration of a generation.
    pub fn registration(&self, g: ApiGeneration) -> (r: Option<SharedAssertion>)
        ensures
            r == self.table()[generation_slot(g)],
    {
        match g {
            ApiGeneration::V1Final => self.v1_final,
            ApiGeneration::V2Draft => self.v2_draft,
            ApiGeneration::V2Final => self.v2_final,
            ApiGeneration::V23Final => self.v23_final,
        }
    }

    fn set_registration(&mut self, g: ApiGeneration, value: Option<SharedAssertion>)
        requires
            value matches Some(s) ==> s.1 >= 1,
        ensures
            final(self).table() == old(self).table().update(generation_slot(g), value),
    {
        proof {
            use_type_invariant(&*self);
        }
        match g {
            ApiGeneration::V1Final => {
                self.v1_final = value;
            },
            ApiGeneration::V2Draft => {
                self.v2_draft = value;
            },
            ApiGeneration::V2Final => {
                self.v2_final = value;
            },
            ApiGeneration::V23Final => {
                self.v23_final = value;
            },
        }
        proof {
            assert(self.table() =~= old(self).table().update(generation_slot(g), value));
        }
    }

    /// Registers one more user of `address` for generation `g`.
    ///
    /// Fails with `InvalidState`, changing nothing, when another address is registered for the
    /// generation or its user count cannot grow.
    pub fn acquire(&mut self, g: ApiGeneration, address: usize) -> (r: Result<(), AraError>)
        ensures
            r is Ok <==> can_acquire(old(self).table(), g, address),
            r matches Err(e) ==> e is InvalidState,
            r is Ok ==> final(self).table() == acquired(old(self).table(), g, address),
            r is Err ==> final(self).table() == old(self).table(),
    {
        match self.registration(g) {
            Some(shared) => {
                if shared.0 != address {
                    return Err(
                        AraError::InvalidState(
                            "factories using one API generation must share the assert-function address",
                        ),
                    );
                }
                match shared.1.checked_add(1) {
                    Some(users) => {
                        self.set_registration(g, Some((shared.0, users)));
                        Ok(())
                    },
                    None => Err(AraError::InvalidState("assert-function user count overflow")),
                }
            },
            None => {
                self.set_registration(g, Some((address, 1)));
                Ok(())
            },
        }
    }

    /// Drops one user of the registration of `g` made with `address`.
    pub fn release(&mut self, g: ApiGeneration, address: usize)
        ensures
            final(self).table() == released(old(self).table(), g, address),
    {
        match self.registration(g) {
            Some(shared) => {
                if shared.0 == address && shared.1 > 1 {
                    self.set_registration(g, Some((shared.0, shared.1 - 1)));
                } else if shared.0 == address {
                    self.set_registration(g, None);
                }
            },
            None => {},
        }
    }
}

/// Balanced initialization leaves the shared-assertion table as it was.
pub proof fn release_undoes_acquire(
    table: Seq<Option<SharedAssertion>>,
    g: ApiGeneration,
    address: usize,
)
    requires
        table.len() == 4,
        forall|i: int| 0 <= i < 4 ==> (#[trigger] table[i] matches Some(s) ==> s.1 >= 1),
        can_acquire(table, g, address),
    ensures
        released(acquired(table, g, address), g, address) == table,
{
    let i = generation_slot(g);
    assert(released(acquired(table, g, address), g, address) =~= table);
}

/// The generation and assert-function address one factory was initialized with.
#[derive(Clone, Copy, Debug, PartialEq, Eq)]
pub struct Selection {
    /// Negotiated generation.
    pub generation: ApiGeneration,
    /// Address of the host's assert-function pointer.
    pub assert_address: usize,
}

/// Independent initialization state of one exported factory.
pub struct PluginEntry {
    lowest: ApiGeneration,
    highest: ApiGeneration,
    selection: Option<Selection>,
}

impl PluginEntry {
    /// Lowest generation the factory supports.
    pub closed spec fn spec_lowest(self) -> ApiGeneration {
        self.lowest
    }

    /// Highest generation the factory supports.
    pub closed spec fn spec_highest(self) -> ApiGeneration {
        self.highest
    }

    /// Current initialization, if any.
    pub closed spec fn spec_selection(self) -> Option<Selection> {
        self.selection
    }

    /// An uninitialized entry for a factory supporting `lowest` through `highest`.
    pub fn new(lowest: ApiGeneration, highest: ApiGeneration) -> (e: PluginEntry)
        ensures
            e.spec_lowest() == lowest,
            e.spec_highest() == highest,
            e.spec_selection() is None,
    {
        PluginEntry { lowest, highest, selection: None }
    }

    /// Initializes this factory for the selected released API generation.
    ///
    /// Fails with `InvalidArgument` for a null assert address or a generation outside the
    /// factory's range, with `Unsupported` for a generation unavailable on `target`, and with
    /// `InvalidState` when already initialized or when the generation's shared assert address
    /// differs. On success the selection is recorded and the shared table gains one user.
    pub fn initialize(
        &mut self,
        assertions: &mut AssertionRegistry,
        generation: ApiGeneration,
        assert_address: usize,
        target: TargetArch,
    ) -> (r: Result<(), AraError>)
        ensures
            final(self).spec_lowest() == old(self).spec_lowest(),
            final(self).spec_highest() == old(self).spec_highest(),
            assert_address == 0 ==> (r matches Err(e) && e is InvalidArgument),
            assert_address != 0 && (generation.rank() < old(self).spec_lowest().rank()
                || generation.rank() > old(self).spec_highest().rank()) ==> (r matches Err(e)
                && e is InvalidArgument),
            assert_address != 0 && old(self).spec_lowest().rank() <= generation.rank()
                <= old(self).spec_highest().rank() && !generation.spec_supported_on(target) ==> (r matches Err(
                e,
            ) && e is Unsupported),
            assert_address != 0 && old(self).spec_lowest().rank() <= generation.rank()
                <= old(self).spec_highest().rank() && generation.spec_supported_on(target) ==> (r matches Err(
                e,
            ) ==> e is InvalidState),
            r is Ok <==> {
                &&& assert_address != 0
                &&& old(self).spec_lowest().rank() <= generation.rank() <= old(self).spec_highest().rank()
                &&& generation.spec_supported_on(target)
                &&& old(self).spec_selection() is None
                &&& can_acquire(old(assertions).table(), generation, assert_address)
            },
            r is Ok ==> final(self).spec_selection() == Some(
                Selection { generation, assert_address },
            ) && final(assertions).table() == acquired(old(assertions).table(), generation, assert_address),
            r is Err ==> final(self).spec_selection() == old(self).spec_selection()
                && final(assertions).table() == old(assertions).table(),
    {
        if assert_address == 0 {
            return Err(AraError::InvalidArgument("assert-function address must not be null"));
        }
        if generation.precedes(self.lowest) || self.highest.precedes(generation) {
            return Err(AraError::InvalidArgument("API generation is outside the factory range"));
        }
        if !generation.supported_on(target) {
            return Err(AraError::Unsupported("API generation is unavailable on this target"));
        }
        if self.selection.is_some() {
            return Err(AraError::InvalidState("factory is already initialized"));
        }
        assertions.acquire(generation, assert_address)?;
        self.selection = Some(Selection { generation, assert_address });
        Ok(())
    }

    /// Balances a successful initialization of this factory.
    ///
    /// Fails with `InvalidState`, changing nothing, when the factory is not initialized.
    pub fn uninitialize(&mut self, assertions: &mut AssertionRegistry) -> (r: Result<(), AraError>)
        ensures
            final(self).spec_lowest() == old(self).spec_lowest(),
            final(self).spec_highest() == old(self).spec_highest(),
            r is Ok <==> old(self).spec_selection() is Some,
            r matches Err(e) ==> e is InvalidState,
            final(self).spec_selection() is None,
            old(self).spec_selection() matches Some(s) ==> final(assertions).table() == released(
                old(assertions).table(),
                s.generation,
                s.assert_address,
            ),
            old(self).spec_selection() is None ==> final(assertions).table() == old(assertions).table(),
    {
        match self.selection {
            Some(selected) => {
                self.selection = None;
                assertions.release(selected.generation, selected.assert_address);
                Ok(())
            },
            None => Err(AraError::InvalidState("factory is not initialized")),
        }
    }

    /// Returns the generation currently selected for this factory.
    pub fn generation(&self) -> (g: Option<ApiGeneration>)
        ensures
            g == match self.spec_selection() {
                Some(s) => Some(s.generation),
                None => None,
            },
    {
        match self.selection {
            Some(s) => Some(s.generation),
            None => None,
        }
    }
}

} // verus!
