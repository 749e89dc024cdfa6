use crate::error::AraError;
use vstd::prelude::*;

verus! {

/// Number of factories one binary can export: each needs its own callback slot.
pub const CALLBACK_SLOT_COUNT: usize = 64;

/// Process-wide table assigning exported factories to callback slots.
///
/// A slot holds the identity of the factory owning it; identity zero never owns a slot.
pub struct CallbackSlots {
    owners: Vec<u64>,
}

impl CallbackSlots {
    /// Owner of every slot, zero for a free slot.
    pub closed spec fn owners(self) -> Seq<u64> {
        self.owners@
    }

    /// A table of `CALLBACK_SLOT_COUNT` free slots.
    pub fn new() -> (t: CallbackSlots)
        ensures
            t.owners() == Seq::new(CALLBACK_SLOT_COUNT as nat, |i: int| 0u64),
    {
        let mut owners: Vec<u64> = Vec::new();
        let mut i: usize = 0;
        while i < CALLBACK_SLOT_COUNT
            invariant
                0 <= i <= CALLBACK_SLOT_COUNT,
                owners@ == Seq::new(i as nat, |j: int| 0u64),
            decreases CALLBACK_SLOT_COUNT - i,
        {
            owners.push(0);
            proof {
                assert(owners@ =~= Seq::new((i + 1) as nat, |j: int| 0u64));
            }
            i += 1;
        }
        CallbackSlots { owners }
    }

    /// Assigns the first free slot to factory `owner` and returns its index.
    ///
    /// Fails with `InvalidArgument` for owner zero and with `Unsupported`, changing nothing,
    /// when every slot is taken.
    pub fn allocate(&mut self, owner: u64) -> (r: Result<usize, AraError>)
        ensures
            owner == 0 ==> (r matches Err(e) && e is InvalidArgument),
            owner != 0 && (forall|j: int| 0 <= j < old(self).owners().len() ==> old(self).owners()[j]
                != 0) ==> (r matches Err(e) && e is Unsupported),
            owner != 0 && (exists|j: int| 0 <= j < old(self).owners().len() && old(self).owners()[j] == 0)
                ==> r is Ok,
            r is Err ==> final(self).owners() == old(self).owners(),
            r matches Ok(i) ==> {
                &&& owner != 0
                &&& i < old(self).owners().len()
                &&& old(self).owners()[i as int] == 0
                &&& forall|j: int| 0 <= j < i ==> old(self).owners()[j] != 0
                &&& final(self).owners() == old(self).owners().update(i as int, owner)
            },
    {
        if owner == 0 {
            return Err(AraError::InvalidArgument("factory identity must be nonzero"));
        }
        let n = self.owners.len();
        let mut i: usize = 0;
        while i < n
            invariant
                n == self.owners@.len(),
                owner != 0,
                self.owners@ == old(self).owners(),
                0 <= i <= n,
                forall|j: int| 0 <= j < i ==> self.owners@[j] != 0,
            decreases n - i,
        {
            if self.owners[i] == 0 {
                self.owners.set(i, owner);
                return Ok(i);
            }
            i += 1;
        }
        Err(AraError::Unsupported("this binary already exports the maximum of 64 ARA factories"))
    }

    /// Frees slot `index` if factory `owner` still holds it.
    pub fn release(&mut self, index: usize, owner: u64)
        ensures
            final(self).owners() == if index < old(self).owners().len() && owner != 0
                && old(self).owners()[index as int] == owner {
                old(self).owners().update(index as int, 0)
            } else {
                old(self).owners()
            },
    {
        if owner != 0 && index < self.owners.len() && self.owners[index] == owner {
            self.owners.set(index, 0);
        }
    }

    /// Returns the factory holding slot `index`, if any.
    pub fn owner(&self, index: usize) -> (r: Option<u64>)
        ensures
            r == if index < self.owners().len() && self.owners()[index as int] != 0 {
                Some(self.owners()[index as int])
            } else {
                None
            },
    {
        if index < self.owners.len() && self.owners[index] != 0 {
            Some(self.owners[index])
        } else {
            None
        }
    }
}

/// Releasing a freshly allocated slot restores the table.
pub proof fn release_undoes_allocate(owners: Seq<u64>, i: int, owner: u64)
    requires
        0 <= i < owners.len(),
        owners[i] == 0,
        owner != 0,
    ensures
        owners.update(i, owner).update(i, 0) == owners,
{
    assert(owners.update(i, owner).update(i, 0) =~= owners);
}

} // verus!
