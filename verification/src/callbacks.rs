use vstd::prelude::*;

verus! {

/// Coverage entry joining one C callback name to its delegate slot.
#[derive(Clone, Copy, Debug, PartialEq, Eq)]
pub struct Delegate {
    /// Exact field name in `ARADocumentControllerInterface`.
    pub c_name: &'static str,
    /// Zero-based header-order slot index.
    pub slot: usize,
}

impl Delegate {
    /// Joins a callback name to its slot.
    pub fn new(c_name: &'static str, slot: usize) -> (d: Delegate)
        ensures
            d.c_name == c_name,
            d.slot == slot,
    {
        Delegate { c_name, slot }
    }
}

/// Required conformance-test classification for one callback shell.
#[derive(Clone, Copy, Debug, PartialEq, Eq)]
pub struct CallbackContract {
    /// Exact field name in `ARADocumentControllerInterface`.
    pub c_name: &'static str,
    /// Zero-based header-order slot index used by dispatch tests.
    pub slot: usize,
}

impl CallbackContract {
    /// Joins a callback name to its slot.
    pub fn new(c_name: &'static str, slot: usize) -> (c: CallbackContract)
        ensures
            c.c_name == c_name,
            c.slot == slot,
    {
        CallbackContract { c_name, slot }
    }
}

} // verus!
