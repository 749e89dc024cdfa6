use vstd::prelude::*;

verus! {

/// Runtime-owned graph record of one model object.
pub struct Node<T> {
    /// Application state; present once the delegate created it.
    pub value: Option<T>,
    /// Whether the object is active in the undo history.
    pub active: bool,
    /// Number of live objects that name this one as their parent.
    pub children: usize,
}

impl<T> Node<T> {
    /// A record for an identity whose application state is still being created.
    pub fn provisional() -> (n: Node<T>)
        ensures
            n.value is None,
            n.active,
            n.children == 0,
    {
        Node { value: None, active: true, children: 0 }
    }

    /// A record of a freshly created object holding its application state.
    pub fn committed(value: T) -> (n: Node<T>)
        ensures
            n.value == Some(value),
            n.active,
            n.children == 0,
    {
        Node { value: Some(value), active: true, children: 0 }
    }

    /// Borrows the application state of a committed record.
    pub fn live_value(&mut self) -> (v: &mut T)
        requires
            old(self).value is Some,
        ensures
            *v == old(self).value->0,
            final(self).value == Some(*final(v)),
            final(self).active == old(self).active,
            final(self).children == old(self).children,
    {
        self.value.as_mut().unwrap()
    }
}

/// Graph record of a region sequence and its required musical context.
pub struct RegionSequenceNode<T> {
    /// The sequence's own record.
    pub node: Node<T>,
    /// Identity of the owning musical context.
    pub context: u64,
}

/// Graph record of an audio modification and its required audio source.
pub struct AudioModificationNode<T> {
    /// The modification's own record.
    pub node: Node<T>,
    /// Identity of the owning audio source.
    pub source: u64,
}

/// Graph record of a playback region and both of its required parents.
pub struct PlaybackRegionNode<T> {
    /// The region's own record.
    pub node: Node<T>,
    /// Identity of the played audio modification.
    pub modification: u64,
    /// Identity of the containing region sequence.
    pub sequence: u64,
}

} // verus!
