use vstd::prelude::*;

verus! {

/// Proof that a registry slot has been filled. Only `Slot::install` makes
/// one, so whoever holds it may let the slot's interrupt fire.
pub struct Armed {
    filled: (),
}

/// A write-once slot for a resource that foreground code and an interrupt
/// handler share: filled once at boot, before the interrupt is unmasked,
/// and only read after that.
pub struct Slot<T> {
    value: Option<T>,
}

impl<T> Slot<T> {
    /// What the slot holds.
    pub closed spec fn contents(&self) -> Option<T> {
        self.value
    }

    /// An empty slot.
    pub fn new() -> (r: Self)
        ensures
            r.contents() is None,
    {
        Slot { value: None }
    }

    /// Fills an empty slot and hands back the marker that says so. A slot
    /// that is already filled keeps what it holds and the value comes back
    /// as the error.
    pub fn install(&mut self, v: T) -> (r: Result<Armed, T>)
        ensures
            old(self).contents() is None ==> r is Ok && final(self).contents() == Some(v),
            old(self).contents() is Some ==> (r matches Err(w) && w == v) && *final(self) == *old(self),
    {
        if self.value.is_some() {
            Err(v)
        } else {
            self.value = Some(v);
            Ok(Armed { filled: () })
        }
    }

    /// Whether the slot has been filled.
    pub fn is_populated(&self) -> (r: bool)
        ensures
            r == self.contents() is Some,
    {
        self.value.is_some()
    }

    /// Access to the resource, for the foreground or the interrupt handler.
    /// An empty slot gives `None` and stays empty; a filled one stays filled
    /// with whatever is left behind the returned reference.
    pub fn get_mut(&mut self) -> (r: Option<&mut T>)
        ensures
            old(self).contents() is None ==> r is None && final(self).contents() is None,
            old(self).contents() matches Some(v) ==> (r matches Some(m) && *m == v
                && final(self).contents() == Some(*final(m))),
    {
        self.value.as_mut()
    }
}

} // verus!
