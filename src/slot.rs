//! The consumer's side of the snapshot handoff: a single slot that keeps only the most
//! recent snapshot received, and remembers whether it changed since it was last shown.
use vstd::prelude::*;

verus! {

/// A single-value slot; each new value replaces the previous one whole.
pub struct LatestSlot<T> {
    /// The most recent value received, if any.
    pub value: Option<T>,
    /// Whether a value arrived since the last call of `take_fresh`.
    pub fresh: bool,
}

impl<T> LatestSlot<T> {
    /// An empty slot. It counts as fresh, so that the first showing happens at once.
    pub fn new() -> (s: LatestSlot<T>)
        ensures
            s.value is None,
            s.fresh,
    {
        LatestSlot { value: None, fresh: true }
    }

    /// Stores `v` in place of whatever the slot held.
    pub fn offer(&mut self, v: T)
        ensures
            final(self).value == Some(v),
            final(self).fresh,
    {
        self.value = Some(v);
        self.fresh = true;
    }

    /// The newest value, if one has arrived.
    pub fn latest(&self) -> (r: Option<&T>)
        ensures
            r is None <==> self.value is None,
            r matches Some(v) ==> self.value == Some(*v),
    {
        match &self.value {
            Some(v) => Some(v),
            None => None,
        }
    }

    /// Whether a value arrived since the last call; clears that mark.
    pub fn take_fresh(&mut self) -> (r: bool)
        ensures
            r == old(self).fresh,
            final(self).value == old(self).value,
            !final(self).fresh,
    {
        let r = self.fresh;
        self.fresh = false;
        r
    }
}

} // verus!
