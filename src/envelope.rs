use vstd::prelude::*;

verus! {

/// One stage's output for one tick: a single slot that is either empty
/// ("no new data this tick") or holds the payload the stage produced.
pub struct Envelope<T> {
    slot: Option<T>,
}

impl<T> View for Envelope<T> {
    type V = Option<T>;

    closed spec fn view(&self) -> Option<T> {
        self.slot
    }
}

impl<T> Envelope<T> {
    /// A fresh envelope, empty as at the start of a tick.
    pub fn new() -> (r: Self)
        ensures
            r@ is None,
    {
        Envelope { slot: None }
    }

    /// Stores `value` as this tick's output, replacing anything set before.
    pub fn set_payload(&mut self, value: T)
        ensures
            final(self)@ == Some(value),
    {
        self.slot = Some(value);
    }

    /// The stored payload, or `None` when nothing was set.
    pub fn payload(&self) -> (r: Option<&T>)
        ensures
            r matches Some(v) ==> self@ == Some(*v),
            r is None <==> self@ is None,
    {
        match &self.slot {
            Some(v) => Some(v),
            None => None,
        }
    }
}

} // verus!
