use vstd::prelude::*;

verus! {

/// Owns engine instances behind plain integer handles.
///
/// A host drives the engine through opaque handles: create an instance once,
/// look it up on every call, release it exactly once. This registry makes
/// that ownership explicit instead of leaking instances behind raw pointers:
/// a handle is an index into the slot sequence, live while its slot is
/// occupied. Using a dead handle is a caller contract violation, excluded
/// here by precondition and checked by the host before every call.
pub struct Registry<T> {
    entries: Vec<Option<T>>,
}

impl<T> View for Registry<T> {
    type V = Seq<Option<T>>;

    closed spec fn view(&self) -> Seq<Option<T>> {
        self.entries@
    }
}

impl<T> Registry<T> {
    /// Whether `h` names a live (created and not yet released) instance.
    pub open spec fn live(self, h: int) -> bool {
        0 <= h < self@.len() && self@[h] is Some
    }

    /// An empty registry: no handle is live.
    pub fn new() -> (r: Registry<T>)
        ensures
            r@.len() == 0,
    {
        Registry { entries: Vec::new() }
    }

    /// Register a new instance and return its handle. The handle is fresh
    /// (it was not live before) and every other slot is untouched.
    pub fn create(&mut self, inst: T) -> (h: usize)
        ensures
            h == old(self)@.len(),
            !old(self).live(h as int),
            final(self)@ == old(self)@.push(Some(inst)),
            final(self).live(h as int),
    {
        let h = self.entries.len();
        self.entries.push(Some(inst));
        h
    }

    /// Whether `h` is a live handle.
    pub fn is_live(&self, h: usize) -> (r: bool)
        ensures
            r == self.live(h as int),
    {
        h < self.entries.len() && self.entries[h].is_some()
    }

    /// Borrow the instance behind a live handle.
    pub fn borrow(&self, h: usize) -> (inst: &T)
        requires
            self.live(h as int),
        ensures
            self@[h as int] == Some(*inst),
    {
        self.entries[h].as_ref().unwrap()
    }

    /// Take the instance out from behind a live handle, leaving the handle
    /// dead; `put` restores it.
    pub fn take(&mut self, h: usize) -> (inst: T)
        requires
            old(self).live(h as int),
        ensures
            Some(inst) == old(self)@[h as int],
            final(self)@ == old(self)@.update(h as int, None),
    {
        let slot: &mut Option<T> = &mut self.entries[h];
        slot.take().unwrap()
    }

    /// Put an instance back behind an existing handle, making it live again.
    pub fn put(&mut self, h: usize, inst: T)
        requires
            (h as int) < old(self)@.len(),
        ensures
            final(self)@ == old(self)@.update(h as int, Some(inst)),
            final(self).live(h as int),
    {
        let slot: &mut Option<T> = &mut self.entries[h];
        *slot = Some(inst);
    }

    /// Release a live handle: the instance is dropped and the handle is dead
    /// from here on.
    pub fn release(&mut self, h: usize)
        requires
            old(self).live(h as int),
        ensures
            final(self)@ == old(self)@.update(h as int, None),
            !final(self).live(h as int),
    {
        let _ = self.take(h);
    }
}

} // verus!
