use vstd::prelude::*;

verus! {

/// A type whose `Clone` is O(1): duplicating a value costs only refcount
/// bookkeeping or a bitwise copy, never a walk over the data it owns or
/// refers to.
///
/// Granting the marker takes no code beyond the impl itself: the provided
/// `light_clone` delegates to `clone`, so the two operations agree on every
/// value. `Clone` is required: anything cheap to duplicate is duplicable.
pub trait LightClone: Clone + Sized {
    /// Returns a light clone of the value: one that `clone` could have
    /// returned for it, or the value itself.
    fn light_clone(&self) -> (r: Self)
        ensures
            cloned(*self, r),
    {
        self.clone()
    }

    /// Shorthand for `light_clone`.
    fn lc(&self) -> (r: Self)
        ensures
            cloned(*self, r),
    {
        self.light_clone()
    }
}

} // verus!
