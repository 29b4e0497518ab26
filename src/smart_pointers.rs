use vstd::prelude::*;

use std::rc::Rc;
use std::sync::Arc;

use crate::trait_def::LightClone;

verus! {

/// Relies on `Arc::clone`: a new handle to the same allocation, which only
/// raises the reference count.
#[verifier::external_body]
fn share_arc<T: ?Sized>(a: &Arc<T>) -> (r: Arc<T>)
    ensures
        r == *a,
{
    Arc::clone(a)
}

/// Relies on `Rc::clone`: a new handle to the same allocation, which only
/// raises the reference count.
#[verifier::external_body]
fn share_rc<T: ?Sized>(a: &Rc<T>) -> (r: Rc<T>)
    ensures
        r == *a,
{
    Rc::clone(a)
}

impl<T: ?Sized> LightClone for Arc<T> {
    /// A new handle to the same allocation.
    fn light_clone(&self) -> (r: Self)
        ensures
            r == *self,
    {
        share_arc(self)
    }
}

impl<T: ?Sized> LightClone for Rc<T> {
    /// A new handle to the same allocation.
    fn light_clone(&self) -> (r: Self)
        ensures
            r == *self,
    {
        share_rc(self)
    }
}

} // verus!
