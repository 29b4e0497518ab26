use vstd::prelude::*;

use std::marker::PhantomData;
use std::mem::ManuallyDrop;

use crate::trait_def::LightClone;

verus! {

/// Relies on `Result::clone`: each variant is rebuilt around a clone of its
/// payload.
pub assume_specification<T: Clone, E: Clone>[ <Result<T, E> as Clone>::clone ](
    r: &Result<T, E>,
) -> (c: Result<T, E>)
    ensures
        r is Ok ==> c is Ok && cloned(r->Ok_0, c->Ok_0),
        r is Err ==> c is Err && cloned(r->Err_0, c->Err_0),
;

impl<T> LightClone for PhantomData<T> {}

impl<T: LightClone> LightClone for Option<T> {
    /// No payload gives no payload; a payload is duplicated.
    fn light_clone(&self) -> (r: Self)
        ensures
            self is None ==> r is None,
            self is Some ==> r is Some && cloned(self->Some_0, r->Some_0),
    {
        self.clone()
    }
}

/// The error branch may be duplicated by any `Clone`: error paths are not
/// where the cost matters.
impl<T: LightClone, E: Clone> LightClone for Result<T, E> {
    fn light_clone(&self) -> (r: Self)
        ensures
            self is Ok ==> r is Ok && cloned(self->Ok_0, r->Ok_0),
            self is Err ==> r is Err && cloned(self->Err_0, r->Err_0),
    {
        self.clone()
    }
}

impl<T: LightClone + Copy, const N: usize> LightClone for [T; N] {}

impl<T: LightClone> LightClone for ManuallyDrop<T> {}

} // verus!
