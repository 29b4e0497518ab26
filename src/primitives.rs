use vstd::prelude::*;

use crate::trait_def::LightClone;

verus! {

/// `std::time::Instant`, a `Copy` point in monotonic time.
#[verifier::external_type_specification]
#[verifier::external_body]
pub struct ExInstant(std::time::Instant);

/// `std::time::SystemTime`, a `Copy` point in wall-clock time.
#[verifier::external_type_specification]
#[verifier::external_body]
pub struct ExSystemTime(std::time::SystemTime);

/// `std::any::TypeId`, a `Copy` type identifier.
#[verifier::external_type_specification]
#[verifier::external_body]
pub struct ExTypeId(std::any::TypeId);

/// `std::marker::PhantomPinned`, a `Copy` marker without data.
#[verifier::external_type_specification]
#[verifier::external_body]
pub struct ExPhantomPinned(std::marker::PhantomPinned);

/// `std::ops::Bound`, an endpoint of a range.
#[verifier::external_type_specification]
#[verifier::external_body]
#[verifier::reject_recursive_types(T)]
pub struct ExBound<T>(std::ops::Bound<T>);

/// `std::task::Poll`, the state of a future.
#[verifier::external_type_specification]
#[verifier::external_body]
#[verifier::reject_recursive_types(T)]
pub struct ExPoll<T>(std::task::Poll<T>);

/// `std::cell::Cell`, a mutable memory location.
#[verifier::external_type_specification]
#[verifier::external_body]
#[verifier::reject_recursive_types(T)]
pub struct ExCell<T: ?Sized>(std::cell::Cell<T>);

/// `std::pin::Pin`, a pinned pointer.
#[verifier::external_type_specification]
#[verifier::external_body]
#[verifier::reject_recursive_types(P)]
pub struct ExPin<P>(std::pin::Pin<P>);

impl LightClone for i8 {}
impl LightClone for i16 {}
impl LightClone for i32 {}
impl LightClone for i64 {}
impl LightClone for i128 {}
impl LightClone for isize {}
impl LightClone for u8 {}
impl LightClone for u16 {}
impl LightClone for u32 {}
impl LightClone for u64 {}
impl LightClone for u128 {}
impl LightClone for usize {}
impl LightClone for bool {}
impl LightClone for char {}
impl LightClone for std::time::Duration {}
impl LightClone for std::time::Instant {}
impl LightClone for std::time::SystemTime {}
impl LightClone for std::any::TypeId {}
impl LightClone for std::marker::PhantomPinned {}

/// Shared references are copied, never their referents.
impl<'a, T: ?Sized> LightClone for &'a T {}

/// An endpoint of a range whose value carries the marker.
impl<T: LightClone> LightClone for std::ops::Bound<T> {}

/// A poll result whose value carries the marker.
impl<T: LightClone> LightClone for std::task::Poll<T> {}

/// A cell of a `Copy` value carrying the marker: its clone copies the value.
impl<T: LightClone + Copy> LightClone for std::cell::Cell<T> {}

/// A pinned pointer that carries the marker.
impl<T: LightClone> LightClone for std::pin::Pin<T> {}

} // verus!
