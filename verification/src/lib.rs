//! Runtime type-identity casts.
//!
//! Given a value of generic type `T` and a caller-chosen target type `U`,
//! these operations answer whether `T` and `U` are the same concrete type
//! and, if so, hand the value back retyped as `U`. On a mismatch the
//! original value is returned intact in the failure arm, so nothing is
//! ever lost, copied or dropped by a failed attempt.
//!
//! Type identity is decided by the runtime type tag that the standard
//! library attaches to every `'static` type; two types match exactly when
//! they are the identical concrete type, never because their layouts agree.

use vstd::prelude::*;

verus! {

/// Relies on `<dyn core::any::Any>::downcast_mut::<Option<U>>`: the downcast
/// succeeds exactly when the erased slot's concrete type is `Option<U>`, and
/// then yields a mutable borrow of that same slot. On success the value is
/// moved out of the slot with `Option::take`, so a `Some` input gives a `Some`
/// result; on failure the slot is untouched and is handed back as it came in.
#[verifier::external_body]
fn downcast_option<T: 'static, U: 'static>(opt: Option<T>) -> (r: Result<Option<U>, Option<T>>)
    ensures
        r matches Err(back) ==> back == opt,
        r matches Ok(moved) ==> (moved is Some <==> opt is Some),
{
    let mut slot = opt;
    {
        let erased: &mut dyn std::any::Any = &mut slot;
        if let Some(target) = erased.downcast_mut::<Option<U>>() {
            return Ok(target.take());
        }
    }
    Err(slot)
}

/// Checks if `T == U`, and returns `Ok(U)` if they are.
///
/// On failure the very value that was passed in comes back in the `Err` arm:
/// the cast consumes `val` only to return it, retyped on success and
/// unchanged on mismatch.
pub fn into_same<T: 'static, U: 'static>(val: T) -> (r: Result<U, T>)
    ensures
        r matches Err(returned) ==> returned == val,
{
    match downcast_option::<T, U>(Some(val)) {
        Ok(moved) => Ok(moved.unwrap()),
        Err(back) => Err(back.unwrap()),
    }
}

/// Relies on `<dyn core::any::Any>::downcast_ref::<U>`: the downcast succeeds
/// exactly when the erased value's concrete type is `U`, and then yields a
/// borrow of the same value, at the same place and for the same lifetime.
#[verifier::external_body]
fn downcast_borrow<'a, T: 'static, U: 'static>(val: &'a T) -> (r: Option<&'a U>) {
    let erased: &dyn std::any::Any = val;
    erased.downcast_ref::<U>()
}

/// Checks if `T == U`, and returns `Ok(&U)` if they are.
///
/// On failure the borrow that was passed in is itself the `Err` payload;
/// nothing behind it is read or written either way.
pub fn as_same<T: 'static, U: 'static>(val: &T) -> (r: Result<&U, &T>)
    ensures
        r matches Err(returned) ==> returned == val,
{
    match downcast_borrow::<T, U>(val) {
        Some(target) => Ok(target),
        None => Err(val),
    }
}

/// Relies on `<dyn core::any::Any>::is::<U>` and `downcast_mut::<U>`: `is`
/// reports whether the erased value's concrete type is `U`, and exactly then
/// the downcast succeeds, so the unwrap cannot panic. On success the result
/// borrows the same place mutably; on failure the borrow comes back as it
/// went in, with nothing behind it read or written.
#[verifier::external_body]
fn downcast_borrow_mut<'a, T: 'static, U: 'static>(val: &'a mut T) -> (r: Result<
    &'a mut U,
    &'a mut T,
>)
    ensures
        r matches Err(returned) ==> *returned == *old(val) && *final(returned) == *final(val),
{
    let erased: &dyn std::any::Any = val;
    if erased.is::<U>() {
        return Ok((val as &mut dyn std::any::Any).downcast_mut::<U>().unwrap());
    }
    Err(val)
}

/// Checks if `T == U`, and returns `Ok(&mut U)` if they are.
///
/// On failure the mutable borrow that was passed in is itself the `Err`
/// payload, exclusivity intact; at no instant are two typed views of the
/// place live at once.
pub fn as_mut_same<T: 'static, U: 'static>(val: &mut T) -> (r: Result<&mut U, &mut T>)
    ensures
        r matches Err(returned) ==> *returned == *old(val) && *final(returned) == *final(val),
{
    downcast_borrow_mut::<T, U>(val)
}

/// The three identity casts as methods, for call-site convenience.
///
/// Every `Sized + 'static` type gets this capability through the blanket
/// impl below; the methods only forward to the free functions and add no
/// semantics of their own.
pub trait IdentityCast: Sized + 'static {
    /// Checks if `Self == U`, and returns `Ok(U)` if they are.
    fn into_same<U>(self) -> (r: Result<U, Self>) where U: 'static
        ensures
            r matches Err(returned) ==> returned == self,
    {
        into_same(self)
    }

    /// Checks if `Self == U`, and returns `Ok(&U)` if they are.
    fn as_same<U>(&self) -> (r: Result<&U, &Self>) where U: 'static
        ensures
            r matches Err(returned) ==> returned == self,
    {
        as_same(self)
    }

    /// Checks if `Self == U`, and returns `Ok(&mut U)` if they are.
    fn as_mut_same<U>(&mut self) -> (r: Result<&mut U, &mut Self>) where U: 'static
        ensures
            r matches Err(returned) ==> *returned == *old(self) && *final(returned)
                == *final(self),
    {
        as_mut_same(self)
    }
}

impl<T: Sized + 'static> IdentityCast for T {}

} // verus!
