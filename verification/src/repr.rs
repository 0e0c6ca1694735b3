//! The C-layout containers of `safer_ffi` as Verus sees them.
//!
//! Nothing in this file is proved: the types are opaque, and each contract
//! restates what the named function of `safer_ffi` (or of `uninit`, whose
//! `Out` it hands on) does.

use vstd::prelude::*;
use crate::ffi::Example4;

verus! {

/// `safer_ffi::Vec<T>`: a vector with a fixed `(ptr, len, cap)` layout.
#[verifier::external_type_specification]
#[verifier::external_body]
#[verifier::reject_recursive_types(T)]
pub struct ExVec<T>(safer_ffi::Vec<T>);

/// `safer_ffi::boxed::Box<T>`: an owning pointer with the layout of `*mut T`.
#[verifier::external_type_specification]
#[verifier::external_body]
#[verifier::reject_recursive_types(T)]
pub struct ExBox<T>(safer_ffi::boxed::Box<T>);

/// `Out<'out, T>`: a write-only reference to a slot that may be uninitialised.
#[verifier::external_type_specification]
#[verifier::external_body]
#[verifier::reject_recursive_types(T)]
pub struct ExOut<'out, T: 'out + ?Sized>(safer_ffi::prelude::Out<'out, T>);

/// The numbers that a C-layout vector holds, in order.
pub uninterp spec fn c_vec_items(v: safer_ffi::Vec<u32>) -> Seq<u32>;

/// The numbers of the handle that a C-layout box owns.
pub uninterp spec fn boxed_items(b: safer_ffi::boxed::Box<Example4>) -> Seq<u32>;

/// `<safer_ffi::Vec<T> as From<Vec<T>>>::from`: takes over the buffer of `v`
/// as it is, so the result holds the items of `v` in their order.
#[verifier::external_body]
pub(crate) fn c_vec_from(v: Vec<u32>) -> (r: safer_ffi::Vec<u32>)
    ensures
        c_vec_items(r) == v@,
{
    safer_ffi::Vec::from(v)
}

/// `<safer_ffi::Vec<T> as Deref>::deref`: the slice over the `len` items of
/// the vector's buffer.
#[verifier::external_body]
pub(crate) fn c_vec_as_slice<'a>(v: &'a safer_ffi::Vec<u32>) -> (s: &'a [u32])
    ensures
        s@ == c_vec_items(*v),
{
    &**v
}

/// `safer_ffi::boxed::Box::new`: moves `value` to the heap; the box owns it.
#[verifier::external_body]
pub(crate) fn box_new(value: Example4) -> (b: safer_ffi::boxed::Box<Example4>)
    ensures
        boxed_items(b) == value@,
{
    safer_ffi::boxed::Box::new(value)
}

/// `<safer_ffi::boxed::Box<T> as Deref>::deref`: a reference to the value
/// that the box owns.
#[verifier::external_body]
pub(crate) fn box_as_ref<'a>(b: &'a safer_ffi::boxed::Box<Example4>) -> (r: &'a Example4)
    ensures
        r@ == boxed_items(*b),
{
    &**b
}

/// `Out::write`: stores `value` in the slot and returns the slot as an
/// initialised reference, which therefore points at `value`.
#[verifier::external_body]
pub(crate) fn out_write<'out, T>(slot: safer_ffi::prelude::Out<'out, T>, value: T) -> (written:
    &'out mut T)
    ensures
        *written == value,
{
    slot.write(value)
}

} // verus!
