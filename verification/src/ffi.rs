//! The boundary functions: what a C caller sees of the library.

use vstd::prelude::*;
use safer_ffi::prelude::Out;
use crate::api;
use crate::repr::{
    box_as_ref, box_new, boxed_items, c_vec_as_slice, c_vec_from, c_vec_items, out_write,
};

verus! {

/// Takes a number and hands the same number back.
pub fn example1(x: u32) -> (r: u32)
    ensures
        r == x,
{
    api::example1(x)
}

/// Hands out an owned vector that carries `x`.
pub fn example2_1(x: u32) -> (r: safer_ffi::Vec<u32>)
    ensures
        c_vec_items(r) == api::numbers_for(x),
{
    c_vec_from(api::example2_1(x))
}

/// Reads the number that a borrowed vector carries; the caller keeps the
/// vector. The vector must not be empty.
pub fn example2_2(x: &safer_ffi::Vec<u32>) -> (r: u32)
    requires
        c_vec_items(*x).len() > 0,
    ensures
        r == api::number_in(c_vec_items(*x)),
{
    api::example2_2(c_vec_as_slice(x))
}

/// Reads the number that a vector carries and frees the vector. The vector
/// must not be empty.
pub fn example2_2_consume(x: safer_ffi::Vec<u32>) -> (r: u32)
    requires
        c_vec_items(x).len() > 0,
    ensures
        r == api::number_in(c_vec_items(x)),
{
    api::example2_2(c_vec_as_slice(&x))
}

/// What a read of a vector that may be empty gives: the number it carries,
/// or nothing from an empty one.
pub open spec fn number_if_any(items: Seq<u32>) -> Option<u32> {
    if items.len() > 0 {
        Some(api::number_in(items))
    } else {
        None
    }
}

/// A checked read of the vector made for `x` gives `x`.
pub proof fn lemma_checked_round_trip(x: u32)
    ensures
        number_if_any(api::numbers_for(x)) == Some(x),
{
}

/// As `example2_2`, for a vector of any length: `None` from an empty one.
pub fn try_example2_2(x: &safer_ffi::Vec<u32>) -> (r: Option<u32>)
    ensures
        r == number_if_any(c_vec_items(*x)),
{
    if c_vec_as_slice(x).len() > 0 {
        Some(example2_2(x))
    } else {
        None
    }
}

/// As `example2_2_consume`, for a vector of any length: `None` from an empty
/// one. The vector is freed either way.
pub fn try_example2_2_consume(x: safer_ffi::Vec<u32>) -> (r: Option<u32>)
    ensures
        r == number_if_any(c_vec_items(x)),
{
    if c_vec_as_slice(&x).len() > 0 {
        Some(example2_2_consume(x))
    } else {
        None
    }
}

/// Frees a vector that `example2_1` handed out: the function owns `x`, and
/// the buffer is released when it returns.
pub fn example2_drop(x: safer_ffi::Vec<u32>) {
    let _ = x;
}

/// A transparent record: both fields cross the boundary by value.
pub struct Example3 {
    pub x: u32,
    pub y: bool,
}

/// A record with both fields cleared.
pub fn example3_make() -> (r: Example3)
    ensures
        r.x == 0,
        !r.y,
{
    Example3 { x: 0, y: false }
}

/// Fills a record that the caller owns.
pub fn example3_fill(s: &mut Example3)
    ensures
        final(s).x == 3,
        final(s).y,
{
    s.x = 3;
    s.y = true;
}

/// An opaque handle: the caller holds it only behind a pointer and gives it
/// back to be freed. Its view is the run of numbers that it owns.
pub struct Example4 {
    backend: api::Example4,
}

impl View for Example4 {
    type V = Seq<u32>;

    closed spec fn view(&self) -> Seq<u32> {
        self.backend@
    }
}

/// The numbers that a new handle owns.
pub open spec fn fresh_items() -> Seq<u32> {
    seq![1u32, 2u32, 3u32]
}

/// Makes a handle on the heap and hands out the pointer that owns it.
pub fn example4_make() -> (r: safer_ffi::boxed::Box<Example4>)
    ensures
        boxed_items(r) == fresh_items(),
{
    box_new(Example4 { backend: api::Example4 { x: vec![1, 2, 3] } })
}

/// Reads the first number of a handle. Every handle has one.
pub fn example4_read(s: &Example4) -> (r: u32)
    ensures
        s@.len() > 0,
        r == s@[0],
{
    proof {
        use_type_invariant(&s.backend);
    }
    s.backend.x[0]
}

/// Reads the first number of a handle through the pointer that owns it.
pub fn example4_read_box(s: &safer_ffi::boxed::Box<Example4>) -> (r: u32)
    ensures
        boxed_items(*s).len() > 0,
        r == boxed_items(*s)[0],
{
    example4_read(box_as_ref(s))
}

/// Overwrites the first number of a handle with 10 and leaves the others.
pub fn example4_mutate(s: &mut Example4)
    ensures
        old(s)@.len() > 0,
        final(s)@ == old(s)@.update(0, 10),
        final(s)@[0] == 10,
{
    proof {
        use_type_invariant(&s.backend);
    }
    s.backend.x[0] = 10;
}

/// Frees a handle that `example4_make` handed out: the function owns `s`, and
/// the handle is released when it returns.
pub fn example4_drop(s: safer_ffi::boxed::Box<Example4>) {
    let _ = s;
}

/// What a read through a nullable pointer gives: the first number of the
/// handle, or 4 where there is none.
pub open spec fn nullable_read(items: Option<Seq<u32>>) -> u32 {
    match items {
        Some(items) => items[0],
        None => 4,
    }
}

/// The numbers behind a pointer that may be null.
pub open spec fn items_behind(s: Option<&Example4>) -> Option<Seq<u32>> {
    match s {
        Some(handle) => Some(handle@),
        None => None,
    }
}

/// Reads the first number of a handle through a pointer that may be null.
pub fn example4a_read(s: Option<&Example4>) -> (r: u32)
    ensures
        r == nullable_read(items_behind(s)),
        s is None ==> r == 4,
{
    match s {
        Some(handle) => example4_read(handle),
        None => 4,
    }
}

/// A read after `example4_mutate` gives 10, whatever the handle held before,
/// through a plain or a nullable pointer; the handle keeps its length and
/// every number after the first.
pub proof fn lemma_read_after_mutate(before: Seq<u32>)
    requires
        before.len() > 0,
    ensures
        before.update(0, 10)[0] == 10,
        nullable_read(Some(before.update(0, 10))) == 10,
        before.update(0, 10).len() == before.len(),
        forall|i: int| 0 < i < before.len() ==> before.update(0, 10)[i] == before[i],
{
}

/// Writes 10 into the caller's slot and hands the slot back, now initialised.
pub fn example5_value<'out>(result: Out<'out, u32>) -> (written: &'out mut u32)
    ensures
        *written == 10,
{
    out_write(result, 10)
}

/// Makes a handle, writes the pointer that owns it into the caller's slot and
/// reports success. The slot comes back beside the flag, now initialised.
pub fn example5_pointer<'out>(result: Out<'out, safer_ffi::boxed::Box<Example4>>) -> (r: (
    bool,
    &'out mut safer_ffi::boxed::Box<Example4>,
))
    ensures
        r.0,
        boxed_items(*r.1) == fresh_items(),
{
    let s = box_new(Example4 { backend: api::Example4 { x: vec![1, 2, 3] } });
    (true, out_write(result, s))
}

/// As `example5_pointer`, for a slot that may be absent: then nothing is made
/// and the flag is `false`.
pub fn example5_nullable<'out>(
    result: Option<Out<'out, safer_ffi::boxed::Box<Example4>>>,
) -> (r: (bool, Option<&'out mut safer_ffi::boxed::Box<Example4>>))
    ensures
        r.0 == result.is_some(),
        r.1.is_some() == result.is_some(),
        r.1 matches Some(written) ==> boxed_items(*written) == fresh_items(),
{
    match result {
        Some(out) => {
            let s = box_new(Example4 { backend: api::Example4 { x: vec![1, 2, 3] } });
            (true, Some(out_write(out, s)))
        },
        None => (false, None),
    }
}

} // verus!
