//! The plain operations that the boundary functions hand across.

use vstd::prelude::*;

verus! {

/// The numbers that `example2_1` puts into its vector for `x`.
pub open spec fn numbers_for(x: u32) -> Seq<u32> {
    seq![x]
}

/// The number read from a sequence: its first item.
pub open spec fn number_in(items: Seq<u32>) -> u32
    recommends
        items.len() > 0,
{
    items[0]
}

/// Hands its argument back unchanged.
pub fn example1(x: u32) -> (r: u32)
    ensures
        r == x,
{
    x
}

/// Makes the vector that carries `x`.
pub fn example2_1(x: u32) -> (r: Vec<u32>)
    ensures
        r@ == numbers_for(x),
{
    vec![x]
}

/// Reads the number that a vector carries. The slice must not be empty.
pub fn example2_2(x: &[u32]) -> (r: u32)
    requires
        x@.len() > 0,
    ensures
        r == number_in(x@),
{
    x[0]
}

/// Reading the vector made for `x` gives `x` again.
pub proof fn lemma_vector_round_trip(x: u32)
    ensures
        numbers_for(x).len() > 0,
        number_in(numbers_for(x)) == x,
{
}

/// An owned run of numbers that always has a first item.
pub struct Example4 {
    pub(crate) x: Vec<u32>,
}

impl View for Example4 {
    type V = Seq<u32>;

    open(crate) spec fn view(&self) -> Seq<u32> {
        self.x@
    }
}

impl Example4 {
    /// Holds of every value of the type: there is a first item to read.
    #[verifier::type_invariant]
    pub(crate) open(crate) spec fn has_first(self) -> bool {
        self.x@.len() > 0
    }
}

} // verus!
