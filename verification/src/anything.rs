//! The sentence that describes a name/number pair.

use vstd::prelude::*;
use vstd::string::StringExecFns;

verus! {

/// The sentence for a name and a number that is already written out as text.
pub open spec fn description(name: Seq<char>, something_else: Seq<char>) -> Seq<char> {
    "The value of Anything includes the name: "@ + name + ", and something_else: "@
        + something_else
}

/// Writes the sentence for `name` and for the number whose text is
/// `something_else`.
pub fn describe(name: &str, something_else: &str) -> (r: String)
    ensures
        r@ == description(name@, something_else@),
{
    let mut text = String::from_str("The value of Anything includes the name: ");
    text.append(name);
    text.append(", and something_else: ");
    text.append(something_else);
    text
}

} // verus!
