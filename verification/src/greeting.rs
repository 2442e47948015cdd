//! The greeting shown by the front-end when it first talks to the backend.

use vstd::prelude::*;

verus! {

/// The greeting for `name`: the text `Hello, ` then `name` then `!`.
pub open spec fn greeting_of(name: Seq<char>) -> Seq<char> {
    "Hello, "@ + name + "!"@
}

/// Builds the greeting string for `name`.
pub fn greet(name: &str) -> (r: String)
    ensures
        r@ == greeting_of(name@),
{
    let mut r = String::from_str("Hello, ");
    r.append(name);
    r.append("!");
    r
}

} // verus!
