//! A fixed greeting, written as a plain function.

use vstd::prelude::*;

verus! {

/// The greeting.
pub open spec fn greeting() -> Seq<char> {
    "Hello, world!"@
}

/// Returns the greeting; it takes no argument and always says the same.
pub fn say_hello() -> (line: String)
    ensures
        line@ == greeting(),
{
    String::from_str("Hello, world!")
}

} // verus!
