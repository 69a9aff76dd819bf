//! The one command the backend exposes to the UI layer: a greeting formatted
//! around the caller's name.

use vstd::prelude::*;

verus! {

/// The greeting returned for a given name: the name spliced into the fixed
/// template.
pub open spec fn greeting_of(name: Seq<char>) -> Seq<char> {
    "Hello, "@ + name + "! You've been greeted from Rust!"@
}

/// Formats the greeting for `name`. The result is exactly the template
/// `"Hello, {name}! You've been greeted from Rust!"`, for every `name`.
pub fn greet(name: &str) -> (r: String)
    ensures
        r@ == greeting_of(name@),
{
    String::from_str("Hello, ").concat(name).concat("! You've been greeted from Rust!")
}

} // verus!
