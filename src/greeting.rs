//! The greeting command.
use vstd::prelude::*;
use vstd::string::StringExecFns;

verus! {

/// The greeting text for `name`.
pub open spec fn greeting_of(name: Seq<char>) -> Seq<char> {
    "Hello, "@ + name + "! You've been greeted from Rust!"@
}

/// Greets `name`.
pub fn greet(name: &str) -> (r: String)
    ensures
        r@ == greeting_of(name@),
{
    let mut text = String::from_str("Hello, ");
    text.append(name);
    text.append("! You've been greeted from Rust!");
    text
}

} // verus!
