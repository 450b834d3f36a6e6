//! Greetings served by the host's web front end.

use vstd::prelude::*;
use vstd::string::StringExecFns;

verus! {

/// The greeting served at the root path.
pub fn index() -> (greeting: &'static str)
    ensures
        greeting@ == "Hello, world!"@,
{
    "Hello, world!"
}

/// The greeting served for a named visitor.
pub fn hello(name: String) -> (greeting: String)
    ensures
        greeting@ == "Hello, "@ + name@ + "!"@,
{
    let mut greeting = String::from_str("Hello, ");
    greeting.append(name.as_str());
    greeting.append("!");
    greeting
}

} // verus!
