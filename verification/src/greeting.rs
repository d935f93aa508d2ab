//! A demonstration command of the host shell: greet a caller by name.

use vstd::prelude::*;
use vstd::string::StringExecFns;

verus! {

/// The greeting returned for `name`, character for character.
pub open spec fn greeting_of(name: Seq<char>) -> Seq<char> {
    "Hello, "@ + name + "! You've been greeted from Rust!"@
}

/// Greet a caller by name.
pub fn greet(name: &str) -> (greeting: String)
    ensures
        greeting@ == greeting_of(name@),
{
    let mut s = String::from_str("Hello, ");
    s.append(name);
    s.append("! You've been greeted from Rust!");
    proof {
        assert(s@ =~= greeting_of(name@));
    }
    s
}

} // verus!
