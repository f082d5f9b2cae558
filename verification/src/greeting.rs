//! Greetings.
use vstd::prelude::*;

verus! {

/// `greeting, name!`, as in `Hello, Sam!`.
pub open spec fn greeting_text(name: Seq<char>, greeting: Seq<char>) -> Seq<char> {
    greeting + ", "@ + name + "!"@
}

/// The greeting `greeting, name!`.
pub fn base_greeting_fn(name: &str, greeting: &str) -> (r: String)
    ensures
        r@ == greeting_text(name@, greeting@),
{
    let mut r = String::from_str(greeting);
    r.append(", ");
    r.append(name);
    r.append("!");
    r
}

} // verus!
