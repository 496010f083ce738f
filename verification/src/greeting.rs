//! The greeting handler's pure core: building the greeting string.

use vstd::prelude::*;
use vstd::string::StringExecFns;

verus! {

/// Build the greeting returned to the frontend for `name`: the fixed
/// salutation, the name verbatim, then the fixed sign-off.
pub fn greet(name: &str) -> (r: String)
    ensures
        r@ == "Hello, "@ + name@ + "! You've been greeted from Rust!"@,
{
    let mut message = String::from_str("Hello, ");
    message.append(name);
    message.append("! You've been greeted from Rust!");
    message
}

} // verus!
