//! What the socket for live clients answers.

use vstd::prelude::*;
use vstd::string::StringExecFns;

verus! {

/// The answer to the message `message`.
pub open spec fn reply_text(message: Seq<char>) -> Seq<char> {
    if message == "aaa"@ {
        "a"@
    } else if message == "bbb"@ {
        "b"@
    } else {
        "c"@
    }
}

/// What a client is told in answer to `message`.
pub fn reply_to(message: &str) -> (reply: &'static str)
    ensures
        reply@ == reply_text(message@),
{
    let message = String::from_str(message);
    if message == String::from_str("aaa") {
        "a"
    } else if message == String::from_str("bbb") {
        "b"
    } else {
        "c"
    }
}

} // verus!
