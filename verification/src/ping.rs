//! The one command that the bot offers.

use vstd::prelude::*;

verus! {

/// What the command answers, whoever invokes it.
pub open spec fn ping_text() -> Seq<char> {
    "Pong!"@
}

/// The answer to an invocation of the command.
pub fn ping() -> (text: String)
    ensures
        text@ == ping_text(),
{
    "Pong!".to_owned()
}

} // verus!
