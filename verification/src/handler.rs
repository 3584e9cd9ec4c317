//! The static content served by the sample route.

use vstd::prelude::*;

verus! {

/// Milliseconds the sample handler waits before responding, standing in for
/// real work; the response is never ready earlier than this.
pub const HANDLER_DELAY_MS: u64 = 100;

/// The page body returned by every request to the root route.
pub fn handler_body() -> (r: &'static str)
    ensures
        r@ == "<h1>Hi again world</h1>"@,
{
    "<h1>Hi again world</h1>"
}

} // verus!
