use vstd::prelude::*;

use crate::counter::{increment_after_lock, Counter, CounterError};
use crate::render::{counter_body, decimal};

verus! {

/// Serves one request to the counter route, once the lock around the count
/// has been taken (`poisoned` tells whether it came back poisoned): the count
/// is incremented and the body names the new count, or, on a poisoned lock,
/// the count is left alone and the error is reported.
pub fn counter_route_handler(counter: &mut Counter, poisoned: bool) -> (r: Result<String, CounterError>)
    requires
        !poisoned ==> old(counter)@ < u64::MAX,
    ensures
        poisoned ==> r is Err && r->Err_0 == CounterError::InternalStateCorrupted && final(counter)@
            == old(counter)@,
        !poisoned ==> final(counter)@ == old(counter)@ + 1 && r is Ok && r->Ok_0@ == "Request number: "@
            + decimal(final(counter)@),
{
    match increment_after_lock(counter, poisoned) {
        Ok(n) => Ok(counter_body(n)),
        Err(e) => Err(e),
    }
}

} // verus!
