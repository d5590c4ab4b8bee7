use vstd::prelude::*;

verus! {

/// The one failure of the service: the lock around the count was left
/// poisoned by a holder that panicked, so the count can no longer be trusted.
#[derive(Debug, Clone, Copy, PartialEq, Eq, Structural)]
pub enum CounterError {
    InternalStateCorrupted,
}

/// One step of the count: from `before`, the count becomes `after`, one more,
/// and the caller is handed the new count.
pub open spec fn is_increment(before: nat, returned: nat, after: nat) -> bool {
    &&& after == before + 1
    &&& returned == after
}

/// The number of requests served so far.
pub struct Counter {
    value: u64,
}

impl View for Counter {
    type V = nat;

    closed spec fn view(&self) -> nat {
        self.value as nat
    }
}

impl Counter {
    /// A counter that has served no request.
    pub fn new() -> (c: Counter)
        ensures
            c@ == 0,
    {
        Counter { value: 0 }
    }

    /// Reads the count. It takes the counter by shared reference, so reading
    /// never changes the count: incrementing is the only way to change it.
    pub fn value(&self) -> (r: u64)
        ensures
            r == self@,
    {
        self.value
    }

    /// Whether one more increment fits in the count's machine integer.
    pub fn can_increment(&self) -> (r: bool)
        ensures
            r == (self@ < u64::MAX),
    {
        self.value < u64::MAX
    }

    /// Adds one to the count and returns the new count.
    pub fn increment_and_get(&mut self) -> (r: u64)
        requires
            old(self)@ < u64::MAX,
        ensures
            is_increment(old(self)@, r as nat, final(self)@),
    {
        self.value = self.value + 1;
        self.value
    }
}

/// What a request does once it has tried to take the lock around the count.
/// When the lock came back poisoned, the count is left as it is and the error
/// is reported; otherwise the count is incremented and the new count returned.
pub fn increment_after_lock(counter: &mut Counter, poisoned: bool) -> (r: Result<u64, CounterError>)
    requires
        !poisoned ==> old(counter)@ < u64::MAX,
    ensures
        poisoned ==> r == Err::<u64, CounterError>(CounterError::InternalStateCorrupted) && final(counter)@ == old(counter)@,
        !poisoned ==> r is Ok && is_increment(old(counter)@, r->Ok_0 as nat, final(counter)@),
{
    if poisoned {
        Err(CounterError::InternalStateCorrupted)
    } else {
        Ok(counter.increment_and_get())
    }
}

} // verus!
