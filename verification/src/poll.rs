//! Futures that are polled until they are ready.

use vstd::prelude::*;

verus! {

/// The outcome of polling a future.
#[derive(Debug, PartialEq)]
pub enum RtcPoll<T> {
    /// The future is done.
    Ready(T),
    /// The future has to be polled again.
    Pending,
}

/// A future that has to be polled a number of times before it is ready.
#[derive(Debug)]
pub struct PollFuture {
    count: u32,
}

impl View for PollFuture {
    type V = nat;

    /// How many polls are left.
    closed spec fn view(&self) -> nat {
        self.count as nat
    }
}

impl PollFuture {
    /// Makes a future that is pending the given number of times.
    pub fn new(count: u32) -> (future: PollFuture)
        ensures
            future@ == count,
    {
        PollFuture { count }
    }

    /// Makes a future that is pending once.
    pub fn once() -> (future: PollFuture)
        ensures
            future@ == 1,
    {
        PollFuture::new(1)
    }

    /// Polls the future. While it is pending, the task wants to be woken at once.
    pub fn poll(&mut self) -> (poll: RtcPoll<()>)
        ensures
            old(self)@ > 0 ==> poll == RtcPoll::<()>::Pending && final(self)@ == old(self)@ - 1,
            old(self)@ == 0 ==> poll == RtcPoll::Ready(()) && final(self)@ == 0,
    {
        if self.count > 0 {
            self.count -= 1;
            RtcPoll::Pending
        } else {
            RtcPoll::Ready(())
        }
    }
}

} // verus!
