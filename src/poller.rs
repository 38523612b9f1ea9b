//! A `mio` poller that keeps track of the one wake handle mio allows it.

use vstd::prelude::*;

verus! {

/// A `mio` poll instance. mio allows one wake handle per poll, and its debug
/// builds panic when a second one is made; so this type records whether one
/// has been made on it, and receivers register only with a poller that has none.
pub struct Poller {
    poll: mio::Poll,
    waker_made: bool,
}

/// Relies on `mio::Waker::new`: builds a wake handle for `token` on the poller's
/// registry, or reports the OS's error. It panics in debug builds if a handle
/// was made on that poll before, which `requires` rules out.
#[verifier::external_body]
fn new_waker(p: &Poller, token: mio::Token) -> std::io::Result<mio::Waker>
    requires
        !p.has_waker(),
{
    mio::Waker::new(p.poll.registry(), token)
}

impl Poller {
    /// Whether a wake handle has been made on this poller.
    pub closed spec fn has_waker(&self) -> bool {
        self.waker_made
    }

    /// Whether a wake handle has been made on this poller.
    pub fn waker_made(&self) -> (r: bool)
        ensures
            r == self.has_waker(),
    {
        self.waker_made
    }

    /// A new poller, with no wake handle yet.
    pub fn new() -> (r: std::io::Result<Poller>)
        ensures
            r matches Ok(p) ==> !p.has_waker(),
    {
        match mio::Poll::new() {
            Ok(poll) => Ok(Poller { poll, waker_made: false }),
            Err(e) => Err(e),
        }
    }

    /// Waits for events, at most `timeout` if one is given, and puts them in
    /// `events`.
    pub fn poll(&mut self, events: &mut mio::Events, timeout: Option<std::time::Duration>) -> (r:
        std::io::Result<()>)
        ensures
            final(self).has_waker() == old(self).has_waker(),
    {
        self.poll.poll(events, timeout)
    }

    /// Makes this poller's one wake handle, for `token`. mio counts the attempt
    /// even when it fails, so the poller has a handle afterwards either way.
    pub fn make_waker(&mut self, token: mio::Token) -> (r: std::io::Result<mio::Waker>)
        requires
            !old(self).has_waker(),
        ensures
            final(self).has_waker(),
    {
        let r = new_waker(self, token);
        self.waker_made = true;
        r
    }
}

} // verus!
