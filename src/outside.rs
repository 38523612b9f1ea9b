//! Declarations of the outside types and functions that the library relies on.

use vstd::prelude::*;

verus! {

/// `std::io::Error`, carried through unchanged from the poller.
#[verifier::external_type_specification]
#[verifier::external_body]
pub struct ExIoError(std::io::Error);

/// A `mio` poller.
#[verifier::external_type_specification]
#[verifier::external_body]
pub struct ExPoll(mio::Poll);

/// The buffer that a `mio` poller fills with events.
#[verifier::external_type_specification]
#[verifier::external_body]
pub struct ExEvents(mio::Events);

/// A `mio` wake handle, bound to a registry and a token.
#[verifier::external_type_specification]
#[verifier::external_body]
pub struct ExWaker(mio::Waker);

/// The readiness kinds a caller asks for; the channel ignores them.
#[verifier::external_type_specification]
#[verifier::external_body]
pub struct ExInterest(mio::Interest);

/// A `mio` token: a plain `usize` in a public field.
#[verifier::external_type_specification]
pub struct ExToken(mio::Token);

/// Relies on `mio::Poll::new`: a new poller, or the OS's error.
pub assume_specification[ mio::Poll::new ]() -> std::io::Result<mio::Poll>;

/// Relies on `mio::Poll::poll`: waits for events, up to `timeout`, and puts
/// them in `events`. What arrives is the OS's.
pub assume_specification[ mio::Poll::poll ](
    poll: &mut mio::Poll,
    events: &mut mio::Events,
    timeout: Option<std::time::Duration>,
) -> std::io::Result<()>;

/// Relies on `mio::Waker::wake`: signals the poller; the outcome is the OS's.
pub assume_specification[ mio::Waker::wake ](w: &mio::Waker) -> std::io::Result<()>;

} // verus!
