//! A multi-producer, multi-consumer channel whose receivers can be registered
//! with a `mio` poller: every value sent wakes all registered receivers, while
//! each value is still taken by exactly one of them.

pub mod outside;
pub mod poller;
pub mod registry;
pub mod broadcast;
pub mod laws;

pub use broadcast::{channel, Receiver, SendError, Sender, TryRecvError};
pub use poller::Poller;
pub use registry::{RegistrationError, WakerRegistry};
