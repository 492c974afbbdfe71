//! Moving messages from one queue to another, with an optional filter on one message
//! attribute.
//!
//! The library holds every decision of a transfer and performs no remote call itself: a
//! [`pipeline::Run`] names the call that is to be made next, and is advanced by the reply
//! that the queue service gave to it.
//!
//! - [`cli`]: the parameters of a transfer.
//! - [`message`]: a received message.
//! - [`filter`]: which messages are moved.
//! - [`queue`]: the requests to the queue service, and its replies.
//! - [`pipeline`]: the run of a transfer.
//! - [`error`]: how a transfer fails.

pub mod cli;
pub mod error;
pub mod filter;
pub mod message;
pub mod pipeline;
pub mod queue;
