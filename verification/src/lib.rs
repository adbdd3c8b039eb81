//! A subscriber's message-rate core: a monotone arrival counter read and
//! diffed by a once-per-second reporter, composed with a cancellable event
//! loop that stops on a quit keystroke. The transport that delivers the
//! messages and the console that prints the rate live outside this crate;
//! here stand the counter, the loop's state machine, and the laws they obey.

pub mod counter;
pub mod event_loop;
pub mod laws;
pub mod report;
