//! Control logic of a network-attached button/LED board: the wire protocol,
//! the bounded event queues, the game clock origin and the two network
//! sessions, each written as a state machine that a driver feeds with the
//! outcome of every I/O operation.
pub mod clock;
pub mod codec;
pub mod queue;
pub mod receive;
pub mod session;
