//! A message channel to a game coordinator: opaque byte messages with a 32-bit
//! type tag, submitted to and retrieved from a service that keeps the queues.

pub mod exchange;
pub mod game_coordinator;
pub mod loopback;
pub mod outcome;
pub mod service;

pub use game_coordinator::GameCoordinator;
pub use loopback::Loopback;
pub use outcome::OperationResult;
pub use service::{Retrieval, Service};
