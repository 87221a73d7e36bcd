//! Client core for a stateful remote-control protocol spoken over a
//! persistent duplex text-message channel.
//!
//! The library holds the verified heart of the client: the command
//! catalogue and its wire envelope, the JSON text layer, and the
//! correlation engine that holds back traffic behind the registration
//! handshake, allocates collision-free request ids, and routes inbound
//! messages back to the caller awaiting exactly that id.
//!
//! Opening the socket, awaiting messages, and settling completion
//! handles are left to the embedding application; every decision the
//! protocol takes is a function in this crate with a contract.

pub mod commands;
pub mod engine;
pub mod inbound;
pub mod laws;
pub mod wire;

pub use commands::{Command, CommandRequest, Payload};
pub use engine::{CommandResponse, DispatchError, Engine, RouterAction};
pub use inbound::InboundEvent;
