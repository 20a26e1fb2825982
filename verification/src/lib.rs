//! Pairing an Android device with a host over wireless debugging.
//!
//! The crate holds the decisions of the pairing workflow: the one-time
//! credentials and the token that carries them, the descriptor of a
//! discovered device, the parsing of a port number, and the state machine
//! that sequences discovery, pairing and connection.

pub mod address;
pub mod chars;
pub mod credentials;
pub mod decimal;
pub mod device;
pub mod discovery;
pub mod port;
pub mod process;
pub mod record;
pub mod token;
pub mod workflow;
