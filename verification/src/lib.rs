//! Two-factor authentication of a Bitwarden-compatible server.
//!
//! [`handlers`] holds the endpoints. Each is a state machine: it asks for one action
//! after the other ([`protocol`]) and is handed the replies. The database, the network
//! and the cryptography are with whoever performs the actions; what is asked when, and
//! what is answered, is decided and proved here.
//!
//! [`laws`] states what holds of whole requests, on a model of the world around them
//! ([`world`]).

pub mod admission;
pub mod error;
pub mod fresh;
pub mod handlers;
pub mod json;
pub mod laws;
pub mod models;
pub mod protocol;
pub mod recovery;
pub mod statement;
pub mod text;
pub mod world;
pub mod yubico;
