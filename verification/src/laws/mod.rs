//! What holds of whole requests, and of what they are made of.

pub mod refusals;
pub mod providers;
pub mod authenticator;
pub mod hosts;
pub mod recovery;
pub mod yubikey;
pub mod lists;
pub mod strings;
pub mod statements;
pub mod answers;
pub mod failures;
pub mod views;
