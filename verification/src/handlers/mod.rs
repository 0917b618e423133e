//! The endpoints under `/api/two-factor`.

pub mod authenticator;
pub mod providers;
pub mod response;
pub mod yubikey;
