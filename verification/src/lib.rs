//! Session and one-time-passcode authentication core.
//!
//! The crate holds the decisions of a login flow that confirms a session
//! with a passcode sent by mail: how a session is made and recognised, how
//! the passcode is kept encrypted at rest, and how a submitted passcode is
//! judged. Storage, transport and mail delivery belong to the caller, which
//! hands in plain values and carries out what the functions here decide.

pub mod compare;
pub mod digest;
pub mod encryption;
pub mod errors;
pub mod hexcode;
pub mod journey;
pub mod login;
pub mod mail;
pub mod model;
pub mod otp;
pub mod password;
pub mod random;
pub mod registration;
pub mod session;
pub mod store;
pub mod text;
