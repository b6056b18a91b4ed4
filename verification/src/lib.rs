//! Biometric-gated unlock of a protected secret, and synthetic keyboard input.
//!
//! The crate holds the decisions of both: how a key is derived from a
//! challenge, who is named to the authorization service, what is asked of
//! the authority, the cipher and the credential store and in which order,
//! and which keyboard events stand for a text. Talking to the operating
//! system stays with the caller, who performs each request and hands the
//! answer back.

pub mod authority;
pub mod autotype;
pub mod biometric;
pub mod error;
pub mod key;
pub mod primitives;
pub mod secret;

pub use autotype::{get_foreground_window_title, type_input};
pub use biometric::Biometric;
pub use error::Error;
