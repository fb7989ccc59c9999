//! A low-level client library for the control interface of `wpa_supplicant`
//! and `hostapd`.
//!
//! The daemon is reached over a connected UNIX domain datagram socket.  The
//! wire protocol is line-oriented text: each command is one datagram, and the
//! daemon answers with one reply datagram.  A client that has attached also
//! receives unsolicited status notifications on the same socket; a datagram
//! whose first character is `<` is a notification, anything else is a reply.
//!
//! This crate holds the protocol core: classifying datagrams, buffering
//! notifications that arrive while a command is in flight, the session state
//! machine driven by the `ATTACH` / `DETACH` handshake, the bind-path
//! collision policy, and the parsers for `hostapd` MIB records.  The socket
//! itself, being operating-system state, is owned by the embedding
//! application, which feeds the outcomes of its socket calls into the state
//! machines defined here.

use vstd::prelude::*;

pub mod builder;
pub mod digits;
pub mod error;
pub mod hostapd;
pub mod mib;
pub mod mux;
pub mod session;
pub mod text;

pub use crate::builder::ClientBuilder;
pub use crate::error::Error;

verus! {

/// Abstraction over a connection that can run one command and return its
/// reply, used by the `hostapd` record readers.  The daemon's replies are not
/// modeled, so the method carries no postcondition: callers state what holds
/// of every possible reply.
pub trait WPAClient {
    /// Send a command to `wpa_supplicant` / `hostapd` and return its reply.
    ///
    /// Commands are generally identical to those used in `wpa_cli`,
    /// except all uppercase (eg `LIST_NETWORKS`, `SCAN`, etc).
    fn request(&mut self, cmd: &str) -> Result<String, Error>;
}

} // verus!
