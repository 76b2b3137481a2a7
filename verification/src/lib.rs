//! Core library for a small chat-gateway bot.
//!
//! The library holds everything the bot decides on its own: the module
//! interface and its registered modules, the startup token check, the
//! event-loop policy (when to keep receiving and when to stop), and the
//! channel lookup over a connection-state snapshot. The binary around it
//! only performs the console and network I/O and feeds events in.

use vstd::prelude::*;

pub mod gateway;
pub mod modules;
pub mod state;
pub mod utils;

verus! {

/// The error a bot startup can fail with before any event is received.
pub enum StartupError {
    /// No authentication token was supplied.
    MissingToken,
}

/// Decides whether startup may proceed, given the authentication token as it
/// was (or was not) found in the environment. Startup fails exactly when no
/// token is present; a present token is passed through unchanged.
pub fn check_token(token: Option<String>) -> (r: Result<String, StartupError>)
    ensures
        r is Ok <==> token is Some,
        token matches Some(t) ==> (r matches Ok(s) && s@ == t@),
        token is None ==> (r matches Err(e) && e is MissingToken),
{
    match token {
        Some(t) => Ok(t),
        None => Err(StartupError::MissingToken),
    }
}

} // verus!
