//! The ways in which obtaining a credential can fail.

use vstd::prelude::*;

verus! {

/// Why a scheme could not be parsed or a refresh could not be used.
#[derive(Clone, Copy, Debug, PartialEq, Eq, Structural)]
pub enum AuthError {
    /// The scheme string names no known authorization scheme.
    UnsupportedScheme,
    /// The refresh command could not be run to its end, or what it printed
    /// could not be read as text.
    CommandExecutionError,
    /// What the refresh command printed is not a credential followed by a
    /// lifetime in seconds.
    InvalidRefreshOutput,
}

} // verus!
