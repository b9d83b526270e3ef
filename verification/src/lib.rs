//! A self-refreshing credential provider for outbound requests.
//!
//! An [`Auth`] caches the token that a refresh command delivered and decides
//! at each access whether that token may be presented once more. It does not
//! run the command and it reads no clock: both are left to the caller, who
//! passes in the clock reading and, when asked, what the command printed.
//!
//! An access goes in one or two steps. [`Auth::access_token`] answers with the
//! header to add, with the finding that the provider adds none, or with the
//! request to refresh. In the last case the caller runs the refresh command
//! once and hands its output to [`Auth::complete_refresh`], which stores the
//! new token and answers with the header, or reports why the output is of no
//! use and leaves the provider as it was.
//!
//! The refresh command prints two fields set apart by white space: the
//! credential and its lifetime in seconds. A negative lifetime stands for a
//! credential that never expires, zero for one that is good for a single use.
//! A credential with a positive lifetime is replaced once more than half of
//! that lifetime has passed, so that it does not expire on its way.

pub mod auth;
pub mod clock;
pub mod error;
pub mod lifespan;
pub mod output;
pub mod scheme;
pub mod text;
pub mod theorems;

pub use crate::auth::{Access, Auth, AuthToken, Header};
pub use crate::clock::Timestamp;
pub use crate::error::AuthError;
pub use crate::lifespan::LifeSpan;
pub use crate::scheme::ApiAuth;
