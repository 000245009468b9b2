//! Authentication and session-lifecycle engine for a small location service.
//!
//! - [`exchange`]: logins in flight (OAuth2 PKCE verifiers keyed by CSRF state),
//!   swept after the authorization window, each claimed at most once.
//! - [`login`]: the decisions of the provider's redirect callback.
//! - [`session`]: session credentials with idle and absolute expiry.
//! - [`location`]: last known location per reporting client, and the roster.
//! - [`api`]: who may read and write locations.
//!
//! Every store is driven through `&mut self`; monotonic times are passed in as
//! milliseconds, so the expiry rules are functions of their arguments.

mod specs;

pub mod api;
pub mod clock;
pub mod directory;
pub mod error;
pub mod exchange;
pub mod location;
pub mod login;
pub mod session;
