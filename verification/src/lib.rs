//! Request-handling core of a small team-roster server.
//!
//! The crate holds the decisions of the server: where the templates and
//! the static assets live, which handler a request reaches, how a page of
//! teams is arranged, what each handler wants rendered, and how every
//! failure becomes one uniform error response. Sockets, the store, the
//! file system and the compiled templates stay with the caller.

pub mod api;
pub mod config;
pub mod engine;
pub mod error;
pub mod order;
pub mod paths;
pub mod response;
pub mod router;
pub mod startup;
pub mod status;
pub mod team;

pub use crate::api::{list_teams, root};
pub use crate::paths::{static_dir, template_dir};
