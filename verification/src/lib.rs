//! Core of a terminal roster tool for an event-registration service:
//! OAuth2 authorization-code handling with a local callback, token caching
//! with a one-hour validity window, and the attendee fetch/normalize/sort
//! pipeline behind the interactive views.
//!
//! All network, filesystem and terminal I/O lives outside this crate; the
//! functions here take the outcomes of those calls as plain values and make
//! every decision the tool relies on.

pub mod app;
pub mod attendees;
pub mod auth;
pub mod config;
pub mod datetime;
pub mod search;
pub mod sort;
pub mod text;

pub use config::Config;
pub use config::TokenInfo;
