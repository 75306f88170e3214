//! Session handling for an automated client of a social platform: the cookie
//! store, request headers, the login flow's decisions and payloads, one-time
//! codes, and saving and restoring a session.

pub mod auth;
mod clock;
pub mod cookies;
pub mod endpoints;
pub mod error;
pub mod explore;
pub mod features;
pub mod flow;
pub mod headers;
pub mod installer;
pub mod json;
pub mod persist;
pub mod store;
pub mod text;
pub mod totp;
pub mod trends;
