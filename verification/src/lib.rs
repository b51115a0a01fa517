//! The authorization-code flow of an OAuth2 sign-in: the anti-forgery token
//! bound to a visitor's session, the provider clients and their registry, the
//! callback state machine, and the short-lived credential cookie.

pub mod client;
pub mod codec;
pub mod controllers;
pub mod cookie;
pub mod csrf;
pub mod errors;
pub mod flow;
pub mod registry;
pub mod session;
pub mod text;
pub mod token;
