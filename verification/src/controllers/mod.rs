//! The entry points of the flow, one per request that takes part in it.

pub mod oauth2;
