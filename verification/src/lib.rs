//! Client-side framework for a password-authenticated REST service: typed
//! request descriptors, a combinator algebra for chaining dependent network
//! steps, the SRP login state machine with second-factor handling, and an
//! auto-refresh-and-retry wrapper for expired bearer tokens.

pub mod client;
pub mod codec;
pub mod domain;
pub mod http;
pub mod repeater;
pub mod requests;
pub mod sequence;
pub mod session;
