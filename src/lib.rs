//! Client library for the QQ open-platform bot gateway: the gateway session
//! state machine, the wire envelope and opcode taxonomy, the webhook
//! validator and intake routing, and the REST request shapes.

pub mod backoff;
pub mod config;
pub mod error;
pub mod event;
pub mod gateway;
pub mod handler;
pub mod intake;
pub mod json;
pub mod lifecycle;
pub mod message;
pub mod rest;
pub mod session;
pub mod text;
pub mod validation;
