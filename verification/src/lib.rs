//! Decision core of a button-grid control surface for a live-streaming
//! platform.
//!
//! The crate holds the session state machine (authentication, observer
//! notification, display liveness, cached viewer count), the decoder that
//! turns a button interaction into a typed [`action::Action`], the planners
//! that turn an action into the platform calls it requires, the chat-message
//! chunker, and the deep-link fragment reader. Network transport and the
//! host-runtime callbacks live outside the crate and exchange plain values
//! with it.

pub mod action;
pub mod chunk;
pub mod deeplink;
pub mod messages;
pub mod platform;
pub mod state;
pub mod text;
