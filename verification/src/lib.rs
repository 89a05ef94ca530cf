//! The call-session core of a desktop softphone: the session state, the rules
//! by which commands and engine events change it, and what the engine, the
//! audio subsystem and the presentation layer are asked to do in return.
//!
//! [`model`] holds the rules as mathematics, [`laws`] what follows from them,
//! and [`session`] the session that keeps to them. The other modules hold the
//! types that pass in and out of a session, and what the screens show of it.

pub mod audio;
pub mod call;
pub mod clock;
pub mod commands;
pub mod config;
pub mod controls;
pub mod display;
pub mod engine;
pub mod event_log;
pub mod ident;
pub mod laws;
pub mod model;
pub mod network;
pub mod screens;
pub mod session;
pub mod text;
