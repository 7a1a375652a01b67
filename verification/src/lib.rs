//! A sans-I/O core for hosting text-mode applications: the terminal session
//! model, the draw / input / tick cycle and the timing rules that drive it.
//!
//! The library decides; its caller performs. Every operation that touches the
//! terminal device is handed out as a value ([`cycle::Request`],
//! [`session::Command`]) and its result is handed back in
//! ([`cycle::Outcome`]).

pub mod span;
pub mod event;
pub mod app;
pub mod cycle;
pub mod session;
pub mod clock;
pub mod ui;
