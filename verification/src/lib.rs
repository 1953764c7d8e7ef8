//! Shaoooh: shiny hunting automaton on original hardware.
//!
//! The library holds the decision logic of the bot: the hunt state machines,
//! the application state transitions, the wire encodings used to talk to the
//! consoles, and the lookup tables built from the reference data.
pub mod text;
pub mod app;
pub mod vision;
pub mod control;
pub mod hunt;
pub mod sys;
pub mod fsm;
pub mod context;
pub mod displays;
