//! The rules of a small side-scrolling bird game: its screen state machine,
//! the bird's animation and movement schedule, pipe bookkeeping, and the
//! sprite-button and hover logic of its menus. Everything here works on
//! plain values; rendering, input polling and the floating-point motion
//! stay with the engine that drives these rules.
pub mod debug;
pub mod gameplay;
pub mod pipes;
pub mod player;
pub mod screens;
pub mod ui;
