//! Keyboard input and what it does to the application state.

pub mod handler;
