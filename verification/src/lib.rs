//! Core of a keyboard-driven terminal dashboard for CI pipelines: the action
//! dispatcher, the key-sequence resolver, the shared state and focus rules,
//! the components' reactions and what they paint, and the page indicator.
//!
//! Everything here works on plain values. Reading the terminal, talking to
//! the network and painting widgets is left to the program around it.

pub mod action;
pub mod app;
pub mod cli;
pub mod components;
pub mod config;
pub mod gitlab;
pub mod key;
pub mod keymap;
pub mod layout;
pub mod paginator;
pub mod state;
pub mod style;
pub mod text;
pub mod tui;
pub mod ui;
