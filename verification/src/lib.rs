//! Focus and icon lifecycle engine for a focused-window indicator.
//!
//! The crate holds the decisions of the indicator: which label to print,
//! when the icon overlay is destroyed, reused or rebuilt, how a window's
//! icon property is decoded and composited, and how display names are
//! chosen. Talking to the window manager and to the windowing system is
//! left to the caller, which feeds observations in and carries effects out.

pub mod config;
pub mod engine;
pub mod events;
pub mod icon;
pub mod property;
pub mod render;
pub mod retry;
pub mod state;
pub mod text;
pub mod tree;
pub mod watcher;
pub mod wm;
