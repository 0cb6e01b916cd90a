//! Coordination core of a status bar that hosts many independent blocks.
//!
//! A block talks to the bar through requests (show a widget, hide, show an
//! error, install default click actions) and hears from it through events
//! (a named action, a demand to refresh). This crate holds the rules of that
//! conversation as plain functions from values to values: which request a
//! primitive emits, how a finished block's error is attributed, and the retry
//! state machine that keeps a failing operation alive. Whoever drives the
//! channels and timers performs the actions these functions ask for.

pub mod api;
pub mod errors;
pub mod event;
pub mod kind;
pub mod recover;
pub mod request;
