//! Decision logic of a desktop shell: the remembered geometry of a window
//! that has a main and a mini layout, the tray menu that mirrors its pin
//! state, and the description of transient notification windows.
//!
//! Nothing here touches the host toolkit. Every entry point takes what the
//! host reported as plain values and returns the effects that the caller is
//! to perform, in order.
//!
//! - [`state`]: the record of the two remembered positions, and the
//!   transitions on it: a move, a switch of layout, a start.
//! - [`effect`]: the requests that the transitions hand to the caller.
//! - [`model`]: a model of a host that obeys those requests, and the laws
//!   that hold of every transition over it.
//! - [`tray`]: the tray menu and what the tray's events ask for.
//! - [`notification`]: the window, content address and label of a
//!   notification.
//! - [`commands`]: the remaining entry points and the global shortcut.
//! - [`text`]: decimal notation.

pub mod commands;
pub mod effect;
pub mod model;
pub mod notification;
pub mod state;
pub mod text;
pub mod tray;
