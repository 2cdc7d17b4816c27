//! Decision core of a tray-resident desktop companion.
//!
//! The host owns the operating-system window, the tray icon, the menu items
//! and the launch-at-login provider. Everything the host observes is handed
//! to this library as plain values; the library answers with the next state
//! and the list of actions the host has to carry out, in order.

pub mod autostart;
pub mod controller;
pub mod debounce;
pub mod invariants;
pub mod menu;
pub mod tray;
pub mod visibility;
