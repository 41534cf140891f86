//! Always-on-top control for windows of a KDE Plasma session.
//!
//! The library classifies the desktop session from the environment, finds a window by its
//! title in a listing of the open windows, and decides which external command sets or clears
//! the window's "always above" hint. It reads no environment and runs no command itself: its
//! caller hands in the one and performs the other.

#![allow(unused_imports)]

pub mod command;
pub mod listing;
pub mod session;
pub mod text;
pub mod toggle;
