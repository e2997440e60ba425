//! Decision core of a small desktop shell application.
//!
//! The application exposes a handful of commands to its front end (an
//! arithmetic calculator, statistics over a list of numbers, a greeting) and
//! keeps a main window reachable from a system tray: closing the window hides
//! it instead of destroying it, and the tray menu can show, hide or quit.
//!
//! Everything the application *decides* lives here, on plain values: which
//! calculator operation a request names and which error it gets, minimum and
//! maximum selection over IEEE-754 bit patterns, the static menu and tray
//! trees, the dispatch from a menu identifier to an action, and the
//! window-visibility reconciliation state machine. The host-framework calls
//! that *perform* those decisions (windowing, tray, event loop, clock) stay
//! in the unverified shell around this crate.
pub mod calc;
pub mod commands;
pub mod fpbits;
pub mod menu;
pub mod stats;
pub mod window;
pub mod strutil;
