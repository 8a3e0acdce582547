//! Decision logic of a confirm/cancel dialog with an auto-confirm countdown.
//!
//! The dialog's window, its timer and the launched process live outside this
//! crate. The controller here receives what happened (a click, a tick of the
//! timer) and answers with the actions to carry out.

pub mod action;
pub mod command;
pub mod controller;
pub mod notice;
pub mod session;
