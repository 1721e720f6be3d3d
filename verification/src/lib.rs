//! Native shell logic for the Squri desktop/mobile application.
//!
//! The library holds everything the shell decides on its own: the
//! frontend-facing command surface (a greeting formatter and a constant
//! application-info record), the static application menu tree with its
//! unique-identifier invariant, and the dispatcher that translates a
//! menu-item activation into exactly one outward effect.
//!
//! Performing the effects (emitting events to a frontend, reloading a
//! window, exiting the process) is the surrounding application's job;
//! the library only decides which effect is due and models how each
//! effect changes the observable application state.

pub mod commands;
pub mod dispatch;
pub mod menu;
