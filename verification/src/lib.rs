//! A modal ("vim-style") keyboard engine. It reads every key event of the
//! system, interprets a subset as modal editing commands, and answers each
//! event by "pass", "suppress" or "suppress and emit these synthetic keys",
//! so that the focused application sees the effect of the command without
//! knowing of the engine.
//!
//! The engine, leaf first: key classification types (`keycode`); the
//! synthesis of output keys (`inject`) and the command catalog built on it
//! (`commands`); the state machine (`state`) with its mathematical model and
//! the laws proved of it; the decisions of the capture side (`capture`), the
//! adapter in front of the state machine (`handler`) and the delivery of
//! actions (`delivery`); mode directives from outside the keyboard (`ipc`).
//!
//! Around the engine, what its surroundings compute from plain values: the
//! settings (`settings`); the editor popup (`popup`) with its terminals
//! (`terminal`, `spawn`), the scripts that place their windows
//! (`applescript`), the editor's process (`process`), the check of the
//! configured paths (`validate`) and the scripting of browsers (`browser`);
//! and the text helpers that these share (`scan`, `text`).
//!
//! But for the channel on which changes of mode are announced (`notify`),
//! nothing here touches the system: the caller observes and posts events,
//! runs programs and reads files, and hands plain values in and out.

pub mod applescript;
pub mod browser;
pub mod capture;
pub mod commands;
pub mod delivery;
pub mod handler;
pub mod inject;
pub mod ipc;
pub mod keycode;
pub mod modes;
pub mod notify;
pub mod popup;
pub mod process;
pub mod scan;
pub mod settings;
pub mod spawn;
pub mod state;
pub mod terminal;
pub mod text;
pub mod validate;
