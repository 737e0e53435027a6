//! A modal, vi-style text editor core: a line buffer, a cursor and viewport,
//! the Command/Insert state machine and the ex-command dispatcher.

pub mod buffer;
pub mod command;
pub mod editor;
pub mod handler;
pub mod io;
pub mod render;
pub mod settings;
pub mod text;
pub mod util;
