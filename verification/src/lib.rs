//! The decisions of a terminal chat client: what its command line asks for, how it starts,
//! and what its event loop does next. Nothing here reads or writes; the program around this
//! library performs each action it is handed and reports what came of it.

pub mod cli;
pub mod config;
pub mod event_loop;
pub mod frame;
pub mod freetier;
pub mod help;
pub mod input;
pub mod launch;
pub mod laws;
pub mod session;
pub mod terminal;
pub mod views;
pub mod workspace;
