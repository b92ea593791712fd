//! The control logic of a terminal debugger for the Lark virtual machine:
//! the command interpreter, the run-mode state machine, the output log and
//! the session state, each with its contract.

pub mod text;
pub mod number;
pub mod path;
pub mod cli;
pub mod dump;
pub mod command;
pub mod log;
pub mod input;
pub mod scroll;
pub mod session;
pub mod app;
pub mod interpret;
pub mod update;
pub mod machine;
pub mod laws;
pub mod view;
