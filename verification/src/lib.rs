//! The decisions of a desktop shell for a local web harness.
//!
//! The shell attaches to a harness that already serves this machine, or spawns
//! one and follows it until it exits. Everything it decides on the way stands
//! in this crate, on plain values and with a contract; the program around it
//! reads files, opens sockets and windows, and does what it is told.

pub mod harness_url;
pub mod http;
pub mod launch;
pub mod lookup;
pub mod navigation;
pub mod page_url;
pub mod paths;
pub mod pet;
pub mod shell;
pub mod shutdown;
pub mod text;
pub mod workspace;
