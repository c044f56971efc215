use vstd::prelude::*;

pub mod text;
pub mod cli_config;
pub mod command;
pub mod commands;
pub mod cli_loop;
pub mod serial_io;

verus! {

} // verus!
