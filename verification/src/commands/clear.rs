//! `clear`: clears the terminal.
use vstd::prelude::*;
use vstd::string::StringExecFns;
use crate::command::{words, Command};

verus! {

/// Clears the terminal screen and homes the cursor.
#[derive(Clone, Copy)]
pub struct ClearCommand;

/// What `clear` prints: the clear-screen and cursor-home sequences, and a note when given arguments.
pub open spec fn clear_text(a: Seq<Seq<char>>) -> Seq<char> {
    if a.len() == 0 {
        "\x1b[2J\x1b[H"@
    } else {
        "\x1b[2J\x1b[H"@ + "Screen cleared!\r\n"@
    }
}

impl ClearCommand {
    pub fn new() -> Self {
        ClearCommand
    }

    /// The text `clear` prints for these arguments.
    pub fn execute(&mut self, args: &[&str]) -> (r: String)
        ensures
            r@ == clear_text(words(args)),
    {
        let mut out = String::from_str("\x1b[2J\x1b[H");
        if args.len() > 0 {
            out.append("Screen cleared!\r\n");
        }
        out
    }
}

impl Command for ClearCommand {
    open spec fn command_name(&self) -> Seq<char> {
        "clear"@
    }

    open spec fn help_spec(&self) -> Seq<char> {
        "clear - Clear the terminal screen\r\n"@
    }

    fn name(&self) -> (r: &'static str) {
        "clear"
    }

    fn initialize(&mut self) -> (r: Result<(), &'static str>)
        ensures
            r is Ok,
    {
        Ok(())
    }

    fn help_text(&self) -> (r: String) {
        String::from_str("clear - Clear the terminal screen\r\n")
    }
}

} // verus!
