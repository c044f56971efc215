//! `echo`: prints its arguments back.
use vstd::prelude::*;
use vstd::string::StringExecFns;
use crate::cli_config::CliConfig;
use crate::command::{join_words, joined_words, words, Command};

verus! {

/// Prints its arguments back, separated by single spaces.
#[derive(Clone, Copy)]
pub struct EchoCommand;

/// What `echo` prints.
pub open spec fn echo_text(a: Seq<Seq<char>>, short: bool) -> Seq<char> {
    if a.len() == 0 {
        "No message provided. Type 'help echo' for more options.\r\n"@
    } else if short {
        joined_words(a) + "\r\n"@
    } else {
        "Echo output: "@ + joined_words(a) + "\r\n"@
    }
}

impl EchoCommand {
    pub fn new() -> Self {
        EchoCommand
    }

    /// The text `echo` prints for these arguments.
    pub fn execute(&mut self, args: &[&str], config: &CliConfig) -> (r: String)
        ensures
            r@ == echo_text(words(args), config.short()),
    {
        if args.len() == 0 {
            return String::from_str("No message provided. Type 'help echo' for more options.\r\n");
        }
        let mut out = if config.is_short_output() {
            String::new()
        } else {
            String::from_str("Echo output: ")
        };
        let text = join_words(args);
        out.append(text.as_str());
        out.append("\r\n");
        out
    }
}

impl Command for EchoCommand {
    open spec fn command_name(&self) -> Seq<char> {
        "echo"@
    }

    open spec fn help_spec(&self) -> Seq<char> {
        "echo <text>     - Echo back the provided text\r\n"@
    }

    fn name(&self) -> (r: &'static str) {
        "echo"
    }

    fn initialize(&mut self) -> (r: Result<(), &'static str>)
        ensures
            r is Ok,
    {
        Ok(())
    }

    fn help_text(&self) -> (r: String) {
        String::from_str("echo <text>     - Echo back the provided text\r\n")
    }
}

} // verus!
