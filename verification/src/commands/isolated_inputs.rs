//! `isolated_input`: reads one of the three galvanically isolated inputs.
use vstd::prelude::*;
use vstd::string::StringExecFns;
use crate::cli_config::CliConfig;
use crate::command::{arg_at, word_at, words, Command, Fault, Request, Response, Step, StepView};
use crate::text::{concat, str_eq};

verus! {

/// Reads the isolated inputs.
#[derive(Clone, Copy)]
pub struct IsolatedInputCommand;

/// The zero-based input that `1`, `2` or `3` names.
pub open spec fn input_index(w: Seq<char>) -> Option<usize> {
    if w == "1"@ {
        Some(0)
    } else if w == "2"@ {
        Some(1)
    } else if w == "3"@ {
        Some(2)
    } else {
        None
    }
}

/// What `isolated_input` does with its arguments.
pub open spec fn isolated_step(a: Seq<Seq<char>>) -> StepView {
    if a.len() != 1 {
        StepView::Reply("Usage: isolated_input <1-3>\r\n"@)
    } else {
        match input_index(a[0]) {
            None => StepView::Reply("Input number must be 1, 2, or 3"@ + "\r\n"@),
            Some(i) => StepView::Perform(Request::ReadIsolatedInput { index: i }),
        }
    }
}

/// The message for a fault of the hardware layer.
pub open spec fn isolated_fault_text(f: Fault) -> Seq<char> {
    match f {
        Fault::NotInitialized => "Isolated input pins not initialized"@,
        Fault::InvalidIndex => "Invalid input number"@,
        Fault::ModeChangeRequiresReinit => "Mode change requires reinitialization. Set mode during initialization."@,
        Fault::ConfiguredAsInput => "Cannot set: pin is configured as input"@,
    }
}

/// What `isolated_input` prints once the input has been read.
pub open spec fn isolated_report(a: Seq<Seq<char>>, resp: Response, short: bool) -> Seq<char> {
    match resp {
        Ok(high) => if short {
            if high {
                "1\r\n"@
            } else {
                "0\r\n"@
            }
        } else {
            "Input "@ + word_at(a, 0) + " is "@ + (if high {
                "HIGH\r\n"@
            } else {
                "LOW\r\n"@
            })
        },
        Err(f) => isolated_fault_text(f) + "\r\n"@,
    }
}

fn isolated_fault(f: Fault) -> (r: &'static str)
    ensures
        r@ == isolated_fault_text(f),
{
    match f {
        Fault::NotInitialized => "Isolated input pins not initialized",
        Fault::InvalidIndex => "Invalid input number",
        Fault::ModeChangeRequiresReinit => "Mode change requires reinitialization. Set mode during initialization.",
        Fault::ConfiguredAsInput => "Cannot set: pin is configured as input",
    }
}

impl IsolatedInputCommand {
    pub fn new() -> Self {
        IsolatedInputCommand
    }

    /// Reads the input number `1`-`3` as a zero-based index.
    fn parse_input_number(&self, arg: &str) -> (r: Result<usize, &'static str>)
        ensures
            match input_index(arg@) {
                Some(i) => r == Ok::<usize, &'static str>(i),
                None => r matches Err(e) && e@ == "Input number must be 1, 2, or 3"@,
            },
    {
        if str_eq(arg, "1") {
            Ok(0)
        } else if str_eq(arg, "2") {
            Ok(1)
        } else if str_eq(arg, "3") {
            Ok(2)
        } else {
            Err("Input number must be 1, 2, or 3")
        }
    }

    /// What the command does with `<number>`: a usage or parse message, or the read request.
    pub fn execute(&mut self, args: &[&str]) -> (s: Step)
        ensures
            s@ == isolated_step(words(args)),
    {
        let ghost a = words(args);
        if args.len() != 1 {
            return Step::Reply(String::from_str("Usage: isolated_input <1-3>\r\n"));
        }
        assert(a[0] == args@[0]@);
        match self.parse_input_number(args[0]) {
            Ok(index) => Step::Perform(Request::ReadIsolatedInput { index }),
            Err(e) => Step::Reply(concat(e, "\r\n")),
        }
    }

    /// What the command prints once the hardware has read the input.
    pub fn finish(&mut self, args: &[&str], response: Response, config: &CliConfig) -> (r: String)
        ensures
            r@ == isolated_report(words(args), response, config.short()),
    {
        let ghost a = words(args);
        match response {
            Ok(high) => {
                if config.is_short_output() {
                    if high {
                        String::from_str("1\r\n")
                    } else {
                        String::from_str("0\r\n")
                    }
                } else {
                    let mut s = String::from_str("Input ");
                    s.append(arg_at(args, 0));
                    s.append(" is ");
                    if high {
                        s.append("HIGH\r\n");
                    } else {
                        s.append("LOW\r\n");
                    }
                    s
                }
            },
            Err(f) => concat(isolated_fault(f), "\r\n"),
        }
    }
}

impl Command for IsolatedInputCommand {
    open spec fn command_name(&self) -> Seq<char> {
        "isolated_input"@
    }

    open spec fn help_spec(&self) -> Seq<char> {
        "isolated_input <1-3> - Read isolated inputs on PE2-PE4 (returns HIGH/LOW)\r\n"@
    }

    fn name(&self) -> (r: &'static str) {
        "isolated_input"
    }

    fn initialize(&mut self) -> (r: Result<(), &'static str>)
        ensures
            r is Ok,
    {
        Ok(())
    }

    fn help_text(&self) -> (r: String) {
        String::from_str("isolated_input <1-3> - Read isolated inputs on PE2-PE4 (returns HIGH/LOW)\r\n")
    }
}

} // verus!
