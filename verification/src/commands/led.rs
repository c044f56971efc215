//! `led`: switches a numbered output on or off.
use vstd::prelude::*;
use vstd::string::StringExecFns;
use crate::cli_config::CliConfig;
use crate::command::{words, Command, Request, Response, Step};
use crate::commands::outputs::{
    bad_number_text, on_off, output_finish, output_index, output_report, parse_on_off, parse_output_number,
    output_step, requested_on, usage, OutputKind,
};
use crate::text::concat;

verus! {

/// Switches the four status LEDs.
#[derive(Clone, Copy)]
pub struct LedCommand;

impl LedCommand {
    pub fn new() -> Self {
        LedCommand
    }

    /// Reads the output number, `1` upwards, as a zero-based index.
    fn parse_led_number(&self, arg: &str) -> (r: Result<usize, &'static str>)
        ensures
            match output_index(OutputKind::Led, arg@) {
                Some(i) => r == Ok::<usize, &'static str>(i),
                None => r matches Err(e) && e@ == bad_number_text(OutputKind::Led),
            },
    {
        parse_output_number(OutputKind::Led, arg)
    }

    /// Reads `on` or `off`.
    fn parse_state(&self, arg: &str) -> (r: Result<bool, &'static str>)
        ensures
            match on_off(arg@) {
                Some(b) => r == Ok::<bool, &'static str>(b),
                None => r matches Err(e) && e@ == "State must be 'on' or 'off'"@,
            },
    {
        parse_on_off(arg)
    }

    /// What the command does with `<number> <on|off>`: a usage or parse message, or the switching request.
    pub fn execute(&mut self, args: &[&str]) -> (s: Step)
        ensures
            s@ == output_step(OutputKind::Led, words(args)),
    {
        let ghost a = words(args);
        if args.len() != 2 {
            return Step::Reply(String::from_str(usage(OutputKind::Led)));
        }
        assert(a[0] == args@[0]@ && a[1] == args@[1]@);
        let index = match self.parse_led_number(args[0]) {
            Ok(i) => i,
            Err(e) => {
                return Step::Reply(concat(e, "\r\n"));
            },
        };
        let on = match self.parse_state(args[1]) {
            Ok(b) => b,
            Err(e) => {
                return Step::Reply(concat(e, "\r\n"));
            },
        };
        Step::Perform(Request::SetLed { index, on })
    }

    /// What the command prints once the hardware has answered its request.
    pub fn finish(&mut self, args: &[&str], request: Request, response: Response, config: &CliConfig) -> (r: String)
        ensures
            r@ == output_report(OutputKind::Led, words(args), requested_on(request), response, config.short()),
    {
        let on = match request {
            Request::SetLed { on, .. } => on,
            Request::SetMosfet { on, .. } => on,
            Request::SetRelay { on, .. } => on,
            Request::SetGpioLevel { high, .. } => high,
            _ => false,
        };
        output_finish(OutputKind::Led, args, on, response, config.is_short_output())
    }
}

impl Command for LedCommand {
    open spec fn command_name(&self) -> Seq<char> {
        "led"@
    }

    open spec fn help_spec(&self) -> Seq<char> {
        "led <1-4> <on|off> - Control LEDs on PD4-PD7\r\n"@
    }

    fn name(&self) -> (r: &'static str) {
        "led"
    }

    fn initialize(&mut self) -> (r: Result<(), &'static str>)
        ensures
            r is Ok,
    {
        Ok(())
    }

    fn help_text(&self) -> (r: String) {
        String::from_str("led <1-4> <on|off> - Control LEDs on PD4-PD7\r\n")
    }
}

} // verus!
