//! `gpio`: reads and drives the four general-purpose pins PD12-PD15.
use vstd::prelude::*;
use vstd::string::StringExecFns;
use crate::cli_config::CliConfig;
use crate::command::{arg_at, word_at, words, Command, Fault, PinMode, Request, Response, Step, StepView};
use crate::text::{concat, str_eq};

verus! {

/// Reads and drives the GPIO pins.
#[derive(Clone, Copy)]
pub struct GpioCommand;

/// The modes of the four GPIO pins. All start as inputs, and a pin cannot change mode
/// after start-up: asking for the other mode is refused.
pub struct GpioModes {
    modes: [PinMode; 4],
}

impl GpioModes {
    /// The mode of pin `i`.
    pub closed spec fn mode(&self, i: int) -> PinMode {
        self.modes[i]
    }

    /// All four pins as inputs, as they start.
    pub fn new() -> (r: Self)
        ensures
            forall|i: int| 0 <= i < 4 ==> r.mode(i) == PinMode::Input,
    {
        GpioModes { modes: [PinMode::Input, PinMode::Input, PinMode::Input, PinMode::Input] }
    }

    /// Whether pin `index` may be put in `mode`: yes when it is already in that mode.
    /// The table itself never changes.
    pub fn set_mode(&self, index: usize, mode: PinMode) -> (r: Result<(), Fault>)
        ensures
            index >= 4 ==> r == Err::<(), Fault>(Fault::InvalidIndex),
            index < 4 && self.mode(index as int) == mode ==> r == Ok::<(), Fault>(()),
            index < 4 && self.mode(index as int) != mode ==> r == Err::<(), Fault>(
                Fault::ModeChangeRequiresReinit,
            ),
    {
        if index >= 4 {
            return Err(Fault::InvalidIndex);
        }
        if self.modes[index] == mode {
            Ok(())
        } else {
            Err(Fault::ModeChangeRequiresReinit)
        }
    }

    /// Whether pin `index` may be driven: only when it is an output.
    pub fn check_drive(&self, index: usize) -> (r: Result<(), Fault>)
        ensures
            index >= 4 ==> r == Err::<(), Fault>(Fault::InvalidIndex),
            index < 4 && self.mode(index as int) == PinMode::Output ==> r == Ok::<(), Fault>(()),
            index < 4 && self.mode(index as int) != PinMode::Output ==> r == Err::<(), Fault>(
                Fault::ConfiguredAsInput,
            ),
    {
        if index >= 4 {
            return Err(Fault::InvalidIndex);
        }
        if self.modes[index] == PinMode::Output {
            Ok(())
        } else {
            Err(Fault::ConfiguredAsInput)
        }
    }
}

/// The zero-based pin that `12`-`15` names.
pub open spec fn gpio_index(w: Seq<char>) -> Option<usize> {
    if w == "12"@ {
        Some(0)
    } else if w == "13"@ {
        Some(1)
    } else if w == "14"@ {
        Some(2)
    } else if w == "15"@ {
        Some(3)
    } else {
        None
    }
}

/// `input` and `output`.
pub open spec fn gpio_mode_word(w: Seq<char>) -> Option<PinMode> {
    if w == "input"@ {
        Some(PinMode::Input)
    } else if w == "output"@ {
        Some(PinMode::Output)
    } else {
        None
    }
}

/// `high` and `low`.
pub open spec fn gpio_level_word(w: Seq<char>) -> Option<bool> {
    if w == "high"@ {
        Some(true)
    } else if w == "low"@ {
        Some(false)
    } else {
        None
    }
}

/// What `gpio` prints when given no arguments.
pub open spec fn gpio_usage_text() -> Seq<char> {
    "Usage: gpio <pin> <command> [parameters]\r\n"@ + "Commands:\r\n"@
        + "  mode <input|output> - Set pin mode\r\n"@
        + "  set <high|low>      - Set pin state (output mode only)\r\n"@
        + "  read                 - Read pin state\r\n"@
}

/// What `gpio` does with its arguments: `<pin> mode <input|output>`, `<pin> set <high|low>` or `<pin> read`.
pub open spec fn gpio_step(a: Seq<Seq<char>>) -> StepView {
    if a.len() == 0 {
        StepView::Reply(gpio_usage_text())
    } else {
        match gpio_index(a[0]) {
            None => StepView::Reply("Pin number must be 12, 13, 14, or 15"@ + "\r\n"@),
            Some(i) => if a.len() < 2 {
                StepView::Reply("Missing command. Use: gpio <pin> <mode|set|read>\r\n"@)
            } else if a[1] == "mode"@ {
                if a.len() != 3 {
                    StepView::Reply("Usage: gpio <pin> mode <input|output>\r\n"@)
                } else {
                    match gpio_mode_word(a[2]) {
                        None => StepView::Reply("Mode must be 'input' or 'output'"@ + "\r\n"@),
                        Some(m) => StepView::Perform(Request::SetGpioMode { index: i, mode: m }),
                    }
                }
            } else if a[1] == "set"@ {
                if a.len() != 3 {
                    StepView::Reply("Usage: gpio <pin> set <high|low>\r\n"@)
                } else {
                    match gpio_level_word(a[2]) {
                        None => StepView::Reply("State must be 'high' or 'low'"@ + "\r\n"@),
                        Some(h) => StepView::Perform(Request::SetGpioLevel { index: i, high: h }),
                    }
                }
            } else if a[1] == "read"@ {
                if a.len() != 2 {
                    StepView::Reply("Usage: gpio <pin> read\r\n"@)
                } else {
                    StepView::Perform(Request::ReadGpio { index: i })
                }
            } else {
                StepView::Reply("Unknown command. Use: mode, set, or read\r\n"@)
            },
        }
    }
}

/// The message for a fault of the hardware layer.
pub open spec fn gpio_fault_text(f: Fault) -> Seq<char> {
    match f {
        Fault::NotInitialized => "GPIO pins not initialized"@,
        Fault::InvalidIndex => "Invalid pin number"@,
        Fault::ModeChangeRequiresReinit => "Mode change requires reinitialization. Set mode during initialization."@,
        Fault::ConfiguredAsInput => "Cannot set: pin is configured as input"@,
    }
}

/// What `gpio` prints once the hardware has answered.
pub open spec fn gpio_report(a: Seq<Seq<char>>, req: Request, resp: Response, short: bool) -> Seq<char> {
    match resp {
        Err(f) => gpio_fault_text(f) + "\r\n"@,
        Ok(level) => match req {
            Request::ReadGpio { .. } => if short {
                if level {
                    "1\r\n"@
                } else {
                    "0\r\n"@
                }
            } else {
                "Pin "@ + word_at(a, 0) + " is "@ + (if level {
                    "HIGH\r\n"@
                } else {
                    "LOW\r\n"@
                })
            },
            Request::SetGpioMode { .. } => if short {
                "OK\r\n"@
            } else {
                "Pin "@ + word_at(a, 0) + " mode set to "@ + word_at(a, 2) + "\r\n"@
            },
            _ => if short {
                "OK\r\n"@
            } else {
                "Pin "@ + word_at(a, 0) + " set to "@ + word_at(a, 2) + "\r\n"@
            },
        },
    }
}

fn gpio_fault(f: Fault) -> (r: &'static str)
    ensures
        r@ == gpio_fault_text(f),
{
    match f {
        Fault::NotInitialized => "GPIO pins not initialized",
        Fault::InvalidIndex => "Invalid pin number",
        Fault::ModeChangeRequiresReinit => "Mode change requires reinitialization. Set mode during initialization.",
        Fault::ConfiguredAsInput => "Cannot set: pin is configured as input",
    }
}

impl GpioCommand {
    pub fn new() -> Self {
        GpioCommand
    }

    /// Reads the pin number `12`-`15` as a zero-based index.
    fn parse_pin_number(&self, arg: &str) -> (r: Result<usize, &'static str>)
        ensures
            match gpio_index(arg@) {
                Some(i) => r == Ok::<usize, &'static str>(i),
                None => r matches Err(e) && e@ == "Pin number must be 12, 13, 14, or 15"@,
            },
    {
        if str_eq(arg, "12") {
            Ok(0)
        } else if str_eq(arg, "13") {
            Ok(1)
        } else if str_eq(arg, "14") {
            Ok(2)
        } else if str_eq(arg, "15") {
            Ok(3)
        } else {
            Err("Pin number must be 12, 13, 14, or 15")
        }
    }

    /// Reads `input` or `output`.
    fn parse_mode(&self, arg: &str) -> (r: Result<PinMode, &'static str>)
        ensures
            match gpio_mode_word(arg@) {
                Some(m) => r == Ok::<PinMode, &'static str>(m),
                None => r matches Err(e) && e@ == "Mode must be 'input' or 'output'"@,
            },
    {
        if str_eq(arg, "input") {
            Ok(PinMode::Input)
        } else if str_eq(arg, "output") {
            Ok(PinMode::Output)
        } else {
            Err("Mode must be 'input' or 'output'")
        }
    }

    /// Reads `high` or `low`.
    fn parse_state(&self, arg: &str) -> (r: Result<bool, &'static str>)
        ensures
            match gpio_level_word(arg@) {
                Some(b) => r == Ok::<bool, &'static str>(b),
                None => r matches Err(e) && e@ == "State must be 'high' or 'low'"@,
            },
    {
        if str_eq(arg, "high") {
            Ok(true)
        } else if str_eq(arg, "low") {
            Ok(false)
        } else {
            Err("State must be 'high' or 'low'")
        }
    }

    /// What the command does with its arguments: a usage or parse message, or a pin request.
    pub fn execute(&mut self, args: &[&str]) -> (s: Step)
        ensures
            s@ == gpio_step(words(args)),
    {
        let ghost a = words(args);
        if args.len() == 0 {
            let mut s = String::from_str("Usage: gpio <pin> <command> [parameters]\r\n");
            s.append("Commands:\r\n");
            s.append("  mode <input|output> - Set pin mode\r\n");
            s.append("  set <high|low>      - Set pin state (output mode only)\r\n");
            s.append("  read                 - Read pin state\r\n");
            return Step::Reply(s);
        }
        assert(a[0] == args@[0]@);
        let index = match self.parse_pin_number(args[0]) {
            Ok(i) => i,
            Err(e) => {
                return Step::Reply(concat(e, "\r\n"));
            },
        };
        if args.len() < 2 {
            return Step::Reply(
                String::from_str("Missing command. Use: gpio <pin> <mode|set|read>\r\n"),
            );
        }
        assert(a[1] == args@[1]@);
        let sub = args[1];
        if str_eq(sub, "mode") {
            if args.len() != 3 {
                return Step::Reply(String::from_str("Usage: gpio <pin> mode <input|output>\r\n"));
            }
            assert(a[2] == args@[2]@);
            match self.parse_mode(args[2]) {
                Ok(mode) => Step::Perform(Request::SetGpioMode { index, mode }),
                Err(e) => Step::Reply(concat(e, "\r\n")),
            }
        } else if str_eq(sub, "set") {
            if args.len() != 3 {
                return Step::Reply(String::from_str("Usage: gpio <pin> set <high|low>\r\n"));
            }
            assert(a[2] == args@[2]@);
            match self.parse_state(args[2]) {
                Ok(high) => Step::Perform(Request::SetGpioLevel { index, high }),
                Err(e) => Step::Reply(concat(e, "\r\n")),
            }
        } else if str_eq(sub, "read") {
            if args.len() != 2 {
                return Step::Reply(String::from_str("Usage: gpio <pin> read\r\n"));
            }
            Step::Perform(Request::ReadGpio { index })
        } else {
            Step::Reply(String::from_str("Unknown command. Use: mode, set, or read\r\n"))
        }
    }

    /// What the command prints once the hardware has answered its request.
    pub fn finish(&mut self, args: &[&str], request: Request, response: Response, config: &CliConfig) -> (r: String)
        ensures
            r@ == gpio_report(words(args), request, response, config.short()),
    {
        let short = config.is_short_output();
        match response {
            Err(f) => concat(gpio_fault(f), "\r\n"),
            Ok(level) => match request {
                Request::ReadGpio { .. } => {
                    if short {
                        if level {
                            String::from_str("1\r\n")
                        } else {
                            String::from_str("0\r\n")
                        }
                    } else {
                        let mut s = String::from_str("Pin ");
                        s.append(arg_at(args, 0));
                        s.append(" is ");
                        if level {
                            s.append("HIGH\r\n");
                        } else {
                            s.append("LOW\r\n");
                        }
                        s
                    }
                },
                Request::SetGpioMode { .. } => {
                    if short {
                        String::from_str("OK\r\n")
                    } else {
                        let mut s = String::from_str("Pin ");
                        s.append(arg_at(args, 0));
                        s.append(" mode set to ");
                        s.append(arg_at(args, 2));
                        s.append("\r\n");
                        s
                    }
                },
                _ => {
                    if short {
                        String::from_str("OK\r\n")
                    } else {
                        let mut s = String::from_str("Pin ");
                        s.append(arg_at(args, 0));
                        s.append(" set to ");
                        s.append(arg_at(args, 2));
                        s.append("\r\n");
                        s
                    }
                },
            },
        }
    }
}

impl Command for GpioCommand {
    open spec fn command_name(&self) -> Seq<char> {
        "gpio"@
    }

    open spec fn help_spec(&self) -> Seq<char> {
        "gpio <12-15> mode <input|output> - Set pin mode (NOTE: mode changes require reinit)\r\n"@
            + "gpio <12-15> set <high|low>       - Set pin state (output mode only)\r\n"@
            + "gpio <12-15> read                 - Read pin state (works for both modes)\r\n"@
            + "Controls GPIO pins PD12-PD15\r\n"@
    }

    fn name(&self) -> (r: &'static str) {
        "gpio"
    }

    fn initialize(&mut self) -> (r: Result<(), &'static str>)
        ensures
            r is Ok,
    {
        Ok(())
    }

    fn help_text(&self) -> (r: String) {
        let mut s = String::from_str(
            "gpio <12-15> mode <input|output> - Set pin mode (NOTE: mode changes require reinit)\r\n",
        );
        s.append("gpio <12-15> set <high|low>       - Set pin state (output mode only)\r\n");
        s.append("gpio <12-15> read                 - Read pin state (works for both modes)\r\n");
        s.append("Controls GPIO pins PD12-PD15\r\n");
        s
    }
}

} // verus!
