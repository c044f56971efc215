//! `rs232`: settings, transmission and passthrough on the RS-232 line (USART3).
use vstd::prelude::*;
use vstd::string::StringExecFns;
use crate::cli_config::CliConfig;
use crate::command::{join_words, joined_words, words, Command};
use crate::commands::serial_port::{
    baud_outcome, parity_outcome, passthrough_banner, sent_text, set_baud,
    set_parity, set_stop_bits, stop_bits_outcome, configure_step, Parity, SerialLine, SerialSettings,
    SerialStep, SerialStepView,
    StopBits,
};
use crate::text::{concat, concat3, str_eq};

verus! {

/// The RS-232 line, with its stored settings.
#[derive(Clone, Copy)]
pub struct Rs232Command {
    pub config: SerialSettings,
}

/// The stored settings after a settings subcommand: the accepted ones, or those before.
pub open spec fn stored_after(s: SerialSettings, accepted: Option<SerialSettings>) -> SerialSettings {
    match accepted {
        Some(s2) => s2,
        None => s,
    }
}

/// What `rs232` does with its arguments, and the stored settings afterwards.
pub open spec fn rs232_outcome(a: Seq<Seq<char>>, s: SerialSettings, short: bool) -> (SerialStepView, SerialSettings) {
    if a.len() == 0 {
        (SerialStepView::Reply(
            "Usage: rs232 <stop_bit|parity|baud|write|passthrough> [args]\r\n"@
                + "Type 'help rs232' for more information\r\n"@,
        ), s)
    } else if a[0] == "stop_bit"@ {
        if a.len() != 2 {
            (SerialStepView::Reply("Usage: rs232 stop_bit <1|2>\r\n"@), s)
        } else {
            let r = stop_bits_outcome("RS232"@, a[1], s, short);
            (configure_step(SerialLine::Rs232, r), stored_after(s, r.1))
        }
    } else if a[0] == "parity"@ {
        if a.len() != 2 {
            (SerialStepView::Reply(
                "Usage: rs232 parity <0|1|2>\r\n"@ + "  0 = None, 1 = Even, 2 = Odd\r\n"@,
            ), s)
        } else {
            let r = parity_outcome("RS232"@, a[1], s, short);
            (configure_step(SerialLine::Rs232, r), stored_after(s, r.1))
        }
    } else if a[0] == "baud"@ {
        if a.len() != 2 {
            (SerialStepView::Reply(
                "Usage: rs232 baud <rate>\r\n"@ + "Common rates: 9600, 19200, 38400, 57600, 115200\r\n"@,
            ), s)
        } else {
            let r = baud_outcome("RS232"@, a[1], s, short);
            (configure_step(SerialLine::Rs232, r), stored_after(s, r.1))
        }
    } else if a[0] == "write"@ {
        if a.len() < 2 {
            (SerialStepView::Reply("Usage: rs232 write <text>\r\n"@), s)
        } else {
            (SerialStepView::Transmit {
                line: SerialLine::Rs232,
                data: joined_words(a.skip(1)),
                reply: sent_text("RS232"@, short),
            }, s)
        }
    } else if a[0] == "passthrough"@ {
        if a.len() != 1 {
            (SerialStepView::Reply("Usage: rs232 passthrough\r\n"@), s)
        } else {
            (SerialStepView::Passthrough { line: SerialLine::Rs232, banner: passthrough_banner("RS232"@) }, s)
        }
    } else {
        (SerialStepView::Reply(
            "Unknown subcommand: "@ + a[0] + "\r\n"@
                + "Available: stop_bit, parity, baud, write, passthrough\r\n"@,
        ), s)
    }
}

impl Rs232Command {
    /// The line at 9600 baud, no parity, one stop bit.
    pub fn new() -> (r: Self)
        ensures
            r.config == (SerialSettings {
                baud_rate: 9600,
                parity: Parity::ParityNone,
                stop_bits: StopBits::Stop1,
            }),
    {
        Rs232Command { config: SerialSettings::default() }
    }

    /// Stores accepted settings and asks for them to be applied to the line; a refused value
    /// only prints its message.
    fn apply(&mut self, text: String, accepted: Option<SerialSettings>) -> (r: SerialStep)
        ensures
            r@ == configure_step(SerialLine::Rs232, (text@, accepted)),
            final(self).config == stored_after(old(self).config, accepted),
    {
        match accepted {
            Some(s2) => {
                self.config = s2;
                SerialStep::Configure { line: SerialLine::Rs232, settings: s2, reply: text }
            },
            None => SerialStep::Reply(text),
        }
    }

    /// What `rs232` does with its arguments; settings subcommands change the stored settings.
    pub fn execute(&mut self, args: &[&str], cfg: &CliConfig) -> (r: SerialStep)
        ensures
            (r@, final(self).config) == rs232_outcome(words(args), old(self).config, cfg.short()),
    {
        let ghost a = words(args);
        let short = cfg.is_short_output();
        if args.len() == 0 {
            return SerialStep::Reply(
                concat(
                    "Usage: rs232 <stop_bit|parity|baud|write|passthrough> [args]\r\n",
                    "Type 'help rs232' for more information\r\n",
                ),
            );
        }
        assert(a[0] == args@[0]@);
        let sub = args[0];
        if str_eq(sub, "stop_bit") {
            if args.len() != 2 {
                return SerialStep::Reply(String::from_str("Usage: rs232 stop_bit <1|2>\r\n"));
            }
            assert(a[1] == args@[1]@);
            let (text, accepted) = set_stop_bits("RS232", args[1], &self.config, short);
            self.apply(text, accepted)
        } else if str_eq(sub, "parity") {
            if args.len() != 2 {
                return SerialStep::Reply(
                    concat("Usage: rs232 parity <0|1|2>\r\n", "  0 = None, 1 = Even, 2 = Odd\r\n"),
                );
            }
            assert(a[1] == args@[1]@);
            let (text, accepted) = set_parity("RS232", args[1], &self.config, short);
            self.apply(text, accepted)
        } else if str_eq(sub, "baud") {
            if args.len() != 2 {
                return SerialStep::Reply(
                    concat(
                        "Usage: rs232 baud <rate>\r\n",
                        "Common rates: 9600, 19200, 38400, 57600, 115200\r\n",
                    ),
                );
            }
            assert(a[1] == args@[1]@);
            let (text, accepted) = set_baud("RS232", args[1], &self.config, short);
            self.apply(text, accepted)
        } else if str_eq(sub, "write") {
            if args.len() < 2 {
                return SerialStep::Reply(String::from_str("Usage: rs232 write <text>\r\n"));
            }
            let rest = &args[1..args.len()];
            assert(words(rest) =~= a.skip(1));
            let data = join_words(rest);
            let reply = if short {
                String::from_str("OK\r\n")
            } else {
                concat3("Sent to ", "RS232", "\r\n")
            };
            SerialStep::Transmit { line: SerialLine::Rs232, data, reply }
        } else if str_eq(sub, "passthrough") {
            if args.len() != 1 {
                return SerialStep::Reply(String::from_str("Usage: rs232 passthrough\r\n"));
            }
            SerialStep::Passthrough {
                line: SerialLine::Rs232,
                banner: concat("RS232", " passthrough mode. Press ESC to exit\r\n"),
            }
        } else {
            let mut s = String::from_str("Unknown subcommand: ");
            s.append(sub);
            s.append("\r\n");
            s.append("Available: stop_bit, parity, baud, write, passthrough\r\n");
            SerialStep::Reply(s)
        }
    }
}

impl Command for Rs232Command {
    open spec fn command_name(&self) -> Seq<char> {
        "rs232"@
    }

    open spec fn help_spec(&self) -> Seq<char> {
        "rs232 <subcommand> [args] - RS232 serial communication\r\n"@ + "RS232 uses USART3\r\n"@
            + "Subcommands:\r\n"@ + "  stop_bit <1|2>    - Set stop bits (1 or 2)\r\n"@
            + "  parity <0|1|2>    - Set parity (0=none, 1=even, 2=odd)\r\n"@
            + "  baud <rate>       - Set baud rate (e.g., 9600, 115200)\r\n"@
            + "  write <text>      - Write string to RS232 TX\r\n"@
            + "  passthrough       - Enter passthrough mode (ESC to exit)\r\n"@ + "\r\nExamples:\r\n"@
            + "  rs232 baud 115200\r\n"@ + "  rs232 write Hello World\r\n"@
            + "  rs232 passthrough\r\n"@
    }

    fn name(&self) -> (r: &'static str) {
        "rs232"
    }

    fn initialize(&mut self) -> (r: Result<(), &'static str>)
        ensures
            r is Ok,
            *final(self) == *old(self),
    {
        Ok(())
    }

    fn help_text(&self) -> (r: String) {
        let mut s = String::from_str("rs232 <subcommand> [args] - RS232 serial communication\r\n");
        s.append("RS232 uses USART3\r\n");
        s.append("Subcommands:\r\n");
        s.append("  stop_bit <1|2>    - Set stop bits (1 or 2)\r\n");
        s.append("  parity <0|1|2>    - Set parity (0=none, 1=even, 2=odd)\r\n");
        s.append("  baud <rate>       - Set baud rate (e.g., 9600, 115200)\r\n");
        s.append("  write <text>      - Write string to RS232 TX\r\n");
        s.append("  passthrough       - Enter passthrough mode (ESC to exit)\r\n");
        s.append("\r\nExamples:\r\n");
        s.append("  rs232 baud 115200\r\n");
        s.append("  rs232 write Hello World\r\n");
        s.append("  rs232 passthrough\r\n");
        s
    }
}

} // verus!
