//! `uart`: settings, transmission and passthrough on the two UARTs.
use vstd::prelude::*;
use vstd::string::StringExecFns;
use crate::cli_config::CliConfig;
use crate::command::{join_words, joined_words, words, Command};
use crate::commands::serial_port::{
    baud_outcome, configure_step, parity_outcome, passthrough_banner, sent_text, set_baud,
    set_parity, set_stop_bits, stop_bits_outcome, SerialLine, SerialSettings, SerialStep,
    SerialStepView,
};
use crate::text::{concat, concat3, str_eq};

verus! {

/// The two UARTs: UART 1 is USART2, UART 2 is USART3. Holds the settings of each.
#[derive(Clone, Copy)]
pub struct UartCommand {
    pub uart1: SerialSettings,
    pub uart2: SerialSettings,
}

/// The UART that `1` or `2` names.
pub open spec fn uart_port(w: Seq<char>) -> Option<u8> {
    if w == "1"@ {
        Some(1)
    } else if w == "2"@ {
        Some(2)
    } else {
        None
    }
}

/// How messages name a UART: `UART1` or `UART2`.
pub open spec fn uart_label(port: u8) -> Seq<char> {
    "UART"@ + (if port == 1 {
        "1"@
    } else {
        "2"@
    })
}

/// The settings of a UART.
pub open spec fn settings_of(c: UartCommand, port: u8) -> SerialSettings {
    if port == 1 {
        c.uart1
    } else {
        c.uart2
    }
}

/// The command with new settings for a UART.
pub open spec fn with_settings(c: UartCommand, port: u8, s: SerialSettings) -> UartCommand {
    if port == 1 {
        UartCommand { uart1: s, ..c }
    } else {
        UartCommand { uart2: s, ..c }
    }
}

/// The line of a UART.
pub open spec fn uart_line(port: u8) -> SerialLine {
    if port == 1 {
        SerialLine::Uart1
    } else {
        SerialLine::Uart2
    }
}

/// Turns a settings outcome into a step and the command after it: accepted settings are
/// stored and handed to the UART's line; refused ones change nothing.
pub open spec fn settings_step(c: UartCommand, port: u8, r: (Seq<char>, Option<SerialSettings>)) -> (SerialStepView, UartCommand) {
    (configure_step(uart_line(port), r), match r.1 {
        Some(s2) => with_settings(c, port, s2),
        None => c,
    })
}

/// What `uart` does with its arguments, and the command's settings afterwards.
pub open spec fn uart_outcome(a: Seq<Seq<char>>, c: UartCommand, short: bool) -> (SerialStepView, UartCommand) {
    if a.len() == 0 {
        (SerialStepView::Reply(
            "Usage: uart <1|2> <stop_bit|parity|baud|write|passthrough> [args]\r\n"@
                + "Type 'help uart' for more information\r\n"@,
        ), c)
    } else {
        match uart_port(a[0]) {
            None => (SerialStepView::Reply("UART number must be 1 or 2"@ + "\r\n"@), c),
            Some(p) => if a.len() < 2 {
                (SerialStepView::Reply(
                    "Usage: uart "@ + a[0] + " <stop_bit|parity|baud|write|passthrough> [args]\r\n"@,
                ), c)
            } else if a[1] == "stop_bit"@ {
                if a.len() != 3 {
                    (SerialStepView::Reply("Usage: uart <1|2> stop_bit <1|2>\r\n"@), c)
                } else {
                    settings_step(c, p, stop_bits_outcome(uart_label(p), a[2], settings_of(c, p), short))
                }
            } else if a[1] == "parity"@ {
                if a.len() != 3 {
                    (SerialStepView::Reply(
                        "Usage: uart <1|2> parity <0|1|2>\r\n"@ + "  0 = None, 1 = Even, 2 = Odd\r\n"@,
                    ), c)
                } else {
                    settings_step(c, p, parity_outcome(uart_label(p), a[2], settings_of(c, p), short))
                }
            } else if a[1] == "baud"@ {
                if a.len() != 3 {
                    (SerialStepView::Reply(
                        "Usage: uart <1|2> baud <rate>\r\n"@
                            + "Common rates: 9600, 19200, 38400, 57600, 115200\r\n"@,
                    ), c)
                } else {
                    settings_step(c, p, baud_outcome(uart_label(p), a[2], settings_of(c, p), short))
                }
            } else if a[1] == "write"@ {
                if a.len() < 3 {
                    (SerialStepView::Reply("Usage: uart <1|2> write <text>\r\n"@), c)
                } else {
                    (SerialStepView::Transmit {
                        line: uart_line(p),
                        data: joined_words(a.skip(2)),
                        reply: sent_text(uart_label(p), short),
                    }, c)
                }
            } else if a[1] == "passthrough"@ {
                if a.len() != 2 {
                    (SerialStepView::Reply("Usage: uart <1|2> passthrough\r\n"@), c)
                } else {
                    (SerialStepView::Passthrough { line: uart_line(p), banner: passthrough_banner(uart_label(p)) }, c)
                }
            } else {
                (SerialStepView::Reply(
                    "Unknown subcommand: "@ + a[1] + "\r\n"@
                        + "Available: stop_bit, parity, baud, write, passthrough\r\n"@,
                ), c)
            },
        }
    }
}

impl UartCommand {
    /// Both UARTs at 9600 baud, no parity, one stop bit.
    pub fn new() -> (r: Self)
        ensures
            r.uart1 == r.uart2,
            r.uart1 == (SerialSettings {
                baud_rate: 9600,
                parity: crate::commands::serial_port::Parity::ParityNone,
                stop_bits: crate::commands::serial_port::StopBits::Stop1,
            }),
    {
        UartCommand { uart1: SerialSettings::default(), uart2: SerialSettings::default() }
    }

    /// Reads the UART number `1` or `2`.
    fn parse_uart_num(&self, arg: &str) -> (r: Result<u8, &'static str>)
        ensures
            match uart_port(arg@) {
                Some(p) => r == Ok::<u8, &'static str>(p),
                None => r matches Err(e) && e@ == "UART number must be 1 or 2"@,
            },
    {
        if str_eq(arg, "1") {
            Ok(1)
        } else if str_eq(arg, "2") {
            Ok(2)
        } else {
            Err("UART number must be 1 or 2")
        }
    }

    fn label(port: u8) -> (r: &'static str)
        ensures
            r@ == uart_label(port),
    {
        proof {
            reveal_strlit("UART1");
            reveal_strlit("UART2");
            reveal_strlit("UART");
            reveal_strlit("1");
            reveal_strlit("2");
        }
        if port == 1 {
            "UART1"
        } else {
            "UART2"
        }
    }

    /// The line of a UART.
    fn line(port: u8) -> (r: SerialLine)
        ensures
            r == uart_line(port),
    {
        if port == 1 {
            SerialLine::Uart1
        } else {
            SerialLine::Uart2
        }
    }

    /// Stores accepted settings for the UART and asks for them to be applied; a refused
    /// value only prints its message.
    fn apply(&mut self, port: u8, text: String, accepted: Option<SerialSettings>) -> (r: SerialStep)
        ensures
            (r@, *final(self)) == settings_step(*old(self), port, (text@, accepted)),
    {
        match accepted {
            Some(s2) => {
                if port == 1 {
                    self.uart1 = s2;
                } else {
                    self.uart2 = s2;
                }
                SerialStep::Configure { line: Self::line(port), settings: s2, reply: text }
            },
            None => SerialStep::Reply(text),
        }
    }

    /// What `uart` does with its arguments; settings subcommands change the stored settings.
    pub fn execute(&mut self, args: &[&str], config: &CliConfig) -> (r: SerialStep)
        ensures
            (r@, *final(self)) == uart_outcome(words(args), *old(self), config.short()),
    {
        let ghost a = words(args);
        let short = config.is_short_output();
        if args.len() == 0 {
            return SerialStep::Reply(
                concat(
                    "Usage: uart <1|2> <stop_bit|parity|baud|write|passthrough> [args]\r\n",
                    "Type 'help uart' for more information\r\n",
                ),
            );
        }
        assert(a[0] == args@[0]@);
        let port = match self.parse_uart_num(args[0]) {
            Ok(p) => p,
            Err(e) => {
                return SerialStep::Reply(concat(e, "\r\n"));
            },
        };
        if args.len() < 2 {
            let mut s = String::from_str("Usage: uart ");
            s.append(args[0]);
            s.append(" <stop_bit|parity|baud|write|passthrough> [args]\r\n");
            return SerialStep::Reply(s);
        }
        assert(a[1] == args@[1]@);
        let sub = args[1];
        let label = Self::label(port);
        if str_eq(sub, "stop_bit") {
            if args.len() != 3 {
                return SerialStep::Reply(String::from_str("Usage: uart <1|2> stop_bit <1|2>\r\n"));
            }
            assert(a[2] == args@[2]@);
            let (text, accepted) = if port == 1 {
                set_stop_bits(label, args[2], &self.uart1, short)
            } else {
                set_stop_bits(label, args[2], &self.uart2, short)
            };
            self.apply(port, text, accepted)
        } else if str_eq(sub, "parity") {
            if args.len() != 3 {
                return SerialStep::Reply(
                    concat("Usage: uart <1|2> parity <0|1|2>\r\n", "  0 = None, 1 = Even, 2 = Odd\r\n"),
                );
            }
            assert(a[2] == args@[2]@);
            let (text, accepted) = if port == 1 {
                set_parity(label, args[2], &self.uart1, short)
            } else {
                set_parity(label, args[2], &self.uart2, short)
            };
            self.apply(port, text, accepted)
        } else if str_eq(sub, "baud") {
            if args.len() != 3 {
                return SerialStep::Reply(
                    concat(
                        "Usage: uart <1|2> baud <rate>\r\n",
                        "Common rates: 9600, 19200, 38400, 57600, 115200\r\n",
                    ),
                );
            }
            assert(a[2] == args@[2]@);
            let (text, accepted) = if port == 1 {
                set_baud(label, args[2], &self.uart1, short)
            } else {
                set_baud(label, args[2], &self.uart2, short)
            };
            self.apply(port, text, accepted)
        } else if str_eq(sub, "write") {
            if args.len() < 3 {
                return SerialStep::Reply(String::from_str("Usage: uart <1|2> write <text>\r\n"));
            }
            let rest = &args[2..args.len()];
            assert(words(rest) =~= a.skip(2));
            let data = join_words(rest);
            let reply = if short {
                String::from_str("OK\r\n")
            } else {
                concat3("Sent to ", label, "\r\n")
            };
            SerialStep::Transmit { line: Self::line(port), data, reply }
        } else if str_eq(sub, "passthrough") {
            if args.len() != 2 {
                return SerialStep::Reply(String::from_str("Usage: uart <1|2> passthrough\r\n"));
            }
            SerialStep::Passthrough {
                line: Self::line(port),
                banner: concat(label, " passthrough mode. Press ESC to exit\r\n"),
            }
        } else {
            let mut s = String::from_str("Unknown subcommand: ");
            s.append(sub);
            s.append("\r\n");
            s.append("Available: stop_bit, parity, baud, write, passthrough\r\n");
            SerialStep::Reply(s)
        }
    }
}

impl Command for UartCommand {
    open spec fn command_name(&self) -> Seq<char> {
        "uart"@
    }

    open spec fn help_spec(&self) -> Seq<char> {
        "uart <1|2> <subcommand> [args] - UART/Serial communication\r\n"@
            + "UART 1 = USART2, UART 2 = USART3\r\n"@ + "Subcommands:\r\n"@
            + "  stop_bit <1|2>    - Set stop bits (1 or 2)\r\n"@
            + "  parity <0|1|2>    - Set parity (0=none, 1=even, 2=odd)\r\n"@
            + "  baud <rate>       - Set baud rate (e.g., 9600, 115200)\r\n"@
            + "  write <text>      - Write string to UART TX\r\n"@
            + "  passthrough       - Enter passthrough mode (ESC to exit)\r\n"@ + "\r\nExamples:\r\n"@
            + "  uart 1 baud 115200\r\n"@ + "  uart 2 write Hello World\r\n"@
            + "  uart 1 passthrough\r\n"@
            + "\r\nNote: RS232, RS422, RS485 commands reserved for future use\r\n"@
    }

    fn name(&self) -> (r: &'static str) {
        "uart"
    }

    fn initialize(&mut self) -> (r: Result<(), &'static str>)
        ensures
            r is Ok,
            *final(self) == *old(self),
    {
        Ok(())
    }

    fn help_text(&self) -> (r: String) {
        let mut s = String::from_str("uart <1|2> <subcommand> [args] - UART/Serial communication\r\n");
        s.append("UART 1 = USART2, UART 2 = USART3\r\n");
        s.append("Subcommands:\r\n");
        s.append("  stop_bit <1|2>    - Set stop bits (1 or 2)\r\n");
        s.append("  parity <0|1|2>    - Set parity (0=none, 1=even, 2=odd)\r\n");
        s.append("  baud <rate>       - Set baud rate (e.g., 9600, 115200)\r\n");
        s.append("  write <text>      - Write string to UART TX\r\n");
        s.append("  passthrough       - Enter passthrough mode (ESC to exit)\r\n");
        s.append("\r\nExamples:\r\n");
        s.append("  uart 1 baud 115200\r\n");
        s.append("  uart 2 write Hello World\r\n");
        s.append("  uart 1 passthrough\r\n");
        s.append("\r\nNote: RS232, RS422, RS485 commands reserved for future use\r\n");
        s
    }
}

} // verus!
