//! What the UART and RS-232 commands share: line settings, transmitting text and passthrough.
use vstd::prelude::*;
use vstd::string::StringExecFns;
use crate::text::{concat, format_u32, parse_u32, parse_u32_spec, radix_text};

verus! {

/// Parity of a serial line.
#[derive(PartialEq, Eq, Structural, Clone, Copy, Debug)]
pub enum Parity {
    ParityNone,
    ParityEven,
    ParityOdd,
}

/// Stop bits of a serial line.
#[derive(PartialEq, Eq, Structural, Clone, Copy, Debug)]
pub enum StopBits {
    Stop1,
    Stop2,
}

/// The stored settings of a serial line.
#[derive(PartialEq, Eq, Structural, Clone, Copy, Debug)]
pub struct SerialSettings {
    pub baud_rate: u32,
    pub parity: Parity,
    pub stop_bits: StopBits,
}

impl SerialSettings {
    /// 9600 baud, no parity, one stop bit.
    pub fn default() -> (r: Self)
        ensures
            r == (SerialSettings { baud_rate: 9600, parity: Parity::ParityNone, stop_bits: StopBits::Stop1 }),
    {
        SerialSettings { baud_rate: 9600, parity: Parity::ParityNone, stop_bits: StopBits::Stop1 }
    }
}

/// A serial line of the board.
#[derive(PartialEq, Eq, Structural, Clone, Copy, Debug)]
pub enum SerialLine {
    /// UART 1.
    Uart1,
    /// UART 2.
    Uart2,
    /// The RS-232 line.
    Rs232,
}

/// What a serial command does with a command line.
pub enum SerialStep {
    /// Print this text.
    Reply(String),
    /// Put `line` to these settings, then print `reply`.
    Configure { line: SerialLine, settings: SerialSettings, reply: String },
    /// Send `data` on `line`, then print `reply`.
    Transmit { line: SerialLine, data: String, reply: String },
    /// Print `banner`, then pass bytes both ways between the terminal and `line` until the
    /// user presses escape.
    Passthrough { line: SerialLine, banner: String },
}

/// A serial step with its texts as characters.
pub enum SerialStepView {
    Reply(Seq<char>),
    Configure { line: SerialLine, settings: SerialSettings, reply: Seq<char> },
    Transmit { line: SerialLine, data: Seq<char>, reply: Seq<char> },
    Passthrough { line: SerialLine, banner: Seq<char> },
}

impl View for SerialStep {
    type V = SerialStepView;

    open spec fn view(&self) -> SerialStepView {
        match self {
            SerialStep::Reply(t) => SerialStepView::Reply(t@),
            SerialStep::Configure { line, settings, reply } => SerialStepView::Configure {
                line: *line,
                settings: *settings,
                reply: reply@,
            },
            SerialStep::Transmit { line, data, reply } => SerialStepView::Transmit {
                line: *line,
                data: data@,
                reply: reply@,
            },
            SerialStep::Passthrough { line, banner } => SerialStepView::Passthrough { line: *line, banner: banner@ },
        }
    }
}

/// The step for a settings subcommand: the new settings for the line when they were
/// accepted, else the message alone.
pub open spec fn configure_step(line: SerialLine, r: (Seq<char>, Option<SerialSettings>)) -> SerialStepView {
    match r.1 {
        Some(s2) => SerialStepView::Configure { line, settings: s2, reply: r.0 },
        None => SerialStepView::Reply(r.0),
    }
}

/// The `stop_bit <1|2>` setting: its text, and the new settings when the value is accepted.
pub open spec fn stop_bits_outcome(label: Seq<char>, w: Seq<char>, s: SerialSettings, short: bool) -> (Seq<char>, Option<SerialSettings>) {
    match parse_u32_spec(w) {
        None => ("Invalid integer value"@ + "\r\n"@, None),
        Some(v) => if v == 1 || v == 2 {
            let s2 = SerialSettings {
                stop_bits: if v == 1 {
                    StopBits::Stop1
                } else {
                    StopBits::Stop2
                },
                ..s
            };
            (if short {
                "OK\r\n"@
            } else {
                label + " stop bits set to "@ + (if v == 1 {
                    "1"@
                } else {
                    "2"@
                }) + "\r\n"@
            }, Some(s2))
        } else {
            ("Error: Stop bits must be 1 or 2\r\n"@, None)
        },
    }
}

/// The name of a parity value `0`, `1` or `2`.
pub open spec fn parity_name(v: u32) -> Seq<char> {
    if v == 0 {
        "none"@
    } else if v == 1 {
        "even"@
    } else {
        "odd"@
    }
}

/// The `parity <0|1|2>` setting: its text, and the new settings when the value is accepted.
pub open spec fn parity_outcome(label: Seq<char>, w: Seq<char>, s: SerialSettings, short: bool) -> (Seq<char>, Option<SerialSettings>) {
    match parse_u32_spec(w) {
        None => ("Invalid integer value"@ + "\r\n"@, None),
        Some(v) => if v <= 2 {
            let s2 = SerialSettings {
                parity: if v == 0 {
                    Parity::ParityNone
                } else if v == 1 {
                    Parity::ParityEven
                } else {
                    Parity::ParityOdd
                },
                ..s
            };
            (if short {
                "OK\r\n"@
            } else {
                label + " parity set to "@ + parity_name(v) + "\r\n"@
            }, Some(s2))
        } else {
            ("Error: Parity must be 0 (none), 1 (even), or 2 (odd)\r\n"@, None)
        },
    }
}


/// The word that names a parity in messages.
pub open spec fn parity_word(p: Parity) -> Seq<char> {
    match p {
        Parity::ParityNone => "none"@,
        Parity::ParityEven => "even"@,
        Parity::ParityOdd => "odd"@,
    }
}

/// `parity <v>`: the values 0, 1 and 2 store no parity, even parity and odd parity, in that
/// order, and leave the baud rate and stop bits alone; the long reply names the parity that
/// was stored; any larger value is refused and stores nothing.
pub proof fn law_parity_numbering(label: Seq<char>, w: Seq<char>, v: u32, s: SerialSettings, short: bool)
    requires
        parse_u32_spec(w) == Some(v),
    ensures
        v == 0 ==> parity_outcome(label, w, s, short).1 == Some(SerialSettings { parity: Parity::ParityNone, ..s }),
        v == 1 ==> parity_outcome(label, w, s, short).1 == Some(SerialSettings { parity: Parity::ParityEven, ..s }),
        v == 2 ==> parity_outcome(label, w, s, short).1 == Some(SerialSettings { parity: Parity::ParityOdd, ..s }),
        v > 2 ==> parity_outcome(label, w, s, short).1 is None,
        v <= 2 && !short ==> parity_outcome(label, w, s, short).0 == label + " parity set to "@
            + parity_word(parity_outcome(label, w, s, short).1.unwrap().parity) + "\r\n"@,
{
}

/// The `baud <rate>` setting: its text, and the new settings when the value is accepted. Any rate is stored.
pub open spec fn baud_outcome(label: Seq<char>, w: Seq<char>, s: SerialSettings, short: bool) -> (Seq<char>, Option<SerialSettings>) {
    match parse_u32_spec(w) {
        None => ("Invalid integer value"@ + "\r\n"@, None),
        Some(v) => {
            let s2 = SerialSettings { baud_rate: v, ..s };
            (if short {
                "OK\r\n"@
            } else {
                label + " baud rate set to "@ + radix_text(v as nat, 10) + "\r\n"@
            }, Some(s2))
        },
    }
}

/// The reply after sending text.
pub open spec fn sent_text(label: Seq<char>, short: bool) -> Seq<char> {
    if short {
        "OK\r\n"@
    } else {
        "Sent to "@ + label + "\r\n"@
    }
}

/// The banner of passthrough mode.
pub open spec fn passthrough_banner(label: Seq<char>) -> Seq<char> {
    label + " passthrough mode. Press ESC to exit\r\n"@
}

/// What a key typed in passthrough mode does.
pub enum PassKey {
    /// Send the byte on the line.
    Forward(u8),
    /// Leave passthrough mode, printing this text.
    Exit(String),
}

/// Escape (0x1B) leaves passthrough mode; any other byte is sent on the line.
pub fn passthrough_key(byte: u8) -> (r: PassKey)
    ensures
        byte == 0x1B ==> (r matches PassKey::Exit(t) && t@ == "\r\nExiting passthrough mode\r\n"@),
        byte != 0x1B ==> r == PassKey::Forward(byte),
{
    if byte == 0x1B {
        PassKey::Exit(String::from_str("\r\nExiting passthrough mode\r\n"))
    } else {
        PassKey::Forward(byte)
    }
}

/// Reads a decimal integer argument.
pub fn parse_int_arg(arg: &str) -> (r: Result<u32, &'static str>)
    ensures
        match parse_u32_spec(arg@) {
            Some(v) => r == Ok::<u32, &'static str>(v),
            None => r matches Err(e) && e@ == "Invalid integer value"@,
        },
{
    match parse_u32(arg) {
        Some(v) => Ok(v),
        None => Err("Invalid integer value"),
    }
}

/// Reads `stop_bit <value>`: the message, and the new settings when the value is accepted.
pub fn set_stop_bits(label: &str, value: &str, s: &SerialSettings, short: bool) -> (r: (String, Option<SerialSettings>))
    ensures
        (r.0@, r.1) == stop_bits_outcome(label@, value@, *s, short),
{
    let v = match parse_int_arg(value) {
        Ok(v) => v,
        Err(e) => {
            return (concat(e, "\r\n"), None);
        },
    };
    let stop_bits = if v == 1 {
        StopBits::Stop1
    } else if v == 2 {
        StopBits::Stop2
    } else {
        return (String::from_str("Error: Stop bits must be 1 or 2\r\n"), None);
    };
    let s2 = SerialSettings { stop_bits, ..*s };
    let text = if short {
        String::from_str("OK\r\n")
    } else {
        let mut out = String::from_str(label);
        out.append(" stop bits set to ");
        out.append(if v == 1 {
            "1"
        } else {
            "2"
        });
        out.append("\r\n");
        out
    };
    (text, Some(s2))
}

/// Reads `parity <value>`: the message, and the new settings when the value is accepted.
pub fn set_parity(label: &str, value: &str, s: &SerialSettings, short: bool) -> (r: (String, Option<SerialSettings>))
    ensures
        (r.0@, r.1) == parity_outcome(label@, value@, *s, short),
{
    let v = match parse_int_arg(value) {
        Ok(v) => v,
        Err(e) => {
            return (concat(e, "\r\n"), None);
        },
    };
    let parity = if v == 0 {
        Parity::ParityNone
    } else if v == 1 {
        Parity::ParityEven
    } else if v == 2 {
        Parity::ParityOdd
    } else {
        return (String::from_str("Error: Parity must be 0 (none), 1 (even), or 2 (odd)\r\n"), None);
    };
    let s2 = SerialSettings { parity, ..*s };
    let text = if short {
        String::from_str("OK\r\n")
    } else {
        let name = if v == 0 {
            "none"
        } else if v == 1 {
            "even"
        } else {
            "odd"
        };
        let mut out = String::from_str(label);
        out.append(" parity set to ");
        out.append(name);
        out.append("\r\n");
        out
    };
    (text, Some(s2))
}

/// Reads `baud <value>`: the message, and the new settings when the rate parses.
pub fn set_baud(label: &str, value: &str, s: &SerialSettings, short: bool) -> (r: (String, Option<SerialSettings>))
    ensures
        (r.0@, r.1) == baud_outcome(label@, value@, *s, short),
{
    let v = match parse_int_arg(value) {
        Ok(v) => v,
        Err(e) => {
            return (concat(e, "\r\n"), None);
        },
    };
    let s2 = SerialSettings { baud_rate: v, ..*s };
    let text = if short {
        String::from_str("OK\r\n")
    } else {
        let mut out = String::from_str(label);
        out.append(" baud rate set to ");
        let digits = format_u32(v);
        out.append(digits.as_str());
        out.append("\r\n");
        out
    };
    (text, Some(s2))
}

} // verus!
