//! What the LED, MOSFET and relay commands share: numbered outputs switched on and off.
use vstd::prelude::*;
use vstd::string::StringExecFns;
use crate::command::{arg_at, word_at, words, Fault, Request, Response, StepView};
use crate::text::{concat, str_eq};

verus! {

/// A bank of numbered on/off outputs.
#[derive(PartialEq, Eq, Structural, Clone, Copy, Debug)]
pub enum OutputKind {
    /// Four status LEDs.
    Led,
    /// Four MOSFET outputs.
    Mosfet,
    /// Two relays.
    Relay,
}

/// The number of outputs of a bank.
pub open spec fn output_count(k: OutputKind) -> nat {
    match k {
        OutputKind::Relay => 2,
        _ => 4,
    }
}

/// The usage line of a bank's command.
pub open spec fn usage_text(k: OutputKind) -> Seq<char> {
    match k {
        OutputKind::Led => "Usage: led <1-4> <on|off>\r\n"@,
        OutputKind::Mosfet => "Usage: mosfet <1-4> <on|off>\r\n"@,
        OutputKind::Relay => "Usage: relay <1-2> <on|off>\r\n"@,
    }
}

/// The message for an output number that names no output.
pub open spec fn bad_number_text(k: OutputKind) -> Seq<char> {
    match k {
        OutputKind::Led => "LED number must be 1, 2, 3, or 4"@,
        OutputKind::Mosfet => "MOSFET number must be 1, 2, 3, or 4"@,
        OutputKind::Relay => "Relay number must be 1 or 2"@,
    }
}

/// The word that starts a long confirmation.
pub open spec fn label_text(k: OutputKind) -> Seq<char> {
    match k {
        OutputKind::Led => "LED "@,
        OutputKind::Mosfet => "MOSFET "@,
        OutputKind::Relay => "Relay "@,
    }
}

/// The message for a fault of the hardware layer.
pub open spec fn output_fault_text(k: OutputKind, f: Fault) -> Seq<char> {
    match f {
        Fault::NotInitialized => match k {
            OutputKind::Led => "LED pins not initialized"@,
            OutputKind::Mosfet => "MOSFET pins not initialized"@,
            OutputKind::Relay => "Relay pins not initialized"@,
        },
        Fault::InvalidIndex => match k {
            OutputKind::Led => "Invalid LED number"@,
            OutputKind::Mosfet => "Invalid MOSFET number"@,
            OutputKind::Relay => "Invalid relay number"@,
        },
        Fault::ModeChangeRequiresReinit => "Mode change requires reinitialization. Set mode during initialization."@,
        Fault::ConfiguredAsInput => "Cannot set: pin is configured as input"@,
    }
}

/// The zero-based output that the word `1`, `2`, ... names, within the bank.
pub open spec fn output_index(k: OutputKind, w: Seq<char>) -> Option<usize> {
    if w == "1"@ {
        Some(0)
    } else if w == "2"@ {
        Some(1)
    } else if output_count(k) == 4 && w == "3"@ {
        Some(2)
    } else if output_count(k) == 4 && w == "4"@ {
        Some(3)
    } else {
        None
    }
}

/// `on` and `off`.
pub open spec fn on_off(w: Seq<char>) -> Option<bool> {
    if w == "on"@ {
        Some(true)
    } else if w == "off"@ {
        Some(false)
    } else {
        None
    }
}

/// The request that switches output `index` of a bank.
pub open spec fn switch_request(k: OutputKind, index: usize, on: bool) -> Request {
    match k {
        OutputKind::Led => Request::SetLed { index, on },
        OutputKind::Mosfet => Request::SetMosfet { index, on },
        OutputKind::Relay => Request::SetRelay { index, on },
    }
}

/// What a bank's command does with its arguments: `<number> <on|off>`.
pub open spec fn output_step(k: OutputKind, a: Seq<Seq<char>>) -> StepView {
    if a.len() != 2 {
        StepView::Reply(usage_text(k))
    } else {
        match output_index(k, a[0]) {
            None => StepView::Reply(bad_number_text(k) + "\r\n"@),
            Some(i) => match on_off(a[1]) {
                None => StepView::Reply("State must be 'on' or 'off'"@ + "\r\n"@),
                Some(on) => StepView::Perform(switch_request(k, i, on)),
            },
        }
    }
}

/// The level a switching request asks for.
pub open spec fn requested_on(r: Request) -> bool {
    match r {
        Request::SetLed { on, .. } => on,
        Request::SetMosfet { on, .. } => on,
        Request::SetRelay { on, .. } => on,
        Request::SetGpioLevel { high, .. } => high,
        _ => false,
    }
}

/// What a bank's command prints once the hardware has answered.
pub open spec fn output_report(k: OutputKind, a: Seq<Seq<char>>, on: bool, resp: Response, short: bool) -> Seq<char> {
    match resp {
        Ok(_) => if short {
            "OK\r\n"@
        } else {
            label_text(k) + word_at(a, 0) + (if on {
                " turned ON\r\n"@
            } else {
                " turned OFF\r\n"@
            })
        },
        Err(f) => output_fault_text(k, f) + "\r\n"@,
    }
}

pub fn usage(k: OutputKind) -> (r: &'static str)
    ensures
        r@ == usage_text(k),
{
    match k {
        OutputKind::Led => "Usage: led <1-4> <on|off>\r\n",
        OutputKind::Mosfet => "Usage: mosfet <1-4> <on|off>\r\n",
        OutputKind::Relay => "Usage: relay <1-2> <on|off>\r\n",
    }
}

pub fn bad_number(k: OutputKind) -> (r: &'static str)
    ensures
        r@ == bad_number_text(k),
{
    match k {
        OutputKind::Led => "LED number must be 1, 2, 3, or 4",
        OutputKind::Mosfet => "MOSFET number must be 1, 2, 3, or 4",
        OutputKind::Relay => "Relay number must be 1 or 2",
    }
}

fn label(k: OutputKind) -> (r: &'static str)
    ensures
        r@ == label_text(k),
{
    match k {
        OutputKind::Led => "LED ",
        OutputKind::Mosfet => "MOSFET ",
        OutputKind::Relay => "Relay ",
    }
}

pub fn output_fault(k: OutputKind, f: Fault) -> (r: &'static str)
    ensures
        r@ == output_fault_text(k, f),
{
    match f {
        Fault::NotInitialized => match k {
            OutputKind::Led => "LED pins not initialized",
            OutputKind::Mosfet => "MOSFET pins not initialized",
            OutputKind::Relay => "Relay pins not initialized",
        },
        Fault::InvalidIndex => match k {
            OutputKind::Led => "Invalid LED number",
            OutputKind::Mosfet => "Invalid MOSFET number",
            OutputKind::Relay => "Invalid relay number",
        },
        Fault::ModeChangeRequiresReinit => "Mode change requires reinitialization. Set mode during initialization.",
        Fault::ConfiguredAsInput => "Cannot set: pin is configured as input",
    }
}

/// Reads an output number of a bank.
pub fn parse_output_number(k: OutputKind, arg: &str) -> (r: Result<usize, &'static str>)
    ensures
        match output_index(k, arg@) {
            Some(i) => r == Ok::<usize, &'static str>(i),
            None => r matches Err(e) && e@ == bad_number_text(k),
        },
{
    if str_eq(arg, "1") {
        Ok(0)
    } else if str_eq(arg, "2") {
        Ok(1)
    } else if k != OutputKind::Relay && str_eq(arg, "3") {
        Ok(2)
    } else if k != OutputKind::Relay && str_eq(arg, "4") {
        Ok(3)
    } else {
        Err(bad_number(k))
    }
}

/// Reads `on` or `off`.
pub fn parse_on_off(arg: &str) -> (r: Result<bool, &'static str>)
    ensures
        match on_off(arg@) {
            Some(b) => r == Ok::<bool, &'static str>(b),
            None => r matches Err(e) && e@ == "State must be 'on' or 'off'"@,
        },
{
    if str_eq(arg, "on") {
        Ok(true)
    } else if str_eq(arg, "off") {
        Ok(false)
    } else {
        Err("State must be 'on' or 'off'")
    }
}

/// What a bank's command prints once the hardware has answered a switching request.
pub fn output_finish(k: OutputKind, args: &[&str], on: bool, resp: Response, short: bool) -> (r: String)
    ensures
        r@ == output_report(k, words(args), on, resp, short),
{
    let ghost a = words(args);
    match resp {
        Ok(_) => {
            if short {
                String::from_str("OK\r\n")
            } else {
                let mut s = String::from_str(label(k));
                s.append(arg_at(args, 0));
                if on {
                    s.append(" turned ON\r\n");
                } else {
                    s.append(" turned OFF\r\n");
                }
                s
            }
        },
        Err(f) => concat(output_fault(k, f), "\r\n"),
    }
}

} // verus!
