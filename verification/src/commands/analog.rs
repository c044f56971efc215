//! `analog`: the two ADC inputs (PA0, PA1) and the DAC output (PA4).
use vstd::prelude::*;
use vstd::string::StringExecFns;
use crate::cli_config::CliConfig;
use crate::command::{words, Command};
use crate::text::{concat, concat3, format_u16, format_u32, parse_u16, parse_u16_spec, radix_text, str_eq};

verus! {

/// The resistor to ground of an ADC input's divider; the top resistor is always 10k.
#[derive(PartialEq, Eq, Structural, Clone, Copy, Debug)]
pub enum AdcAmp {
    R1_5K,
    R3_3K,
    R10K,
}

/// The feedback resistor of the DAC output amplifier.
#[derive(PartialEq, Eq, Structural, Clone, Copy, Debug)]
pub enum DacAmp {
    R30K,
    R15K,
    R0,
}

/// The analog inputs and output, with their settings: how readings are printed
/// (0 raw, 1 millivolts) and the divider of each input.
#[derive(Clone, Copy)]
pub struct AnalogCommand {
    pub format: u8,
    pub adc1_amp: AdcAmp,
    pub adc2_amp: AdcAmp,
    pub dac_amp: DacAmp,
}

/// Millivolts at the input for a raw 12-bit reading: the ADC voltage `raw * 3300 / 4095`
/// (integer division) times the divider ratio (10k + R) / R, again by integer division.
pub open spec fn adc_mv(raw: u16, amp: AdcAmp) -> u32 {
    let adc = (raw as int * 3300) / 4095;
    (match amp {
        AdcAmp::R1_5K => (adc * 115) / 15,
        AdcAmp::R3_3K => (adc * 133) / 33,
        AdcAmp::R10K => adc * 2,
    }) as u32
}


/// The bottom resistor of an input divider in ohms, as its name says (1.5k, 3.3k, 10k).
pub open spec fn divider_bottom_ohms(amp: AdcAmp) -> int {
    match amp {
        AdcAmp::R1_5K => 1500,
        AdcAmp::R3_3K => 3300,
        AdcAmp::R10K => 10000,
    }
}

proof fn lemma_scaled_division(x: int, a: int, b: int, k: int)
    by (nonlinear_arith)
    requires
        x >= 0,
        a >= 0,
        b > 0,
        k > 0,
    ensures
        (x * (a * k)) / (b * k) == (x * a) / b,
{
    let q = (x * a) / b;
    let r = (x * a) % b;
    assert(x * a == b * q + r);
    assert(x * (a * k) == (b * k) * q + r * k);
    assert(0 <= r * k < b * k);
}

/// An input reading in millivolts is the voltage at the ADC pin, `raw * 3300 / 4095` mV for the
/// 12-bit converter on 3.3 V, scaled up by the divider ratio (10k + R) / R of the selected
/// bottom resistor R (each step rounding down). So the 10k divider doubles, 3.3k multiplies by
/// 133/33 and 1.5k by 115/15, and a full-scale reading is 3300 mV times that ratio.
pub proof fn law_adc_millivolts_follow_the_divider(raw: u16, amp: AdcAmp)
    requires
        raw <= 4095,
    ensures
        adc_mv(raw, amp) as int == ((raw as int * 3300) / 4095) * (10000 + divider_bottom_ohms(amp))
            / divider_bottom_ohms(amp),
        adc_amp_word("1.5k"@) == Some(AdcAmp::R1_5K),
        adc_amp_word("3.3k"@) == Some(AdcAmp::R3_3K),
        adc_amp_word("10k"@) == Some(AdcAmp::R10K),
{
    let adc = (raw as int * 3300) / 4095;
    assert(0 <= adc <= 3300) by (nonlinear_arith)
        requires
            adc == (raw as int * 3300) / 4095,
            0 <= raw <= 4095,
    ;
    match amp {
        AdcAmp::R1_5K => {
            lemma_scaled_division(adc, 115, 15, 100);
            assert(adc * 115 / 15 <= 3300 * 115) by (nonlinear_arith)
                requires
                    0 <= adc <= 3300,
            ;
        },
        AdcAmp::R3_3K => {
            lemma_scaled_division(adc, 133, 33, 100);
            assert(adc * 133 / 33 <= 3300 * 133) by (nonlinear_arith)
                requires
                    0 <= adc <= 3300,
            ;
        },
        AdcAmp::R10K => {
            assert(adc * 20000 / 10000 == adc * 2) by (nonlinear_arith)
                requires
                    adc >= 0,
            ;
        },
    }
    reveal_strlit("1.5k");
    reveal_strlit("1500");
    reveal_strlit("3.3k");
    reveal_strlit("3300");
    reveal_strlit("10k");
    assert("3.3k"@ != "1.5k"@ && "3.3k"@ != "1500"@) by {
        assert("3.3k"@[0] != "1.5k"@[0]);
        assert("3.3k"@.len() != "1500"@.len() || "3.3k"@[1] != "1500"@[1]);
    }
    assert("10k"@ != "1.5k"@ && "10k"@ != "1500"@ && "10k"@ != "3.3k"@ && "10k"@ != "3300"@) by {
        assert("10k"@.len() == 3);
    }
}

/// The millivolts the DAC itself must put out for `mv` after the amplifier's gain.
pub open spec fn dac_input_mv(mv: u32, amp: DacAmp) -> int {
    match amp {
        DacAmp::R30K => (mv * 10) / 40,
        DacAmp::R15K => (mv * 10) / 25,
        DacAmp::R0 => mv as int,
    }
}

/// No product in the conversion from millivolts to a DAC value leaves `u32`.
pub open spec fn dac_conversion_fits(mv: u32, amp: DacAmp) -> bool {
    &&& (amp != DacAmp::R0 ==> mv * 10 <= u32::MAX)
    &&& dac_input_mv(mv, amp) * 4095 <= u32::MAX
}

/// The 12-bit DAC value for an output of `mv` millivolts, at most 4095.
pub open spec fn dac_value(mv: u32, amp: DacAmp) -> u16 {
    let raw = (dac_input_mv(mv, amp) * 4095) / 3300;
    if raw > 4095 {
        4095
    } else {
        raw as u16
    }
}

/// What an analog command line asks of the hardware.
pub enum AnalogStep {
    /// Print this text.
    Reply(String),
    /// Read ADC channel 1 or 2 once, then print the report.
    Read { channel: u8 },
    /// Print `banner`, then read the channel over and over until escape is pressed.
    Continuous { channel: u8, banner: String },
    /// Set the DAC to `value`, then print `reply`.
    Output { value: u16, reply: String },
}

/// An analog step with its texts as characters.
pub enum AnalogStepView {
    Reply(Seq<char>),
    Read { channel: u8 },
    Continuous { channel: u8, banner: Seq<char> },
    Output { value: u16, reply: Seq<char> },
}

impl View for AnalogStep {
    type V = AnalogStepView;

    open spec fn view(&self) -> AnalogStepView {
        match self {
            AnalogStep::Reply(t) => AnalogStepView::Reply(t@),
            AnalogStep::Read { channel } => AnalogStepView::Read { channel: *channel },
            AnalogStep::Continuous { channel, banner } => AnalogStepView::Continuous {
                channel: *channel,
                banner: banner@,
            },
            AnalogStep::Output { value, reply } => AnalogStepView::Output { value: *value, reply: reply@ },
        }
    }
}

/// The channel that `1` or `2` names.
pub open spec fn analog_channel(w: Seq<char>) -> Option<u8> {
    if w == "1"@ {
        Some(1)
    } else if w == "2"@ {
        Some(2)
    } else {
        None
    }
}

/// `1` or `2` as text.
pub open spec fn channel_text(ch: u8) -> Seq<char> {
    if ch == 1 {
        "1"@
    } else {
        "2"@
    }
}

/// The divider that a resistor word names.
pub open spec fn adc_amp_word(w: Seq<char>) -> Option<AdcAmp> {
    if w == "1.5k"@ || w == "1500"@ {
        Some(AdcAmp::R1_5K)
    } else if w == "3.3k"@ || w == "3300"@ {
        Some(AdcAmp::R3_3K)
    } else if w == "10k"@ || w == "10000"@ {
        Some(AdcAmp::R10K)
    } else {
        None
    }
}

/// Whether a word names a DAC feedback resistor.
pub open spec fn dac_amp_word_ok(w: Seq<char>) -> bool {
    w == "30k"@ || w == "30000"@ || w == "15k"@ || w == "15000"@ || w == "0"@
}

/// The divider of a channel.
pub open spec fn amp_of(c: AnalogCommand, ch: u8) -> AdcAmp {
    if ch == 1 {
        c.adc1_amp
    } else {
        c.adc2_amp
    }
}

/// `set_amp <channel> <resistor>` on an input: its text and the settings after it.
pub open spec fn set_adc_amp_outcome(c: AnalogCommand, ch: u8, w: Seq<char>, short: bool) -> (Seq<char>, AnalogCommand) {
    match adc_amp_word(w) {
        None => ("Error: Invalid resistor value. Use 1.5k, 3.3k, or 10k\r\n"@, c),
        Some(amp) => {
            let c2 = if ch == 1 {
                AnalogCommand { adc1_amp: amp, ..c }
            } else {
                AnalogCommand { adc2_amp: amp, ..c }
            };
            (if short {
                "OK\r\n"@
            } else {
                "ADC"@ + channel_text(ch) + " amplification set to "@ + w + "\r\n"@
            }, c2)
        },
    }
}

/// `out value <v>`: the DAC value request, or the message for a bad value.
pub open spec fn dac_value_step(w: Seq<char>, short: bool) -> AnalogStepView {
    match parse_u16_spec(w) {
        None => AnalogStepView::Reply("Invalid integer value"@ + "\r\n"@),
        Some(v) => if v > 4095 {
            AnalogStepView::Reply("Error: Value must be 0-4095 (12-bit)\r\n"@)
        } else {
            AnalogStepView::Output {
                value: v,
                reply: if short {
                    "OK\r\n"@
                } else {
                    "DAC value set to "@ + radix_text(v as nat, 10) + "\r\n"@
                },
            }
        },
    }
}

/// `out set_amp <resistor>`: the resistor is checked and acknowledged; nothing is stored.
pub open spec fn dac_amp_text(w: Seq<char>, short: bool) -> Seq<char> {
    if !dac_amp_word_ok(w) {
        "Error: Invalid resistor value. Use 30k, 15k, or 0\r\n"@
    } else if short {
        "OK\r\n"@
    } else {
        "DAC amplification set to "@ + w + "\r\n"@
    }
}

/// What `analog` does with its arguments, and the settings afterwards.
pub open spec fn analog_outcome(a: Seq<Seq<char>>, c: AnalogCommand, short: bool) -> (AnalogStepView, AnalogCommand) {
    if a.len() == 0 {
        (AnalogStepView::Reply(
            "Usage: analog <in|out> [args]\r\n"@ + "Type 'help analog' for more information\r\n"@,
        ), c)
    } else if a[0] == "in"@ {
        if a.len() < 2 {
            (AnalogStepView::Reply("Usage: analog in <channel|set_amp|continuous> [args]\r\n"@), c)
        } else if a[1] == "set_amp"@ {
            if a.len() != 4 {
                (AnalogStepView::Reply("Usage: analog in set_amp <1|2> <1.5k|3.3k|10k>\r\n"@), c)
            } else {
                match analog_channel(a[2]) {
                    None => (AnalogStepView::Reply("Channel must be 1 or 2"@ + "\r\n"@), c),
                    Some(ch) => {
                        let r = set_adc_amp_outcome(c, ch, a[3], short);
                        (AnalogStepView::Reply(r.0), r.1)
                    },
                }
            }
        } else if a[1] == "continuous"@ {
            if a.len() != 3 {
                (AnalogStepView::Reply("Usage: analog in continuous <1|2>\r\n"@), c)
            } else {
                match analog_channel(a[2]) {
                    None => (AnalogStepView::Reply("Channel must be 1 or 2"@ + "\r\n"@), c),
                    Some(ch) => (AnalogStepView::Continuous {
                        channel: ch,
                        banner: "Continuous ADC"@ + channel_text(ch) + " reading. Press ESC to exit\r\n"@,
                    }, c),
                }
            }
        } else {
            match analog_channel(a[1]) {
                None => (AnalogStepView::Reply(
                    "Unknown subcommand. Use: <1|2>, set_amp, or continuous\r\n"@,
                ), c),
                Some(ch) => (AnalogStepView::Read { channel: ch }, c),
            }
        }
    } else if a[0] == "out"@ {
        if a.len() < 2 {
            (AnalogStepView::Reply("Usage: analog out <value|set_amp> [args]\r\n"@), c)
        } else if a[1] == "value"@ {
            if a.len() != 3 {
                (AnalogStepView::Reply("Usage: analog out value <0-4095>\r\n"@), c)
            } else {
                (dac_value_step(a[2], short), c)
            }
        } else if a[1] == "set_amp"@ {
            if a.len() != 3 {
                (AnalogStepView::Reply("Usage: analog out set_amp <30k|15k|0>\r\n"@), c)
            } else {
                (AnalogStepView::Reply(dac_amp_text(a[2], short)), c)
            }
        } else {
            (AnalogStepView::Reply("Unknown subcommand. Use: value or set_amp\r\n"@), c)
        }
    } else {
        (AnalogStepView::Reply("Unknown subcommand. Use: in or out\r\n"@), c)
    }
}

/// What a single reading prints: the raw value or the input millivolts, short or long.
pub open spec fn adc_report_text(c: AnalogCommand, ch: u8, raw: Option<u16>, short: bool) -> Seq<char> {
    match raw {
        None => "Error: Failed to read ADC\r\n"@,
        Some(v) => if c.format == 0 {
            if short {
                radix_text(v as nat, 10) + "\r\n"@
            } else {
                "ADC"@ + channel_text(ch) + " value: "@ + radix_text(v as nat, 10) + "\r\n"@
            }
        } else {
            let mv = adc_mv(v, amp_of(c, ch));
            if short {
                radix_text(mv as nat, 10) + " mV\r\n"@
            } else {
                "ADC"@ + channel_text(ch) + ": "@ + radix_text(mv as nat, 10) + " mV\r\n"@
            }
        },
    }
}

/// What each reading in continuous mode prints; a failed reading prints nothing.
pub open spec fn sample_text(c: AnalogCommand, ch: u8, raw: Option<u16>) -> Seq<char> {
    match raw {
        None => Seq::empty(),
        Some(v) => if c.format == 0 {
            radix_text(v as nat, 10) + "\r\n"@
        } else {
            radix_text(adc_mv(v, amp_of(c, ch)) as nat, 10) + " mV\r\n"@
        },
    }
}

/// `raw`, `0`, `mv`, `millivolt`, `millivolts` or `1`: how readings are printed.
pub open spec fn format_word(w: Seq<char>) -> Option<u8> {
    if w == "raw"@ || w == "0"@ {
        Some(0)
    } else if w == "mv"@ || w == "millivolt"@ || w == "millivolts"@ || w == "1"@ {
        Some(1)
    } else {
        None
    }
}

/// Choosing how readings are printed: its text and the settings after it.
pub open spec fn set_format_outcome(c: AnalogCommand, w: Seq<char>, short: bool) -> (Seq<char>, AnalogCommand) {
    match format_word(w) {
        None => ("Error: Invalid format. Use 'raw' or 'mv'\r\n"@, c),
        Some(f) => (if short {
            "OK\r\n"@
        } else {
            "Analog format set to "@ + (if f == 0 {
                "raw"@
            } else {
                "millivolts"@
            }) + "\r\n"@
        }, AnalogCommand { format: f, ..c }),
    }
}

fn channel_str(ch: u8) -> (r: &'static str)
    ensures
        r@ == channel_text(ch),
{
    if ch == 1 {
        "1"
    } else {
        "2"
    }
}

impl AnalogCommand {
    /// Raw readings, both inputs on the 10k divider, the DAC amplifier as a buffer.
    pub fn new() -> (r: Self)
        ensures
            r == (AnalogCommand {
                format: 0,
                adc1_amp: AdcAmp::R10K,
                adc2_amp: AdcAmp::R10K,
                dac_amp: DacAmp::R0,
            }),
    {
        AnalogCommand { format: 0, adc1_amp: AdcAmp::R10K, adc2_amp: AdcAmp::R10K, dac_amp: DacAmp::R0 }
    }

    /// Millivolts at the input for a raw reading.
    pub fn adc_to_mv(&self, raw: u16, amp: AdcAmp) -> (r: u32)
        ensures
            r == adc_mv(raw, amp),
    {
        let adc_mv = (raw as u32 * 3300) / 4095;
        match amp {
            AdcAmp::R1_5K => (adc_mv * 115) / 15,
            AdcAmp::R3_3K => (adc_mv * 133) / 33,
            AdcAmp::R10K => adc_mv * 2,
        }
    }

    /// The DAC value for an output of `mv` millivolts, capped at 4095.
    pub fn mv_to_dac(&self, mv: u32, amp: DacAmp) -> (r: u16)
        requires
            dac_conversion_fits(mv, amp),
        ensures
            r == dac_value(mv, amp),
            r <= 4095,
    {
        let dac_mv = match amp {
            DacAmp::R30K => (mv * 10) / 40,
            DacAmp::R15K => (mv * 10) / 25,
            DacAmp::R0 => mv,
        };
        let raw = (dac_mv * 4095) / 3300;
        if raw > 4095 {
            4095
        } else {
            raw as u16
        }
    }

    /// Reads a decimal `u16` argument.
    fn parse_int(&self, arg: &str) -> (r: Result<u16, &'static str>)
        ensures
            match parse_u16_spec(arg@) {
                Some(v) => r == Ok::<u16, &'static str>(v),
                None => r matches Err(e) && e@ == "Invalid integer value"@,
            },
    {
        match parse_u16(arg) {
            Some(v) => Ok(v),
            None => Err("Invalid integer value"),
        }
    }

    /// Reads the channel `1` or `2`.
    fn parse_channel(&self, arg: &str) -> (r: Result<u8, &'static str>)
        ensures
            match analog_channel(arg@) {
                Some(c) => r == Ok::<u8, &'static str>(c),
                None => r matches Err(e) && e@ == "Channel must be 1 or 2"@,
            },
    {
        if str_eq(arg, "1") {
            Ok(1)
        } else if str_eq(arg, "2") {
            Ok(2)
        } else {
            Err("Channel must be 1 or 2")
        }
    }

    /// Sets the divider of an input from a resistor word.
    fn set_adc_amp(&mut self, channel: u8, resistor: &str, short: bool) -> (r: String)
        ensures
            (r@, *final(self)) == set_adc_amp_outcome(*old(self), channel, resistor@, short),
    {
        let amp = if str_eq(resistor, "1.5k") || str_eq(resistor, "1500") {
            AdcAmp::R1_5K
        } else if str_eq(resistor, "3.3k") || str_eq(resistor, "3300") {
            AdcAmp::R3_3K
        } else if str_eq(resistor, "10k") || str_eq(resistor, "10000") {
            AdcAmp::R10K
        } else {
            return String::from_str("Error: Invalid resistor value. Use 1.5k, 3.3k, or 10k\r\n");
        };
        if channel == 1 {
            self.adc1_amp = amp;
        } else {
            self.adc2_amp = amp;
        }
        if short {
            String::from_str("OK\r\n")
        } else {
            let mut s = String::from_str("ADC");
            s.append(channel_str(channel));
            s.append(" amplification set to ");
            s.append(resistor);
            s.append("\r\n");
            s
        }
    }

    /// Checks a DAC value and makes the request that sets it.
    fn set_dac_value(&self, value: u16, short: bool) -> (r: AnalogStep)
        ensures
            value > 4095 ==> r@ == AnalogStepView::Reply("Error: Value must be 0-4095 (12-bit)\r\n"@),
            value <= 4095 ==> r@ == (AnalogStepView::Output {
                value,
                reply: if short {
                    "OK\r\n"@
                } else {
                    "DAC value set to "@ + radix_text(value as nat, 10) + "\r\n"@
                },
            }),
    {
        if value > 4095 {
            return AnalogStep::Reply(String::from_str("Error: Value must be 0-4095 (12-bit)\r\n"));
        }
        let reply = if short {
            String::from_str("OK\r\n")
        } else {
            let digits = format_u16(value);
            concat3("DAC value set to ", digits.as_str(), "\r\n")
        };
        AnalogStep::Output { value, reply }
    }

    /// Checks a DAC feedback resistor word and acknowledges it.
    fn set_dac_amp(&self, resistor: &str, short: bool) -> (r: String)
        ensures
            r@ == dac_amp_text(resistor@, short),
    {
        if !(str_eq(resistor, "30k") || str_eq(resistor, "30000") || str_eq(resistor, "15k")
            || str_eq(resistor, "15000") || str_eq(resistor, "0")) {
            return String::from_str("Error: Invalid resistor value. Use 30k, 15k, or 0\r\n");
        }
        if short {
            String::from_str("OK\r\n")
        } else {
            concat3("DAC amplification set to ", resistor, "\r\n")
        }
    }

    /// Chooses how readings are printed: raw values or millivolts.
    pub fn set_format(&mut self, format_str: &str, cfg: &CliConfig) -> (r: String)
        ensures
            (r@, *final(self)) == set_format_outcome(*old(self), format_str@, cfg.short()),
    {
        let f: u8 = if str_eq(format_str, "raw") || str_eq(format_str, "0") {
            0
        } else if str_eq(format_str, "mv") || str_eq(format_str, "millivolt") || str_eq(
            format_str,
            "millivolts",
        ) || str_eq(format_str, "1") {
            1
        } else {
            return String::from_str("Error: Invalid format. Use 'raw' or 'mv'\r\n");
        };
        self.format = f;
        if cfg.is_short_output() {
            String::from_str("OK\r\n")
        } else {
            concat3("Analog format set to ", if f == 0 {
                "raw"
            } else {
                "millivolts"
            }, "\r\n")
        }
    }

    /// What a single reading prints, given the raw value read (`None` when reading failed).
    pub fn read_adc(&self, channel: u8, raw: Option<u16>, cfg: &CliConfig) -> (r: String)
        ensures
            r@ == adc_report_text(*self, channel, raw, cfg.short()),
    {
        let v = match raw {
            None => {
                return String::from_str("Error: Failed to read ADC\r\n");
            },
            Some(v) => v,
        };
        let short = cfg.is_short_output();
        if self.format == 0 {
            let digits = format_u16(v);
            if short {
                concat(digits.as_str(), "\r\n")
            } else {
                let mut s = String::from_str("ADC");
                s.append(channel_str(channel));
                s.append(" value: ");
                s.append(digits.as_str());
                s.append("\r\n");
                s
            }
        } else {
            let amp = if channel == 1 {
                self.adc1_amp
            } else {
                self.adc2_amp
            };
            let mv = self.adc_to_mv(v, amp);
            let digits = format_u32(mv);
            if short {
                concat(digits.as_str(), " mV\r\n")
            } else {
                let mut s = String::from_str("ADC");
                s.append(channel_str(channel));
                s.append(": ");
                s.append(digits.as_str());
                s.append(" mV\r\n");
                s
            }
        }
    }

    /// What one reading in continuous mode prints.
    pub fn continuous_sample(&self, channel: u8, raw: Option<u16>) -> (r: String)
        ensures
            r@ == sample_text(*self, channel, raw),
    {
        match raw {
            None => String::new(),
            Some(v) => {
                if self.format == 0 {
                    let digits = format_u16(v);
                    concat(digits.as_str(), "\r\n")
                } else {
                    let amp = if channel == 1 {
                        self.adc1_amp
                    } else {
                        self.adc2_amp
                    };
                    let digits = format_u32(self.adc_to_mv(v, amp));
                    concat(digits.as_str(), " mV\r\n")
                }
            },
        }
    }

    /// Escape (0x1B) ends continuous mode with a farewell line; other keys are ignored.
    pub fn continuous_key(&self, byte: u8) -> (r: Option<String>)
        ensures
            byte == 0x1B ==> (r matches Some(t) && t@ == "\r\nExiting continuous mode\r\n"@),
            byte != 0x1B ==> r is None,
    {
        if byte == 0x1B {
            Some(String::from_str("\r\nExiting continuous mode\r\n"))
        } else {
            None
        }
    }

    /// What `analog` does with its arguments; `in set_amp` changes the stored divider.
    pub fn execute(&mut self, args: &[&str], cfg: &CliConfig) -> (r: AnalogStep)
        ensures
            (r@, *final(self)) == analog_outcome(words(args), *old(self), cfg.short()),
    {
        let ghost a = words(args);
        let short = cfg.is_short_output();
        if args.len() == 0 {
            return AnalogStep::Reply(
                concat("Usage: analog <in|out> [args]\r\n", "Type 'help analog' for more information\r\n"),
            );
        }
        assert(a[0] == args@[0]@);
        if str_eq(args[0], "in") {
            if args.len() < 2 {
                return AnalogStep::Reply(
                    String::from_str("Usage: analog in <channel|set_amp|continuous> [args]\r\n"),
                );
            }
            assert(a[1] == args@[1]@);
            let sub = args[1];
            if str_eq(sub, "set_amp") {
                if args.len() != 4 {
                    return AnalogStep::Reply(
                        String::from_str("Usage: analog in set_amp <1|2> <1.5k|3.3k|10k>\r\n"),
                    );
                }
                assert(a[2] == args@[2]@ && a[3] == args@[3]@);
                let channel = match self.parse_channel(args[2]) {
                    Ok(c) => c,
                    Err(e) => {
                        return AnalogStep::Reply(concat(e, "\r\n"));
                    },
                };
                AnalogStep::Reply(self.set_adc_amp(channel, args[3], short))
            } else if str_eq(sub, "continuous") {
                if args.len() != 3 {
                    return AnalogStep::Reply(String::from_str("Usage: analog in continuous <1|2>\r\n"));
                }
                assert(a[2] == args@[2]@);
                let channel = match self.parse_channel(args[2]) {
                    Ok(c) => c,
                    Err(e) => {
                        return AnalogStep::Reply(concat(e, "\r\n"));
                    },
                };
                let banner = concat3(
                    "Continuous ADC",
                    channel_str(channel),
                    " reading. Press ESC to exit\r\n",
                );
                AnalogStep::Continuous { channel, banner }
            } else {
                match self.parse_channel(sub) {
                    Ok(channel) => AnalogStep::Read { channel },
                    Err(_) => AnalogStep::Reply(
                        String::from_str("Unknown subcommand. Use: <1|2>, set_amp, or continuous\r\n"),
                    ),
                }
            }
        } else if str_eq(args[0], "out") {
            if args.len() < 2 {
                return AnalogStep::Reply(String::from_str("Usage: analog out <value|set_amp> [args]\r\n"));
            }
            assert(a[1] == args@[1]@);
            let sub = args[1];
            if str_eq(sub, "value") {
                if args.len() != 3 {
                    return AnalogStep::Reply(String::from_str("Usage: analog out value <0-4095>\r\n"));
                }
                assert(a[2] == args@[2]@);
                let value = match self.parse_int(args[2]) {
                    Ok(v) => v,
                    Err(e) => {
                        return AnalogStep::Reply(concat(e, "\r\n"));
                    },
                };
                self.set_dac_value(value, short)
            } else if str_eq(sub, "set_amp") {
                if args.len() != 3 {
                    return AnalogStep::Reply(String::from_str("Usage: analog out set_amp <30k|15k|0>\r\n"));
                }
                assert(a[2] == args@[2]@);
                AnalogStep::Reply(self.set_dac_amp(args[2], short))
            } else {
                AnalogStep::Reply(String::from_str("Unknown subcommand. Use: value or set_amp\r\n"))
            }
        } else {
            AnalogStep::Reply(String::from_str("Unknown subcommand. Use: in or out\r\n"))
        }
    }
}


impl Command for AnalogCommand {
    open spec fn command_name(&self) -> Seq<char> {
        "analog"@
    }

    open spec fn help_spec(&self) -> Seq<char> {
        "analog <in|out> [args] - Analog ADC/DAC operations\r\n"@
            + "ADC inputs: PA0 (ch1), PA1 (ch2) | DAC output: PA4\r\n"@ + "\r\nADC Input Commands:\r\n"@
            + "  analog in <1|2>              - Read ADC channel (0-4095)\r\n"@
            + "  analog in set_amp <1|2> <R>  - Set amplification (1.5k, 3.3k, 10k)\r\n"@
            + "  analog in continuous <1|2>   - Continuous reading (ESC to exit)\r\n"@
            + "\r\nDAC Output Commands:\r\n"@
            + "  analog out value <0-4095>    - Set DAC output value (12-bit)\r\n"@
            + "  analog out set_amp <R>       - Set amplification (30k, 15k, 0)\r\n"@
            + "\r\nExamples:\r\n"@ + "  analog in 1                  - Read channel 1\r\n"@
            + "  analog in set_amp 1 3.3k     - Set ch1 to 3.3k gain\r\n"@
            + "  analog in continuous 2       - Continuous read ch2\r\n"@
            + "  analog out value 2048        - Set DAC to mid-scale\r\n"@
            + "  analog out set_amp 15k       - Set DAC amp to 15k\r\n"@
    }

    fn name(&self) -> (r: &'static str) {
        "analog"
    }

    fn initialize(&mut self) -> (r: Result<(), &'static str>)
        ensures
            r is Ok,
            *final(self) == *old(self),
    {
        Ok(())
    }

    fn help_text(&self) -> (r: String) {
        let mut s = String::from_str("analog <in|out> [args] - Analog ADC/DAC operations\r\n");
        s.append("ADC inputs: PA0 (ch1), PA1 (ch2) | DAC output: PA4\r\n");
        s.append("\r\nADC Input Commands:\r\n");
        s.append("  analog in <1|2>              - Read ADC channel (0-4095)\r\n");
        s.append("  analog in set_amp <1|2> <R>  - Set amplification (1.5k, 3.3k, 10k)\r\n");
        s.append("  analog in continuous <1|2>   - Continuous reading (ESC to exit)\r\n");
        s.append("\r\nDAC Output Commands:\r\n");
        s.append("  analog out value <0-4095>    - Set DAC output value (12-bit)\r\n");
        s.append("  analog out set_amp <R>       - Set amplification (30k, 15k, 0)\r\n");
        s.append("\r\nExamples:\r\n");
        s.append("  analog in 1                  - Read channel 1\r\n");
        s.append("  analog in set_amp 1 3.3k     - Set ch1 to 3.3k gain\r\n");
        s.append("  analog in continuous 2       - Continuous read ch2\r\n");
        s.append("  analog out value 2048        - Set DAC to mid-scale\r\n");
        s.append("  analog out set_amp 15k       - Set DAC amp to 15k\r\n");
        s
    }
}

} // verus!
