//! `spi`: configuration and transfers on the two SPI buses.
use vstd::prelude::*;
use vstd::string::StringExecFns;
use crate::cli_config::CliConfig;
use crate::command::{words, Command};
use crate::text::{
    concat, concat3, digit_char, format_hex_list, format_hex_u32, format_hex_u8, format_u32, hex_data,
    hex_list, hex_u32_text, hex_u8_text, parse_hex_data, parse_hex_u32,
    parse_hex_u32_spec, parse_suffixed_rate,
    parse_usize, parse_usize_spec, radix_text, str_eq, suffixed_rate,
};

verus! {

/// Clock level when idle.
#[derive(PartialEq, Eq, Structural, Clone, Copy, Debug)]
pub enum Polarity {
    IdleLow,
    IdleHigh,
}

/// Clock edge on which data is captured.
#[derive(PartialEq, Eq, Structural, Clone, Copy, Debug)]
pub enum Phase {
    CaptureOnFirstTransition,
    CaptureOnSecondTransition,
}

/// An SPI mode: polarity and phase.
#[derive(PartialEq, Eq, Structural, Clone, Copy, Debug)]
pub struct SpiMode {
    pub polarity: Polarity,
    pub phase: Phase,
}

/// The stored settings of an SPI bus.
#[derive(PartialEq, Eq, Structural, Clone, Copy, Debug)]
pub struct SpiConfig {
    pub mode: SpiMode,
    pub msb_first: bool,
}

impl SpiConfig {
    /// Mode 0, most significant bit first.
    pub open spec fn default_spec() -> SpiConfig {
        SpiConfig {
            mode: SpiMode { polarity: Polarity::IdleLow, phase: Phase::CaptureOnFirstTransition },
            msb_first: true,
        }
    }

    /// Mode 0, most significant bit first.
    pub fn default() -> (r: Self)
        ensures
            r == Self::default_spec(),
    {
        SpiConfig {
            mode: SpiMode { polarity: Polarity::IdleLow, phase: Phase::CaptureOnFirstTransition },
            msb_first: true,
        }
    }
}

/// The two SPI buses, with their stored settings.
#[derive(Clone, Copy)]
pub struct SpiCommand {
    pub spi1: SpiConfig,
    pub spi2: SpiConfig,
}

/// A transfer that the hardware layer could not carry out.
#[derive(PartialEq, Eq, Structural, Clone, Copy, Debug)]
pub enum SpiFault {
    /// The bus was never handed over.
    NotInitialized,
    /// The bus reported an error.
    Failed,
}

/// The kind of transfer, which names its failure.
#[derive(PartialEq, Eq, Structural, Clone, Copy, Debug)]
pub enum SpiOp {
    Write,
    Read,
    Transfer,
    BurstRead,
    BurstWrite,
}

/// The message for a failed transfer.
pub open spec fn spi_fault_text(op: SpiOp, f: SpiFault) -> Seq<char> {
    match f {
        SpiFault::NotInitialized => "SPI not initialized"@,
        SpiFault::Failed => match op {
            SpiOp::Write => "Write failed"@,
            SpiOp::Read => "Read failed"@,
            SpiOp::Transfer => "Transfer failed"@,
            SpiOp::BurstRead => "Burst read failed"@,
            SpiOp::BurstWrite => "Burst write failed"@,
        },
    }
}

fn spi_fault(op: SpiOp, f: SpiFault) -> (r: &'static str)
    ensures
        r@ == spi_fault_text(op, f),
{
    match f {
        SpiFault::NotInitialized => "SPI not initialized",
        SpiFault::Failed => match op {
            SpiOp::Write => "Write failed",
            SpiOp::Read => "Read failed",
            SpiOp::Transfer => "Transfer failed",
            SpiOp::BurstRead => "Burst read failed",
            SpiOp::BurstWrite => "Burst write failed",
        },
    }
}

/// What an `spi` command line asks of the hardware.
pub enum SpiStep {
    /// Print this text.
    Reply(String),
    /// Send `data` on the bus.
    Write { bus: u8, data: Vec<u8> },
    /// Read `count` bytes from the bus.
    Read { bus: u8, count: usize },
    /// Send `data` while reading as many bytes.
    Transfer { bus: u8, data: Vec<u8> },
    /// Send `header` (the bytes of `address`, read bit set), then read `count` bytes.
    BurstRead { bus: u8, address: u32, header: Vec<u8>, count: usize },
    /// Send `header` (the bytes of `address`, read bit clear), then `data`.
    BurstWrite { bus: u8, address: u32, header: Vec<u8>, data: Vec<u8> },
}

/// An `spi` step with its texts and bytes as sequences.
pub enum SpiStepView {
    Reply(Seq<char>),
    Write { bus: u8, data: Seq<u8> },
    Read { bus: u8, count: usize },
    Transfer { bus: u8, data: Seq<u8> },
    BurstRead { bus: u8, address: u32, header: Seq<u8>, count: usize },
    BurstWrite { bus: u8, address: u32, header: Seq<u8>, data: Seq<u8> },
}

impl View for SpiStep {
    type V = SpiStepView;

    open spec fn view(&self) -> SpiStepView {
        match self {
            SpiStep::Reply(t) => SpiStepView::Reply(t@),
            SpiStep::Write { bus, data } => SpiStepView::Write { bus: *bus, data: data@ },
            SpiStep::Read { bus, count } => SpiStepView::Read { bus: *bus, count: *count },
            SpiStep::Transfer { bus, data } => SpiStepView::Transfer { bus: *bus, data: data@ },
            SpiStep::BurstRead { bus, address, header, count } => SpiStepView::BurstRead {
                bus: *bus,
                address: *address,
                header: header@,
                count: *count,
            },
            SpiStep::BurstWrite { bus, address, header, data } => SpiStepView::BurstWrite {
                bus: *bus,
                address: *address,
                header: header@,
                data: data@,
            },
        }
    }
}

/// The bus that `1` or `2` names.
pub open spec fn spi_bus(w: Seq<char>) -> Option<u8> {
    if w == "1"@ {
        Some(1)
    } else if w == "2"@ {
        Some(2)
    } else {
        None
    }
}

/// The mode that `0`-`3` names.
pub open spec fn spi_mode_word(w: Seq<char>) -> Option<SpiMode> {
    if w == "0"@ {
        Some(SpiMode { polarity: Polarity::IdleLow, phase: Phase::CaptureOnFirstTransition })
    } else if w == "1"@ {
        Some(SpiMode { polarity: Polarity::IdleLow, phase: Phase::CaptureOnSecondTransition })
    } else if w == "2"@ {
        Some(SpiMode { polarity: Polarity::IdleHigh, phase: Phase::CaptureOnFirstTransition })
    } else if w == "3"@ {
        Some(SpiMode { polarity: Polarity::IdleHigh, phase: Phase::CaptureOnSecondTransition })
    } else {
        None
    }
}


/// SPI mode `n`, written as its decimal digit, is clock polarity `n / 2` (idle high for modes
/// 2 and 3) and clock phase `n % 2` (capture on the second edge for modes 1 and 3), so the four
/// modes are all different; no other word names a mode.
pub proof fn law_mode_numbering(w: Seq<char>, n: u32)
    ensures
        n <= 3 && w == radix_text(n as nat, 10) ==> spi_mode_word(w) == Some(
            SpiMode {
                polarity: if n >= 2 {
                    Polarity::IdleHigh
                } else {
                    Polarity::IdleLow
                },
                phase: if n % 2 == 1 {
                    Phase::CaptureOnSecondTransition
                } else {
                    Phase::CaptureOnFirstTransition
                },
            },
        ),
        spi_mode_word(w) is Some ==> w.len() == 1 && '0' <= w[0] <= '3',
{
    reveal_strlit("0");
    reveal_strlit("1");
    reveal_strlit("2");
    reveal_strlit("3");
    if n <= 3 && w == radix_text(n as nat, 10) {
        assert(w == seq![digit_char(n as nat)]);
        assert(w[0] == "0"@[0] <==> n == 0);
        assert(w[0] == "1"@[0] <==> n == 1);
        assert(w[0] == "2"@[0] <==> n == 2);
        assert(w[0] == "3"@[0] <==> n == 3);
        if n == 0 {
            assert(w =~= "0"@);
        } else if n == 1 {
            assert(w =~= "1"@);
            assert(w != "0"@);
        } else if n == 2 {
            assert(w =~= "2"@);
            assert(w != "0"@ && w != "1"@);
        } else {
            assert(w =~= "3"@);
            assert(w != "0"@ && w != "1"@ && w != "2"@);
        }
    }
}

/// `1` or `2` as text.
pub open spec fn spi_bus_text(b: u8) -> Seq<char> {
    if b == 1 {
        "1"@
    } else {
        "2"@
    }
}

/// `config <speed> <mode> <bit_order>`: its text and the settings after it.
/// The speed is checked but not stored.
pub open spec fn config_outcome(
    c: SpiCommand,
    bus: u8,
    speed: Seq<char>,
    mode: Seq<char>,
    order: Seq<char>,
    short: bool,
) -> (Seq<char>, SpiCommand) {
    if suffixed_rate(speed) is None {
        ("Error: "@ + "Invalid speed format"@ + "\r\n"@, c)
    } else if spi_mode_word(mode) is None {
        ("Error: "@ + "Mode must be 0-3"@ + "\r\n"@, c)
    } else if order != "0"@ && order != "1"@ {
        ("Error: Bit order must be 0 (MSB) or 1 (LSB)\r\n"@, c)
    } else {
        let cfg = SpiConfig { mode: spi_mode_word(mode).unwrap(), msb_first: order == "0"@ };
        let c2 = if bus == 1 {
            SpiCommand { spi1: cfg, ..c }
        } else {
            SpiCommand { spi2: cfg, ..c }
        };
        (if short {
            "OK\r\n"@
        } else {
            "SPI"@ + spi_bus_text(bus) + " configured\r\n"@
        }, c2)
    }
}

/// The reply to a hex data argument that does not parse.
pub open spec fn data_error_text(e: Seq<char>) -> Seq<char> {
    "Error: "@ + e + "\r\n"@
}

/// The bytes of a register address, most significant first, as few as hold it (one for
/// addresses up to 0xFF, two up to 0xFFFF, and so on).
pub open spec fn address_bytes(a: u32) -> Seq<u8>
    decreases a,
{
    if a < 0x100 {
        seq![a as u8]
    } else {
        address_bytes(a / 256).push((a % 256) as u8)
    }
}

/// The address bytes of a burst read: the read bit (0x80) set in the first byte.
pub open spec fn read_header(a: u32) -> Seq<u8> {
    address_bytes(a).update(0, address_bytes(a)[0] | 0x80)
}

/// The address bytes of a burst write: the read bit cleared in the first byte.
pub open spec fn write_header(a: u32) -> Seq<u8> {
    address_bytes(a).update(0, address_bytes(a)[0] & 0x7F)
}

/// An address as a report prints it: two hex digits up to 0xFF, else all its digits.
pub open spec fn address_text(a: u32) -> Seq<char> {
    if a <= 0xFF {
        hex_u8_text(a as u8)
    } else {
        hex_u32_text(a)
    }
}

/// What `spi` does with its arguments, and the settings afterwards.
pub open spec fn spi_outcome(a: Seq<Seq<char>>, c: SpiCommand, short: bool) -> (SpiStepView, SpiCommand) {
    if a.len() < 2 {
        (SpiStepView::Reply(
            "Usage: spi <1|2> <config|write|read|transfer|burst_read|burst_write> [args]\r\n"@
                + "Type 'help spi' for more information\r\n"@,
        ), c)
    } else {
        match spi_bus(a[0]) {
            None => (SpiStepView::Reply("SPI number must be 1 or 2"@ + "\r\n"@), c),
            Some(b) => if a[1] == "config"@ {
                if a.len() != 5 {
                    (SpiStepView::Reply("Usage: spi <1|2> config <speed> <mode> <bit_order>\r\n"@), c)
                } else {
                    let r = config_outcome(c, b, a[2], a[3], a[4], short);
                    (SpiStepView::Reply(r.0), r.1)
                }
            } else if a[1] == "write"@ {
                if a.len() != 3 {
                    (SpiStepView::Reply("Usage: spi <1|2> write <data_hex>\r\n"@), c)
                } else {
                    match hex_data(a[2]) {
                        Err(e) => (SpiStepView::Reply(data_error_text(e)), c),
                        Ok(d) => (SpiStepView::Write { bus: b, data: d }, c),
                    }
                }
            } else if a[1] == "read"@ {
                if a.len() != 3 {
                    (SpiStepView::Reply("Usage: spi <1|2> read <byte_count>\r\n"@), c)
                } else {
                    match parse_usize_spec(a[2]) {
                        None => (SpiStepView::Reply("Invalid integer value"@ + "\r\n"@), c),
                        Some(n) => if n > 256 {
                            (SpiStepView::Reply("Error: Max 256 bytes\r\n"@), c)
                        } else {
                            (SpiStepView::Read { bus: b, count: n }, c)
                        },
                    }
                }
            } else if a[1] == "transfer"@ {
                if a.len() != 3 {
                    (SpiStepView::Reply("Usage: spi <1|2> transfer <data_hex>\r\n"@), c)
                } else {
                    match hex_data(a[2]) {
                        Err(e) => (SpiStepView::Reply(data_error_text(e)), c),
                        Ok(d) => (SpiStepView::Transfer { bus: b, data: d }, c),
                    }
                }
            } else if a[1] == "burst_read"@ {
                if a.len() != 4 {
                    (SpiStepView::Reply("Usage: spi <1|2> burst_read <address> <byte_count>\r\n"@), c)
                } else {
                    match parse_usize_spec(a[3]) {
                        None => (SpiStepView::Reply("Invalid integer value"@ + "\r\n"@), c),
                        Some(n) => match parse_hex_u32_spec(a[2]) {
                            None => (SpiStepView::Reply("Error: "@ + "Invalid hex byte"@ + "\r\n"@), c),
                            Some(addr) => if n > 256 {
                                (SpiStepView::Reply("Error: Max 256 bytes\r\n"@), c)
                            } else {
                                (SpiStepView::BurstRead { bus: b, address: addr, header: read_header(addr), count: n }, c)
                            },
                        },
                    }
                }
            } else if a[1] == "burst_write"@ {
                if a.len() != 4 {
                    (SpiStepView::Reply("Usage: spi <1|2> burst_write <address> <data_hex>\r\n"@), c)
                } else {
                    match parse_hex_u32_spec(a[2]) {
                        None => (SpiStepView::Reply("Error: "@ + "Invalid hex byte"@ + "\r\n"@), c),
                        Some(addr) => match hex_data(a[3]) {
                            Err(e) => (SpiStepView::Reply(data_error_text(e)), c),
                            Ok(d) => (SpiStepView::BurstWrite { bus: b, address: addr, header: write_header(addr), data: d }, c),
                        },
                    }
                }
            } else {
                (SpiStepView::Reply("Unknown subcommand\r\n"@), c)
            },
        }
    }
}

/// What a write prints: the count of bytes written, or the fault for long answers.
pub open spec fn spi_write_report(op: SpiOp, count: nat, r: Result<(), SpiFault>, short: bool) -> Seq<char> {
    match r {
        Ok(_) => if short {
            "OK\r\n"@
        } else {
            "Wrote "@ + radix_text(count, 10) + " byte(s)\r\n"@
        },
        Err(f) => if short {
            Seq::empty()
        } else {
            "Error: "@ + spi_fault_text(op, f) + "\r\n"@
        },
    }
}

/// What a read or transfer prints: the bytes received in hex, or the fault for long answers.
pub open spec fn spi_read_report(op: SpiOp, r: Result<Seq<u8>, SpiFault>, short: bool) -> Seq<char> {
    match r {
        Ok(d) => hex_list(d) + "\r\n"@,
        Err(f) => if short {
            Seq::empty()
        } else {
            "Error: "@ + spi_fault_text(op, f) + "\r\n"@
        },
    }
}

/// What a burst write prints.
pub open spec fn spi_burst_write_report(address: u32, count: nat, r: Result<(), SpiFault>, short: bool) -> Seq<char> {
    match r {
        Ok(_) => if short {
            "OK\r\n"@
        } else {
            "Wrote "@ + radix_text(count, 10) + " byte(s) to address "@ + address_text(address) + "\r\n"@
        },
        Err(f) => if short {
            Seq::empty()
        } else {
            "Error: "@ + spi_fault_text(SpiOp::BurstWrite, f) + "\r\n"@
        },
    }
}

impl SpiCommand {
    /// Both buses in mode 0, most significant bit first.
    pub fn new() -> (r: Self)
        ensures
            r.spi1 == SpiConfig::default_spec() && r.spi2 == SpiConfig::default_spec(),
    {
        SpiCommand { spi1: SpiConfig::default(), spi2: SpiConfig::default() }
    }

    /// Reads a hex register address such as `0x1F` or `0x1000`.
    fn parse_address(&self, s: &str) -> (r: Result<u32, &'static str>)
        ensures
            match parse_hex_u32_spec(s@) {
                Some(v) => r == Ok::<u32, &'static str>(v),
                None => r matches Err(e) && e@ == "Invalid hex byte"@,
            },
    {
        match parse_hex_u32(s) {
            Some(v) => Ok(v),
            None => Err("Invalid hex byte"),
        }
    }

    /// The bytes of a register address, most significant first.
    fn address_bytes_of(a: u32) -> (r: Vec<u8>)
        ensures
            r@ == address_bytes(a),
            r@.len() > 0,
        decreases a,
    {
        if a < 0x100 {
            let mut v = Vec::new();
            v.push(a as u8);
            assert(v@ =~= seq![a as u8]);
            v
        } else {
            let mut v = Self::address_bytes_of(a / 256);
            v.push((a % 256) as u8);
            v
        }
    }

    /// The address bytes of a burst read or write: the read bit set or cleared in the first.
    fn header_of(a: u32, read: bool) -> (r: Vec<u8>)
        ensures
            read ==> r@ == read_header(a),
            !read ==> r@ == write_header(a),
    {
        let mut v = Self::address_bytes_of(a);
        let first = if read {
            v[0] | 0x80
        } else {
            v[0] & 0x7F
        };
        v.set(0, first);
        v
    }

    /// An address as a report prints it.
    fn format_address(&self, a: u32) -> (r: String)
        ensures
            r@ == address_text(a),
    {
        if a <= 0xFF {
            self.format_hex_u8(a as u8)
        } else {
            format_hex_u32(a)
        }
    }

    /// Reads hex data such as `0xDEADBEEF` as bytes.
    fn parse_hex_data(&self, arg: &str) -> (r: Result<Vec<u8>, &'static str>)
        ensures
            match hex_data(arg@) {
                Ok(d) => r matches Ok(v) && v@ == d,
                Err(e) => r matches Err(m) && m@ == e,
            },
    {
        parse_hex_data(arg)
    }

    /// Reads the bus number `1` or `2`.
    fn parse_spi_num(&self, arg: &str) -> (r: Result<u8, &'static str>)
        ensures
            match spi_bus(arg@) {
                Some(b) => r == Ok::<u8, &'static str>(b),
                None => r matches Err(e) && e@ == "SPI number must be 1 or 2"@,
            },
    {
        if str_eq(arg, "1") {
            Ok(1)
        } else if str_eq(arg, "2") {
            Ok(2)
        } else {
            Err("SPI number must be 1 or 2")
        }
    }

    /// Reads a byte count.
    fn parse_int(&self, arg: &str) -> (r: Result<usize, &'static str>)
        ensures
            match parse_usize_spec(arg@) {
                Some(v) => r == Ok::<usize, &'static str>(v),
                None => r matches Err(e) && e@ == "Invalid integer value"@,
            },
    {
        match parse_usize(arg) {
            Some(v) => Ok(v),
            None => Err("Invalid integer value"),
        }
    }

    /// Reads a mode `0`-`3`.
    fn parse_mode(&self, arg: &str) -> (r: Result<SpiMode, &'static str>)
        ensures
            match spi_mode_word(arg@) {
                Some(m) => r == Ok::<SpiMode, &'static str>(m),
                None => r matches Err(e) && e@ == "Mode must be 0-3"@,
            },
    {
        if str_eq(arg, "0") {
            Ok(SpiMode { polarity: Polarity::IdleLow, phase: Phase::CaptureOnFirstTransition })
        } else if str_eq(arg, "1") {
            Ok(SpiMode { polarity: Polarity::IdleLow, phase: Phase::CaptureOnSecondTransition })
        } else if str_eq(arg, "2") {
            Ok(SpiMode { polarity: Polarity::IdleHigh, phase: Phase::CaptureOnFirstTransition })
        } else if str_eq(arg, "3") {
            Ok(SpiMode { polarity: Polarity::IdleHigh, phase: Phase::CaptureOnSecondTransition })
        } else {
            Err("Mode must be 0-3")
        }
    }

    /// Reads a speed such as `1m`, `500k` or `250000` in Hz.
    fn parse_speed(&self, arg: &str) -> (r: Result<u32, &'static str>)
        ensures
            match suffixed_rate(arg@) {
                Some(v) => r == Ok::<u32, &'static str>(v),
                None => r matches Err(e) && e@ == "Invalid speed format"@,
            },
    {
        match parse_suffixed_rate(arg) {
            Some(v) => Ok(v),
            None => Err("Invalid speed format"),
        }
    }

    /// A byte as `0x` and two upper-case hex digits.
    fn format_hex_u8(&self, n: u8) -> (r: String)
        ensures
            r@ == hex_u8_text(n),
    {
        format_hex_u8(n)
    }

    /// `config <speed> <mode> <bit_order>`: checks the three arguments and stores mode and bit
    /// order for the bus.
    fn config_spi(&mut self, bus: u8, speed: &str, mode: &str, bit_order: &str, short: bool) -> (r: String)
        ensures
            (r@, *final(self)) == config_outcome(*old(self), bus, speed@, mode@, bit_order@, short),
    {
        match self.parse_speed(speed) {
            Ok(_) => {},
            Err(e) => {
                return concat3("Error: ", e, "\r\n");
            },
        }
        let spi_mode = match self.parse_mode(mode) {
            Ok(m) => m,
            Err(e) => {
                return concat3("Error: ", e, "\r\n");
            },
        };
        let msb_first = if str_eq(bit_order, "0") {
            true
        } else if str_eq(bit_order, "1") {
            false
        } else {
            return String::from_str("Error: Bit order must be 0 (MSB) or 1 (LSB)\r\n");
        };
        let cfg = SpiConfig { mode: spi_mode, msb_first };
        if bus == 1 {
            self.spi1 = cfg;
        } else {
            self.spi2 = cfg;
        }
        if short {
            String::from_str("OK\r\n")
        } else {
            concat3("SPI", if bus == 1 { "1" } else { "2" }, " configured\r\n")
        }
    }

    /// What `spi` does with its arguments. The stored settings change only on a valid `config`.
    pub fn execute(&mut self, args: &[&str], cfg: &CliConfig) -> (r: SpiStep)
        ensures
            (r@, *final(self)) == spi_outcome(words(args), *old(self), cfg.short()),
    {
        let ghost a = words(args);
        let short = cfg.is_short_output();
        if args.len() < 2 {
            return SpiStep::Reply(
                concat(
                    "Usage: spi <1|2> <config|write|read|transfer|burst_read|burst_write> [args]\r\n",
                    "Type 'help spi' for more information\r\n",
                ),
            );
        }
        assert(a[0] == args@[0]@ && a[1] == args@[1]@);
        let bus = match self.parse_spi_num(args[0]) {
            Ok(b) => b,
            Err(e) => {
                return SpiStep::Reply(concat(e, "\r\n"));
            },
        };
        let sub = args[1];
        if str_eq(sub, "config") {
            if args.len() != 5 {
                return SpiStep::Reply(
                    String::from_str("Usage: spi <1|2> config <speed> <mode> <bit_order>\r\n"),
                );
            }
            assert(a[2] == args@[2]@ && a[3] == args@[3]@ && a[4] == args@[4]@);
            SpiStep::Reply(self.config_spi(bus, args[2], args[3], args[4], short))
        } else if str_eq(sub, "write") {
            if args.len() != 3 {
                return SpiStep::Reply(String::from_str("Usage: spi <1|2> write <data_hex>\r\n"));
            }
            assert(a[2] == args@[2]@);
            match self.parse_hex_data(args[2]) {
                Ok(data) => SpiStep::Write { bus, data },
                Err(e) => SpiStep::Reply(concat3("Error: ", e, "\r\n")),
            }
        } else if str_eq(sub, "read") {
            if args.len() != 3 {
                return SpiStep::Reply(String::from_str("Usage: spi <1|2> read <byte_count>\r\n"));
            }
            assert(a[2] == args@[2]@);
            let count = match self.parse_int(args[2]) {
                Ok(n) => n,
                Err(e) => {
                    return SpiStep::Reply(concat(e, "\r\n"));
                },
            };
            if count > 256 {
                SpiStep::Reply(String::from_str("Error: Max 256 bytes\r\n"))
            } else {
                SpiStep::Read { bus, count }
            }
        } else if str_eq(sub, "transfer") {
            if args.len() != 3 {
                return SpiStep::Reply(String::from_str("Usage: spi <1|2> transfer <data_hex>\r\n"));
            }
            assert(a[2] == args@[2]@);
            match self.parse_hex_data(args[2]) {
                Ok(data) => SpiStep::Transfer { bus, data },
                Err(e) => SpiStep::Reply(concat3("Error: ", e, "\r\n")),
            }
        } else if str_eq(sub, "burst_read") {
            if args.len() != 4 {
                return SpiStep::Reply(
                    String::from_str("Usage: spi <1|2> burst_read <address> <byte_count>\r\n"),
                );
            }
            assert(a[2] == args@[2]@ && a[3] == args@[3]@);
            let count = match self.parse_int(args[3]) {
                Ok(n) => n,
                Err(e) => {
                    return SpiStep::Reply(concat(e, "\r\n"));
                },
            };
            let address = match self.parse_address(args[2]) {
                Ok(v) => v,
                Err(e) => {
                    return SpiStep::Reply(concat3("Error: ", e, "\r\n"));
                },
            };
            if count > 256 {
                SpiStep::Reply(String::from_str("Error: Max 256 bytes\r\n"))
            } else {
                SpiStep::BurstRead { bus, address, header: Self::header_of(address, true), count }
            }
        } else if str_eq(sub, "burst_write") {
            if args.len() != 4 {
                return SpiStep::Reply(
                    String::from_str("Usage: spi <1|2> burst_write <address> <data_hex>\r\n"),
                );
            }
            assert(a[2] == args@[2]@ && a[3] == args@[3]@);
            let address = match self.parse_address(args[2]) {
                Ok(v) => v,
                Err(e) => {
                    return SpiStep::Reply(concat3("Error: ", e, "\r\n"));
                },
            };
            match self.parse_hex_data(args[3]) {
                Ok(data) => SpiStep::BurstWrite { bus, address, header: Self::header_of(address, false), data },
                Err(e) => SpiStep::Reply(concat3("Error: ", e, "\r\n")),
            }
        } else {
            SpiStep::Reply(String::from_str("Unknown subcommand\r\n"))
        }
    }

    /// What a write prints, given how many bytes were sent and whether the bus took them.
    pub fn write_report(&self, count: usize, result: Result<(), SpiFault>, cfg: &CliConfig) -> (r: String)
        requires
            count <= 256,
        ensures
            r@ == spi_write_report(SpiOp::Write, count as nat, result, cfg.short()),
    {
        match result {
            Ok(_) => {
                if cfg.is_short_output() {
                    String::from_str("OK\r\n")
                } else {
                    let digits = format_u32(count as u32);
                    concat3("Wrote ", digits.as_str(), " byte(s)\r\n")
                }
            },
            Err(f) => {
                if cfg.is_short_output() {
                    String::new()
                } else {
                    concat3("Error: ", spi_fault(SpiOp::Write, f), "\r\n")
                }
            },
        }
    }

    /// What a read, a transfer or a burst read prints, given the bytes received or the fault.
    pub fn read_report(&self, op: SpiOp, result: Result<Vec<u8>, SpiFault>, cfg: &CliConfig) -> (r: String)
        ensures
            r@ == spi_read_report(
                op,
                match result {
                    Ok(d) => Ok(d@),
                    Err(f) => Err(f),
                },
                cfg.short(),
            ),
    {
        match result {
            Ok(d) => {
                let list = format_hex_list(d.as_slice());
                concat(list.as_str(), "\r\n")
            },
            Err(f) => {
                if cfg.is_short_output() {
                    String::new()
                } else {
                    concat3("Error: ", spi_fault(op, f), "\r\n")
                }
            },
        }
    }

    /// What a burst write prints, given the address as typed, the byte count and the outcome.
    pub fn burst_write_report(&self, address: u32, count: usize, result: Result<(), SpiFault>, cfg: &CliConfig) -> (r: String)
        requires
            count <= 256,
        ensures
            r@ == spi_burst_write_report(address, count as nat, result, cfg.short()),
    {
        match result {
            Ok(_) => {
                if cfg.is_short_output() {
                    String::from_str("OK\r\n")
                } else {
                    let digits = format_u32(count as u32);
                    let hex = self.format_address(address);
                    let mut s = String::from_str("Wrote ");
                    s.append(digits.as_str());
                    s.append(" byte(s) to address ");
                    s.append(hex.as_str());
                    s.append("\r\n");
                    s
                }
            },
            Err(f) => {
                if cfg.is_short_output() {
                    String::new()
                } else {
                    concat3("Error: ", spi_fault(SpiOp::BurstWrite, f), "\r\n")
                }
            },
        }
    }
}

impl Command for SpiCommand {
    open spec fn command_name(&self) -> Seq<char> {
        "spi"@
    }

    open spec fn help_spec(&self) -> Seq<char> {
        "spi <1|2> <cmd> [args] - SPI bus operations\r\n"@
            + "\r\nCommands:\r\n"@
            + "  spi <1|2> config <speed> <mode> <bit_order>\r\n"@
            + "    - speed: Baud rate (e.g., \"1m\", \"5m\", \"10m\")\r\n"@
            + "    - mode: 0-3 (clock polarity/phase)\r\n"@
            + "    - bit_order: 0=MSB first, 1=LSB first\r\n"@
            + "  spi <1|2> write <data_hex>\r\n"@
            + "    - Write data only (hex format)\r\n"@
            + "  spi <1|2> read <byte_count>\r\n"@
            + "    - Read data only (sends dummy bytes)\r\n"@
            + "  spi <1|2> transfer <data_hex>\r\n"@
            + "    - Full-duplex transfer (simultaneous write/read)\r\n"@
            + "  spi <1|2> burst_read <address> <byte_count>\r\n"@
            + "    - Read sequential data from address\r\n"@
            + "  spi <1|2> burst_write <address> <data_hex>\r\n"@
            + "    - Write sequential data to address\r\n"@
            + "\r\nExamples:\r\n"@
            + "  spi 1 config 1m 0 0        - 1MHz, mode 0, MSB first\r\n"@
            + "  spi 1 write 0xAB 0xCD      - Write 2 bytes\r\n"@
            + "  spi 1 read 4               - Read 4 bytes\r\n"@
            + "  spi 1 transfer 0x0F 0x0D   - Write/read simultaneously\r\n"@
            + "  spi 1 burst_read 0x1000 256 - Read 256 bytes from 0x1000\r\n"@
            + "  spi 1 burst_write 0x1000 0xE4 - Write 0xE4 to 0x1000\r\n"@
    }

    fn name(&self) -> (r: &'static str) {
        "spi"
    }

    fn initialize(&mut self) -> (r: Result<(), &'static str>)
        ensures
            r is Ok,
            *final(self) == *old(self),
    {
        Ok(())
    }

    fn help_text(&self) -> (r: String) {
        let mut s = String::from_str("spi <1|2> <cmd> [args] - SPI bus operations\r\n");
        s.append("\r\nCommands:\r\n");
        s.append("  spi <1|2> config <speed> <mode> <bit_order>\r\n");
        s.append("    - speed: Baud rate (e.g., \"1m\", \"5m\", \"10m\")\r\n");
        s.append("    - mode: 0-3 (clock polarity/phase)\r\n");
        s.append("    - bit_order: 0=MSB first, 1=LSB first\r\n");
        s.append("  spi <1|2> write <data_hex>\r\n");
        s.append("    - Write data only (hex format)\r\n");
        s.append("  spi <1|2> read <byte_count>\r\n");
        s.append("    - Read data only (sends dummy bytes)\r\n");
        s.append("  spi <1|2> transfer <data_hex>\r\n");
        s.append("    - Full-duplex transfer (simultaneous write/read)\r\n");
        s.append("  spi <1|2> burst_read <address> <byte_count>\r\n");
        s.append("    - Read sequential data from address\r\n");
        s.append("  spi <1|2> burst_write <address> <data_hex>\r\n");
        s.append("    - Write sequential data to address\r\n");
        s.append("\r\nExamples:\r\n");
        s.append("  spi 1 config 1m 0 0        - 1MHz, mode 0, MSB first\r\n");
        s.append("  spi 1 write 0xAB 0xCD      - Write 2 bytes\r\n");
        s.append("  spi 1 read 4               - Read 4 bytes\r\n");
        s.append("  spi 1 transfer 0x0F 0x0D   - Write/read simultaneously\r\n");
        s.append("  spi 1 burst_read 0x1000 256 - Read 256 bytes from 0x1000\r\n");
        s.append("  spi 1 burst_write 0x1000 0xE4 - Write 0xE4 to 0x1000\r\n");
        s
    }
}

} // verus!
