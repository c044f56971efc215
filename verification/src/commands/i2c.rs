//! `i2c`: bus scans and register access on the two I2C buses.
use vstd::prelude::*;
use vstd::string::StringExecFns;
use crate::cli_config::CliConfig;
use crate::command::{words, Command};
use crate::text::{
    concat, concat3, format_hex_u8, format_u32, hex_u8_text, parse_hex_u8, parse_hex_u8_spec,
    parse_u32, parse_u32_spec, radix_text, str_eq,
};

verus! {

/// The two I2C buses.
#[derive(Clone, Copy)]
pub struct I2cCommand;

/// A failure of the hardware layer on a register access.
#[derive(PartialEq, Eq, Structural, Clone, Copy, Debug)]
pub enum I2cFault {
    /// The bus was never handed over.
    NotInitialized,
    /// Writing the register address before a read failed.
    AddressWriteFailed,
    /// Reading the register value failed.
    ReadFailed,
    /// Writing the register failed.
    WriteFailed,
}

/// The message for a register access fault.
pub open spec fn i2c_fault_text(f: I2cFault) -> Seq<char> {
    match f {
        I2cFault::NotInitialized => "I2C not initialized"@,
        I2cFault::AddressWriteFailed => "Failed to write register address"@,
        I2cFault::ReadFailed => "Failed to read register value"@,
        I2cFault::WriteFailed => "Failed to write register"@,
    }
}

fn i2c_fault(f: I2cFault) -> (r: &'static str)
    ensures
        r@ == i2c_fault_text(f),
{
    match f {
        I2cFault::NotInitialized => "I2C not initialized",
        I2cFault::AddressWriteFailed => "Failed to write register address",
        I2cFault::ReadFailed => "Failed to read register value",
        I2cFault::WriteFailed => "Failed to write register",
    }
}

/// A walk over addresses or registers that prints those that answer: each as `0xNN `,
/// a line break after every `per_line` of them, and a count at the end for long answers.
pub struct Sweep {
    pub next: u32,
    pub last: u32,
    pub found: u32,
    pub per_line: u32,
    pub short: bool,
    pub registers: bool,
}

impl Sweep {
    /// Positions still to probe stay within a byte, and the count within the positions probed.
    pub open spec fn wf(&self) -> bool {
        &&& self.next <= self.last + 1
        &&& self.last <= 0xFF
        &&& self.found <= self.next
        &&& self.per_line > 0
    }

    /// The next address or register to probe, when any is left.
    pub fn next_probe(&self) -> (r: Option<u8>)
        requires
            self.wf(),
        ensures
            self.next <= self.last ==> r == Some(self.next as u8),
            self.next > self.last ==> r is None,
    {
        if self.next <= self.last {
            Some(self.next as u8)
        } else {
            None
        }
    }

    /// Records whether the probed position answered, and returns what that prints.
    pub fn record(&mut self, answered: bool) -> (r: String)
        requires
            old(self).wf(),
            old(self).next <= old(self).last,
        ensures
            final(self).wf(),
            final(self).next == old(self).next + 1,
            final(self).last == old(self).last,
            final(self).per_line == old(self).per_line,
            final(self).short == old(self).short,
            final(self).registers == old(self).registers,
            !answered ==> final(self).found == old(self).found && r@ == Seq::<char>::empty(),
            answered ==> final(self).found == old(self).found + 1 && r@ == hex_u8_text(
                old(self).next as u8,
            ) + " "@ + (if (old(self).found + 1) % (old(self).per_line as int) == 0 {
                "\r\n"@
            } else {
                Seq::empty()
            }),
    {
        let pos = self.next as u8;
        self.next = self.next + 1;
        if !answered {
            return String::new();
        }
        self.found = self.found + 1;
        let mut s = format_hex_u8(pos);
        s.append(" ");
        if self.found % self.per_line == 0 {
            s.append("\r\n");
        }
        s
    }

    /// What follows the walk: a line break when the last line is open, and for long answers the count.
    pub fn finish(&self) -> (r: String)
        requires
            self.wf(),
        ensures
            r@ == (if self.found > 0 && self.found % self.per_line != 0 {
                "\r\n"@
            } else {
                Seq::empty()
            }) + (if self.short {
                Seq::empty()
            } else {
                "Found "@ + radix_text(self.found as nat, 10) + (if self.registers {
                    " readable register(s)\r\n"@
                } else {
                    " device(s)\r\n"@
                })
            }),
    {
        let mut s = String::new();
        if self.found > 0 && self.found % self.per_line != 0 {
            s.append("\r\n");
        }
        if !self.short {
            s.append("Found ");
            let digits = format_u32(self.found);
            s.append(digits.as_str());
            if self.registers {
                s.append(" readable register(s)\r\n");
            } else {
                s.append(" device(s)\r\n");
            }
        }
        s
    }
}

/// What an `i2c` command line asks of the hardware.
pub enum I2cStep {
    /// Print this text.
    Reply(String),
    /// Print `header`, then probe each address of `sweep` on the bus.
    Scan { bus: u8, header: String, sweep: Sweep },
    /// Read register `reg` of device `addr`, then print the report.
    ReadRegister { bus: u8, addr: u8, reg: u8 },
    /// Write `value` to register `reg` of device `addr`, then print the report.
    WriteRegister { bus: u8, addr: u8, reg: u8, value: u8 },
    /// Print `header`, then try to read each register of `sweep` from device `addr`.
    MapRegisters { bus: u8, addr: u8, header: String, sweep: Sweep },
}

/// An `i2c` step with its texts as characters.
pub enum I2cStepView {
    Reply(Seq<char>),
    Scan { bus: u8, header: Seq<char>, sweep: Sweep },
    ReadRegister { bus: u8, addr: u8, reg: u8 },
    WriteRegister { bus: u8, addr: u8, reg: u8, value: u8 },
    MapRegisters { bus: u8, addr: u8, header: Seq<char>, sweep: Sweep },
}

impl View for I2cStep {
    type V = I2cStepView;

    open spec fn view(&self) -> I2cStepView {
        match self {
            I2cStep::Reply(t) => I2cStepView::Reply(t@),
            I2cStep::Scan { bus, header, sweep } => I2cStepView::Scan {
                bus: *bus,
                header: header@,
                sweep: *sweep,
            },
            I2cStep::ReadRegister { bus, addr, reg } => I2cStepView::ReadRegister {
                bus: *bus,
                addr: *addr,
                reg: *reg,
            },
            I2cStep::WriteRegister { bus, addr, reg, value } => I2cStepView::WriteRegister {
                bus: *bus,
                addr: *addr,
                reg: *reg,
                value: *value,
            },
            I2cStep::MapRegisters { bus, addr, header, sweep } => I2cStepView::MapRegisters {
                bus: *bus,
                addr: *addr,
                header: header@,
                sweep: *sweep,
            },
        }
    }
}

/// The bus that `1` or `2` names.
pub open spec fn i2c_bus(w: Seq<char>) -> Option<u8> {
    if w == "1"@ {
        Some(1)
    } else if w == "2"@ {
        Some(2)
    } else {
        None
    }
}

/// `1` or `2` as text.
pub open spec fn bus_text(b: u8) -> Seq<char> {
    if b == 1 {
        "1"@
    } else {
        "2"@
    }
}

/// The header of a bus scan.
pub open spec fn scan_header(bus: u8, short: bool) -> Seq<char> {
    if short {
        Seq::empty()
    } else {
        "Scanning I2C"@ + bus_text(bus) + " bus...\r\n"@
    }
}

/// The header of a register map.
pub open spec fn map_header(addr: u8, short: bool) -> Seq<char> {
    if short {
        Seq::empty()
    } else {
        "Mapping registers for device "@ + hex_u8_text(addr) + "...\r\n"@ + "Readable registers:\r\n"@
    }
}

/// What `i2c` does with its arguments. Hex arguments may carry `0x`/`0X` prefixes.
pub open spec fn i2c_outcome(a: Seq<Seq<char>>, short: bool) -> I2cStepView {
    if a.len() < 2 {
        I2cStepView::Reply(
            "Usage: i2c <1|2> <speed|scan|read_reg|write_reg|map> [args]\r\n"@
                + "Type 'help i2c' for more information\r\n"@,
        )
    } else {
        match i2c_bus(a[0]) {
            None => I2cStepView::Reply("I2C number must be 1 or 2"@ + "\r\n"@),
            Some(b) => if a[1] == "speed"@ {
                if a.len() != 3 {
                    I2cStepView::Reply("Usage: i2c <1|2> speed <kHz>\r\n"@)
                } else {
                    match parse_u32_spec(a[2]) {
                        None => I2cStepView::Reply("Invalid speed value"@ + "\r\n"@),
                        Some(k) => I2cStepView::Reply(
                            if short {
                                "OK\r\n"@
                            } else {
                                "I2C"@ + bus_text(b) + " speed set to "@ + radix_text(k as nat, 10)
                                    + " kHz\r\n"@
                            },
                        ),
                    }
                }
            } else if a[1] == "scan"@ {
                if a.len() != 2 {
                    I2cStepView::Reply("Usage: i2c <1|2> scan\r\n"@)
                } else {
                    I2cStepView::Scan {
                        bus: b,
                        header: scan_header(b, short),
                        sweep: Sweep { next: 0x08, last: 0x77, found: 0, per_line: 8, short, registers: false },
                    }
                }
            } else if a[1] == "read_reg"@ || a[1] == "read"@ {
                if a.len() != 4 {
                    I2cStepView::Reply("Usage: i2c <1|2> read_reg <addr> <reg>\r\n"@)
                } else {
                    match parse_hex_u8_spec(a[2]) {
                        None => I2cStepView::Reply("Invalid hex value"@ + "\r\n"@),
                        Some(addr) => match parse_hex_u8_spec(a[3]) {
                            None => I2cStepView::Reply("Invalid hex value"@ + "\r\n"@),
                            Some(reg) => I2cStepView::ReadRegister { bus: b, addr, reg },
                        },
                    }
                }
            } else if a[1] == "write_reg"@ || a[1] == "write"@ {
                if a.len() != 5 {
                    I2cStepView::Reply("Usage: i2c <1|2> write_reg <addr> <reg> <value>\r\n"@)
                } else {
                    match parse_hex_u8_spec(a[2]) {
                        None => I2cStepView::Reply("Invalid hex value"@ + "\r\n"@),
                        Some(addr) => match parse_hex_u8_spec(a[3]) {
                            None => I2cStepView::Reply("Invalid hex value"@ + "\r\n"@),
                            Some(reg) => match parse_hex_u8_spec(a[4]) {
                                None => I2cStepView::Reply("Invalid hex value"@ + "\r\n"@),
                                Some(value) => I2cStepView::WriteRegister { bus: b, addr, reg, value },
                            },
                        },
                    }
                }
            } else if a[1] == "map"@ {
                if a.len() != 3 {
                    I2cStepView::Reply("Usage: i2c <1|2> map <addr>\r\n"@)
                } else {
                    match parse_hex_u8_spec(a[2]) {
                        None => I2cStepView::Reply("Invalid hex value"@ + "\r\n"@),
                        Some(addr) => I2cStepView::MapRegisters {
                            bus: b,
                            addr,
                            header: map_header(addr, short),
                            sweep: Sweep { next: 0x00, last: 0xFF, found: 0, per_line: 16, short, registers: true },
                        },
                    }
                }
            } else {
                I2cStepView::Reply("Unknown subcommand. Use: speed, scan, read_reg, write_reg, or map\r\n"@)
            },
        }
    }
}


/// `i2c <bus> scan` walks the bus named by its first word and probes exactly the addresses a
/// device may have, 0x08 through 0x77 (those below and above are reserved), each once in
/// rising order, starting with no device found; `i2c <bus> map <addr>` walks every register
/// 0x00 through 0xFF.
pub proof fn law_scan_probes_every_address(a: Seq<Seq<char>>, short: bool)
    requires
        a.len() >= 2,
        i2c_bus(a[0]) is Some,
    ensures
        a.len() == 2 && a[1] == "scan"@ ==> (i2c_outcome(a, short) matches I2cStepView::Scan { bus, sweep, .. }
            && bus == i2c_bus(a[0]).unwrap()
            && sweep.wf()
            && sweep.found == 0
            && !sweep.registers
            && sweep.next == 0x08 && sweep.last == 0x77
            && sweep.per_line == 8),
        a.len() == 3 && a[1] == "map"@ && parse_hex_u8_spec(a[2]) is Some ==> (i2c_outcome(a, short) matches I2cStepView::MapRegisters { bus, addr, sweep, .. }
            && bus == i2c_bus(a[0]).unwrap()
            && addr == parse_hex_u8_spec(a[2]).unwrap()
            && sweep.wf()
            && sweep.found == 0
            && sweep.registers
            && sweep.next == 0x00 && sweep.last == 0xFF),
{
    reveal_strlit("scan");
    reveal_strlit("map");
    reveal_strlit("speed");
    reveal_strlit("read_reg");
    reveal_strlit("read");
    reveal_strlit("write_reg");
    reveal_strlit("write");
    if a[1] == "scan"@ {
        assert(a[1] != "speed"@) by {
            assert(a[1][1] != "speed"@[1]);
        }
    }
    if a[1] == "map"@ {
        assert(a[1] != "speed"@ && a[1] != "scan"@ && a[1] != "read"@ && a[1] != "write"@) by {
            assert(a[1].len() == 3);
        }
        assert(a[1] != "read_reg"@ && a[1] != "write_reg"@) by {
            assert(a[1].len() == 3);
        }
    }
}

/// What a register read prints: the value in hex, or the fault for long answers.
pub open spec fn read_report_text(r: Result<u8, I2cFault>, short: bool) -> Seq<char> {
    match r {
        Ok(v) => hex_u8_text(v) + "\r\n"@,
        Err(f) => if short {
            Seq::empty()
        } else {
            "Error: "@ + i2c_fault_text(f) + "\r\n"@
        },
    }
}

/// What a register write prints.
pub open spec fn write_report_text(reg: u8, value: u8, r: Result<(), I2cFault>, short: bool) -> Seq<char> {
    match r {
        Ok(_) => if short {
            "OK\r\n"@
        } else {
            "Register "@ + hex_u8_text(reg) + " written with "@ + hex_u8_text(value) + "\r\n"@
        },
        Err(f) => if short {
            Seq::empty()
        } else {
            "Error: "@ + i2c_fault_text(f) + "\r\n"@
        },
    }
}


impl I2cCommand {
    pub fn new() -> Self {
        I2cCommand
    }

    /// Reads a hex byte argument.
    fn parse_hex(&self, arg: &str) -> (r: Result<u8, &'static str>)
        ensures
            match parse_hex_u8_spec(arg@) {
                Some(v) => r == Ok::<u8, &'static str>(v),
                None => r matches Err(e) && e@ == "Invalid hex value"@,
            },
    {
        match parse_hex_u8(arg) {
            Some(v) => Ok(v),
            None => Err("Invalid hex value"),
        }
    }

    /// Reads the bus number `1` or `2`.
    fn parse_i2c_num(&self, arg: &str) -> (r: Result<u8, &'static str>)
        ensures
            match i2c_bus(arg@) {
                Some(b) => r == Ok::<u8, &'static str>(b),
                None => r matches Err(e) && e@ == "I2C number must be 1 or 2"@,
            },
    {
        if str_eq(arg, "1") {
            Ok(1)
        } else if str_eq(arg, "2") {
            Ok(2)
        } else {
            Err("I2C number must be 1 or 2")
        }
    }

    /// Reads a speed in kHz.
    fn parse_speed(&self, arg: &str) -> (r: Result<u32, &'static str>)
        ensures
            match parse_u32_spec(arg@) {
                Some(v) => r == Ok::<u32, &'static str>(v),
                None => r matches Err(e) && e@ == "Invalid speed value"@,
            },
    {
        match parse_u32(arg) {
            Some(v) => Ok(v),
            None => Err("Invalid speed value"),
        }
    }

    /// A byte as `0x` and two upper-case hex digits.
    fn format_hex_u8(&self, n: u8) -> (r: String)
        ensures
            r@ == hex_u8_text(n),
    {
        format_hex_u8(n)
    }

    fn bus_str(bus: u8) -> (r: &'static str)
        ensures
            r@ == bus_text(bus),
    {
        if bus == 1 {
            "1"
        } else {
            "2"
        }
    }

    /// Acknowledges a speed; the bus clock itself is left as it is.
    fn set_speed(&self, bus: u8, speed_khz: u32, short: bool) -> (r: String)
        ensures
            r@ == (if short {
                "OK\r\n"@
            } else {
                "I2C"@ + bus_text(bus) + " speed set to "@ + radix_text(speed_khz as nat, 10) + " kHz\r\n"@
            }),
    {
        if short {
            String::from_str("OK\r\n")
        } else {
            let mut s = String::from_str("I2C");
            s.append(Self::bus_str(bus));
            s.append(" speed set to ");
            let digits = format_u32(speed_khz);
            s.append(digits.as_str());
            s.append(" kHz\r\n");
            s
        }
    }

    /// What `i2c` does with its arguments.
    pub fn execute(&mut self, args: &[&str], cfg: &CliConfig) -> (r: I2cStep)
        ensures
            r@ == i2c_outcome(words(args), cfg.short()),
    {
        let ghost a = words(args);
        let short = cfg.is_short_output();
        if args.len() < 2 {
            return I2cStep::Reply(
                concat(
                    "Usage: i2c <1|2> <speed|scan|read_reg|write_reg|map> [args]\r\n",
                    "Type 'help i2c' for more information\r\n",
                ),
            );
        }
        assert(a[0] == args@[0]@ && a[1] == args@[1]@);
        let bus = match self.parse_i2c_num(args[0]) {
            Ok(b) => b,
            Err(e) => {
                return I2cStep::Reply(concat(e, "\r\n"));
            },
        };
        let sub = args[1];
        if str_eq(sub, "speed") {
            if args.len() != 3 {
                return I2cStep::Reply(String::from_str("Usage: i2c <1|2> speed <kHz>\r\n"));
            }
            assert(a[2] == args@[2]@);
            match self.parse_speed(args[2]) {
                Ok(k) => I2cStep::Reply(self.set_speed(bus, k, short)),
                Err(e) => I2cStep::Reply(concat(e, "\r\n")),
            }
        } else if str_eq(sub, "scan") {
            if args.len() != 2 {
                return I2cStep::Reply(String::from_str("Usage: i2c <1|2> scan\r\n"));
            }
            let header = if short {
                String::new()
            } else {
                concat3("Scanning I2C", Self::bus_str(bus), " bus...\r\n")
            };
            I2cStep::Scan {
                bus,
                header,
                sweep: Sweep { next: 0x08, last: 0x77, found: 0, per_line: 8, short, registers: false },
            }
        } else if str_eq(sub, "read_reg") || str_eq(sub, "read") {
            if args.len() != 4 {
                return I2cStep::Reply(String::from_str("Usage: i2c <1|2> read_reg <addr> <reg>\r\n"));
            }
            assert(a[2] == args@[2]@ && a[3] == args@[3]@);
            let addr = match self.parse_hex(args[2]) {
                Ok(v) => v,
                Err(e) => {
                    return I2cStep::Reply(concat(e, "\r\n"));
                },
            };
            let reg = match self.parse_hex(args[3]) {
                Ok(v) => v,
                Err(e) => {
                    return I2cStep::Reply(concat(e, "\r\n"));
                },
            };
            I2cStep::ReadRegister { bus, addr, reg }
        } else if str_eq(sub, "write_reg") || str_eq(sub, "write") {
            if args.len() != 5 {
                return I2cStep::Reply(
                    String::from_str("Usage: i2c <1|2> write_reg <addr> <reg> <value>\r\n"),
                );
            }
            assert(a[2] == args@[2]@ && a[3] == args@[3]@ && a[4] == args@[4]@);
            let addr = match self.parse_hex(args[2]) {
                Ok(v) => v,
                Err(e) => {
                    return I2cStep::Reply(concat(e, "\r\n"));
                },
            };
            let reg = match self.parse_hex(args[3]) {
                Ok(v) => v,
                Err(e) => {
                    return I2cStep::Reply(concat(e, "\r\n"));
                },
            };
            let value = match self.parse_hex(args[4]) {
                Ok(v) => v,
                Err(e) => {
                    return I2cStep::Reply(concat(e, "\r\n"));
                },
            };
            I2cStep::WriteRegister { bus, addr, reg, value }
        } else if str_eq(sub, "map") {
            if args.len() != 3 {
                return I2cStep::Reply(String::from_str("Usage: i2c <1|2> map <addr>\r\n"));
            }
            assert(a[2] == args@[2]@);
            let addr = match self.parse_hex(args[2]) {
                Ok(v) => v,
                Err(e) => {
                    return I2cStep::Reply(concat(e, "\r\n"));
                },
            };
            let header = if short {
                String::new()
            } else {
                let hex = self.format_hex_u8(addr);
                let mut s = String::from_str("Mapping registers for device ");
                s.append(hex.as_str());
                s.append("...\r\n");
                s.append("Readable registers:\r\n");
                s
            };
            I2cStep::MapRegisters {
                bus,
                addr,
                header,
                sweep: Sweep { next: 0x00, last: 0xFF, found: 0, per_line: 16, short, registers: true },
            }
        } else {
            I2cStep::Reply(
                String::from_str("Unknown subcommand. Use: speed, scan, read_reg, write_reg, or map\r\n"),
            )
        }
    }

    /// What a register read prints, given the value read or the fault.
    pub fn read_register(&self, result: Result<u8, I2cFault>, cfg: &CliConfig) -> (r: String)
        ensures
            r@ == read_report_text(result, cfg.short()),
    {
        match result {
            Ok(v) => {
                let hex = self.format_hex_u8(v);
                concat(hex.as_str(), "\r\n")
            },
            Err(f) => {
                if cfg.is_short_output() {
                    String::new()
                } else {
                    concat3("Error: ", i2c_fault(f), "\r\n")
                }
            },
        }
    }

    /// What a register write prints, given whether it succeeded.
    pub fn write_register(&self, reg: u8, value: u8, result: Result<(), I2cFault>, cfg: &CliConfig) -> (r: String)
        ensures
            r@ == write_report_text(reg, value, result, cfg.short()),
    {
        match result {
            Ok(_) => {
                if cfg.is_short_output() {
                    String::from_str("OK\r\n")
                } else {
                    let r_hex = self.format_hex_u8(reg);
                    let v_hex = self.format_hex_u8(value);
                    let mut s = String::from_str("Register ");
                    s.append(r_hex.as_str());
                    s.append(" written with ");
                    s.append(v_hex.as_str());
                    s.append("\r\n");
                    s
                }
            },
            Err(f) => {
                if cfg.is_short_output() {
                    String::new()
                } else {
                    concat3("Error: ", i2c_fault(f), "\r\n")
                }
            },
        }
    }
}

impl Command for I2cCommand {
    open spec fn command_name(&self) -> Seq<char> {
        "i2c"@
    }

    open spec fn help_spec(&self) -> Seq<char> {
        "i2c <1|2> <cmd> [args] - I2C bus operations\r\n"@ + "\r\nCommands:\r\n"@
            + "  i2c <1|2> speed <kHz>          - Set I2C speed (e.g., 100, 400)\r\n"@
            + "  i2c <1|2> scan                 - Scan bus for devices\r\n"@
            + "  i2c <1|2> read_reg <adr> <reg> - Read register value (hex)\r\n"@
            + "  i2c <1|2> write_reg <adr> <reg> <val> - Write to register\r\n"@
            + "  i2c <1|2> map <adr>            - Map all readable registers\r\n"@
            + "\r\nExamples:\r\n"@ + "  i2c 1 speed 400                - Set I2C1 to 400 kHz\r\n"@
            + "  i2c 1 scan                     - Scan I2C1 bus\r\n"@
            + "  i2c 1 read_reg 0x50 0x00       - Read reg 0x00 from device 0x50\r\n"@
            + "  i2c 1 write_reg 0x50 0x00 0xFF - Write 0xFF to reg 0x00\r\n"@
            + "  i2c 1 map 0x50                 - Map all registers of device 0x50\r\n"@
            + "\r\nNote: Addresses and register values are in hexadecimal\r\n"@
    }

    fn name(&self) -> (r: &'static str) {
        "i2c"
    }

    fn initialize(&mut self) -> (r: Result<(), &'static str>)
        ensures
            r is Ok,
            *final(self) == *old(self),
    {
        Ok(())
    }

    fn help_text(&self) -> (r: String) {
        let mut s = String::from_str("i2c <1|2> <cmd> [args] - I2C bus operations\r\n");
        s.append("\r\nCommands:\r\n");
        s.append("  i2c <1|2> speed <kHz>          - Set I2C speed (e.g., 100, 400)\r\n");
        s.append("  i2c <1|2> scan                 - Scan bus for devices\r\n");
        s.append("  i2c <1|2> read_reg <adr> <reg> - Read register value (hex)\r\n");
        s.append("  i2c <1|2> write_reg <adr> <reg> <val> - Write to register\r\n");
        s.append("  i2c <1|2> map <adr>            - Map all readable registers\r\n");
        s.append("\r\nExamples:\r\n");
        s.append("  i2c 1 speed 400                - Set I2C1 to 400 kHz\r\n");
        s.append("  i2c 1 scan                     - Scan I2C1 bus\r\n");
        s.append("  i2c 1 read_reg 0x50 0x00       - Read reg 0x00 from device 0x50\r\n");
        s.append("  i2c 1 write_reg 0x50 0x00 0xFF - Write 0xFF to reg 0x00\r\n");
        s.append("  i2c 1 map 0x50                 - Map all registers of device 0x50\r\n");
        s.append("\r\nNote: Addresses and register values are in hexadecimal\r\n");
        s
    }
}

} // verus!
