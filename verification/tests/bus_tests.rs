use universal_interface_adapter::cli_config::{AnswerLength, CliConfig};
use universal_interface_adapter::command::Command;
use universal_interface_adapter::commands::analog::{AdcAmp, AnalogCommand, AnalogStep, DacAmp};
use universal_interface_adapter::commands::can::{CanCommand, CanFault, CanStep};
use universal_interface_adapter::commands::i2c::{I2cCommand, I2cFault, I2cStep, Sweep};
use universal_interface_adapter::commands::rs232::Rs232Command;
use universal_interface_adapter::command::join_words;
use universal_interface_adapter::commands::serial_port::{
    passthrough_key, Parity, PassKey, SerialLine, SerialSettings, SerialStep, StopBits,
};
use universal_interface_adapter::commands::spi::{
    Phase, Polarity, SpiCommand, SpiFault, SpiMode, SpiOp, SpiStep,
};
use universal_interface_adapter::commands::uart::UartCommand;

fn long() -> CliConfig {
    let mut c = CliConfig::new();
    c.set_colored_output(false);
    c
}

fn short() -> CliConfig {
    let mut c = long();
    c.set_answer_length(AnswerLength::Short);
    c
}

fn serial_reply(s: SerialStep) -> String {
    match s {
        SerialStep::Reply(t) => t,
        _ => panic!("expected a reply"),
    }
}

fn configure(s: SerialStep) -> (SerialLine, SerialSettings, String) {
    match s {
        SerialStep::Configure { line, settings, reply } => (line, settings, reply),
        _ => panic!("expected new settings"),
    }
}

fn spi_reply(s: SpiStep) -> String {
    match s {
        SpiStep::Reply(t) => t,
        _ => panic!("expected a reply"),
    }
}

fn can_reply(s: CanStep) -> String {
    match s {
        CanStep::Reply(t) => t,
        _ => panic!("expected a reply"),
    }
}

fn analog_reply(s: AnalogStep) -> String {
    match s {
        AnalogStep::Reply(t) => t,
        _ => panic!("expected a reply"),
    }
}

fn i2c_reply(s: I2cStep) -> String {
    match s {
        I2cStep::Reply(t) => t,
        _ => panic!("expected a reply"),
    }
}

#[test]
fn uart_settings_are_stored() {
    let mut u = UartCommand::new();
    assert_eq!(u.uart1.baud_rate, 9600);
    let (line, settings, reply) = configure(u.execute(&["1", "baud", "115200"], &long()));
    assert_eq!(line, SerialLine::Uart1);
    assert_eq!(settings.baud_rate, 115200);
    assert_eq!(reply, "UART1 baud rate set to 115200\r\n");
    assert_eq!(u.uart1.baud_rate, 115200);
    assert_eq!(u.uart2.baud_rate, 9600);
    let (line, settings, reply) = configure(u.execute(&["2", "parity", "1"], &long()));
    assert_eq!((line, settings.parity, settings.baud_rate), (SerialLine::Uart2, Parity::ParityEven, 9600));
    assert_eq!(reply, "UART2 parity set to even\r\n");
    assert_eq!(u.uart2.parity, Parity::ParityEven);
    let (line, settings, reply) = configure(u.execute(&["2", "stop_bit", "2"], &short()));
    assert_eq!((line, settings.stop_bits, reply.as_str()), (SerialLine::Uart2, StopBits::Stop2, "OK\r\n"));
    assert_eq!(u.uart2.stop_bits, StopBits::Stop2);
    assert_eq!(
        serial_reply(u.execute(&["1", "parity", "3"], &long())),
        "Error: Parity must be 0 (none), 1 (even), or 2 (odd)\r\n"
    );
    assert_eq!(serial_reply(u.execute(&["1", "stop_bit", "3"], &long())), "Error: Stop bits must be 1 or 2\r\n");
    assert_eq!(serial_reply(u.execute(&["1", "baud", "fast"], &long())), "Invalid integer value\r\n");
    assert_eq!(serial_reply(u.execute(&["3", "baud", "9600"], &long())), "UART number must be 1 or 2\r\n");
    assert_eq!(
        serial_reply(u.execute(&["1", "loop"], &long())),
        "Unknown subcommand: loop\r\nAvailable: stop_bit, parity, baud, write, passthrough\r\n"
    );
}

#[test]
fn uart_write_and_passthrough() {
    let mut u = UartCommand::new();
    match u.execute(&["1", "write", "hello", "world"], &long()) {
        SerialStep::Transmit { line, data, reply } => {
            assert_eq!(line, SerialLine::Uart1);
            assert_eq!(data, "hello world");
            assert_eq!(reply, "Sent to UART1\r\n");
        },
        _ => panic!("expected a transmission"),
    }
    match u.execute(&["2", "passthrough"], &long()) {
        SerialStep::Passthrough { line, banner } => {
            assert_eq!(line, SerialLine::Uart2);
            assert_eq!(banner, "UART2 passthrough mode. Press ESC to exit\r\n");
        },
        _ => panic!("expected passthrough"),
    }
    assert!(matches!(passthrough_key(b'a'), PassKey::Forward(b'a')));
    assert!(matches!(passthrough_key(0x1B), PassKey::Exit(ref t) if t == "\r\nExiting passthrough mode\r\n"));
    assert_eq!(join_words(&["a", "b", "c"]), "a b c");
}

#[test]
fn rs232_settings_and_write() {
    let mut r = Rs232Command::new();
    let (line, settings, reply) = configure(r.execute(&["baud", "19200"], &long()));
    assert_eq!((line, settings.baud_rate), (SerialLine::Rs232, 19200));
    assert_eq!(reply, "RS232 baud rate set to 19200\r\n");
    assert_eq!(configure(r.execute(&["parity", "0"], &long())).2, "RS232 parity set to none\r\n");
    assert_eq!(serial_reply(r.execute(&["stop_bit", "0"], &long())), "Error: Stop bits must be 1 or 2\r\n");
    match r.execute(&["write", "AT"], &short()) {
        SerialStep::Transmit { line, data, reply } => {
            assert_eq!(line, SerialLine::Rs232);
            assert_eq!(data, "AT");
            assert_eq!(reply, "OK\r\n");
        },
        _ => panic!("expected a transmission"),
    }
    assert_eq!(serial_reply(r.execute(&["write"], &long())), "Usage: rs232 write <text>\r\n");
    assert_eq!(r.name(), "rs232");
}

#[test]
fn analog_conversions() {
    let a = AnalogCommand::new();
    assert_eq!(a.adc_to_mv(4095, AdcAmp::R10K), 6600);
    assert_eq!(a.adc_to_mv(2048, AdcAmp::R10K), 3300);
    assert_eq!(a.adc_to_mv(2048, AdcAmp::R1_5K), 12650);
    assert_eq!(a.adc_to_mv(0, AdcAmp::R3_3K), 0);
    assert_eq!(a.mv_to_dac(1650, DacAmp::R0), 2047);
    assert_eq!(a.mv_to_dac(4000, DacAmp::R30K), 1240);
    assert_eq!(a.mv_to_dac(9999, DacAmp::R0), 4095);
}

#[test]
fn analog_steps_and_reports() {
    let mut a = AnalogCommand::new();
    assert!(matches!(a.execute(&["in", "2"], &long()), AnalogStep::Read { channel: 2 }));
    assert_eq!(a.read_adc(1, Some(4095), &long()), "ADC1 value: 4095\r\n");
    assert_eq!(a.read_adc(1, Some(4095), &short()), "4095\r\n");
    assert_eq!(a.read_adc(1, None, &long()), "Error: Failed to read ADC\r\n");
    assert_eq!(
        analog_reply(a.execute(&["in", "set_amp", "1", "1.5k"], &long())),
        "ADC1 amplification set to 1.5k\r\n"
    );
    assert_eq!(a.adc1_amp, AdcAmp::R1_5K);
    assert_eq!(a.set_format("mv", &long()), "Analog format set to millivolts\r\n");
    assert_eq!(a.read_adc(1, Some(2048), &long()), "ADC1: 12650 mV\r\n");
    assert_eq!(a.continuous_sample(2, Some(2048)), "3300 mV\r\n");
    assert_eq!(a.continuous_sample(2, None), "");
    assert_eq!(a.continuous_key(0x1B), Some(String::from("\r\nExiting continuous mode\r\n")));
    assert_eq!(a.continuous_key(b'x'), None);
    match a.execute(&["out", "value", "2048"], &long()) {
        AnalogStep::Output { value, reply } => {
            assert_eq!(value, 2048);
            assert_eq!(reply, "DAC value set to 2048\r\n");
        },
        _ => panic!("expected a DAC output"),
    }
    assert_eq!(analog_reply(a.execute(&["out", "value", "4096"], &long())), "Error: Value must be 0-4095 (12-bit)\r\n");
    assert_eq!(
        analog_reply(a.execute(&["out", "set_amp", "20k"], &long())),
        "Error: Invalid resistor value. Use 30k, 15k, or 0\r\n"
    );
    assert_eq!(analog_reply(a.execute(&["sideways"], &long())), "Unknown subcommand. Use: in or out\r\n");
    match a.execute(&["in", "continuous", "1"], &long()) {
        AnalogStep::Continuous { channel, banner } => {
            assert_eq!(channel, 1);
            assert_eq!(banner, "Continuous ADC1 reading. Press ESC to exit\r\n");
        },
        _ => panic!("expected continuous mode"),
    }
}

#[test]
fn i2c_scan_sweep() {
    let mut i = I2cCommand::new();
    let mut sweep = match i.execute(&["1", "scan"], &long()) {
        I2cStep::Scan { bus, header, sweep } => {
            assert_eq!(bus, 1);
            assert_eq!(header, "Scanning I2C1 bus...\r\n");
            sweep
        },
        _ => panic!("expected a scan"),
    };
    let mut out = String::new();
    while let Some(addr) = sweep.next_probe() {
        out.push_str(&sweep.record(addr == 0x3C || addr == 0x50));
    }
    out.push_str(&sweep.finish());
    assert_eq!(out, "0x3C 0x50 \r\nFound 2 device(s)\r\n");
}

#[test]
fn i2c_sweep_breaks_lines() {
    let mut s = Sweep { next: 0, last: 0xFF, found: 0, per_line: 16, short: true, registers: true };
    let mut out = String::new();
    while let Some(r) = s.next_probe() {
        out.push_str(&s.record(r < 17));
    }
    out.push_str(&s.finish());
    assert!(out.starts_with("0x00 0x01 "));
    assert!(out.contains("0x0F \r\n0x10 \r\n"));
    assert!(out.ends_with("0x10 \r\n"));
}

#[test]
fn i2c_registers_and_errors() {
    let mut i = I2cCommand::new();
    assert!(matches!(
        i.execute(&["2", "read_reg", "0x50", "0x01"], &long()),
        I2cStep::ReadRegister { bus: 2, addr: 0x50, reg: 0x01 }
    ));
    assert!(matches!(
        i.execute(&["1", "write", "50", "00", "FF"], &long()),
        I2cStep::WriteRegister { bus: 1, addr: 0x50, reg: 0x00, value: 0xFF }
    ));
    assert_eq!(i2c_reply(i.execute(&["1", "read_reg", "zz", "0"], &long())), "Invalid hex value\r\n");
    assert_eq!(i2c_reply(i.execute(&["3", "scan"], &long())), "I2C number must be 1 or 2\r\n");
    assert_eq!(i2c_reply(i.execute(&["1", "speed", "400"], &long())), "I2C1 speed set to 400 kHz\r\n");
    assert_eq!(i.read_register(Ok(0x2A), &long()), "0x2A\r\n");
    assert_eq!(i.read_register(Err(I2cFault::ReadFailed), &long()), "Error: Failed to read register value\r\n");
    assert_eq!(i.read_register(Err(I2cFault::ReadFailed), &short()), "");
    assert_eq!(i.write_register(0x00, 0xFF, Ok(()), &long()), "Register 0x00 written with 0xFF\r\n");
    assert_eq!(i.write_register(0x00, 0xFF, Err(I2cFault::NotInitialized), &long()), "Error: I2C not initialized\r\n");
}

#[test]
fn spi_config_is_stored() {
    let mut s = SpiCommand::new();
    assert!(s.spi1.msb_first);
    assert_eq!(spi_reply(s.execute(&["2", "config", "1m", "3", "1"], &long())), "SPI2 configured\r\n");
    assert_eq!(s.spi2.mode, SpiMode { polarity: Polarity::IdleHigh, phase: Phase::CaptureOnSecondTransition });
    assert!(!s.spi2.msb_first);
    assert_eq!(s.spi1.mode, SpiMode { polarity: Polarity::IdleLow, phase: Phase::CaptureOnFirstTransition });
    assert_eq!(spi_reply(s.execute(&["1", "config", "fast", "0", "0"], &long())), "Error: Invalid speed format\r\n");
    assert_eq!(spi_reply(s.execute(&["1", "config", "1m", "4", "0"], &long())), "Error: Mode must be 0-3\r\n");
    assert_eq!(
        spi_reply(s.execute(&["1", "config", "1m", "0", "2"], &long())),
        "Error: Bit order must be 0 (MSB) or 1 (LSB)\r\n"
    );
    assert_eq!(spi_reply(s.execute(&["1", "config", "500k", "1", "0"], &short())), "OK\r\n");
    assert_eq!(s.spi1.mode.phase, Phase::CaptureOnSecondTransition);
}

#[test]
fn spi_transfers() {
    let mut s = SpiCommand::new();
    match s.execute(&["1", "write", "0xABCD"], &long()) {
        SpiStep::Write { bus, data } => {
            assert_eq!(bus, 1);
            assert_eq!(data, vec![0xAB, 0xCD]);
        },
        _ => panic!("expected a write"),
    }
    assert!(matches!(s.execute(&["2", "read", "4"], &long()), SpiStep::Read { bus: 2, count: 4 }));
    assert_eq!(spi_reply(s.execute(&["2", "read", "257"], &long())), "Error: Max 256 bytes\r\n");
    assert_eq!(spi_reply(s.execute(&["2", "read", "x"], &long())), "Invalid integer value\r\n");
    assert!(matches!(
        s.execute(&["1", "burst_read", "0x10", "2"], &long()),
        SpiStep::BurstRead { bus: 1, address: 0x10, ref header, count: 2 } if header == &vec![0x90]
    ));
    assert!(matches!(
        s.execute(&["1", "burst_read", "0x1000", "256"], &long()),
        SpiStep::BurstRead { bus: 1, address: 0x1000, ref header, count: 256 } if header == &vec![0x90, 0x00]
    ));
    match s.execute(&["2", "burst_write", "0x1000", "0xE4"], &long()) {
        SpiStep::BurstWrite { bus, address, header, data } => {
            assert_eq!((bus, address), (2, 0x1000));
            assert_eq!(header, vec![0x10, 0x00]);
            assert_eq!(data, vec![0xE4]);
        },
        _ => panic!("expected a burst write"),
    }
    match s.execute(&["1", "burst_write", "0x90", "E4"], &long()) {
        SpiStep::BurstWrite { bus, address, header, data } => {
            assert_eq!((bus, address), (1, 0x90));
            assert_eq!(header, vec![0x10]);
            assert_eq!(data, vec![0xE4]);
        },
        _ => panic!("expected a burst write"),
    }
    assert_eq!(spi_reply(s.execute(&["1", "write", "€A"], &long())), "Error: Invalid hex data\r\n");
    assert_eq!(spi_reply(s.execute(&["1", "write", "AB€A"], &long())), "Error: Invalid hex data\r\n");
    assert_eq!(spi_reply(s.execute(&["1", "write", "ABC"], &long())), "Error: Hex data must have even number of digits\r\n");
    assert_eq!(spi_reply(s.execute(&["1", "burst_write", "zz", "E4"], &long())), "Error: Invalid hex byte\r\n");
    assert_eq!(spi_reply(s.execute(&["3", "read", "1"], &long())), "SPI number must be 1 or 2\r\n");
    assert_eq!(spi_reply(s.execute(&["1", "erase"], &long())), "Unknown subcommand\r\n");
}

#[test]
fn spi_reports() {
    let s = SpiCommand::new();
    assert_eq!(s.write_report(2, Ok(()), &long()), "Wrote 2 byte(s)\r\n");
    assert_eq!(s.write_report(2, Ok(()), &short()), "OK\r\n");
    assert_eq!(s.write_report(2, Err(SpiFault::Failed), &long()), "Error: Write failed\r\n");
    assert_eq!(s.write_report(2, Err(SpiFault::NotInitialized), &short()), "");
    assert_eq!(s.read_report(SpiOp::Read, Ok(vec![0x01, 0xFF]), &short()), "0x01 0xFF\r\n");
    assert_eq!(s.read_report(SpiOp::Transfer, Err(SpiFault::Failed), &long()), "Error: Transfer failed\r\n");
    assert_eq!(s.read_report(SpiOp::BurstRead, Err(SpiFault::NotInitialized), &long()), "Error: SPI not initialized\r\n");
    assert_eq!(s.burst_write_report(0x90, 1, Ok(()), &long()), "Wrote 1 byte(s) to address 0x90\r\n");
    assert_eq!(s.burst_write_report(0x1000, 1, Ok(()), &long()), "Wrote 1 byte(s) to address 0x1000\r\n");
    assert_eq!(s.burst_write_report(0x0A, 1, Ok(()), &long()), "Wrote 1 byte(s) to address 0x0A\r\n");
    assert_eq!(s.burst_write_report(0x90, 1, Err(SpiFault::Failed), &long()), "Error: Burst write failed\r\n");
}

#[test]
fn can_config_then_status() {
    let mut c = CanCommand::new();
    assert_eq!(
        can_reply(c.execute(&["status"], &long())),
        "CAN Status:\r\n  Bitrate: 500000 bps\r\n  Mode: Normal\r\n"
    );
    match c.execute(&["config", "250k", "1"], &long()) {
        CanStep::Configure { bitrate, mode, reply } => {
            assert_eq!((bitrate, mode), (250_000, 1));
            assert_eq!(reply, "CAN configured: 250k mode 1\r\n");
        },
        _ => panic!("expected new bus settings"),
    }
    assert_eq!(can_reply(c.execute(&["read", "x", "1"], &long())), "Invalid integer value\r\n");
    assert_eq!(c.state.bitrate, 250_000);
    assert_eq!(
        can_reply(c.execute(&["status"], &short())),
        "CAN Status:\r\n  Bitrate: 250000 bps\r\n  Mode: Loopback\r\n"
    );
    assert_eq!(can_reply(c.execute(&["config", "1m", "4"], &long())), "Error: Mode must be 0-3\r\n");
    assert_eq!(can_reply(c.execute(&["config", "fast", "0"], &long())), "Error: Invalid bitrate format\r\n");
    assert_eq!(can_reply(c.execute(&["config", "5000m", "0"], &long())), "Error: Invalid bitrate format\r\n");
    assert_eq!(c.state.bitrate, 250_000);
    assert!(matches!(c.execute(&["config", "1m", "3"], &short()), CanStep::Configure { bitrate: 1_000_000, mode: 3, ref reply } if reply == "OK\r\n"));
    assert_eq!(
        can_reply(c.execute(&["status"], &long())),
        "CAN Status:\r\n  Bitrate: 1000000 bps\r\n  Mode: Silent-Loopback\r\n"
    );
}

#[test]
fn can_send_parsing() {
    let mut c = CanCommand::new();
    match c.execute(&["send", "0x123", "0xAA", "0xBB", "0xCC", "0"], &long()) {
        CanStep::Send { id, data, flags } => {
            assert_eq!(id, 0x123);
            assert_eq!(data, vec![0xAA, 0xBB, 0xCC]);
            assert_eq!(flags, 0);
        },
        _ => panic!("expected a frame"),
    }
    match c.execute(&["send", "7FF", "01", "258"], &long()) {
        CanStep::Send { flags, .. } => assert_eq!(flags, 2),
        _ => panic!("expected a frame"),
    }
    assert_eq!(can_reply(c.execute(&["send", "0x123"], &long())), "Usage: can send <id> <data...> <flags>\r\n");
    match c.execute(&["send", "0x123", "2"], &long()) {
        CanStep::Send { id, data, flags } => {
            assert_eq!((id, flags), (0x123, 2));
            assert!(data.is_empty());
        },
        _ => panic!("expected a remote frame"),
    }
    assert_eq!(can_reply(c.execute(&["send", "xyz", "1", "0"], &long())), "Invalid hex ID\r\n");
    assert_eq!(can_reply(c.execute(&["send", "1", "1", "f"], &long())), "Invalid integer value\r\n");
    assert_eq!(can_reply(c.execute(&["send", "1", "1", "zz", "0"], &long())), "Invalid hex byte\r\n");
    assert_eq!(
        can_reply(c.execute(&["send", "1", "1", "2", "3", "4", "5", "6", "7", "8", "9", "0"], &long())),
        "Too many data bytes (max 8)\r\n"
    );
}

#[test]
fn can_read_and_filters() {
    let mut c = CanCommand::new();
    assert!(matches!(c.execute(&["read", "1", "100"], &long()), CanStep::Read { count: 1, timeout: 100 }));
    assert!(matches!(
        c.execute(&["filter", "0", "0x100", "0x7F0"], &long()),
        CanStep::Filter { filter_id: 0, id: 0x100, mask: 0x7F0 }
    ));
    assert_eq!(can_reply(c.execute(&["filter", "14", "1", "1"], &long())), "Error: Filter ID must be 0-13\r\n");
    assert!(matches!(c.execute(&["filter_disable", "13"], &long()), CanStep::DisableFilter { filter_id: 13 }));
    assert_eq!(can_reply(c.execute(&["filter_disable", "20"], &long())), "Error: Filter ID must be 0-13\r\n");
    assert_eq!(can_reply(c.execute(&["status", "x"], &long())), "Usage: can status\r\n");
    assert_eq!(can_reply(c.execute(&["reboot"], &long())), "Unknown subcommand\r\n");
    assert_eq!(can_reply(c.execute(&[], &long())), "Usage: can <config|send|read|filter|filter_disable|status> [args]\r\nType 'help can' for more information\r\n");
}

#[test]
fn can_reports() {
    let c = CanCommand::new();
    assert_eq!(c.send_report(0x123, Ok(()), &long()), "Frame sent: ID 0x123\r\n");
    assert_eq!(c.send_report(0x123, Ok(()), &short()), "OK\r\n");
    assert_eq!(c.send_report(0x123, Err(CanFault::NotInitialized), &long()), "Error: CAN not initialized\r\n");
    assert_eq!(c.send_report(0x123, Err(CanFault::NotInitialized), &short()), "");
    assert_eq!(c.read_report(Ok(0), &long()), "Read 0 frame(s)\r\n");
    assert_eq!(c.read_report(Ok(0), &short()), "");
    assert_eq!(c.filter_report(0, 0x100, 0x7F0, Ok(()), &long()), "Filter 0 set: ID 0x100 mask 0x7F0\r\n");
    assert_eq!(c.disable_report(5, Ok(()), &long()), "Filter 5 disabled\r\n");
    assert_eq!(c.name(), "can");
    assert!(c.help_text().starts_with("can <cmd> [args] - CAN bus operations\r\n"));
}
