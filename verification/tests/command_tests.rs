use universal_interface_adapter::cli_config::{AnswerLength, CliConfig};
use universal_interface_adapter::command::{Command, Fault, PinMode, Request, Step};
use universal_interface_adapter::commands::gpios::GpioModes;
use universal_interface_adapter::commands::{
    ClearCommand, EchoCommand, GpioCommand, IsolatedInputCommand, LedCommand, MosfetCommand,
    RelayCommand, SetupCommand,
};

fn long() -> CliConfig {
    let mut c = CliConfig::new();
    c.set_colored_output(false);
    c
}

fn short() -> CliConfig {
    let mut c = long();
    c.set_answer_length(AnswerLength::Short);
    c
}

fn text(step: Step) -> String {
    match step {
        Step::Reply(t) => t,
        Step::Perform(_) => panic!("expected a reply"),
    }
}

fn request(step: Step) -> Request {
    match step {
        Step::Perform(r) => r,
        Step::Reply(t) => panic!("expected a request, got {}", t),
    }
}

#[test]
fn echo_long_short_and_empty() {
    let mut e = EchoCommand::new();
    assert_eq!(e.execute(&["hello", "world"], &long()), "Echo output: hello world\r\n");
    assert_eq!(e.execute(&["hello", "world"], &short()), "hello world\r\n");
    assert_eq!(
        e.execute(&[], &long()),
        "No message provided. Type 'help echo' for more options.\r\n"
    );
    assert_eq!(e.name(), "echo");
    assert_eq!(e.help_text(), "echo <text>     - Echo back the provided text\r\n");
}

#[test]
fn clear_screen() {
    let mut c = ClearCommand::new();
    assert_eq!(c.execute(&[]), "\x1b[2J\x1b[H");
    assert_eq!(c.execute(&["now"]), "\x1b[2J\x1b[HScreen cleared!\r\n");
}

#[test]
fn setup_options() {
    let mut s = SetupCommand::new();
    let mut c = long();
    assert_eq!(s.execute(&["colors", "on"], &mut c), "Colored output enabled.\r\n");
    assert!(c.colored_output);
    assert_eq!(s.execute(&["colors", "off"], &mut c), "Colored output disabled.\r\n");
    assert!(!c.colored_output);
    assert_eq!(
        s.execute(&["colors", "blue"], &mut c),
        "Invalid option for colors. Use 'on' or 'off'.\r\n"
    );
    assert_eq!(s.execute(&["colors"], &mut c), "Unknown option. Usage: setup colors <on|off>\r\n");
    assert_eq!(s.execute(&["prompt_character", "$"], &mut c), "Prompt character set to '$'.\r\n");
    assert_eq!(c.get_prompt_char(), Some('$'));
    assert_eq!(
        s.execute(&["prompt_character", "ab"], &mut c),
        "Invalid option for prompt_character. Use a single character.\r\n"
    );
    assert_eq!(s.execute(&["prompt_character_mode", "off"], &mut c), "Prompt character disabled.\r\n");
    assert_eq!(c.get_prompt_char(), None);
    assert_eq!(
        s.execute(&["volume", "up"], &mut c),
        "Unknown setup option: volume. Type 'help setup' for usage.\r\n"
    );
    assert_eq!(s.execute(&[], &mut c), "Unknown setup option. Type 'help setup' for usage.\r\n");
    assert_eq!(s.execute(&["answer_length", "long"], &mut c), "Answer length set to long.\r\n");
    assert_eq!(s.execute(&["answer_length", "short"], &mut c), "");
    assert!(c.is_short_output());
    assert_eq!(s.execute(&["colors", "on"], &mut c), "");
    assert!(c.colored_output);
}

#[test]
fn setup_prompt_character_counts_bytes() {
    let mut s = SetupCommand::new();
    let mut c = long();
    assert_eq!(
        s.execute(&["prompt_character", "é"], &mut c),
        "Invalid option for prompt_character. Use a single character.\r\n"
    );
    assert_eq!(c.get_prompt_char(), Some('>'));
}

#[test]
fn led_steps_and_reports() {
    let mut l = LedCommand::new();
    assert_eq!(request(l.execute(&["1", "on"])), Request::SetLed { index: 0, on: true });
    assert_eq!(request(l.execute(&["4", "off"])), Request::SetLed { index: 3, on: false });
    assert_eq!(text(l.execute(&["5", "on"])), "LED number must be 1, 2, 3, or 4\r\n");
    assert_eq!(text(l.execute(&["1", "dim"])), "State must be 'on' or 'off'\r\n");
    assert_eq!(text(l.execute(&["1"])), "Usage: led <1-4> <on|off>\r\n");
    let r = Request::SetLed { index: 0, on: true };
    assert_eq!(l.finish(&["1", "on"], r, Ok(false), &long()), "LED 1 turned ON\r\n");
    assert_eq!(l.finish(&["1", "on"], r, Ok(false), &short()), "OK\r\n");
    let off = Request::SetLed { index: 0, on: false };
    assert_eq!(l.finish(&["1", "off"], off, Ok(false), &long()), "LED 1 turned OFF\r\n");
    assert_eq!(l.finish(&["1", "on"], r, Err(Fault::NotInitialized), &long()), "LED pins not initialized\r\n");
    assert_eq!(l.finish(&["1", "on"], r, Err(Fault::InvalidIndex), &short()), "Invalid LED number\r\n");
}

#[test]
fn mosfet_and_relay_steps() {
    let mut m = MosfetCommand::new();
    assert_eq!(request(m.execute(&["3", "on"])), Request::SetMosfet { index: 2, on: true });
    assert_eq!(text(m.execute(&["0", "on"])), "MOSFET number must be 1, 2, 3, or 4\r\n");
    assert_eq!(text(m.execute(&[])), "Usage: mosfet <1-4> <on|off>\r\n");
    let r = Request::SetMosfet { index: 2, on: true };
    assert_eq!(m.finish(&["3", "on"], r, Err(Fault::NotInitialized), &long()), "MOSFET pins not initialized\r\n");
    let mut rl = RelayCommand::new();
    assert_eq!(request(rl.execute(&["2", "off"])), Request::SetRelay { index: 1, on: false });
    assert_eq!(text(rl.execute(&["3", "off"])), "Relay number must be 1 or 2\r\n");
    let q = Request::SetRelay { index: 1, on: false };
    assert_eq!(rl.finish(&["2", "off"], q, Ok(false), &long()), "Relay 2 turned OFF\r\n");
    assert_eq!(rl.help_text(), "relay <1-2> <on|off> - Control relays on PE0-PE1\r\n");
}

#[test]
fn isolated_input_read() {
    let mut i = IsolatedInputCommand::new();
    assert_eq!(request(i.execute(&["2"])), Request::ReadIsolatedInput { index: 1 });
    assert_eq!(text(i.execute(&["4"])), "Input number must be 1, 2, or 3\r\n");
    assert_eq!(text(i.execute(&[])), "Usage: isolated_input <1-3>\r\n");
    assert_eq!(i.finish(&["2"], Ok(true), &long()), "Input 2 is HIGH\r\n");
    assert_eq!(i.finish(&["2"], Ok(false), &short()), "0\r\n");
    assert_eq!(i.finish(&["2"], Err(Fault::NotInitialized), &long()), "Isolated input pins not initialized\r\n");
}

#[test]
fn gpio_steps_and_reports() {
    let mut g = GpioCommand::new();
    assert_eq!(request(g.execute(&["12", "read"])), Request::ReadGpio { index: 0 });
    assert_eq!(request(g.execute(&["15", "mode", "output"])), Request::SetGpioMode { index: 3, mode: PinMode::Output });
    assert_eq!(request(g.execute(&["13", "set", "high"])), Request::SetGpioLevel { index: 1, high: true });
    assert_eq!(text(g.execute(&["11", "read"])), "Pin number must be 12, 13, 14, or 15\r\n");
    assert_eq!(text(g.execute(&["12"])), "Missing command. Use: gpio <pin> <mode|set|read>\r\n");
    assert_eq!(text(g.execute(&["12", "blink"])), "Unknown command. Use: mode, set, or read\r\n");
    assert_eq!(text(g.execute(&["12", "set", "up"])), "State must be 'high' or 'low'\r\n");
    assert_eq!(text(g.execute(&["12", "mode", "analog"])), "Mode must be 'input' or 'output'\r\n");
    assert!(text(g.execute(&[])).starts_with("Usage: gpio <pin> <command> [parameters]\r\n"));
    let read = Request::ReadGpio { index: 0 };
    assert_eq!(g.finish(&["12", "read"], read, Ok(true), &long()), "Pin 12 is HIGH\r\n");
    assert_eq!(g.finish(&["12", "read"], read, Ok(false), &short()), "0\r\n");
    let set = Request::SetGpioLevel { index: 1, high: true };
    assert_eq!(g.finish(&["13", "set", "high"], set, Ok(false), &long()), "Pin 13 set to high\r\n");
    assert_eq!(
        g.finish(&["13", "set", "high"], set, Err(Fault::ConfiguredAsInput), &long()),
        "Cannot set: pin is configured as input\r\n"
    );
    let mode = Request::SetGpioMode { index: 3, mode: PinMode::Output };
    assert_eq!(
        g.finish(&["15", "mode", "output"], mode, Err(Fault::ModeChangeRequiresReinit), &long()),
        "Mode change requires reinitialization. Set mode during initialization.\r\n"
    );
    assert_eq!(g.finish(&["15", "mode", "output"], mode, Ok(false), &long()), "Pin 15 mode set to output\r\n");
}

#[test]
fn gpio_mode_table() {
    let t = GpioModes::new();
    assert_eq!(t.set_mode(0, PinMode::Input), Ok(()));
    assert_eq!(t.set_mode(0, PinMode::Output), Err(Fault::ModeChangeRequiresReinit));
    assert_eq!(t.set_mode(4, PinMode::Input), Err(Fault::InvalidIndex));
    assert_eq!(t.check_drive(2), Err(Fault::ConfiguredAsInput));
    assert_eq!(t.check_drive(9), Err(Fault::InvalidIndex));
}
