use universal_interface_adapter::cli_config::{AnsiColor, AnswerLength, CliConfig};
use universal_interface_adapter::cli_loop::{
    finish_line, line_end, prompt, run_line, split_words, KeyOutcome, LineEditor, LineStep,
};
use universal_interface_adapter::command::{Fault, Request};
use universal_interface_adapter::commands::can::CanStep;
use universal_interface_adapter::commands::serial_port::{SerialLine, SerialStep};
use universal_interface_adapter::commands::{
    AnalogCommand, BusStep, CanCommand, ClearCommand, CommandRegistry, CommandType, EchoCommand,
    GpioCommand, I2cCommand, IsolatedInputCommand, LedCommand, MosfetCommand, RelayCommand,
    Rs232Command, SetupCommand, SpiCommand, UartCommand,
};

fn plain_config() -> CliConfig {
    let mut c = CliConfig::new();
    c.set_colored_output(false);
    c
}

fn full_registry() -> CommandRegistry {
    let mut r = CommandRegistry::new();
    assert_eq!(r.register_echo(EchoCommand::new()), Ok(()));
    assert_eq!(r.register_led(LedCommand::new()), Ok(()));
    assert_eq!(r.register_setup(SetupCommand::new()), Ok(()));
    assert_eq!(r.register_clear(ClearCommand::new()), Ok(()));
    assert_eq!(r.register_mosfets(MosfetCommand::new()), Ok(()));
    assert_eq!(r.register_relays(RelayCommand::new()), Ok(()));
    assert_eq!(r.register_isolated_inputs(IsolatedInputCommand::new()), Ok(()));
    assert_eq!(r.register_gpios(GpioCommand::new()), Ok(()));
    r
}

fn reply(step: LineStep) -> String {
    match step {
        LineStep::Reply(t) => t,
        _ => panic!("expected a reply"),
    }
}

#[test]
fn config_defaults_and_setters() {
    let mut c = CliConfig::new();
    assert_eq!(c.answer_length, AnswerLength::Long);
    assert!(c.colored_output);
    assert!(!c.is_short_output());
    assert_eq!(c.get_prompt_char(), Some('>'));
    assert_eq!(c.answer_color, Some(AnsiColor::FALLOUT_DARK_GREEN));
    c.set_answer_length(AnswerLength::Short);
    assert!(c.is_short_output());
    c.set_prompt_char('$');
    assert_eq!(c.get_prompt_char(), Some('$'));
    c.set_prompt_character_enabled(false);
    assert_eq!(c.get_prompt_char(), None);
    c.set_colored_output(false);
    assert!(!c.colored_output);
    assert_eq!(AnswerLength::default(), AnswerLength::Long);
}

#[test]
fn prompt_text_with_and_without_colours() {
    let c = CliConfig::new();
    assert_eq!(prompt(&c), "\x1b[38;5;46mUIA\x1b[38;5;106m>\x1b[0m\x1b[38;5;46m ");
    assert_eq!(line_end(&c), "\x1b[0m");
    let p = plain_config();
    assert_eq!(prompt(&p), "UIA> ");
    let mut n = plain_config();
    n.set_prompt_character_enabled(false);
    assert_eq!(prompt(&n), "UIA ");
    let mut m = CliConfig::new();
    m.set_prompt_character_enabled(false);
    assert_eq!(prompt(&m), "\x1b[38;5;46mUIA ");
    assert_eq!(line_end(&p), "");
    let mut q = CliConfig::new();
    q.prompt_character_color = None;
    assert_eq!(prompt(&q), "\x1b[38;5;46mUIA> ");
}

#[test]
fn line_editor_keys() {
    let mut e = LineEditor::new();
    assert!(matches!(e.feed(b'l'), KeyOutcome::Echo(ref t) if t == "l"));
    assert!(matches!(e.feed(b'x'), KeyOutcome::Echo(ref t) if t == "x"));
    assert!(matches!(e.feed(0x08), KeyOutcome::Echo(ref t) if t == "\x08 \x08"));
    assert!(matches!(e.feed(0x01), KeyOutcome::Echo(ref t) if t.is_empty()));
    assert!(matches!(e.feed(b'e'), KeyOutcome::Echo(_)));
    assert!(matches!(e.feed(b'd'), KeyOutcome::Echo(_)));
    assert!(matches!(e.feed(b'\r'), KeyOutcome::Submit));
    assert_eq!(e.take_line(), "led");
    assert_eq!(e.take_line(), "");
    assert!(matches!(e.feed(0x7F), KeyOutcome::Echo(ref t) if t.is_empty()));
    assert!(matches!(e.feed(b'\n'), KeyOutcome::Submit));
}

#[test]
fn line_editor_holds_at_most_63_characters() {
    let mut e = LineEditor::new();
    for _ in 0..70 {
        e.feed(b'a');
    }
    assert_eq!(e.take_line(), "a".repeat(63));
}

#[test]
fn backspace_undoes_a_key() {
    let mut e = LineEditor::new();
    e.feed(b'g');
    e.feed(b'p');
    e.feed(b'z');
    e.feed(0x7F);
    assert_eq!(e.take_line(), "gp");
}

#[test]
fn split_words_like_split_whitespace() {
    assert_eq!(split_words("  led  1\ton  "), vec!["led", "1", "on"]);
    assert_eq!(split_words(""), Vec::<String>::new());
    assert_eq!(split_words("   "), Vec::<String>::new());
    assert_eq!(split_words("a b c d e f g h i j k l"), vec!["a", "b", "c", "d", "e", "f", "g", "h", "i", "j"]);
}

#[test]
fn registry_refuses_duplicates() {
    let mut r = full_registry();
    assert_eq!(r.len(), 8);
    assert_eq!(r.register_echo(EchoCommand::new()), Err("Command with this name already exists"));
    assert_eq!(r.len(), 8);
    assert_eq!(r.initialize_all_commands(), Ok(()));
    let mut small = CommandRegistry::new();
    for _ in 0..10 {
        let _ = small.register(CommandType::Echo(EchoCommand::new()));
    }
    assert_eq!(small.len(), 1);
}

#[test]
fn registry_lookup_and_help() {
    let mut r = full_registry();
    assert_eq!(r.get_command_mut("led").map(|c| c.name()), Some("led"));
    assert!(r.get_command_mut("nope").is_none());
    assert_eq!(
        r.print_help("echo"),
        Some(String::from("echo <text>     - Echo back the provided text\r\n"))
    );
    assert_eq!(r.print_help("nope"), None);
}

#[test]
fn command_list_is_sorted() {
    let r = full_registry();
    assert_eq!(
        r.print_command_list(),
        "  clear\r\n  echo\r\n  gpio\r\n  isolated_input\r\n  led\r\n  mosfet\r\n  relay\r\n  setup\r\n"
    );
    let empty = CommandRegistry::new();
    assert_eq!(empty.print_command_list(), "");
}

#[test]
fn run_line_dispatches() {
    let mut r = full_registry();
    let mut c = plain_config();
    assert_eq!(reply(run_line(&mut r, &mut c, &[])), "");
    assert_eq!(reply(run_line(&mut r, &mut c, &["echo", "hi", "there"])), "Echo output: hi there\r\n");
    assert_eq!(
        reply(run_line(&mut r, &mut c, &["bogus"])),
        "Unknown command: bogus. Type 'help' for available commands.\r\n"
    );
    assert_eq!(
        reply(run_line(&mut r, &mut c, &["help", "led"])),
        "led <1-4> <on|off> - Control LEDs on PD4-PD7\r\n"
    );
    assert_eq!(reply(run_line(&mut r, &mut c, &["help", "bogus"])), "");
    assert!(reply(run_line(&mut r, &mut c, &["help"])).starts_with("  clear\r\n"));
}

#[test]
fn run_line_with_colours_starts_with_answer_colour() {
    let mut r = full_registry();
    let mut c = CliConfig::new();
    assert_eq!(
        reply(run_line(&mut r, &mut c, &["echo", "x"])),
        "\x1b[38;5;28mEcho output: x\r\n"
    );
}

#[test]
fn run_line_setup_changes_config() {
    let mut r = full_registry();
    let mut c = plain_config();
    assert_eq!(
        reply(run_line(&mut r, &mut c, &["setup", "answer_length", "short"])),
        ""
    );
    assert!(c.is_short_output());
    assert_eq!(reply(run_line(&mut r, &mut c, &["echo", "a", "b"])), "a b\r\n");
}

#[test]
fn run_line_hardware_request_and_report() {
    let mut r = full_registry();
    let mut c = plain_config();
    match run_line(&mut r, &mut c, &["led", "2", "on"]) {
        LineStep::Perform(prefix, req) => {
            assert_eq!(prefix, "");
            assert_eq!(req, Request::SetLed { index: 1, on: true });
            assert_eq!(finish_line(&mut r, &c, &["led", "2", "on"], req, Ok(false)), "LED 2 turned ON\r\n");
            assert_eq!(
                finish_line(&mut r, &c, &["led", "2", "on"], req, Err(Fault::NotInitialized)),
                "LED pins not initialized\r\n"
            );
        },
        _ => panic!("expected a request"),
    }
    assert_eq!(finish_line(&mut r, &c, &["bogus"], Request::ReadGpio { index: 0 }, Ok(true)), "");
}

#[test]
fn colors_off_makes_output_plain() {
    let mut r = full_registry();
    let mut c = CliConfig::new();
    assert_eq!(
        reply(run_line(&mut r, &mut c, &["setup", "colors", "off"])),
        "\x1b[38;5;28mColored output disabled.\r\n"
    );
    assert!(!c.colored_output);
    assert_eq!(c.answer_length, AnswerLength::Long);
    assert_eq!(prompt(&c), "UIA> ");
    assert_eq!(line_end(&c), "");
    assert_eq!(reply(run_line(&mut r, &mut c, &["echo", "x"])), "Echo output: x\r\n");
}

#[test]
fn prompt_character_mode_switches_the_mark() {
    let mut r = full_registry();
    let mut c = plain_config();
    assert_eq!(reply(run_line(&mut r, &mut c, &["setup", "prompt_character_mode", "off"])), "Prompt character disabled.\r\n");
    assert_eq!(prompt(&c), "UIA ");
    assert_eq!(reply(run_line(&mut r, &mut c, &["setup", "prompt_character_mode", "on"])), "Prompt character enabled.\r\n");
    assert_eq!(prompt(&c), "UIA> ");
}

#[test]
fn register_messages() {
    let mut r = CommandRegistry::new();
    assert_eq!(r.register_echo(EchoCommand::new()), Ok(()));
    assert_eq!(r.register_echo(EchoCommand::new()), Err("Command with this name already exists"));
    assert_eq!(r.len(), 1);
    assert_eq!(r.print_command_list(), "  echo\r\n");
}

fn every_kind() -> CommandRegistry {
    let mut r = full_registry();
    assert_eq!(r.register_uart(UartCommand::new()), Ok(()));
    assert_eq!(r.register_rs232(Rs232Command::new()), Ok(()));
    assert_eq!(r.register_analog(AnalogCommand::new()), Ok(()));
    assert_eq!(r.register_i2c(I2cCommand::new()), Ok(()));
    assert_eq!(r.register_spi(SpiCommand::new()), Ok(()));
    assert_eq!(r.register_can(CanCommand::new()), Ok(()));
    r
}

#[test]
fn every_kind_of_command_registers_and_is_found() {
    let mut r = every_kind();
    assert_eq!(r.len(), 14);
    for name in [
        "echo", "setup", "clear", "led", "mosfet", "relay", "isolated_input", "gpio", "uart", "rs232",
        "analog", "i2c", "spi", "can",
    ] {
        assert_eq!(r.get_command_mut(name).map(|c| c.name()), Some(name));
    }
    assert_eq!(r.register_can(CanCommand::new()), Err("Command with this name already exists"));
    assert!(r.print_command_list().starts_with("  analog\r\n  can\r\n  clear\r\n"));
}

#[test]
fn bus_commands_run_from_the_line() {
    let mut r = every_kind();
    let mut c = plain_config();
    match run_line(&mut r, &mut c, &["can", "config", "250k", "1"]) {
        LineStep::Bus(prefix, BusStep::Can(CanStep::Configure { bitrate, mode, reply })) => {
            assert_eq!(prefix, "");
            assert_eq!((bitrate, mode), (250_000, 1));
            assert_eq!(reply, "CAN configured: 250k mode 1\r\n");
        },
        _ => panic!("expected new CAN settings"),
    }
    match run_line(&mut r, &mut c, &["can", "status"]) {
        LineStep::Bus(_, BusStep::Can(CanStep::Reply(t))) => {
            assert_eq!(t, "CAN Status:\r\n  Bitrate: 250000 bps\r\n  Mode: Loopback\r\n");
        },
        _ => panic!("expected the status"),
    }
    match run_line(&mut r, &mut c, &["uart", "2", "write", "Hello", "World"]) {
        LineStep::Bus(_, BusStep::Serial(SerialStep::Transmit { line, data, reply })) => {
            assert_eq!(line, SerialLine::Uart2);
            assert_eq!(data, "Hello World");
            assert_eq!(reply, "Sent to UART2\r\n");
        },
        _ => panic!("expected a transmission"),
    }
    assert_eq!(
        r.print_help("can").map(|t| t.starts_with("can <cmd> [args] - CAN bus operations")),
        Some(true)
    );
}
