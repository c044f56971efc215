//! `setup`: changes the interface settings.
use vstd::prelude::*;
use vstd::string::StrSliceExecFns;
use vstd::string::StringExecFns;
use crate::cli_config::{AnswerLength, CliConfig};
use crate::command::{words, Command};
use crate::text::{push_char, str_eq};

verus! {

/// Changes colours, answer length and the prompt character.
#[derive(Clone, Copy)]
pub struct SetupCommand;

/// A word that is one character written as a single UTF-8 byte.
pub open spec fn single_byte_char(w: Seq<char>) -> bool {
    w.len() == 1 && (w[0] as u32) < 0x80
}

/// The `colors` option: its text and the settings after it.
pub open spec fn setup_colors(a: Seq<Seq<char>>, c: CliConfig) -> (Seq<char>, CliConfig) {
    if a[0] == "colors"@ && a.len() > 1 {
        if a[1] == "on"@ {
            let c1 = CliConfig { colored_output: true, ..c };
            (if c1.answer_length != AnswerLength::Short { "Colored output enabled.\r\n"@ } else { Seq::empty() }, c1)
        } else if a[1] == "off"@ {
            let c1 = CliConfig { colored_output: false, ..c };
            (if c1.answer_length != AnswerLength::Short { "Colored output disabled.\r\n"@ } else { Seq::empty() }, c1)
        } else {
            ("Invalid option for colors. Use 'on' or 'off'.\r\n"@, c)
        }
    } else if a[0] == "colors"@ {
        ("Unknown option. Usage: setup colors <on|off>\r\n"@, c)
    } else {
        (Seq::empty(), c)
    }
}

/// The `answer_length` option. Setting `short` prints nothing: the message is only
/// printed for long answers, and the answers have just become short.
pub open spec fn setup_answer_length(a: Seq<Seq<char>>, c: CliConfig) -> (Seq<char>, CliConfig) {
    if a[0] == "answer_length"@ && a.len() > 1 {
        if a[1] == "short"@ {
            let c1 = CliConfig { answer_length: AnswerLength::Short, ..c };
            (if c1.answer_length != AnswerLength::Short { "Answer length set to short.\r\n"@ } else { Seq::empty() }, c1)
        } else if a[1] == "long"@ {
            let c1 = CliConfig { answer_length: AnswerLength::Long, ..c };
            (if c1.answer_length != AnswerLength::Short { "Answer length set to long.\r\n"@ } else { Seq::empty() }, c1)
        } else {
            ("Invalid option for answer_length. Use 'short' or 'long'.\r\n"@, c)
        }
    } else if a[0] == "answer_length"@ {
        ("Unknown option. Usage: setup answer_length <short|long>\r\n"@, c)
    } else {
        (Seq::empty(), c)
    }
}

/// The `prompt_character_mode` option.
pub open spec fn setup_prompt_mode(a: Seq<Seq<char>>, c: CliConfig) -> (Seq<char>, CliConfig) {
    if a[0] == "prompt_character_mode"@ && a.len() > 1 {
        if a[1] == "on"@ {
            let c1 = CliConfig { prompt_character: true, ..c };
            (if c1.answer_length != AnswerLength::Short { "Prompt character enabled.\r\n"@ } else { Seq::empty() }, c1)
        } else if a[1] == "off"@ {
            let c1 = CliConfig { prompt_character: false, ..c };
            (if c1.answer_length != AnswerLength::Short { "Prompt character disabled.\r\n"@ } else { Seq::empty() }, c1)
        } else {
            ("Invalid option for prompt_character. Use 'on' or 'off'.\r\n"@, c)
        }
    } else if a[0] == "prompt_character_mode"@ {
        ("Unknown option. Usage: setup prompt_character <on|off>\r\n"@, c)
    } else {
        (Seq::empty(), c)
    }
}

/// The `prompt_character` option.
pub open spec fn setup_prompt_char(a: Seq<Seq<char>>, c: CliConfig) -> (Seq<char>, CliConfig) {
    if a[0] == "prompt_character"@ && a.len() > 1 {
        if single_byte_char(a[1]) {
            let ch = a[1][0];
            let c1 = CliConfig { prompt_character_char: ch, ..c };
            (if c1.answer_length != AnswerLength::Short {
                "Prompt character set to '"@ + seq![ch] + "'.\r\n"@
            } else {
                Seq::empty()
            }, c1)
        } else {
            ("Invalid option for prompt_character. Use a single character.\r\n"@, c)
        }
    } else if a[0] == "prompt_character"@ {
        ("Unknown option. Usage: setup prompt_character <character>\r\n"@, c)
    } else {
        (Seq::empty(), c)
    }
}

/// Whether the first word names no setup option.
pub open spec fn unknown_option(o: Seq<char>) -> bool {
    o != "colors"@ && o != "answer_length"@ && o != "prompt_character_mode"@ && o
        != "prompt_character"@
}

/// What `setup` prints and the settings it leaves.
pub open spec fn setup_outcome(a: Seq<Seq<char>>, c: CliConfig) -> (Seq<char>, CliConfig) {
    if a.len() == 0 {
        ("Unknown setup option. Type 'help setup' for usage.\r\n"@, c)
    } else {
        let t0 = if unknown_option(a[0]) {
            "Unknown setup option: "@ + a[0] + ". Type 'help setup' for usage.\r\n"@
        } else {
            Seq::empty()
        };
        let r1 = setup_colors(a, c);
        let r2 = setup_answer_length(a, r1.1);
        let r3 = setup_prompt_mode(a, r2.1);
        let r4 = setup_prompt_char(a, r3.1);
        (t0 + r1.0 + r2.0 + r3.0 + r4.0, r4.1)
    }
}

/// Sets a boolean option from `on`/`off`, as `setup_colors` and `setup_prompt_mode` state.
fn apply_on_off(
    out: &mut String,
    config: &mut CliConfig,
    value: &str,
    prompt_mode: bool,
    on_text: &str,
    off_text: &str,
    invalid_text: &str,
)
    ensures
        ({
            let w = value@;
            if w == "on"@ {
                let c1 = if prompt_mode {
                    CliConfig { prompt_character: true, ..*old(config) }
                } else {
                    CliConfig { colored_output: true, ..*old(config) }
                };
                &&& *final(config) == c1
                &&& final(out)@ == old(out)@ + (if c1.answer_length != AnswerLength::Short {
                    on_text@
                } else {
                    Seq::empty()
                })
            } else if w == "off"@ {
                let c1 = if prompt_mode {
                    CliConfig { prompt_character: false, ..*old(config) }
                } else {
                    CliConfig { colored_output: false, ..*old(config) }
                };
                &&& *final(config) == c1
                &&& final(out)@ == old(out)@ + (if c1.answer_length != AnswerLength::Short {
                    off_text@
                } else {
                    Seq::empty()
                })
            } else {
                &&& *final(config) == *old(config)
                &&& final(out)@ == old(out)@ + invalid_text@
            }
        }),
{
    if str_eq(value, "on") {
        if prompt_mode {
            config.set_prompt_character_enabled(true);
        } else {
            config.set_colored_output(true);
        }
        if config.answer_length != AnswerLength::Short {
            out.append(on_text);
        }
    } else if str_eq(value, "off") {
        if prompt_mode {
            config.set_prompt_character_enabled(false);
        } else {
            config.set_colored_output(false);
        }
        if config.answer_length != AnswerLength::Short {
            out.append(off_text);
        }
    } else {
        out.append(invalid_text);
    }
}

fn run_colors(out: &mut String, config: &mut CliConfig, args: &[&str])
    requires
        args.len() > 0,
    ensures
        final(out)@ == old(out)@ + setup_colors(words(args), *old(config)).0,
        *final(config) == setup_colors(words(args), *old(config)).1,
{
    let ghost a = words(args);
    assert(a[0] == args@[0]@);
    let opt = args[0];
    if str_eq(opt, "colors") && args.len() > 1 {
        assert(a[1] == args@[1]@);
        apply_on_off(
            out,
            config,
            args[1],
            false,
            "Colored output enabled.\r\n",
            "Colored output disabled.\r\n",
            "Invalid option for colors. Use 'on' or 'off'.\r\n",
        );
    } else if str_eq(opt, "colors") {
        out.append("Unknown option. Usage: setup colors <on|off>\r\n");
    } else {
        assert(out@ =~= out@ + Seq::<char>::empty());
    }
}

fn run_answer_length(out: &mut String, config: &mut CliConfig, args: &[&str])
    requires
        args.len() > 0,
    ensures
        final(out)@ == old(out)@ + setup_answer_length(words(args), *old(config)).0,
        *final(config) == setup_answer_length(words(args), *old(config)).1,
{
    let ghost a = words(args);
    assert(a[0] == args@[0]@);
    let opt = args[0];
    if str_eq(opt, "answer_length") && args.len() > 1 {
        assert(a[1] == args@[1]@);
        if str_eq(args[1], "short") {
            config.set_answer_length(AnswerLength::Short);
            if config.answer_length != AnswerLength::Short {
                out.append("Answer length set to short.\r\n");
            } else {
                assert(out@ =~= out@ + Seq::<char>::empty());
            }
        } else if str_eq(args[1], "long") {
            config.set_answer_length(AnswerLength::Long);
            if config.answer_length != AnswerLength::Short {
                out.append("Answer length set to long.\r\n");
            } else {
                assert(out@ =~= out@ + Seq::<char>::empty());
            }
        } else {
            out.append("Invalid option for answer_length. Use 'short' or 'long'.\r\n");
        }
    } else if str_eq(opt, "answer_length") {
        out.append("Unknown option. Usage: setup answer_length <short|long>\r\n");
    } else {
        assert(out@ =~= out@ + Seq::<char>::empty());
    }
}

fn run_prompt_mode(out: &mut String, config: &mut CliConfig, args: &[&str])
    requires
        args.len() > 0,
    ensures
        final(out)@ == old(out)@ + setup_prompt_mode(words(args), *old(config)).0,
        *final(config) == setup_prompt_mode(words(args), *old(config)).1,
{
    let ghost a = words(args);
    assert(a[0] == args@[0]@);
    let opt = args[0];
    if str_eq(opt, "prompt_character_mode") && args.len() > 1 {
        assert(a[1] == args@[1]@);
        apply_on_off(
            out,
            config,
            args[1],
            true,
            "Prompt character enabled.\r\n",
            "Prompt character disabled.\r\n",
            "Invalid option for prompt_character. Use 'on' or 'off'.\r\n",
        );
    } else if str_eq(opt, "prompt_character_mode") {
        out.append("Unknown option. Usage: setup prompt_character <on|off>\r\n");
    } else {
        assert(out@ =~= out@ + Seq::<char>::empty());
    }
}

fn run_prompt_char(out: &mut String, config: &mut CliConfig, args: &[&str])
    requires
        args.len() > 0,
    ensures
        final(out)@ == old(out)@ + setup_prompt_char(words(args), *old(config)).0,
        *final(config) == setup_prompt_char(words(args), *old(config)).1,
{
    let ghost a = words(args);
    assert(a[0] == args@[0]@);
    let opt = args[0];
    if str_eq(opt, "prompt_character") && args.len() > 1 {
        let value = args[1];
        assert(a[1] == value@);
        if value.unicode_len() == 1 && (value.get_char(0) as u32) < 0x80 {
            let c = value.get_char(0);
            config.set_prompt_char(c);
            if config.answer_length != AnswerLength::Short {
                let ghost before = out@;
                out.append("Prompt character set to '");
                push_char(out, c);
                out.append("'.\r\n");
                assert(out@ =~= before + ("Prompt character set to '"@ + seq![c] + "'.\r\n"@));
            } else {
                assert(out@ =~= out@ + Seq::<char>::empty());
            }
        } else {
            out.append("Invalid option for prompt_character. Use a single character.\r\n");
        }
    } else if str_eq(opt, "prompt_character") {
        out.append("Unknown option. Usage: setup prompt_character <character>\r\n");
    } else {
        assert(out@ =~= out@ + Seq::<char>::empty());
    }
}

impl SetupCommand {
    pub fn new() -> Self {
        SetupCommand
    }

    /// Applies a `setup` command line: returns what it prints and changes the settings.
    pub fn execute(&mut self, args: &[&str], config: &mut CliConfig) -> (r: String)
        ensures
            (r@, *final(config)) == setup_outcome(words(args), *old(config)),
    {
        let ghost a = words(args);
        if args.len() == 0 {
            return String::from_str("Unknown setup option. Type 'help setup' for usage.\r\n");
        }
        let opt = args[0];
        assert(a[0] == opt@);
        let mut out = String::new();
        if !str_eq(opt, "colors") && !str_eq(opt, "answer_length") && !str_eq(
            opt,
            "prompt_character_mode",
        ) && !str_eq(opt, "prompt_character") {
            out.append("Unknown setup option: ");
            out.append(opt);
            out.append(". Type 'help setup' for usage.\r\n");
        }
        let ghost t0 = out@;
        let ghost c0 = *config;
        assert(t0 =~= (if unknown_option(a[0]) {
            "Unknown setup option: "@ + a[0] + ". Type 'help setup' for usage.\r\n"@
        } else {
            Seq::empty()
        }));
        run_colors(&mut out, config, args);
        let ghost r1 = setup_colors(a, c0);
        run_answer_length(&mut out, config, args);
        let ghost r2 = setup_answer_length(a, r1.1);
        run_prompt_mode(&mut out, config, args);
        let ghost r3 = setup_prompt_mode(a, r2.1);
        run_prompt_char(&mut out, config, args);
        let ghost r4 = setup_prompt_char(a, r3.1);
        assert(out@ =~= t0 + r1.0 + r2.0 + r3.0 + r4.0);
        out
    }
}

impl Command for SetupCommand {
    open spec fn command_name(&self) -> Seq<char> {
        "setup"@
    }

    open spec fn help_spec(&self) -> Seq<char> {
        "setup - Configure CLI settings\r\n"@ + "Usage:\r\n"@
            + "  setup colors <on|off>                - Enable/disable colored output\r\n"@
            + "  setup answer_length <short|long>     - Set output verbosity\r\n"@
            + "  setup prompt_character_mode <on|off> - Enable/disable prompt character\r\n"@
            + "  setup prompt_character <char>        - Set the prompt character\r\n"@
    }

    fn name(&self) -> (r: &'static str) {
        "setup"
    }

    fn initialize(&mut self) -> (r: Result<(), &'static str>)
        ensures
            r is Ok,
    {
        Ok(())
    }

    fn help_text(&self) -> (r: String) {
        let mut s = String::from_str("setup - Configure CLI settings\r\n");
        s.append("Usage:\r\n");
        s.append("  setup colors <on|off>                - Enable/disable colored output\r\n");
        s.append("  setup answer_length <short|long>     - Set output verbosity\r\n");
        s.append("  setup prompt_character_mode <on|off> - Enable/disable prompt character\r\n");
        s.append("  setup prompt_character <char>        - Set the prompt character\r\n");
        s
    }
}

} // verus!
