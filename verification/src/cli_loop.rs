//! The interactive loop's decisions: the prompt, line editing, splitting a line into words,
//! and routing the words to `help` or a registered command.
use vstd::prelude::*;
use vstd::string::StrSliceExecFns;
use vstd::string::StringExecFns;
use crate::cli_config::CliConfig;
use crate::command::{words, Request, Response, Step, StepView};
use crate::commands::{
    command_help, command_name_of, command_report, command_step, first_index, lemma_first_index,
    listing, sorted_command_names, BusStep, BusStepView, CommandRegistry, CommandStep,
    CommandStepView, CommandType,
};
use crate::commands::setup::setup_outcome;
use crate::text::{push_char, str_eq};

verus! {

/// Longest line the editor keeps: one less than the 64-byte line buffer.
pub const LINE_CAPACITY: usize = 63;

/// The most words of a line that are looked at; later words are dropped.
pub const MAX_WORDS: usize = 10;

/// The name the prompt starts with.
pub open spec fn prompt_name() -> Seq<char> {
    "UIA"@
}

/// The prompt character after the name: none when the prompt character is off, and in its
/// own colour (then back to the command colour) when colours are on and it has one.
pub open spec fn prompt_mark(c: CliConfig) -> Seq<char> {
    let ch = seq![c.prompt_character_char];
    let cmd = match c.command_color {
        Some(x) => x@,
        None => Seq::empty(),
    };
    if !c.prompt_character {
        Seq::empty()
    } else if c.colored_output && c.prompt_character_color is Some {
        c.prompt_character_color.unwrap()@ + ch + "\x1b[0m"@ + cmd
    } else {
        ch
    }
}

/// The prompt printed before each line, such as `UIA> `: the command colour when colours
/// are on, the name, the prompt character when it is on, and a space.
pub open spec fn prompt_text(c: CliConfig) -> Seq<char> {
    let cmd = match c.command_color {
        Some(x) => x@,
        None => Seq::empty(),
    };
    (if c.colored_output {
        cmd
    } else {
        Seq::empty()
    }) + prompt_name() + prompt_mark(c) + " "@
}

/// The prompt printed before each line.
pub fn prompt(config: &CliConfig) -> (r: String)
    ensures
        r@ == prompt_text(*config),
{
    let mut s = String::new();
    if config.colored_output {
        if let Some(color) = config.command_color {
            s.append(color);
        }
    }
    s.append("UIA");
    if config.prompt_character {
        match config.prompt_character_color {
            Some(prompt_color) if config.colored_output => {
                s.append(prompt_color);
                push_char(&mut s, config.prompt_character_char);
                s.append("\x1b[0m");
                if let Some(cmd_color) = config.command_color {
                    s.append(cmd_color);
                }
            },
            _ => {
                push_char(&mut s, config.prompt_character_char);
            },
        }
    }
    s.append(" ");
    s
}

/// What the answer to a line starts with: the answer colour, when colours are on.
pub open spec fn answer_prefix_text(c: CliConfig) -> Seq<char> {
    if c.colored_output {
        match c.answer_color {
            Some(x) => x@,
            None => Seq::empty(),
        }
    } else {
        Seq::empty()
    }
}

/// What follows the answer to every line: the colour reset, when colours are on.
pub open spec fn line_end_text(c: CliConfig) -> Seq<char> {
    if c.colored_output {
        "\x1b[0m"@
    } else {
        Seq::empty()
    }
}

/// The colour reset printed after every line, when colours are on.
pub fn line_end(config: &CliConfig) -> (r: String)
    ensures
        r@ == line_end_text(*config),
{
    if config.colored_output {
        String::from_str("\x1b[0m")
    } else {
        String::new()
    }
}

/// A byte the editor keeps: printable ASCII.
pub open spec fn printable(b: u8) -> bool {
    0x20 <= b && b <= 0x7E
}

/// What a key did: echo some text, or end the line.
pub enum KeyOutcome {
    Echo(String),
    Submit,
}

/// A key outcome with its text as characters.
pub enum KeyView {
    Echo(Seq<char>),
    Submit,
}

impl View for KeyOutcome {
    type V = KeyView;

    open spec fn view(&self) -> KeyView {
        match self {
            KeyOutcome::Echo(t) => KeyView::Echo(t@),
            KeyOutcome::Submit => KeyView::Submit,
        }
    }
}

/// The line after a byte arrives, and what the byte does: carriage return or line feed
/// ends the line, backspace or delete removes the last character, a printable byte is
/// kept while there is room, and anything else is ignored.
pub open spec fn edit(line: Seq<char>, b: u8) -> (Seq<char>, KeyView) {
    if b == 13 || b == 10 {
        (line, KeyView::Submit)
    } else if b == 0x7F || b == 0x08 {
        if line.len() > 0 {
            (line.drop_last(), KeyView::Echo("\x08 \x08"@))
        } else {
            (line, KeyView::Echo(Seq::empty()))
        }
    } else if printable(b) {
        if line.len() < LINE_CAPACITY {
            (line.push(b as char), KeyView::Echo(seq![b as char]))
        } else {
            (line, KeyView::Echo(Seq::empty()))
        }
    } else {
        (line, KeyView::Echo(Seq::empty()))
    }
}


/// Backspace undoes a key: a printable byte typed on a line with room, followed by backspace
/// or delete, leaves the line as it was.
pub proof fn law_backspace_undoes_key(line: Seq<char>, b: u8, del: u8)
    requires
        printable(b),
        line.len() < LINE_CAPACITY,
        del == 0x08 || del == 0x7F,
    ensures
        edit(edit(line, b).0, del).0 == line,
{
    assert(line.push(b as char).drop_last() =~= line);
}

/// The line being typed.
pub struct LineEditor {
    buffer: Vec<char>,
}

impl LineEditor {
    /// The characters typed so far.
    pub closed spec fn line(&self) -> Seq<char> {
        self.buffer@
    }

    /// At most `LINE_CAPACITY` characters, all printable ASCII.
    pub open spec fn wf(&self) -> bool {
        &&& self.line().len() <= LINE_CAPACITY
        &&& forall|i: int| 0 <= i < self.line().len() ==> 0x20 <= #[trigger] (self.line()[i] as u32)
            <= 0x7E
    }

    /// An empty line.
    pub fn new() -> (r: Self)
        ensures
            r.wf(),
            r.line() == Seq::<char>::empty(),
    {
        LineEditor { buffer: Vec::new() }
    }

    /// Takes one byte from the terminal.
    pub fn feed(&mut self, byte: u8) -> (r: KeyOutcome)
        requires
            old(self).wf(),
        ensures
            final(self).wf(),
            (final(self).line(), r@) == edit(old(self).line(), byte),
    {
        if byte == 13 || byte == 10 {
            KeyOutcome::Submit
        } else if byte == 0x7F || byte == 0x08 {
            if self.buffer.len() > 0 {
                self.buffer.pop();
                KeyOutcome::Echo(String::from_str("\x08 \x08"))
            } else {
                KeyOutcome::Echo(String::new())
            }
        } else if byte >= 0x20 && byte <= 0x7E {
            if self.buffer.len() < LINE_CAPACITY {
                let c = byte as char;
                self.buffer.push(c);
                let mut s = String::new();
                push_char(&mut s, c);
                assert(s@ =~= seq![c]);
                KeyOutcome::Echo(s)
            } else {
                KeyOutcome::Echo(String::new())
            }
        } else {
            KeyOutcome::Echo(String::new())
        }
    }

    /// Hands over the finished line and starts a new, empty one.
    pub fn take_line(&mut self) -> (r: String)
        ensures
            r@ == old(self).line(),
            final(self).wf(),
            final(self).line() == Seq::<char>::empty(),
    {
        let mut s = String::new();
        let mut i: usize = 0;
        while i < self.buffer.len()
            invariant
                i <= self.buffer.len(),
                s@ == self.buffer@.take(i as int),
            decreases self.buffer.len() - i,
        {
            push_char(&mut s, self.buffer[i]);
            assert(self.buffer@.take(i + 1) =~= self.buffer@.take(i as int).push(self.buffer@[i as int]));
            i = i + 1;
        }
        assert(self.buffer@.take(i as int) =~= self.buffer@);
        self.buffer = Vec::new();
        s
    }
}


/// Unicode white space, as `char::is_whitespace` tells it.
pub open spec fn is_white(c: char) -> bool {
    ||| ('\t' <= c && c <= '\r')
    ||| c == ' '
    ||| c == '\u{85}'
    ||| c == '\u{a0}'
    ||| c == '\u{1680}'
    ||| ('\u{2000}' <= c && c <= '\u{200a}')
    ||| c == '\u{2028}'
    ||| c == '\u{2029}'
    ||| c == '\u{202f}'
    ||| c == '\u{205f}'
    ||| c == '\u{3000}'
}

fn is_white_char(c: char) -> (r: bool)
    ensures
        r == is_white(c),
{
    ('\t' <= c && c <= '\r') || c == ' ' || c == '\u{85}' || c == '\u{a0}' || c == '\u{1680}' || (
    '\u{2000}' <= c && c <= '\u{200a}') || c == '\u{2028}' || c == '\u{2029}' || c == '\u{202f}'
        || c == '\u{205f}' || c == '\u{3000}'
}

/// The words of `s`: its maximal runs of characters that are not white space, in order.
pub open spec fn tokens(s: Seq<char>) -> Seq<Seq<char>>
    decreases s.len(),
{
    if s.len() == 0 {
        Seq::empty()
    } else {
        let p = s.drop_last();
        let c = s.last();
        let t = tokens(p);
        if is_white(c) {
            t
        } else if p.len() > 0 && !is_white(p.last()) {
            t.update(t.len() - 1, t.last().push(c))
        } else {
            t.push(seq![c])
        }
    }
}

/// The words the loop looks at: the first `MAX_WORDS` words of the line.
pub open spec fn line_words(s: Seq<char>) -> Seq<Seq<char>> {
    let t = tokens(s);
    if t.len() <= MAX_WORDS {
        t
    } else {
        t.take(MAX_WORDS as int)
    }
}

proof fn lemma_tokens_nonempty(s: Seq<char>)
    requires
        s.len() > 0,
        !is_white(s.last()),
    ensures
        tokens(s).len() > 0,
    decreases s.len(),
{
    let p = s.drop_last();
    let t = tokens(p);
    if p.len() > 0 && !is_white(p.last()) {
        lemma_tokens_nonempty(p);
    }
}


proof fn lemma_tokens_blank_free(s: Seq<char>)
    ensures
        forall|i: int| 0 <= i < tokens(s).len() ==> (#[trigger] tokens(s)[i]).len() > 0,
        forall|i: int, j: int|
            0 <= i < tokens(s).len() && 0 <= j < tokens(s)[i].len() ==> !is_white(#[trigger] tokens(s)[i][j]),
    decreases s.len(),
{
    if s.len() > 0 {
        let p = s.drop_last();
        let c = s.last();
        lemma_tokens_blank_free(p);
        let t = tokens(p);
        if !is_white(c) && p.len() > 0 && !is_white(p.last()) {
            lemma_tokens_nonempty(p);
            let u = t.update(t.len() - 1, t.last().push(c));
            assert forall|i: int, j: int| 0 <= i < u.len() && 0 <= j < u[i].len() implies !is_white(#[trigger] u[i][j]) by {
                if i == t.len() - 1 && j == t.last().len() {
                    assert(u[i][j] == c);
                } else if i == t.len() - 1 {
                    assert(u[i][j] == t[i][j]);
                } else {
                    assert(u[i] == t[i]);
                }
            }
        } else if !is_white(c) {
            let u = t.push(seq![c]);
            assert forall|i: int, j: int| 0 <= i < u.len() && 0 <= j < u[i].len() implies !is_white(#[trigger] u[i][j]) by {
                if i < t.len() {
                    assert(u[i] == t[i]);
                }
            }
        }
    }
}

/// The words of a line are at most `MAX_WORDS`, none of them empty, none holding white space.
pub proof fn law_words_are_blank_free(line: Seq<char>)
    ensures
        line_words(line).len() <= MAX_WORDS,
        forall|i: int| 0 <= i < line_words(line).len() ==> (#[trigger] line_words(line)[i]).len() > 0,
        forall|i: int, j: int|
            0 <= i < line_words(line).len() && 0 <= j < line_words(line)[i].len() ==> !is_white(
                #[trigger] line_words(line)[i][j],
            ),
{
    lemma_tokens_blank_free(line);
    let t = tokens(line);
    assert forall|i: int| 0 <= i < line_words(line).len() implies line_words(line)[i] == t[i] by {}
}

/// The characters of each string.
pub open spec fn string_views(v: Seq<String>) -> Seq<Seq<char>> {
    v.map_values(|x: String| x@)
}

/// Splits a line into its words, keeping at most `MAX_WORDS`, as `split_whitespace` does.
pub fn split_words(line: &str) -> (r: Vec<String>)
    ensures
        string_views(r@) == line_words(line@),
{
    let n = line.unicode_len();
    let mut out: Vec<String> = Vec::new();
    let mut total: usize = 0;
    let mut in_word = false;
    let mut i: usize = 0;
    while i < n
        invariant
            n == line@.len(),
            i <= n,
            total == tokens(line@.take(i as int)).len(),
            total <= i,
            in_word == (i > 0 && !is_white(line@[i - 1])),
            string_views(out@) == (if total <= MAX_WORDS {
                tokens(line@.take(i as int))
            } else {
                tokens(line@.take(i as int)).take(MAX_WORDS as int)
            }),
        decreases n - i,
    {
        let c = line.get_char(i);
        let ghost s1 = line@.take(i + 1);
        let ghost p = line@.take(i as int);
        proof {
            assert(s1.drop_last() =~= p);
            assert(s1.last() == c);
            if i > 0 {
                assert(p.last() == line@[i - 1]);
            }
        }
        if is_white_char(c) {
            in_word = false;
        } else if in_word {
            proof {
                lemma_tokens_nonempty(p);
            }
            if total <= MAX_WORDS {
                let ghost before = string_views(out@);
                let mut w = out.pop().unwrap();
                push_char(&mut w, c);
                out.push(w);
                assert(string_views(out@) =~= before.update(before.len() - 1, before.last().push(c)));
            } else {
                assert(tokens(s1).take(MAX_WORDS as int) =~= tokens(p).take(MAX_WORDS as int));
            }
        } else {
            total = total + 1;
            in_word = true;
            if total <= MAX_WORDS {
                let mut w = String::new();
                push_char(&mut w, c);
                let ghost before = string_views(out@);
                out.push(w);
                assert(string_views(out@) =~= before.push(seq![c]));
            } else {
                assert(tokens(s1).take(MAX_WORDS as int) =~= tokens(p).take(MAX_WORDS as int));
            }
        }
        i = i + 1;
    }
    assert(line@.take(n as int) =~= line@);
    out
}

/// What the loop does with a line: answer at once, or print some text and ask the hardware.
pub enum LineStep {
    /// Print this text.
    Reply(String),
    /// Print the text, then carry out a board command's pin request.
    Perform(String, Request),
    /// Print the text, then carry out a bus command's step.
    Bus(String, BusStep),
}

/// A line step with its text as characters.
pub enum LineStepView {
    Reply(Seq<char>),
    Perform(Seq<char>, Request),
    Bus(Seq<char>, BusStepView),
}

impl View for LineStep {
    type V = LineStepView;

    open spec fn view(&self) -> LineStepView {
        match self {
            LineStep::Reply(t) => LineStepView::Reply(t@),
            LineStep::Perform(t, r) => LineStepView::Perform(t@, *r),
            LineStep::Bus(t, b) => LineStepView::Bus(t@, b@),
        }
    }
}

/// The line step for a command's step, after the answer prefix `pre`.
pub open spec fn dispatch(pre: Seq<char>, s: CommandStepView) -> LineStepView {
    match s {
        CommandStepView::Board(StepView::Reply(t)) => LineStepView::Reply(pre + t),
        CommandStepView::Board(StepView::Perform(q)) => LineStepView::Perform(pre, q),
        CommandStepView::Bus(b) => LineStepView::Bus(pre, b),
    }
}

/// What the loop does with the words of a line, given the registered commands and the
/// settings: nothing for an empty line; `help` lists the commands, `help <name>` prints the
/// help of that command (nothing when there is none); a registered name runs that command on
/// the remaining words; any other name is reported as unknown. Every answer starts with the
/// answer colour. The second part is the settings afterwards, the third the registered
/// commands afterwards (the command that ran may have changed its own settings).
pub open spec fn line_step(reg: CommandRegistry, c: CliConfig, w: Seq<Seq<char>>) -> (LineStepView, CliConfig, Seq<CommandType>) {
    if w.len() == 0 {
        (LineStepView::Reply(Seq::empty()), c, reg.commands())
    } else {
        let pre = answer_prefix_text(c);
        if w[0] == "help"@ {
            if w.len() == 1 {
                (LineStepView::Reply(pre + listing(sorted_command_names(reg.names()))), c, reg.commands())
            } else if reg.names().contains(w[1]) {
                (
                    LineStepView::Reply(pre + command_help(reg.commands()[first_index(reg.names(), w[1])])),
                    c,
                    reg.commands(),
                )
            } else {
                (LineStepView::Reply(pre), c, reg.commands())
            }
        } else if reg.names().contains(w[0]) {
            let k = first_index(reg.names(), w[0]);
            let r = command_step(reg.commands()[k], w.skip(1), c);
            (dispatch(pre, r.0), r.1, reg.commands().update(k, r.2))
        } else {
            (LineStepView::Reply(
                pre + "Unknown command: "@ + w[0] + ". Type 'help' for available commands.\r\n"@,
            ), c, reg.commands())
        }
    }
}


/// A command added to the registry answers to its name: a line that starts with that name
/// runs the new command on the rest of the line, and `help` with that name prints its help.
/// Nothing in the main loop changes for it.
pub proof fn law_registered_command_runs(
    before: CommandRegistry,
    after: CommandRegistry,
    c: CommandType,
    cfg: CliConfig,
    w: Seq<Seq<char>>,
)
    requires
        before.wf(),
        !before.names().contains(command_name_of(c)),
        after.commands() == before.commands().push(c),
        w.len() > 0,
        w[0] == command_name_of(c),
    ensures
        line_step(after, cfg, w) == (
            dispatch(answer_prefix_text(cfg), command_step(c, w.skip(1), cfg).0),
            command_step(c, w.skip(1), cfg).1,
            after.commands().update(before.commands().len() as int, command_step(c, w.skip(1), cfg).2),
        ),
        line_step(after, cfg, seq!["help"@, command_name_of(c)]).0 == LineStepView::Reply(
            answer_prefix_text(cfg) + command_help(c),
        ),
{
    let name = command_name_of(c);
    let n = before.commands().len();
    assert(after.names() =~= before.names().push(name));
    assert forall|j: int| 0 <= j < n implies after.names()[j] != name by {
        assert(after.names()[j] == before.names()[j]);
        if before.names()[j] == name {
            assert(before.names().contains(name));
        }
    }
    lemma_first_index(after.names(), name, n as int);
    assert(after.names().contains(name)) by {
        assert(after.names()[n as int] == name);
    }
    assert(name != "help"@) by {
        reveal_strlit("help");
        reveal_strlit("echo");
        reveal_strlit("setup");
        reveal_strlit("clear");
        reveal_strlit("led");
        reveal_strlit("mosfet");
        reveal_strlit("relay");
        reveal_strlit("isolated_input");
        reveal_strlit("gpio");
        reveal_strlit("uart");
        reveal_strlit("rs232");
        reveal_strlit("analog");
        reveal_strlit("i2c");
        reveal_strlit("spi");
        reveal_strlit("can");
        assert(name.len() != 4 || name[0] != 'h');
    }
    let h = seq!["help"@, name];
    assert(h[1] == name);
}


/// `setup colors off` turns colours off and changes nothing else; from then on the prompt
/// is the name, the prompt character when it is on, and a space, and answers carry no colour
/// sequences.
pub proof fn law_colors_off_plain_output(cfg: CliConfig)
    ensures
        setup_outcome(seq!["colors"@, "off"@], cfg).1 == (CliConfig { colored_output: false, ..cfg }),
        prompt_text(setup_outcome(seq!["colors"@, "off"@], cfg).1) == prompt_name() + (if cfg.prompt_character {
            seq![cfg.prompt_character_char]
        } else {
            Seq::empty()
        }) + " "@,
        answer_prefix_text(setup_outcome(seq!["colors"@, "off"@], cfg).1) == Seq::<char>::empty(),
        line_end_text(setup_outcome(seq!["colors"@, "off"@], cfg).1) == Seq::<char>::empty(),
{
    reveal_strlit("colors");
    reveal_strlit("off");
    reveal_strlit("on");
    reveal_strlit("answer_length");
    reveal_strlit("prompt_character_mode");
    reveal_strlit("prompt_character");
    let a = seq!["colors"@, "off"@];
    assert(a[0] == "colors"@ && a[1] == "off"@);
    assert(a[1] != "on"@) by {
        assert(a[1].len() != "on"@.len());
    }
    assert(a[0] != "answer_length"@ && a[0] != "prompt_character_mode"@ && a[0] != "prompt_character"@);
}


/// `setup prompt_character_mode off` takes the prompt character out of the prompt, and
/// `setup prompt_character_mode on` puts it back; nothing else changes.
pub proof fn law_prompt_character_mode(cfg: CliConfig)
    ensures
        setup_outcome(seq!["prompt_character_mode"@, "off"@], cfg).1 == (CliConfig { prompt_character: false, ..cfg }),
        prompt_mark(setup_outcome(seq!["prompt_character_mode"@, "off"@], cfg).1) == Seq::<char>::empty(),
        setup_outcome(seq!["prompt_character_mode"@, "on"@], cfg).1 == (CliConfig { prompt_character: true, ..cfg }),
        prompt_mark(setup_outcome(seq!["prompt_character_mode"@, "on"@], cfg).1) != Seq::<char>::empty(),
{
    reveal_strlit("colors");
    reveal_strlit("off");
    reveal_strlit("on");
    reveal_strlit("answer_length");
    reveal_strlit("prompt_character_mode");
    reveal_strlit("prompt_character");
    let a = seq!["prompt_character_mode"@, "off"@];
    let b = seq!["prompt_character_mode"@, "on"@];
    assert(a[0] == "prompt_character_mode"@ && a[1] == "off"@ && b[0] == a[0] && b[1] == "on"@);
    assert(a[1] != "on"@) by {
        assert(a[1].len() != "on"@.len());
    }
    assert(a[0] != "colors"@ && a[0] != "answer_length"@) by {
        assert(a[0].len() != "colors"@.len() && a[0].len() != "answer_length"@.len());
    }
    assert(a[0] != "prompt_character"@) by {
        assert(a[0].len() != "prompt_character"@.len());
    }
    let c2 = setup_outcome(b, cfg).1;
    let ch = seq![c2.prompt_character_char];
    assert(ch.len() == 1);
    if c2.colored_output && c2.prompt_character_color is Some {
        assert(prompt_mark(c2).len() >= 1);
    }
}

/// The answer colour, when colours are on.
fn answer_prefix(config: &CliConfig) -> (r: String)
    ensures
        r@ == answer_prefix_text(*config),
{
    let mut s = String::new();
    if config.colored_output {
        if let Some(color) = config.answer_color {
            s.append(color);
        }
    }
    s
}

/// Runs the words of a line: `help`, a registered command, or an unknown name.
/// Running a command keeps the registry's names as they were.
pub fn run_line(registry: &mut CommandRegistry, config: &mut CliConfig, line: &[&str]) -> (r: LineStep)
    requires
        old(registry).wf(),
    ensures
        final(registry).wf(),
        final(registry).names() == old(registry).names(),
        (r@, *final(config), final(registry).commands()) == line_step(*old(registry), *old(config), words(line)),
{
    let ghost w = words(line);
    if line.len() == 0 {
        return LineStep::Reply(String::new());
    }
    let mut out = answer_prefix(config);
    let cmd_name = line[0];
    assert(w[0] == cmd_name@);
    if str_eq(cmd_name, "help") {
        if line.len() == 1 {
            let list = registry.print_command_list();
            out.append(list.as_str());
        } else {
            assert(w[1] == line@[1]@);
            match registry.print_help(line[1]) {
                Some(text) => {
                    out.append(text.as_str());
                },
                None => {},
            }
        }
        return LineStep::Reply(out);
    }
    let args = &line[1..line.len()];
    assert(words(args) =~= w.skip(1));
    let ghost reg0 = *registry;
    let found = match registry.get_command_mut(cmd_name) {
        Some(command) => Some(command.execute(args, config)),
        None => None,
    };
    proof {
        if reg0.names().contains(cmd_name@) {
            let k = first_index(reg0.names(), cmd_name@);
            assert(registry.names() =~= reg0.names());
        }
    }
    match found {
        Some(CommandStep::Board(Step::Reply(text))) => {
            out.append(text.as_str());
            LineStep::Reply(out)
        },
        Some(CommandStep::Board(Step::Perform(request))) => LineStep::Perform(out, request),
        Some(CommandStep::Bus(step)) => LineStep::Bus(out, step),
        None => {
            out.append("Unknown command: ");
            out.append(cmd_name);
            out.append(". Type 'help' for available commands.\r\n");
            LineStep::Reply(out)
        },
    }
}


/// What the loop prints once the hardware has answered the request of a line: the report of
/// the command the line named, or nothing when the line named no registered command.
pub open spec fn line_report(reg: CommandRegistry, w: Seq<Seq<char>>, q: Request, resp: Response, short: bool) -> Seq<char> {
    if w.len() > 0 && w[0] != "help"@ && reg.names().contains(w[0]) {
        command_report(reg.commands()[first_index(reg.names(), w[0])], w.skip(1), q, resp, short)
    } else {
        Seq::empty()
    }
}

/// Finishes a line whose step asked the hardware: the report of the command the line named.
pub fn finish_line(
    registry: &mut CommandRegistry,
    config: &CliConfig,
    line: &[&str],
    request: Request,
    response: Response,
) -> (r: String)
    requires
        old(registry).wf(),
    ensures
        final(registry).wf(),
        final(registry).names() == old(registry).names(),
        r@ == line_report(*old(registry), words(line), request, response, config.short()),
{
    let ghost w = words(line);
    if line.len() == 0 {
        return String::new();
    }
    let cmd_name = line[0];
    assert(w[0] == cmd_name@);
    if str_eq(cmd_name, "help") {
        return String::new();
    }
    let args = &line[1..line.len()];
    assert(words(args) =~= w.skip(1));
    let ghost reg0 = *registry;
    let found = match registry.get_command_mut(cmd_name) {
        Some(command) => Some(command.finish(args, request, response, config)),
        None => None,
    };
    proof {
        if reg0.names().contains(cmd_name@) {
            assert(registry.names() =~= reg0.names());
        }
    }
    match found {
        Some(text) => text,
        None => String::new(),
    }
}

} // verus!
