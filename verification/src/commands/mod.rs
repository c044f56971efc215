//! The commands and the registry that holds them.
use vstd::prelude::*;
use crate::cli_config::CliConfig;
use crate::command::{words, Command, Request, Response, Step, StepView};
use crate::text::{lex_lt, lemma_lex_irreflexive, lemma_lex_total, lemma_lex_transitive, str_eq, str_gt};
use vstd::string::StringExecFns;

pub mod echo;
pub mod clear;
pub mod setup;
pub mod outputs;
pub mod led;
pub mod mosfets;
pub mod relays;
pub mod isolated_inputs;
pub mod gpios;
pub mod serial_port;
pub mod uart;
pub mod rs232;
pub mod analog;
pub mod i2c;
pub mod spi;
pub mod can;

pub use echo::EchoCommand;
pub use setup::SetupCommand;
pub use clear::ClearCommand;
pub use led::LedCommand;
pub use mosfets::MosfetCommand;
pub use relays::RelayCommand;
pub use isolated_inputs::IsolatedInputCommand;
pub use gpios::GpioCommand;
pub use uart::UartCommand;
pub use rs232::Rs232Command;
pub use analog::AnalogCommand;
pub use i2c::I2cCommand;
pub use spi::SpiCommand;
pub use can::CanCommand;

verus! {

/// The most commands a registry holds: room for every kind of command.
pub const MAX_COMMANDS: usize = 16;

/// Any of the commands a registry can hold.
pub enum CommandType {
    Echo(EchoCommand),
    Setup(SetupCommand),
    Clear(ClearCommand),
    Led(LedCommand),
    Mosfets(MosfetCommand),
    Relays(RelayCommand),
    IsolatedInputs(IsolatedInputCommand),
    Gpios(GpioCommand),
    Uart(UartCommand),
    Rs232(Rs232Command),
    Analog(AnalogCommand),
    I2c(I2cCommand),
    Spi(SpiCommand),
    Can(CanCommand),
}

/// What a bus or analog command asks of the hardware (or answers at once).
pub enum BusStep {
    Serial(serial_port::SerialStep),
    Analog(analog::AnalogStep),
    I2c(i2c::I2cStep),
    Spi(spi::SpiStep),
    Can(can::CanStep),
}

/// A bus step with its texts and bytes as sequences.
pub enum BusStepView {
    Serial(serial_port::SerialStepView),
    Analog(analog::AnalogStepView),
    I2c(i2c::I2cStepView),
    Spi(spi::SpiStepView),
    Can(can::CanStepView),
}

impl View for BusStep {
    type V = BusStepView;

    open spec fn view(&self) -> BusStepView {
        match self {
            BusStep::Serial(x) => BusStepView::Serial(x@),
            BusStep::Analog(x) => BusStepView::Analog(x@),
            BusStep::I2c(x) => BusStepView::I2c(x@),
            BusStep::Spi(x) => BusStepView::Spi(x@),
            BusStep::Can(x) => BusStepView::Can(x@),
        }
    }
}

/// What any registered command does with a command line: a board command's step (an answer,
/// or a pin request), or a bus command's step.
pub enum CommandStep {
    Board(Step),
    Bus(BusStep),
}

/// A command step with its texts as sequences.
pub enum CommandStepView {
    Board(StepView),
    Bus(BusStepView),
}

impl View for CommandStep {
    type V = CommandStepView;

    open spec fn view(&self) -> CommandStepView {
        match self {
            CommandStep::Board(x) => CommandStepView::Board(x@),
            CommandStep::Bus(x) => CommandStepView::Bus(x@),
        }
    }
}

/// The name a user types for a command.
pub open spec fn command_name_of(c: CommandType) -> Seq<char> {
    match c {
        CommandType::Echo(_) => "echo"@,
        CommandType::Setup(_) => "setup"@,
        CommandType::Clear(_) => "clear"@,
        CommandType::Led(_) => "led"@,
        CommandType::Mosfets(_) => "mosfet"@,
        CommandType::Relays(_) => "relay"@,
        CommandType::IsolatedInputs(_) => "isolated_input"@,
        CommandType::Gpios(_) => "gpio"@,
        CommandType::Uart(_) => "uart"@,
        CommandType::Rs232(_) => "rs232"@,
        CommandType::Analog(_) => "analog"@,
        CommandType::I2c(_) => "i2c"@,
        CommandType::Spi(_) => "spi"@,
        CommandType::Can(_) => "can"@,
    }
}

/// What a command does with a command line: its step, the settings it leaves, and the command
/// afterwards (the bus commands keep their line and bus settings).
pub open spec fn command_step(c: CommandType, a: Seq<Seq<char>>, cfg: CliConfig) -> (CommandStepView, CliConfig, CommandType) {
    let short = cfg.short();
    match c {
        CommandType::Echo(_) => (CommandStepView::Board(StepView::Reply(echo::echo_text(a, short))), cfg, c),
        CommandType::Setup(_) => {
            let r = setup::setup_outcome(a, cfg);
            (CommandStepView::Board(StepView::Reply(r.0)), r.1, c)
        },
        CommandType::Clear(_) => (CommandStepView::Board(StepView::Reply(clear::clear_text(a))), cfg, c),
        CommandType::Led(_) => (CommandStepView::Board(outputs::output_step(outputs::OutputKind::Led, a)), cfg, c),
        CommandType::Mosfets(_) => (
            CommandStepView::Board(outputs::output_step(outputs::OutputKind::Mosfet, a)),
            cfg,
            c,
        ),
        CommandType::Relays(_) => (
            CommandStepView::Board(outputs::output_step(outputs::OutputKind::Relay, a)),
            cfg,
            c,
        ),
        CommandType::IsolatedInputs(_) => (CommandStepView::Board(isolated_inputs::isolated_step(a)), cfg, c),
        CommandType::Gpios(_) => (CommandStepView::Board(gpios::gpio_step(a)), cfg, c),
        CommandType::Uart(x) => {
            let r = uart::uart_outcome(a, x, short);
            (CommandStepView::Bus(BusStepView::Serial(r.0)), cfg, CommandType::Uart(r.1))
        },
        CommandType::Rs232(x) => {
            let r = rs232::rs232_outcome(a, x.config, short);
            (CommandStepView::Bus(BusStepView::Serial(r.0)), cfg, CommandType::Rs232(Rs232Command { config: r.1 }))
        },
        CommandType::Analog(x) => {
            let r = analog::analog_outcome(a, x, short);
            (CommandStepView::Bus(BusStepView::Analog(r.0)), cfg, CommandType::Analog(r.1))
        },
        CommandType::I2c(_) => (CommandStepView::Bus(BusStepView::I2c(i2c::i2c_outcome(a, short))), cfg, c),
        CommandType::Spi(x) => {
            let r = spi::spi_outcome(a, x, short);
            (CommandStepView::Bus(BusStepView::Spi(r.0)), cfg, CommandType::Spi(r.1))
        },
        CommandType::Can(x) => {
            let r = can::can_outcome(a, x.state, short);
            (CommandStepView::Bus(BusStepView::Can(r.0)), cfg, CommandType::Can(CanCommand { state: r.1 }))
        },
    }
}

/// What a command prints once the hardware has answered its request.
pub open spec fn command_report(
    c: CommandType,
    a: Seq<Seq<char>>,
    req: Request,
    resp: Response,
    short: bool,
) -> Seq<char> {
    match c {
        CommandType::Led(_) => outputs::output_report(
            outputs::OutputKind::Led,
            a,
            outputs::requested_on(req),
            resp,
            short,
        ),
        CommandType::Mosfets(_) => outputs::output_report(
            outputs::OutputKind::Mosfet,
            a,
            outputs::requested_on(req),
            resp,
            short,
        ),
        CommandType::Relays(_) => outputs::output_report(
            outputs::OutputKind::Relay,
            a,
            outputs::requested_on(req),
            resp,
            short,
        ),
        CommandType::IsolatedInputs(_) => isolated_inputs::isolated_report(a, resp, short),
        CommandType::Gpios(_) => gpios::gpio_report(a, req, resp, short),
        _ => Seq::empty(),
    }
}

/// The help text of a command.
pub open spec fn command_help(c: CommandType) -> Seq<char> {
    match c {
        CommandType::Echo(x) => x.help_spec(),
        CommandType::Setup(x) => x.help_spec(),
        CommandType::Clear(x) => x.help_spec(),
        CommandType::Led(x) => x.help_spec(),
        CommandType::Mosfets(x) => x.help_spec(),
        CommandType::Relays(x) => x.help_spec(),
        CommandType::IsolatedInputs(x) => x.help_spec(),
        CommandType::Gpios(x) => x.help_spec(),
        CommandType::Uart(x) => x.help_spec(),
        CommandType::Rs232(x) => x.help_spec(),
        CommandType::Analog(x) => x.help_spec(),
        CommandType::I2c(x) => x.help_spec(),
        CommandType::Spi(x) => x.help_spec(),
        CommandType::Can(x) => x.help_spec(),
    }
}

impl CommandType {
    /// The name a user types for the command.
    pub fn name(&self) -> (r: &'static str)
        ensures
            r@ == command_name_of(*self),
    {
        match self {
            CommandType::Echo(cmd) => cmd.name(),
            CommandType::Setup(cmd) => cmd.name(),
            CommandType::Clear(cmd) => cmd.name(),
            CommandType::Led(cmd) => cmd.name(),
            CommandType::Mosfets(cmd) => cmd.name(),
            CommandType::Relays(cmd) => cmd.name(),
            CommandType::IsolatedInputs(cmd) => cmd.name(),
            CommandType::Gpios(cmd) => cmd.name(),
            CommandType::Uart(cmd) => cmd.name(),
            CommandType::Rs232(cmd) => cmd.name(),
            CommandType::Analog(cmd) => cmd.name(),
            CommandType::I2c(cmd) => cmd.name(),
            CommandType::Spi(cmd) => cmd.name(),
            CommandType::Can(cmd) => cmd.name(),
        }
    }

    /// Prepares the command; every command here needs nothing, succeeds and stays as it was.
    pub fn initialize(&mut self) -> (r: Result<(), &'static str>)
        ensures
            r is Ok,
            *final(self) == *old(self),
    {
        match self {
            CommandType::Echo(cmd) => cmd.initialize(),
            CommandType::Setup(cmd) => cmd.initialize(),
            CommandType::Clear(cmd) => cmd.initialize(),
            CommandType::Led(cmd) => cmd.initialize(),
            CommandType::Mosfets(cmd) => cmd.initialize(),
            CommandType::Relays(cmd) => cmd.initialize(),
            CommandType::IsolatedInputs(cmd) => cmd.initialize(),
            CommandType::Gpios(cmd) => cmd.initialize(),
            CommandType::Uart(cmd) => cmd.initialize(),
            CommandType::Rs232(cmd) => cmd.initialize(),
            CommandType::Analog(cmd) => cmd.initialize(),
            CommandType::I2c(cmd) => cmd.initialize(),
            CommandType::Spi(cmd) => cmd.initialize(),
            CommandType::Can(cmd) => cmd.initialize(),
        }
    }

    /// What the command does with a command line; `setup` changes the interface settings, and
    /// the bus commands their own settings.
    pub fn execute(&mut self, args: &[&str], config: &mut CliConfig) -> (s: CommandStep)
        ensures
            (s@, *final(config), *final(self)) == command_step(*old(self), words(args), *old(config)),
            command_name_of(*final(self)) == command_name_of(*old(self)),
    {
        match self {
            CommandType::Echo(cmd) => CommandStep::Board(Step::Reply(cmd.execute(args, config))),
            CommandType::Setup(cmd) => CommandStep::Board(Step::Reply(cmd.execute(args, config))),
            CommandType::Clear(cmd) => CommandStep::Board(Step::Reply(cmd.execute(args))),
            CommandType::Led(cmd) => CommandStep::Board(cmd.execute(args)),
            CommandType::Mosfets(cmd) => CommandStep::Board(cmd.execute(args)),
            CommandType::Relays(cmd) => CommandStep::Board(cmd.execute(args)),
            CommandType::IsolatedInputs(cmd) => CommandStep::Board(cmd.execute(args)),
            CommandType::Gpios(cmd) => CommandStep::Board(cmd.execute(args)),
            CommandType::Uart(cmd) => CommandStep::Bus(BusStep::Serial(cmd.execute(args, config))),
            CommandType::Rs232(cmd) => CommandStep::Bus(BusStep::Serial(cmd.execute(args, config))),
            CommandType::Analog(cmd) => CommandStep::Bus(BusStep::Analog(cmd.execute(args, config))),
            CommandType::I2c(cmd) => CommandStep::Bus(BusStep::I2c(cmd.execute(args, config))),
            CommandType::Spi(cmd) => CommandStep::Bus(BusStep::Spi(cmd.execute(args, config))),
            CommandType::Can(cmd) => CommandStep::Bus(BusStep::Can(cmd.execute(args, config))),
        }
    }

    /// What the command prints once the hardware has answered the request its step asked for.
    pub fn finish(&mut self, args: &[&str], request: Request, response: Response, config: &CliConfig) -> (r: String)
        ensures
            r@ == command_report(*old(self), words(args), request, response, config.short()),
            *final(self) == *old(self),
    {
        match self {
            CommandType::Led(cmd) => cmd.finish(args, request, response, config),
            CommandType::Mosfets(cmd) => cmd.finish(args, request, response, config),
            CommandType::Relays(cmd) => cmd.finish(args, request, response, config),
            CommandType::IsolatedInputs(cmd) => cmd.finish(args, response, config),
            CommandType::Gpios(cmd) => cmd.finish(args, request, response, config),
            _ => String::new(),
        }
    }

    /// The help text of the command.
    pub fn print_help(&self) -> (r: String)
        ensures
            r@ == command_help(*self),
    {
        match self {
            CommandType::Echo(cmd) => cmd.help_text(),
            CommandType::Setup(cmd) => cmd.help_text(),
            CommandType::Clear(cmd) => cmd.help_text(),
            CommandType::Led(cmd) => cmd.help_text(),
            CommandType::Mosfets(cmd) => cmd.help_text(),
            CommandType::Relays(cmd) => cmd.help_text(),
            CommandType::IsolatedInputs(cmd) => cmd.help_text(),
            CommandType::Gpios(cmd) => cmd.help_text(),
            CommandType::Uart(cmd) => cmd.help_text(),
            CommandType::Rs232(cmd) => cmd.help_text(),
            CommandType::Analog(cmd) => cmd.help_text(),
            CommandType::I2c(cmd) => cmd.help_text(),
            CommandType::Spi(cmd) => cmd.help_text(),
            CommandType::Can(cmd) => cmd.help_text(),
        }
    }
}


/// The names of a sequence of commands.
pub open spec fn names_of(cmds: Seq<CommandType>) -> Seq<Seq<char>> {
    cmds.map_values(|c: CommandType| command_name_of(c))
}

/// No two of the names are the same.
pub open spec fn distinct(names: Seq<Seq<char>>) -> bool {
    forall|i: int, j: int| 0 <= i < j < names.len() ==> names[i] != names[j]
}


/// The first position of `name` in `names`, when it occurs.
pub open spec fn first_index(names: Seq<Seq<char>>, name: Seq<char>) -> int {
    choose|i: int|
        0 <= i < names.len() && names[i] == name && forall|j: int| 0 <= j < i ==> names[j] != name
}

pub(crate) proof fn lemma_first_index(names: Seq<Seq<char>>, name: Seq<char>, i: int)
    requires
        0 <= i < names.len(),
        names[i] == name,
        forall|j: int| 0 <= j < i ==> names[j] != name,
    ensures
        first_index(names, name) == i,
{
    let k = first_index(names, name);
    assert(0 <= k < names.len() && names[k] == name && forall|j: int| 0 <= j < k ==> names[j]
        != name);
    if k < i {
        assert(names[k] != name);
    } else if k > i {
        assert(names[i] != name);
    }
}


/// The names of all the kinds of command, in the order the firmware registers them.
pub open spec fn kind_names() -> Seq<Seq<char>> {
    seq![
        "echo"@, "setup"@, "clear"@, "led"@, "mosfet"@, "relay"@, "isolated_input"@, "gpio"@,
        "uart"@, "rs232"@, "analog"@, "i2c"@, "spi"@, "can"@,
    ]
}

/// Every kind of command fits in one registry: their names are all different and there are
/// no more of them than a registry holds, so registering one of each, one after another, never
/// fails, and each is then found by its name.
pub proof fn law_every_kind_fits()
    ensures
        kind_names().len() <= MAX_COMMANDS,
        distinct(kind_names()),
{
    reveal_strlit("echo");
    reveal_strlit("setup");
    reveal_strlit("clear");
    reveal_strlit("led");
    reveal_strlit("mosfet");
    reveal_strlit("relay");
    reveal_strlit("isolated_input");
    reveal_strlit("gpio");
    reveal_strlit("uart");
    reveal_strlit("rs232");
    reveal_strlit("analog");
    reveal_strlit("i2c");
    reveal_strlit("spi");
    reveal_strlit("can");
    let k = kind_names();
    assert forall|i: int, j: int| 0 <= i < j < k.len() implies k[i] != k[j] by {
        if k[i] == k[j] {
            assert(k[i].len() == k[j].len());
            assert(k[i][0] == k[j][0]);
            assert(k[i][1] == k[j][1]);
        }
    }
}

/// `a` does not sort after `b`.
pub open spec fn name_le(a: Seq<char>, b: Seq<char>) -> bool {
    !lex_lt(b, a)
}

/// The names are in ascending order.
pub open spec fn sorted_names(s: Seq<Seq<char>>) -> bool {
    forall|i: int, j: int| 0 <= i < j < s.len() ==> name_le(s[i], s[j])
}

/// The command list: each name on a line of its own, indented by two spaces.
pub open spec fn listing(s: Seq<Seq<char>>) -> Seq<char>
    decreases s.len(),
{
    if s.len() == 0 {
        Seq::empty()
    } else {
        listing(s.drop_last()) + "  "@ + s.last() + "\r\n"@
    }
}

/// The characters of each string.
pub open spec fn str_views(s: Seq<&str>) -> Seq<Seq<char>> {
    s.map_values(|x: &str| x@)
}

proof fn lemma_name_le_transitive(a: Seq<char>, b: Seq<char>, c: Seq<char>)
    requires
        name_le(a, b),
        name_le(b, c),
    ensures
        name_le(a, c),
{
    if lex_lt(c, a) {
        if a == b {
        } else if b == c {
        } else {
            lemma_lex_total(a, b);
            lemma_lex_total(b, c);
            lemma_lex_transitive(a, b, c);
            lemma_lex_transitive(c, a, b);
        }
    }
}

proof fn lemma_swap_multiset(s: Seq<Seq<char>>, j: int)
    requires
        0 <= j,
        j + 1 < s.len(),
    ensures
        s.update(j, s[j + 1]).update(j + 1, s[j]).to_multiset() == s.to_multiset(),
{
    broadcast use vstd::seq_lib::to_multiset_remove;
    broadcast use vstd::multiset::group_multiset_axioms;

    let t = s.update(j, s[j + 1]).update(j + 1, s[j]);
    assert(s.remove(j + 1).remove(j) =~= t.remove(j + 1).remove(j));
    let r = s.remove(j + 1);
    let q = t.remove(j + 1);
    assert(r[j] == s[j]);
    assert(q[j] == s[j + 1]);
    vstd::seq_lib::to_multiset_remove(s, j + 1);
    vstd::seq_lib::to_multiset_remove(t, j + 1);
    vstd::seq_lib::to_multiset_remove(r, j);
    vstd::seq_lib::to_multiset_remove(q, j);
    s.to_multiset_ensures();
    t.to_multiset_ensures();
    r.to_multiset_ensures();
    q.to_multiset_ensures();
    assert(s.contains(s[j + 1]));
    assert(t.contains(t[j + 1]));
    assert(r.contains(r[j]));
    assert(q.contains(q[j]));
    assert(s.to_multiset() =~= r.to_multiset().insert(s[j + 1]));
    assert(r.to_multiset() =~= r.remove(j).to_multiset().insert(s[j]));
    assert(t.to_multiset() =~= q.to_multiset().insert(s[j]));
    assert(q.to_multiset() =~= q.remove(j).to_multiset().insert(s[j + 1]));
}


/// The order the command list uses, as a relation.
pub open spec fn name_order() -> spec_fn(Seq<char>, Seq<char>) -> bool {
    |a: Seq<char>, b: Seq<char>| name_le(a, b)
}

/// The names in the order the command list prints them.
pub open spec fn sorted_command_names(names: Seq<Seq<char>>) -> Seq<Seq<char>> {
    names.sort_by(name_order())
}

/// The order of the command list is a total order.
pub proof fn lemma_name_order_total()
    ensures
        vstd::relations::total_ordering(name_order()),
{
    let r = name_order();
    assert forall|a: Seq<char>| #[trigger] r(a, a) by {
        lemma_lex_irreflexive(a);
    }
    assert forall|a: Seq<char>, b: Seq<char>| #[trigger] r(a, b) && #[trigger] r(b, a) implies a == b by {
        if a != b {
            lemma_lex_total(a, b);
        }
    }
    assert forall|a: Seq<char>, b: Seq<char>, c: Seq<char>|
        #[trigger] r(a, b) && #[trigger] r(b, c) implies #[trigger] r(a, c) by {
        lemma_name_le_transitive(a, b, c);
    }
    assert forall|a: Seq<char>, b: Seq<char>| #[trigger] r(a, b) || #[trigger] r(b, a) by {
        if a != b {
            lemma_lex_total(a, b);
            if lex_lt(a, b) && lex_lt(b, a) {
                lemma_lex_transitive(a, b, a);
                lemma_lex_irreflexive(a);
            }
        } else {
            lemma_lex_irreflexive(a);
        }
    }
}

proof fn lemma_multiset_first(s: Seq<Seq<char>>)
    requires
        s.len() > 0,
    ensures
        s.to_multiset() == s.drop_first().to_multiset().insert(s[0]),
{
    broadcast use vstd::seq_lib::to_multiset_remove;
    broadcast use vstd::multiset::group_multiset_axioms;

    assert(s.remove(0) =~= s.drop_first());
    assert(s.to_multiset().count(s[0]) > 0) by {
        broadcast use vstd::seq_lib::group_to_multiset_ensures;

        assert(s.contains(s[0]));
    }
    assert(s.to_multiset() =~= s.drop_first().to_multiset().insert(s[0]));
}

/// Two ascending orderings of the same names are the same sequence.
pub proof fn lemma_sorted_unique(s1: Seq<Seq<char>>, s2: Seq<Seq<char>>)
    requires
        sorted_names(s1),
        sorted_names(s2),
        s1.to_multiset() == s2.to_multiset(),
    ensures
        s1 == s2,
    decreases s1.len(),
{
    broadcast use vstd::seq_lib::group_to_multiset_ensures;
    broadcast use vstd::multiset::group_multiset_axioms;

    if s1.len() == 0 {
        assert(s2.to_multiset().len() == 0);
        assert(s1 =~= s2);
    } else {
        s1.to_multiset_ensures();
        s2.to_multiset_ensures();
        assert(s1.to_multiset().len() == s2.to_multiset().len());
        assert(s2.len() == s1.len());
        let x = s1[0];
        let y = s2[0];
        assert(s2.contains(x)) by {
            assert(s1.contains(x));
            assert(s1.to_multiset().count(x) > 0);
        }
        assert(s1.contains(y)) by {
            assert(s2.contains(y));
            assert(s2.to_multiset().count(y) > 0);
        }
        let kx = choose|k: int| 0 <= k < s2.len() && s2[k] == x;
        let ky = choose|k: int| 0 <= k < s1.len() && s1[k] == y;
        if kx > 0 {
            assert(name_le(s2[0], s2[kx]));
        } else {
            lemma_lex_irreflexive(x);
        }
        if ky > 0 {
            assert(name_le(s1[0], s1[ky]));
        } else {
            lemma_lex_irreflexive(y);
        }
        if x != y {
            lemma_lex_total(x, y);
        }
        assert(x == y);
        lemma_multiset_first(s1);
        lemma_multiset_first(s2);
        assert(s1.drop_first().to_multiset() =~= s2.drop_first().to_multiset()) by {
            assert(s1.drop_first().to_multiset() =~= s1.to_multiset().remove(x));
            assert(s2.drop_first().to_multiset() =~= s2.to_multiset().remove(x));
        }
        assert(sorted_names(s1.drop_first())) by {
            assert forall|i: int, j: int| 0 <= i < j < s1.drop_first().len() implies name_le(
                s1.drop_first()[i],
                s1.drop_first()[j],
            ) by {
                assert(s1.drop_first()[i] == s1[i + 1]);
                assert(s1.drop_first()[j] == s1[j + 1]);
            }
        }
        assert(sorted_names(s2.drop_first())) by {
            assert forall|i: int, j: int| 0 <= i < j < s2.drop_first().len() implies name_le(
                s2.drop_first()[i],
                s2.drop_first()[j],
            ) by {
                assert(s2.drop_first()[i] == s2[i + 1]);
                assert(s2.drop_first()[j] == s2[j + 1]);
            }
        }
        lemma_sorted_unique(s1.drop_first(), s2.drop_first());
        assert(s1 =~= s2) by {
            assert forall|i: int| 0 <= i < s1.len() implies s1[i] == s2[i] by {
                if i > 0 {
                    assert(s1[i] == s1.drop_first()[i - 1]);
                    assert(s2[i] == s2.drop_first()[i - 1]);
                }
            }
        }
    }
}

/// The command list holds every registered name once per registration, in ascending order.
pub proof fn law_command_list_sorted(names: Seq<Seq<char>>)
    ensures
        sorted_names(sorted_command_names(names)),
        sorted_command_names(names).to_multiset() == names.to_multiset(),
{
    lemma_name_order_total();
    names.lemma_sort_by_ensures(name_order());
    let s = sorted_command_names(names);
    assert forall|i: int, j: int| 0 <= i < j < s.len() implies name_le(s[i], s[j]) by {
        assert(name_order()(s[i], s[j]));
    }
}

/// Sorts names in ascending order, swapping neighbours that are out of order.
fn sort_names(names: &mut Vec<&'static str>)
    ensures
        sorted_names(str_views(final(names)@)),
        str_views(final(names)@).to_multiset() == str_views(old(names)@).to_multiset(),
{
    let n = names.len();
    let ghost orig = str_views(names@).to_multiset();
    let mut i: usize = 0;
    while i < n
        invariant
            names.len() == n,
            i <= n,
            str_views(names@).to_multiset() == orig,
            forall|a: int, b: int|
                n - i <= a < b < n ==> name_le(#[trigger] names@[a]@, #[trigger] names@[b]@),
            forall|a: int, b: int|
                0 <= a < n - i <= b < n ==> name_le(#[trigger] names@[a]@, #[trigger] names@[b]@),
        decreases n - i,
    {
        let mut j: usize = 0;
        let end = n - i - 1;
        proof {
            lemma_lex_irreflexive(names@[0]@);
        }
        while j < end
            invariant
                names.len() == n,
                i < n,
                end == n - i - 1,
                j <= end,
                str_views(names@).to_multiset() == orig,
                forall|a: int, b: int|
                    n - i <= a < b < n ==> name_le(#[trigger] names@[a]@, #[trigger] names@[b]@),
                forall|a: int, b: int|
                    0 <= a < n - i <= b < n ==> name_le(#[trigger] names@[a]@, #[trigger] names@[b]@),
                forall|a: int| 0 <= a <= j ==> name_le(#[trigger] names@[a]@, names@[j as int]@),
            decreases end - j,
        {
            let x = names[j];
            let y = names[j + 1];
            if str_gt(x, y) {
                let ghost before = names@;
                proof {
                    lemma_swap_multiset(str_views(before), j as int);
                    assert(str_views(before.update(j as int, y).update(j + 1, x)) =~= str_views(
                        before,
                    ).update(j as int, y@).update(j + 1, x@));
                    lemma_lex_irreflexive(x@);
                }
                names.set(j, y);
                names.set(j + 1, x);
                assert(names@ == before.update(j as int, y).update(j + 1, x));
                assert forall|a: int| 0 <= a <= j + 1 implies name_le(
                    #[trigger] names@[a]@,
                    names@[j + 1]@,
                ) by {
                    if a < j {
                        assert(names@[a] == before[a]);
                    } else if a == j {
                        lemma_lex_total(y@, x@);
                        if x@ == y@ {
                            lemma_lex_irreflexive(x@);
                        } else if lex_lt(x@, y@) {
                            lemma_lex_transitive(x@, y@, x@);
                            lemma_lex_irreflexive(x@);
                        }
                    } else {
                        lemma_lex_irreflexive(x@);
                    }
                }
            } else {
                assert forall|a: int| 0 <= a <= j + 1 implies name_le(
                    #[trigger] names@[a]@,
                    names@[j + 1]@,
                ) by {
                    if a <= j {
                        lemma_name_le_transitive(names@[a]@, x@, y@);
                    } else {
                        lemma_lex_irreflexive(y@);
                    }
                }
            }
            j = j + 1;
        }
        assert forall|a: int, b: int|
            n - i - 1 <= a < b < n implies name_le(#[trigger] names@[a]@, #[trigger] names@[b]@) by {
            if a == n - i - 1 {
                if end > 0 {
                    assert(0 <= end - 1 && end - 1 < n - i);
                }
            }
        }
        assert forall|a: int, b: int|
            0 <= a < n - i - 1 <= b < n implies name_le(#[trigger] names@[a]@, #[trigger] names@[b]@) by {
            if b == n - i - 1 {
            }
        }
        i = i + 1;
    }
}

/// Holds the registered commands, at most `MAX_COMMANDS`, in the order they were registered.
pub struct CommandRegistry {
    commands: Vec<CommandType>,
}

impl CommandRegistry {
    /// The registered commands, oldest first.
    pub closed spec fn commands(&self) -> Seq<CommandType> {
        self.commands@
    }

    /// The names of the registered commands, oldest first.
    pub open spec fn names(&self) -> Seq<Seq<char>> {
        names_of(self.commands())
    }

    /// At most `MAX_COMMANDS` commands, no two with the same name.
    pub open spec fn wf(&self) -> bool {
        &&& self.commands().len() <= MAX_COMMANDS
        &&& distinct(self.names())
    }

    /// An empty registry.
    pub fn new() -> (r: Self)
        ensures
            r.wf(),
            r.commands() == Seq::<CommandType>::empty(),
    {
        CommandRegistry { commands: Vec::new() }
    }

    /// The number of registered commands.
    pub fn len(&self) -> (r: usize)
        ensures
            r == self.commands().len(),
    {
        self.commands.len()
    }

    /// Adds a command unless the registry is full or already holds a command of that name.
    pub fn register(&mut self, command: CommandType) -> (r: Result<(), &'static str>)
        requires
            old(self).wf(),
        ensures
            final(self).wf(),
            old(self).commands().len() >= MAX_COMMANDS ==> (r matches Err(e) && e@
                == "Command registry full"@) && final(self).commands() == old(self).commands(),
            old(self).commands().len() < MAX_COMMANDS && old(self).names().contains(
                command_name_of(command),
            ) ==> (r matches Err(e) && e@ == "Command with this name already exists"@)
                && final(self).commands() == old(self).commands(),
            old(self).commands().len() < MAX_COMMANDS && !old(self).names().contains(
                command_name_of(command),
            ) ==> r is Ok && final(self).commands() == old(self).commands().push(command),
    {
        if self.commands.len() >= MAX_COMMANDS {
            return Err("Command registry full");
        }
        let name = command.name();
        let mut i: usize = 0;
        while i < self.commands.len()
            invariant
                i <= self.commands.len(),
                self.commands.len() < MAX_COMMANDS,
                self.wf(),
                name@ == command_name_of(command),
                forall|j: int| 0 <= j < i ==> self.names()[j] != name@,
            decreases self.commands.len() - i,
        {
            if str_eq(self.commands[i].name(), name) {
                assert(self.names()[i as int] == name@);
                return Err("Command with this name already exists");
            }
            i = i + 1;
        }
        assert(!self.names().contains(name@));
        let ghost old_cmds = self.commands@;
        self.commands.push(command);
        assert(self.names() =~= names_of(old_cmds).push(name@));
        Ok(())
    }

    pub fn register_echo(&mut self, command: EchoCommand) -> (r: Result<(), &'static str>)
        requires
            old(self).wf(),
        ensures
            final(self).wf(),
            r is Ok <==> old(self).commands().len() < MAX_COMMANDS && !old(self).names().contains(
                "echo"@,
            ),
            old(self).commands().len() >= MAX_COMMANDS ==> (r matches Err(e) && e@ == "Command registry full"@),
            old(self).commands().len() < MAX_COMMANDS && old(self).names().contains("echo"@) ==> (r matches Err(e)
                && e@ == "Command with this name already exists"@),
            r is Ok ==> final(self).commands() == old(self).commands().push(CommandType::Echo(command)),
            r is Err ==> final(self).commands() == old(self).commands(),
    {
        self.register(CommandType::Echo(command))
    }

    pub fn register_setup(&mut self, command: SetupCommand) -> (r: Result<(), &'static str>)
        requires
            old(self).wf(),
        ensures
            final(self).wf(),
            r is Ok <==> old(self).commands().len() < MAX_COMMANDS && !old(self).names().contains(
                "setup"@,
            ),
            old(self).commands().len() >= MAX_COMMANDS ==> (r matches Err(e) && e@ == "Command registry full"@),
            old(self).commands().len() < MAX_COMMANDS && old(self).names().contains("setup"@) ==> (r matches Err(e)
                && e@ == "Command with this name already exists"@),
            r is Ok ==> final(self).commands() == old(self).commands().push(CommandType::Setup(command)),
            r is Err ==> final(self).commands() == old(self).commands(),
    {
        self.register(CommandType::Setup(command))
    }

    pub fn register_clear(&mut self, command: ClearCommand) -> (r: Result<(), &'static str>)
        requires
            old(self).wf(),
        ensures
            final(self).wf(),
            r is Ok <==> old(self).commands().len() < MAX_COMMANDS && !old(self).names().contains(
                "clear"@,
            ),
            old(self).commands().len() >= MAX_COMMANDS ==> (r matches Err(e) && e@ == "Command registry full"@),
            old(self).commands().len() < MAX_COMMANDS && old(self).names().contains("clear"@) ==> (r matches Err(e)
                && e@ == "Command with this name already exists"@),
            r is Ok ==> final(self).commands() == old(self).commands().push(CommandType::Clear(command)),
            r is Err ==> final(self).commands() == old(self).commands(),
    {
        self.register(CommandType::Clear(command))
    }

    pub fn register_led(&mut self, command: LedCommand) -> (r: Result<(), &'static str>)
        requires
            old(self).wf(),
        ensures
            final(self).wf(),
            r is Ok <==> old(self).commands().len() < MAX_COMMANDS && !old(self).names().contains(
                "led"@,
            ),
            old(self).commands().len() >= MAX_COMMANDS ==> (r matches Err(e) && e@ == "Command registry full"@),
            old(self).commands().len() < MAX_COMMANDS && old(self).names().contains("led"@) ==> (r matches Err(e)
                && e@ == "Command with this name already exists"@),
            r is Ok ==> final(self).commands() == old(self).commands().push(CommandType::Led(command)),
            r is Err ==> final(self).commands() == old(self).commands(),
    {
        self.register(CommandType::Led(command))
    }

    pub fn register_mosfets(&mut self, command: MosfetCommand) -> (r: Result<(), &'static str>)
        requires
            old(self).wf(),
        ensures
            final(self).wf(),
            r is Ok <==> old(self).commands().len() < MAX_COMMANDS && !old(self).names().contains(
                "mosfet"@,
            ),
            old(self).commands().len() >= MAX_COMMANDS ==> (r matches Err(e) && e@ == "Command registry full"@),
            old(self).commands().len() < MAX_COMMANDS && old(self).names().contains("mosfet"@) ==> (r matches Err(e)
                && e@ == "Command with this name already exists"@),
            r is Ok ==> final(self).commands() == old(self).commands().push(CommandType::Mosfets(command)),
            r is Err ==> final(self).commands() == old(self).commands(),
    {
        self.register(CommandType::Mosfets(command))
    }

    pub fn register_relays(&mut self, command: RelayCommand) -> (r: Result<(), &'static str>)
        requires
            old(self).wf(),
        ensures
            final(self).wf(),
            r is Ok <==> old(self).commands().len() < MAX_COMMANDS && !old(self).names().contains(
                "relay"@,
            ),
            old(self).commands().len() >= MAX_COMMANDS ==> (r matches Err(e) && e@ == "Command registry full"@),
            old(self).commands().len() < MAX_COMMANDS && old(self).names().contains("relay"@) ==> (r matches Err(e)
                && e@ == "Command with this name already exists"@),
            r is Ok ==> final(self).commands() == old(self).commands().push(CommandType::Relays(command)),
            r is Err ==> final(self).commands() == old(self).commands(),
    {
        self.register(CommandType::Relays(command))
    }

    pub fn register_isolated_inputs(&mut self, command: IsolatedInputCommand) -> (r: Result<(), &'static str>)
        requires
            old(self).wf(),
        ensures
            final(self).wf(),
            r is Ok <==> old(self).commands().len() < MAX_COMMANDS && !old(self).names().contains(
                "isolated_input"@,
            ),
            old(self).commands().len() >= MAX_COMMANDS ==> (r matches Err(e) && e@ == "Command registry full"@),
            old(self).commands().len() < MAX_COMMANDS && old(self).names().contains("isolated_input"@) ==> (r matches Err(e)
                && e@ == "Command with this name already exists"@),
            r is Ok ==> final(self).commands() == old(self).commands().push(
                CommandType::IsolatedInputs(command),
            ),
            r is Err ==> final(self).commands() == old(self).commands(),
    {
        self.register(CommandType::IsolatedInputs(command))
    }

    pub fn register_gpios(&mut self, command: GpioCommand) -> (r: Result<(), &'static str>)
        requires
            old(self).wf(),
        ensures
            final(self).wf(),
            r is Ok <==> old(self).commands().len() < MAX_COMMANDS && !old(self).names().contains(
                "gpio"@,
            ),
            old(self).commands().len() >= MAX_COMMANDS ==> (r matches Err(e) && e@ == "Command registry full"@),
            old(self).commands().len() < MAX_COMMANDS && old(self).names().contains("gpio"@) ==> (r matches Err(e)
                && e@ == "Command with this name already exists"@),
            r is Ok ==> final(self).commands() == old(self).commands().push(CommandType::Gpios(command)),
            r is Err ==> final(self).commands() == old(self).commands(),
    {
        self.register(CommandType::Gpios(command))
    }

    pub fn register_uart(&mut self, command: UartCommand) -> (r: Result<(), &'static str>)
        requires
            old(self).wf(),
        ensures
            final(self).wf(),
            r is Ok <==> old(self).commands().len() < MAX_COMMANDS && !old(self).names().contains(
                "uart"@,
            ),
            old(self).commands().len() >= MAX_COMMANDS ==> (r matches Err(e) && e@ == "Command registry full"@),
            old(self).commands().len() < MAX_COMMANDS && old(self).names().contains("uart"@) ==> (r matches Err(e)
                && e@ == "Command with this name already exists"@),
            r is Ok ==> final(self).commands() == old(self).commands().push(CommandType::Uart(command)),
            r is Err ==> final(self).commands() == old(self).commands(),
    {
        self.register(CommandType::Uart(command))
    }

    pub fn register_rs232(&mut self, command: Rs232Command) -> (r: Result<(), &'static str>)
        requires
            old(self).wf(),
        ensures
            final(self).wf(),
            r is Ok <==> old(self).commands().len() < MAX_COMMANDS && !old(self).names().contains(
                "rs232"@,
            ),
            old(self).commands().len() >= MAX_COMMANDS ==> (r matches Err(e) && e@ == "Command registry full"@),
            old(self).commands().len() < MAX_COMMANDS && old(self).names().contains("rs232"@) ==> (r matches Err(e)
                && e@ == "Command with this name already exists"@),
            r is Ok ==> final(self).commands() == old(self).commands().push(CommandType::Rs232(command)),
            r is Err ==> final(self).commands() == old(self).commands(),
    {
        self.register(CommandType::Rs232(command))
    }

    pub fn register_analog(&mut self, command: AnalogCommand) -> (r: Result<(), &'static str>)
        requires
            old(self).wf(),
        ensures
            final(self).wf(),
            r is Ok <==> old(self).commands().len() < MAX_COMMANDS && !old(self).names().contains(
                "analog"@,
            ),
            old(self).commands().len() >= MAX_COMMANDS ==> (r matches Err(e) && e@ == "Command registry full"@),
            old(self).commands().len() < MAX_COMMANDS && old(self).names().contains("analog"@) ==> (r matches Err(e)
                && e@ == "Command with this name already exists"@),
            r is Ok ==> final(self).commands() == old(self).commands().push(CommandType::Analog(command)),
            r is Err ==> final(self).commands() == old(self).commands(),
    {
        self.register(CommandType::Analog(command))
    }

    pub fn register_i2c(&mut self, command: I2cCommand) -> (r: Result<(), &'static str>)
        requires
            old(self).wf(),
        ensures
            final(self).wf(),
            r is Ok <==> old(self).commands().len() < MAX_COMMANDS && !old(self).names().contains(
                "i2c"@,
            ),
            old(self).commands().len() >= MAX_COMMANDS ==> (r matches Err(e) && e@ == "Command registry full"@),
            old(self).commands().len() < MAX_COMMANDS && old(self).names().contains("i2c"@) ==> (r matches Err(e)
                && e@ == "Command with this name already exists"@),
            r is Ok ==> final(self).commands() == old(self).commands().push(CommandType::I2c(command)),
            r is Err ==> final(self).commands() == old(self).commands(),
    {
        self.register(CommandType::I2c(command))
    }

    pub fn register_spi(&mut self, command: SpiCommand) -> (r: Result<(), &'static str>)
        requires
            old(self).wf(),
        ensures
            final(self).wf(),
            r is Ok <==> old(self).commands().len() < MAX_COMMANDS && !old(self).names().contains(
                "spi"@,
            ),
            old(self).commands().len() >= MAX_COMMANDS ==> (r matches Err(e) && e@ == "Command registry full"@),
            old(self).commands().len() < MAX_COMMANDS && old(self).names().contains("spi"@) ==> (r matches Err(e)
                && e@ == "Command with this name already exists"@),
            r is Ok ==> final(self).commands() == old(self).commands().push(CommandType::Spi(command)),
            r is Err ==> final(self).commands() == old(self).commands(),
    {
        self.register(CommandType::Spi(command))
    }

    pub fn register_can(&mut self, command: CanCommand) -> (r: Result<(), &'static str>)
        requires
            old(self).wf(),
        ensures
            final(self).wf(),
            r is Ok <==> old(self).commands().len() < MAX_COMMANDS && !old(self).names().contains(
                "can"@,
            ),
            old(self).commands().len() >= MAX_COMMANDS ==> (r matches Err(e) && e@ == "Command registry full"@),
            old(self).commands().len() < MAX_COMMANDS && old(self).names().contains("can"@) ==> (r matches Err(e)
                && e@ == "Command with this name already exists"@),
            r is Ok ==> final(self).commands() == old(self).commands().push(CommandType::Can(command)),
            r is Err ==> final(self).commands() == old(self).commands(),
    {
        self.register(CommandType::Can(command))
    }

    /// The registered command with this name, to run it. When there is none, nothing changes.
    pub fn get_command_mut(&mut self, name: &str) -> (r: Option<&mut CommandType>)
        ensures
            !old(self).names().contains(name@) ==> r is None && final(self).commands() == old(
                self,
            ).commands(),
            old(self).names().contains(name@) ==> match r {
                Some(c) => {
                    let k = first_index(old(self).names(), name@);
                    &&& *c == old(self).commands()[k]
                    &&& final(self).commands() == old(self).commands().update(k, *final(c))
                },
                None => false,
            },
    {
        let mut i: usize = 0;
        while i < self.commands.len()
            invariant
                i <= self.commands.len(),
                *self == *old(self),
                forall|j: int| 0 <= j < i ==> self.names()[j] != name@,
            decreases self.commands.len() - i,
        {
            let name_matches = str_eq(self.commands[i].name(), name);
            if name_matches {
                proof {
                    assert(self.names()[i as int] == name@);
                    lemma_first_index(self.names(), name@, i as int);
                }
                return Some(&mut self.commands[i]);
            }
            i = i + 1;
        }
        assert(!self.names().contains(name@)) by {
            if self.names().contains(name@) {
                let k = choose|k: int| 0 <= k < self.names().len() && self.names()[k] == name@;
                assert(self.names()[k] != name@);
            }
        }
        None
    }

    /// Prepares every registered command in order; all succeed, and the registry stays as it was.
    pub fn initialize_all_commands(&mut self) -> (r: Result<(), &'static str>)
        requires
            old(self).wf(),
        ensures
            r is Ok,
            final(self).wf(),
            final(self).commands() == old(self).commands(),
            final(self).names() == old(self).names(),
    {
        let ghost names0 = self.names();
        let ghost cmds0 = self.commands();
        let mut i: usize = 0;
        while i < self.commands.len()
            invariant
                i <= self.commands.len(),
                self.commands() == cmds0,
                self.names() == names0,
                self.commands@.len() == names0.len(),
            decreases self.commands.len() - i,
        {
            let ghost before = self.commands@;
            let cmd = &mut self.commands[i];
            let res = cmd.initialize();
            assert(self.commands@ =~= before);
            assert(self.names() =~= names0);
            match res {
                Ok(()) => {},
                Err(e) => {
                    return Err(e);
                },
            }
            i = i + 1;
        }
        Ok(())
    }

    /// The help text of the command with this name, or `None` when no command has that name.
    pub fn print_help(&self, name: &str) -> (r: Option<String>)
        ensures
            !self.names().contains(name@) ==> r is None,
            self.names().contains(name@) ==> (r matches Some(t) && t@ == command_help(
                self.commands()[first_index(self.names(), name@)],
            )),
    {
        let mut i: usize = 0;
        while i < self.commands.len()
            invariant
                i <= self.commands.len(),
                forall|j: int| 0 <= j < i ==> self.names()[j] != name@,
            decreases self.commands.len() - i,
        {
            if str_eq(self.commands[i].name(), name) {
                proof {
                    assert(self.names()[i as int] == name@);
                    lemma_first_index(self.names(), name@, i as int);
                }
                return Some(self.commands[i].print_help());
            }
            i = i + 1;
        }
        assert(!self.names().contains(name@)) by {
            if self.names().contains(name@) {
                let k = choose|k: int| 0 <= k < self.names().len() && self.names()[k] == name@;
                assert(self.names()[k] != name@);
            }
        }
        None
    }

    /// The names of the registered commands in ascending order, one per line, indented by two spaces.
    pub fn print_command_list(&self) -> (r: String)
        ensures
            r@ == listing(sorted_command_names(self.names())),
    {
        let mut names: Vec<&'static str> = Vec::new();
        let mut i: usize = 0;
        while i < self.commands.len()
            invariant
                i <= self.commands.len(),
                names@.len() == i,
                str_views(names@) =~= self.names().take(i as int),
            decreases self.commands.len() - i,
        {
            let ghost before = names@;
            names.push(self.commands[i].name());
            assert(str_views(names@) =~= str_views(before).push(self.names()[i as int]));
            assert(self.names().take(i + 1) =~= self.names().take(i as int).push(self.names()[i as int]));
            i = i + 1;
        }
        assert(self.names().take(i as int) =~= self.names());
        sort_names(&mut names);
        let ghost sorted = str_views(names@);
        proof {
            law_command_list_sorted(self.names());
            lemma_sorted_unique(sorted, sorted_command_names(self.names()));
        }
        let mut out = String::new();
        let mut k: usize = 0;
        while k < names.len()
            invariant
                k <= names.len(),
                sorted == str_views(names@),
                out@ == listing(sorted.take(k as int)),
            decreases names.len() - k,
        {
            assert(sorted.take(k + 1).drop_last() =~= sorted.take(k as int));
            out.append("  ");
            out.append(names[k]);
            out.append("\r\n");
            k = k + 1;
        }
        assert(sorted.take(k as int) =~= sorted);
        out
    }
}

} // verus!
