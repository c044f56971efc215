//! What every command shares: how it names itself, and the step it takes on a command line.
use vstd::prelude::*;
use vstd::string::StringExecFns;

verus! {

/// The words of a command line as character sequences.
pub open spec fn words(args: &[&str]) -> Seq<Seq<char>> {
    args@.map_values(|a: &str| a@)
}

/// Word `i` of a command line, or no characters when the line is shorter.
pub open spec fn word_at(a: Seq<Seq<char>>, i: int) -> Seq<char> {
    if 0 <= i < a.len() {
        a[i]
    } else {
        Seq::empty()
    }
}

/// Argument `i`, or the empty string when there are fewer arguments.
pub fn arg_at<'a>(args: &[&'a str], i: usize) -> (r: &'a str)
    ensures
        r@ == word_at(words(args), i as int),
{
    if i < args.len() {
        args[i]
    } else {
        proof {
            reveal_strlit("");
        }
        ""
    }
}

/// The words joined by single spaces.
pub open spec fn joined_words(a: Seq<Seq<char>>) -> Seq<char>
    decreases a.len(),
{
    if a.len() == 0 {
        Seq::empty()
    } else if a.len() == 1 {
        a[0]
    } else {
        joined_words(a.drop_last()) + " "@ + a.last()
    }
}

/// The words joined by single spaces.
pub fn join_words(args: &[&str]) -> (r: String)
    ensures
        r@ == joined_words(words(args)),
{
    let mut out = String::new();
    let mut i: usize = 0;
    while i < args.len()
        invariant
            i <= args.len(),
            out@ == joined_words(words(args).take(i as int)),
        decreases args.len() - i,
    {
        let ghost w = words(args);
        assert(w.take(i + 1).drop_last() =~= w.take(i as int));
        assert(w.take(i + 1).last() == args@[i as int]@);
        if i > 0 {
            out.append(" ");
        } else {
            assert(w.take(0) =~= Seq::<Seq<char>>::empty());
        }
        out.append(args[i]);
        i = i + 1;
    }
    assert(words(args).take(args.len() as int) =~= words(args));
    out
}


/// A fault that the hardware layer reports for a request.
#[derive(PartialEq, Eq, Structural, Clone, Copy, Debug)]
pub enum Fault {
    /// The pins of the device were never handed over.
    NotInitialized,
    /// The index names no pin of the device.
    InvalidIndex,
    /// A GPIO pin cannot change its mode after start-up.
    ModeChangeRequiresReinit,
    /// A GPIO pin in input mode cannot be driven.
    ConfiguredAsInput,
}

/// Whether a GPIO pin reads or drives.
#[derive(PartialEq, Eq, Structural, Clone, Copy, Debug)]
pub enum PinMode {
    Input,
    Output,
}

/// What a registered command asks the hardware to do before it can answer.
#[derive(PartialEq, Eq, Structural, Clone, Copy, Debug)]
pub enum Request {
    /// Drive LED `index` (zero-based) on or off.
    SetLed { index: usize, on: bool },
    /// Drive MOSFET output `index` on or off.
    SetMosfet { index: usize, on: bool },
    /// Drive relay `index` on or off.
    SetRelay { index: usize, on: bool },
    /// Read isolated input `index`.
    ReadIsolatedInput { index: usize },
    /// Put GPIO pin `index` in a mode.
    SetGpioMode { index: usize, mode: PinMode },
    /// Drive GPIO pin `index` high or low.
    SetGpioLevel { index: usize, high: bool },
    /// Read GPIO pin `index`.
    ReadGpio { index: usize },
}

/// The hardware's answer to a request: `Ok` with the level read (for a read), or a fault.
pub type Response = Result<bool, Fault>;

/// What a command does with a command line: answer at once, or ask the hardware first.
pub enum Step {
    /// The text to print.
    Reply(String),
    /// The hardware request to perform; the command answers once it knows the response.
    Perform(Request),
}

/// A step with its text as characters.
pub enum StepView {
    Reply(Seq<char>),
    Perform(Request),
}

impl View for Step {
    type V = StepView;

    open spec fn view(&self) -> StepView {
        match self {
            Step::Reply(t) => StepView::Reply(t@),
            Step::Perform(r) => StepView::Perform(*r),
        }
    }
}

/// A command line interface command.
pub trait Command {
    /// The name a user types, as characters.
    spec fn command_name(&self) -> Seq<char>;

    /// The help text of the command.
    spec fn help_spec(&self) -> Seq<char>;

    /// The name a user types.
    fn name(&self) -> (r: &'static str)
        ensures
            r@ == self.command_name(),
    ;

    /// Prepares the command; the commands here need nothing and always succeed.
    fn initialize(&mut self) -> (r: Result<(), &'static str>);

    /// The help text of the command.
    fn help_text(&self) -> (r: String)
        ensures
            r@ == self.help_spec(),
    ;
}

} // verus!
