//! `can`: configuration, frames and acceptance filters of the CAN bus.
use vstd::prelude::*;
use vstd::string::StringExecFns;
use crate::cli_config::CliConfig;
use crate::command::{words, Command};
use crate::text::{
    concat, concat3, format_hex_u32, format_u32, hex_u32_text, parse_hex_u32, parse_hex_u32_spec,
    parse_hex_u8, parse_hex_u8_spec, parse_suffixed_rate, parse_u32, parse_u32_spec, radix_text,
    str_eq, suffixed_rate,
};

verus! {

/// The stored bus settings: bit rate in bits per second and mode number.
#[derive(PartialEq, Eq, Structural, Clone, Copy, Debug)]
pub struct CanState {
    pub bitrate: u32,
    pub mode: u8,
}

impl CanState {
    /// 500 kbit/s, normal mode.
    pub open spec fn default_spec() -> CanState {
        CanState { bitrate: 500_000, mode: 0 }
    }

    /// 500 kbit/s, normal mode.
    pub fn default() -> (r: Self)
        ensures
            r == Self::default_spec(),
    {
        CanState { bitrate: 500_000, mode: 0 }
    }
}

/// The CAN bus command, with the stored settings.
#[derive(Clone, Copy)]
pub struct CanCommand {
    pub state: CanState,
}

/// The one way the bus can refuse a request: it was never handed over.
#[derive(PartialEq, Eq, Structural, Clone, Copy, Debug)]
pub enum CanFault {
    NotInitialized,
}

/// What a `can` command line asks of the hardware.
pub enum CanStep {
    /// Print this text.
    Reply(String),
    /// Put the bus to this bit rate (bits per second) and mode (0 normal, 1 loopback,
    /// 2 silent, 3 silent loopback), then print `reply`.
    Configure { bitrate: u32, mode: u8, reply: String },
    /// Send a frame with this identifier, these data bytes and these flags
    /// (bit 0: extended identifier, bit 1: remote request).
    Send { id: u32, data: Vec<u8>, flags: u8 },
    /// Read up to `count` frames, waiting at most `timeout` milliseconds.
    Read { count: u32, timeout: u32 },
    /// Set filter bank `filter_id` (0-13) to accept `id` under `mask`.
    Filter { filter_id: u32, id: u32, mask: u32 },
    /// Disable filter bank `filter_id` (0-13).
    DisableFilter { filter_id: u32 },
}

/// A `can` step with its text and bytes as sequences.
pub enum CanStepView {
    Reply(Seq<char>),
    Configure { bitrate: u32, mode: u8, reply: Seq<char> },
    Send { id: u32, data: Seq<u8>, flags: u8 },
    Read { count: u32, timeout: u32 },
    Filter { filter_id: u32, id: u32, mask: u32 },
    DisableFilter { filter_id: u32 },
}

impl View for CanStep {
    type V = CanStepView;

    open spec fn view(&self) -> CanStepView {
        match self {
            CanStep::Reply(t) => CanStepView::Reply(t@),
            CanStep::Configure { bitrate, mode, reply } => CanStepView::Configure {
                bitrate: *bitrate,
                mode: *mode,
                reply: reply@,
            },
            CanStep::Send { id, data, flags } => CanStepView::Send { id: *id, data: data@, flags: *flags },
            CanStep::Read { count, timeout } => CanStepView::Read { count: *count, timeout: *timeout },
            CanStep::Filter { filter_id, id, mask } => CanStepView::Filter {
                filter_id: *filter_id,
                id: *id,
                mask: *mask,
            },
            CanStep::DisableFilter { filter_id } => CanStepView::DisableFilter { filter_id: *filter_id },
        }
    }
}

/// The name of a mode number.
pub open spec fn mode_name(m: u8) -> Seq<char> {
    if m == 0 {
        "Normal"@
    } else if m == 1 {
        "Loopback"@
    } else if m == 2 {
        "Silent"@
    } else if m == 3 {
        "Silent-Loopback"@
    } else {
        "Unknown"@
    }
}

/// What `can status` prints.
pub open spec fn status_text(s: CanState) -> Seq<char> {
    "CAN Status:\r\n"@ + "  Bitrate: "@ + radix_text(s.bitrate as nat, 10) + " bps\r\n"@ + "  Mode: "@
        + mode_name(s.mode) + "\r\n"@
}

/// Whether `config <bitrate> <mode>` accepts its two words.
pub open spec fn config_accepted(rate: Seq<char>, mode: Seq<char>) -> bool {
    &&& suffixed_rate(rate) is Some
    &&& parse_u32_spec(mode) matches Some(m) && m <= 3
}

/// `config <bitrate> <mode>`: its text and the settings after it.
pub open spec fn config_outcome(s: CanState, rate: Seq<char>, mode: Seq<char>, short: bool) -> (Seq<char>, CanState) {
    match suffixed_rate(rate) {
        None => ("Error: "@ + "Invalid bitrate format"@ + "\r\n"@, s),
        Some(b) => match parse_u32_spec(mode) {
            Some(m) if m <= 3 => (
                if short {
                    "OK\r\n"@
                } else {
                    "CAN configured: "@ + rate + " mode "@ + mode + "\r\n"@
                },
                CanState { bitrate: b, mode: m as u8 },
            ),
            _ => ("Error: Mode must be 0-3\r\n"@, s),
        },
    }
}

/// The data bytes of `send`, the words from `start` up to `end`: none to eight hex bytes.
/// The limit is checked before each byte is read.
pub open spec fn frame_data(a: Seq<Seq<char>>, start: int, end: int) -> Result<Seq<u8>, Seq<char>>
    decreases end - start,
{
    if end <= start {
        Ok(Seq::empty())
    } else {
        match frame_data(a, start, end - 1) {
            Err(e) => Err(e),
            Ok(d) => if d.len() >= 8 {
                Err("Too many data bytes (max 8)"@)
            } else {
                match parse_hex_u8_spec(a[end - 1]) {
                    None => Err("Invalid hex byte"@),
                    Some(v) => Ok(d.push(v)),
                }
            },
        }
    }
}

/// Once the data words fail to parse, the words after them do not change the error.

/// The data words of `can send`: up to eight words that are all hex bytes give exactly those
/// bytes, in order; with more than eight, the ninth is refused as too many, whatever it holds.
pub proof fn law_frame_data(a: Seq<Seq<char>>, start: int, end: int)
    requires
        0 <= start <= end <= a.len(),
        forall|i: int| start <= i < end ==> (#[trigger] parse_hex_u8_spec(a[i])) is Some,
    ensures
        end - start <= 8 ==> frame_data(a, start, end) == Ok::<Seq<u8>, Seq<char>>(
            Seq::new((end - start) as nat, |i: int| parse_hex_u8_spec(a[start + i]).unwrap()),
        ),
        end - start > 8 ==> frame_data(a, start, end) == Err::<Seq<u8>, Seq<char>>(
            "Too many data bytes (max 8)"@,
        ),
    decreases end - start,
{
    if end > start {
        law_frame_data(a, start, end - 1);
        assert(parse_hex_u8_spec(a[end - 1]) is Some);
        if end - start <= 8 {
            let d = Seq::new((end - 1 - start) as nat, |i: int| parse_hex_u8_spec(a[start + i]).unwrap());
            assert(d.push(parse_hex_u8_spec(a[end - 1]).unwrap()) =~= Seq::new(
                (end - start) as nat,
                |i: int| parse_hex_u8_spec(a[start + i]).unwrap(),
            ));
        }
    } else {
        assert(Seq::new(0, |i: int| parse_hex_u8_spec(a[start + i]).unwrap()) =~= Seq::<u8>::empty());
    }
}

proof fn lemma_frame_data_error(a: Seq<Seq<char>>, start: int, j: int, end: int)
    requires
        start <= j <= end,
        frame_data(a, start, j) is Err,
    ensures
        frame_data(a, start, end) == frame_data(a, start, j),
    decreases end - j,
{
    if j < end {
        lemma_frame_data_error(a, start, j, end - 1);
    }
}

/// What `can` does with its arguments, and the settings afterwards.
pub open spec fn can_outcome(a: Seq<Seq<char>>, s: CanState, short: bool) -> (CanStepView, CanState) {
    if a.len() == 0 {
        (CanStepView::Reply(
            "Usage: can <config|send|read|filter|filter_disable|status> [args]\r\n"@
                + "Type 'help can' for more information\r\n"@,
        ), s)
    } else if a[0] == "config"@ {
        if a.len() != 3 {
            (CanStepView::Reply("Usage: can config <bitrate> <mode>\r\n"@), s)
        } else {
            let r = config_outcome(s, a[1], a[2], short);
            if config_accepted(a[1], a[2]) {
                (CanStepView::Configure { bitrate: r.1.bitrate, mode: r.1.mode, reply: r.0 }, r.1)
            } else {
                (CanStepView::Reply(r.0), r.1)
            }
        }
    } else if a[0] == "send"@ {
        if a.len() < 3 {
            (CanStepView::Reply("Usage: can send <id> <data...> <flags>\r\n"@), s)
        } else {
            match parse_hex_u32_spec(a[1]) {
                None => (CanStepView::Reply("Invalid hex ID"@ + "\r\n"@), s),
                Some(id) => match parse_u32_spec(a.last()) {
                    None => (CanStepView::Reply("Invalid integer value"@ + "\r\n"@), s),
                    Some(f) => match frame_data(a, 2, a.len() - 1) {
                        Err(e) => (CanStepView::Reply(e + "\r\n"@), s),
                        Ok(d) => (CanStepView::Send { id, data: d, flags: (f % 256) as u8 }, s),
                    },
                },
            }
        }
    } else if a[0] == "read"@ {
        if a.len() != 3 {
            (CanStepView::Reply("Usage: can read <count> <timeout>\r\n"@), s)
        } else {
            match parse_u32_spec(a[1]) {
                None => (CanStepView::Reply("Invalid integer value"@ + "\r\n"@), s),
                Some(count) => match parse_u32_spec(a[2]) {
                    None => (CanStepView::Reply("Invalid integer value"@ + "\r\n"@), s),
                    Some(timeout) => (CanStepView::Read { count, timeout }, s),
                },
            }
        }
    } else if a[0] == "filter"@ {
        if a.len() != 4 {
            (CanStepView::Reply("Usage: can filter <filter_id> <id> <mask>\r\n"@), s)
        } else {
            match parse_u32_spec(a[1]) {
                None => (CanStepView::Reply("Invalid integer value"@ + "\r\n"@), s),
                Some(fid) => match parse_hex_u32_spec(a[2]) {
                    None => (CanStepView::Reply("Invalid hex ID"@ + "\r\n"@), s),
                    Some(id) => match parse_hex_u32_spec(a[3]) {
                        None => (CanStepView::Reply("Invalid hex ID"@ + "\r\n"@), s),
                        Some(mask) => if fid > 13 {
                            (CanStepView::Reply("Error: Filter ID must be 0-13\r\n"@), s)
                        } else {
                            (CanStepView::Filter { filter_id: fid, id, mask }, s)
                        },
                    },
                },
            }
        }
    } else if a[0] == "filter_disable"@ {
        if a.len() != 2 {
            (CanStepView::Reply("Usage: can filter_disable <filter_id>\r\n"@), s)
        } else {
            match parse_u32_spec(a[1]) {
                None => (CanStepView::Reply("Invalid integer value"@ + "\r\n"@), s),
                Some(fid) => if fid > 13 {
                    (CanStepView::Reply("Error: Filter ID must be 0-13\r\n"@), s)
                } else {
                    (CanStepView::DisableFilter { filter_id: fid }, s)
                },
            }
        }
    } else if a[0] == "status"@ {
        if a.len() != 1 {
            (CanStepView::Reply("Usage: can status\r\n"@), s)
        } else {
            (CanStepView::Reply(status_text(s)), s)
        }
    } else {
        (CanStepView::Reply("Unknown subcommand\r\n"@), s)
    }
}


/// After a valid `can config <bitrate> <mode>`, `can status` reports that bit rate and mode.
pub proof fn law_config_then_status(s: CanState, rate: Seq<char>, mode: Seq<char>, short: bool)
    requires
        suffixed_rate(rate) is Some,
        parse_u32_spec(mode) matches Some(m) && m <= 3,
    ensures
        can_outcome(seq!["status"@], can_outcome(seq!["config"@, rate, mode], s, short).1, short).0
            == CanStepView::Reply(
            status_text(
                CanState { bitrate: suffixed_rate(rate).unwrap(), mode: parse_u32_spec(mode).unwrap() as u8 },
            ),
        ),
{
    reveal_strlit("config");
    reveal_strlit("status");
    let a = seq!["config"@, rate, mode];
    assert(a[0] == "config"@);
    let st = seq!["status"@];
    assert(st[0] == "status"@);
    assert(st[0] != "config"@ && st[0] != "send"@ && st[0] != "read"@ && st[0] != "filter"@
        && st[0] != "filter_disable"@) by {
        reveal_strlit("send");
        reveal_strlit("read");
        reveal_strlit("filter");
        reveal_strlit("filter_disable");
        assert(st[0][0] == 's' && st[0][1] == 't');
    }
}


/// The stored settings after running `lines` one after another from `s`.
pub open spec fn state_after(lines: Seq<Seq<Seq<char>>>, s: CanState, short: bool) -> CanState
    decreases lines.len(),
{
    if lines.len() == 0 {
        s
    } else {
        can_outcome(lines.last(), state_after(lines.drop_last(), s, short), short).1
    }
}

/// Whether a line is a `config` that is accepted.
pub open spec fn accepted_config(a: Seq<Seq<char>>) -> bool {
    a.len() == 3 && a[0] == "config"@ && config_accepted(a[1], a[2])
}

/// The settings the last accepted `config` among `lines` names, or `s` when none was accepted.
pub open spec fn last_config(lines: Seq<Seq<Seq<char>>>, s: CanState) -> CanState
    decreases lines.len(),
{
    if lines.len() == 0 {
        s
    } else if accepted_config(lines.last()) {
        let a = lines.last();
        CanState { bitrate: suffixed_rate(a[1]).unwrap(), mode: parse_u32_spec(a[2]).unwrap() as u8 }
    } else {
        last_config(lines.drop_last(), s)
    }
}

proof fn lemma_one_line(a: Seq<Seq<char>>, s: CanState, short: bool)
    ensures
        can_outcome(a, s, short).1 == (if accepted_config(a) {
            CanState { bitrate: suffixed_rate(a[1]).unwrap(), mode: parse_u32_spec(a[2]).unwrap() as u8 }
        } else {
            s
        }),
{
}

/// `can status` reports the bit rate and mode of the last accepted `config`, whatever other
/// command lines came before or after it, and the start-up settings (500000 bps, normal)
/// when no `config` was ever accepted.
pub proof fn law_status_shows_last_config(lines: Seq<Seq<Seq<char>>>, s: CanState, short: bool)
    ensures
        state_after(lines, s, short) == last_config(lines, s),
        can_outcome(seq!["status"@], state_after(lines, s, short), short).0 == CanStepView::Reply(
            status_text(last_config(lines, s)),
        ),
    decreases lines.len(),
{
    if lines.len() > 0 {
        law_status_shows_last_config(lines.drop_last(), s, short);
        lemma_one_line(lines.last(), state_after(lines.drop_last(), s, short), short);
    }
    reveal_strlit("config");
    reveal_strlit("status");
    reveal_strlit("send");
    reveal_strlit("read");
    reveal_strlit("filter");
    reveal_strlit("filter_disable");
    let st = seq!["status"@];
    assert(st[0] == "status"@);
    assert(st[0] != "config"@ && st[0] != "send"@ && st[0] != "read"@ && st[0] != "filter"@
        && st[0] != "filter_disable"@) by {
        assert(st[0][0] == 's' && st[0][1] == 't');
    }
}

/// The fault line, which only the long answers print.
pub open spec fn fault_text(short: bool) -> Seq<char> {
    if short {
        Seq::empty()
    } else {
        "Error: "@ + "CAN not initialized"@ + "\r\n"@
    }
}

/// What a sent frame prints.
pub open spec fn send_report_text(id: u32, r: Result<(), CanFault>, short: bool) -> Seq<char> {
    match r {
        Ok(_) => if short {
            "OK\r\n"@
        } else {
            "Frame sent: ID "@ + hex_u32_text(id) + "\r\n"@
        },
        Err(_) => fault_text(short),
    }
}

/// What a read prints: the number of frames read, for long answers only.
pub open spec fn read_report_text(r: Result<u32, CanFault>, short: bool) -> Seq<char> {
    match r {
        Ok(n) => if short {
            Seq::empty()
        } else {
            "Read "@ + radix_text(n as nat, 10) + " frame(s)\r\n"@
        },
        Err(_) => fault_text(short),
    }
}

/// What setting a filter prints.
pub open spec fn filter_report_text(filter_id: u32, id: u32, mask: u32, r: Result<(), CanFault>, short: bool) -> Seq<char> {
    match r {
        Ok(_) => if short {
            "OK\r\n"@
        } else {
            "Filter "@ + radix_text(filter_id as nat, 10) + " set: ID "@ + hex_u32_text(id) + " mask "@
                + hex_u32_text(mask) + "\r\n"@
        },
        Err(_) => fault_text(short),
    }
}

/// What disabling a filter prints.
pub open spec fn disable_report_text(filter_id: u32, r: Result<(), CanFault>, short: bool) -> Seq<char> {
    match r {
        Ok(_) => if short {
            "OK\r\n"@
        } else {
            "Filter "@ + radix_text(filter_id as nat, 10) + " disabled\r\n"@
        },
        Err(_) => fault_text(short),
    }
}

impl CanCommand {
    /// The bus at 500 kbit/s in normal mode.
    pub fn new() -> (r: Self)
        ensures
            r.state == CanState::default_spec(),
    {
        CanCommand { state: CanState::default() }
    }

    /// Reads a bit rate such as `125k`, `500k` or `1m`.
    fn parse_bitrate(&self, arg: &str) -> (r: Result<u32, &'static str>)
        ensures
            match suffixed_rate(arg@) {
                Some(v) => r == Ok::<u32, &'static str>(v),
                None => r matches Err(e) && e@ == "Invalid bitrate format"@,
            },
    {
        match parse_suffixed_rate(arg) {
            Some(v) => Ok(v),
            None => Err("Invalid bitrate format"),
        }
    }

    /// Reads a hex identifier such as `0x123`.
    fn parse_hex_id(&self, arg: &str) -> (r: Result<u32, &'static str>)
        ensures
            match parse_hex_u32_spec(arg@) {
                Some(v) => r == Ok::<u32, &'static str>(v),
                None => r matches Err(e) && e@ == "Invalid hex ID"@,
            },
    {
        match parse_hex_u32(arg) {
            Some(v) => Ok(v),
            None => Err("Invalid hex ID"),
        }
    }

    /// Reads a hex byte such as `0xAA`.
    fn parse_hex_byte(&self, s: &str) -> (r: Result<u8, &'static str>)
        ensures
            match parse_hex_u8_spec(s@) {
                Some(v) => r == Ok::<u8, &'static str>(v),
                None => r matches Err(e) && e@ == "Invalid hex byte"@,
            },
    {
        match parse_hex_u8(s) {
            Some(v) => Ok(v),
            None => Err("Invalid hex byte"),
        }
    }

    /// Reads a decimal `u32`.
    fn parse_int(&self, arg: &str) -> (r: Result<u32, &'static str>)
        ensures
            match parse_u32_spec(arg@) {
                Some(v) => r == Ok::<u32, &'static str>(v),
                None => r matches Err(e) && e@ == "Invalid integer value"@,
            },
    {
        match parse_u32(arg) {
            Some(v) => Ok(v),
            None => Err("Invalid integer value"),
        }
    }

    /// Reads the data bytes of a frame from the words `start` up to `end`.
    fn parse_data(&self, args: &[&str], start: usize, end: usize) -> (r: Result<Vec<u8>, &'static str>)
        requires
            start <= end <= args.len(),
        ensures
            match frame_data(words(args), start as int, end as int) {
                Ok(d) => r matches Ok(v) && v@ == d,
                Err(e) => r matches Err(m) && m@ == e,
            },
    {
        let ghost a = words(args);
        let mut data: Vec<u8> = Vec::new();
        let mut i = start;
        while i < end
            invariant
                start <= i <= end <= args.len(),
                a == words(args),
                frame_data(a, start as int, i as int) == Ok::<Seq<u8>, Seq<char>>(data@),
            decreases end - i,
        {
            if data.len() >= 8 {
                proof {
                    lemma_frame_data_error(a, start as int, i + 1, end as int);
                }
                return Err("Too many data bytes (max 8)");
            }
            assert(a[i as int] == args@[i as int]@);
            let v = match self.parse_hex_byte(args[i]) {
                Ok(v) => v,
                Err(e) => {
                    proof {
                        lemma_frame_data_error(a, start as int, i + 1, end as int);
                    }
                    return Err(e);
                },
            };
            data.push(v);
            i = i + 1;
        }
        Ok(data)
    }

    /// A `u32` as `0x` and its hex digits.
    fn format_hex_u32(&self, n: u32) -> (r: String)
        ensures
            r@ == hex_u32_text(n),
    {
        format_hex_u32(n)
    }

    /// `config <bitrate> <mode>`: checks both and stores them.
    fn config_can(&mut self, rate: &str, mode: &str, short: bool) -> (r: (String, bool))
        ensures
            (r.0@, final(self).state) == config_outcome(old(self).state, rate@, mode@, short),
            r.1 == config_accepted(rate@, mode@),
    {
        let bitrate = match self.parse_bitrate(rate) {
            Ok(b) => b,
            Err(e) => {
                return (concat3("Error: ", e, "\r\n"), false);
            },
        };
        let m = match self.parse_int(mode) {
            Ok(m) => m,
            Err(_) => {
                return (String::from_str("Error: Mode must be 0-3\r\n"), false);
            },
        };
        if m > 3 {
            return (String::from_str("Error: Mode must be 0-3\r\n"), false);
        }
        self.state = CanState { bitrate, mode: m as u8 };
        let text = if short {
            String::from_str("OK\r\n")
        } else {
            let mut s = String::from_str("CAN configured: ");
            s.append(rate);
            s.append(" mode ");
            s.append(mode);
            s.append("\r\n");
            s
        };
        (text, true)
    }

    /// What `can status` prints.
    pub fn show_status(&self) -> (r: String)
        ensures
            r@ == status_text(self.state),
    {
        let digits = format_u32(self.state.bitrate);
        let name = match self.state.mode {
            0 => "Normal",
            1 => "Loopback",
            2 => "Silent",
            3 => "Silent-Loopback",
            _ => "Unknown",
        };
        let mut s = String::from_str("CAN Status:\r\n");
        s.append("  Bitrate: ");
        s.append(digits.as_str());
        s.append(" bps\r\n");
        s.append("  Mode: ");
        s.append(name);
        s.append("\r\n");
        s
    }
    /// What `can` does with its arguments. The stored settings change only on a valid `config`.
    pub fn execute(&mut self, args: &[&str], cfg: &CliConfig) -> (r: CanStep)
        ensures
            (r@, final(self).state) == can_outcome(words(args), old(self).state, cfg.short()),
    {
        let ghost a = words(args);
        let short = cfg.is_short_output();
        if args.len() == 0 {
            return CanStep::Reply(
                concat(
                    "Usage: can <config|send|read|filter|filter_disable|status> [args]\r\n",
                    "Type 'help can' for more information\r\n",
                ),
            );
        }
        assert(a[0] == args@[0]@);
        let sub = args[0];
        if str_eq(sub, "config") {
            if args.len() != 3 {
                return CanStep::Reply(String::from_str("Usage: can config <bitrate> <mode>\r\n"));
            }
            assert(a[1] == args@[1]@ && a[2] == args@[2]@);
            let (reply, accepted) = self.config_can(args[1], args[2], short);
            if accepted {
                CanStep::Configure { bitrate: self.state.bitrate, mode: self.state.mode, reply }
            } else {
                CanStep::Reply(reply)
            }
        } else if str_eq(sub, "send") {
            if args.len() < 3 {
                return CanStep::Reply(String::from_str("Usage: can send <id> <data...> <flags>\r\n"));
            }
            assert(a[1] == args@[1]@);
            let id = match self.parse_hex_id(args[1]) {
                Ok(i) => i,
                Err(e) => {
                    return CanStep::Reply(concat(e, "\r\n"));
                },
            };
            let last = args.len() - 1;
            assert(a.last() == args@[last as int]@);
            let f = match self.parse_int(args[last]) {
                Ok(f) => f,
                Err(e) => {
                    return CanStep::Reply(concat(e, "\r\n"));
                },
            };
            let data = match self.parse_data(args, 2, last) {
                Ok(d) => d,
                Err(e) => {
                    return CanStep::Reply(concat(e, "\r\n"));
                },
            };
            let flags = (f % 256) as u8;
            CanStep::Send { id, data, flags }
        } else if str_eq(sub, "read") {
            if args.len() != 3 {
                return CanStep::Reply(String::from_str("Usage: can read <count> <timeout>\r\n"));
            }
            assert(a[1] == args@[1]@ && a[2] == args@[2]@);
            let count = match self.parse_int(args[1]) {
                Ok(c) => c,
                Err(e) => {
                    return CanStep::Reply(concat(e, "\r\n"));
                },
            };
            let timeout = match self.parse_int(args[2]) {
                Ok(t) => t,
                Err(e) => {
                    return CanStep::Reply(concat(e, "\r\n"));
                },
            };
            CanStep::Read { count, timeout }
        } else if str_eq(sub, "filter") {
            if args.len() != 4 {
                return CanStep::Reply(String::from_str("Usage: can filter <filter_id> <id> <mask>\r\n"));
            }
            assert(a[1] == args@[1]@ && a[2] == args@[2]@ && a[3] == args@[3]@);
            let filter_id = match self.parse_int(args[1]) {
                Ok(f) => f,
                Err(e) => {
                    return CanStep::Reply(concat(e, "\r\n"));
                },
            };
            let id = match self.parse_hex_id(args[2]) {
                Ok(i) => i,
                Err(e) => {
                    return CanStep::Reply(concat(e, "\r\n"));
                },
            };
            let mask = match self.parse_hex_id(args[3]) {
                Ok(m) => m,
                Err(e) => {
                    return CanStep::Reply(concat(e, "\r\n"));
                },
            };
            if filter_id > 13 {
                CanStep::Reply(String::from_str("Error: Filter ID must be 0-13\r\n"))
            } else {
                CanStep::Filter { filter_id, id, mask }
            }
        } else if str_eq(sub, "filter_disable") {
            if args.len() != 2 {
                return CanStep::Reply(String::from_str("Usage: can filter_disable <filter_id>\r\n"));
            }
            assert(a[1] == args@[1]@);
            let filter_id = match self.parse_int(args[1]) {
                Ok(f) => f,
                Err(e) => {
                    return CanStep::Reply(concat(e, "\r\n"));
                },
            };
            if filter_id > 13 {
                CanStep::Reply(String::from_str("Error: Filter ID must be 0-13\r\n"))
            } else {
                CanStep::DisableFilter { filter_id }
            }
        } else if str_eq(sub, "status") {
            if args.len() != 1 {
                return CanStep::Reply(String::from_str("Usage: can status\r\n"));
            }
            CanStep::Reply(self.show_status())
        } else {
            CanStep::Reply(String::from_str("Unknown subcommand\r\n"))
        }
    }

    fn fault_line(short: bool) -> (r: String)
        ensures
            r@ == fault_text(short),
    {
        if short {
            String::new()
        } else {
            concat3("Error: ", "CAN not initialized", "\r\n")
        }
    }

    /// What sending a frame prints, given whether the bus was there.
    pub fn send_report(&self, id: u32, result: Result<(), CanFault>, cfg: &CliConfig) -> (r: String)
        ensures
            r@ == send_report_text(id, result, cfg.short()),
    {
        let short = cfg.is_short_output();
        match result {
            Ok(_) => {
                if short {
                    String::from_str("OK\r\n")
                } else {
                    let hex = self.format_hex_u32(id);
                    concat3("Frame sent: ID ", hex.as_str(), "\r\n")
                }
            },
            Err(_) => Self::fault_line(short),
        }
    }

    /// What reading frames prints, given the number read or the fault.
    pub fn read_report(&self, result: Result<u32, CanFault>, cfg: &CliConfig) -> (r: String)
        ensures
            r@ == read_report_text(result, cfg.short()),
    {
        let short = cfg.is_short_output();
        match result {
            Ok(n) => {
                if short {
                    String::new()
                } else {
                    let digits = format_u32(n);
                    concat3("Read ", digits.as_str(), " frame(s)\r\n")
                }
            },
            Err(_) => Self::fault_line(short),
        }
    }

    /// What setting a filter prints, given whether the bus was there.
    pub fn filter_report(&self, filter_id: u32, id: u32, mask: u32, result: Result<(), CanFault>, cfg: &CliConfig) -> (r: String)
        ensures
            r@ == filter_report_text(filter_id, id, mask, result, cfg.short()),
    {
        let short = cfg.is_short_output();
        match result {
            Ok(_) => {
                if short {
                    String::from_str("OK\r\n")
                } else {
                    let digits = format_u32(filter_id);
                    let id_hex = self.format_hex_u32(id);
                    let mask_hex = self.format_hex_u32(mask);
                    let mut s = String::from_str("Filter ");
                    s.append(digits.as_str());
                    s.append(" set: ID ");
                    s.append(id_hex.as_str());
                    s.append(" mask ");
                    s.append(mask_hex.as_str());
                    s.append("\r\n");
                    s
                }
            },
            Err(_) => Self::fault_line(short),
        }
    }

    /// What disabling a filter prints, given whether the bus was there.
    pub fn disable_report(&self, filter_id: u32, result: Result<(), CanFault>, cfg: &CliConfig) -> (r: String)
        ensures
            r@ == disable_report_text(filter_id, result, cfg.short()),
    {
        let short = cfg.is_short_output();
        match result {
            Ok(_) => {
                if short {
                    String::from_str("OK\r\n")
                } else {
                    let digits = format_u32(filter_id);
                    concat3("Filter ", digits.as_str(), " disabled\r\n")
                }
            },
            Err(_) => Self::fault_line(short),
        }
    }
}

impl Command for CanCommand {
    open spec fn command_name(&self) -> Seq<char> {
        "can"@
    }

    open spec fn help_spec(&self) -> Seq<char> {
        "can <cmd> [args] - CAN bus operations\r\n"@
            + "\r\nCommands:\r\n"@
            + "  can config <bitrate> <mode>\r\n"@
            + "    - bitrate: Bit rate (e.g., \"125k\", \"250k\", \"500k\", \"1m\")\r\n"@
            + "    - mode: 0=Normal, 1=Loopback, 2=Silent, 3=Silent-Loopback\r\n"@
            + "  can send <id> <data...> <flags>\r\n"@
            + "    - id: CAN identifier (hex, 11-bit standard or 29-bit extended)\r\n"@
            + "    - data: Data bytes (0-8 bytes, hex)\r\n"@
            + "    - flags: 0=Standard, 1=Extended, 2=RTR\r\n"@
            + "  can read <count> <timeout>\r\n"@
            + "    - count: Number of frames to read from buffer\r\n"@
            + "    - timeout: Timeout in milliseconds (0=non-blocking)\r\n"@
            + "  can filter <filter_id> <id> <mask>\r\n"@
            + "    - filter_id: Filter bank number (0-13)\r\n"@
            + "    - id: CAN ID to accept (hex)\r\n"@
            + "    - mask: ID mask (hex, 0=don't care, 1=must match)\r\n"@
            + "  can filter_disable <filter_id>\r\n"@
            + "    - Disable specific filter bank\r\n"@
            + "  can status\r\n"@
            + "    - Display current config and active filters\r\n"@
            + "\r\nExamples:\r\n"@
            + "  can config 500k 0          - 500 kbps, normal mode\r\n"@
            + "  can send 0x123 0xAA 0xBB 0xCC 0 - Send standard frame\r\n"@
            + "  can read 1 100             - Read 1 frame, 100ms timeout\r\n"@
            + "  can filter 0 0x100 0x7F0   - Accept IDs 0x100-0x10F\r\n"@
            + "  can filter_disable 0       - Disable filter 0\r\n"@
    }

    fn name(&self) -> (r: &'static str) {
        "can"
    }

    fn initialize(&mut self) -> (r: Result<(), &'static str>)
        ensures
            r is Ok,
            *final(self) == *old(self),
    {
        Ok(())
    }

    fn help_text(&self) -> (r: String) {
        let mut s = String::from_str("can <cmd> [args] - CAN bus operations\r\n");
        s.append("\r\nCommands:\r\n");
        s.append("  can config <bitrate> <mode>\r\n");
        s.append("    - bitrate: Bit rate (e.g., \"125k\", \"250k\", \"500k\", \"1m\")\r\n");
        s.append("    - mode: 0=Normal, 1=Loopback, 2=Silent, 3=Silent-Loopback\r\n");
        s.append("  can send <id> <data...> <flags>\r\n");
        s.append("    - id: CAN identifier (hex, 11-bit standard or 29-bit extended)\r\n");
        s.append("    - data: Data bytes (0-8 bytes, hex)\r\n");
        s.append("    - flags: 0=Standard, 1=Extended, 2=RTR\r\n");
        s.append("  can read <count> <timeout>\r\n");
        s.append("    - count: Number of frames to read from buffer\r\n");
        s.append("    - timeout: Timeout in milliseconds (0=non-blocking)\r\n");
        s.append("  can filter <filter_id> <id> <mask>\r\n");
        s.append("    - filter_id: Filter bank number (0-13)\r\n");
        s.append("    - id: CAN ID to accept (hex)\r\n");
        s.append("    - mask: ID mask (hex, 0=don't care, 1=must match)\r\n");
        s.append("  can filter_disable <filter_id>\r\n");
        s.append("    - Disable specific filter bank\r\n");
        s.append("  can status\r\n");
        s.append("    - Display current config and active filters\r\n");
        s.append("\r\nExamples:\r\n");
        s.append("  can config 500k 0          - 500 kbps, normal mode\r\n");
        s.append("  can send 0x123 0xAA 0xBB 0xCC 0 - Send standard frame\r\n");
        s.append("  can read 1 100             - Read 1 frame, 100ms timeout\r\n");
        s.append("  can filter 0 0x100 0x7F0   - Accept IDs 0x100-0x10F\r\n");
        s.append("  can filter_disable 0       - Disable filter 0\r\n");
        s
    }
}

} // verus!
