//! Character-level text helpers: comparison, number parsing and number formatting.
use vstd::prelude::*;
use vstd::string::StrSliceExecFns;
use vstd::string::StringExecFns;

verus! {

/// Appends one character to a string.
/// Calls `String::push`, which std documents as appending the given char to the end.
#[verifier::external_body]
pub(crate) fn push_char(s: &mut String, c: char)
    ensures
        final(s)@ == old(s)@.push(c),
{
    s.push(c);
}

/// Whether two strings hold the same characters.
pub fn str_eq(a: &str, b: &str) -> (r: bool)
    ensures
        r == (a@ == b@),
{
    let n = a.unicode_len();
    let m = b.unicode_len();
    if n != m {
        return false;
    }
    let mut i: usize = 0;
    while i < n
        invariant
            n == a@.len(),
            m == b@.len(),
            n == m,
            i <= n,
            forall|j: int| 0 <= j < i ==> a@[j] == b@[j],
        decreases n - i,
    {
        if a.get_char(i) != b.get_char(i) {
            assert(a@[i as int] != b@[i as int]);
            return false;
        }
        i = i + 1;
    }
    assert(a@ =~= b@);
    true
}

/// A new string holding the characters of `s`.
pub fn string_of(s: &str) -> (r: String)
    ensures
        r@ == s@,
{
    String::from_str(s)
}


/// The value of `c` as a digit: `0`-`9`, then `a`-`f` and `A`-`F` for ten to fifteen.
/// Any other character has value sixteen, which is no digit in the radixes used here.
pub open spec fn digit_value(c: char) -> nat {
    if '0' <= c && c <= '9' {
        (c as int - '0' as int) as nat
    } else if 'a' <= c && c <= 'f' {
        (c as int - 'a' as int + 10) as nat
    } else if 'A' <= c && c <= 'F' {
        (c as int - 'A' as int + 10) as nat
    } else {
        16
    }
}

/// Every character of `s` is a digit of the given radix.
pub open spec fn all_digits(s: Seq<char>, radix: nat) -> bool {
    forall|i: int| 0 <= i < s.len() ==> #[trigger] digit_value(s[i]) < radix
}

/// The number that the digits `s` write in the given radix, most significant first.
pub open spec fn radix_value(s: Seq<char>, radix: nat) -> nat
    decreases s.len(),
{
    if s.len() == 0 {
        0
    } else {
        radix_value(s.drop_last(), radix) * radix + digit_value(s.last())
    }
}

/// The digits after an optional leading `+`.
pub open spec fn unsigned_body(s: Seq<char>) -> Seq<char> {
    if s.len() > 0 && s[0] == '+' {
        s.drop_first()
    } else {
        s
    }
}

/// What std's `from_str_radix` gives for an unsigned integer type whose largest value is `max`:
/// an optional `+`, then at least one digit of the radix, and a value no larger than `max`.
pub open spec fn parse_unsigned(s: Seq<char>, radix: nat, max: nat) -> Option<nat> {
    let body = unsigned_body(s);
    if body.len() > 0 && all_digits(body, radix) && radix_value(body, radix) <= max {
        Some(radix_value(body, radix))
    } else {
        None
    }
}

proof fn lemma_radix_value_prefix(s: Seq<char>, radix: nat, j: int)
    requires
        0 <= j <= s.len(),
        radix >= 1,
    ensures
        radix_value(s.take(j), radix) <= radix_value(s, radix),
    decreases s.len() - j,
{
    if j < s.len() {
        lemma_radix_value_prefix(s, radix, j + 1);
        assert(s.take(j + 1).drop_last() =~= s.take(j));
        let v = radix_value(s.take(j), radix);
        assert(v * radix >= v) by (nonlinear_arith)
            requires
                radix >= 1,
        ;
    } else {
        assert(s.take(j) =~= s);
    }
}

/// The digit value of one character, as `digit_value` states.
fn digit_of(c: char) -> (d: u32)
    ensures
        d == digit_value(c),
{
    let v = c as u32;
    if '0' <= c && c <= '9' {
        v - ('0' as u32)
    } else if 'a' <= c && c <= 'f' {
        v - ('a' as u32) + 10
    } else if 'A' <= c && c <= 'F' {
        v - ('A' as u32) + 10
    } else {
        16
    }
}

/// Parses an unsigned number in radix 10 or 16, as std's `from_str_radix` does.
fn parse_radix(s: &str, radix: u32, max: u64) -> (r: Option<u64>)
    requires
        radix == 10 || radix == 16,
    ensures
        r matches Some(v) ==> parse_unsigned(s@, radix as nat, max as nat) == Some(v as nat),
        r is None ==> parse_unsigned(s@, radix as nat, max as nat) is None,
{
    let n = s.unicode_len();
    let mut start: usize = 0;
    if n > 0 && s.get_char(0) == '+' {
        start = 1;
    }
    let ghost body = unsigned_body(s@);
    assert(body =~= s@.subrange(start as int, n as int));
    if start >= n {
        return None;
    }
    let mut acc: u128 = 0;
    let mut i: usize = start;
    while i < n
        invariant
            n == s@.len(),
            start <= i <= n,
            body =~= s@.subrange(start as int, n as int),
            body == unsigned_body(s@),
            acc == radix_value(body.take(i - start), radix as nat),
            acc <= max,
            all_digits(body.take(i - start), radix as nat),
            radix == 10 || radix == 16,
        decreases n - i,
    {
        let c = s.get_char(i);
        let d = digit_of(c);
        proof {
            assert(body[i - start] == c);
            assert(body.take(i - start + 1).drop_last() =~= body.take(i - start));
            assert(body.take(i - start + 1).last() == c);
        }
        if d >= radix {
            proof {
                assert(!all_digits(body, radix as nat)) by {
                    assert(digit_value(body[i - start]) >= radix);
                }
            }
            return None;
        }
        assert(acc * (radix as u128) <= (max as u128) * 16) by (nonlinear_arith)
            requires
                acc <= max,
                radix <= 16,
        ;
        let next = acc * (radix as u128) + (d as u128);
        if next > max as u128 {
            proof {
                lemma_radix_value_prefix(body, radix as nat, i - start + 1);
            }
            return None;
        }
        acc = next;
        i = i + 1;
        proof {
            assert(all_digits(body.take(i - start), radix as nat)) by {
                assert forall|k: int| 0 <= k < body.take(i - start).len() implies #[trigger] digit_value(
                    body.take(i - start)[k],
                ) < radix by {
                    if k < i - start - 1 {
                        assert(body.take(i - start)[k] == body.take(i - start - 1)[k]);
                    }
                }
            }
        }
    }
    assert(body.take(n - start) =~= body);
    Some(acc as u64)
}


/// What `u32::from_str` accepts: an optional `+` and decimal digits of a value that fits.
pub open spec fn parse_u32_spec(s: Seq<char>) -> Option<u32> {
    match parse_unsigned(s, 10, u32::MAX as nat) {
        Some(v) => Some(v as u32),
        None => None,
    }
}

/// What `u16::from_str` accepts.
pub open spec fn parse_u16_spec(s: Seq<char>) -> Option<u16> {
    match parse_unsigned(s, 10, u16::MAX as nat) {
        Some(v) => Some(v as u16),
        None => None,
    }
}

/// What `usize::from_str` accepts.
pub open spec fn parse_usize_spec(s: Seq<char>) -> Option<usize> {
    match parse_unsigned(s, 10, usize::MAX as nat) {
        Some(v) => Some(v as usize),
        None => None,
    }
}

/// Parses a decimal `u32` as `str::parse::<u32>` does.
pub fn parse_u32(s: &str) -> (r: Option<u32>)
    ensures
        r == parse_u32_spec(s@),
{
    match parse_radix(s, 10, u32::MAX as u64) {
        Some(v) => Some(v as u32),
        None => None,
    }
}

/// Parses a decimal `u16` as `str::parse::<u16>` does.
pub fn parse_u16(s: &str) -> (r: Option<u16>)
    ensures
        r == parse_u16_spec(s@),
{
    match parse_radix(s, 10, u16::MAX as u64) {
        Some(v) => Some(v as u16),
        None => None,
    }
}

/// Parses a decimal `usize` as `str::parse::<usize>` does.
pub fn parse_usize(s: &str) -> (r: Option<usize>)
    ensures
        r == parse_usize_spec(s@),
{
    match parse_radix(s, 10, usize::MAX as u64) {
        Some(v) => Some(v as usize),
        None => None,
    }
}

/// `s` with every leading copy of `p` removed, as `str::trim_start_matches` does.
pub open spec fn trim_start_all(s: Seq<char>, p: Seq<char>) -> Seq<char>
    decreases s.len(),
{
    if p.len() > 0 && s.len() >= p.len() && s.take(p.len() as int) == p {
        trim_start_all(s.skip(p.len() as int), p)
    } else {
        s
    }
}

/// The hex digits of an argument: leading `0x` copies removed, then leading `0X` copies.
pub open spec fn hex_body(s: Seq<char>) -> Seq<char> {
    trim_start_all(trim_start_all(s, seq!['0', 'x']), seq!['0', 'X'])
}

/// A hex argument read as a byte: optional `0x`/`0X` prefixes, then what `u8::from_str_radix(_, 16)` accepts.
pub open spec fn parse_hex_u8_spec(s: Seq<char>) -> Option<u8> {
    match parse_unsigned(hex_body(s), 16, u8::MAX as nat) {
        Some(v) => Some(v as u8),
        None => None,
    }
}

/// A hex argument read as a `u32`: optional `0x`/`0X` prefixes, then what `u32::from_str_radix(_, 16)` accepts.
pub open spec fn parse_hex_u32_spec(s: Seq<char>) -> Option<u32> {
    match parse_unsigned(hex_body(s), 16, u32::MAX as nat) {
        Some(v) => Some(v as u32),
        None => None,
    }
}

/// A rate such as `1m`, `500k` or `250000` in units per second. A suffix `m`/`M` or `k`/`K` multiplies
/// by a million or a thousand; a rate that does not fit in a `u32` is no rate.
pub open spec fn suffixed_rate(w: Seq<char>) -> Option<u32> {
    if w.len() == 0 {
        None
    } else {
        let last = w.last();
        if last == 'm' || last == 'M' {
            match parse_u32_spec(w.drop_last()) {
                None => None,
                Some(n) => if n * 1_000_000 <= u32::MAX {
                    Some((n * 1_000_000) as u32)
                } else {
                    None
                },
            }
        } else if last == 'k' || last == 'K' {
            match parse_u32_spec(w.drop_last()) {
                None => None,
                Some(n) => if n * 1_000 <= u32::MAX {
                    Some((n * 1_000) as u32)
                } else {
                    None
                },
            }
        } else {
            parse_u32_spec(w)
        }
    }
}

/// Reads a rate such as `1m`, `500k` or `250000`.
pub fn parse_suffixed_rate(arg: &str) -> (r: Option<u32>)
    ensures
        r == suffixed_rate(arg@),
{
    let n = arg.unicode_len();
    if n == 0 {
        return None;
    }
    let last = arg.get_char(n - 1);
    let head = arg.substring_char(0, n - 1);
    assert(head@ =~= arg@.drop_last());
    if last == 'm' || last == 'M' {
        match parse_u32(head) {
            Some(v) => v.checked_mul(1_000_000),
            None => None,
        }
    } else if last == 'k' || last == 'K' {
        match parse_u32(head) {
            Some(v) => v.checked_mul(1_000),
            None => None,
        }
    } else {
        parse_u32(arg)
    }
}

/// Index past the leading copies of the two-character prefix `a b` in `s`, from `from` on.
fn skip_prefix_pairs(s: &str, n: usize, from: usize, a: char, b: char) -> (r: usize)
    requires
        n == s@.len(),
        from <= n,
    ensures
        from <= r <= n,
        trim_start_all(s@.subrange(from as int, n as int), seq![a, b]) =~= s@.subrange(
            r as int,
            n as int,
        ),
{
    let mut i = from;
    while n - i >= 2 && s.get_char(i) == a && s.get_char(i + 1) == b
        invariant
            n == s@.len(),
            from <= i <= n,
            trim_start_all(s@.subrange(from as int, n as int), seq![a, b]) == trim_start_all(
                s@.subrange(i as int, n as int),
                seq![a, b],
            ),
        decreases n - i,
    {
        let ghost t = s@.subrange(i as int, n as int);
        assert(t.take(2) =~= seq![a, b]);
        assert(t.skip(2) =~= s@.subrange(i + 2, n as int));
        i = i + 2;
    }
    let ghost t = s@.subrange(i as int, n as int);
    if n - i >= 2 {
        assert(t.take(2) !~= seq![a, b]) by {
            if t.take(2) =~= seq![a, b] {
                assert(t[0] == s@[i as int]);
                assert(t[1] == s@[i + 1]);
            }
        }
    }
    i
}

/// The hex digits of `s` after its `0x`/`0X` prefixes.
fn hex_digits(s: &str) -> (r: &str)
    ensures
        r@ == hex_body(s@),
{
    let n = s.unicode_len();
    assert(s@.subrange(0, n as int) =~= s@);
    let i = skip_prefix_pairs(s, n, 0, '0', 'x');
    let j = skip_prefix_pairs(s, n, i, '0', 'X');
    s.substring_char(j, n)
}

/// Parses a hex byte argument such as `0x5A` or `5a`.
pub fn parse_hex_u8(s: &str) -> (r: Option<u8>)
    ensures
        r == parse_hex_u8_spec(s@),
{
    let d = hex_digits(s);
    match parse_radix(d, 16, u8::MAX as u64) {
        Some(v) => Some(v as u8),
        None => None,
    }
}

/// Parses a hex `u32` argument such as `0x1F0`.
pub fn parse_hex_u32(s: &str) -> (r: Option<u32>)
    ensures
        r == parse_hex_u32_spec(s@),
{
    let d = hex_digits(s);
    match parse_radix(d, 16, u32::MAX as u64) {
        Some(v) => Some(v as u32),
        None => None,
    }
}


/// The character that writes digit `d`: `0`-`9`, then upper-case `A`-`F`.
pub open spec fn digit_char(d: nat) -> char {
    if d < 10 {
        ('0' as int + d) as char
    } else {
        ('A' as int + d - 10) as char
    }
}

/// `n` written in the given radix, most significant digit first, with no leading zeros.
pub open spec fn radix_text(n: nat, radix: nat) -> Seq<char>
    decreases n,
{
    if radix < 2 || n < radix {
        seq![digit_char(n)]
    } else {
        proof {
            lemma_div_decreases(n, radix);
        }
        radix_text(n / radix, radix).push(digit_char(n % radix))
    }
}

/// Dividing by a radix of two or more makes a number of at least the radix smaller.
pub proof fn lemma_div_decreases(n: nat, radix: nat)
    requires
        radix >= 2,
        n >= radix,
    ensures
        n / radix < n,
{
    assert(n / radix < n) by (nonlinear_arith)
        requires
            radix >= 2,
            n >= radix,
    ;
}

proof fn lemma_digit_char(d: nat)
    requires
        d < 16,
    ensures
        digit_value(digit_char(d)) == d,
        digit_char(d) != '+',
        digit_char(d) != 'x',
        digit_char(d) != 'X',
{
}

/// Written numbers read back: the digits of `radix_text` are digits of the radix and spell `n`.
pub proof fn lemma_radix_text(n: nat, radix: nat)
    requires
        2 <= radix <= 16,
    ensures
        all_digits(radix_text(n, radix), radix),
        radix_value(radix_text(n, radix), radix) == n,
        radix_text(n, radix).len() > 0,
        radix_text(n, radix)[0] != '+',
        radix_text(n, radix)[0] != 'x',
        radix_text(n, radix)[0] != 'X',
    decreases n,
{
    let t = radix_text(n, radix);
    if n < radix {
        lemma_digit_char(n);
        assert(t.drop_last() =~= Seq::<char>::empty());
        assert(radix_value(t.drop_last(), radix) == 0);
        assert(radix_value(t, radix) == 0 * radix + n);
    } else {
        lemma_div_decreases(n, radix);
        lemma_radix_text(n / radix, radix);
        let p = radix_text(n / radix, radix);
        assert(n % radix < radix) by (nonlinear_arith)
            requires
                radix >= 2,
        ;
        lemma_digit_char(n % radix);
        assert(t.drop_last() =~= p);
        assert(n == (n / radix) * radix + n % radix) by (nonlinear_arith)
            requires
                radix >= 2,
        ;
        assert forall|i: int| 0 <= i < t.len() implies #[trigger] digit_value(t[i]) < radix by {
            if i < p.len() {
                assert(t[i] == p[i]);
            }
        }
        assert(t[0] == p[0]);
        assert(radix_value(t, radix) == radix_value(p, radix) * radix + digit_value(t.last()));
    }
}

/// The character for digit `d`.
fn digit_char_of(d: u32) -> (c: char)
    requires
        d < 16,
    ensures
        c == digit_char(d as nat),
{
    if d < 10 {
        ((d + 48) as u8) as char
    } else {
        ((d + 55) as u8) as char
    }
}

/// `n` in radix ten, as the firmware prints counts, rates and values.
pub fn format_u32(n: u32) -> (r: String)
    ensures
        r@ == radix_text(n as nat, 10),
    decreases n,
{
    if n < 10 {
        let mut s = String::new();
        push_char(&mut s, digit_char_of(n));
        s
    } else {
        let mut s = format_u32(n / 10);
        push_char(&mut s, digit_char_of(n % 10));
        s
    }
}

/// `n` in radix ten.
pub fn format_u16(n: u16) -> (r: String)
    ensures
        r@ == radix_text(n as nat, 10),
{
    format_u32(n as u32)
}

/// `n` in radix sixteen, upper case, with no leading zeros.
fn hex_text(n: u32) -> (r: String)
    ensures
        r@ == radix_text(n as nat, 16),
    decreases n,
{
    if n < 16 {
        let mut s = String::new();
        push_char(&mut s, digit_char_of(n));
        s
    } else {
        let mut s = hex_text(n / 16);
        push_char(&mut s, digit_char_of(n % 16));
        s
    }
}

/// A byte as `0x` and two upper-case hex digits, such as `0x0A`.
pub open spec fn hex_u8_text(n: u8) -> Seq<char> {
    seq!['0', 'x', digit_char(n as nat / 16), digit_char(n as nat % 16)]
}

/// Formats a byte as `0x` and two upper-case hex digits.
pub fn format_hex_u8(n: u8) -> (r: String)
    ensures
        r@ == hex_u8_text(n),
{
    let mut s = String::new();
    push_char(&mut s, '0');
    push_char(&mut s, 'x');
    push_char(&mut s, digit_char_of((n / 16) as u32));
    push_char(&mut s, digit_char_of((n % 16) as u32));
    s
}

/// A `u32` as `0x` and its upper-case hex digits without leading zeros.
pub open spec fn hex_u32_text(n: u32) -> Seq<char> {
    seq!['0', 'x'] + radix_text(n as nat, 16)
}

/// Formats a `u32` as `0x` and its upper-case hex digits without leading zeros, such as `0x7F0`.
pub fn format_hex_u32(n: u32) -> (r: String)
    ensures
        r@ == hex_u32_text(n),
{
    let mut s = String::new();
    push_char(&mut s, '0');
    push_char(&mut s, 'x');
    let h = hex_text(n);
    s.append(h.as_str());
    s
}


/// Reading back a formatted decimal gives the number again: `parse::<u32>` of `format_u32(n)` is `n`.
pub proof fn law_decimal_round_trip(n: u32)
    ensures
        parse_u32_spec(radix_text(n as nat, 10)) == Some(n),
{
    lemma_radix_text(n as nat, 10);
    assert(unsigned_body(radix_text(n as nat, 10)) == radix_text(n as nat, 10));
}

/// Reading back a formatted 16-bit decimal gives the number again.
pub proof fn law_decimal_u16_round_trip(n: u16)
    ensures
        parse_u16_spec(radix_text(n as nat, 10)) == Some(n),
{
    lemma_radix_text(n as nat, 10);
    assert(unsigned_body(radix_text(n as nat, 10)) == radix_text(n as nat, 10));
}

/// A digit string of radix sixteen or less starts with no `0x` or `0X` prefix and no `+`.
proof fn lemma_digits_untouched(t: Seq<char>)
    requires
        all_digits(t, 16),
        t.len() > 0,
    ensures
        trim_start_all(t, seq!['0', 'x']) == t,
        trim_start_all(t, seq!['0', 'X']) == t,
        unsigned_body(t) == t,
{
    assert(digit_value(t[0]) < 16);
    if t.len() >= 2 {
        assert(digit_value(t[1]) < 16);
        assert(t.take(2)[1] == t[1]);
        assert(t.take(2) != seq!['0', 'x']);
        assert(t.take(2) != seq!['0', 'X']);
    }
}

/// Reading back a formatted hex byte gives the byte again.
pub proof fn law_hex_u8_round_trip(n: u8)
    ensures
        parse_hex_u8_spec(hex_u8_text(n)) == Some(n),
{
    let hi = n as nat / 16;
    let lo = n as nat % 16;
    lemma_digit_char(hi);
    lemma_digit_char(lo);
    let s = hex_u8_text(n);
    let t = seq![digit_char(hi), digit_char(lo)];
    assert(s.take(2) =~= seq!['0', 'x']);
    assert(s.skip(2) =~= t);
    assert(t.take(2) =~= t);
    assert(trim_start_all(t, seq!['0', 'x']) == t);
    assert(trim_start_all(s, seq!['0', 'x']) == t);
    assert(all_digits(t, 16));
    lemma_digits_untouched(t);
    assert(hex_body(s) == t);
    assert(t.drop_last() =~= seq![digit_char(hi)]);
    assert(t.drop_last().drop_last() =~= Seq::<char>::empty());
    assert(radix_value(t.drop_last().drop_last(), 16) == 0);
    assert(t.drop_last().last() == digit_char(hi));
    assert(radix_value(t.drop_last(), 16) == 0 * 16 + hi);
    assert(radix_value(t, 16) == hi * 16 + lo);
}

/// Reading back a formatted hex `u32` gives the number again.
pub proof fn law_hex_u32_round_trip(n: u32)
    ensures
        parse_hex_u32_spec(hex_u32_text(n)) == Some(n),
{
    let t = radix_text(n as nat, 16);
    lemma_radix_text(n as nat, 16);
    let s = hex_u32_text(n);
    assert(s.take(2) =~= seq!['0', 'x']);
    assert(s.skip(2) =~= t);
    lemma_digits_untouched(t);
    assert(trim_start_all(s, seq!['0', 'x']) == t);
    assert(hex_body(s) == t);
}


/// The characters of `a` followed by those of `b`.
pub fn concat(a: &str, b: &str) -> (r: String)
    ensures
        r@ == a@ + b@,
{
    let mut s = String::from_str(a);
    s.append(b);
    s
}

/// The characters of `a`, `b` and `c` in turn.
pub fn concat3(a: &str, b: &str, c: &str) -> (r: String)
    ensures
        r@ == a@ + b@ + c@,
{
    let mut s = String::from_str(a);
    s.append(b);
    s.append(c);
    s
}


/// Whether `a` sorts strictly before `b`: character by character by code point,
/// a proper prefix first. This is the order `<` gives on `str`.
pub open spec fn lex_lt(a: Seq<char>, b: Seq<char>) -> bool
    decreases a.len(),
{
    if a.len() == 0 {
        b.len() > 0
    } else if b.len() == 0 {
        false
    } else if a[0] != b[0] {
        (a[0] as int) < (b[0] as int)
    } else {
        lex_lt(a.drop_first(), b.drop_first())
    }
}

/// No text sorts before itself.
pub proof fn lemma_lex_irreflexive(a: Seq<char>)
    ensures
        !lex_lt(a, a),
    decreases a.len(),
{
    if a.len() > 0 {
        lemma_lex_irreflexive(a.drop_first());
    }
}

/// Sorting before is transitive.
pub proof fn lemma_lex_transitive(a: Seq<char>, b: Seq<char>, c: Seq<char>)
    requires
        lex_lt(a, b),
        lex_lt(b, c),
    ensures
        lex_lt(a, c),
    decreases a.len(),
{
    if a.len() > 0 && b.len() > 0 && c.len() > 0 && a[0] == b[0] && b[0] == c[0] {
        lemma_lex_transitive(a.drop_first(), b.drop_first(), c.drop_first());
    }
}

/// Of two different texts, one sorts before the other.
pub proof fn lemma_lex_total(a: Seq<char>, b: Seq<char>)
    requires
        a != b,
    ensures
        lex_lt(a, b) || lex_lt(b, a),
    decreases a.len(),
{
    if a.len() > 0 && b.len() > 0 && a[0] == b[0] {
        if a.drop_first() == b.drop_first() {
            assert(a =~= seq![a[0]] + a.drop_first());
            assert(b =~= seq![b[0]] + b.drop_first());
        }
        lemma_lex_total(a.drop_first(), b.drop_first());
    } else if a.len() > 0 && b.len() > 0 {
        assert((a[0] as int) != (b[0] as int));
    } else if a.len() == 0 && b.len() == 0 {
        assert(a =~= b);
    }
}

proof fn lemma_lex_common_prefix(a: Seq<char>, b: Seq<char>, i: int)
    requires
        0 <= i <= a.len(),
        i <= b.len(),
        a.take(i) == b.take(i),
    ensures
        lex_lt(a, b) == lex_lt(a.skip(i), b.skip(i)),
    decreases i,
{
    if i > 0 {
        assert(a[0] == a.take(i)[0]);
        assert(b[0] == b.take(i)[0]);
        assert(a.drop_first().take(i - 1) =~= a.take(i).drop_first());
        assert(b.drop_first().take(i - 1) =~= b.take(i).drop_first());
        lemma_lex_common_prefix(a.drop_first(), b.drop_first(), i - 1);
        assert(a.drop_first().skip(i - 1) =~= a.skip(i));
        assert(b.drop_first().skip(i - 1) =~= b.skip(i));
    } else {
        assert(a.skip(0) =~= a);
        assert(b.skip(0) =~= b);
    }
}

/// Whether `a` sorts after `b`, as `a > b` on `str` does.
pub fn str_gt(a: &str, b: &str) -> (r: bool)
    ensures
        r == lex_lt(b@, a@),
{
    let n = a.unicode_len();
    let m = b.unicode_len();
    let mut i: usize = 0;
    while i < n && i < m
        invariant
            n == a@.len(),
            m == b@.len(),
            i <= n,
            i <= m,
            a@.take(i as int) == b@.take(i as int),
        decreases n - i,
    {
        let x = a.get_char(i);
        let y = b.get_char(i);
        if x != y {
            proof {
                lemma_lex_common_prefix(b@, a@, i as int);
                assert(b@.skip(i as int)[0] == y);
                assert(a@.skip(i as int)[0] == x);
            }
            return (y as u32) < (x as u32);
        }
        assert(a@.take(i + 1) =~= a@.take(i as int).push(x));
        assert(b@.take(i + 1) =~= b@.take(i as int).push(y));
        i = i + 1;
    }
    proof {
        lemma_lex_common_prefix(b@, a@, i as int);
    }
    i < n && i == m
}


/// A two-character hex pair read as a byte, as `u8::from_str_radix(pair, 16)` reads it.
pub fn parse_hex_pair(c1: char, c2: char) -> (r: Option<u8>)
    ensures
        match parse_unsigned(seq![c1, c2], 16, 255) {
            Some(v) => r == Some(v as u8),
            None => r is None,
        },
{
    let ghost s = seq![c1, c2];
    assert(s.drop_last() =~= seq![c1]);
    assert(s.drop_last().drop_last() =~= Seq::<char>::empty());
    assert(s.drop_first() =~= seq![c2]);
    assert(seq![c2].drop_last() =~= Seq::<char>::empty());
    let d2 = digit_of(c2);
    if c1 == '+' {
        assert(unsigned_body(s) =~= seq![c2]);
        assert(radix_value(Seq::<char>::empty(), 16) == 0);
        assert(seq![c2].last() == c2);
        assert(radix_value(seq![c2], 16) == 0 * 16 + digit_value(c2));
        if d2 < 16 {
            Some(d2 as u8)
        } else {
            assert(!all_digits(seq![c2], 16)) by {
                assert(digit_value(seq![c2][0]) >= 16);
            }
            None
        }
    } else {
        assert(unsigned_body(s) =~= s);
        let d1 = digit_of(c1);
        if d1 < 16 && d2 < 16 {
            assert(radix_value(Seq::<char>::empty(), 16) == 0);
            assert(s.drop_last().last() == c1);
            assert(radix_value(s.drop_last(), 16) == 0 * 16 + d1);
            assert(all_digits(s, 16)) by {
                assert forall|i: int| 0 <= i < s.len() implies #[trigger] digit_value(s[i]) < 16 by {}
            }
            Some((d1 * 16 + d2) as u8)
        } else {
            assert(!all_digits(s, 16)) by {
                if d1 >= 16 {
                    assert(digit_value(s[0]) >= 16);
                } else {
                    assert(digit_value(s[1]) >= 16);
                }
            }
            None
        }
    }
}

/// Hex digit pairs read as bytes, in order; `None` when a pair is no hex byte.
pub open spec fn hex_pairs(b: Seq<char>) -> Option<Seq<u8>>
    decreases b.len(),
{
    if b.len() < 2 {
        Some(Seq::empty())
    } else {
        match parse_unsigned(b.take(2), 16, 255) {
            None => None,
            Some(v) => match hex_pairs(b.skip(2)) {
                None => None,
                Some(rest) => Some(seq![v as u8] + rest),
            },
        }
    }
}

/// The number of bytes of `c` in UTF-8.
pub open spec fn utf8_len(c: char) -> nat {
    if (c as u32) < 0x80 {
        1
    } else if (c as u32) < 0x800 {
        2
    } else if (c as u32) < 0x10000 {
        3
    } else {
        4
    }
}

/// The number of bytes of `s` in UTF-8, as `str::len` counts them.
pub open spec fn utf8_size(s: Seq<char>) -> nat
    decreases s.len(),
{
    if s.len() == 0 {
        0
    } else {
        utf8_size(s.drop_last()) + utf8_len(s.last())
    }
}

/// The number of ASCII characters at the start of `s`, before any other character.
pub open spec fn ascii_run(s: Seq<char>) -> nat
    decreases s.len(),
{
    if s.len() == 0 {
        0
    } else {
        let r = ascii_run(s.drop_last());
        if r + 1 < s.len() {
            r
        } else if (s.last() as u32) < 0x80 {
            s.len()
        } else {
            (s.len() - 1) as nat
        }
    }
}

/// A hex data argument such as `0xDEADBEEF` read as bytes: after the `0x`/`0X` prefixes,
/// an even number of digits, at most 256 bytes, each pair a hex byte. Lengths are counted
/// in UTF-8 bytes, and a character other than ASCII is never part of a hex byte.
pub open spec fn hex_data(w: Seq<char>) -> Result<Seq<u8>, Seq<char>> {
    let b = hex_body(w);
    let size = utf8_size(b);
    if size % 2 != 0 {
        Err("Hex data must have even number of digits"@)
    } else if size / 2 > 256 {
        Err("Data too long (max 256 bytes)"@)
    } else if ascii_run(b) < b.len() {
        Err("Invalid hex data"@)
    } else {
        match hex_pairs(b) {
            None => Err("Invalid hex data"@),
            Some(d) => Ok(d),
        }
    }
}

proof fn lemma_ascii_run_bound(s: Seq<char>)
    ensures
        ascii_run(s) <= s.len(),
        ascii_run(s) == s.len() ==> utf8_size(s) == s.len(),
        forall|j: int| 0 <= j < ascii_run(s) ==> (#[trigger] s[j] as u32) < 0x80,
    decreases s.len(),
{
    if s.len() > 0 {
        let p = s.drop_last();
        lemma_ascii_run_bound(p);
        assert forall|j: int| 0 <= j < ascii_run(s) implies (#[trigger] s[j] as u32) < 0x80 by {
            if j < ascii_run(p) {
                assert(s[j] == p[j]);
            }
        }
    }
}

/// The UTF-8 length of a character.
fn char_utf8_len(c: char) -> (r: usize)
    ensures
        r == utf8_len(c),
{
    let v = c as u32;
    if v < 0x80 {
        1
    } else if v < 0x800 {
        2
    } else if v < 0x10000 {
        3
    } else {
        4
    }
}

/// Reads a hex data argument as bytes. Digits that hold a character other than ASCII are
/// invalid hex data.
pub fn parse_hex_data(arg: &str) -> (r: Result<Vec<u8>, &'static str>)
    ensures
        match hex_data(arg@) {
            Ok(d) => r matches Ok(v) && v@ == d,
            Err(e) => r matches Err(m) && m@ == e,
        },
{
    let body = hex_digits(arg);
    let n = body.unicode_len();
    let ghost b = body@;
    // The UTF-8 size of the digits (its parity, and its value up to 600) and the ASCII run.
    let mut odd = false;
    let mut size: usize = 0;
    let mut run: usize = 0;
    let mut j: usize = 0;
    assert(b.take(0) =~= Seq::<char>::empty());
    while j < n
        invariant
            n == b.len(),
            b == body@,
            j <= n,
            odd == (utf8_size(b.take(j as int)) % 2 == 1),
            size == (if utf8_size(b.take(j as int)) < 600 { utf8_size(b.take(j as int)) } else { 600 }),
            run == ascii_run(b.take(j as int)),
        decreases n - j,
    {
        let c = body.get_char(j);
        let l = char_utf8_len(c);
        assert(b.take(j + 1).drop_last() =~= b.take(j as int));
        assert(b.take(j + 1).last() == c);
        proof {
            lemma_ascii_run_bound(b.take(j as int));
        }
        odd = odd != (l % 2 == 1);
        size = if size + l < 600 { size + l } else { 600 };
        if run == j && (c as u32) < 0x80 {
            run = j + 1;
        }
        j = j + 1;
    }
    assert(b.take(n as int) =~= b);
    if odd {
        return Err("Hex data must have even number of digits");
    }
    if size > 513 {
        return Err("Data too long (max 256 bytes)");
    }
    if run < n {
        return Err("Invalid hex data");
    }
    proof {
        lemma_ascii_run_bound(b);
    }
    let mut out: Vec<u8> = Vec::new();
    let mut i: usize = 0;
    assert(b.skip(0) =~= b);
    assert(out@ + Seq::<u8>::empty() =~= out@);
    while i < n / 2
        invariant
            n == b.len(),
            b == body@,
            n % 2 == 0,
            n / 2 <= 256,
            b == hex_body(arg@),
            ascii_run(b) == n,
            utf8_size(b) == n,
            i <= n / 2,
            out@.len() == i,
            hex_pairs(b) == match hex_pairs(b.skip(2 * i)) {
                None => None,
                Some(rest) => Some(out@ + rest),
            },
        decreases n / 2 - i,
    {
        let c1 = body.get_char(2 * i);
        let c2 = body.get_char(2 * i + 1);
        let ghost t = b.skip(2 * i);
        assert(t.take(2) =~= seq![c1, c2]);
        assert(t.skip(2) =~= b.skip(2 * (i + 1)));
        match parse_hex_pair(c1, c2) {
            None => {
                assert(hex_pairs(t) is None);
                return Err("Invalid hex data");
            },
            Some(v) => {
                let ghost before = out@;
                out.push(v);
                proof {
                    match hex_pairs(b.skip(2 * (i + 1))) {
                        None => {},
                        Some(rest) => {
                            assert(before + (seq![v] + rest) =~= out@ + rest);
                        },
                    }
                }
            },
        }
        i = i + 1;
    }
    assert(b.skip(2 * i) =~= Seq::<char>::empty());
    assert(out@ + Seq::<u8>::empty() =~= out@);
    Ok(out)
}

/// Bytes as hex, separated by single spaces.
pub open spec fn hex_list(d: Seq<u8>) -> Seq<char>
    decreases d.len(),
{
    if d.len() == 0 {
        Seq::empty()
    } else if d.len() == 1 {
        hex_u8_text(d[0])
    } else {
        hex_list(d.drop_last()) + " "@ + hex_u8_text(d.last())
    }
}

/// Formats bytes as hex, separated by single spaces.
pub fn format_hex_list(d: &[u8]) -> (r: String)
    ensures
        r@ == hex_list(d@),
{
    let mut out = String::new();
    let mut i: usize = 0;
    while i < d.len()
        invariant
            i <= d.len(),
            out@ == hex_list(d@.take(i as int)),
        decreases d.len() - i,
    {
        assert(d@.take(i + 1).drop_last() =~= d@.take(i as int));
        assert(d@.take(i + 1).last() == d@[i as int]);
        if i > 0 {
            out.append(" ");
        } else {
            assert(d@.take(0) =~= Seq::<u8>::empty());
        }
        let h = format_hex_u8(d[i]);
        out.append(h.as_str());
        i = i + 1;
    }
    assert(d@.take(d.len() as int) =~= d@);
    out
}

} // verus!
