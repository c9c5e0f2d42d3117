//! A span of time, counted in nanoseconds, and its textual forms.
use vstd::prelude::*;
use crate::text::{decimal, decimal_text, digit_char, digit_str};

verus! {

/// Nanoseconds in one second.
pub const NANOS_PER_SEC: u128 = 1_000_000_000;

/// Nanoseconds in one millisecond.
pub const NANOS_PER_MILLI: u128 = 1_000_000;

/// The longest span that can be held: `u64::MAX` seconds plus 999 999 999
/// nanoseconds, as for `std::time::Duration`.
pub const MAX_NANOS: u128 = 18_446_744_073_709_551_615_999_999_999;

/// A non-negative span of time with nanosecond precision.
#[derive(Clone, Copy, Debug, PartialEq, Eq, Structural)]
pub struct Duration {
    nanos: u128,
}

impl Duration {
    #[verifier::type_invariant]
    spec fn in_range(self) -> bool {
        self.nanos <= MAX_NANOS
    }

    /// The span in nanoseconds.
    pub closed spec fn view(self) -> nat {
        self.nanos as nat
    }

    /// The span that holds `nanos` nanoseconds.
    pub fn from_nanos(nanos: u128) -> (d: Duration)
        requires
            nanos <= MAX_NANOS,
        ensures
            d.view() == nanos,
    {
        Duration { nanos }
    }

    /// `secs` whole seconds and `nanos` further nanoseconds.
    pub fn new(secs: u64, nanos: u32) -> (d: Duration)
        requires
            nanos < NANOS_PER_SEC,
        ensures
            d.view() == secs * NANOS_PER_SEC + nanos,
    {
        Duration { nanos: secs as u128 * NANOS_PER_SEC + nanos as u128 }
    }

    /// `secs` whole seconds.
    pub fn from_secs(secs: u64) -> (d: Duration)
        ensures
            d.view() == secs * NANOS_PER_SEC,
    {
        Duration { nanos: secs as u128 * NANOS_PER_SEC }
    }

    /// `millis` milliseconds.
    pub fn from_millis(millis: u64) -> (d: Duration)
        ensures
            d.view() == millis * NANOS_PER_MILLI,
    {
        Duration { nanos: millis as u128 * NANOS_PER_MILLI }
    }

    /// The empty span.
    pub fn zero() -> (d: Duration)
        ensures
            d.view() == 0,
    {
        Duration { nanos: 0 }
    }

    /// The span in nanoseconds.
    pub fn as_nanos(&self) -> (n: u128)
        ensures
            n == self.view(),
            n <= MAX_NANOS,
    {
        proof {
            use_type_invariant(self);
        }
        self.nanos
    }

    /// The whole milliseconds in the span (the rest is dropped).
    pub fn as_millis(&self) -> (m: u128)
        ensures
            m == self.view() / (NANOS_PER_MILLI as nat),
    {
        self.nanos / NANOS_PER_MILLI
    }

    /// The whole seconds in the span.
    pub fn as_secs(&self) -> (s: u64)
        ensures
            s == self.view() / (NANOS_PER_SEC as nat),
    {
        proof {
            use_type_invariant(self);
        }
        (self.nanos / NANOS_PER_SEC) as u64
    }

    /// The nanoseconds beyond the whole seconds.
    pub fn subsec_nanos(&self) -> (n: u32)
        ensures
            n == self.view() % (NANOS_PER_SEC as nat),
            n < NANOS_PER_SEC,
    {
        (self.nanos % NANOS_PER_SEC) as u32
    }

    /// Whether the span is empty.
    pub fn is_zero(&self) -> (b: bool)
        ensures
            b == (self.view() == 0),
    {
        self.nanos == 0
    }

    /// What is left of this span after `other`.
    pub fn minus(&self, other: &Duration) -> (d: Duration)
        requires
            self.view() >= other.view(),
        ensures
            d.view() == self.view() - other.view(),
    {
        proof {
            use_type_invariant(self);
        }
        Duration { nanos: self.nanos - other.nanos }
    }

    /// Whether two spans are equally long.
    pub fn same_as(&self, other: &Duration) -> (b: bool)
        ensures
            b == (self.view() == other.view()),
    {
        self.nanos == other.nanos
    }

    /// Whether this span is at least as long as `other`.
    pub fn at_least(&self, other: &Duration) -> (b: bool)
        ensures
            b == (self.view() >= other.view()),
    {
        self.nanos >= other.nanos
    }
}

/// The last `w` decimal digits of `f`, leading zeros included.
pub open spec fn padded(f: nat, w: nat) -> Seq<char>
    decreases w,
{
    if w == 0 {
        seq![]
    } else {
        padded(f / 10, (w - 1) as nat).push(digit_char(f % 10))
    }
}

/// The digits after the decimal point of the fraction `f / 10^w`
/// (`f < 10^w`), without trailing zeros: empty when `f` is 0.
pub open spec fn fraction_digits(f: nat, w: nat) -> Seq<char>
    decreases w,
{
    if f == 0 || w == 0 {
        seq![]
    } else if f % 10 == 0 {
        fraction_digits(f / 10, (w - 1) as nat)
    } else {
        padded(f, w)
    }
}

/// `whole`, then the fraction `f / 10^w` unless it is zero, then `unit`.
pub open spec fn decimal_with_unit(whole: nat, f: nat, w: nat, unit: Seq<char>) -> Seq<char> {
    let point = if f == 0 { Seq::<char>::empty() } else { seq!['.'] + fraction_digits(f, w) };
    decimal(whole) + point + unit
}

/// The text of a span of `n` nanoseconds: in seconds from one second on, in
/// milliseconds from one millisecond on, in microseconds from one
/// microsecond on, and in nanoseconds below that, with as many decimals as
/// the span needs (`1.5s`, `100ms`, `2.25\u{b5}s`, `0ns`). This is the text
/// of `std::time::Duration`'s `Debug` formatting.
pub open spec fn duration_text_view(n: nat) -> Seq<char> {
    if n >= NANOS_PER_SEC {
        decimal_with_unit(n / (NANOS_PER_SEC as nat), n % (NANOS_PER_SEC as nat), 9, "s"@)
    } else if n >= NANOS_PER_MILLI {
        decimal_with_unit(n / (NANOS_PER_MILLI as nat), n % (NANOS_PER_MILLI as nat), 6, "ms"@)
    } else if n >= 1000 {
        decimal_with_unit(n / 1000, n % 1000, 3, seq![micro_sign(), 's'])
    } else {
        decimal(n) + "ns"@
    }
}

fn push_padded(out: &mut String, f: u128, w: u32)
    ensures
        final(out)@ == old(out)@ + padded(f as nat, w as nat),
    decreases w,
{
    if w > 0 {
        push_padded(out, f / 10, w - 1);
        out.append(digit_str(f % 10));
        assert(out@ =~= old(out)@ + padded(f as nat, w as nat));
    } else {
        assert(out@ =~= old(out)@ + padded(f as nat, w as nat));
    }
}

fn push_fraction(out: &mut String, f: u128, w: u32)
    ensures
        final(out)@ == old(out)@ + fraction_digits(f as nat, w as nat),
    decreases w,
{
    if f == 0 || w == 0 {
        assert(out@ =~= old(out)@ + fraction_digits(f as nat, w as nat));
    } else if f % 10 == 0 {
        push_fraction(out, f / 10, w - 1);
    } else {
        push_padded(out, f, w);
    }
}

fn with_unit(whole: u128, f: u128, w: u32, unit: &str) -> (s: String)
    ensures
        s@ == decimal_with_unit(whole as nat, f as nat, w as nat, unit@),
{
    let mut s = decimal_text(whole);
    let ghost digits = s@;
    if f != 0 {
        proof {
            reveal_strlit(".");
        }
        s.append(".");
        push_fraction(&mut s, f, w);
        assert(s@ =~= digits + (seq!['.'] + fraction_digits(f as nat, w as nat)));
    } else {
        assert(s@ =~= digits + Seq::<char>::empty());
    }
    s.append(unit);
    s
}

/// Renders `d` as `std::time::Duration`'s `Debug` formatting does, such as
/// `100ms` or `1.5s`.
pub fn duration_text(d: &Duration) -> (s: String)
    ensures
        s@ == duration_text_view(d.view()),
{
    let n = d.as_nanos();
    proof {
        reveal_strlit("s");
        reveal_strlit("ms");
        reveal_strlit("\u{b5}s");
        reveal_strlit("ns");
    }
    if n >= NANOS_PER_SEC {
        with_unit(n / NANOS_PER_SEC, n % NANOS_PER_SEC, 9, "s")
    } else if n >= NANOS_PER_MILLI {
        with_unit(n / NANOS_PER_MILLI, n % NANOS_PER_MILLI, 6, "ms")
    } else if n >= 1000 {
        with_unit(n / 1000, n % 1000, 3, "\u{b5}s")
    } else {
        let mut s = decimal_text(n);
        s.append("ns");
        s
    }
}

/// What `fundu::DurationParser::with_all_time_units().parse` gives for
/// `arg`, as a `std::time::Duration`: the span in nanoseconds, or the text of
/// its error. The units are `ns`, `Ms` (microseconds), `ms`, `s`, `m`, `h`,
/// `d`, `w`, `M` (months) and `y` (years); seconds without a unit.
pub uninterp spec fn fundu_duration(arg: Seq<char>) -> Result<nat, Seq<char>>;

/// Calls `fundu::DurationParser::with_all_time_units().parse` (no negative
/// values, no mixed units), converts the result to a `std::time::Duration`,
/// and renders an error with `to_string`.
///
/// Trusted: the contract claims that the outcome is a function of `arg`
/// alone, named by `fundu_duration`.
#[verifier::external_body]
fn fundu_parse(arg: &str) -> (res: Result<Duration, String>)
    ensures
        match res {
            Ok(d) => fundu_duration(arg@) == Ok::<nat, Seq<char>>(d.view()),
            Err(e) => fundu_duration(arg@) == Err::<nat, Seq<char>>(e@),
        },
{
    match fundu::DurationParser::with_all_time_units().parse(arg) {
        Ok(d) => match std::time::Duration::try_from(d) {
            Ok(d) => Ok(Duration::new(d.as_secs(), d.subsec_nanos())),
            Err(e) => Err(e.to_string()),
        },
        Err(e) => Err(e.to_string()),
    }
}

/// The micro sign, as in `5\u{b5}s`.
pub open spec fn micro_sign() -> char {
    '\u{b5}'
}

/// `arg` with the documented microsecond units `us` and `\u{b5}s` written as
/// the parser's `Ms`; any other text is left as it is.
pub open spec fn with_parser_units(arg: Seq<char>) -> Seq<char> {
    let n = arg.len();
    if n >= 2 && arg[n - 1] == 's' && (arg[n - 2] == 'u' || arg[n - 2] == micro_sign()) {
        arg.subrange(0, n - 2) + seq!['M', 's']
    } else {
        arg
    }
}

/// The outcome of parsing a duration argument: the span that the parser
/// gives for the argument with the documented units, or, when that fails,
/// the outcome for the argument as the user wrote it (so that an error
/// quotes the user's own text).
pub open spec fn duration_outcome(arg: Seq<char>) -> Result<nat, Seq<char>> {
    match fundu_duration(with_parser_units(arg)) {
        Ok(n) => Ok(n),
        Err(_) => fundu_duration(arg),
    }
}

/// Parses a duration argument: a number (integer, decimal or with an
/// exponent) and an optional unit among `ns`, `us` (or `\u{b5}s`), `ms`, `s`,
/// `m`, `h`, `d`, `w`, `M`, `y`; seconds without a unit.
pub fn parse_duration(arg: &str) -> (res: Result<Duration, String>)
    ensures
        match res {
            Ok(d) => duration_outcome(arg@) == Ok::<nat, Seq<char>>(d.view()),
            Err(e) => duration_outcome(arg@) == Err::<nat, Seq<char>>(e@),
        },
{
    let n = arg.unicode_len();
    if n >= 2 && arg.get_char(n - 1) == 's' {
        let unit = arg.get_char(n - 2);
        if unit == 'u' || unit == '\u{b5}' {
            let mut rewritten = String::from_str(arg.substring_char(0, n - 2));
            proof {
                reveal_strlit("Ms");
            }
            rewritten.append("Ms");
            assert(rewritten@ =~= with_parser_units(arg@));
            let res = fundu_parse(rewritten.as_str());
            if res.is_ok() {
                return res;
            }
            return fundu_parse(arg);
        }
    }
    fundu_parse(arg)
}

} // verus!
