//! Decimal rendering of integers and the textual value of a forwarded flag.
use vstd::prelude::*;

verus! {

/// The character of a decimal digit `d` (`0 <= d < 10`).
pub open spec fn digit_char(d: nat) -> char {
    if d == 0 { '0' }
    else if d == 1 { '1' }
    else if d == 2 { '2' }
    else if d == 3 { '3' }
    else if d == 4 { '4' }
    else if d == 5 { '5' }
    else if d == 6 { '6' }
    else if d == 7 { '7' }
    else if d == 8 { '8' }
    else { '9' }
}

/// The base-10 rendering of `n`, most significant digit first, with no
/// leading zeros (`0` renders as `"0"`).
pub open spec fn decimal(n: nat) -> Seq<char>
    decreases n,
{
    if n < 10 {
        seq![digit_char(n)]
    } else {
        decimal(n / 10).push(digit_char(n % 10))
    }
}

/// The one-character text of the digit `d`.
pub(crate) fn digit_str(d: u128) -> (s: &'static str)
    requires
        d < 10,
    ensures
        s@ == seq![digit_char(d as nat)],
{
    proof {
        reveal_strlit("0");
        reveal_strlit("1");
        reveal_strlit("2");
        reveal_strlit("3");
        reveal_strlit("4");
        reveal_strlit("5");
        reveal_strlit("6");
        reveal_strlit("7");
        reveal_strlit("8");
        reveal_strlit("9");
    }
    if d == 0 { "0" }
    else if d == 1 { "1" }
    else if d == 2 { "2" }
    else if d == 3 { "3" }
    else if d == 4 { "4" }
    else if d == 5 { "5" }
    else if d == 6 { "6" }
    else if d == 7 { "7" }
    else if d == 8 { "8" }
    else { "9" }
}

/// Renders `n` in base 10.
pub fn decimal_text(n: u128) -> (s: String)
    ensures
        s@ == decimal(n as nat),
    decreases n,
{
    if n < 10 {
        String::from_str(digit_str(n))
    } else {
        let mut s = decimal_text(n / 10);
        s.append(digit_str(n % 10));
        s
    }
}

/// A value that can be forwarded as the argument of a command-line flag.
pub trait FlagText {
    /// The text that stands for the value on a command line.
    spec fn flag_view(&self) -> Seq<char>;

    /// Renders the value as command-line text.
    fn flag_text(&self) -> (s: String)
        ensures
            s@ == self.flag_view(),
    ;
}

impl FlagText for String {
    open spec fn flag_view(&self) -> Seq<char> {
        self@
    }

    fn flag_text(&self) -> (s: String) {
        self.clone()
    }
}

impl FlagText for u64 {
    open spec fn flag_view(&self) -> Seq<char> {
        decimal(*self as nat)
    }

    fn flag_text(&self) -> (s: String) {
        decimal_text(*self as u128)
    }
}

impl FlagText for u32 {
    open spec fn flag_view(&self) -> Seq<char> {
        decimal(*self as nat)
    }

    fn flag_text(&self) -> (s: String) {
        decimal_text(*self as u128)
    }
}

/// The views of a sequence of strings.
pub open spec fn texts(v: Seq<String>) -> Seq<Seq<char>> {
    v.map_values(|s: String| s@)
}

} // verus!
