//! The signal sent to a command that outlives its time limit, given by name
//! (`SIGTERM`) or by number (`15`).
use vstd::prelude::*;
use nix::sys::signal::Signal;

verus! {

#[verifier::external_type_specification]
#[verifier::external_body]
pub struct ExSignal(nix::sys::signal::Signal);

/// The signal that `nix::sys::signal::Signal::from_str` gives for `name`
/// when it accepts the name: the variant of that name.
pub uninterp spec fn signal_named(name: Seq<char>) -> Signal;

/// Signal names accepted on every supported platform (Linux and MacOS).
pub open spec fn is_known_everywhere(s: Seq<char>) -> bool {
    ||| s == "SIGHUP"@ ||| s == "SIGINT"@ ||| s == "SIGQUIT"@ ||| s == "SIGILL"@
    ||| s == "SIGTRAP"@ ||| s == "SIGABRT"@ ||| s == "SIGBUS"@ ||| s == "SIGFPE"@
    ||| s == "SIGKILL"@ ||| s == "SIGUSR1"@ ||| s == "SIGSEGV"@ ||| s == "SIGUSR2"@
    ||| s == "SIGPIPE"@ ||| s == "SIGALRM"@ ||| s == "SIGTERM"@ ||| s == "SIGCHLD"@
    ||| s == "SIGCONT"@ ||| s == "SIGSTOP"@ ||| s == "SIGTSTP"@ ||| s == "SIGTTIN"@
    ||| s == "SIGTTOU"@ ||| s == "SIGURG"@ ||| s == "SIGXCPU"@ ||| s == "SIGXFSZ"@
    ||| s == "SIGVTALRM"@ ||| s == "SIGPROF"@ ||| s == "SIGWINCH"@ ||| s == "SIGIO"@
    ||| s == "SIGSYS"@
}

/// Signal names accepted on at least one supported platform: the common ones,
/// `SIGPWR` and `SIGSTKFLT` on Linux, `SIGEMT` and `SIGINFO` on MacOS.
pub open spec fn is_known_somewhere(s: Seq<char>) -> bool {
    ||| is_known_everywhere(s)
    ||| s == "SIGPWR"@ ||| s == "SIGSTKFLT"@ ||| s == "SIGEMT"@ ||| s == "SIGINFO"@
}

/// The text of the error for an unknown signal.
pub open spec fn einval_text() -> Seq<char> {
    "EINVAL: Invalid argument"@
}

/// Calls `nix::sys::signal::Signal::from_str` and renders its error with
/// `to_string`.
///
/// Trusted: the contract claims that the names known everywhere are
/// accepted, that names no supported platform knows are refused with the
/// text of `EINVAL`, and that an accepted name gives the signal of that name.
/// Whether `SIGPWR`, `SIGSTKFLT`, `SIGEMT` and `SIGINFO` are accepted is left
/// unsaid: it depends on the platform.
#[verifier::external_body]
fn parse_signal_name(name: &str) -> (res: Result<Signal, String>)
    ensures
        is_known_everywhere(name@) ==> res is Ok,
        !is_known_somewhere(name@) ==> res is Err,
        res matches Ok(s) ==> s == signal_named(name@),
        res matches Err(e) ==> e@ == einval_text(),
{
    name.parse::<Signal>().map_err(|e| e.to_string())
}

/// The name of the signal with number `n` where the number is the same on
/// every supported platform.
pub open spec fn fixed_signal_name(n: int) -> Option<Seq<char>> {
    if n == 1 { Some("SIGHUP"@) }
    else if n == 2 { Some("SIGINT"@) }
    else if n == 3 { Some("SIGQUIT"@) }
    else if n == 4 { Some("SIGILL"@) }
    else if n == 5 { Some("SIGTRAP"@) }
    else if n == 6 { Some("SIGABRT"@) }
    else if n == 8 { Some("SIGFPE"@) }
    else if n == 9 { Some("SIGKILL"@) }
    else if n == 11 { Some("SIGSEGV"@) }
    else if n == 13 { Some("SIGPIPE"@) }
    else if n == 14 { Some("SIGALRM"@) }
    else if n == 15 { Some("SIGTERM"@) }
    else { None }
}

/// `res` is the signal `s`.
pub open spec fn gives_signal(res: Result<Signal, String>, s: Signal) -> bool {
    res matches Ok(x) && x == s
}

/// Whether every supported platform (Linux and MacOS) has a signal with
/// number `n`: all of 1 to 31 but 7, which is `SIGBUS` on most Linux
/// machines, is missing on Linux for MIPS and SPARC, and is `SIGEMT` on
/// MacOS.
pub open spec fn numbered_everywhere(n: int) -> bool {
    1 <= n <= 31 && n != 7
}

/// Calls `<Signal as TryFrom<i32>>::try_from` and renders its error with
/// `to_string`.
///
/// Trusted: the contract claims that the numbers that are the same on every
/// supported platform give their signal, that every number from 1 to 31 but
/// 7 is a signal there, that no number below 1 or above 31 is one, and that
/// the error text is that of `EINVAL`. Which signal a number outside the
/// fixed ones gives, and whether 7 is one, is left unsaid: it depends on the
/// platform.
#[verifier::external_body]
fn signal_from_number(n: i32) -> (res: Result<Signal, String>)
    ensures
        fixed_signal_name(n as int) is Some ==> gives_signal(res, signal_named(fixed_signal_name(n as int)->0)),
        numbered_everywhere(n as int) ==> res is Ok,
        n < 1 || n > 31 ==> res is Err,
        res matches Err(e) ==> e@ == einval_text(),
{
    Signal::try_from(n).map_err(|e| e.to_string())
}

/// Whether `c` is a decimal digit.
pub open spec fn is_digit(c: char) -> bool {
    '0' <= c && c <= '9'
}

/// Whether `s` is a non-empty run of decimal digits.
pub open spec fn is_numeral(s: Seq<char>) -> bool {
    s.len() > 0 && forall|i: int| 0 <= i < s.len() ==> is_digit(#[trigger] s[i])
}

/// The value of a run of decimal digits.
pub open spec fn numeral_value(s: Seq<char>) -> nat
    decreases s.len(),
{
    if s.len() == 0 {
        0
    } else {
        numeral_value(s.drop_last()) * 10 + ((s.last() as int - '0' as int) as nat)
    }
}

/// The number written by `s`, when `s` is a numeral whose value fits an
/// `i32`.
pub open spec fn small_numeral(s: Seq<char>) -> Option<int> {
    if is_numeral(s) && numeral_value(s) <= i32::MAX as nat {
        Some(numeral_value(s) as int)
    } else {
        None
    }
}

fn read_numeral(s: &str) -> (r: Option<i32>)
    ensures
        match small_numeral(s@) {
            Some(n) => r == Some(n as i32),
            None => r is None,
        },
{
    let len = s.unicode_len();
    if len == 0 {
        return None;
    }
    let mut value: u64 = 0;
    let mut too_big = false;
    let mut i: usize = 0;
    while i < len
        invariant
            len == s@.len(),
            i <= len,
            forall|j: int| 0 <= j < i ==> is_digit(#[trigger] s@[j]),
            !too_big ==> value == numeral_value(s@.take(i as int)) && value <= i32::MAX,
            too_big ==> numeral_value(s@.take(i as int)) > i32::MAX,
        decreases len - i,
    {
        let c = s.get_char(i);
        if !('0' <= c && c <= '9') {
            assert(!is_numeral(s@));
            return None;
        }
        let ghost prefix = s@.take(i as int);
        assert(s@.take(i as int + 1).drop_last() =~= prefix);
        assert(s@.take(i as int + 1).last() == c);
        if !too_big {
            let d = (c as u32 - '0' as u32) as u64;
            value = value * 10 + d;
            if value > i32::MAX as u64 {
                too_big = true;
            }
        }
        i = i + 1;
    }
    assert(s@.take(len as int) =~= s@);
    if too_big {
        None
    } else {
        Some(value as i32)
    }
}

/// The error of a signal that the platform does not know.
pub open spec fn invalid_signal_message() -> Seq<char> {
    "Invalid signal: "@ + einval_text()
}

/// What resolving `name` may give. A number that fits an `i32` stands for
/// the signal of that number: the numbers that are the same everywhere give
/// their signal, every number from 1 to 31 but 7 is accepted, and 0 and the
/// numbers above 31 are refused. Anything else is a signal name: the names
/// known everywhere give the signal of that name, names no supported
/// platform knows are refused, and an accepted name always gives its own
/// signal. A refusal is the error `Invalid signal: EINVAL: Invalid argument`.
pub open spec fn resolves_to(name: Seq<char>, res: Result<Signal, String>) -> bool {
    &&& res matches Err(e) ==> e@ == invalid_signal_message()
    &&& match small_numeral(name) {
        Some(n) => {
            &&& fixed_signal_name(n) matches Some(m) ==> res == Ok::<Signal, String>(signal_named(m))
            &&& numbered_everywhere(n) ==> res is Ok
            &&& n == 0 || n > 31 ==> res is Err
        },
        None => {
            &&& is_known_everywhere(name) ==> res == Ok::<Signal, String>(signal_named(name))
            &&& !is_known_somewhere(name) ==> res is Err
            &&& res matches Ok(s) ==> s == signal_named(name)
        },
    }
}

/// Resolves the `--signal` argument, a signal name such as `SIGTERM` or a
/// number such as `15`.
pub fn resolve_signal(name: &str) -> (res: Result<Signal, String>)
    ensures
        resolves_to(name@, res),
{
    let found = match read_numeral(name) {
        Some(n) => signal_from_number(n),
        None => parse_signal_name(name),
    };
    match found {
        Ok(s) => Ok(s),
        Err(e) => {
            let mut msg = String::from_str("Invalid signal: ");
            msg.append(e.as_str());
            Err(msg)
        },
    }
}

} // verus!
