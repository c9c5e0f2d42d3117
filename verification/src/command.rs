//! The command line that is finally run: tmux delegation, `sh -c` and the
//! sleep-preventing prefix.
use vstd::prelude::*;
use crate::args::{Args, Platform, DEFAULT_NETWORK_CHECK_URL, DEFAULT_URL_RETRY_COUNT, has_default_options, same_options};
use crate::duration::{Duration, NANOS_PER_MILLI, NANOS_PER_SEC};
use crate::text::{FlagText, decimal, decimal_text, texts};

verus! {

/// `[flag, value]` when there is a value, nothing otherwise.
pub open spec fn flag_pair<T: FlagText>(flag: Seq<char>, opt: Option<T>) -> Seq<Seq<char>> {
    match opt {
        Some(v) => seq![flag, v.flag_view()],
        None => seq![],
    }
}

/// Appends `flag` and the text of the value to `vec` when there is a value.
pub fn push_opt<T: FlagText>(vec: &mut Vec<String>, flag: &str, opt: Option<T>)
    ensures
        texts(final(vec)@) == texts(old(vec)@) + flag_pair(flag@, opt),
{
    if let Some(val) = opt {
        vec.push(flag.to_owned());
        vec.push(val.flag_text());
        assert(texts(vec@) =~= texts(old(vec)@) + flag_pair(flag@, Some(val)));
    } else {
        assert(texts(vec@) =~= texts(old(vec)@) + flag_pair(flag@, opt));
    }
}

/// A span written in whole milliseconds, e.g. `1500ms`.
pub open spec fn millis_view(d: Duration) -> Seq<char> {
    decimal(d.view() / (NANOS_PER_MILLI as nat)) + "ms"@
}

/// Writes `d` in whole milliseconds, e.g. `1500ms`.
pub fn millis_text(d: &Duration) -> (s: String)
    ensures
        s@ == millis_view(*d),
{
    let mut s = decimal_text(d.as_millis());
    s.append("ms");
    s
}

/// `[flag, millis]` when there is a span, nothing otherwise.
pub open spec fn millis_pair(flag: Seq<char>, opt: Option<Duration>) -> Seq<Seq<char>> {
    match opt {
        Some(d) => seq![flag, millis_view(d)],
        None => seq![],
    }
}

/// `[flag]` when `on`, nothing otherwise.
pub open spec fn switch(flag: Seq<char>, on: bool) -> Seq<Seq<char>> {
    if on { seq![flag] } else { seq![] }
}

/// Where the command runs and which lock guards it.
pub open spec fn location_flags(
    directory: Option<String>,
    lockfile: Option<String>,
    lock_timeout: Option<Duration>,
) -> Seq<Seq<char>> {
    flag_pair("--directory"@, directory)
    + flag_pair("--lockfile"@, lockfile)
    + millis_pair("--lock_timeout"@, lock_timeout)
}

/// The command timeout, with the signal and the grace period that go with it.
pub open spec fn timeout_flags(
    command_timeout: Option<Duration>,
    signal: Option<String>,
    signal_timeout: Duration,
) -> Seq<Seq<char>> {
    match command_timeout {
        Some(t) => seq![
            "--command_timeout"@, millis_view(t),
            "--signal"@, signal->0@,
            "--signal_timeout"@, millis_view(signal_timeout),
        ],
        None => seq![],
    }
}

/// The shell switch and the notification settings that differ from the
/// defaults.
pub open spec fn notify_flags(
    shell: bool,
    success_url: Option<String>,
    failure_url: Option<String>,
    url_retry_delay: Duration,
    url_retry_count: u32,
) -> Seq<Seq<char>> {
    switch("--shell"@, shell)
    + flag_pair("--success_url"@, success_url)
    + flag_pair("--failure_url"@, failure_url)
    + (if url_retry_delay.view() != NANOS_PER_SEC {
        seq!["--url_retry_delay"@, millis_view(url_retry_delay)]
    } else {
        seq![]
    })
    + (if url_retry_count != DEFAULT_URL_RETRY_COUNT {
        seq!["--url_retry_count"@, decimal(url_retry_count as nat)]
    } else {
        seq![]
    })
}

/// Sleep prevention, the final wait and the retry settings.
pub open spec fn behaviour_flags(
    caffeinate: bool,
    wait: bool,
    retries: u32,
    retry_delay: Option<Duration>,
    retry_wait: bool,
) -> Seq<Seq<char>> {
    switch("--caffeinate"@, caffeinate)
    + switch("--wait"@, wait)
    + (if retries != 0 { seq!["--retries"@, decimal(retries as nat)] } else { seq![] })
    + millis_pair("--retry_delay"@, retry_delay)
    + switch("--retry_wait"@, retry_wait)
}

/// The network check settings that are given or differ from the default.
pub open spec fn network_flags(
    network_check_timeout: Option<Duration>,
    network_check_url: String,
) -> Seq<Seq<char>> {
    millis_pair("--network_check_timeout"@, network_check_timeout)
    + (if network_check_url@ != DEFAULT_NETWORK_CHECK_URL@ {
        seq!["--network_check_url"@, network_check_url@]
    } else {
        seq![]
    })
}

/// The flags that reproduce the options of `a` in the process started in the
/// tmux window; options left at their defaults are not written.
pub open spec fn forwarded_flags(a: Args) -> Seq<Seq<char>> {
    location_flags(a.directory, a.lockfile, a.lock_timeout)
    + timeout_flags(a.command_timeout, a.signal, a.signal_timeout)
    + notify_flags(a.shell, a.success_url, a.failure_url, a.url_retry_delay, a.url_retry_count)
    + behaviour_flags(a.caffeinate, a.wait, a.retries, a.retry_delay, a.retry_wait)
    + network_flags(a.network_check_timeout, a.network_check_url)
}

/// The command that opens a detached tmux window named after
/// `a.tmux_window_name` and runs `exe` (this program) there with the
/// forwarded options and the given command.
pub open spec fn tmux_command_view(a: Args, exe: Seq<char>) -> Seq<Seq<char>> {
    seq!["tmux"@, "new-window"@, "-d"@, "-n"@, a.tmux_window_name->0@, exe]
    + forwarded_flags(a)
    + texts(a.command@)
}

fn push_str(v: &mut Vec<String>, s: &str)
    ensures
        texts(final(v)@) == texts(old(v)@).push(s@),
{
    v.push(s.to_owned());
    assert(texts(v@) =~= texts(old(v)@).push(s@));
}

fn push_string(v: &mut Vec<String>, s: String)
    ensures
        texts(final(v)@) == texts(old(v)@).push(s@),
{
    v.push(s);
    assert(texts(v@) =~= texts(old(v)@).push(s@));
}

fn push_millis(v: &mut Vec<String>, flag: &str, opt: Option<Duration>)
    ensures
        texts(final(v)@) == texts(old(v)@) + millis_pair(flag@, opt),
{
    if let Some(d) = opt {
        push_str(v, flag);
        push_string(v, millis_text(&d));
        assert(texts(v@) =~= texts(old(v)@) + millis_pair(flag@, opt));
    } else {
        assert(texts(v@) =~= texts(old(v)@) + millis_pair(flag@, opt));
    }
}

fn push_switch(v: &mut Vec<String>, flag: &str, on: bool)
    ensures
        texts(final(v)@) == texts(old(v)@) + switch(flag@, on),
{
    if on {
        push_str(v, flag);
    }
    assert(texts(v@) =~= texts(old(v)@) + switch(flag@, on));
}

fn append_all(v: &mut Vec<String>, tail: Vec<String>)
    ensures
        texts(final(v)@) == texts(old(v)@) + texts(tail@),
{
    let ghost t = tail@;
    let mut tail = tail;
    v.append(&mut tail);
    assert(texts(v@) =~= texts(old(v)@) + texts(t));
}

fn push_location(
    f: &mut Vec<String>,
    directory: Option<String>,
    lockfile: Option<String>,
    lock_timeout: Option<Duration>,
)
    ensures
        texts(final(f)@) == texts(old(f)@) + location_flags(directory, lockfile, lock_timeout),
{
    push_opt(f, "--directory", directory);
    push_opt(f, "--lockfile", lockfile);
    push_millis(f, "--lock_timeout", lock_timeout);
    assert(texts(f@) =~= texts(old(f)@) + location_flags(directory, lockfile, lock_timeout));
}

fn push_timeout(
    f: &mut Vec<String>,
    command_timeout: Option<Duration>,
    signal: Option<String>,
    signal_timeout: Duration,
)
    requires
        command_timeout is Some ==> signal is Some,
    ensures
        texts(final(f)@) == texts(old(f)@) + timeout_flags(command_timeout, signal, signal_timeout),
{
    let ghost sig = signal;
    if let Some(t) = command_timeout {
        push_str(f, "--command_timeout");
        push_string(f, millis_text(&t));
        push_str(f, "--signal");
        push_string(f, signal.unwrap());
        push_str(f, "--signal_timeout");
        push_string(f, millis_text(&signal_timeout));
    }
    assert(texts(f@) =~= texts(old(f)@) + timeout_flags(command_timeout, sig, signal_timeout));
}

fn push_notify(
    f: &mut Vec<String>,
    shell: bool,
    success_url: Option<String>,
    failure_url: Option<String>,
    url_retry_delay: Duration,
    url_retry_count: u32,
)
    ensures
        texts(final(f)@) == texts(old(f)@)
            + notify_flags(shell, success_url, failure_url, url_retry_delay, url_retry_count),
{
    let ghost (s, fl) = (success_url, failure_url);
    push_switch(f, "--shell", shell);
    push_opt(f, "--success_url", success_url);
    push_opt(f, "--failure_url", failure_url);
    if !url_retry_delay.same_as(&Duration::from_secs(1)) {
        push_str(f, "--url_retry_delay");
        push_string(f, millis_text(&url_retry_delay));
    }
    if url_retry_count != DEFAULT_URL_RETRY_COUNT {
        push_str(f, "--url_retry_count");
        push_string(f, decimal_text(url_retry_count as u128));
    }
    assert(texts(f@) =~= texts(old(f)@)
        + notify_flags(shell, s, fl, url_retry_delay, url_retry_count));
}

fn push_behaviour(
    f: &mut Vec<String>,
    caffeinate: bool,
    wait: bool,
    retries: u32,
    retry_delay: Option<Duration>,
    retry_wait: bool,
)
    ensures
        texts(final(f)@) == texts(old(f)@)
            + behaviour_flags(caffeinate, wait, retries, retry_delay, retry_wait),
{
    push_switch(f, "--caffeinate", caffeinate);
    push_switch(f, "--wait", wait);
    if retries != 0 {
        push_str(f, "--retries");
        push_string(f, decimal_text(retries as u128));
    }
    push_millis(f, "--retry_delay", retry_delay);
    push_switch(f, "--retry_wait", retry_wait);
    assert(texts(f@) =~= texts(old(f)@)
        + behaviour_flags(caffeinate, wait, retries, retry_delay, retry_wait));
}

fn push_network(
    f: &mut Vec<String>,
    network_check_timeout: Option<Duration>,
    network_check_url: String,
)
    ensures
        texts(final(f)@) == texts(old(f)@) + network_flags(network_check_timeout, network_check_url),
{
    let ghost url = network_check_url;
    push_millis(f, "--network_check_timeout", network_check_timeout);
    let default_url = DEFAULT_NETWORK_CHECK_URL.to_owned();
    if !(network_check_url == default_url) {
        push_str(f, "--network_check_url");
        push_string(f, network_check_url);
    }
    assert(texts(f@) =~= texts(old(f)@) + network_flags(network_check_timeout, url));
}

proof fn lemma_concat_six<A>(
    h: Seq<A>, p1: Seq<A>, p2: Seq<A>, p3: Seq<A>, p4: Seq<A>, p5: Seq<A>, t: Seq<A>,
)
    ensures
        h + p1 + p2 + p3 + p4 + p5 + t == h + (p1 + p2 + p3 + p4 + p5) + t,
{
    assert(h + p1 + p2 + p3 + p4 + p5 + t =~= h + (p1 + p2 + p3 + p4 + p5) + t);
}

/// Builds the command that runs this program, `exe`, with the same options
/// and command in a new detached tmux window named `args.tmux_window_name`.
pub fn make_tmux_command(args: Args, exe: String) -> (cmd: Vec<String>)
    requires
        args.tmux_window_name is Some,
        args.command_timeout is Some ==> args.signal is Some,
    ensures
        texts(cmd@) == tmux_command_view(args, exe@),
{
    let ghost a = args;
    let ghost exe_view = exe@;
    let Args {
        directory, shell, tmux_window_name, caffeinate, network_check_timeout,
        network_check_url, lockfile, lock_timeout, command_timeout, signal, signal_timeout,
        success_url, failure_url, url_retry_count, url_retry_delay, retries, retry_delay,
        retry_wait, wait, output_shell_completion: _, command,
    } = args;
    let mut full: Vec<String> = Vec::new();
    push_str(&mut full, "tmux");
    push_str(&mut full, "new-window");
    push_str(&mut full, "-d");
    push_str(&mut full, "-n");
    push_string(&mut full, tmux_window_name.unwrap());
    push_string(&mut full, exe);
    let ghost header = texts(full@);
    let ghost p1 = location_flags(a.directory, a.lockfile, a.lock_timeout);
    let ghost p2 = timeout_flags(a.command_timeout, a.signal, a.signal_timeout);
    let ghost p3 = notify_flags(a.shell, a.success_url, a.failure_url, a.url_retry_delay, a.url_retry_count);
    let ghost p4 = behaviour_flags(a.caffeinate, a.wait, a.retries, a.retry_delay, a.retry_wait);
    let ghost p5 = network_flags(a.network_check_timeout, a.network_check_url);
    push_location(&mut full, directory, lockfile, lock_timeout);
    push_timeout(&mut full, command_timeout, signal, signal_timeout);
    push_notify(&mut full, shell, success_url, failure_url, url_retry_delay, url_retry_count);
    push_behaviour(&mut full, caffeinate, wait, retries, retry_delay, retry_wait);
    push_network(&mut full, network_check_timeout, network_check_url);
    append_all(&mut full, command);
    proof {
        lemma_concat_six(header, p1, p2, p3, p4, p5, texts(a.command@));
    }
    full
}

/// The prefix that keeps the system awake while a command runs.
pub open spec fn caffeinate_view(p: Platform) -> Seq<Seq<char>> {
    match p {
        Platform::Linux => seq!["systemd-inhibit"@, "--what=idle"@],
        Platform::MacOs => seq!["caffeinate"@, "-i"@],
    }
}

/// The prefix that keeps the system awake while a command runs:
/// `systemd-inhibit --what=idle` on Linux, `caffeinate -i` on MacOS.
pub fn caffeinate_command(p: Platform) -> (cmd: Vec<String>)
    ensures
        texts(cmd@) == caffeinate_view(p),
{
    let mut cmd: Vec<String> = Vec::new();
    match p {
        Platform::Linux => {
            push_str(&mut cmd, "systemd-inhibit");
            push_str(&mut cmd, "--what=idle");
        },
        Platform::MacOs => {
            push_str(&mut cmd, "caffeinate");
            push_str(&mut cmd, "-i");
        },
    }
    assert(texts(cmd@) =~= caffeinate_view(p));
    cmd
}

/// The command as it is run when there is no tmux delegation: the
/// sleep-preventing prefix (with `--caffeinate`) around `sh -c` (with
/// `--shell`) around the given command.
pub open spec fn wrapped_command_view(a: Args, p: Platform) -> Seq<Seq<char>> {
    (if a.caffeinate { caffeinate_view(p) } else { seq![] })
    + (if a.shell { seq!["sh"@, "-c"@] } else { seq![] })
    + texts(a.command@)
}

/// Decides what is actually run. With a tmux window name the result runs
/// this program, `exe`, in a new tmux window with every option forwarded,
/// and every option of the result is at its default; otherwise the command
/// gets the `sh -c` and sleep-preventing prefixes that were asked for and
/// the options stay as they are.
pub fn make_command_to_run(args: Args, exe: String, platform: Platform) -> (r: Args)
    requires
        args.tmux_window_name is Some && args.command_timeout is Some ==> args.signal is Some,
    ensures
        args.tmux_window_name is Some ==> {
            &&& has_default_options(r)
            &&& texts(r.command@) == tmux_command_view(args, exe@)
        },
        args.tmux_window_name is None ==> {
            &&& same_options(r, args)
            &&& texts(r.command@) == wrapped_command_view(args, platform)
        },
{
    if args.tmux_window_name.is_some() {
        let command = make_tmux_command(args, exe);
        Args { command, ..Args::default() }
    } else {
        let ghost a = args;
        let mut command = Vec::new();
        if args.caffeinate {
            append_all(&mut command, caffeinate_command(platform));
        }
        if args.shell {
            push_str(&mut command, "sh");
            push_str(&mut command, "-c");
        }
        append_all(&mut command, args.command);
        assert(texts(command@) =~= wrapped_command_view(a, platform));
        Args { command, ..args }
    }
}

} // verus!
