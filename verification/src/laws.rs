//! Properties of the library that span several functions or several steps.
use vstd::prelude::*;
use crate::args::{Args, Platform, DEFAULT_NETWORK_CHECK_URL, DEFAULT_URL_RETRY_COUNT, has_default_options};
use crate::duration::NANOS_PER_SEC;
use crate::command::{forwarded_flags, millis_view, timeout_flags, tmux_command_view, wrapped_command_view};
use crate::notify::{PingRetry, ping_next};
use crate::session::{Session, SessionAction, SessionPhase, exit_code_of, notify_target};
use crate::text::{decimal, texts};

verus! {

/// Pinging after `k` failed requests.
pub open spec fn ping_after_failures(p: PingRetry, k: nat) -> PingRetry
    decreases k,
{
    if k == 0 {
        p
    } else {
        ping_next(ping_after_failures(p, (k - 1) as nat), false)
    }
}

/// A URL whose requests all fail is requested exactly `retry_count + 1`
/// times: after `k <= retry_count` failures pinging goes on with `k + 1`
/// requests sent, and the failure of request `retry_count + 1` ends it.
pub proof fn law_ping_tries_retry_count_plus_one(p: PingRetry, k: nat)
    requires
        p.requests == 1,
        !p.finished,
        k <= p.retry_count as nat + 1,
    ensures
        ping_after_failures(p, k).retry_count == p.retry_count,
        k <= p.retry_count ==> {
            &&& !ping_after_failures(p, k).finished
            &&& ping_after_failures(p, k).requests == k + 1
        },
        k == p.retry_count as nat + 1 ==> {
            &&& ping_after_failures(p, k).finished
            &&& ping_after_failures(p, k).requests == p.retry_count as nat + 1
        },
    decreases k,
{
    if k > 0 {
        law_ping_tries_retry_count_plus_one(p, (k - 1) as nat);
    }
}

/// The first answer ends pinging: no request follows a success.
pub proof fn law_ping_stops_at_first_answer(p: PingRetry)
    ensures
        ping_next(p, true).finished,
        ping_next(p, true).requests == p.requests,
{
}

/// Lock, network check and command come in this order: while the network
/// is checked or awaited, and while the command runs or waits for a retry,
/// the lock is held whenever a lockfile was given.
pub proof fn law_lock_held_before_network_and_command(s: Session)
    requires
        s.wf(),
        s.args.lockfile is Some,
        s.phase == SessionPhase::CheckingNetwork || s.phase == SessionPhase::WaitingForNetwork
            || s.phase == SessionPhase::Running || s.phase == SessionPhase::Pausing,
    ensures
        s.locked,
{
}

/// The network is waited for only before the command first runs: while it
/// is checked no attempt has started, and once the command runs (or waits
/// for a retry) a requested network check has succeeded, so retries never
/// check it again.
pub proof fn law_network_checked_before_command(s: Session)
    requires
        s.wf(),
    ensures
        s.phase == SessionPhase::CheckingNetwork || s.phase == SessionPhase::WaitingForNetwork
            ==> s.attempts == 0 && !s.network_ok,
        (s.phase == SessionPhase::Running || s.phase == SessionPhase::Pausing)
            && s.args.network_check_timeout is Some ==> s.network_ok,
{
}

/// When the command part of a run ends with `r` (the last attempt, when no
/// retry is owed, or the lock error), the exit code is that of `r`, and the
/// URL pinged next, directly or after the error report, is the success URL
/// exactly when `r` is an exit with 0, the failure URL otherwise.
pub proof fn law_outcome_decides_exit_and_url(
    old: Session,
    new: Session,
    r: Result<i32, String>,
    a: SessionAction,
)
    requires
        new.finishes_with(&old, r, a),
    ensures
        new.exit_code == exit_code_of(r),
        new.exit_code == 0 <==> r == Ok::<i32, String>(0),
        notify_target(new.args, new.exit_code)
            == if r == Ok::<i32, String>(0) { new.args.success_url } else { new.args.failure_url },
        r is Ok ==> (a is Ping <==> notify_target(new.args, new.exit_code) is Some),
        a matches SessionAction::Ping(u) ==> notify_target(new.args, new.exit_code) == Some(u),
        r matches Ok(c) ==> new.exit_code == c,
        r is Err ==> new.exit_code == 1,
{
}

/// The command runs at most `retries + 1` times.
pub proof fn law_attempts_bounded(s: Session)
    requires
        s.wf(),
    ensures
        s.attempts <= s.args.retries as nat + 1,
{
}

/// With every option at its default, the tmux window runs this program on
/// the bare command: no flag is forwarded.
pub proof fn law_tmux_forwards_nothing_by_default(a: Args, exe: Seq<char>)
    requires
        has_default_options(Args { tmux_window_name: None, ..a }),
        a.tmux_window_name is Some,
    ensures
        forwarded_flags(a) == Seq::<Seq<char>>::empty(),
        tmux_command_view(a, exe) == seq!["tmux"@, "new-window"@, "-d"@, "-n"@, a.tmux_window_name->0@, exe]
            + texts(a.command@),
{
    assert(forwarded_flags(a) =~= Seq::<Seq<char>>::empty());
    assert(tmux_command_view(a, exe) =~= seq!["tmux"@, "new-window"@, "-d"@, "-n"@, a.tmux_window_name->0@, exe]
        + texts(a.command@));
}

/// `wrap-command` exits with 0 exactly when the command ran and exited with
/// 0; an error (lock, network, spawn, timeout, signal) gives 1.
pub proof fn law_exit_code_zero_iff_success(r: Result<i32, String>)
    ensures
        exit_code_of(r) == 0 <==> r == Ok::<i32, String>(0),
        r is Err ==> exit_code_of(r) == 1,
{
}

/// The success URL is the one notified after a run that exited with 0, the
/// failure URL the one notified after any other outcome.
pub proof fn law_notified_url_follows_outcome(a: Args, r: Result<i32, String>)
    ensures
        notify_target(a, exit_code_of(r)) == if r == Ok::<i32, String>(0) { a.success_url } else { a.failure_url },
{
}

/// A failed attempt (an error, or an exit code other than 0) is followed by
/// another one while no more than `retries` retries have been made: the
/// next attempt starts at once, or after the pause asked for, and the run
/// neither reports, notifies nor exits.
pub proof fn law_failed_attempt_is_retried(
    old: Session,
    new: Session,
    r: Result<i32, String>,
    a: SessionAction,
)
    requires
        new.follows_attempt(&old, r, a),
        r != Ok::<i32, String>(0),
        old.attempts <= old.args.retries,
    ensures
        (new.phase == SessionPhase::Running && a is RunAttempt && new.attempts == old.attempts + 1)
            || (new.phase == SessionPhase::Pausing && (a is PauseForEnter || a is PauseFor)
                && new.attempts == old.attempts),
        old.args.retry_wait ==> a is PauseForEnter,
        !old.args.retry_wait && old.args.retry_delay is Some ==> a == SessionAction::PauseFor(old.args.retry_delay->0),
        !old.args.retry_wait && old.args.retry_delay is None ==> a is RunAttempt,
{
}

/// An attempt that exits with 0 is never retried, and neither is a failed
/// attempt once `retries` retries have been made: the exit code is then
/// that of the attempt, its own code or 1 for an error.
pub proof fn law_last_attempt_decides_exit_code(
    old: Session,
    new: Session,
    r: Result<i32, String>,
    a: SessionAction,
)
    requires
        new.follows_attempt(&old, r, a),
        r == Ok::<i32, String>(0) || old.attempts > old.args.retries,
    ensures
        r matches Ok(c) ==> new.exit_code == c,
        r is Err ==> new.exit_code == 1,
        new.attempts == old.attempts,
        !(a is RunAttempt || a is PauseFor || a is PauseForEnter),
{
}

/// One step of a run whose attempts all fail: an attempt ends with the
/// failure `r` and the step that follows it is taken, or a pause before a
/// retry ends and the next attempt starts.
pub open spec fn failing_step(s: Session, t: Session, r: Result<i32, String>, a: SessionAction) -> bool {
    &&& r != Ok::<i32, String>(0)
    &&& t.continues(&s)
    &&& s.phase == SessionPhase::Running ==> t.follows_attempt(&s, r, a)
    &&& s.phase == SessionPhase::Pausing ==> t.starts_attempt(&s, a)
    &&& (s.phase == SessionPhase::Running || s.phase == SessionPhase::Pausing)
}

/// The states `run` go from the first attempt by failing steps.
pub open spec fn failing_run(run: Seq<Session>, results: Seq<Result<i32, String>>, acts: Seq<SessionAction>) -> bool {
    &&& run.len() >= 1
    &&& results.len() == run.len() - 1
    &&& acts.len() == run.len() - 1
    &&& run[0].phase == SessionPhase::Running
    &&& run[0].attempts == 1
    &&& forall|i: int| #![trigger acts[i]] 0 <= i < run.len() - 1 ==> failing_step(run[i], run[i + 1], results[i], acts[i])
}

/// A command that fails on every attempt is run exactly `retries + 1`
/// times: while the run is between attempts no more than that have started,
/// and once the command part is over exactly that many have.
pub proof fn law_failing_command_runs_retries_plus_one(
    run: Seq<Session>,
    results: Seq<Result<i32, String>>,
    acts: Seq<SessionAction>,
)
    requires
        failing_run(run, results, acts),
        run[0].args.retries < u64::MAX,
    ensures
        run.last().phase == SessionPhase::Running || run.last().phase == SessionPhase::Pausing
            ==> run.last().attempts <= run[0].args.retries as nat + 1,
        run.last().phase == SessionPhase::Pausing ==> run.last().attempts <= run[0].args.retries,
        !(run.last().phase == SessionPhase::Running || run.last().phase == SessionPhase::Pausing)
            ==> run.last().attempts == run[0].args.retries as nat + 1,
    decreases run.len(),
{
    let n = run.len();
    if n > 1 {
        let prefix = run.take(n - 1);
        let rs = results.take(n - 2);
        let xs = acts.take(n - 2);
        assert forall|i: int| 0 <= i < prefix.len() - 1 implies failing_step(prefix[i], prefix[i + 1], rs[i], #[trigger] xs[i]) by {
            assert(acts[i] == xs[i]);
        }
        law_failing_command_runs_retries_plus_one(prefix, rs, xs);
        let j = n - 2;
        assert(prefix.last() == run[j]);
        assert(failing_step(run[j], run[j + 1], results[j], acts[j]));
        assert(run[j + 1] == run.last());
        lemma_failing_run_same_args(run, results, acts, j);
    }
}

proof fn lemma_failing_run_same_args(
    run: Seq<Session>,
    results: Seq<Result<i32, String>>,
    acts: Seq<SessionAction>,
    k: int,
)
    requires
        failing_run(run, results, acts),
        0 <= k < run.len(),
    ensures
        run[k].args == run[0].args,
    decreases k,
{
    if k > 0 {
        lemma_failing_run_same_args(run, results, acts, k - 1);
        let j = k - 1;
        assert(failing_step(run[j], run[j + 1], results[j], acts[j]));
        assert(run[j + 1] == run[k]);
        assert(run[k].continues(&run[j]));
    }
}

/// With `--wait` the run never exits before the user has pressed Enter:
/// where it would exit, after the command, after an error report (the
/// network check's too) or after the notification, it asks for Enter.
pub proof fn law_wait_prompts_before_exit(s: Session, a: SessionAction)
    requires
        s.args.wait,
        s.prompts_or_exits(a) || s.notifies(a),
    ensures
        !(a is Exit),
        a is PromptEnter || a is Ping,
        a is PromptEnter ==> s.phase == SessionPhase::Prompting,
        s.prompts_or_exits(a) ==> a is PromptEnter,
{
}

/// Without `--wait` the run exits with its exit code where it would
/// otherwise ask for Enter.
pub proof fn law_no_wait_exits_with_code(s: Session, a: SessionAction)
    requires
        !s.args.wait,
        s.prompts_or_exits(a),
    ensures
        a == SessionAction::Exit(s.exit_code),
        s.phase == SessionPhase::Done,
{
}

/// `s` holds `flag` at position `i`, directly followed by `value`.
pub open spec fn pair_at(s: Seq<Seq<char>>, i: int, flag: Seq<char>, value: Seq<char>) -> bool {
    0 <= i && i + 1 < s.len() && s[i] == flag && s[i + 1] == value
}

/// `s` holds `flag` directly followed by `value` somewhere.
pub open spec fn has_pair(s: Seq<Seq<char>>, flag: Seq<char>, value: Seq<char>) -> bool {
    exists|i: int| #[trigger] pair_at(s, i, flag, value)
}

/// `s` holds the switch `flag` somewhere.
pub open spec fn has_switch(s: Seq<Seq<char>>, flag: Seq<char>) -> bool {
    exists|i: int| 0 <= i < s.len() && #[trigger] s[i] == flag
}

/// A flag pair found in one part of a list of words is found in the whole.
pub broadcast proof fn lemma_pair_in_concat(x: Seq<Seq<char>>, y: Seq<Seq<char>>, flag: Seq<char>, value: Seq<char>)
    requires
        has_pair(x, flag, value) || has_pair(y, flag, value),
    ensures
        #[trigger] has_pair(x + y, flag, value),
{
    if has_pair(x, flag, value) {
        let i = choose|i: int| #[trigger] pair_at(x, i, flag, value);
        assert(pair_at(x + y, i, flag, value));
    } else {
        let i = choose|i: int| #[trigger] pair_at(y, i, flag, value);
        assert(pair_at(x + y, x.len() + i, flag, value));
    }
}

/// A switch found in one part of a list of words is found in the whole.
pub broadcast proof fn lemma_switch_in_concat(x: Seq<Seq<char>>, y: Seq<Seq<char>>, flag: Seq<char>)
    requires
        has_switch(x, flag) || has_switch(y, flag),
    ensures
        #[trigger] has_switch(x + y, flag),
{
    if has_switch(x, flag) {
        let i = choose|i: int| 0 <= i < x.len() && #[trigger] x[i] == flag;
        assert((x + y)[i] == flag);
    } else {
        let i = choose|i: int| 0 <= i < y.len() && #[trigger] y[i] == flag;
        assert((x + y)[x.len() + i] == flag);
    }
}

/// A two-word list is its own flag pair.
pub broadcast proof fn lemma_pair_itself(s: Seq<Seq<char>>, flag: Seq<char>, value: Seq<char>)
    requires
        s.len() == 2,
        s[0] == flag,
        s[1] == value,
    ensures
        #[trigger] has_pair(s, flag, value),
{
    assert(pair_at(s, 0, flag, value));
}

/// A one-word list holds its switch.
pub broadcast proof fn lemma_switch_itself(s: Seq<Seq<char>>, flag: Seq<char>)
    requires
        s.len() == 1,
        s[0] == flag,
    ensures
        #[trigger] has_switch(s, flag),
{
    assert(s[0] == flag);
}

/// The words of the tmux command that come before the wrapped command: the
/// tmux invocation and the options handed to the program in the window.
pub open spec fn tmux_options(a: Args, exe: Seq<char>) -> Seq<Seq<char>> {
    let v = tmux_command_view(a, exe);
    v.take(v.len() - a.command@.len())
}

proof fn lemma_forwards_location(a: Args, head: Seq<Seq<char>>)
    ensures
        a.directory matches Some(d) ==> has_pair(head + forwarded_flags(a), "--directory"@, d@),
        a.lockfile matches Some(l) ==> has_pair(head + forwarded_flags(a), "--lockfile"@, l@),
        a.lock_timeout matches Some(t) ==> has_pair(head + forwarded_flags(a), "--lock_timeout"@, millis_view(t)),
{
    broadcast use lemma_pair_in_concat, lemma_switch_in_concat, lemma_pair_itself, lemma_switch_itself;
}

proof fn lemma_forwards_timeout(a: Args, head: Seq<Seq<char>>)
    ensures
        a.command_timeout matches Some(t) ==> {
            &&& has_pair(head + forwarded_flags(a), "--command_timeout"@, millis_view(t))
            &&& has_pair(head + forwarded_flags(a), "--signal"@, a.signal->0@)
            &&& has_pair(head + forwarded_flags(a), "--signal_timeout"@, millis_view(a.signal_timeout))
        },
{
    broadcast use lemma_pair_in_concat, lemma_switch_in_concat, lemma_pair_itself, lemma_switch_itself;
    if let Some(t) = a.command_timeout {
        let tf = timeout_flags(a.command_timeout, a.signal, a.signal_timeout);
        assert(pair_at(tf, 0, "--command_timeout"@, millis_view(t)));
        assert(pair_at(tf, 2, "--signal"@, a.signal->0@));
        assert(pair_at(tf, 4, "--signal_timeout"@, millis_view(a.signal_timeout)));
    }
}

proof fn lemma_forwards_notify(a: Args, head: Seq<Seq<char>>)
    ensures
        a.shell ==> has_switch(head + forwarded_flags(a), "--shell"@),
        a.success_url matches Some(u) ==> has_pair(head + forwarded_flags(a), "--success_url"@, u@),
        a.failure_url matches Some(u) ==> has_pair(head + forwarded_flags(a), "--failure_url"@, u@),
        a.url_retry_delay.view() != NANOS_PER_SEC
            ==> has_pair(head + forwarded_flags(a), "--url_retry_delay"@, millis_view(a.url_retry_delay)),
        a.url_retry_count != DEFAULT_URL_RETRY_COUNT
            ==> has_pair(head + forwarded_flags(a), "--url_retry_count"@, decimal(a.url_retry_count as nat)),
{
    broadcast use lemma_pair_in_concat, lemma_switch_in_concat, lemma_pair_itself, lemma_switch_itself;
}

proof fn lemma_forwards_behaviour(a: Args, head: Seq<Seq<char>>)
    ensures
        a.caffeinate ==> has_switch(head + forwarded_flags(a), "--caffeinate"@),
        a.wait ==> has_switch(head + forwarded_flags(a), "--wait"@),
        a.retries != 0 ==> has_pair(head + forwarded_flags(a), "--retries"@, decimal(a.retries as nat)),
        a.retry_delay matches Some(d) ==> has_pair(head + forwarded_flags(a), "--retry_delay"@, millis_view(d)),
        a.retry_wait ==> has_switch(head + forwarded_flags(a), "--retry_wait"@),
{
    broadcast use lemma_pair_in_concat, lemma_switch_in_concat, lemma_pair_itself, lemma_switch_itself;
}

proof fn lemma_forwards_network(a: Args, head: Seq<Seq<char>>)
    ensures
        a.network_check_timeout matches Some(t)
            ==> has_pair(head + forwarded_flags(a), "--network_check_timeout"@, millis_view(t)),
        a.network_check_url@ != DEFAULT_NETWORK_CHECK_URL@
            ==> has_pair(head + forwarded_flags(a), "--network_check_url"@, a.network_check_url@),
{
    broadcast use lemma_pair_in_concat, lemma_switch_in_concat, lemma_pair_itself, lemma_switch_itself;
}

/// The program in the tmux window gets back every option that differs from
/// its default, written as the command line takes it, before the command,
/// which comes last and unchanged: the rerun parses back to the same
/// options.
pub proof fn law_tmux_forwards_every_option(a: Args, exe: Seq<char>)
    requires
        a.tmux_window_name is Some,
        a.command_timeout is Some ==> a.signal is Some,
    ensures
        tmux_command_view(a, exe).take(6) == seq!["tmux"@, "new-window"@, "-d"@, "-n"@, a.tmux_window_name->0@, exe],
        tmux_command_view(a, exe).skip(tmux_options(a, exe).len() as int) == texts(a.command@),
        a.directory matches Some(d) ==> has_pair(tmux_options(a, exe), "--directory"@, d@),
        a.lockfile matches Some(l) ==> has_pair(tmux_options(a, exe), "--lockfile"@, l@),
        a.lock_timeout matches Some(t) ==> has_pair(tmux_options(a, exe), "--lock_timeout"@, millis_view(t)),
        a.command_timeout matches Some(t) ==> {
            &&& has_pair(tmux_options(a, exe), "--command_timeout"@, millis_view(t))
            &&& has_pair(tmux_options(a, exe), "--signal"@, a.signal->0@)
            &&& has_pair(tmux_options(a, exe), "--signal_timeout"@, millis_view(a.signal_timeout))
        },
        a.shell ==> has_switch(tmux_options(a, exe), "--shell"@),
        a.success_url matches Some(u) ==> has_pair(tmux_options(a, exe), "--success_url"@, u@),
        a.failure_url matches Some(u) ==> has_pair(tmux_options(a, exe), "--failure_url"@, u@),
        a.url_retry_delay.view() != NANOS_PER_SEC
            ==> has_pair(tmux_options(a, exe), "--url_retry_delay"@, millis_view(a.url_retry_delay)),
        a.url_retry_count != DEFAULT_URL_RETRY_COUNT
            ==> has_pair(tmux_options(a, exe), "--url_retry_count"@, decimal(a.url_retry_count as nat)),
        a.caffeinate ==> has_switch(tmux_options(a, exe), "--caffeinate"@),
        a.wait ==> has_switch(tmux_options(a, exe), "--wait"@),
        a.retries != 0 ==> has_pair(tmux_options(a, exe), "--retries"@, decimal(a.retries as nat)),
        a.retry_delay matches Some(d) ==> has_pair(tmux_options(a, exe), "--retry_delay"@, millis_view(d)),
        a.retry_wait ==> has_switch(tmux_options(a, exe), "--retry_wait"@),
        a.network_check_timeout matches Some(t)
            ==> has_pair(tmux_options(a, exe), "--network_check_timeout"@, millis_view(t)),
        a.network_check_url@ != DEFAULT_NETWORK_CHECK_URL@
            ==> has_pair(tmux_options(a, exe), "--network_check_url"@, a.network_check_url@),
{
    let head = seq!["tmux"@, "new-window"@, "-d"@, "-n"@, a.tmux_window_name->0@, exe];
    let v = tmux_command_view(a, exe);
    assert(tmux_options(a, exe) =~= head + forwarded_flags(a));
    assert(v.take(6) =~= head);
    assert(v.skip(tmux_options(a, exe).len() as int) =~= texts(a.command@));
    lemma_forwards_location(a, head);
    lemma_forwards_timeout(a, head);
    lemma_forwards_notify(a, head);
    lemma_forwards_behaviour(a, head);
    lemma_forwards_network(a, head);
}

/// The command run without tmux: `systemd-inhibit --what=idle` (Linux) or
/// `caffeinate -i` (MacOS) first with `--caffeinate`, whatever the shell
/// setting; then `sh -c` with `--shell`; then the given command, unchanged
/// and last; and nothing else.
pub proof fn law_wrapped_command_layout(a: Args, p: Platform)
    ensures
        ({
            let v = wrapped_command_view(a, p);
            let k: int = if a.caffeinate { 2 } else { 0 };
            &&& v.len() == k + (if a.shell { 2int } else { 0int }) + a.command@.len()
            &&& a.caffeinate && p == Platform::MacOs ==> v[0] == "caffeinate"@ && v[1] == "-i"@
            &&& a.caffeinate && p == Platform::Linux ==> v[0] == "systemd-inhibit"@ && v[1] == "--what=idle"@
            &&& a.shell ==> v[k] == "sh"@ && v[k + 1] == "-c"@
            &&& v.skip(v.len() - a.command@.len()) == texts(a.command@)
        }),
{
    let v = wrapped_command_view(a, p);
    assert(v.skip(v.len() - a.command@.len()) =~= texts(a.command@));
}

} // verus!
