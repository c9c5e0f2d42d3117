//! One whole run of `wrap-command`, in the order the README gives: tmux
//! delegation, the lock, the network check, the command with its retries,
//! the notification, the final wait and the exit.
use vstd::prelude::*;
use crate::args::{Args, Platform, Shell, has_default_options, same_options};
use crate::command::{make_command_to_run, tmux_command_view, wrapped_command_view};
use crate::text::texts;
use crate::duration::Duration;
use crate::lock::{LockRequest, lock_request};
use crate::notify::{network_check_limit, network_failure, network_failed_message};
use crate::duration::NANOS_PER_SEC;

verus! {

/// What the application does next.
#[derive(Debug)]
pub enum SessionAction {
    /// Print shell completion code for this shell.
    EmitCompletion(Shell),
    /// Take this lock, and hold it until the process exits.
    AcquireLock(LockRequest),
    /// Check that `url` can be reached, within `limit` if there is one.
    CheckNetwork { url: String, limit: Option<Duration> },
    /// The network is not reachable yet: sleep this long, then report the
    /// time elapsed since the first network check began.
    PauseNetwork(Duration),
    /// Run the command once (see `ChildRun`).
    RunAttempt,
    /// Sleep this long before the next attempt.
    PauseFor(Duration),
    /// Wait for the user to press Enter before the next attempt.
    PauseForEnter,
    /// Print this error message.
    ReportError(String),
    /// Ping this URL (see `PingRetry`).
    Ping(String),
    /// Ask the user to press Enter and wait for it.
    PromptEnter,
    /// Exit with this code.
    Exit(i32),
}

/// Where a run stands.
#[derive(Debug, Clone, Copy, PartialEq, Eq, Structural)]
pub enum SessionPhase {
    Completing,
    Locking,
    CheckingNetwork,
    WaitingForNetwork,
    Running,
    Pausing,
    Reporting,
    Notifying,
    Prompting,
    Done,
}

/// One run of `wrap-command`.
#[derive(Debug)]
pub struct Session {
    /// The settings of the command that is run (after tmux delegation and
    /// the command prefixes).
    pub args: Args,
    pub phase: SessionPhase,
    /// Whether the lock is held.
    pub locked: bool,
    /// Whether the network was found reachable.
    pub network_ok: bool,
    /// The error of the last failed network check.
    pub network_error: String,
    /// Attempts to run the command started so far.
    pub attempts: u64,
    /// The exit code, once the command has finished.
    pub exit_code: i32,
    /// Whether the network check failed (then no URL is notified).
    pub network_failed: bool,
}

/// The pause between two checks of an unreachable network: one second.
pub open spec fn network_poll_interval() -> nat {
    NANOS_PER_SEC as nat
}

/// The exit code for the result of the last attempt: its own exit code, or
/// 1 when it failed with an error.
pub open spec fn exit_code_of(r: Result<i32, String>) -> i32 {
    match r {
        Ok(c) => c,
        Err(_) => 1,
    }
}

/// The URL notified for an exit code: the success URL for 0, the failure
/// URL otherwise.
pub open spec fn notify_target(a: Args, code: i32) -> Option<String> {
    if code == 0 { a.success_url } else { a.failure_url }
}

/// Whether an attempt with this result is run again: it did not exit with 0
/// and fewer than `retries` retries were made.
pub open spec fn retry_owed(a: Args, attempts: u64, r: Result<i32, String>) -> bool {
    r != Ok::<i32, String>(0) && attempts <= a.retries
}

impl Session {
    /// The laws that hold in every state of a run.
    pub open spec fn wf(&self) -> bool {
        &&& self.args.output_shell_completion is None ==> self.args.command@.len() > 0
        &&& self.args.output_shell_completion is Some
            ==> (self.phase == SessionPhase::Completing || self.phase == SessionPhase::Done)
        &&& self.phase == SessionPhase::Completing ==> self.args.output_shell_completion is Some
        &&& self.args.command_timeout is Some ==> self.args.signal is Some
        &&& self.attempts <= self.args.retries as nat + 1
        &&& self.network_ok ==> self.args.network_check_timeout is Some
        &&& self.locked ==> self.args.lockfile is Some
        &&& self.phase == SessionPhase::Locking ==> {
            &&& self.args.lockfile is Some && !self.locked
            &&& !self.network_ok && self.attempts == 0
        }
        &&& (self.phase == SessionPhase::CheckingNetwork || self.phase == SessionPhase::WaitingForNetwork) ==> {
            &&& self.args.network_check_timeout is Some
            &&& self.args.lockfile is Some ==> self.locked
            &&& !self.network_ok && self.attempts == 0
        }
        &&& (self.phase == SessionPhase::Running || self.phase == SessionPhase::Pausing) ==> {
            &&& self.args.lockfile is Some ==> self.locked
            &&& self.args.network_check_timeout is Some ==> self.network_ok
            &&& self.attempts >= 1
        }
        &&& self.phase == SessionPhase::Pausing ==> self.attempts <= self.args.retries
        &&& self.network_failed ==> {
            &&& !self.network_ok && self.attempts == 0 && self.exit_code == 1
            &&& self.phase == SessionPhase::Reporting || self.phase == SessionPhase::Prompting
                || self.phase == SessionPhase::Done
        }
    }

    /// `self` goes on from `old` with the same settings and lock.
    pub open spec fn continues(&self, old: &Session) -> bool {
        &&& self.args == old.args
        &&& self.locked == old.locked
        &&& self.network_failed == old.network_failed
    }

    /// The next attempt of the command has been started.
    pub open spec fn starts_attempt(&self, old: &Session, a: SessionAction) -> bool {
        &&& self.phase == SessionPhase::Running
        &&& self.attempts == old.attempts + 1
        &&& a is RunAttempt
    }

    /// The network check has been started if one is asked for, otherwise
    /// the first attempt.
    pub open spec fn checks_network_then_runs(&self, old: &Session, a: SessionAction) -> bool {
        self.checks_network_then_runs_after(old.attempts, a)
    }

    /// As `checks_network_then_runs`, from the given number of attempts.
    pub open spec fn checks_network_then_runs_after(&self, attempts: u64, a: SessionAction) -> bool {
        &&& !self.network_ok
        &&& match self.args.network_check_timeout {
            Some(t) => {
                &&& self.phase == SessionPhase::CheckingNetwork
                &&& self.attempts == attempts
                &&& self.checks_network(a, 0)
            },
            None => {
                &&& self.phase == SessionPhase::Running
                &&& self.attempts == attempts + 1
                &&& a is RunAttempt
            },
        }
    }

    /// `a` checks the network URL, `elapsed` nanoseconds after the first
    /// check began: within what is left of the timeout, or without a limit
    /// for a zero timeout.
    pub open spec fn checks_network(&self, a: SessionAction, elapsed: nat) -> bool {
        let t = self.args.network_check_timeout->0;
        a matches SessionAction::CheckNetwork { url, limit } && url == self.args.network_check_url
            && if t.view() == 0 {
                limit is None
            } else {
                limit matches Some(l) && l.view() == t.view() - elapsed
            }
    }

    /// `a` pauses between two network checks, `elapsed` nanoseconds after
    /// the first check began: for the poll interval, but not past the
    /// timeout.
    pub open spec fn pauses_for_network(&self, a: SessionAction, elapsed: nat) -> bool {
        let t = self.args.network_check_timeout->0;
        a matches SessionAction::PauseNetwork(p)
            && p.view() == if t.view() != 0 && t.view() - elapsed < network_poll_interval() {
                (t.view() - elapsed) as nat
            } else {
                network_poll_interval()
            }
    }

    /// Whether the network check has run out of time `elapsed` nanoseconds
    /// after it began: never for a zero timeout.
    pub open spec fn network_timed_out(&self, elapsed: nat) -> bool {
        let t = self.args.network_check_timeout->0;
        t.view() != 0 && elapsed >= t.view()
    }

    /// The run gives up on the network with the error `err`: the error is
    /// reported, no URL is notified, and the command does not run.
    pub open spec fn gives_up_on_network(&self, err: Seq<char>, a: SessionAction) -> bool {
        &&& self.network_failed
        &&& self.exit_code == 1
        &&& self.attempts == 0
        &&& self.phase == SessionPhase::Reporting
        &&& a matches SessionAction::ReportError(m)
            && m@ == "Error: "@ + network_failed_message(self.args.network_check_url@, err)
    }

    /// The user is asked to press Enter with `--wait`; otherwise the run
    /// exits with its exit code.
    pub open spec fn prompts_or_exits(&self, a: SessionAction) -> bool {
        if self.args.wait {
            self.phase == SessionPhase::Prompting && a is PromptEnter
        } else {
            self.phase == SessionPhase::Done && a == SessionAction::Exit(self.exit_code)
        }
    }

    /// The URL for the exit code is pinged, if it is set.
    pub open spec fn notifies(&self, a: SessionAction) -> bool {
        match notify_target(self.args, self.exit_code) {
            Some(u) => self.phase == SessionPhase::Notifying && a == SessionAction::Ping(u),
            None => self.prompts_or_exits(a),
        }
    }

    /// What follows an attempt that ended with `r`: while a retry is owed,
    /// the pause asked for (`--retry_wait` before `--retry_delay`) or at
    /// once the next attempt; otherwise `r` finishes the command part.
    pub open spec fn follows_attempt(&self, old: &Session, r: Result<i32, String>, a: SessionAction) -> bool {
        &&& retry_owed(old.args, old.attempts, r) ==> {
            if old.args.retry_wait {
                self.phase == SessionPhase::Pausing && a is PauseForEnter
                    && self.attempts == old.attempts
            } else {
                match old.args.retry_delay {
                    Some(d) => self.phase == SessionPhase::Pausing
                        && a == SessionAction::PauseFor(d)
                        && self.attempts == old.attempts,
                    None => self.starts_attempt(old, a),
                }
            }
        }
        &&& !retry_owed(old.args, old.attempts, r) ==> self.finishes_with(old, r, a)
    }

    /// The command part of the run is over with `r`: the exit code is fixed,
    /// an error is reported, then the notification follows.
    pub open spec fn finishes_with(&self, old: &Session, r: Result<i32, String>, a: SessionAction) -> bool {
        &&& self.exit_code == exit_code_of(r)
        &&& self.attempts == old.attempts
        &&& self.network_ok == old.network_ok
        &&& match r {
            Err(e) => {
                &&& self.phase == SessionPhase::Reporting
                &&& a matches SessionAction::ReportError(m) && m@ == "Error: "@ + e@
            },
            Ok(_) => self.notifies(a),
        }
    }
}

impl Session {
    fn start_attempt(&mut self) -> (a: SessionAction)
        requires
            old(self).attempts <= old(self).args.retries,
        ensures
            final(self).continues(old(self)),
            final(self).starts_attempt(old(self), a),
            final(self).exit_code == old(self).exit_code,
            final(self).network_ok == old(self).network_ok,
    {
        self.attempts = self.attempts + 1;
        self.phase = SessionPhase::Running;
        SessionAction::RunAttempt
    }

    fn check_network_then_run(&mut self) -> (a: SessionAction)
        requires
            old(self).attempts == 0,
            !old(self).network_ok,
        ensures
            final(self).continues(old(self)),
            final(self).checks_network_then_runs(old(self), a),
            final(self).exit_code == old(self).exit_code,
    {
        match &self.args.network_check_timeout {
            Some(t) => {
                self.phase = SessionPhase::CheckingNetwork;
                SessionAction::CheckNetwork {
                    url: self.args.network_check_url.clone(),
                    limit: network_check_limit(t),
                }
            },
            None => self.start_attempt(),
        }
    }

    fn prompt_or_exit(&mut self) -> (a: SessionAction)
        ensures
            final(self).continues(old(self)),
            final(self).prompts_or_exits(a),
            final(self).exit_code == old(self).exit_code,
            final(self).attempts == old(self).attempts,
            final(self).network_ok == old(self).network_ok,
    {
        if self.args.wait {
            self.phase = SessionPhase::Prompting;
            SessionAction::PromptEnter
        } else {
            self.phase = SessionPhase::Done;
            SessionAction::Exit(self.exit_code)
        }
    }

    fn notify(&mut self) -> (a: SessionAction)
        ensures
            final(self).continues(old(self)),
            final(self).notifies(a),
            final(self).exit_code == old(self).exit_code,
            final(self).attempts == old(self).attempts,
            final(self).network_ok == old(self).network_ok,
    {
        let target = if self.exit_code == 0 {
            self.args.success_url.clone()
        } else {
            self.args.failure_url.clone()
        };
        match target {
            Some(u) => {
                self.phase = SessionPhase::Notifying;
                SessionAction::Ping(u)
            },
            None => self.prompt_or_exit(),
        }
    }

    fn finish(&mut self, r: Result<i32, String>) -> (a: SessionAction)
        ensures
            final(self).continues(old(self)),
            final(self).finishes_with(old(self), r, a),
    {
        match r {
            Ok(c) => {
                self.exit_code = c;
                self.notify()
            },
            Err(e) => {
                self.exit_code = 1;
                self.phase = SessionPhase::Reporting;
                let mut m = String::from_str("Error: ");
                m.append(e.as_str());
                SessionAction::ReportError(m)
            },
        }
    }
}

impl Session {
    /// Starts a run of `wrap-command` with `args`; `exe` is the path of this
    /// program and `platform` the system it runs on. With
    /// `--output_shell_completion` only the completion code is printed.
    /// Otherwise the command is prepared as `make_command_to_run` says, the
    /// lock is taken first if one is asked for, then the network is checked
    /// if asked for, then the command runs.
    pub fn start(args: Args, exe: String, platform: Platform) -> (res: (Session, SessionAction))
        requires
            args.output_shell_completion is None ==> args.command@.len() > 0,
            args.command_timeout is Some ==> args.signal is Some,
        ensures
            res.0.wf(),
            !res.0.locked,
            !res.0.network_failed,
            match args.output_shell_completion {
                Some(sh) => {
                    &&& res.0.phase == SessionPhase::Completing
                    &&& res.0.args == args
                    &&& res.1 == SessionAction::EmitCompletion(sh)
                },
                None => {
                    &&& args.tmux_window_name is Some ==> {
                        &&& has_default_options(res.0.args)
                        &&& texts(res.0.args.command@) == tmux_command_view(args, exe@)
                    }
                    &&& args.tmux_window_name is None ==> {
                        &&& same_options(res.0.args, args)
                        &&& texts(res.0.args.command@) == wrapped_command_view(args, platform)
                    }
                    &&& match res.0.args.lockfile {
                        Some(p) => {
                            &&& res.0.phase == SessionPhase::Locking
                            &&& res.1 matches SessionAction::AcquireLock(req) && req.path == p
                                && req.timeout.view() == match res.0.args.lock_timeout {
                                    Some(t) => t.view(),
                                    None => 0,
                                }
                        },
                        None => res.0.checks_network_then_runs_after(0, res.1),
                    }
                },
            },
    {
        match args.output_shell_completion {
            Some(sh) => {
                let s = Session {
                    args,
                    phase: SessionPhase::Completing,
                    locked: false,
                    network_ok: false,
                    network_error: String::new(),
                    attempts: 0,
                    exit_code: 0,
                    network_failed: false,
                };
                (s, SessionAction::EmitCompletion(sh))
            },
            None => {
                let ghost a = args;
                let prepared = make_command_to_run(args, exe, platform);
                proof {
                    if a.tmux_window_name is None {
                        assert(prepared.command@.len() >= a.command@.len());
                    } else {
                        assert(texts(prepared.command@).len() > 0);
                    }
                }
                let request = lock_request(&prepared);
                let mut s = Session {
                    args: prepared,
                    phase: SessionPhase::Locking,
                    locked: false,
                    network_ok: false,
                    network_error: String::new(),
                    attempts: 0,
                    exit_code: 0,
                    network_failed: false,
                };
                match request {
                    Some(req) => (s, SessionAction::AcquireLock(req)),
                    None => {
                        let act = s.check_network_then_run();
                        (s, act)
                    },
                }
            },
        }
    }

    /// The completion code has been printed: exit with 0.
    pub fn completion_done(&mut self) -> (a: SessionAction)
        requires
            old(self).wf(),
            old(self).phase == SessionPhase::Completing,
        ensures
            final(self).wf(),
            final(self).continues(old(self)),
            final(self).phase == SessionPhase::Done,
            final(self).exit_code == 0,
            a == SessionAction::Exit(0),
    {
        self.exit_code = 0;
        self.phase = SessionPhase::Done;
        SessionAction::Exit(0)
    }

    /// The lock was taken, or could not be: then the run fails with that
    /// error, and neither the network check nor the command happens.
    pub fn lock_done(&mut self, result: Result<(), String>) -> (a: SessionAction)
        requires
            old(self).wf(),
            old(self).phase == SessionPhase::Locking,
        ensures
            final(self).wf(),
            final(self).args == old(self).args,
            match result {
                Ok(_) => final(self).locked && final(self).checks_network_then_runs(old(self), a),
                Err(e) => !final(self).locked && final(self).finishes_with(old(self), Err(e), a),
            },
    {
        match result {
            Ok(()) => {
                self.locked = true;
                self.check_network_then_run()
            },
            Err(e) => self.finish(Err(e)),
        }
    }

    /// A network check succeeded, or failed `elapsed` after the first check
    /// began. After a success the command runs. After a failure the network
    /// is checked again after a pause, until the timeout has passed (never
    /// for a zero timeout); then the run fails with the network error, the
    /// command does not run, and no URL is notified since the network is
    /// unavailable.
    pub fn network_done(&mut self, result: Result<(), String>, elapsed: &Duration) -> (a: SessionAction)
        requires
            old(self).wf(),
            old(self).phase == SessionPhase::CheckingNetwork,
        ensures
            final(self).wf(),
            final(self).args == old(self).args,
            final(self).locked == old(self).locked,
            match result {
                Ok(_) => {
                    &&& final(self).network_ok
                    &&& !final(self).network_failed
                    &&& final(self).starts_attempt(old(self), a)
                },
                Err(e) => if old(self).network_timed_out(elapsed.view()) {
                    final(self).gives_up_on_network(e@, a)
                } else {
                    &&& !final(self).network_failed
                    &&& final(self).phase == SessionPhase::WaitingForNetwork
                    &&& final(self).network_error == e
                    &&& final(self).attempts == 0
                    &&& final(self).pauses_for_network(a, elapsed.view())
                },
            },
    {
        match result {
            Ok(()) => {
                self.network_ok = true;
                self.start_attempt()
            },
            Err(e) => {
                let t = match &self.args.network_check_timeout {
                    Some(t) => *t,
                    None => Duration::zero(),
                };
                if !t.is_zero() && elapsed.at_least(&t) {
                    let msg = network_failure(self.args.network_check_url.as_str(), e.as_str());
                    let a = self.finish(Err(msg));
                    self.network_failed = true;
                    a
                } else {
                    self.network_error = e;
                    self.phase = SessionPhase::WaitingForNetwork;
                    let interval = Duration::from_secs(1);
                    let pause = if t.is_zero() {
                        interval
                    } else {
                        let left = t.minus(elapsed);
                        if left.at_least(&interval) { interval } else { left }
                    };
                    SessionAction::PauseNetwork(pause)
                }
            },
        }
    }

    /// The pause after a failed network check is over, `elapsed` after the
    /// first check began: the network is checked again within what is left
    /// of the timeout, or, if the timeout has passed, the run fails with the
    /// last network error.
    pub fn network_pause_done(&mut self, elapsed: &Duration) -> (a: SessionAction)
        requires
            old(self).wf(),
            old(self).phase == SessionPhase::WaitingForNetwork,
        ensures
            final(self).wf(),
            final(self).args == old(self).args,
            final(self).locked == old(self).locked,
            if old(self).network_timed_out(elapsed.view()) {
                final(self).gives_up_on_network(old(self).network_error@, a)
            } else {
                &&& !final(self).network_failed
                &&& final(self).phase == SessionPhase::CheckingNetwork
                &&& final(self).network_error == old(self).network_error
                &&& final(self).attempts == 0
                &&& final(self).checks_network(a, elapsed.view())
            },
    {
        let t = match &self.args.network_check_timeout {
            Some(t) => *t,
            None => Duration::zero(),
        };
        if !t.is_zero() && elapsed.at_least(&t) {
            let msg = network_failure(self.args.network_check_url.as_str(), self.network_error.as_str());
            let a = self.finish(Err(msg));
            self.network_failed = true;
            a
        } else {
            self.phase = SessionPhase::CheckingNetwork;
            let limit = if t.is_zero() { None } else { Some(t.minus(elapsed)) };
            SessionAction::CheckNetwork { url: self.args.network_check_url.clone(), limit }
        }
    }

    /// An attempt of the command ended with `r`. An attempt that did not
    /// exit with 0 is run again while retries are left, after
    /// `--retry_wait` or `--retry_delay` if given; otherwise `r` decides the
    /// exit code.
    pub fn attempt_done(&mut self, r: Result<i32, String>) -> (a: SessionAction)
        requires
            old(self).wf(),
            old(self).phase == SessionPhase::Running,
        ensures
            final(self).wf(),
            final(self).continues(old(self)),
            final(self).follows_attempt(old(self), r, a),
    {
        let failed = match &r {
            Ok(c) => *c != 0,
            Err(_) => true,
        };
        if failed && self.attempts <= self.args.retries as u64 {
            if self.args.retry_wait {
                self.phase = SessionPhase::Pausing;
                SessionAction::PauseForEnter
            } else {
                match &self.args.retry_delay {
                    Some(d) => {
                        self.phase = SessionPhase::Pausing;
                        SessionAction::PauseFor(*d)
                    },
                    None => self.start_attempt(),
                }
            }
        } else {
            self.finish(r)
        }
    }

    /// The pause before a retry is over: the command runs again.
    pub fn pause_done(&mut self) -> (a: SessionAction)
        requires
            old(self).wf(),
            old(self).phase == SessionPhase::Pausing,
        ensures
            final(self).wf(),
            final(self).continues(old(self)),
            final(self).starts_attempt(old(self), a),
    {
        self.start_attempt()
    }

    /// The error has been reported: the notification follows, unless the
    /// network check failed.
    pub fn report_done(&mut self) -> (a: SessionAction)
        requires
            old(self).wf(),
            old(self).phase == SessionPhase::Reporting,
        ensures
            final(self).wf(),
            final(self).continues(old(self)),
            final(self).exit_code == old(self).exit_code,
            old(self).network_failed ==> final(self).prompts_or_exits(a),
            !old(self).network_failed ==> final(self).notifies(a),
    {
        if self.network_failed {
            self.prompt_or_exit()
        } else {
            self.notify()
        }
    }

    /// The URL has been pinged: the final wait, or the exit, follows.
    pub fn ping_done(&mut self) -> (a: SessionAction)
        requires
            old(self).wf(),
            old(self).phase == SessionPhase::Notifying,
        ensures
            final(self).wf(),
            final(self).continues(old(self)),
            final(self).exit_code == old(self).exit_code,
            final(self).prompts_or_exits(a),
    {
        self.prompt_or_exit()
    }

    /// The user pressed Enter after the command: exit.
    pub fn prompt_done(&mut self) -> (a: SessionAction)
        requires
            old(self).wf(),
            old(self).phase == SessionPhase::Prompting,
        ensures
            final(self).wf(),
            final(self).continues(old(self)),
            final(self).phase == SessionPhase::Done,
            a == SessionAction::Exit(old(self).exit_code),
    {
        self.phase = SessionPhase::Done;
        SessionAction::Exit(self.exit_code)
    }
}

} // verus!
