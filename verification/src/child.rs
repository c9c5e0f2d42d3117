//! Running one attempt of the command: spawning it, waiting for it with an
//! optional time limit, and stopping its process group when the limit is hit.
use vstd::prelude::*;
use nix::sys::signal::Signal;
use crate::args::Args;
use crate::duration::{Duration, duration_text, duration_text_view};
use crate::signal::{resolve_signal, resolves_to};

verus! {

/// What the application does next for the running attempt.
#[derive(Debug)]
pub enum ChildAction {
    /// Check that this working directory exists.
    CheckDirectory(String),
    /// Spawn the command in its own process group.
    Spawn,
    /// Wait for the command to exit, without a limit.
    Wait,
    /// Wait at most this long for the command to exit.
    WaitFor(Duration),
    /// Send this signal to the command's process group (and report it).
    SignalGroup(Signal),
    /// Send `SIGKILL` to the command's process group.
    KillGroup,
    /// The attempt is over with this result: the exit code, or an error.
    Finish(Result<i32, String>),
}

/// How a wait for the command ended.
#[derive(Debug)]
pub enum WaitOutcome {
    /// The command exited; its exit code, if it was not ended by a signal.
    Exited(Option<i32>),
    /// The time limit passed first.
    StillRunning,
    /// Waiting failed; the text of the error.
    Failed(String),
}

/// Where an attempt stands.
#[derive(Debug, Clone, Copy, PartialEq, Eq, Structural)]
pub enum ChildPhase {
    CheckingDirectory,
    Spawning,
    Waiting,
    WaitingLimited,
    Signalling,
    Grace,
    Killing,
    Reaping,
    Finished,
}

/// One attempt to run the command.
#[derive(Debug)]
pub struct ChildRun {
    pub phase: ChildPhase,
    pub program: String,
    pub directory: Option<String>,
    pub timeout: Option<Duration>,
    pub signal: Option<String>,
    pub signal_timeout: Duration,
}

/// The error of a command that did not finish within `timeout`.
pub open spec fn timed_out_message(timeout: Duration) -> Seq<char> {
    "Command timed out after "@ + duration_text_view(timeout.view())
}

/// The error of a command that was ended by a signal.
pub open spec fn terminated_message() -> Seq<char> {
    "Command terminated by signal"@
}

/// The error of a command that could not be started.
pub open spec fn spawn_failed_message(program: Seq<char>, err: Seq<char>) -> Seq<char> {
    "Failed to execute '"@ + program + "': "@ + err
}

/// The error of a missing working directory.
pub open spec fn missing_directory_message(dir: Seq<char>) -> Seq<char> {
    "Working directory '"@ + dir + "' does not exist"@
}

/// What follows when the time limit passes: the signal resolved from the
/// `--signal` argument `name` goes to the process group, or, if `name` is
/// refused, the attempt ends with the refusal.
pub open spec fn signal_step(name: Seq<char>, phase: ChildPhase, a: ChildAction) -> bool {
    ||| {
        &&& phase == ChildPhase::Signalling
        &&& a matches ChildAction::SignalGroup(s) && resolves_to(name, Ok(s))
    }
    ||| {
        &&& phase == ChildPhase::Finished
        &&& a matches ChildAction::Finish(Err(e)) && resolves_to(name, Err(e))
    }
}

/// `Finish(Err(msg))` with the given text.
pub open spec fn finishes_with_error(a: ChildAction, msg: Seq<char>) -> bool {
    a matches ChildAction::Finish(Err(e)) && e@ == msg
}

fn timed_out_text(timeout: &Duration) -> (s: String)
    ensures
        s@ == timed_out_message(*timeout),
{
    let mut s = String::from_str("Command timed out after ");
    let d = duration_text(timeout);
    s.append(d.as_str());
    s
}

impl ChildRun {
    /// Starts an attempt to run `args.command` with the time limit and the
    /// signal settings of `args`: first the working directory is checked,
    /// if one is given, otherwise the command is spawned.
    /// The settings agree with the phase: a signal is known whenever there
    /// is a time limit, and the phases after a timeout only occur with one.
    pub open spec fn wf(&self) -> bool {
        &&& self.timeout is Some ==> self.signal is Some
        &&& self.phase == ChildPhase::WaitingLimited ==> self.timeout is Some
        &&& (self.phase == ChildPhase::Signalling || self.phase == ChildPhase::Grace
            || self.phase == ChildPhase::Killing || self.phase == ChildPhase::Reaping)
            ==> self.timeout is Some
        &&& self.phase == ChildPhase::CheckingDirectory ==> self.directory is Some
    }

    /// The settings are those of `other`; only the phase may differ.
    pub open spec fn same_settings(&self, other: &ChildRun) -> bool {
        &&& self.program == other.program
        &&& self.directory == other.directory
        &&& self.timeout == other.timeout
        &&& self.signal == other.signal
        &&& self.signal_timeout == other.signal_timeout
    }

    pub fn new(args: &Args) -> (res: (ChildRun, ChildAction))
        requires
            args.command@.len() > 0,
            args.command_timeout is Some ==> args.signal is Some,
        ensures
            res.0.program == args.command@[0],
            res.0.directory == args.directory,
            res.0.timeout == args.command_timeout,
            res.0.signal == args.signal,
            res.0.signal_timeout == args.signal_timeout,
            res.0.wf(),
            match args.directory {
                Some(dir) => {
                    &&& res.0.phase == ChildPhase::CheckingDirectory
                    &&& res.1 matches ChildAction::CheckDirectory(d) && d == dir
                },
                None => res.0.phase == ChildPhase::Spawning && res.1 is Spawn,
            },
    {
        let run = ChildRun {
            phase: ChildPhase::Spawning,
            program: args.command[0].clone(),
            directory: args.directory.clone(),
            timeout: args.command_timeout,
            signal: args.signal.clone(),
            signal_timeout: args.signal_timeout,
        };
        match &args.directory {
            Some(dir) => (ChildRun { phase: ChildPhase::CheckingDirectory, ..run }, ChildAction::CheckDirectory(dir.clone())),
            None => (run, ChildAction::Spawn),
        }
    }
}

impl ChildRun {
    /// The working directory was checked: the command is spawned if it
    /// exists, otherwise the attempt fails.
    pub fn directory_checked(&mut self, exists: bool) -> (a: ChildAction)
        requires
            old(self).wf(),
            old(self).phase == ChildPhase::CheckingDirectory,
        ensures
            final(self).wf(),
            final(self).same_settings(old(self)),
            exists ==> final(self).phase == ChildPhase::Spawning && a is Spawn,
            !exists ==> {
                &&& final(self).phase == ChildPhase::Finished
                &&& finishes_with_error(a, missing_directory_message(old(self).directory->0@))
            },
    {
        if exists {
            self.phase = ChildPhase::Spawning;
            ChildAction::Spawn
        } else {
            self.phase = ChildPhase::Finished;
            let mut msg = String::from_str("Working directory '");
            match &self.directory {
                Some(d) => msg.append(d.as_str()),
                None => {},
            }
            msg.append("' does not exist");
            ChildAction::Finish(Err(msg))
        }
    }

    /// The command was spawned, or could not be: then the attempt fails.
    /// Once it runs, it is waited for, at most for the time limit if there
    /// is one.
    pub fn spawned(&mut self, result: Result<(), String>) -> (a: ChildAction)
        requires
            old(self).wf(),
            old(self).phase == ChildPhase::Spawning,
        ensures
            final(self).wf(),
            final(self).same_settings(old(self)),
            match result {
                Err(e) => {
                    &&& final(self).phase == ChildPhase::Finished
                    &&& finishes_with_error(a, spawn_failed_message(old(self).program@, e@))
                },
                Ok(_) => match old(self).timeout {
                    Some(t) => final(self).phase == ChildPhase::WaitingLimited
                        && a == ChildAction::WaitFor(t),
                    None => final(self).phase == ChildPhase::Waiting && a is Wait,
                },
            },
    {
        match result {
            Err(e) => {
                self.phase = ChildPhase::Finished;
                let mut msg = String::from_str("Failed to execute '");
                msg.append(self.program.as_str());
                msg.append("': ");
                msg.append(e.as_str());
                ChildAction::Finish(Err(msg))
            },
            Ok(()) => match self.timeout {
                Some(t) => {
                    self.phase = ChildPhase::WaitingLimited;
                    ChildAction::WaitFor(t)
                },
                None => {
                    self.phase = ChildPhase::Waiting;
                    ChildAction::Wait
                },
            },
        }
    }

    /// A wait for the command ended. Before the time limit, an exit gives the
    /// exit code (or the error of a command ended by a signal). When the
    /// limit passes, the configured signal goes to the process group; if the
    /// group is still running after `signal_timeout` it is killed. Either way
    /// an attempt that hit the limit ends with the timeout error.
    pub fn waited(&mut self, outcome: WaitOutcome) -> (a: ChildAction)
        requires
            old(self).wf(),
            old(self).phase == ChildPhase::Waiting || old(self).phase == ChildPhase::WaitingLimited
                || old(self).phase == ChildPhase::Grace || old(self).phase == ChildPhase::Reaping,
            old(self).phase == ChildPhase::Waiting || old(self).phase == ChildPhase::Reaping
                ==> !(outcome is StillRunning),
        ensures
            final(self).wf(),
            final(self).same_settings(old(self)),
            old(self).phase == ChildPhase::Waiting || old(self).phase == ChildPhase::WaitingLimited
                ==> match outcome {
                    WaitOutcome::Exited(Some(c)) => final(self).phase == ChildPhase::Finished
                        && a == ChildAction::Finish(Ok(c)),
                    WaitOutcome::Exited(None) => final(self).phase == ChildPhase::Finished
                        && finishes_with_error(a, terminated_message()),
                    WaitOutcome::Failed(e) => final(self).phase == ChildPhase::Finished
                        && a == ChildAction::Finish(Err(e)),
                    WaitOutcome::StillRunning => signal_step(old(self).signal->0@, final(self).phase, a),
                },
            old(self).phase == ChildPhase::Grace ==> match outcome {
                WaitOutcome::Exited(_) => final(self).phase == ChildPhase::Finished
                    && finishes_with_error(a, timed_out_message(old(self).timeout->0)),
                WaitOutcome::Failed(e) => final(self).phase == ChildPhase::Finished
                    && a == ChildAction::Finish(Err(e)),
                WaitOutcome::StillRunning => final(self).phase == ChildPhase::Killing
                    && a is KillGroup,
            },
            old(self).phase == ChildPhase::Reaping ==> match outcome {
                WaitOutcome::Failed(e) => final(self).phase == ChildPhase::Finished
                    && a == ChildAction::Finish(Err(e)),
                _ => final(self).phase == ChildPhase::Finished
                    && finishes_with_error(a, timed_out_message(old(self).timeout->0)),
            },
    {
        if self.phase == ChildPhase::Waiting || self.phase == ChildPhase::WaitingLimited {
            match outcome {
                WaitOutcome::Exited(Some(c)) => {
                    self.phase = ChildPhase::Finished;
                    ChildAction::Finish(Ok(c))
                },
                WaitOutcome::Exited(None) => {
                    self.phase = ChildPhase::Finished;
                    ChildAction::Finish(Err(String::from_str("Command terminated by signal")))
                },
                WaitOutcome::Failed(e) => {
                    self.phase = ChildPhase::Finished;
                    ChildAction::Finish(Err(e))
                },
                WaitOutcome::StillRunning => {
                    let name = match &self.signal {
                        Some(n) => n.as_str(),
                        None => "",
                    };
                    match resolve_signal(name) {
                        Ok(sig) => {
                            self.phase = ChildPhase::Signalling;
                            ChildAction::SignalGroup(sig)
                        },
                        Err(e) => {
                            self.phase = ChildPhase::Finished;
                            ChildAction::Finish(Err(e))
                        },
                    }
                },
            }
        } else if self.phase == ChildPhase::Grace {
            match outcome {
                WaitOutcome::StillRunning => {
                    self.phase = ChildPhase::Killing;
                    ChildAction::KillGroup
                },
                WaitOutcome::Failed(e) => {
                    self.phase = ChildPhase::Finished;
                    ChildAction::Finish(Err(e))
                },
                WaitOutcome::Exited(_) => {
                    self.phase = ChildPhase::Finished;
                    let t = match &self.timeout {
                        Some(t) => *t,
                        None => Duration::zero(),
                    };
                    ChildAction::Finish(Err(timed_out_text(&t)))
                },
            }
        } else {
            match outcome {
                WaitOutcome::Failed(e) => {
                    self.phase = ChildPhase::Finished;
                    ChildAction::Finish(Err(e))
                },
                _ => {
                    self.phase = ChildPhase::Finished;
                    let t = match &self.timeout {
                        Some(t) => *t,
                        None => Duration::zero(),
                    };
                    ChildAction::Finish(Err(timed_out_text(&t)))
                },
            }
        }
    }

    /// A signal was sent to the process group, or sending it failed (then
    /// the attempt fails with that error). After the configured signal the
    /// group gets `signal_timeout` to exit; after `SIGKILL` it is reaped.
    pub fn signalled(&mut self, result: Result<(), String>) -> (a: ChildAction)
        requires
            old(self).wf(),
            old(self).phase == ChildPhase::Signalling || old(self).phase == ChildPhase::Killing,
        ensures
            final(self).wf(),
            final(self).same_settings(old(self)),
            match result {
                Err(e) => final(self).phase == ChildPhase::Finished && a == ChildAction::Finish(Err(e)),
                Ok(_) => if old(self).phase == ChildPhase::Signalling {
                    final(self).phase == ChildPhase::Grace
                        && a == ChildAction::WaitFor(old(self).signal_timeout)
                } else {
                    final(self).phase == ChildPhase::Reaping && a is Wait
                },
            },
    {
        match result {
            Err(e) => {
                self.phase = ChildPhase::Finished;
                ChildAction::Finish(Err(e))
            },
            Ok(()) => {
                if self.phase == ChildPhase::Signalling {
                    self.phase = ChildPhase::Grace;
                    ChildAction::WaitFor(self.signal_timeout)
                } else {
                    self.phase = ChildPhase::Reaping;
                    ChildAction::Wait
                }
            },
        }
    }
}

} // verus!
