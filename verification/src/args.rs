//! The settings of one run of `wrap-command`.
use vstd::prelude::*;
use crate::duration::{Duration, NANOS_PER_SEC};

verus! {

/// The URL probed for network connectivity unless another one is given.
pub const DEFAULT_NETWORK_CHECK_URL: &'static str = "http://clients3.google.com/generate_204";

/// The number of retries when pinging a notification URL unless another one
/// is given.
pub const DEFAULT_URL_RETRY_COUNT: u32 = 5;

/// The shells for which completion code can be produced.
#[derive(Clone, Copy, Debug, PartialEq, Eq, Structural)]
pub enum Shell {
    Bash,
    Elvish,
    Fish,
    PowerShell,
    Zsh,
}

/// The operating systems on which the wrapped command may run.
#[derive(Clone, Copy, Debug, PartialEq, Eq, Structural)]
pub enum Platform {
    Linux,
    MacOs,
}

/// Every option of a run, as given on the command line.
#[derive(Clone, Debug)]
pub struct Args {
    /// The directory to run the command in.
    pub directory: Option<String>,
    /// Prepend `sh -c` to the command.
    pub shell: bool,
    /// Run the command in a new tmux window with this name.
    pub tmux_window_name: Option<String>,
    /// Keep the system awake while the command runs.
    pub caffeinate: bool,
    /// Wait this long for network connectivity first (zero: forever).
    pub network_check_timeout: Option<Duration>,
    /// The URL probed for network connectivity.
    pub network_check_url: String,
    /// The path of the lockfile.
    pub lockfile: Option<String>,
    /// How long to wait for the lock.
    pub lock_timeout: Option<Duration>,
    /// How long the command may run.
    pub command_timeout: Option<Duration>,
    /// The signal sent to the command's process group on timeout.
    pub signal: Option<String>,
    /// How long to wait for the command to exit after the signal.
    pub signal_timeout: Duration,
    /// Pinged when the command succeeds.
    pub success_url: Option<String>,
    /// Pinged when the command fails.
    pub failure_url: Option<String>,
    /// Retries when pinging a notification URL.
    pub url_retry_count: u32,
    /// Delay between retries when pinging a notification URL.
    pub url_retry_delay: Duration,
    /// How many times a failed command is run again.
    pub retries: u32,
    /// How long to wait before running a failed command again.
    pub retry_delay: Option<Duration>,
    /// Wait for the user to press Enter before running a failed command again.
    pub retry_wait: bool,
    /// Wait for the user to press Enter after the command has finished.
    pub wait: bool,
    /// Print shell completion code for this shell instead of running anything.
    pub output_shell_completion: Option<Shell>,
    /// The command to run.
    pub command: Vec<String>,
}

/// Every option (all but the command) is at its default.
pub open spec fn has_default_options(a: Args) -> bool {
    &&& a.directory is None
    &&& !a.shell
    &&& a.tmux_window_name is None
    &&& !a.caffeinate
    &&& a.network_check_timeout is None
    &&& a.network_check_url@ == DEFAULT_NETWORK_CHECK_URL@
    &&& a.lockfile is None
    &&& a.lock_timeout is None
    &&& a.command_timeout is None
    &&& a.signal is None
    &&& a.signal_timeout.view() == NANOS_PER_SEC
    &&& a.success_url is None
    &&& a.failure_url is None
    &&& a.url_retry_count == DEFAULT_URL_RETRY_COUNT
    &&& a.url_retry_delay.view() == NANOS_PER_SEC
    &&& a.retries == 0
    &&& a.retry_delay is None
    &&& !a.retry_wait
    &&& !a.wait
    &&& a.output_shell_completion is None
}

/// The settings that `Args::default` gives: every option at its default and
/// an empty command.
pub open spec fn is_default_args(a: Args) -> bool {
    has_default_options(a) && a.command@.len() == 0
}

/// `r` has the same options as `a`; only the commands may differ.
pub open spec fn same_options(r: Args, a: Args) -> bool {
    &&& r.directory == a.directory
    &&& r.shell == a.shell
    &&& r.tmux_window_name == a.tmux_window_name
    &&& r.caffeinate == a.caffeinate
    &&& r.network_check_timeout == a.network_check_timeout
    &&& r.network_check_url == a.network_check_url
    &&& r.lockfile == a.lockfile
    &&& r.lock_timeout == a.lock_timeout
    &&& r.command_timeout == a.command_timeout
    &&& r.signal == a.signal
    &&& r.signal_timeout == a.signal_timeout
    &&& r.success_url == a.success_url
    &&& r.failure_url == a.failure_url
    &&& r.url_retry_count == a.url_retry_count
    &&& r.url_retry_delay == a.url_retry_delay
    &&& r.retries == a.retries
    &&& r.retry_delay == a.retry_delay
    &&& r.retry_wait == a.retry_wait
    &&& r.wait == a.wait
    &&& r.output_shell_completion == a.output_shell_completion
}

impl Default for Args {
    fn default() -> (a: Args)
        ensures
            is_default_args(a),
    {
        Args {
            directory: None,
            shell: false,
            tmux_window_name: None,
            caffeinate: false,
            network_check_timeout: None,
            network_check_url: DEFAULT_NETWORK_CHECK_URL.to_owned(),
            lockfile: None,
            lock_timeout: None,
            command_timeout: None,
            signal: None,
            signal_timeout: Duration::from_secs(1),
            success_url: None,
            failure_url: None,
            url_retry_count: DEFAULT_URL_RETRY_COUNT,
            url_retry_delay: Duration::from_secs(1),
            retries: 0,
            retry_delay: None,
            retry_wait: false,
            wait: false,
            output_shell_completion: None,
            command: Vec::new(),
        }
    }
}

} // verus!
