//! Notifications: pinging the success or failure URL with retries, and the
//! network connectivity check that may precede the command.
use vstd::prelude::*;
use crate::duration::Duration;
use crate::text::{decimal, decimal_text};

verus! {

/// What the application does next while pinging a URL.
#[derive(Debug)]
pub enum PingAction {
    /// Send a GET request to the URL now.
    Request,
    /// Sleep this long, then send the request again.
    SleepThenRequest(Duration),
    /// The URL answered: stop.
    Stop,
    /// Every request failed: report this message and stop.
    GiveUp(String),
}

/// Pinging one URL, retrying failed requests.
#[derive(Debug)]
pub struct PingRetry {
    pub url: String,
    pub retry_count: u32,
    pub retry_delay: Duration,
    /// Requests sent so far.
    pub requests: u64,
    /// Whether pinging is over.
    pub finished: bool,
}

/// The message reported when all `retry_count + 1` requests to `url` failed,
/// the last one with `err`.
pub open spec fn ping_failed_message(url: Seq<char>, retry_count: u32, err: Seq<char>) -> Seq<char> {
    "Failed to ping URL "@ + url + " after "@ + decimal(retry_count as nat) + " retries: "@ + err
}

/// The state of pinging after a response: an answer or the failure of the
/// last allowed request ends it; any other failure leads to one more request.
pub open spec fn ping_next(p: PingRetry, answered: bool) -> PingRetry {
    if answered || p.requests == p.retry_count as nat + 1 {
        PingRetry { finished: true, ..p }
    } else {
        PingRetry { requests: (p.requests + 1) as u64, ..p }
    }
}

impl PingRetry {
    /// No more requests are sent than one plus the retries.
    pub open spec fn wf(&self) -> bool {
        1 <= self.requests <= self.retry_count as nat + 1
    }

    /// Starts pinging `url`: the first request is sent at once.
    pub fn new(url: String, retry_count: u32, retry_delay: Duration) -> (res: (PingRetry, PingAction))
        ensures
            res.0.wf(),
            res.0.url == url,
            res.0.retry_count == retry_count,
            res.0.retry_delay == retry_delay,
            res.0.requests == 1,
            !res.0.finished,
            res.1 is Request,
    {
        (PingRetry { url, retry_count, retry_delay, requests: 1, finished: false }, PingAction::Request)
    }

    /// The last request answered (`Ok`) or failed. A failed request is
    /// retried after `retry_delay` until `retry_count` retries have been
    /// made; the request that fails after them ends pinging with a message.
    pub fn on_response(&mut self, result: Result<(), String>) -> (a: PingAction)
        requires
            old(self).wf(),
            !old(self).finished,
        ensures
            final(self).wf(),
            *final(self) == ping_next(*old(self), result is Ok),
            match result {
                Ok(_) => final(self).finished && a is Stop && final(self).requests == old(self).requests,
                Err(e) => if old(self).requests == old(self).retry_count as nat + 1 {
                    &&& final(self).finished
                    &&& final(self).requests == old(self).requests
                    &&& a matches PingAction::GiveUp(m)
                        && m@ == ping_failed_message(old(self).url@, old(self).retry_count, e@)
                } else {
                    &&& !final(self).finished
                    &&& final(self).requests == old(self).requests + 1
                    &&& a == PingAction::SleepThenRequest(old(self).retry_delay)
                },
            },
    {
        match result {
            Ok(()) => {
                self.finished = true;
                PingAction::Stop
            },
            Err(e) => {
                if self.requests > self.retry_count as u64 {
                    self.finished = true;
                    let mut msg = String::from_str("Failed to ping URL ");
                    msg.append(self.url.as_str());
                    msg.append(" after ");
                    let n = decimal_text(self.retry_count as u128);
                    msg.append(n.as_str());
                    msg.append(" retries: ");
                    msg.append(e.as_str());
                    PingAction::GiveUp(msg)
                } else {
                    self.requests = self.requests + 1;
                    PingAction::SleepThenRequest(self.retry_delay)
                }
            },
        }
    }
}

/// The time limit of the network check for `--network_check_timeout`: none
/// for a zero timeout (wait forever), otherwise the timeout itself.
pub fn network_check_limit(timeout: &Duration) -> (limit: Option<Duration>)
    ensures
        timeout.view() == 0 ==> limit is None,
        timeout.view() != 0 ==> limit == Some(*timeout),
{
    if timeout.is_zero() {
        None
    } else {
        Some(*timeout)
    }
}

/// The error of a failed network check.
pub open spec fn network_failed_message(url: Seq<char>, err: Seq<char>) -> Seq<char> {
    "Network check failed for "@ + url + ": "@ + err
}

/// Builds the error of a failed network check of `url`.
pub fn network_failure(url: &str, err: &str) -> (msg: String)
    ensures
        msg@ == network_failed_message(url@, err@),
{
    let mut msg = String::from_str("Network check failed for ");
    msg.append(url);
    msg.append(": ");
    msg.append(err);
    msg
}

} // verus!
