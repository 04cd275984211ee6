use vstd::prelude::*;

use crate::bindings::opt_str_view;
use crate::daemon::{DaemonRpcError, JobDetailView, JobSummaryView};
use crate::error::{RuntimeError, is_config_err};
use crate::output::{CommandOutput, CommandView, OutputDisposition};
use crate::runtime_config::clone_opt_string;
use crate::text::{concat3, decimal, decimal_string, owned, strings_view};

verus! {

/// What chrono's `DateTime::<Utc>::from_timestamp(secs, 0)` formatted with `pattern` gives:
/// `None` when the seconds are out of chrono's range.
pub uninterp spec fn utc_format(secs: i64, pattern: Seq<char>) -> Option<Seq<char>>;

/// The UTC time `secs` seconds after the epoch, formatted with `pattern`, by chrono.
#[verifier::external_body]
fn format_utc(secs: i64, pattern: &str) -> (r: Option<String>)
    requires
        pattern@ == "%Y-%m-%d %H:%M:%S UTC"@ || pattern@ == "%H:%M:%S"@,
    ensures
        opt_str_view(r) == utc_format(secs, pattern@),
{
    chrono::DateTime::<chrono::Utc>::from_timestamp(secs, 0).map(|v| v.format(pattern).to_string())
}

/// The seconds a unix time stands for, as the signed count chrono takes.
pub open spec fn as_seconds(unix: u64) -> i64 {
    unix as i64
}

/// A unix time as a UTC date and time, or its digits when chrono cannot represent it.
pub fn format_timestamp(unix: u64) -> (r: String)
    ensures
        r@ == match utc_format(as_seconds(unix), "%Y-%m-%d %H:%M:%S UTC"@) {
            Some(t) => t,
            None => decimal(unix as nat),
        },
{
    proof {
        reveal_strlit("%Y-%m-%d %H:%M:%S UTC");
    }
    match format_utc(unix as i64, "%Y-%m-%d %H:%M:%S UTC") {
        Some(t) => t,
        None => decimal_string(unix as u128),
    }
}

/// A unix time as a UTC clock time, or its digits when chrono cannot represent it.
pub fn format_clock(unix: u64) -> (r: String)
    ensures
        r@ == match utc_format(as_seconds(unix), "%H:%M:%S"@) {
            Some(t) => t,
            None => decimal(unix as nat),
        },
{
    proof {
        reveal_strlit("%H:%M:%S");
    }
    match format_utc(unix as i64, "%H:%M:%S") {
        Some(t) => t,
        None => decimal_string(unix as u128),
    }
}

/// What `job ls` shows.
#[derive(Debug, Clone, PartialEq, Eq)]
pub struct JobListView {
    pub state: String,
    pub source: String,
    pub rpc_url: String,
    pub count: usize,
    pub reason: Option<String>,
    pub jobs: Vec<JobSummaryView>,
    pub actions: Vec<String>,
}

/// What `job get` shows.
#[derive(Debug, Clone, PartialEq, Eq)]
pub struct JobGetView {
    pub state: String,
    pub source: String,
    pub rpc_url: String,
    pub lookup: String,
    pub reason: Option<String>,
    pub job: Option<JobDetailView>,
    pub actions: Vec<String>,
}

/// One observation of a watched job.
#[derive(Debug, Clone, PartialEq, Eq)]
pub struct JobWatchFrameView {
    pub sequence: usize,
    pub observed_at_unix: u64,
    pub state: String,
    pub terminal: bool,
    pub signer: String,
    pub signer_session_id: Option<String>,
    pub summary: String,
}

/// What `job watch` shows.
#[derive(Debug, Clone, PartialEq, Eq)]
pub struct JobWatchView {
    pub state: String,
    pub source: String,
    pub rpc_url: String,
    pub job_id: String,
    pub interval_ms: u64,
    pub reason: Option<String>,
    pub frames: Vec<JobWatchFrameView>,
    pub actions: Vec<String>,
}

/// The source line of bridge views.
pub open spec fn bridge_source_text() -> Seq<char> {
    "daemon bridge · durable write plane"@
}

/// How a job command reports a daemon error: its disposition, state and actions.
pub open spec fn job_error_parts(e: DaemonRpcError) -> (OutputDisposition, Seq<char>, Seq<Seq<char>>) {
    match e {
        DaemonRpcError::Unconfigured(_) | DaemonRpcError::Unauthorized(_)
        | DaemonRpcError::MethodUnavailable(_) => (
            OutputDisposition::Unconfigured,
            "unconfigured"@,
            seq![
                "set RADROOTS_RPC_BEARER_TOKEN in .env or your shell"@,
                "start radrootsd with bridge ingress enabled"@,
            ],
        ),
        DaemonRpcError::External(_) => (
            OutputDisposition::ExternalUnavailable,
            "unavailable"@,
            seq!["start radrootsd and verify the rpc url"@],
        ),
        _ => (OutputDisposition::InternalError, "error"@, seq![]),
    }
}

fn error_parts(e: &DaemonRpcError) -> (r: (OutputDisposition, &'static str, Vec<String>))
    ensures
        (r.0, r.1@, strings_view(r.2@)) == job_error_parts(*e),
{
    let mut actions: Vec<String> = Vec::new();
    match e {
        DaemonRpcError::Unconfigured(_) | DaemonRpcError::Unauthorized(_)
        | DaemonRpcError::MethodUnavailable(_) => {
            actions.push(owned("set RADROOTS_RPC_BEARER_TOKEN in .env or your shell"));
            actions.push(owned("start radrootsd with bridge ingress enabled"));
            proof {
                assert(strings_view(actions@) =~= seq![
                    "set RADROOTS_RPC_BEARER_TOKEN in .env or your shell"@,
                    "start radrootsd with bridge ingress enabled"@,
                ]);
            }
            (OutputDisposition::Unconfigured, "unconfigured", actions)
        },
        DaemonRpcError::External(_) => {
            actions.push(owned("start radrootsd and verify the rpc url"));
            proof {
                assert(strings_view(actions@) =~= seq!["start radrootsd and verify the rpc url"@]);
            }
            (OutputDisposition::ExternalUnavailable, "unavailable", actions)
        },
        _ => {
            proof {
                assert(strings_view(actions@) =~= Seq::<Seq<char>>::empty());
            }
            (OutputDisposition::InternalError, "error", actions)
        },
    }
}

/// The `job ls` output for the daemon at `rpc_url` given the job list it returned.
pub fn list(rpc_url: &str, listed: Result<Vec<JobSummaryView>, DaemonRpcError>) -> (r: CommandOutput)
    ensures
        r.view matches CommandView::JobList(v) && v.source@ == bridge_source_text() && v.rpc_url@
            == rpc_url@ && match listed {
            Ok(jobs) => r.disposition == OutputDisposition::Success && v.jobs == jobs && v.count
                == jobs@.len() && v.state@ == (if jobs@.len() == 0 {
                "empty"@
            } else {
                "ready"@
            }) && v.reason is None && v.actions@.len() == 0,
            Err(e) => (r.disposition, v.state@, strings_view(v.actions@)) == job_error_parts(e)
                && v.count == 0 && v.jobs@.len() == 0 && opt_str_view(v.reason) == Some(
                e.reason_view(),
            ),
        },
{
    match listed {
        Ok(jobs) => {
            let count = jobs.len();
            let state = if count == 0 { owned("empty") } else { owned("ready") };
            CommandOutput::success(
                CommandView::JobList(
                    JobListView {
                        state,
                        source: owned(crate::daemon::bridge_source()),
                        rpc_url: owned(rpc_url),
                        count,
                        reason: None,
                        jobs,
                        actions: Vec::new(),
                    },
                ),
            )
        },
        Err(error) => {
            let (disposition, state, actions) = error_parts(&error);
            CommandOutput {
                disposition,
                view: CommandView::JobList(
                    JobListView {
                        state: owned(state),
                        source: owned(crate::daemon::bridge_source()),
                        rpc_url: owned(rpc_url),
                        count: 0,
                        reason: Some(owned(error.reason())),
                        jobs: Vec::new(),
                        actions,
                    },
                ),
            }
        },
    }
}

/// The `job get` output for `job_id` given what the daemon returned for it.
pub fn get(rpc_url: &str, job_id: &str, fetched: Result<Option<JobDetailView>, DaemonRpcError>) -> (r:
    CommandOutput)
    ensures
        r.view matches CommandView::JobGet(v) && v.source@ == bridge_source_text() && v.rpc_url@
            == rpc_url@ && v.lookup@ == job_id@ && match fetched {
            Ok(Some(job)) => r.disposition == OutputDisposition::Success && v.state@ == "ready"@
                && v.job == Some(job) && v.reason is None && v.actions@.len() == 0,
            Ok(None) => r.disposition == OutputDisposition::Success && v.state@ == "missing"@
                && v.job is None && opt_str_view(v.reason) == Some(
                "job `"@ + job_id@ + "` was not found in radrootsd"@,
            ) && strings_view(v.actions@) == seq!["radroots job ls"@],
            Err(e) => (r.disposition, v.state@, strings_view(v.actions@)) == job_error_parts(e)
                && v.job is None && opt_str_view(v.reason) == Some(e.reason_view()),
        },
{
    match fetched {
        Ok(Some(job)) => CommandOutput::success(
            CommandView::JobGet(
                JobGetView {
                    state: owned("ready"),
                    source: owned(crate::daemon::bridge_source()),
                    rpc_url: owned(rpc_url),
                    lookup: owned(job_id),
                    reason: None,
                    job: Some(job),
                    actions: Vec::new(),
                },
            ),
        ),
        Ok(None) => {
            let mut actions: Vec<String> = Vec::new();
            actions.push(owned("radroots job ls"));
            proof {
                assert(strings_view(actions@) =~= seq!["radroots job ls"@]);
            }
            CommandOutput::success(
                CommandView::JobGet(
                    JobGetView {
                        state: owned("missing"),
                        source: owned(crate::daemon::bridge_source()),
                        rpc_url: owned(rpc_url),
                        lookup: owned(job_id),
                        reason: Some(concat3("job `", job_id, "` was not found in radrootsd")),
                        job: None,
                        actions,
                    },
                ),
            )
        },
        Err(error) => {
            let (disposition, state, actions) = error_parts(&error);
            CommandOutput {
                disposition,
                view: CommandView::JobGet(
                    JobGetView {
                        state: owned(state),
                        source: owned(crate::daemon::bridge_source()),
                        rpc_url: owned(rpc_url),
                        lookup: owned(job_id),
                        reason: Some(owned(error.reason())),
                        job: None,
                        actions,
                    },
                ),
            }
        },
    }
}

/// The most frames a watch records: the requested count, which must not be zero, else no limit.
pub fn watch_frame_limit(frames: Option<usize>) -> (r: Result<usize, RuntimeError>)
    ensures
        frames == Some(0usize) ==> is_config_err(r, "--frames must be greater than zero when provided"@),
        frames is Some && frames->0 > 0 ==> r == Ok::<usize, RuntimeError>(frames->0),
        frames is None ==> r == Ok::<usize, RuntimeError>(usize::MAX),
{
    match frames {
        Some(0) => Err(RuntimeError::Config(owned("--frames must be greater than zero when provided"))),
        Some(n) => Ok(n),
        None => Ok(usize::MAX),
    }
}

/// The next step of `job watch`: poll again after the interval with these frames, or finish.
#[derive(Debug, Clone, PartialEq, Eq)]
pub enum JobWatchStep {
    Poll(Vec<JobWatchFrameView>),
    Done(CommandOutput),
}

/// The frame recording one observation of `job`, numbered `sequence`.
pub open spec fn frame_of(job: JobDetailView, sequence: nat) -> (nat, u64, Seq<char>, bool, Seq<char>, Option<Seq<char>>, Seq<char>) {
    (
        sequence,
        match job.completed_at_unix {
            Some(t) => t,
            None => job.requested_at_unix,
        },
        job.state@,
        job.terminal,
        job.signer@,
        opt_str_view(job.signer_session_id),
        job.relay_outcome_summary@,
    )
}

impl JobWatchFrameView {
    pub open spec fn view_of(self) -> (nat, u64, Seq<char>, bool, Seq<char>, Option<Seq<char>>, Seq<char>) {
        (
            self.sequence as nat,
            self.observed_at_unix,
            self.state@,
            self.terminal,
            self.signer@,
            opt_str_view(self.signer_session_id),
            self.summary@,
        )
    }
}

/// The disposition and view a finished watch step reports.
pub open spec fn finished_watch(r: JobWatchStep) -> Option<(OutputDisposition, JobWatchView)> {
    match r {
        JobWatchStep::Done(out) => match out.view {
            CommandView::JobWatch(v) => Some((out.disposition, v)),
            _ => None,
        },
        JobWatchStep::Poll(_) => None,
    }
}

fn watch_view(
    state: String,
    rpc_url: &str,
    job_id: &str,
    interval_ms: u64,
    reason: Option<String>,
    frames: Vec<JobWatchFrameView>,
    actions: Vec<String>,
) -> (r: JobWatchView)
    ensures
        r.state == state,
        r.source@ == bridge_source_text(),
        r.rpc_url@ == rpc_url@,
        r.job_id@ == job_id@,
        r.interval_ms == interval_ms,
        r.reason == reason,
        r.frames == frames,
        r.actions == actions,
{
    JobWatchView {
        state,
        source: owned(crate::daemon::bridge_source()),
        rpc_url: owned(rpc_url),
        job_id: owned(job_id),
        interval_ms,
        reason,
        frames,
        actions,
    }
}

/// One step of `job watch` for `job_id`: a found job adds a frame and finishes when it is
/// terminal or the frame limit is reached; a missing job or an error finishes the watch.
pub fn watch_step(
    rpc_url: &str,
    job_id: &str,
    interval_ms: u64,
    max_frames: usize,
    frames: Vec<JobWatchFrameView>,
    polled: Result<Option<JobDetailView>, DaemonRpcError>,
) -> (r: JobWatchStep)
    requires
        frames@.len() < usize::MAX,
    ensures
        match polled {
            Ok(Some(job)) => {
                let fs = match r {
                    JobWatchStep::Poll(f) => f,
                    JobWatchStep::Done(out) => match out.view {
                        CommandView::JobWatch(v) => v.frames,
                        _ => frames,
                    },
                };
                &&& fs@.len() == frames@.len() + 1
                &&& fs@.take(frames@.len() as int) == frames@
                &&& fs@.last().view_of() == frame_of(job, frames@.len() + 1)
                &&& if job.terminal || frames@.len() + 1 >= max_frames {
                    finished_watch(r) matches Some((d, v)) && d == OutputDisposition::Success
                        && v.state@ == (if job.terminal { job.state@ } else { "watching"@ })
                        && v.reason is None && v.actions@.len() == 0 && v.job_id@ == job_id@
                } else {
                    r is Poll
                }
            },
            Ok(None) => finished_watch(r) matches Some((d, v)) && d == OutputDisposition::Success
                && v.state@ == "missing"@ && v.frames == frames && opt_str_view(v.reason) == Some(
                "job `"@ + job_id@ + "` was not found in radrootsd"@,
            ) && strings_view(v.actions@) == seq!["radroots job ls"@],
            Err(e) => finished_watch(r) matches Some((d, v)) && (d, v.state@, strings_view(
                v.actions@,
            )) == job_error_parts(e) && v.frames == frames && opt_str_view(v.reason) == Some(
                e.reason_view(),
            ),
        },
{
    match polled {
        Ok(Some(job)) => {
            let mut frames = frames;
            let ghost before = frames@;
            let sequence = frames.len() + 1;
            let observed_at_unix = match job.completed_at_unix {
                Some(t) => t,
                None => job.requested_at_unix,
            };
            frames.push(
                JobWatchFrameView {
                    sequence,
                    observed_at_unix,
                    state: job.state.clone(),
                    terminal: job.terminal,
                    signer: job.signer.clone(),
                    signer_session_id: clone_opt_string(&job.signer_session_id),
                    summary: job.relay_outcome_summary.clone(),
                },
            );
            proof {
                assert(frames@.take(before.len() as int) =~= before);
            }
            if job.terminal || frames.len() >= max_frames {
                let state = if job.terminal {
                    job.state
                } else {
                    owned("watching")
                };
                JobWatchStep::Done(
                    CommandOutput::success(
                        CommandView::JobWatch(
                            watch_view(state, rpc_url, job_id, interval_ms, None, frames, Vec::new()),
                        ),
                    ),
                )
            } else {
                JobWatchStep::Poll(frames)
            }
        },
        Ok(None) => {
            let mut actions: Vec<String> = Vec::new();
            actions.push(owned("radroots job ls"));
            proof {
                assert(strings_view(actions@) =~= seq!["radroots job ls"@]);
            }
            let reason = concat3("job `", job_id, "` was not found in radrootsd");
            JobWatchStep::Done(
                CommandOutput::success(
                    CommandView::JobWatch(
                        watch_view(
                            owned("missing"),
                            rpc_url,
                            job_id,
                            interval_ms,
                            Some(reason),
                            frames,
                            actions,
                        ),
                    ),
                ),
            )
        },
        Err(error) => {
            let (disposition, state, actions) = error_parts(&error);
            let reason = owned(error.reason());
            JobWatchStep::Done(
                CommandOutput {
                    disposition,
                    view: CommandView::JobWatch(
                        watch_view(
                            owned(state),
                            rpc_url,
                            job_id,
                            interval_ms,
                            Some(reason),
                            frames,
                            actions,
                        ),
                    ),
                },
            )
        },
    }
}

} // verus!
