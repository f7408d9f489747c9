//! Decisions of the two-phase run protocol that do not touch the process itself.
use vstd::prelude::*;
use crate::preflight::PreflightResult;
use crate::request::JobMetadata;
use crate::text::{chars_of, push_all, string_of, trim, trim_chars};

verus! {

/// The discovery run needs the download run's input channel when the
/// interactive code is used, so it is skipped then.
pub fn should_run_preflight(job: &JobMetadata) -> (r: bool)
    ensures
        r == !job.qr_enabled,
{
    !job.qr_enabled
}

/// A failed discovery run that found no depot is a soft failure: its result is
/// dropped and the download goes on without it.
pub fn use_preflight_result(exit_success: bool, result: &PreflightResult) -> (r: bool)
    ensures
        r == (exit_success || result.depots@.len() > 0),
{
    exit_success || result.depots.len() > 0
}

/// The archive password: only when enabled and not blank.
pub fn compression_password(job: &JobMetadata) -> (r: Option<String>)
    ensures
        r is Some <==> job.compression_password_enabled && trim(job.compression_password@).len() > 0,
        r matches Some(p) ==> p@ == job.compression_password@,
{
    if !job.compression_password_enabled {
        return None;
    }
    let t = trim_chars(chars_of(job.compression_password.as_str()).as_slice());
    if t.len() == 0 {
        None
    } else {
        Some(job.compression_password.clone())
    }
}

/// What is written to the tool's input for an interactive code: the trimmed
/// code and a line feed; a blank code is refused.
pub fn steam_guard_input(code: &str) -> (r: Result<String, String>)
    ensures
        trim(code@).len() == 0 ==> (r matches Err(e) && e@ == "Steam Guard code is empty"@),
        trim(code@).len() > 0 ==> (r matches Ok(s) && s@ == trim(code@).push('\n')),
{
    let t = trim_chars(chars_of(code).as_slice());
    if t.len() == 0 {
        return Err("Steam Guard code is empty".to_string());
    }
    let mut out: Vec<char> = Vec::new();
    push_all(&mut out, t.as_slice());
    out.push('\n');
    Ok(string_of(&out))
}

/// The states a job reports.
#[derive(Clone, Copy, Debug, PartialEq, Eq, Structural)]
pub enum JobStatus {
    Starting,
    Running,
    Finalizing,
    Compressing,
    Completed,
    Exited,
    Error,
    FinalizationFailed,
}

impl JobStatus {
    /// The word the status feed uses.
    pub fn name(&self) -> (r: &'static str)
        ensures
            r@ == (match *self {
                JobStatus::Starting => "starting"@,
                JobStatus::Running => "running"@,
                JobStatus::Finalizing => "finalizing"@,
                JobStatus::Compressing => "compressing"@,
                JobStatus::Completed => "completed"@,
                JobStatus::Exited => "exited"@,
                JobStatus::Error => "error"@,
                JobStatus::FinalizationFailed => "finalization_failed"@,
            }),
    {
        match self {
            JobStatus::Starting => "starting",
            JobStatus::Running => "running",
            JobStatus::Finalizing => "finalizing",
            JobStatus::Compressing => "compressing",
            JobStatus::Completed => "completed",
            JobStatus::Exited => "exited",
            JobStatus::Error => "error",
            JobStatus::FinalizationFailed => "finalization_failed",
        }
    }
}

/// Whether a child's exit counts as success: exit code 0 only.
pub fn exit_succeeded(code: Option<i32>) -> (r: bool)
    ensures
        r == (code == Some(0i32)),
{
    match code {
        Some(c) => c == 0,
        None => false,
    }
}

} // verus!

verus! {

/// The directory of the bundled tools for an operating system and processor
/// architecture, as Rust names them; `unknown` for other targets.
pub fn get_platform_subdir(os: &str, arch: &str) -> (r: &'static str)
    ensures
        r@ == (if os@ == "windows"@ && arch@ == "x86_64"@ {
            "win-x64"@
        } else if os@ == "windows"@ && arch@ == "aarch64"@ {
            "win-arm64"@
        } else if os@ == "linux"@ && arch@ == "x86_64"@ {
            "linux-x64"@
        } else if os@ == "linux"@ && arch@ == "aarch64"@ {
            "linux-arm64"@
        } else if os@ == "linux"@ && arch@ == "arm"@ {
            "linux-arm"@
        } else if os@ == "macos"@ && arch@ == "x86_64"@ {
            "macos-x64"@
        } else if os@ == "macos"@ && arch@ == "aarch64"@ {
            "macos-arm64"@
        } else {
            "unknown"@
        }),
{
    let eq = |a: &str, b: &str| -> (r: bool)
        ensures
            r == (a@ == b@),
        { crate::text::str_equal(a, b) };
    if eq(os, "windows") && eq(arch, "x86_64") {
        "win-x64"
    } else if eq(os, "windows") && eq(arch, "aarch64") {
        "win-arm64"
    } else if eq(os, "linux") && eq(arch, "x86_64") {
        "linux-x64"
    } else if eq(os, "linux") && eq(arch, "aarch64") {
        "linux-arm64"
    } else if eq(os, "linux") && eq(arch, "arm") {
        "linux-arm"
    } else if eq(os, "macos") && eq(arch, "x86_64") {
        "macos-x64"
    } else if eq(os, "macos") && eq(arch, "aarch64") {
        "macos-arm64"
    } else {
        "unknown"
    }
}

/// Whether Unix permission bits let anyone execute the file.
pub fn is_executable(mode: u32) -> (r: bool)
    ensures
        r == (mode & 73u32 != 0),
{
    mode & 73u32 != 0
}

} // verus!

verus! {

/// Where a job's run stands.
#[derive(Clone, Copy, Debug, PartialEq, Eq, Structural)]
pub enum RunStage {
    CreateStaging,
    Preflight,
    Spawn,
    Running,
    Joining,
    Deriving,
    Finalizing,
    Compressing,
    Done,
}

/// What the outside reports after the last action.
#[derive(Clone, Copy, Debug, PartialEq, Eq, Structural)]
pub enum RunEvent {
    StagingCreated(bool),
    /// The discovery run ended; false when it could not be run at all.
    PreflightFinished(bool),
    Spawned(bool),
    /// The download run exited with this code (none when killed by a signal).
    Exited(Option<i32>),
    /// Both reader threads have drained their streams and ended.
    ReadersJoined,
    MetadataDerived(bool),
    Finalized(bool),
    /// The archiver ran; a failure leaves the uncompressed output.
    Compressed(bool),
    /// The operator cancelled; the child was killed with this exit code.
    Cancelled(Option<i32>),
}

/// What the outside does next.
#[derive(Clone, Copy, Debug, PartialEq, Eq, Structural)]
pub enum RunAction {
    /// Restore cached login files into the discovery directory and run it.
    RunPreflight,
    /// Restore cached login files, then start the download run and its readers.
    Spawn,
    /// Poll the child until it exits.
    WaitExit,
    /// Wait for both reader threads, outside the state lock.
    JoinReaders,
    /// Save the login files, then derive and write the job record.
    PersistAuthAndDerive,
    Finalize,
    Compress,
    /// Report the terminal status, then remove the staging area.
    Finish(JobStatus, Option<i32>),
    /// Save the login files, report the terminal status, remove the staging area.
    PersistAuthAndFinish(JobStatus, Option<i32>),
    Ignore,
}

/// A job's run.
#[derive(Clone, Copy, Debug, PartialEq, Eq, Structural)]
pub struct JobRun {
    pub stage: RunStage,
    pub preflight: bool,
    pub compress: bool,
    pub exit_code: Option<i32>,
}

pub open spec fn run_step_spec(r: JobRun, e: RunEvent) -> (JobRun, RunAction) {
    if r.stage == RunStage::Done {
        (r, RunAction::Ignore)
    } else {
        match e {
            RunEvent::Cancelled(code) => (
                JobRun { stage: RunStage::Done, exit_code: code, ..r },
                RunAction::Finish(JobStatus::Exited, code),
            ),
            _ => match (r.stage, e) {
                (RunStage::CreateStaging, RunEvent::StagingCreated(ok)) => if !ok {
                    (JobRun { stage: RunStage::Done, ..r }, RunAction::Finish(JobStatus::Error, None))
                } else if r.preflight {
                    (JobRun { stage: RunStage::Preflight, ..r }, RunAction::RunPreflight)
                } else {
                    (JobRun { stage: RunStage::Spawn, ..r }, RunAction::Spawn)
                },
                (RunStage::Preflight, RunEvent::PreflightFinished(ok)) => if ok {
                    (JobRun { stage: RunStage::Spawn, ..r }, RunAction::Spawn)
                } else {
                    (JobRun { stage: RunStage::Done, ..r }, RunAction::Finish(JobStatus::Error, None))
                },
                (RunStage::Spawn, RunEvent::Spawned(ok)) => if ok {
                    (JobRun { stage: RunStage::Running, ..r }, RunAction::WaitExit)
                } else {
                    (JobRun { stage: RunStage::Done, ..r }, RunAction::Finish(JobStatus::Error, None))
                },
                (RunStage::Running, RunEvent::Exited(code)) => (
                    JobRun { stage: RunStage::Joining, exit_code: code, ..r },
                    RunAction::JoinReaders,
                ),
                (RunStage::Joining, RunEvent::ReadersJoined) => if r.exit_code == Some(0i32) {
                    (JobRun { stage: RunStage::Deriving, ..r }, RunAction::PersistAuthAndDerive)
                } else {
                    (
                        JobRun { stage: RunStage::Done, ..r },
                        RunAction::PersistAuthAndFinish(JobStatus::Exited, r.exit_code),
                    )
                },
                (RunStage::Deriving, RunEvent::MetadataDerived(ok)) => if ok {
                    (JobRun { stage: RunStage::Finalizing, ..r }, RunAction::Finalize)
                } else {
                    (JobRun { stage: RunStage::Done, ..r }, RunAction::Finish(JobStatus::Error, None))
                },
                (RunStage::Finalizing, RunEvent::Finalized(ok)) => if !ok {
                    (JobRun { stage: RunStage::Done, ..r }, RunAction::Finish(JobStatus::FinalizationFailed, None))
                } else if r.compress {
                    (JobRun { stage: RunStage::Compressing, ..r }, RunAction::Compress)
                } else {
                    (JobRun { stage: RunStage::Done, ..r }, RunAction::Finish(JobStatus::Completed, Some(0i32)))
                },
                (RunStage::Compressing, RunEvent::Compressed(_)) => (
                    JobRun { stage: RunStage::Done, ..r },
                    RunAction::Finish(JobStatus::Completed, Some(0i32)),
                ),
                _ => (r, RunAction::Ignore),
            },
        }
    }
}

pub open spec fn is_finish(a: RunAction) -> bool {
    a is Finish || a is PersistAuthAndFinish
}

impl JobRun {
    /// A run about to create its staging area.
    pub fn new(job: &crate::request::JobMetadata) -> (r: JobRun)
        ensures
            r.stage == RunStage::CreateStaging,
            r.preflight == !job.qr_enabled,
            r.compress == !job.skip_compression,
            r.exit_code is None,
    {
        JobRun {
            stage: RunStage::CreateStaging,
            preflight: should_run_preflight(job),
            compress: !job.skip_compression,
            exit_code: None,
        }
    }

    /// Takes one step of the run.
    ///
    /// The job record is derived only once the child has exited with code 0
    /// and both reader threads have been joined; every path ends with exactly
    /// one terminal report, after which events are ignored.
    pub fn step(&mut self, e: RunEvent) -> (a: RunAction)
        ensures
            (*final(self), a) == run_step_spec(*old(self), e),
            a == RunAction::PersistAuthAndDerive ==> old(self).stage == RunStage::Joining && e
                == RunEvent::ReadersJoined && old(self).exit_code == Some(0i32),
            is_finish(a) <==> (old(self).stage != RunStage::Done && final(self).stage == RunStage::Done),
            old(self).stage == RunStage::Done ==> a == RunAction::Ignore && *final(self) == *old(self),
    {
        let r = *self;
        let (next, action) = if r.stage == RunStage::Done {
            (r, RunAction::Ignore)
        } else {
            match e {
                RunEvent::Cancelled(code) => (
                    JobRun { stage: RunStage::Done, exit_code: code, ..r },
                    RunAction::Finish(JobStatus::Exited, code),
                ),
                _ => match (r.stage, e) {
                    (RunStage::CreateStaging, RunEvent::StagingCreated(ok)) => if !ok {
                        (JobRun { stage: RunStage::Done, ..r }, RunAction::Finish(JobStatus::Error, None))
                    } else if r.preflight {
                        (JobRun { stage: RunStage::Preflight, ..r }, RunAction::RunPreflight)
                    } else {
                        (JobRun { stage: RunStage::Spawn, ..r }, RunAction::Spawn)
                    },
                    (RunStage::Preflight, RunEvent::PreflightFinished(ok)) => if ok {
                        (JobRun { stage: RunStage::Spawn, ..r }, RunAction::Spawn)
                    } else {
                        (JobRun { stage: RunStage::Done, ..r }, RunAction::Finish(JobStatus::Error, None))
                    },
                    (RunStage::Spawn, RunEvent::Spawned(ok)) => if ok {
                        (JobRun { stage: RunStage::Running, ..r }, RunAction::WaitExit)
                    } else {
                        (JobRun { stage: RunStage::Done, ..r }, RunAction::Finish(JobStatus::Error, None))
                    },
                    (RunStage::Running, RunEvent::Exited(code)) => (
                        JobRun { stage: RunStage::Joining, exit_code: code, ..r },
                        RunAction::JoinReaders,
                    ),
                    (RunStage::Joining, RunEvent::ReadersJoined) => if exit_succeeded(r.exit_code) {
                        (JobRun { stage: RunStage::Deriving, ..r }, RunAction::PersistAuthAndDerive)
                    } else {
                        (
                            JobRun { stage: RunStage::Done, ..r },
                            RunAction::PersistAuthAndFinish(JobStatus::Exited, r.exit_code),
                        )
                    },
                    (RunStage::Deriving, RunEvent::MetadataDerived(ok)) => if ok {
                        (JobRun { stage: RunStage::Finalizing, ..r }, RunAction::Finalize)
                    } else {
                        (JobRun { stage: RunStage::Done, ..r }, RunAction::Finish(JobStatus::Error, None))
                    },
                    (RunStage::Finalizing, RunEvent::Finalized(ok)) => if !ok {
                        (JobRun { stage: RunStage::Done, ..r }, RunAction::Finish(JobStatus::FinalizationFailed, None))
                    } else if r.compress {
                        (JobRun { stage: RunStage::Compressing, ..r }, RunAction::Compress)
                    } else {
                        (JobRun { stage: RunStage::Done, ..r }, RunAction::Finish(JobStatus::Completed, Some(0)))
                    },
                    (RunStage::Compressing, RunEvent::Compressed(_)) => (
                        JobRun { stage: RunStage::Done, ..r },
                        RunAction::Finish(JobStatus::Completed, Some(0)),
                    ),
                    _ => (r, RunAction::Ignore),
                },
            }
        };
        *self = next;
        action
    }
}

} // verus!
