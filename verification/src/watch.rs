//! One watch, as a machine that is driven from outside.
//!
//! A watch creates a child process, samples it at a fixed interval, and ends
//! with the child's captured output and exit code. Creating the child,
//! sleeping, polling and joining the capture are work for the operating
//! system. Deciding what is done next, building each sample, and assembling
//! the outcome are done here.
//!
//! The machine always has one `Action` pending. A driver performs it and
//! hands the answer back as an `Event`; the machine moves on and the next
//! action is pending. The whole behaviour is the pair of functions
//! `request` and `next` on the view of the machine.

use crate::metrics::ProcessMetrics;
use crate::structs::{Outcome, PawDone, PawInfo, PawProcess, PawResult, Sample, Snapshot};
use vstd::prelude::*;

verus! {

/// Why a watch ended without an outcome.
#[derive(Clone, Debug, PartialEq, Eq)]
pub enum WatchError {
    /// The child could not be created: the executable is missing or not
    /// executable, or the operating system refused.
    Spawn { reason: String },
    /// Reading the child's standard output failed before its end.
    Capture { reason: String },
    /// Asking the operating system whether the child has ended failed.
    Wait { reason: String },
}

/// The view of a `WatchError`.
pub enum Failure {
    Spawn { reason: Seq<char> },
    Capture { reason: Seq<char> },
    Wait { reason: Seq<char> },
}

impl View for WatchError {
    type V = Failure;

    open spec fn view(&self) -> Failure {
        match self {
            WatchError::Spawn { reason } => Failure::Spawn { reason: reason@ },
            WatchError::Capture { reason } => Failure::Capture { reason: reason@ },
            WatchError::Wait { reason } => Failure::Wait { reason: reason@ },
        }
    }
}

impl Failure {
    /// What the operating system said.
    pub open spec fn reason(self) -> Seq<char> {
        match self {
            Failure::Spawn { reason } => reason,
            Failure::Capture { reason } => reason,
            Failure::Wait { reason } => reason,
        }
    }
}

impl WatchError {
    /// What the operating system said.
    pub fn reason(&self) -> (reason: &str)
        ensures
            reason@ == self@.reason(),
    {
        match self {
            WatchError::Spawn { reason } => reason.as_str(),
            WatchError::Capture { reason } => reason.as_str(),
            WatchError::Wait { reason } => reason.as_str(),
        }
    }

    pub(crate) fn duplicate(&self) -> (copy: WatchError)
        ensures
            copy@ == self@,
    {
        match self {
            WatchError::Spawn { reason } => WatchError::Spawn { reason: reason.clone() },
            WatchError::Capture { reason } => WatchError::Capture { reason: reason.clone() },
            WatchError::Wait { reason } => WatchError::Wait { reason: reason.clone() },
        }
    }
}

/// What the driver is asked to do.
#[derive(Debug, PartialEq, Eq)]
pub enum Action {
    /// Create the child from this command line, with its standard output
    /// piped into a capture that runs on its own until the stream ends, and
    /// start the clock. Answered by `Spawned` or `SpawnFailed`.
    Spawn { process: PawProcess },
    /// Read the clock, then the metrics of this process. Answered by
    /// `Measured`.
    Measure { pid: u32 },
    /// Hand the sample to the observer, sleep for `interval` milliseconds,
    /// then ask once, without blocking, whether the child has ended.
    /// Answered by `Running`, `Exited` or `WaitFailed`.
    Tick { sample: PawResult, interval: u64 },
    /// Wait for the capture to reach the end of the stream and take its
    /// text. Answered by `Captured` or `CaptureFailed`.
    Join,
    /// Nothing is left to do: return this to the caller.
    Finish { result: Result<PawDone, WatchError> },
}

/// The view of an `Action`.
pub enum Request {
    Spawn { process: Snapshot },
    Measure { pid: u32 },
    Tick { sample: Sample, interval: u64 },
    Join,
    Finish { result: Result<Outcome, Failure> },
}

impl View for Action {
    type V = Request;

    open spec fn view(&self) -> Request {
        match self {
            Action::Spawn { process } => Request::Spawn { process: process@ },
            Action::Measure { pid } => Request::Measure { pid: *pid },
            Action::Tick { sample, interval } => Request::Tick {
                sample: sample@,
                interval: *interval,
            },
            Action::Join => Request::Join,
            Action::Finish { result } => Request::Finish {
                result: match result {
                    Ok(done) => Ok(done@),
                    Err(error) => Err(error@),
                },
            },
        }
    }
}

/// What the driver reports back.
#[derive(Clone, Debug, PartialEq, Eq)]
pub enum Event {
    /// The child runs, under this process identifier.
    Spawned { pid: u32 },
    /// The child could not be created.
    SpawnFailed { reason: String },
    /// The clock read `uptime` milliseconds since the watch began, and the
    /// process table gave `metrics`.
    Measured { uptime: u128, metrics: ProcessMetrics },
    /// The child has not ended yet.
    Running,
    /// The child has ended. The exit code is absent when a signal ended it.
    Exited { exit_code: Option<i32> },
    /// The operating system could not say whether the child has ended.
    WaitFailed { reason: String },
    /// The capture reached the end of the stream; this is all of its text.
    Captured { stdout: String },
    /// The capture failed before the end of the stream.
    CaptureFailed { reason: String },
}

/// The view of an `Event`.
pub enum Reply {
    Spawned { pid: u32 },
    SpawnFailed { reason: Seq<char> },
    Measured { uptime: u128, metrics: ProcessMetrics },
    Running,
    Exited { exit_code: Option<i32> },
    WaitFailed { reason: Seq<char> },
    Captured { stdout: Seq<char> },
    CaptureFailed { reason: Seq<char> },
}

impl Event {
    pub(crate) fn duplicate(&self) -> (copy: Event)
        ensures
            copy@ == self@,
    {
        match self {
            Event::Spawned { pid } => Event::Spawned { pid: *pid },
            Event::SpawnFailed { reason } => Event::SpawnFailed { reason: reason.clone() },
            Event::Measured { uptime, metrics } => Event::Measured {
                uptime: *uptime,
                metrics: *metrics,
            },
            Event::Running => Event::Running,
            Event::Exited { exit_code } => Event::Exited { exit_code: *exit_code },
            Event::WaitFailed { reason } => Event::WaitFailed { reason: reason.clone() },
            Event::Captured { stdout } => Event::Captured { stdout: stdout.clone() },
            Event::CaptureFailed { reason } => Event::CaptureFailed { reason: reason.clone() },
        }
    }
}

impl View for Event {
    type V = Reply;

    open spec fn view(&self) -> Reply {
        match self {
            Event::Spawned { pid } => Reply::Spawned { pid: *pid },
            Event::SpawnFailed { reason } => Reply::SpawnFailed { reason: reason@ },
            Event::Measured { uptime, metrics } => Reply::Measured {
                uptime: *uptime,
                metrics: *metrics,
            },
            Event::Running => Reply::Running,
            Event::Exited { exit_code } => Reply::Exited { exit_code: *exit_code },
            Event::WaitFailed { reason } => Reply::WaitFailed { reason: reason@ },
            Event::Captured { stdout } => Reply::Captured { stdout: stdout@ },
            Event::CaptureFailed { reason } => Reply::CaptureFailed { reason: reason@ },
        }
    }
}

/// Where a watch stands.
pub enum Phase {
    /// The child is to be created.
    Spawning,
    /// The child runs and is to be measured.
    Measuring { pid: u32 },
    /// A sample is out for the observer; after the sleep the child is polled.
    Ticking { pid: u32, info: PawInfo },
    /// The child has ended; its output is to be collected.
    Joining { exit_code: Option<i32> },
    /// The watch ran to completion.
    Done { outcome: Outcome },
    /// The watch failed. It is abandoned: nothing leads out of this phase.
    Failed { failure: Failure },
}

/// The view of a `Watch`.
pub struct WatchState {
    /// The command line that is watched.
    pub process: Snapshot,
    /// The sampling interval, in milliseconds.
    pub interval: u64,
    pub phase: Phase,
    /// The uptime of the last sample that was built, 0 before the first.
    pub last_uptime: u128,
}

/// The uptime that a sample shows for a clock reading: the reading itself,
/// unless it lies before the last sample's uptime, which is then repeated.
/// Observers never see time run backwards.
pub open spec fn shown_uptime(last: u128, reading: u128) -> u128 {
    if reading < last {
        last
    } else {
        reading
    }
}

/// The sample built from one measurement.
pub open spec fn measured(last: u128, reading: u128, metrics: ProcessMetrics) -> PawInfo {
    PawInfo {
        uptime: shown_uptime(last, reading),
        memory_usage: metrics.memory,
        cpu_usage: metrics.cpu,
    }
}

/// The action that is pending in a state.
pub open spec fn request(state: WatchState) -> Request {
    match state.phase {
        Phase::Spawning => Request::Spawn { process: state.process },
        Phase::Measuring { pid } => Request::Measure { pid },
        Phase::Ticking { pid, info } => Request::Tick {
            sample: Sample { info, process: state.process },
            interval: state.interval,
        },
        Phase::Joining { exit_code } => Request::Join,
        Phase::Done { outcome } => Request::Finish { result: Ok(outcome) },
        Phase::Failed { failure } => Request::Finish { result: Err(failure) },
    }
}

/// Whether a reply answers the action that is pending in a state.
pub open spec fn accepts(state: WatchState, reply: Reply) -> bool {
    match state.phase {
        Phase::Spawning => reply is Spawned || reply is SpawnFailed,
        Phase::Measuring { .. } => reply is Measured,
        Phase::Ticking { .. } => reply is Running || reply is Exited || reply is WaitFailed,
        Phase::Joining { .. } => reply is Captured || reply is CaptureFailed,
        Phase::Done { .. } => false,
        Phase::Failed { .. } => false,
    }
}

/// The state after a reply. A reply that does not answer the pending action
/// changes nothing.
pub open spec fn next(state: WatchState, reply: Reply) -> WatchState {
    match (state.phase, reply) {
        (Phase::Spawning, Reply::Spawned { pid }) => WatchState {
            phase: Phase::Measuring { pid },
            ..state
        },
        (Phase::Spawning, Reply::SpawnFailed { reason }) => WatchState {
            phase: Phase::Failed { failure: Failure::Spawn { reason } },
            ..state
        },
        (Phase::Measuring { pid }, Reply::Measured { uptime, metrics }) => WatchState {
            phase: Phase::Ticking { pid, info: measured(state.last_uptime, uptime, metrics) },
            last_uptime: shown_uptime(state.last_uptime, uptime),
            ..state
        },
        (Phase::Ticking { pid, .. }, Reply::Running) => WatchState {
            phase: Phase::Measuring { pid },
            ..state
        },
        (Phase::Ticking { .. }, Reply::Exited { exit_code }) => WatchState {
            phase: Phase::Joining { exit_code },
            ..state
        },
        (Phase::Ticking { .. }, Reply::WaitFailed { reason }) => WatchState {
            phase: Phase::Failed { failure: Failure::Wait { reason } },
            ..state
        },
        (Phase::Joining { exit_code }, Reply::Captured { stdout }) => WatchState {
            phase: Phase::Done { outcome: Outcome { stdout, exit_code } },
            ..state
        },
        (Phase::Joining { .. }, Reply::CaptureFailed { reason }) => WatchState {
            phase: Phase::Failed { failure: Failure::Capture { reason } },
            ..state
        },
        _ => state,
    }
}

/// The state of a watch that has just been started.
pub open spec fn started(process: Snapshot, interval: u64) -> WatchState {
    WatchState { process, interval, phase: Phase::Spawning, last_uptime: 0 }
}

#[derive(Clone, Debug)]
enum Stage {
    Spawning,
    Measuring { pid: u32 },
    Ticking { pid: u32, info: PawInfo },
    Joining { exit_code: Option<i32> },
    Done { outcome: PawDone },
    Failed { error: WatchError },
}

impl View for Stage {
    type V = Phase;

    closed spec fn view(&self) -> Phase {
        match self {
            Stage::Spawning => Phase::Spawning,
            Stage::Measuring { pid } => Phase::Measuring { pid: *pid },
            Stage::Ticking { pid, info } => Phase::Ticking { pid: *pid, info: *info },
            Stage::Joining { exit_code } => Phase::Joining { exit_code: *exit_code },
            Stage::Done { outcome } => Phase::Done { outcome: outcome@ },
            Stage::Failed { error } => Phase::Failed { failure: error@ },
        }
    }
}

/// One watch of one child process.
///
/// A watch is not restartable: once it is done or has failed it stays so,
/// and a new watch is started from the specification.
#[derive(Clone, Debug)]
pub struct Watch {
    process: PawProcess,
    interval: u64,
    stage: Stage,
    last_uptime: u128,
}

impl View for Watch {
    type V = WatchState;

    closed spec fn view(&self) -> WatchState {
        WatchState {
            process: self.process@,
            interval: self.interval,
            phase: self.stage@,
            last_uptime: self.last_uptime,
        }
    }
}

impl Watch {
    /// Starts a watch of `process`, sampled every `interval` milliseconds.
    pub fn start(process: PawProcess, interval: u64) -> (watch: Watch)
        ensures
            watch@ == started(process@, interval),
    {
        Watch { process, interval, stage: Stage::Spawning, last_uptime: 0 }
    }

    /// The action that is pending.
    pub fn action(&self) -> (action: Action)
        ensures
            action@ == request(self@),
    {
        match &self.stage {
            Stage::Spawning => Action::Spawn { process: self.process.duplicate() },
            Stage::Measuring { pid } => Action::Measure { pid: *pid },
            Stage::Ticking { pid, info } => Action::Tick {
                sample: PawResult { info: *info, process: self.process.duplicate() },
                interval: self.interval,
            },
            Stage::Joining { exit_code } => Action::Join,
            Stage::Done { outcome } => Action::Finish { result: Ok(outcome.duplicate()) },
            Stage::Failed { error } => Action::Finish { result: Err(error.duplicate()) },
        }
    }

    /// Takes the answer to the pending action and moves on.
    ///
    /// Returns whether the event answers the pending action. One that does
    /// not is dropped: the watch stays as it is, with the same action
    /// pending.
    pub fn handle(&mut self, event: Event) -> (accepted: bool)
        ensures
            final(self)@ == next(old(self)@, event@),
            accepted == accepts(old(self)@, event@),
    {
        match event {
            Event::Spawned { pid } => match self.stage {
                Stage::Spawning => {
                    self.stage = Stage::Measuring { pid };
                    true
                },
                _ => false,
            },
            Event::SpawnFailed { reason } => match self.stage {
                Stage::Spawning => {
                    self.stage = Stage::Failed { error: WatchError::Spawn { reason } };
                    true
                },
                _ => false,
            },
            Event::Measured { uptime, metrics } => match self.stage {
                Stage::Measuring { pid } => {
                    let shown: u128 = if uptime < self.last_uptime {
                        self.last_uptime
                    } else {
                        uptime
                    };
                    let info = PawInfo {
                        uptime: shown,
                        memory_usage: metrics.memory,
                        cpu_usage: metrics.cpu,
                    };
                    self.stage = Stage::Ticking { pid, info };
                    self.last_uptime = shown;
                    true
                },
                _ => false,
            },
            Event::Running => match self.stage {
                Stage::Ticking { pid, .. } => {
                    self.stage = Stage::Measuring { pid };
                    true
                },
                _ => false,
            },
            Event::Exited { exit_code } => match self.stage {
                Stage::Ticking { .. } => {
                    self.stage = Stage::Joining { exit_code };
                    true
                },
                _ => false,
            },
            Event::WaitFailed { reason } => match self.stage {
                Stage::Ticking { .. } => {
                    self.stage = Stage::Failed { error: WatchError::Wait { reason } };
                    true
                },
                _ => false,
            },
            Event::Captured { stdout } => match self.stage {
                Stage::Joining { exit_code } => {
                    self.stage = Stage::Done { outcome: PawDone { stdout, exit_code } };
                    true
                },
                _ => false,
            },
            Event::CaptureFailed { reason } => match self.stage {
                Stage::Joining { .. } => {
                    self.stage = Stage::Failed { error: WatchError::Capture { reason } };
                    true
                },
                _ => false,
            },
        }
    }
}

} // verus!
