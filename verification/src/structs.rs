//! The data that a watch hands out: one `PawResult` for each sampling tick,
//! and one `PawDone` when the child has ended.
//!
//! Each type that owns text has a view in which the text is a sequence of
//! characters; the contracts of the crate are stated over those views.

use vstd::prelude::*;

verus! {

/// Memory held by a process, in bytes.
#[derive(Clone, Copy, Debug, PartialEq, Eq)]
pub struct MemoryUsage {
    /// Resident set size.
    pub rss: u64,
    /// Virtual memory size.
    pub vms: u64,
}

/// A CPU utilisation percentage of one core, since the process handle was
/// last read.
///
/// The library never computes with the percentage; it carries the reading to
/// the observer. The reading is kept as its single-precision bit pattern, so
/// that every value the process table can report, the not-a-number ones
/// included, passes through unchanged.
#[derive(Clone, Copy, Debug, PartialEq, Eq)]
pub struct CpuPercent {
    /// The bit pattern of the reading.
    pub bits: u32,
}

/// What was measured at one tick.
///
/// An absent metric means that it could not be read at that tick; it is
/// never a zero reading.
#[derive(Clone, Copy, Debug, PartialEq, Eq)]
pub struct PawInfo {
    /// Milliseconds since the watch began.
    pub uptime: u128,
    pub memory_usage: Option<MemoryUsage>,
    pub cpu_usage: Option<CpuPercent>,
}

/// The command line of the watched process: a copy, never the live process.
#[derive(Clone, Debug, PartialEq, Eq)]
pub struct PawProcess {
    pub cmd: String,
    pub args: Vec<String>,
}

/// One sample, as the observer receives it.
#[derive(Clone, Debug, PartialEq, Eq)]
pub struct PawResult {
    pub info: PawInfo,
    pub process: PawProcess,
}

/// The outcome of a watch that ran to completion.
#[derive(Clone, Debug, PartialEq, Eq)]
pub struct PawDone {
    /// Everything the child wrote to its standard output, in order.
    pub stdout: String,
    /// The exit code; absent when the child was ended by a signal.
    pub exit_code: Option<i32>,
}

/// The view of a `PawProcess`.
pub struct Snapshot {
    pub cmd: Seq<char>,
    pub args: Seq<Seq<char>>,
}

/// The view of a `PawResult`.
pub struct Sample {
    pub info: PawInfo,
    pub process: Snapshot,
}

/// The view of a `PawDone`.
pub struct Outcome {
    pub stdout: Seq<char>,
    pub exit_code: Option<i32>,
}

impl View for PawProcess {
    type V = Snapshot;

    open spec fn view(&self) -> Snapshot {
        Snapshot { cmd: self.cmd@, args: self.args.deep_view() }
    }
}

impl View for PawResult {
    type V = Sample;

    open spec fn view(&self) -> Sample {
        Sample { info: self.info, process: self.process@ }
    }
}

impl View for PawDone {
    type V = Outcome;

    open spec fn view(&self) -> Outcome {
        Outcome { stdout: self.stdout@, exit_code: self.exit_code }
    }
}

/// Copies a list of strings.
pub(crate) fn copy_strings(source: &Vec<String>) -> (copy: Vec<String>)
    ensures
        copy.deep_view() == source.deep_view(),
{
    let mut copy: Vec<String> = Vec::new();
    let mut i: usize = 0;
    while i < source.len()
        invariant
            i <= source.len(),
            copy.len() == i,
            forall|k: int| 0 <= k < i ==> copy[k]@ == source[k]@,
        decreases source.len() - i,
    {
        copy.push(source[i].clone());
        i = i + 1;
    }
    assert(copy.deep_view() =~= source.deep_view());
    copy
}

impl PawProcess {
    /// A copy of this command line.
    pub(crate) fn duplicate(&self) -> (copy: PawProcess)
        ensures
            copy@ == self@,
    {
        PawProcess { cmd: self.cmd.clone(), args: copy_strings(&self.args) }
    }
}

impl PawDone {
    /// A copy of this outcome.
    pub(crate) fn duplicate(&self) -> (copy: PawDone)
        ensures
            copy@ == self@,
    {
        PawDone { stdout: self.stdout.clone(), exit_code: self.exit_code }
    }
}

} // verus!
