//! Reading the process table: resident memory and CPU utilisation of one
//! process, by its identifier.
//!
//! A process may be gone, or unreadable, at the moment it is asked about.
//! That is an ordinary outcome here: the metric that could not be read is
//! absent, and nothing else happens.

use crate::structs::{CpuPercent, MemoryUsage};
use psutil::process::Process;
use vstd::prelude::*;

verus! {

/// `psutil::process::Process`: a handle on one entry of the process table.
/// Nothing inside it is read here; it is opened, asked, and dropped.
#[verifier::external_type_specification]
#[verifier::external_body]
pub struct ExProcess(psutil::process::Process);

/// What one query of the process table gave.
#[derive(Clone, Copy, Debug, PartialEq, Eq)]
pub struct ProcessMetrics {
    pub memory: Option<MemoryUsage>,
    pub cpu: Option<CpuPercent>,
}

impl ProcessMetrics {
    /// The metrics of a process that could not be read at all.
    pub fn unavailable() -> (metrics: ProcessMetrics)
        ensures
            metrics == Self::absent(),
    {
        ProcessMetrics { memory: None, cpu: None }
    }

    /// Both metrics absent.
    pub open spec fn absent() -> ProcessMetrics {
        ProcessMetrics { memory: None, cpu: None }
    }
}

/// Calls `Process::new` of psutil, which reads the entry of `pid` in the
/// process table. The handle is absent when psutil reports an error: no such
/// process, access denied, or an entry it cannot parse. Nothing is claimed
/// about which of the two comes back. psutil parses an entry with plain
/// arithmetic and indexing; it is trusted to return on every entry that the
/// operating system writes.
#[verifier::external_body]
fn open_process(pid: u32) -> (handle: Option<Process>) {
    match Process::new(pid) {
        Ok(process) => Some(process),
        Err(_) => None,
    }
}

/// Calls `Process::memory_info` of psutil and copies the resident set size
/// and the virtual memory size out of its answer. The reading is absent when
/// psutil reports an error. Nothing is claimed about the sizes.
#[verifier::external_body]
fn read_memory(process: &Process) -> (memory: Option<MemoryUsage>) {
    match process.memory_info() {
        Ok(info) => Some(MemoryUsage { rss: info.rss(), vms: info.vms() }),
        Err(_) => None,
    }
}

/// Calls `Process::cpu_percent` of psutil, which compares the busy time of
/// the process with the busy time it last saw through this handle, and keeps
/// the new one in the handle. The percentage comes back as its bit pattern;
/// it is absent when psutil reports an error. Nothing is claimed about the
/// percentage.
#[verifier::external_body]
fn read_cpu(process: &mut Process) -> (cpu: Option<CpuPercent>) {
    match process.cpu_percent() {
        Ok(percent) => Some(CpuPercent { bits: percent.to_bits() }),
        Err(_) => None,
    }
}

/// Reads the memory and CPU metrics of the process `pid`.
///
/// The process table is read, never changed. When no handle on the process
/// can be had, both metrics are absent; with a handle, each metric is read on
/// its own, and one that fails is absent without touching the other: that
/// rule is `from_readings`. What the table holds at that moment is not known
/// to the verifier, so the contract says nothing of the readings themselves.
pub fn query(pid: u32) -> (metrics: ProcessMetrics) {
    let readings = match open_process(pid) {
        None => None,
        Some(process) => {
            let mut process = process;
            let memory = read_memory(&process);
            let cpu = read_cpu(&mut process);
            Some((memory, cpu))
        },
    };
    ProcessMetrics::from_readings(readings)
}

impl ProcessMetrics {
    /// The metrics that the answers of the process table amount to: nothing
    /// when no handle on the process could be had, and otherwise the two
    /// readings taken through the handle, each as it came.
    pub open spec fn of_readings(
        readings: Option<(Option<MemoryUsage>, Option<CpuPercent>)>,
    ) -> ProcessMetrics {
        match readings {
            None => Self::absent(),
            Some((memory, cpu)) => ProcessMetrics { memory, cpu },
        }
    }

    /// Puts the answers of the process table together. `readings` is absent
    /// when no handle could be had; with a handle it holds what reading the
    /// memory and reading the CPU use gave, each absent if it failed. A
    /// failure is never an error here: it leaves the metric out.
    pub fn from_readings(
        readings: Option<(Option<MemoryUsage>, Option<CpuPercent>)>,
    ) -> (metrics: ProcessMetrics)
        ensures
            metrics == Self::of_readings(readings),
    {
        match readings {
            None => ProcessMetrics::unavailable(),
            Some((memory, cpu)) => ProcessMetrics { memory, cpu },
        }
    }
}

} // verus!
