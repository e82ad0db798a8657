//! Watches a child process: runs a command, samples its memory and CPU use
//! at a fixed interval, hands each sample to an observer, and ends with the
//! child's captured output and exit code.
//!
//! The library holds every decision of a watch and proves what it promises:
//! `watch` is the machine that a driver steps through, `trace` states what
//! whole runs deliver, `pace` relates the number of samples to the child's
//! lifetime, and `metrics` reads the process table.

pub mod metrics;
pub mod pace;
pub mod paw;
pub mod structs;
pub mod trace;
pub mod watch;

pub use crate::metrics::{query, ProcessMetrics};
pub use crate::paw::Paw;
pub use crate::structs::{CpuPercent, MemoryUsage, PawDone, PawInfo, PawProcess, PawResult};
pub use crate::watch::{Action, Event, Watch, WatchError};
