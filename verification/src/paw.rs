//! What is to be watched: a command, its arguments, and how often to sample.

use crate::structs::{copy_strings, PawProcess, Snapshot};
use crate::watch::{started, Watch};
use vstd::prelude::*;

verus! {

/// A process watcher: the command to run, its arguments, and the sampling
/// interval. It is never changed once made; each watch works on a copy of
/// the command line.
#[derive(Clone, Debug)]
pub struct Paw {
    command: String,
    arguments: Vec<String>,
    interval: u64,
}

/// The view of a `Paw`.
pub struct WatchSpec {
    pub command: Seq<char>,
    pub arguments: Seq<Seq<char>>,
    /// The sampling interval, in milliseconds.
    pub interval: u64,
}

impl WatchSpec {
    /// The command line that a watch of this specification runs.
    pub open spec fn process(self) -> Snapshot {
        Snapshot { cmd: self.command, args: self.arguments }
    }
}

impl View for Paw {
    type V = WatchSpec;

    closed spec fn view(&self) -> WatchSpec {
        WatchSpec {
            command: self.command@,
            arguments: self.arguments.deep_view(),
            interval: self.interval,
        }
    }
}

impl Paw {
    /// A watcher of `command` run with `arguments`, sampled every `duration`
    /// milliseconds.
    pub fn new(command: &str, arguments: &[&str], duration: u64) -> (paw: Paw)
        ensures
            paw@ == (WatchSpec {
                command: command@,
                arguments: arguments.deep_view(),
                interval: duration,
            }),
    {
        let mut owned: Vec<String> = Vec::new();
        let mut i: usize = 0;
        while i < arguments.len()
            invariant
                i <= arguments.len(),
                owned.len() == i,
                forall|k: int| 0 <= k < i ==> owned[k]@ == arguments[k]@,
            decreases arguments.len() - i,
        {
            owned.push(arguments[i].to_owned());
            i = i + 1;
        }
        assert(owned.deep_view() =~= arguments.deep_view());
        Paw { command: command.to_owned(), arguments: owned, interval: duration }
    }

    /// The executable that is run.
    pub fn command(&self) -> (command: &str)
        ensures
            command@ == self@.command,
    {
        self.command.as_str()
    }

    /// The arguments that the executable is run with, in order.
    pub fn arguments(&self) -> (arguments: &Vec<String>)
        ensures
            arguments.deep_view() == self@.arguments,
    {
        &self.arguments
    }

    /// The sampling interval, in milliseconds.
    pub fn interval(&self) -> (interval: u64)
        ensures
            interval == self@.interval,
    {
        self.interval
    }

    /// Starts one watch of this command.
    ///
    /// The watch that comes back has done nothing yet: its first pending
    /// action is to create the child. Each call starts a watch of its own,
    /// which shares nothing with any other.
    pub fn watch(&self) -> (watch: Watch)
        ensures
            watch@ == started(self@.process(), self@.interval),
    {
        let process = PawProcess {
            cmd: self.command.clone(),
            args: copy_strings(&self.arguments),
        };
        Watch::start(process, self.interval)
    }
}

} // verus!
