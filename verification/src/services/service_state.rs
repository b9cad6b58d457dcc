//! The run state of a service and the store that keeps it between
//! invocations.

use vstd::prelude::*;
use vstd::string::*;

use crate::error::Error;
use crate::launchd_config::LaunchdConfig;
use crate::paths::{final_segment, join_path, joined};
use crate::scan::{
    lemma_line_found, lines_of, parse_i32, parsed_i32, trim_bounds, trimmed,
    without_carriage_return,
};
use crate::text::{chars_of, contains, occurs_in};

verus! {

/// Represents the running status of a service.
#[derive(Debug, Clone, Copy, PartialEq, Eq, Structural)]
pub enum ServiceStatus {
    Running,
    Stopped,
    /// No reliable record exists.
    Stale,
}

/// A run state as a mathematical value: the recorded process identifiers, in
/// recorded order, and the status.
pub struct RunState {
    pub pids: Seq<i32>,
    pub status: ServiceStatus,
}

impl RunState {
    /// The state that stands for a missing record.
    pub open spec fn stale() -> RunState {
        RunState { pids: Seq::empty(), status: ServiceStatus::Stale }
    }

    /// The state of a service that was just launched as the processes `pids`.
    pub open spec fn running(pids: Seq<i32>) -> RunState {
        RunState { pids, status: ServiceStatus::Running }
    }

    /// The same processes, known to be stopped.
    pub open spec fn stopped(self) -> RunState {
        RunState { pids: self.pids, status: ServiceStatus::Stopped }
    }
}

/// Stores information about a service instance, including its PID and status.
#[derive(Debug, Clone, PartialEq, Eq)]
pub struct ServiceStateData {
    pids: Vec<i32>,
    status: ServiceStatus,
}

impl View for ServiceStateData {
    type V = RunState;

    closed spec fn view(&self) -> RunState {
        RunState { pids: self.pids@, status: self.status }
    }
}

/// The word that a status is shown as.
pub open spec fn status_word(status: ServiceStatus) -> Seq<char> {
    match status {
        ServiceStatus::Running => "Running"@,
        ServiceStatus::Stopped => "Stopped"@,
        ServiceStatus::Stale => "Stale"@,
    }
}

impl ServiceStateData {
    pub fn new(pids: Vec<i32>, status: ServiceStatus) -> (data: Self)
        ensures
            data@ == (RunState { pids: pids@, status }),
    {
        Self { pids, status }
    }

    pub fn status(&self) -> (status: &ServiceStatus)
        ensures
            *status == self@.status,
    {
        &self.status
    }

    pub fn pids(&self) -> (pids: &[i32])
        ensures
            pids@ == self@.pids,
    {
        self.pids.as_slice()
    }

    pub fn to_string(&self) -> (word: String)
        ensures
            word@ == status_word(self@.status),
    {
        match &self.status {
            ServiceStatus::Running => String::from_str("Running"),
            ServiceStatus::Stopped => String::from_str("Stopped"),
            ServiceStatus::Stale => String::from_str("Stale"),
        }
    }

    /// The recorded processes, as a list of its own.
    pub fn duplicate_pids(&self) -> (pids: Vec<i32>)
        ensures
            pids@ == self@.pids,
    {
        let mut pids: Vec<i32> = Vec::new();
        let mut i: usize = 0;
        while i < self.pids.len()
            invariant
                i <= self.pids.len(),
                pids@ == self.pids@.take(i as int),
            decreases self.pids.len() - i,
        {
            pids.push(self.pids[i]);
            i += 1;
        }
        pids
    }

    /// A record of its own with the same content.
    pub fn duplicate(&self) -> (copy: Self)
        ensures
            copy@ == self@,
    {
        Self { pids: self.duplicate_pids(), status: self.status }
    }
}

/// What the state file of one formula holds, as far as the store reads it.
#[derive(Debug)]
pub enum StateFile {
    /// No file is there, or it cannot be read.
    Missing,
    /// A file is there and its content is no run state; the payload is the
    /// decoder's message.
    Malformed(String),
    /// A file is there and holds this record.
    Stored(ServiceStateData),
}

impl StateFile {
    /// What reading the file gives: the stored record, the stale state for a
    /// missing file, and for malformed content the decoder's message.
    pub open spec fn read(self) -> Result<RunState, Seq<char>> {
        match self {
            StateFile::Missing => Ok(RunState::stale()),
            StateFile::Malformed(reason) => Err(reason@),
            StateFile::Stored(data) => Ok(data@),
        }
    }

    /// The file holds exactly the record `state`.
    pub open spec fn holds(self, state: RunState) -> bool {
        self matches StateFile::Stored(data) && data@ == state
    }
}

/// The store's parameters as mathematical values.
pub struct ServiceStateView {
    pub formula: Seq<char>,
    pub binary_name: Seq<char>,
}

/// The process identifier on one line of a process listing, if the line
/// holds one and nothing but white space around it.
pub open spec fn pid_of_line(line: Seq<char>) -> Option<i32> {
    parsed_i32(trimmed(line))
}

/// The process identifiers that a process listing names, line by line.
pub open spec fn listed_pids(output: Seq<char>) -> Seq<i32> {
    lines_of(output).filter_map(|line: Seq<char>| pid_of_line(line))
}

/// The label under which the host's service manager lists a formula.
pub open spec fn managed_label(formula: Seq<char>) -> Seq<char> {
    "homebrew.mxcl."@ + formula
}

/// The directory that keeps the state of every formula.
pub open spec fn state_root() -> Seq<char> {
    "/tmp/flint"@
}

/// Where the state of a formula is kept.
pub open spec fn state_path(formula: Seq<char>) -> Seq<char> {
    joined(state_root(), formula + ".state.json"@)
}

/// What the first element of a list adds to the result of a filtering map
/// comes before what the rest adds.
proof fn lemma_filter_map_first<A, B>(first: A, rest: Seq<A>, f: spec_fn(A) -> Option<B>)
    ensures
        (seq![first] + rest).filter_map(f) == (match f(first) {
            Some(b) => seq![b],
            None => Seq::empty(),
        }) + rest.filter_map(f),
    decreases rest.len(),
{
    let all = seq![first] + rest;
    if rest.len() == 0 {
        Seq::lemma_filter_map_singleton(first, f);
    } else {
        assert(all.drop_last() =~= seq![first] + rest.drop_last());
        lemma_filter_map_first(first, rest.drop_last(), f);
    }
}

/// Manages reading and writing of a service's runtime state.
#[derive(Debug)]
pub struct ServiceState {
    formula: String,
    binary_name: String,
}

impl View for ServiceState {
    type V = ServiceStateView;

    closed spec fn view(&self) -> ServiceStateView {
        ServiceStateView { formula: self.formula@, binary_name: self.binary_name@ }
    }
}

impl ServiceState {
    /// Creates a new `ServiceState` associated with the given formula.
    pub fn new(formula: String, launchd_config: &LaunchdConfig) -> (store: Self)
        requires
            launchd_config@.names_program(),
        ensures
            store@.formula == formula@,
            store@.binary_name == final_segment(launchd_config@.program()),
    {
        Self { formula, binary_name: launchd_config.binary_name() }
    }

    /// The process identifiers that a search by the binary's name came to:
    /// none where the search did not succeed, else those that its output
    /// lists, in the order of the lines.
    pub fn search_pids(&self, succeeded: bool, output: &str) -> (pids: Vec<i32>)
        ensures
            pids@ == if succeeded {
                listed_pids(output@)
            } else {
                Seq::<i32>::empty()
            },
    {
        let mut pids: Vec<i32> = Vec::new();
        if !succeeded {
            return pids;
        }
        let cs = chars_of(output);
        let ghost pick = |line: Seq<char>| pid_of_line(line);
        let mut pos: usize = 0;
        assert(cs@.skip(0) =~= cs@);
        while pos < cs.len()
            invariant
                cs@ == output@,
                pos <= cs.len(),
                pick == |line: Seq<char>| pid_of_line(line),
                listed_pids(cs@) == pids@ + lines_of(cs@.skip(pos as int)).filter_map(pick),
            decreases cs.len() - pos,
        {
            let mut end: usize = pos;
            while end < cs.len() && cs[end] != '\n'
                invariant
                    pos <= end <= cs.len(),
                    forall|i: int| pos <= i < end ==> cs@[i] != '\n',
                decreases cs.len() - end,
            {
                end += 1;
            }
            let ghost rest = cs@.skip(pos as int);
            let ghost line = if end < cs.len() {
                without_carriage_return(rest.take(end - pos))
            } else {
                rest
            };
            let ghost after = if end < cs.len() {
                cs@.skip(end + 1)
            } else {
                Seq::<char>::empty()
            };
            proof {
                lemma_line_found(cs@, pos as int, end as int);
                if end < cs.len() {
                    assert(rest.skip(end - pos + 1) =~= after);
                }
                lemma_filter_map_first(line, lines_of(after), pick);
            }
            let stop: usize = if end < cs.len() && end > pos && cs[end - 1] == '\r' {
                end - 1
            } else {
                end
            };
            assert(line == cs@.subrange(pos as int, stop as int)) by {
                assert(rest.take(end - pos) =~= cs@.subrange(pos as int, end as int));
            }
            let bounds = trim_bounds(&cs, pos, stop);
            match parse_i32(&cs, bounds.0, bounds.1) {
                Some(pid) => {
                    pids.push(pid);
                },
                None => {},
            }
            if end < cs.len() {
                pos = end + 1;
            } else {
                pos = end;
            }
        }
        pids
    }

    /// The directory that the state files are kept in.
    pub fn state_dir() -> (dir: String)
        ensures
            dir@ == state_root(),
    {
        String::from_str("/tmp/flint")
    }

    /// The path of the file that keeps this service's state.
    pub fn state_file_path(&self) -> (path: String)
        ensures
            path@ == state_path(self@.formula),
    {
        let mut name = self.formula.clone();
        name.append(".state.json");
        join_path(Self::state_dir().as_str(), name.as_str())
    }

    /// Replaces what the file holds by the running state of `pids`.
    pub fn mark_running(&self, file: &mut StateFile, pids: Vec<i32>)
        ensures
            final(file).holds(RunState::running(pids@)),
    {
        *file = StateFile::Stored(ServiceStateData { pids, status: ServiceStatus::Running });
    }

    /// Reads the service's state: the record that the file holds, the stale
    /// state where there is no file, and an error where its content is no
    /// run state.
    pub fn read_state(&self, file: &StateFile) -> (state: Result<ServiceStateData, Error>)
        ensures
            match file.read() {
                Ok(run) => state matches Ok(data) && data@ == run,
                Err(reason) => state matches Err(Error::Json(message)) && message@ == reason,
            },
    {
        match file {
            StateFile::Missing => Ok(
                ServiceStateData { pids: Vec::new(), status: ServiceStatus::Stale },
            ),
            StateFile::Malformed(reason) => Err(Error::Json(reason.clone())),
            StateFile::Stored(data) => Ok(data.duplicate()),
        }
    }

    /// Marks the service as stopped: what is read from the file is written
    /// back with the status `Stopped` and the same processes. Where the file
    /// cannot be read as a run state it is left as it is.
    pub fn mark_stopped(&self, file: &mut StateFile) -> (done: Result<(), Error>)
        ensures
            match old(file).read() {
                Ok(run) => done is Ok && final(file).holds(run.stopped()),
                Err(reason) => done matches Err(Error::Json(message)) && message@ == reason
                    && *final(file) == *old(file),
            },
    {
        let data = match self.read_state(file) {
            Ok(data) => data,
            Err(error) => {
                return Err(error);
            },
        };
        *file = StateFile::Stored(ServiceStateData { pids: data.pids, status: ServiceStatus::Stopped });
        Ok(())
    }

    pub fn formula(&self) -> (formula: &str)
        ensures
            formula@ == self@.formula,
    {
        self.formula.as_str()
    }

    /// The name by which the service's processes are searched.
    pub fn binary_name(&self) -> (name: &str)
        ensures
            name@ == self@.binary_name,
    {
        self.binary_name.as_str()
    }

    /// Whether the host's service manager lists the formula among its units:
    /// whether the formula's label stands anywhere in `listing`.
    pub fn is_managed_by_launchctl(&self, listing: &str) -> (managed: bool)
        ensures
            managed == occurs_in(managed_label(self@.formula), listing@),
    {
        let mut label = String::from_str("homebrew.mxcl.");
        label.append(self.formula.as_str());
        contains(listing, label.as_str())
    }
}

/// What was marked running is read back exactly as it was written, whatever
/// the file held before.
pub proof fn lemma_running_is_read_back(written: StateFile, pids: Seq<i32>)
    requires
        written.holds(RunState::running(pids)),
    ensures
        written.read() == Ok::<RunState, Seq<char>>(
            RunState { pids, status: ServiceStatus::Running },
        ),
{
}

/// A service that was marked running and then stopped is read as stopped,
/// with the processes it was running as.
pub proof fn lemma_stopped_keeps_pids(written: StateFile, stopped: StateFile, pids: Seq<i32>)
    requires
        written.holds(RunState::running(pids)),
        written.read() matches Ok(run) && stopped.holds(run.stopped()),
    ensures
        stopped.read() == Ok::<RunState, Seq<char>>(
            RunState { pids, status: ServiceStatus::Stopped },
        ),
{
}

/// Stopping never fails on a file that reads, and what it leaves never reads
/// as running.
pub proof fn lemma_stopped_is_not_running(before: StateFile, after: StateFile)
    requires
        before.read() matches Ok(run) && after.holds(run.stopped()),
    ensures
        after.read() matches Ok(run) && run.status == ServiceStatus::Stopped && run.pids == (
        before.read()->Ok_0).pids,
{
}

} // verus!
