//! The steps of starting and of stopping a service.
//!
//! Starting and stopping alternate between decisions and work on the host:
//! reading and writing the state file, launching a program, waiting. A run
//! is in one phase at a time. The host reports an event; the step function
//! gives the phase that follows and what the host is to do next. What is
//! decided depends on the phase and the event alone, so a run can be stated
//! as a sequence of events and the actions they lead to.

use vstd::prelude::*;

use crate::error::{Error, ErrorView};
use crate::service_manager::ServiceManagerView;
use crate::services::service_state::{managed_label, RunState, ServiceStateData, ServiceStatus};
use crate::signals::{
    attempts, first_failure, is_signal_trail, lemma_first_failure, SignalAttempt,
    SignalAttemptView,
};
use crate::text::{occurs_in, opt_text, texts};

verus! {

/// How long the host waits before it polls a launched program, and before
/// it records a signalled service as stopped, in milliseconds.
pub const GRACE_MILLIS: u64 = 500;

/// How a program is launched.
#[derive(Debug)]
pub struct LaunchPlan {
    pub program: String,
    pub args: Vec<String>,
    pub working_directory: String,
    /// The directory to make for the log of standard output, if any.
    pub stdout_dir: Option<String>,
    /// The directory to make for the log of standard error, if any.
    pub stderr_dir: Option<String>,
    /// The file that the program's standard output goes to.
    pub stdout_path: String,
    /// The file that the program's standard error goes to.
    pub stderr_path: String,
}

/// A launch plan as a mathematical value.
pub struct LaunchPlanView {
    pub program: Seq<char>,
    pub args: Seq<Seq<char>>,
    pub working_directory: Seq<char>,
    pub stdout_dir: Option<Seq<char>>,
    pub stderr_dir: Option<Seq<char>>,
    pub stdout_path: Seq<char>,
    pub stderr_path: Seq<char>,
}

impl View for LaunchPlan {
    type V = LaunchPlanView;

    open spec fn view(&self) -> LaunchPlanView {
        LaunchPlanView {
            program: self.program@,
            args: texts(self.args@),
            working_directory: self.working_directory@,
            stdout_dir: opt_text(self.stdout_dir),
            stderr_dir: opt_text(self.stderr_dir),
            stdout_path: self.stdout_path@,
            stderr_path: self.stderr_path@,
        }
    }
}

/// The phases of starting a service.
#[derive(Debug, Clone, Copy, PartialEq, Eq, Structural)]
pub enum StartPhase {
    /// Nothing was done yet.
    Idle,
    /// The host reads the run state.
    ReadingState,
    /// The host looks for the program on the filesystem.
    CheckingProgram,
    /// The host prepares the logs and launches the program.
    Launching,
    /// The host waits, then polls the launched program.
    Settling,
    /// The host searches the processes of the service.
    Searching,
    /// The host writes the run state.
    Recording,
    /// The run is over.
    Finished,
}

/// What a poll of the launched program found.
#[derive(Debug, Clone, Copy, PartialEq, Eq, Structural)]
pub enum ChildPoll {
    /// The program is still running.
    Running,
    /// The program has exited, with this code unless a signal ended it.
    Exited { code: Option<i32> },
}

/// How a start ended well.
#[derive(Debug, Clone, Copy, PartialEq, Eq, Structural)]
pub enum StartOutcome {
    /// The service was recorded as running: nothing was launched.
    AlreadyRunning,
    /// The program was launched and its processes were recorded.
    Started,
}

/// What the host reports while a service is started.
#[derive(Debug)]
pub enum StartEvent {
    /// The run begins.
    Begin,
    /// The run state was read.
    StateRead(ServiceStateData),
    /// Whether the program is on the filesystem.
    ProgramChecked(bool),
    /// The logs were prepared and the program was launched.
    Launched,
    /// The program was polled after the grace interval.
    Polled(ChildPoll),
    /// The processes that the search by binary name found.
    PidsFound(Vec<i32>),
    /// The run state was written.
    Recorded,
}

/// An event of a start as a mathematical value.
pub enum StartEventView {
    Begin,
    StateRead(RunState),
    ProgramChecked(bool),
    Launched,
    Polled(ChildPoll),
    PidsFound(Seq<i32>),
    Recorded,
}

impl View for StartEvent {
    type V = StartEventView;

    open spec fn view(&self) -> StartEventView {
        match *self {
            StartEvent::Begin => StartEventView::Begin,
            StartEvent::StateRead(data) => StartEventView::StateRead(data@),
            StartEvent::ProgramChecked(found) => StartEventView::ProgramChecked(found),
            StartEvent::Launched => StartEventView::Launched,
            StartEvent::Polled(poll) => StartEventView::Polled(poll),
            StartEvent::PidsFound(pids) => StartEventView::PidsFound(pids@),
            StartEvent::Recorded => StartEventView::Recorded,
        }
    }
}

/// What the host is to do next while a service is started.
#[derive(Debug)]
pub enum StartAction {
    /// Read the run state and report `StateRead`.
    ReadState,
    /// Look for this program on the filesystem and report `ProgramChecked`.
    CheckProgram { program: String },
    /// Make the directories of the two logs, create the logs, launch the
    /// program as the plan says, and report `Launched`.
    Launch(LaunchPlan),
    /// Wait this long, poll the program once and report `Polled`.
    Poll { millis: u64 },
    /// Search the processes that run this binary and report `PidsFound`.
    SearchPids { binary_name: String },
    /// Write these processes as the running state and report `Recorded`.
    Record { pids: Vec<i32> },
    /// End the run with this result.
    Finish(Result<StartOutcome, Error>),
    /// The event does not belong to the phase: nothing has changed.
    Rejected,
}

/// An action of a start as a mathematical value.
pub enum StartActionView {
    ReadState,
    CheckProgram { program: Seq<char> },
    Launch(LaunchPlanView),
    Poll { millis: u64 },
    SearchPids { binary_name: Seq<char> },
    Record { pids: Seq<i32> },
    Finish(Result<StartOutcome, ErrorView>),
    Rejected,
}

impl View for StartAction {
    type V = StartActionView;

    open spec fn view(&self) -> StartActionView {
        match *self {
            StartAction::ReadState => StartActionView::ReadState,
            StartAction::CheckProgram { program } => StartActionView::CheckProgram {
                program: program@,
            },
            StartAction::Launch(plan) => StartActionView::Launch(plan@),
            StartAction::Poll { millis } => StartActionView::Poll { millis },
            StartAction::SearchPids { binary_name } => StartActionView::SearchPids {
                binary_name: binary_name@,
            },
            StartAction::Record { pids } => StartActionView::Record { pids: pids@ },
            StartAction::Finish(Ok(outcome)) => StartActionView::Finish(Ok(outcome)),
            StartAction::Finish(Err(error)) => StartActionView::Finish(Err(error@)),
            StartAction::Rejected => StartActionView::Rejected,
        }
    }
}

/// The exit code that a failed start reports: the program's own, and -1
/// where a signal ended it.
pub open spec fn reported_code(code: Option<i32>) -> i32 {
    match code {
        Some(c) => c,
        None => -1i32,
    }
}

/// One step of starting a service: the phase that follows `phase` on
/// `event`, and what the host is to do.
pub open spec fn start_step(manager: ServiceManagerView, phase: StartPhase, event: StartEventView) -> (
    StartPhase,
    StartActionView,
) {
    match (phase, event) {
        (StartPhase::Idle, StartEventView::Begin) => (
            StartPhase::ReadingState,
            StartActionView::ReadState,
        ),
        (StartPhase::ReadingState, StartEventView::StateRead(run)) => if run.status
            == ServiceStatus::Running {
            (StartPhase::Finished, StartActionView::Finish(Ok(StartOutcome::AlreadyRunning)))
        } else {
            (
                StartPhase::CheckingProgram,
                StartActionView::CheckProgram { program: manager.launchd.program() },
            )
        },
        (StartPhase::CheckingProgram, StartEventView::ProgramChecked(found)) => if found {
            (StartPhase::Launching, StartActionView::Launch(manager.launch_plan()))
        } else {
            (
                StartPhase::Finished,
                StartActionView::Finish(
                    Err(
                        ErrorView::ProgramNotFound {
                            formula: manager.formula(),
                            program: manager.launchd.program(),
                        },
                    ),
                ),
            )
        },
        (StartPhase::Launching, StartEventView::Launched) => (
            StartPhase::Settling,
            StartActionView::Poll { millis: GRACE_MILLIS },
        ),
        (StartPhase::Settling, StartEventView::Polled(ChildPoll::Exited { code })) => (
            StartPhase::Finished,
            StartActionView::Finish(
                Err(
                    ErrorView::ServiceFailedToStart {
                        formula: manager.formula(),
                        code: reported_code(code),
                    },
                ),
            ),
        ),
        (StartPhase::Settling, StartEventView::Polled(ChildPoll::Running)) => (
            StartPhase::Searching,
            StartActionView::SearchPids { binary_name: manager.state.binary_name },
        ),
        (StartPhase::Searching, StartEventView::PidsFound(pids)) => (
            StartPhase::Recording,
            StartActionView::Record { pids },
        ),
        (StartPhase::Recording, StartEventView::Recorded) => (
            StartPhase::Finished,
            StartActionView::Finish(Ok(StartOutcome::Started)),
        ),
        _ => (phase, StartActionView::Rejected),
    }
}

/// The phases of stopping a service.
#[derive(Debug, Clone, Copy, PartialEq, Eq, Structural)]
pub enum StopPhase {
    /// Nothing was done yet.
    Idle,
    /// The host asks its service manager for the units it manages.
    Listing,
    /// The host asks its service manager to unload the service.
    Unloading,
    /// The host reads the run state.
    ReadingState,
    /// The recorded processes are asked to terminate.
    Signalling,
    /// The host waits for the processes to go.
    Settling,
    /// The host marks the service as stopped.
    Recording,
    /// The run is over.
    Finished,
}

/// What the host reports while a service is stopped.
#[derive(Debug)]
pub enum StopEvent {
    /// The run begins.
    Begin,
    /// The listing of the units that the host's service manager manages.
    Listed(String),
    /// The unload was requested. How it went is not asked.
    Unloaded,
    /// The run state was read.
    StateRead(ServiceStateData),
    /// The recorded processes were signalled, with this account.
    Signalled(Vec<SignalAttempt>),
    /// The grace interval has passed.
    Settled,
    /// The service was marked as stopped.
    Recorded,
}

/// An event of a stop as a mathematical value.
pub enum StopEventView {
    Begin,
    Listed(Seq<char>),
    Unloaded,
    StateRead(RunState),
    Signalled(Seq<SignalAttemptView>),
    Settled,
    Recorded,
}

impl View for StopEvent {
    type V = StopEventView;

    open spec fn view(&self) -> StopEventView {
        match *self {
            StopEvent::Begin => StopEventView::Begin,
            StopEvent::Listed(listing) => StopEventView::Listed(listing@),
            StopEvent::Unloaded => StopEventView::Unloaded,
            StopEvent::StateRead(data) => StopEventView::StateRead(data@),
            StopEvent::Signalled(trail) => StopEventView::Signalled(attempts(trail@)),
            StopEvent::Settled => StopEventView::Settled,
            StopEvent::Recorded => StopEventView::Recorded,
        }
    }
}

/// What the host is to do next while a service is stopped.
#[derive(Debug)]
pub enum StopAction {
    /// List the units of the host's service manager and report `Listed`.
    ListUnits,
    /// Ask the host's service manager to unload this descriptor, whatever
    /// comes of it, and report `Unloaded`.
    Unload { plist_path: String },
    /// Read the run state and report `StateRead`.
    ReadState,
    /// Ask these processes to terminate and report `Signalled`.
    Signal { pids: Vec<i32> },
    /// Wait this long and report `Settled`.
    Settle { millis: u64 },
    /// Mark the service as stopped in the state file and report `Recorded`.
    MarkStopped,
    /// End the run with this result.
    Finish(Result<(), Error>),
    /// The event does not belong to the phase: nothing has changed.
    Rejected,
}

/// An action of a stop as a mathematical value.
pub enum StopActionView {
    ListUnits,
    Unload { plist_path: Seq<char> },
    ReadState,
    Signal { pids: Seq<i32> },
    Settle { millis: u64 },
    MarkStopped,
    Finish(Result<(), ErrorView>),
    Rejected,
}

impl View for StopAction {
    type V = StopActionView;

    open spec fn view(&self) -> StopActionView {
        match *self {
            StopAction::ListUnits => StopActionView::ListUnits,
            StopAction::Unload { plist_path } => StopActionView::Unload {
                plist_path: plist_path@,
            },
            StopAction::ReadState => StopActionView::ReadState,
            StopAction::Signal { pids } => StopActionView::Signal { pids: pids@ },
            StopAction::Settle { millis } => StopActionView::Settle { millis },
            StopAction::MarkStopped => StopActionView::MarkStopped,
            StopAction::Finish(Ok(_)) => StopActionView::Finish(Ok(())),
            StopAction::Finish(Err(error)) => StopActionView::Finish(Err(error@)),
            StopAction::Rejected => StopActionView::Rejected,
        }
    }
}

/// The failure that an account of signalling stands for: that of its first
/// failed attempt.
pub open spec fn stop_failure(formula: Seq<char>, trail: Seq<SignalAttemptView>) -> Option<
    ErrorView,
> {
    match first_failure(trail) {
        Some(i) => Some(
            ErrorView::ServiceFailedToStop {
                formula,
                pid: trail[i].pid,
                reason: trail[i].failure->0,
            },
        ),
        None => None,
    }
}

/// One step of stopping a service: the phase that follows `phase` on
/// `event`, and what the host is to do.
pub open spec fn stop_step(manager: ServiceManagerView, phase: StopPhase, event: StopEventView) -> (
    StopPhase,
    StopActionView,
) {
    match (phase, event) {
        (StopPhase::Idle, StopEventView::Begin) => (StopPhase::Listing, StopActionView::ListUnits),
        (StopPhase::Listing, StopEventView::Listed(listing)) => if occurs_in(
            managed_label(manager.formula()),
            listing,
        ) {
            (
                StopPhase::Unloading,
                StopActionView::Unload { plist_path: manager.service.formula_plist_path() },
            )
        } else {
            (StopPhase::ReadingState, StopActionView::ReadState)
        },
        (StopPhase::Unloading, StopEventView::Unloaded) => (
            StopPhase::ReadingState,
            StopActionView::ReadState,
        ),
        (StopPhase::ReadingState, StopEventView::StateRead(run)) => (
            StopPhase::Signalling,
            StopActionView::Signal { pids: run.pids },
        ),
        (StopPhase::Signalling, StopEventView::Signalled(trail)) => match stop_failure(
            manager.formula(),
            trail,
        ) {
            Some(error) => (StopPhase::Finished, StopActionView::Finish(Err(error))),
            None => (StopPhase::Settling, StopActionView::Settle { millis: GRACE_MILLIS }),
        },
        (StopPhase::Settling, StopEventView::Settled) => (
            StopPhase::Recording,
            StopActionView::MarkStopped,
        ),
        (StopPhase::Recording, StopEventView::Recorded) => (
            StopPhase::Finished,
            StopActionView::Finish(Ok(())),
        ),
        _ => (phase, StopActionView::Rejected),
    }
}

/// The actions that a start leads to, from `phase` on, as the host reports
/// `events` one after the other.
pub open spec fn start_trace(
    manager: ServiceManagerView,
    phase: StartPhase,
    events: Seq<StartEventView>,
) -> Seq<StartActionView>
    decreases events.len(),
{
    if events.len() == 0 {
        Seq::empty()
    } else {
        let next = start_step(manager, phase, events.first());
        seq![next.1] + start_trace(manager, next.0, events.drop_first())
    }
}

/// The actions that a stop leads to, from `phase` on, as the host reports
/// `events` one after the other.
pub open spec fn stop_trace(
    manager: ServiceManagerView,
    phase: StopPhase,
    events: Seq<StopEventView>,
) -> Seq<StopActionView>
    decreases events.len(),
{
    if events.len() == 0 {
        Seq::empty()
    } else {
        let next = stop_step(manager, phase, events.first());
        seq![next.1] + stop_trace(manager, next.0, events.drop_first())
    }
}

/// A start that is over stays over: whatever the host reports, nothing more
/// is asked of it.
pub proof fn lemma_start_is_final(manager: ServiceManagerView, events: Seq<StartEventView>)
    ensures
        start_trace(manager, StartPhase::Finished, events) == Seq::new(
            events.len(),
            |i: int| StartActionView::Rejected,
        ),
    decreases events.len(),
{
    if events.len() > 0 {
        lemma_start_is_final(manager, events.drop_first());
    }
}

/// A stop that is over stays over: whatever the host reports, nothing more
/// is asked of it.
pub proof fn lemma_stop_is_final(manager: ServiceManagerView, events: Seq<StopEventView>)
    ensures
        stop_trace(manager, StopPhase::Finished, events) == Seq::new(
            events.len(),
            |i: int| StopActionView::Rejected,
        ),
    decreases events.len(),
{
    if events.len() > 0 {
        lemma_stop_is_final(manager, events.drop_first());
    }
}

/// Starting is idempotent. Where the state that was read says that the
/// service is running, the start ends well at once; whatever the host
/// reports after that, no program is launched and no state is written.
pub proof fn lemma_running_service_is_not_started(
    manager: ServiceManagerView,
    run: RunState,
    later: Seq<StartEventView>,
)
    requires
        run.status == ServiceStatus::Running,
    ensures
        start_trace(
            manager,
            StartPhase::Idle,
            seq![StartEventView::Begin, StartEventView::StateRead(run)] + later,
        ) == seq![
            StartActionView::ReadState,
            StartActionView::Finish(Ok(StartOutcome::AlreadyRunning)),
        ] + Seq::new(later.len(), |i: int| StartActionView::Rejected),
{
    let events = seq![StartEventView::Begin, StartEventView::StateRead(run)] + later;
    let second = events.drop_first();
    assert(second.drop_first() =~= later);
    lemma_start_is_final(manager, later);
    assert(start_trace(manager, StartPhase::ReadingState, second) =~= seq![
        StartActionView::Finish(Ok(StartOutcome::AlreadyRunning)),
    ] + Seq::new(later.len(), |i: int| StartActionView::Rejected));
}

/// A program that has exited when it is polled makes the start fail with
/// the program's exit code; whatever the host reports after that, no state
/// is written.
pub proof fn lemma_early_exit_fails_the_start(
    manager: ServiceManagerView,
    code: Option<i32>,
    later: Seq<StartEventView>,
)
    ensures
        start_trace(
            manager,
            StartPhase::Settling,
            seq![StartEventView::Polled(ChildPoll::Exited { code })] + later,
        ) == seq![
            StartActionView::Finish(
                Err(
                    ErrorView::ServiceFailedToStart {
                        formula: manager.formula(),
                        code: reported_code(code),
                    },
                ),
            ),
        ] + Seq::new(later.len(), |i: int| StartActionView::Rejected),
{
    let events = seq![StartEventView::Polled(ChildPoll::Exited { code })] + later;
    assert(events.drop_first() =~= later);
    lemma_start_is_final(manager, later);
}

/// Stopping ends at the first failed delivery. An account of signalling the
/// recorded processes either covers them all without a failure, and the
/// stop goes on; or it ends with the one failed attempt, and the stop fails
/// with that process and reason, no later process having been touched.
pub proof fn lemma_stop_ends_at_first_failure(
    manager: ServiceManagerView,
    pids: Seq<i32>,
    trail: Seq<SignalAttemptView>,
)
    requires
        is_signal_trail(pids, trail),
    ensures
        match first_failure(trail) {
            Some(k) => {
                &&& k == trail.len() - 1
                &&& stop_step(manager, StopPhase::Signalling, StopEventView::Signalled(trail)) == (
                    StopPhase::Finished,
                    StopActionView::Finish(
                        Err(
                            ErrorView::ServiceFailedToStop {
                                formula: manager.formula(),
                                pid: pids[k],
                                reason: trail[k].failure->0,
                            },
                        ),
                    ),
                )
            },
            None => {
                &&& trail.len() == pids.len()
                &&& stop_step(manager, StopPhase::Signalling, StopEventView::Signalled(trail)) == (
                    StopPhase::Settling,
                    StopActionView::Settle { millis: GRACE_MILLIS },
                )
            },
        },
{
    lemma_first_failure(trail);
    match first_failure(trail) {
        Some(k) => {
            if k < trail.len() - 1 {
                assert(trail[k].failure is None);
            }
        },
        None => {
            if trail.len() < pids.len() {
                assert(trail[trail.len() - 1].failure is None);
            }
        },
    }
}

/// A start that meets no obstacle runs its steps in order: the state is
/// read, the program is looked for and launched as the manager's plan says,
/// it is polled after the grace interval, its processes are searched by the
/// binary's name, what the search found is recorded, and the start ends
/// well.
pub proof fn lemma_start_runs_in_order(manager: ServiceManagerView, run: RunState, pids: Seq<i32>)
    requires
        run.status != ServiceStatus::Running,
    ensures
        start_trace(
            manager,
            StartPhase::Idle,
            seq![
                StartEventView::Begin,
                StartEventView::StateRead(run),
                StartEventView::ProgramChecked(true),
                StartEventView::Launched,
                StartEventView::Polled(ChildPoll::Running),
                StartEventView::PidsFound(pids),
                StartEventView::Recorded,
            ],
        ) == seq![
            StartActionView::ReadState,
            StartActionView::CheckProgram { program: manager.launchd.program() },
            StartActionView::Launch(manager.launch_plan()),
            StartActionView::Poll { millis: GRACE_MILLIS },
            StartActionView::SearchPids { binary_name: manager.state.binary_name },
            StartActionView::Record { pids },
            StartActionView::Finish(Ok(StartOutcome::Started)),
        ],
{
    let e0 = seq![
        StartEventView::Begin,
        StartEventView::StateRead(run),
        StartEventView::ProgramChecked(true),
        StartEventView::Launched,
        StartEventView::Polled(ChildPoll::Running),
        StartEventView::PidsFound(pids),
        StartEventView::Recorded,
    ];
    let e1 = e0.drop_first();
    let e2 = e1.drop_first();
    let e3 = e2.drop_first();
    let e4 = e3.drop_first();
    let e5 = e4.drop_first();
    let e6 = e5.drop_first();
    let e7 = e6.drop_first();
    assert(start_trace(manager, StartPhase::Finished, e7) =~= Seq::<StartActionView>::empty());
    assert(start_trace(manager, StartPhase::Recording, e6) =~= seq![
        StartActionView::Finish(Ok(StartOutcome::Started)),
    ]);
    assert(start_trace(manager, StartPhase::Searching, e5) =~= seq![
        StartActionView::Record { pids },
        StartActionView::Finish(Ok(StartOutcome::Started)),
    ]);
    assert(start_trace(manager, StartPhase::Settling, e4) =~= seq![
        StartActionView::SearchPids { binary_name: manager.state.binary_name },
        StartActionView::Record { pids },
        StartActionView::Finish(Ok(StartOutcome::Started)),
    ]);
    assert(start_trace(manager, StartPhase::Launching, e3) =~= seq![
        StartActionView::Poll { millis: GRACE_MILLIS },
        StartActionView::SearchPids { binary_name: manager.state.binary_name },
        StartActionView::Record { pids },
        StartActionView::Finish(Ok(StartOutcome::Started)),
    ]);
    assert(start_trace(manager, StartPhase::CheckingProgram, e2) =~= seq![
        StartActionView::Launch(manager.launch_plan()),
        StartActionView::Poll { millis: GRACE_MILLIS },
        StartActionView::SearchPids { binary_name: manager.state.binary_name },
        StartActionView::Record { pids },
        StartActionView::Finish(Ok(StartOutcome::Started)),
    ]);
    assert(start_trace(manager, StartPhase::ReadingState, e1) =~= seq![
        StartActionView::CheckProgram { program: manager.launchd.program() },
        StartActionView::Launch(manager.launch_plan()),
        StartActionView::Poll { millis: GRACE_MILLIS },
        StartActionView::SearchPids { binary_name: manager.state.binary_name },
        StartActionView::Record { pids },
        StartActionView::Finish(Ok(StartOutcome::Started)),
    ]);
}

/// A stop that meets no obstacle runs its steps in order: the host's
/// service manager is asked for its units and, where the formula is among
/// them, to unload it; then the state is read, the processes it records are
/// signalled, and after the grace interval the service is marked as
/// stopped.
pub proof fn lemma_stop_runs_in_order(
    manager: ServiceManagerView,
    listing: Seq<char>,
    run: RunState,
    trail: Seq<SignalAttemptView>,
)
    requires
        first_failure(trail) is None,
    ensures
        occurs_in(managed_label(manager.formula()), listing) ==> stop_trace(
            manager,
            StopPhase::Idle,
            seq![
                StopEventView::Begin,
                StopEventView::Listed(listing),
                StopEventView::Unloaded,
                StopEventView::StateRead(run),
                StopEventView::Signalled(trail),
                StopEventView::Settled,
                StopEventView::Recorded,
            ],
        ) == seq![
            StopActionView::ListUnits,
            StopActionView::Unload { plist_path: manager.service.formula_plist_path() },
            StopActionView::ReadState,
            StopActionView::Signal { pids: run.pids },
            StopActionView::Settle { millis: GRACE_MILLIS },
            StopActionView::MarkStopped,
            StopActionView::Finish(Ok(())),
        ],
        !occurs_in(managed_label(manager.formula()), listing) ==> stop_trace(
            manager,
            StopPhase::Idle,
            seq![
                StopEventView::Begin,
                StopEventView::Listed(listing),
                StopEventView::StateRead(run),
                StopEventView::Signalled(trail),
                StopEventView::Settled,
                StopEventView::Recorded,
            ],
        ) == seq![
            StopActionView::ListUnits,
            StopActionView::ReadState,
            StopActionView::Signal { pids: run.pids },
            StopActionView::Settle { millis: GRACE_MILLIS },
            StopActionView::MarkStopped,
            StopActionView::Finish(Ok(())),
        ],
{
    let tail = seq![
        StopEventView::StateRead(run),
        StopEventView::Signalled(trail),
        StopEventView::Settled,
        StopEventView::Recorded,
    ];
    let t1 = tail.drop_first();
    let t2 = t1.drop_first();
    let t3 = t2.drop_first();
    let t4 = t3.drop_first();
    assert(stop_trace(manager, StopPhase::Finished, t4) =~= Seq::<StopActionView>::empty());
    assert(stop_trace(manager, StopPhase::Recording, t3) =~= seq![StopActionView::Finish(Ok(()))]);
    assert(stop_trace(manager, StopPhase::Settling, t2) =~= seq![
        StopActionView::MarkStopped,
        StopActionView::Finish(Ok(())),
    ]);
    assert(stop_trace(manager, StopPhase::Signalling, t1) =~= seq![
        StopActionView::Settle { millis: GRACE_MILLIS },
        StopActionView::MarkStopped,
        StopActionView::Finish(Ok(())),
    ]);
    let from_state = seq![
        StopActionView::Signal { pids: run.pids },
        StopActionView::Settle { millis: GRACE_MILLIS },
        StopActionView::MarkStopped,
        StopActionView::Finish(Ok(())),
    ];
    assert(stop_trace(manager, StopPhase::ReadingState, tail) =~= from_state);
    if occurs_in(managed_label(manager.formula()), listing) {
        let e0 = seq![
            StopEventView::Begin,
            StopEventView::Listed(listing),
            StopEventView::Unloaded,
            StopEventView::StateRead(run),
            StopEventView::Signalled(trail),
            StopEventView::Settled,
            StopEventView::Recorded,
        ];
        let e1 = e0.drop_first();
        let e2 = e1.drop_first();
        assert(e2.drop_first() =~= tail);
        assert(stop_trace(manager, StopPhase::Unloading, e2) =~= seq![StopActionView::ReadState]
            + from_state);
        assert(stop_trace(manager, StopPhase::Listing, e1) =~= seq![
            StopActionView::Unload { plist_path: manager.service.formula_plist_path() },
            StopActionView::ReadState,
        ] + from_state);
    } else {
        let e0 = seq![
            StopEventView::Begin,
            StopEventView::Listed(listing),
            StopEventView::StateRead(run),
            StopEventView::Signalled(trail),
            StopEventView::Settled,
            StopEventView::Recorded,
        ];
        let e1 = e0.drop_first();
        assert(e1.drop_first() =~= tail);
        assert(stop_trace(manager, StopPhase::Listing, e1) =~= seq![StopActionView::ReadState]
            + from_state);
    }
}

} // verus!
