//! The manager of one service: resolving its descriptor, starting it,
//! stopping it and reporting on it.

use vstd::prelude::*;
use vstd::string::*;

use crate::error::{Error, ErrorView};
use crate::launchd_config::{LaunchdConfig, LaunchdConfigView};
use crate::services::service_homebrew::{
    homebrew_plist_path, homebrew_resolution, ServiceHomebrew, ServiceHomebrewView,
};
use crate::services::service_log::{
    custom_paths, resolved_log_paths, LogConfig, ServiceLog, ServiceLogView,
};
use crate::services::service_state::{
    status_word, ServiceState, ServiceStateData, ServiceStateView, ServiceStatus,
};
use crate::services::service_user_agent::{
    agent_resolution, ServiceUserAgent, ServiceUserAgentView,
};
use crate::lifecycle::{
    start_step, stop_step, ChildPoll, LaunchPlan, LaunchPlanView, StartAction, StartEvent,
    StartOutcome, StartPhase, StopAction, StopEvent, StopPhase, GRACE_MILLIS,
};
use crate::signals::{attempts, first_failed, lemma_first_failure, SignalOutcome};
use crate::paths::{final_segment, parent_of};
use crate::text::{copy_texts, opt_text, texts};

verus! {

/// The width that a formula is padded to in a status line.
pub const NAME_WIDTH: usize = 20;

/// The width of the rule above and below a section's title.
pub const RULE_WIDTH: usize = 30;

/// Where a service's descriptor comes from.
#[derive(Debug)]
pub enum ServiceType {
    Homebrew(ServiceHomebrew),
    UserAgent(ServiceUserAgent),
}

/// A descriptor source as a mathematical value.
pub enum ServiceTypeView {
    Homebrew(ServiceHomebrewView),
    UserAgent(ServiceUserAgentView),
}

impl ServiceTypeView {
    pub open spec fn formula(self) -> Seq<char> {
        match self {
            ServiceTypeView::Homebrew(service) => service.formula,
            ServiceTypeView::UserAgent(service) => service.formula,
        }
    }

    pub open spec fn formula_plist_path(self) -> Seq<char> {
        match self {
            ServiceTypeView::Homebrew(service) => service.formula_plist_path,
            ServiceTypeView::UserAgent(service) => service.formula_plist_path,
        }
    }
}

impl View for ServiceType {
    type V = ServiceTypeView;

    open spec fn view(&self) -> ServiceTypeView {
        match *self {
            ServiceType::Homebrew(service) => ServiceTypeView::Homebrew(service@),
            ServiceType::UserAgent(service) => ServiceTypeView::UserAgent(service@),
        }
    }
}

impl ServiceType {
    pub fn formula(&self) -> (formula: &str)
        ensures
            formula@ == self@.formula(),
    {
        match self {
            ServiceType::Homebrew(svc) => svc.formula(),
            ServiceType::UserAgent(svc) => svc.formula(),
        }
    }

    pub fn formula_plist_path(&self) -> (path: &str)
        ensures
            path@ == self@.formula_plist_path(),
    {
        match self {
            ServiceType::Homebrew(svc) => svc.formula_plist_path(),
            ServiceType::UserAgent(svc) => svc.formula_plist_path(),
        }
    }
}

/// A package-managed service comes before a user agent of the same name:
/// where a formula has both, it resolves to the package-managed service.
pub proof fn lemma_package_manager_comes_first(
    formula: Seq<char>,
    agent_file: Seq<char>,
)
    ensures
        resolution(
            formula,
            homebrew_resolution(formula, true, true),
            agent_resolution(formula, Some(agent_file), true),
        ) == Ok::<ServiceTypeView, ErrorView>(
            ServiceTypeView::Homebrew(
                ServiceHomebrewView { formula, formula_plist_path: homebrew_plist_path(formula) },
            ),
        ),
{
}

/// Where the package manager has no service of the name, be it that the
/// formula is not installed or that it has no descriptor, the user's agent
/// of that name is the service; where there is none either, the formula is
/// not found.
pub proof fn lemma_user_agent_comes_second(
    formula: Seq<char>,
    installed: bool,
    has_plist: bool,
    agent: Option<ServiceUserAgentView>,
)
    requires
        !(installed && has_plist),
    ensures
        resolution(formula, homebrew_resolution(formula, installed, has_plist), agent) == match agent {
            Some(service) => Ok::<ServiceTypeView, ErrorView>(ServiceTypeView::UserAgent(service)),
            None => Err(ErrorView::FormulaNotFound { formula }),
        },
{
}

/// The source that a formula resolves to, given what each provider found.
/// The package manager's services come first: a user agent is looked at only
/// where the package manager has no service of that name, whatever the
/// reason.
pub open spec fn resolution(
    formula: Seq<char>,
    homebrew: Option<ServiceHomebrewView>,
    user_agent: Option<ServiceUserAgentView>,
) -> Result<ServiceTypeView, ErrorView> {
    match (homebrew, user_agent) {
        (Some(service), _) => Ok(ServiceTypeView::Homebrew(service)),
        (None, Some(service)) => Ok(ServiceTypeView::UserAgent(service)),
        (None, None) => Err(ErrorView::FormulaNotFound { formula }),
    }
}

/// What a provider found, as an optional mathematical value.
pub open spec fn found_homebrew(found: Result<ServiceHomebrew, Error>) -> Option<
    ServiceHomebrewView,
> {
    match found {
        Ok(service) => Some(service@),
        Err(_) => None,
    }
}

/// What a provider found, as an optional mathematical value.
pub open spec fn found_user_agent(found: Result<ServiceUserAgent, Error>) -> Option<
    ServiceUserAgentView,
> {
    match found {
        Ok(service) => Some(service@),
        Err(_) => None,
    }
}

/// The view of a resolution.
pub open spec fn resolved(result: Result<ServiceType, Error>) -> Result<ServiceTypeView, ErrorView> {
    match result {
        Ok(service) => Ok(service@),
        Err(error) => Err(error@),
    }
}

/// A manager as a mathematical value.
pub struct ServiceManagerView {
    pub service: ServiceTypeView,
    pub launchd: LaunchdConfigView,
    pub log: ServiceLogView,
    pub state: ServiceStateView,
}

impl ServiceManagerView {
    /// The formula that the manager is for.
    pub open spec fn formula(self) -> Seq<char> {
        self.service.formula()
    }

    /// How the service's program is launched: as the descriptor says, with
    /// its output going to the two logs, whose directories are made first.
    pub open spec fn launch_plan(self) -> LaunchPlanView {
        LaunchPlanView {
            program: self.launchd.program(),
            args: self.launchd.arguments(),
            working_directory: self.launchd.working_directory,
            stdout_dir: parent_of(self.log.stdout_path),
            stderr_dir: parent_of(self.log.stderr_path),
            stdout_path: self.log.stdout_path,
            stderr_path: self.log.stderr_path,
        }
    }

    /// The parts of a manager speak of one formula and of one program.
    pub open spec fn consistent(self) -> bool {
        &&& self.launchd.names_program()
        &&& self.log.formula == self.service.formula()
        &&& self.state.formula == self.service.formula()
        &&& self.state.binary_name == final_segment(self.launchd.program())
    }
}

/// `s`, with spaces after it up to `width` characters where it is shorter.
pub open spec fn padded(s: Seq<char>, width: nat) -> Seq<char> {
    if s.len() >= width {
        s
    } else {
        s + Seq::new((width - s.len()) as nat, |i: int| ' ')
    }
}

/// The line that reports a formula's status in a listing.
pub open spec fn state_row(formula: Seq<char>, status: ServiceStatus) -> Seq<char> {
    padded(formula, NAME_WIDTH as nat) + seq![' '] + status_word(status)
}

/// The sentence that reports whether a service is running.
pub open spec fn state_sentence(formula: Seq<char>, status: ServiceStatus) -> Seq<char> {
    if status == ServiceStatus::Running {
        "Service '"@ + formula + "' is running."@
    } else {
        "Service '"@ + formula + "' is not running."@
    }
}

/// A line of dashes.
pub open spec fn rule() -> Seq<char> {
    Seq::new(RULE_WIDTH as nat, |i: int| '-')
}

/// A section of the listing: its title between two rules, then its rows.
pub open spec fn section(title: Seq<char>, rows: Seq<Seq<char>>) -> Seq<Seq<char>> {
    seq![rule(), title, rule()] + rows
}

/// The rows of the formulas that have one, in their order.
pub open spec fn present_rows(rows: Seq<Option<String>>) -> Seq<Seq<char>> {
    rows.filter_map(|row: Option<String>| opt_text(row))
}

/// The listing of all services: the package manager's first, then the
/// user's agents. A formula without a row is left out, and so is the second
/// section where the user's agents could not be listed.
pub open spec fn listing(homebrew: Seq<Option<String>>, agents: Option<Seq<Option<String>>>) -> Seq<
    Seq<char>,
> {
    section("Homebrew service"@, present_rows(homebrew)) + match agents {
        Some(rows) => section("Service user agent"@, present_rows(rows)),
        None => Seq::empty(),
    }
}

/// The view of an optional list.
pub open spec fn opt_rows(rows: Option<&Vec<Option<String>>>) -> Option<Seq<Option<String>>> {
    match rows {
        Some(list) => Some(list@),
        None => None,
    }
}

/// The text of `count` repetitions of `unit`.
fn repeated(unit: &str, count: usize) -> (out: String)
    requires
        unit@.len() == 1,
    ensures
        out@ == Seq::new(count as nat, |i: int| unit@[0]),
{
    let mut out = String::new();
    let mut n: usize = 0;
    while n < count
        invariant
            n <= count,
            unit@.len() == 1,
            out@ == Seq::new(n as nat, |i: int| unit@[0]),
        decreases count - n,
    {
        out.append(unit);
        n += 1;
    }
    out
}

/// Appends the lines of one section to `lines`.
fn push_section(lines: &mut Vec<String>, title: &str, rows: &Vec<Option<String>>)
    ensures
        texts(final(lines)@) == texts(old(lines)@) + section(title@, present_rows(rows@)),
{
    proof {
        reveal_strlit("-");
    }
    let ghost start = texts(lines@);
    let ghost pick = |row: Option<String>| opt_text(row);
    lines.push(repeated("-", RULE_WIDTH));
    lines.push(String::from_str(title));
    lines.push(repeated("-", RULE_WIDTH));
    let mut i: usize = 0;
    while i < rows.len()
        invariant
            i <= rows.len(),
            pick == |row: Option<String>| opt_text(row),
            texts(lines@) == start + seq![rule(), title@, rule()] + rows@.take(i as int).filter_map(
                pick,
            ),
        decreases rows.len() - i,
    {
        proof {
            rows@.lemma_filter_map_take_succ(pick, i as int);
        }
        let ghost before = texts(lines@);
        match &rows[i] {
            Some(row) => {
                lines.push(row.clone());
                assert(texts(lines@) =~= before.push(row@));
            },
            None => {},
        }
        i += 1;
    }
    assert(rows@.take(i as int) =~= rows@);
}
/// One service with all that managing it needs: where its descriptor comes
/// from, the descriptor itself, its logs and the store of its run state.
pub struct ServiceManager {
    service: ServiceType,
    launchd: LaunchdConfig,
    log: ServiceLog,
    state: ServiceState,
}

impl View for ServiceManager {
    type V = ServiceManagerView;

    closed spec fn view(&self) -> ServiceManagerView {
        ServiceManagerView {
            service: self.service@,
            launchd: self.launchd@,
            log: self.log@,
            state: self.state@,
        }
    }
}

impl ServiceManager {
    /// Every manager is consistent.
    #[verifier::type_invariant]
    spec fn consistent(self) -> bool {
        self@.consistent()
    }

    /// Picks the source of `formula` from what the two providers found.
    pub fn resolve(
        formula: String,
        homebrew: Result<ServiceHomebrew, Error>,
        user_agent: Result<ServiceUserAgent, Error>,
    ) -> (service: Result<ServiceType, Error>)
        ensures
            resolved(service) == resolution(
                formula@,
                found_homebrew(homebrew),
                found_user_agent(user_agent),
            ),
    {
        if let Ok(homebrew) = homebrew {
            Ok(ServiceType::Homebrew(homebrew))
        } else if let Ok(user_agent) = user_agent {
            Ok(ServiceType::UserAgent(user_agent))
        } else {
            Err(Error::FormulaNotFound { formula })
        }
    }

    /// The manager of the service that `service` resolved and `launchd`
    /// describes. `home` is the user's home directory and `custom` the
    /// user's log override for the formula, if there is one.
    pub fn new(
        service: ServiceType,
        launchd: LaunchdConfig,
        home: &str,
        custom: Option<LogConfig>,
    ) -> (manager: Self)
        requires
            launchd@.names_program(),
        ensures
            manager@.consistent(),
            manager@.service == service@,
            manager@.launchd == launchd@,
            (manager@.log.stdout_path, manager@.log.stderr_path) == resolved_log_paths(
                home@,
                service@.formula(),
                custom_paths(custom),
                (launchd@.stdout_path, launchd@.stderr_path),
            ),
    {
        let log = ServiceLog::new(String::from_str(service.formula()), &launchd, home, custom);
        let state = ServiceState::new(String::from_str(service.formula()), &launchd);
        ServiceManager { service, launchd, log, state }
    }

    /// How the service's program is launched.
    pub fn launch_plan(&self) -> (plan: LaunchPlan)
        ensures
            plan@ == self@.launch_plan(),
    {
        proof {
            use_type_invariant(self);
        }
        let dirs = self.log.log_dirs();
        LaunchPlan {
            program: String::from_str(self.launchd.program()),
            args: copy_texts(self.launchd.args()),
            working_directory: String::from_str(self.launchd.working_directory()),
            stdout_dir: dirs.0,
            stderr_dir: dirs.1,
            stdout_path: String::from_str(self.log.stdout_path()),
            stderr_path: String::from_str(self.log.stderr_path()),
        }
    }

    /// One step of starting the service.
    pub fn start(&self, phase: StartPhase, event: StartEvent) -> (next: (StartPhase, StartAction))
        ensures
            (next.0, next.1@) == start_step(self@, phase, event@),
    {
        proof {
            use_type_invariant(self);
        }
        match (phase, event) {
            (StartPhase::Idle, StartEvent::Begin) => (StartPhase::ReadingState, StartAction::ReadState),
            (StartPhase::ReadingState, StartEvent::StateRead(state)) => {
                if *state.status() == ServiceStatus::Running {
                    (StartPhase::Finished, StartAction::Finish(Ok(StartOutcome::AlreadyRunning)))
                } else {
                    (
                        StartPhase::CheckingProgram,
                        StartAction::CheckProgram {
                            program: String::from_str(self.launchd.program()),
                        },
                    )
                }
            },
            (StartPhase::CheckingProgram, StartEvent::ProgramChecked(found)) => {
                if found {
                    (StartPhase::Launching, StartAction::Launch(self.launch_plan()))
                } else {
                    (
                        StartPhase::Finished,
                        StartAction::Finish(
                            Err(
                                Error::ProgramNotFound {
                                    formula: String::from_str(self.service.formula()),
                                    program: String::from_str(self.launchd.program()),
                                },
                            ),
                        ),
                    )
                }
            },
            (StartPhase::Launching, StartEvent::Launched) => (
                StartPhase::Settling,
                StartAction::Poll { millis: GRACE_MILLIS },
            ),
            (StartPhase::Settling, StartEvent::Polled(ChildPoll::Exited { code })) => {
                let code: i32 = match code {
                    Some(c) => c,
                    None => -1,
                };
                (
                    StartPhase::Finished,
                    StartAction::Finish(
                        Err(
                            Error::ServiceFailedToStart {
                                formula: String::from_str(self.service.formula()),
                                code,
                            },
                        ),
                    ),
                )
            },
            (StartPhase::Settling, StartEvent::Polled(ChildPoll::Running)) => (
                StartPhase::Searching,
                StartAction::SearchPids {
                    binary_name: String::from_str(self.state.binary_name()),
                },
            ),
            (StartPhase::Searching, StartEvent::PidsFound(pids)) => (
                StartPhase::Recording,
                StartAction::Record { pids },
            ),
            (StartPhase::Recording, StartEvent::Recorded) => (
                StartPhase::Finished,
                StartAction::Finish(Ok(StartOutcome::Started)),
            ),
            _ => (phase, StartAction::Rejected),
        }
    }

    /// One step of stopping the service.
    pub fn stop(&self, phase: StopPhase, event: StopEvent) -> (next: (StopPhase, StopAction))
        ensures
            (next.0, next.1@) == stop_step(self@, phase, event@),
    {
        proof {
            use_type_invariant(self);
        }
        match (phase, event) {
            (StopPhase::Idle, StopEvent::Begin) => (StopPhase::Listing, StopAction::ListUnits),
            (StopPhase::Listing, StopEvent::Listed(listing)) => {
                if self.state.is_managed_by_launchctl(listing.as_str()) {
                    (
                        StopPhase::Unloading,
                        StopAction::Unload {
                            plist_path: String::from_str(self.service.formula_plist_path()),
                        },
                    )
                } else {
                    (StopPhase::ReadingState, StopAction::ReadState)
                }
            },
            (StopPhase::Unloading, StopEvent::Unloaded) => (
                StopPhase::ReadingState,
                StopAction::ReadState,
            ),
            (StopPhase::ReadingState, StopEvent::StateRead(state)) => {
                let pids = state.duplicate_pids();
                (StopPhase::Signalling, StopAction::Signal { pids })
            },
            (StopPhase::Signalling, StopEvent::Signalled(trail)) => {
                match first_failed(&trail) {
                    Some(i) => {
                        let reason = match &trail[i].outcome {
                            SignalOutcome::Failed(reason) => reason.clone(),
                            _ => String::new(),
                        };
                        proof {
                            lemma_first_failure(attempts(trail@));
                        }
                        (
                            StopPhase::Finished,
                            StopAction::Finish(
                                Err(
                                    Error::ServiceFailedToStop {
                                        formula: String::from_str(self.service.formula()),
                                        pid: trail[i].pid,
                                        reason,
                                    },
                                ),
                            ),
                        )
                    },
                    None => (StopPhase::Settling, StopAction::Settle { millis: GRACE_MILLIS }),
                }
            },
            (StopPhase::Settling, StopEvent::Settled) => (
                StopPhase::Recording,
                StopAction::MarkStopped,
            ),
            (StopPhase::Recording, StopEvent::Recorded) => (
                StopPhase::Finished,
                StopAction::Finish(Ok(())),
            ),
            _ => (phase, StopAction::Rejected),
        }
    }

    /// The line that reports the service's status in a listing: the formula,
    /// padded to a column, and the status.
    pub fn state_line(&self, state: &ServiceStateData) -> (line: String)
        ensures
            line@ == state_row(self@.formula(), state@.status),
    {
        let formula = self.service.formula();
        let mut line = String::from_str(formula);
        let mut width: usize = formula.unicode_len();
        proof {
            reveal_strlit(" ");
        }
        while width < NAME_WIDTH
            invariant
                " "@ == seq![' '],
                formula@.len() <= width <= NAME_WIDTH || width == formula@.len(),
                line@ == formula@ + Seq::new((width - formula@.len()) as nat, |i: int| ' '),
            decreases NAME_WIDTH - width,
        {
            line.append(" ");
            width += 1;
        }
        line.append(" ");
        line.append(state.to_string().as_str());
        line
    }

    /// The lines of the listing of all services. `homebrew` holds, for each
    /// formula of the package manager in turn, its status line, and `None`
    /// for a formula that could not be resolved or read; `agents` the same
    /// for the user's agents, and `None` where they could not be listed.
    pub fn states(homebrew: &Vec<Option<String>>, agents: Option<&Vec<Option<String>>>) -> (lines:
        Vec<String>)
        ensures
            texts(lines@) == listing(homebrew@, opt_rows(agents)),
    {
        let mut lines: Vec<String> = Vec::new();
        push_section(&mut lines, "Homebrew service", homebrew);
        if let Some(rows) = agents {
            push_section(&mut lines, "Service user agent", rows);
        }
        lines
    }

    /// The sentence that reports whether the service is running. It is
    /// running where the recorded status says so: the processes themselves
    /// are not looked at.
    pub fn state(&self, state: &ServiceStateData) -> (sentence: String)
        ensures
            sentence@ == state_sentence(self@.formula(), state@.status),
    {
        let mut sentence = String::from_str("Service '");
        sentence.append(self.service.formula());
        if *state.status() == ServiceStatus::Running {
            sentence.append("' is running.");
        } else {
            sentence.append("' is not running.");
        }
        sentence
    }

    pub fn service(&self) -> (service: &ServiceType)
        ensures
            service@ == self@.service,
    {
        &self.service
    }

    /// The descriptor of the service.
    pub fn launchd(&self) -> (launchd: &LaunchdConfig)
        ensures
            launchd@ == self@.launchd,
            launchd@.names_program(),
    {
        proof {
            use_type_invariant(self);
        }
        &self.launchd
    }

    /// Where the service's output is logged.
    pub fn log(&self) -> (log: &ServiceLog)
        ensures
            log@ == self@.log,
    {
        &self.log
    }

    /// The store of the service's run state.
    pub fn state_store(&self) -> (store: &ServiceState)
        ensures
            store@ == self@.state,
    {
        &self.state
    }
}

} // verus!
