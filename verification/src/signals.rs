//! Asking the processes of a service to terminate.

use vstd::prelude::*;
use vstd::string::*;

verus! {

/// The error number of a failed system call.
#[verifier::external_type_specification]
#[verifier::external_body]
pub struct ExErrno(nix::errno::Errno);

/// What a process is sent.
#[derive(Debug, Clone, Copy, PartialEq, Eq, Structural)]
pub enum ProcessSignal {
    /// Nothing: only whether a signal could be sent is found out.
    Probe,
    /// The request to terminate.
    Terminate,
}

/// Calls `nix::sys::signal::kill` on the process `pid`, with no signal for
/// `Probe` and with `SIGTERM` for `Terminate`. What comes back depends on the
/// processes of the host at the time of the call, so nothing is claimed of it.
#[verifier::external_body]
fn send_signal(pid: i32, signal: ProcessSignal) -> (sent: Result<(), nix::errno::Errno>) {
    nix::sys::signal::kill(
        nix::unistd::Pid::from_raw(pid),
        match signal {
            ProcessSignal::Probe => None,
            ProcessSignal::Terminate => Some(nix::sys::signal::Signal::SIGTERM),
        },
    )
}

/// The operating system's description of an error number: the text of the
/// `std::io::Error` that nix converts it to. The wording is the host's, so
/// nothing is claimed of it.
#[verifier::external_body]
fn errno_reason(errno: nix::errno::Errno) -> (reason: String) {
    std::io::Error::from(errno).to_string()
}

/// What asking one process to terminate came to.
#[derive(Debug)]
pub enum SignalOutcome {
    /// The probe found no process to signal; nothing was sent.
    Gone,
    /// The process was there and the terminate signal was delivered.
    Delivered,
    /// The process was there and the terminate signal could not be
    /// delivered, for the reason given.
    Failed(String),
}

/// One process and what asking it to terminate came to.
#[derive(Debug)]
pub struct SignalAttempt {
    pub pid: i32,
    pub outcome: SignalOutcome,
}

/// An attempt as a mathematical value.
pub struct SignalAttemptView {
    pub pid: i32,
    /// The reason of a failed delivery; `None` where nothing failed.
    pub failure: Option<Seq<char>>,
    /// Whether the terminate signal was sent at all.
    pub signalled: bool,
}

impl View for SignalAttempt {
    type V = SignalAttemptView;

    open spec fn view(&self) -> SignalAttemptView {
        SignalAttemptView {
            pid: self.pid,
            failure: match self.outcome {
                SignalOutcome::Failed(reason) => Some(reason@),
                _ => None,
            },
            signalled: !(self.outcome is Gone),
        }
    }
}

/// The views of a list of attempts.
pub open spec fn attempts(trail: Seq<SignalAttempt>) -> Seq<SignalAttemptView> {
    trail.map_values(|attempt: SignalAttempt| attempt@)
}

/// `trail` is the account of one pass over `pids`: its attempts are for the
/// recorded processes in their recorded order, none but the last has
/// failed, and it ends before the last process only at a failure.
pub open spec fn is_signal_trail(pids: Seq<i32>, trail: Seq<SignalAttemptView>) -> bool {
    &&& trail.len() <= pids.len()
    &&& forall|i: int| 0 <= i < trail.len() ==> (#[trigger] trail[i]).pid == pids[i]
    &&& forall|i: int| 0 <= i < trail.len() - 1 ==> (#[trigger] trail[i]).failure is None
    &&& trail.len() < pids.len() ==> trail.len() > 0 && trail.last().failure is Some
}

/// The first attempt of `trail` that failed, by its index.
pub open spec fn first_failure(trail: Seq<SignalAttemptView>) -> Option<int>
    decreases trail.len(),
{
    if trail.len() == 0 {
        None
    } else {
        match first_failure(trail.drop_last()) {
            Some(i) => Some(i),
            None => if trail.last().failure is Some {
                Some(trail.len() - 1)
            } else {
                None
            },
        }
    }
}

/// The first failure is the least index of a failed attempt.
pub proof fn lemma_first_failure(trail: Seq<SignalAttemptView>)
    ensures
        match first_failure(trail) {
            Some(i) => 0 <= i < trail.len() && trail[i].failure is Some && forall|j: int|
                0 <= j < i ==> (#[trigger] trail[j]).failure is None,
            None => forall|j: int| 0 <= j < trail.len() ==> (#[trigger] trail[j]).failure is None,
        },
    decreases trail.len(),
{
    if trail.len() > 0 {
        let front = trail.drop_last();
        lemma_first_failure(front);
        match first_failure(front) {
            Some(i) => {
                assert forall|j: int| 0 <= j < i implies (#[trigger] trail[j]).failure is None by {
                    assert(trail[j] == front[j]);
                }
            },
            None => {
                assert forall|j: int| 0 <= j < trail.len() - 1 implies (
                #[trigger] trail[j]).failure is None by {
                    assert(trail[j] == front[j]);
                }
            },
        }
    }
}

/// The first failed attempt of an account, if any.
pub fn first_failed(trail: &Vec<SignalAttempt>) -> (found: Option<usize>)
    ensures
        match first_failure(attempts(trail@)) {
            Some(i) => found == Some(i as usize) && 0 <= i < trail.len(),
            None => found is None,
        },
{
    let ghost views = attempts(trail@);
    let mut i: usize = 0;
    while i < trail.len()
        invariant
            i <= trail.len(),
            views == attempts(trail@),
            first_failure(views.take(i as int)) is None,
        decreases trail.len() - i,
    {
        let ghost next = views.take(i + 1);
        assert(next.drop_last() =~= views.take(i as int));
        match &trail[i].outcome {
            SignalOutcome::Failed(_) => {
                proof {
                    lemma_failure_stays(views, i + 1);
                }
                return Some(i);
            },
            _ => {},
        }
        i += 1;
    }
    assert(views.take(i as int) =~= views);
    None
}

/// A failure among the first attempts of an account is the account's first
/// failure.
proof fn lemma_failure_stays(trail: Seq<SignalAttemptView>, n: int)
    requires
        0 <= n <= trail.len(),
        first_failure(trail.take(n)) is Some,
    ensures
        first_failure(trail) == first_failure(trail.take(n)),
    decreases trail.len() - n,
{
    if n == trail.len() {
        assert(trail.take(n) =~= trail);
    } else {
        assert(trail.take(n + 1).drop_last() =~= trail.take(n));
        lemma_failure_stays(trail, n + 1);
    }
}

/// Asks the processes `pids` to terminate, one after the other in the order
/// given. A process that the probe does not find is passed over. The pass
/// ends at the first process that is there and cannot be signalled: the
/// processes after it are not touched.
pub fn signal_all(pids: &[i32]) -> (trail: Vec<SignalAttempt>)
    ensures
        is_signal_trail(pids@, attempts(trail@)),
{
    let mut trail: Vec<SignalAttempt> = Vec::new();
    let mut i: usize = 0;
    while i < pids.len()
        invariant
            i <= pids.len(),
            trail.len() == i,
            forall|k: int| 0 <= k < i ==> (#[trigger] trail@[k]).pid == pids@[k],
            forall|k: int| 0 <= k < i ==> !((#[trigger] trail@[k]).outcome is Failed),
        decreases pids.len() - i,
    {
        let pid = pids[i];
        if send_signal(pid, ProcessSignal::Probe).is_err() {
            trail.push(SignalAttempt { pid, outcome: SignalOutcome::Gone });
        } else {
            match send_signal(pid, ProcessSignal::Terminate) {
                Ok(_) => {
                    trail.push(SignalAttempt { pid, outcome: SignalOutcome::Delivered });
                },
                Err(errno) => {
                    let reason = errno_reason(errno);
                    trail.push(SignalAttempt { pid, outcome: SignalOutcome::Failed(reason) });
                    return trail;
                },
            }
        }
        i += 1;
    }
    trail
}

} // verus!
