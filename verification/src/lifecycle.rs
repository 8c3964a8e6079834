//! The service lifecycle: the start/stop state machine that owns the worker
//! protocol. The worker thread itself, the shared atomic flag and the IPC
//! endpoint are outside collaborators; this module is the decision core they
//! drive. Every transition is a total function of the current state, so the
//! embedding loop has nothing to decide on its own:
//!
//! - `start` admits a worker only from `Stopped` and moves to `Starting`;
//!   the embedding then spawns the worker, which registers with the
//!   endpoint and reports back through `worker_ready`.
//! - `stop` moves to `Stopping` only while a worker exists, and tells the
//!   embedding to clear the shared liveness flag, interrupt the endpoint's
//!   blocking wait, and join the worker; `worker_joined` closes the cycle.
//! - `worker_step` is the worker's loop condition: it continues exactly
//!   while the liveness flag is true, whatever the last dispatch did, so a
//!   cleared flag plus one wake-up bounds the time `stop` can wait.

use vstd::prelude::*;

use crate::device::LedStrip;
use crate::fault::Fault;
use crate::service::BlinkService;

verus! {

/// The lifecycle states. `Stopped` is both initial and terminal; a stopped
/// service may be started again.
#[derive(Clone, Copy, PartialEq, Eq, Structural, Debug)]
pub enum ServiceState {
    /// No worker exists: never started, or fully stopped after a join.
    Stopped,
    /// A worker is being spawned and has not yet registered.
    Starting,
    /// The worker has registered and serves calls; the liveness flag is true.
    Running,
    /// `stop` has cleared the liveness flag; the join is not complete yet.
    Stopping,
}

/// What the worker reports once its registration attempt is over.
#[derive(Clone, Copy, PartialEq, Eq, Structural, Debug)]
pub enum StartOutcome {
    /// Name registered and call handler published; the loop is serving.
    Ready,
    /// The endpoint refused the service name.
    RegistrationFailed,
    /// The endpoint refused the call handler object.
    PublishFailed,
}

/// What one pass of the worker's loop just observed: the endpoint's
/// blocking wait returned after a handled call, after a per-call dispatch
/// error, or because `stop` interrupted the wait.
#[derive(Clone, Copy, PartialEq, Eq, Structural, Debug)]
pub enum WorkerEvent {
    /// One call was received and answered.
    CallHandled,
    /// The endpoint reported a dispatch error; it is logged and recovered.
    DispatchFailed,
    /// The blocking wait was interrupted by the stop protocol's wake-up.
    WakeSignal,
}

/// The worker's decision after one pass of its loop.
#[derive(Clone, Copy, PartialEq, Eq, Structural, Debug)]
pub enum LoopDecision {
    /// Block on the endpoint for the next call.
    Continue,
    /// Leave the loop so the pending join can complete.
    Exit,
}

/// Whether `start` admits a new worker in state `s`.
pub open spec fn start_allowed(s: ServiceState) -> bool {
    s == ServiceState::Stopped
}

/// The state after a `start` call: `Starting` where one is admitted,
/// unchanged where it is refused.
pub open spec fn after_start(s: ServiceState) -> ServiceState {
    if start_allowed(s) {
        ServiceState::Starting
    } else {
        s
    }
}

/// Whether `stop` has a worker to stop in state `s`. A stop already in
/// progress has no worker left to claim.
pub open spec fn stop_allowed(s: ServiceState) -> bool {
    s == ServiceState::Starting || s == ServiceState::Running
}

/// The state after a `stop` call: `Stopping` where a worker exists,
/// unchanged where the call is refused.
pub open spec fn after_stop(s: ServiceState) -> ServiceState {
    if stop_allowed(s) {
        ServiceState::Stopping
    } else {
        s
    }
}

/// The intended value of the shared liveness flag in state `s`: true
/// exactly while the worker serves calls. The worker flips it true on
/// becoming ready; `stop` clears it before waking and joining the worker.
pub open spec fn alive_of(s: ServiceState) -> bool {
    s == ServiceState::Running
}

/// Whether a worker exists in state `s`: from the moment `start` admits
/// one until the join after `stop` completes.
pub open spec fn worker_of(s: ServiceState) -> bool {
    s != ServiceState::Stopped
}

/// The worker's loop condition: continue exactly while the liveness flag
/// reads true. No event — a handled call, a recovered dispatch error, or a
/// wake-up — keeps the loop alive once the flag is cleared, and none ends
/// it while the flag is set.
pub open spec fn continues(alive: bool) -> bool {
    alive
}

/// The service lifecycle handle: one running-or-stopped instance. The
/// worker execution unit and the shared atomic flag live with the
/// embedding; their owner is this state machine, whose state says whether
/// a worker exists (`worker_of`) and what the flag must read (`alive_of`).
pub struct BlinkDbusService {
    state: ServiceState,
}

impl View for BlinkDbusService {
    type V = ServiceState;

    closed spec fn view(&self) -> ServiceState {
        self.state
    }
}

impl BlinkDbusService {
    /// A fresh instance: stopped, no worker, liveness flag false.
    pub fn new() -> (s: Self)
        ensures
            s@ == ServiceState::Stopped,
    {
        BlinkDbusService { state: ServiceState::Stopped }
    }

    /// The current lifecycle state.
    pub fn state(&self) -> (s: ServiceState)
        ensures
            s == self@,
    {
        self.state
    }

    /// Admits a new worker, taking ownership of the device capability.
    /// Succeeds exactly from `Stopped`, moving to `Starting` and handing
    /// back the constructed controller-and-dispatcher, which the embedding
    /// must move into the worker it spawns; the worker then reports its
    /// registration outcome through `worker_ready` before the service may
    /// be treated as reachable. From any other state the call fails with
    /// `AlreadyRunning`, changes nothing, and returns the capability.
    pub fn start<T: LedStrip>(&mut self, leds: T) -> (res: Result<BlinkService<T>, (Fault, T)>)
        ensures
            final(self)@ == after_start(old(self)@),
            res is Ok <==> start_allowed(old(self)@),
            res is Ok ==> worker_of(final(self)@) && !alive_of(final(self)@),
            res matches Ok(c) ==> ((c.inv() <==> leds.inv()) && c.pixels() == leds.pixels()
                && c.global() == leds.global() && c.sent() == leds.sent()),
            res matches Err(e) ==> (e.0 == Fault::AlreadyRunning && e.1 == leds),
    {
        match self.state {
            ServiceState::Stopped => {
                self.state = ServiceState::Starting;
                Ok(BlinkService::new(leds))
            },
            _ => Err((Fault::AlreadyRunning, leds)),
        }
    }

    /// Records what the spawned worker reported. On `Ready` the service is
    /// `Running` — only now may `start`'s caller be told the service is
    /// reachable. A registration or publish failure is surfaced as the
    /// matching fault, never swallowed, and the service returns to
    /// `Stopped` once the failed worker is joined by the embedding.
    pub fn worker_ready(&mut self, outcome: StartOutcome) -> (res: Result<(), Fault>)
        requires
            old(self)@ == ServiceState::Starting,
        ensures
            outcome == StartOutcome::Ready ==> res is Ok && final(self)@ == ServiceState::Running,
            outcome == StartOutcome::RegistrationFailed ==> res == Result::<(), Fault>::Err(
                Fault::RegistrationError,
            ) && final(self)@ == ServiceState::Stopped,
            outcome == StartOutcome::PublishFailed ==> res == Result::<(), Fault>::Err(
                Fault::PublishError,
            ) && final(self)@ == ServiceState::Stopped,
    {
        match outcome {
            StartOutcome::Ready => {
                self.state = ServiceState::Running;
                Ok(())
            },
            StartOutcome::RegistrationFailed => {
                self.state = ServiceState::Stopped;
                Err(Fault::RegistrationError)
            },
            StartOutcome::PublishFailed => {
                self.state = ServiceState::Stopped;
                Err(Fault::PublishError)
            },
        }
    }

    /// Claims the worker for shutdown. Succeeds exactly while a worker
    /// exists and no stop is already in progress, moving to `Stopping`;
    /// otherwise it fails with `NotRunning` and changes nothing. On
    /// success the embedding must clear the shared liveness flag — the
    /// new state's `alive_of` is false — interrupt the endpoint's blocking
    /// wait, join the worker, and then call `worker_joined`.
    pub fn stop(&mut self) -> (res: Result<(), Fault>)
        ensures
            final(self)@ == after_stop(old(self)@),
            res is Ok <==> stop_allowed(old(self)@),
            res is Err ==> res == Result::<(), Fault>::Err(Fault::NotRunning),
            res is Ok ==> worker_of(final(self)@) && !alive_of(final(self)@),
    {
        match self.state {
            ServiceState::Starting | ServiceState::Running => {
                self.state = ServiceState::Stopping;
                Ok(())
            },
            _ => Err(Fault::NotRunning),
        }
    }

    /// Records that the worker has fully exited and was joined; the
    /// execution unit is released and the instance may be started again.
    pub fn worker_joined(&mut self)
        requires
            old(self)@ == ServiceState::Stopping,
        ensures
            final(self)@ == ServiceState::Stopped,
            !worker_of(final(self)@),
    {
        self.state = ServiceState::Stopped;
    }
}

/// One pass of the worker's loop: after the endpoint's blocking wait
/// returns with `event`, the worker reads the liveness flag as `alive` and
/// decides. It continues exactly while the flag is true; a dispatch error
/// is recovered, and only the cleared flag ends the loop.
#[allow(unused_variables)]
pub fn worker_step(alive: bool, event: WorkerEvent) -> (d: LoopDecision)
    ensures
        d == LoopDecision::Continue <==> continues(alive),
{
    if alive {
        LoopDecision::Continue
    } else {
        LoopDecision::Exit
    }
}

/// Stopping is answered within bounded time even if no call ever arrives:
/// a granted `stop` leaves the liveness flag false, and with the flag
/// false the worker's next loop check exits, whatever the interrupted
/// wait returned — so the join `stop` waits for needs only the stop
/// protocol's own wake-up, never a caller's message.
pub proof fn lemma_stop_halts_worker(s: ServiceState)
    requires
        stop_allowed(s),
    ensures
        !alive_of(after_stop(s)),
        !continues(alive_of(after_stop(s))),
{
}

/// Starting twice without an intervening stop fails: a granted `start`
/// leaves a state — and `worker_ready` keeps a worker in existence — from
/// which `start` is refused with `AlreadyRunning` until the worker is
/// stopped and joined.
pub proof fn lemma_second_start_refused(s: ServiceState)
    requires
        worker_of(s),
    ensures
        !start_allowed(s),
        !start_allowed(after_start(s)),
{
}

/// Stopping before any start fails: in the initial state no worker exists,
/// so `stop` is refused with `NotRunning` and the state does not change.
pub proof fn lemma_stop_needs_worker()
    ensures
        !stop_allowed(ServiceState::Stopped),
        after_stop(ServiceState::Stopped) == ServiceState::Stopped,
{
}

} // verus!
