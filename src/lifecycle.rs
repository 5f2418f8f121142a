use vstd::prelude::*;

verus! {

/// Interface used when none is named.
pub const DEFAULT_INTERFACE: &'static str = "eth0";

/// Name under which the classifier is loaded and attached.
pub const PROGRAM_NAME: &'static str = "tcfw";

/// Milliseconds between two reads of the keep-running flag.
pub const POLL_INTERVAL_MS: u64 = 500;

/// The interface to work on: the one given, else the default.
pub fn resolve_interface(given: Option<String>) -> (r: String)
    ensures
        r@ == match given {
            Some(s) => s@,
            None => DEFAULT_INTERFACE@,
        },
{
    match given {
        Some(s) => s,
        None => DEFAULT_INTERFACE.to_string(),
    }
}

/// Where the controller stands in its run.
#[derive(Clone, Copy, Debug, PartialEq, Eq, Structural)]
pub enum Phase {
    /// Nothing done yet.
    Init,
    /// Waiting for the outcome of adding the ingress qdisc.
    CreatingInfra,
    /// Waiting for the outcome of loading the program image.
    Loading,
    /// Waiting for the outcome of attaching to the ingress hook.
    Attaching,
    /// Waiting for the termination handler to be installed.
    InstallingHandler,
    /// Waiting for a read of the keep-running flag.
    Polling,
    /// Waiting for the poll interval to pass.
    Sleeping,
    /// Waiting for the outcome of the one detach attempt.
    Detaching,
    /// The run is over, with this exit disposition.
    Exited { success: bool },
}

/// What the outside world reports back to the controller.
#[derive(Clone, Copy, Debug, PartialEq, Eq, Structural)]
pub enum Event {
    /// The process started.
    Start,
    /// Adding the ingress qdisc succeeded or failed.
    InfraCreated { ok: bool },
    /// Loading the program image into the kernel succeeded or failed.
    Loaded { ok: bool },
    /// Attaching the program to the ingress hook succeeded or failed.
    Attached { ok: bool },
    /// The termination handler is in place.
    HandlerInstalled,
    /// The keep-running flag was read; `running` is false once the
    /// termination signal has arrived.
    Polled { running: bool },
    /// The poll interval has passed.
    Slept,
    /// Removing the program's attachment succeeded or failed.
    Detached { ok: bool },
}

/// What the controller asks the outside world to do next.
#[derive(Clone, Copy, Debug, PartialEq, Eq, Structural)]
pub enum Action {
    /// Add the ingress qdisc to the interface.
    CreateInfra,
    /// Load the program image; `warn_infra` asks first for a notice that
    /// adding the qdisc failed, most likely because it is already there.
    Load { warn_infra: bool },
    /// Attach the loaded program to the interface's ingress hook.
    Attach,
    /// Install the handler that clears the keep-running flag on the
    /// termination signal.
    InstallSignalHandler,
    /// Read the keep-running flag.
    Poll,
    /// Wait for one poll interval.
    Sleep,
    /// Remove this program's attachment from the ingress hook, leaving the
    /// qdisc in place.
    Detach,
    /// End the process with the given status; `warn_detach` asks first for
    /// a notice that the attachment may still be in place.
    Exit { success: bool, warn_detach: bool },
}

/// The events that answer the action a phase waits on.
pub open spec fn expects(p: Phase, e: Event) -> bool {
    match p {
        Phase::Init => e is Start,
        Phase::CreatingInfra => e is InfraCreated,
        Phase::Loading => e is Loaded,
        Phase::Attaching => e is Attached,
        Phase::InstallingHandler => e is HandlerInstalled,
        Phase::Polling => e is Polled,
        Phase::Sleeping => e is Slept,
        Phase::Detaching => e is Detached,
        Phase::Exited { .. } => false,
    }
}

/// The controller's decision: the next phase and the action to perform,
/// for an event that the phase expects.
pub open spec fn next(p: Phase, e: Event) -> (Phase, Action) {
    match e {
        Event::Start => (Phase::CreatingInfra, Action::CreateInfra),
        Event::InfraCreated { ok } => (Phase::Loading, Action::Load { warn_infra: !ok }),
        Event::Loaded { ok } => if ok {
            (Phase::Attaching, Action::Attach)
        } else {
            (Phase::Exited { success: false }, Action::Exit { success: false, warn_detach: false })
        },
        Event::Attached { ok } => if ok {
            (Phase::InstallingHandler, Action::InstallSignalHandler)
        } else {
            (Phase::Exited { success: false }, Action::Exit { success: false, warn_detach: false })
        },
        Event::HandlerInstalled => (Phase::Polling, Action::Poll),
        Event::Polled { running } => if running {
            (Phase::Sleeping, Action::Sleep)
        } else {
            (Phase::Detaching, Action::Detach)
        },
        Event::Slept => (Phase::Polling, Action::Poll),
        Event::Detached { ok } => (
            Phase::Exited { success: true },
            Action::Exit { success: true, warn_detach: !ok },
        ),
    }
}

/// The phase reached from `p` after the events `es`, in order.
pub open spec fn run(p: Phase, es: Seq<Event>) -> Phase
    decreases es.len(),
{
    if es.len() == 0 {
        p
    } else {
        next(run(p, es.drop_last()), es.last()).0
    }
}

/// Whether each event of `es` answers the action pending when it comes.
pub open spec fn valid_trace(p: Phase, es: Seq<Event>) -> bool
    decreases es.len(),
{
    if es.len() == 0 {
        true
    } else {
        valid_trace(p, es.drop_last()) && expects(run(p, es.drop_last()), es.last())
    }
}

/// The actions decided from `p` on the events `es`, one per event.
pub open spec fn trace_actions(p: Phase, es: Seq<Event>) -> Seq<Action>
    decreases es.len(),
{
    if es.len() == 0 {
        Seq::empty()
    } else {
        trace_actions(p, es.drop_last()).push(next(run(p, es.drop_last()), es.last()).1)
    }
}

/// The `i`-th event of a valid trace is expected in the phase reached before
/// it, and decides the `i`-th action and the phase that follows.
pub proof fn lemma_step_at(p: Phase, es: Seq<Event>, i: int)
    requires
        valid_trace(p, es),
        0 <= i < es.len(),
    ensures
        trace_actions(p, es).len() == es.len(),
        expects(run(p, es.take(i)), es[i]),
        trace_actions(p, es)[i] == next(run(p, es.take(i)), es[i]).1,
        run(p, es.take(i + 1)) == next(run(p, es.take(i)), es[i]).0,
    decreases es.len(),
{
    let init = es.drop_last();
    if i == es.len() - 1 {
        assert(es.take(i) =~= init);
        assert(es.take(i + 1) =~= es);
        lemma_actions_len(p, init);
    } else {
        lemma_step_at(p, init, i);
        assert(init.take(i) =~= es.take(i));
        assert(init.take(i + 1) =~= es.take(i + 1));
    }
}

/// One action per event.
pub proof fn lemma_actions_len(p: Phase, es: Seq<Event>)
    ensures
        trace_actions(p, es).len() == es.len(),
    decreases es.len(),
{
    if es.len() > 0 {
        lemma_actions_len(p, es.drop_last());
    }
}

/// Adding the ingress qdisc is advisory: whatever its outcome, including a
/// failure because the qdisc is already there, the run goes on to load the
/// program, with a notice exactly when adding failed.
pub proof fn lemma_infra_outcome_is_advisory(es: Seq<Event>, i: int, ok: bool)
    requires
        valid_trace(Phase::Init, es),
        0 <= i < es.len(),
        es[i] == (Event::InfraCreated { ok }),
    ensures
        trace_actions(Phase::Init, es)[i] == (Action::Load { warn_infra: !ok }),
        run(Phase::Init, es.take(i + 1)) == Phase::Loading,
{
    lemma_step_at(Phase::Init, es, i);
}

/// A detach is decided exactly at the read of the keep-running flag that sees
/// the termination signal, never before and never at another event; and at
/// most one detach is decided in a run.
pub proof fn lemma_detach_once_after_signal(es: Seq<Event>)
    requires
        valid_trace(Phase::Init, es),
    ensures
        forall|i: int|
            0 <= i < es.len() ==> (trace_actions(Phase::Init, es)[i] == Action::Detach <==> es[i]
                == (Event::Polled { running: false })),
        forall|i: int, j: int|
            0 <= i < j < es.len() ==> !(trace_actions(Phase::Init, es)[i] == Action::Detach
                && trace_actions(Phase::Init, es)[j] == Action::Detach),
{
    let p = Phase::Init;
    assert forall|i: int|
        0 <= i < es.len() implies (trace_actions(p, es)[i] == Action::Detach <==> es[i]
            == (Event::Polled { running: false })) by {
        lemma_step_at(p, es, i);
    }
    assert forall|i: int, j: int|
        0 <= i < j < es.len() implies !(trace_actions(p, es)[i] == Action::Detach
            && trace_actions(p, es)[j] == Action::Detach) by {
        lemma_step_at(p, es, i);
        lemma_step_at(p, es, j);
        if trace_actions(p, es)[i] == Action::Detach {
            lemma_step_at(p, es, i + 1);
            if j > i + 1 {
                lemma_step_at(p, es, i + 2);
            }
        }
    }
}

/// A run that ends with success has decided exactly one detach.
pub proof fn lemma_successful_run_detached(es: Seq<Event>)
    requires
        valid_trace(Phase::Init, es),
        run(Phase::Init, es) == (Phase::Exited { success: true }),
    ensures
        exists|i: int| 0 <= i < es.len() && trace_actions(Phase::Init, es)[i] == Action::Detach,
{
    let p = Phase::Init;
    let n = es.len() as int;
    assert(es.take(n) =~= es);
    lemma_step_at(p, es, n - 1);
    lemma_step_at(p, es, n - 2);
    assert(trace_actions(p, es)[n - 2] == Action::Detach);
}

/// A failed attach, for instance because the interface already carries this
/// program, ends the run with failure, and no detach is decided in it, so an
/// attachment already in place is left alone.
pub proof fn lemma_failed_attach_leaves_hook(es: Seq<Event>, i: int)
    requires
        valid_trace(Phase::Init, es),
        0 <= i < es.len(),
        es[i] == (Event::Attached { ok: false }),
    ensures
        run(Phase::Init, es) == (Phase::Exited { success: false }),
        forall|j: int| 0 <= j < es.len() ==> trace_actions(Phase::Init, es)[j] != Action::Detach,
{
    let p = Phase::Init;
    lemma_step_at(p, es, i);
    if i + 1 < es.len() {
        lemma_step_at(p, es, i + 1);
    }
    assert(es.take(i + 1) =~= es);
    assert forall|j: int| 0 <= j < es.len() implies trace_actions(p, es)[j] != Action::Detach by {
        lemma_step_at(p, es, j);
        if trace_actions(p, es)[j] == Action::Detach {
            lemma_step_at(p, es, j + 1);
            if j + 2 <= i {
                lemma_step_at(p, es, j + 2);
            }
        }
    }
}

/// Once the wait has ended, the outcome of the detach does not change the
/// exit disposition: the run ends with success, with a notice exactly when
/// the detach failed.
pub proof fn lemma_detach_outcome_keeps_success(es: Seq<Event>, i: int, ok: bool)
    requires
        valid_trace(Phase::Init, es),
        0 <= i < es.len(),
        es[i] == (Event::Detached { ok }),
    ensures
        trace_actions(Phase::Init, es)[i] == (Action::Exit { success: true, warn_detach: !ok }),
        run(Phase::Init, es) == (Phase::Exited { success: true }),
{
    let p = Phase::Init;
    lemma_step_at(p, es, i);
    if i + 1 < es.len() {
        lemma_step_at(p, es, i + 1);
    }
    assert(es.take(i + 1) =~= es);
}

/// A run ends with failure only when loading or attaching the program failed.
pub proof fn lemma_failure_only_at_startup(es: Seq<Event>)
    requires
        valid_trace(Phase::Init, es),
        run(Phase::Init, es) == (Phase::Exited { success: false }),
    ensures
        exists|i: int|
            0 <= i < es.len() && (es[i] == (Event::Loaded { ok: false }) || es[i] == (
            Event::Attached { ok: false })),
{
    let p = Phase::Init;
    let n = es.len() as int;
    assert(es.take(n) =~= es);
    lemma_step_at(p, es, n - 1);
}

/// The lifecycle controller: a pure decision procedure. The caller performs
/// each action it returns and hands back the event that reports the outcome.
pub struct Controller {
    pub phase: Phase,
}

impl Controller {
    /// A controller that has not started yet.
    pub fn new() -> (c: Controller)
        ensures
            c.phase == Phase::Init,
    {
        Controller { phase: Phase::Init }
    }

    /// Whether `e` answers the action the controller waits on.
    pub fn expects(&self, e: &Event) -> (r: bool)
        ensures
            r == expects(self.phase, *e),
    {
        match self.phase {
            Phase::Init => matches!(e, Event::Start),
            Phase::CreatingInfra => matches!(e, Event::InfraCreated { .. }),
            Phase::Loading => matches!(e, Event::Loaded { .. }),
            Phase::Attaching => matches!(e, Event::Attached { .. }),
            Phase::InstallingHandler => matches!(e, Event::HandlerInstalled),
            Phase::Polling => matches!(e, Event::Polled { .. }),
            Phase::Sleeping => matches!(e, Event::Slept),
            Phase::Detaching => matches!(e, Event::Detached { .. }),
            Phase::Exited { .. } => false,
        }
    }

    /// Whether the run is over.
    pub fn is_done(&self) -> (r: bool)
        ensures
            r == (self.phase is Exited),
    {
        matches!(self.phase, Phase::Exited { .. })
    }

    /// Takes the outcome of the last action and decides the next one.
    pub fn step(&mut self, e: Event) -> (a: Action)
        requires
            expects(old(self).phase, e),
        ensures
            (final(self).phase, a) == next(old(self).phase, e),
    {
        let (p, a) = match e {
            Event::Start => (Phase::CreatingInfra, Action::CreateInfra),
            Event::InfraCreated { ok } => (Phase::Loading, Action::Load { warn_infra: !ok }),
            Event::Loaded { ok } => if ok {
                (Phase::Attaching, Action::Attach)
            } else {
                (Phase::Exited { success: false }, Action::Exit { success: false, warn_detach: false })
            },
            Event::Attached { ok } => if ok {
                (Phase::InstallingHandler, Action::InstallSignalHandler)
            } else {
                (Phase::Exited { success: false }, Action::Exit { success: false, warn_detach: false })
            },
            Event::HandlerInstalled => (Phase::Polling, Action::Poll),
            Event::Polled { running } => if running {
                (Phase::Sleeping, Action::Sleep)
            } else {
                (Phase::Detaching, Action::Detach)
            },
            Event::Slept => (Phase::Polling, Action::Poll),
            Event::Detached { ok } => (
                Phase::Exited { success: true },
                Action::Exit { success: true, warn_detach: !ok },
            ),
        };
        self.phase = p;
        a
    }
}

} // verus!
