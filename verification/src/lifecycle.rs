//! The container lifecycle orchestrator.
//!
//! One container run walks a strictly forward state machine: create the
//! network namespace, clone the isolated process, apply resource limits,
//! wait for the child's exit, unmount the pseudo-filesystems, delete the
//! namespace. The orchestrator decides what to do next and how every
//! outcome changes the run's state; performing the steps — the system
//! calls — is the caller's job, which reports each result back as an
//! event.
//!
//! The teardown guarantees live here. Once the process was launched, the
//! unmount and namespace-delete steps always run, whatever happened to the
//! limiter or the wait; a limiter failure is recorded and the run proceeds
//! to waiting, since the already-running child must never be left orphaned.
//! A run only ends in `TornDown` when every acquired resource was released.

use vstd::prelude::*;
use crate::config::ContainerSpec;
use crate::errors::RuntimeError;
use crate::limits::ResourceLimits;
use crate::mounts::{make_mount_point, spec_mount_target, MOUNT_COUNT};

verus! {

/// Where the orchestrator stands: which step it is waiting to have
/// performed.
#[derive(Debug, Clone, Copy, PartialEq, Eq, Structural)]
pub enum Phase {
    /// The network namespace is to be created.
    AtCreate,
    /// The isolated process is to be cloned.
    AtLaunch,
    /// Resource limits are to be applied to the child.
    AtLimits,
    /// The child's exit is to be awaited.
    AtWait,
    /// The next pseudo-filesystem is to be unmounted.
    AtUnmount,
    /// The network namespace is to be deleted.
    AtDelete,
    /// The run is over.
    Done,
}

/// The observable state of the container, as the lifecycle defines it:
/// strictly forward, with two terminal states.
#[derive(Debug, Clone, Copy, PartialEq, Eq, Structural)]
pub enum ContainerState {
    Created,
    NetworkNsReady,
    ProcessLaunched,
    LimitsApplied,
    Exited,
    TornDown,
    FailedTeardown,
}

/// How a run ended.
#[derive(Debug, Clone, Copy, PartialEq, Eq)]
pub enum ExitOutcome {
    /// The entrypoint ran, exited with the reported status, and every
    /// resource was released.
    TornDown { exit_status: i32 },
    /// The namespace could not be created; nothing had been acquired.
    FailedAtNamespaceCreate,
    /// The process could not be cloned; the namespace cleanup ran.
    FailedAtLaunch,
    /// The limiter failed (for instance because the child had already
    /// exited); the run still waited for the child and tore everything
    /// down.
    FailedAtLimiting { exit_status: Option<i32> },
    /// Waiting for the child failed; teardown still ran.
    FailedAtWait,
    /// The entrypoint ran and exited with the reported status, but a mount
    /// stayed busy or the namespace delete failed.
    FailedTeardown { exit_status: i32 },
}

/// What the caller must perform next.
#[derive(Debug, Clone, Copy, PartialEq, Eq, Structural)]
pub enum Step {
    /// Create the network namespace named after the container id.
    CreateNamespace,
    /// Clone the isolated process with the child setup pipeline.
    LaunchProcess,
    /// Ask the backend to apply the resource limits to the child.
    ApplyLimits,
    /// Block until the child exits.
    AwaitChild,
    /// Unmount the `index`-th entry of the reverse-order teardown list.
    UnmountTarget { index: usize },
    /// Delete the network namespace.
    DeleteNamespace,
    /// Nothing; the run is over.
    Finished,
}

/// The reported result of a performed step.
#[derive(Debug, Clone, Copy, PartialEq, Eq, Structural)]
pub enum Event {
    /// The namespace was created.
    NamespaceCreated,
    /// The namespace could not be created.
    NamespaceCreateFailed,
    /// The clone returned this child pid to the parent.
    ProcessLaunched { pid: i32 },
    /// The clone failed; no child exists.
    LaunchFailed,
    /// The limiter accepted the request.
    LimitsApplied,
    /// The limiter failed or raced with an already-exited child.
    LimitsFailed,
    /// The child exited with this status.
    ChildExited { status: i32 },
    /// Waiting for the child failed.
    WaitFailed,
    /// The unmount succeeded.
    Unmounted,
    /// The target was not mounted; tolerated, nothing remains there.
    UnmountAbsent,
    /// The target is busy and stays mounted.
    UnmountBusy,
    /// The namespace was deleted.
    NamespaceDeleted,
    /// The namespace delete failed.
    NamespaceDeleteFailed,
}

/// The orchestrator's state, as contracts speak about it.
pub struct LifecycleModel {
    pub phase: Phase,
    pub launch_ok: bool,
    pub limiter_ok: bool,
    pub wait_ok: bool,
    pub ns_created: bool,
    pub ns_exists: bool,
    pub delete_attempted: bool,
    pub delete_ok: bool,
    pub unmount_idx: int,
    pub unmount_clean: bool,
    pub busy_idx: Option<int>,
    pub pid: Option<i32>,
    pub exit_status: Option<i32>,
    pub outcome: Option<ExitOutcome>,
}

/// The state a run starts in: nothing acquired, nothing failed.
pub open spec fn spec_initial_model() -> LifecycleModel {
    LifecycleModel {
        phase: Phase::AtCreate,
        launch_ok: false,
        limiter_ok: true,
        wait_ok: true,
        ns_created: false,
        ns_exists: false,
        delete_attempted: false,
        delete_ok: false,
        unmount_idx: 0,
        unmount_clean: true,
        busy_idx: None,
        pid: None,
        exit_status: None,
        outcome: None,
    }
}

/// Which events may be reported in which phase.
pub open spec fn event_permitted(m: LifecycleModel, ev: Event) -> bool {
    match m.phase {
        Phase::AtCreate => ev == Event::NamespaceCreated || ev == Event::NamespaceCreateFailed,
        Phase::AtLaunch => (ev matches Event::ProcessLaunched { .. }) || ev == Event::LaunchFailed,
        Phase::AtLimits => ev == Event::LimitsApplied || ev == Event::LimitsFailed,
        Phase::AtWait => (ev matches Event::ChildExited { .. }) || ev == Event::WaitFailed,
        Phase::AtUnmount => ev == Event::Unmounted || ev == Event::UnmountAbsent || ev
            == Event::UnmountBusy,
        Phase::AtDelete => ev == Event::NamespaceDeleted || ev == Event::NamespaceDeleteFailed,
        Phase::Done => false,
    }
}

/// How a finished run is classified. Launch and limiter failures dominate,
/// since they say where the run first went wrong; `TornDown` is reserved
/// for a run whose teardown was completely clean.
pub open spec fn decide_outcome(
    launch_ok: bool,
    limiter_ok: bool,
    wait_ok: bool,
    unmount_clean: bool,
    delete_ok: bool,
    exit_status: Option<i32>,
) -> ExitOutcome {
    if !launch_ok {
        ExitOutcome::FailedAtLaunch
    } else if !limiter_ok {
        ExitOutcome::FailedAtLimiting { exit_status }
    } else if !wait_ok {
        ExitOutcome::FailedAtWait
    } else {
        match exit_status {
            Some(s) => if unmount_clean && delete_ok {
                ExitOutcome::TornDown { exit_status: s }
            } else {
                ExitOutcome::FailedTeardown { exit_status: s }
            },
            None => ExitOutcome::FailedAtWait,
        }
    }
}

/// The transition relation of the lifecycle: how one reported event moves
/// the run forward. Events that are not permitted in the current phase
/// change nothing.
pub open spec fn spec_step(m: LifecycleModel, ev: Event) -> LifecycleModel {
    match m.phase {
        Phase::AtCreate => match ev {
            Event::NamespaceCreated => LifecycleModel {
                phase: Phase::AtLaunch,
                ns_created: true,
                ns_exists: true,
                ..m
            },
            Event::NamespaceCreateFailed => LifecycleModel {
                phase: Phase::Done,
                outcome: Some(ExitOutcome::FailedAtNamespaceCreate),
                ..m
            },
            _ => m,
        },
        Phase::AtLaunch => match ev {
            Event::ProcessLaunched { pid } => LifecycleModel {
                phase: Phase::AtLimits,
                launch_ok: true,
                pid: Some(pid),
                ..m
            },
            Event::LaunchFailed => LifecycleModel { phase: Phase::AtDelete, ..m },
            _ => m,
        },
        Phase::AtLimits => match ev {
            Event::LimitsApplied => LifecycleModel { phase: Phase::AtWait, ..m },
            Event::LimitsFailed => LifecycleModel { phase: Phase::AtWait, limiter_ok: false, ..m },
            _ => m,
        },
        Phase::AtWait => match ev {
            Event::ChildExited { status } => LifecycleModel {
                phase: Phase::AtUnmount,
                exit_status: Some(status),
                ..m
            },
            Event::WaitFailed => LifecycleModel { phase: Phase::AtUnmount, wait_ok: false, ..m },
            _ => m,
        },
        Phase::AtUnmount => match ev {
            Event::Unmounted | Event::UnmountAbsent => LifecycleModel {
                phase: if m.unmount_idx + 1 == MOUNT_COUNT {
                    Phase::AtDelete
                } else {
                    Phase::AtUnmount
                },
                unmount_idx: m.unmount_idx + 1,
                ..m
            },
            Event::UnmountBusy => LifecycleModel {
                phase: if m.unmount_idx + 1 == MOUNT_COUNT {
                    Phase::AtDelete
                } else {
                    Phase::AtUnmount
                },
                unmount_idx: m.unmount_idx + 1,
                unmount_clean: false,
                busy_idx: if m.busy_idx is Some {
                    m.busy_idx
                } else {
                    Some(m.unmount_idx)
                },
                ..m
            },
            _ => m,
        },
        Phase::AtDelete => match ev {
            Event::NamespaceDeleted => LifecycleModel {
                phase: Phase::Done,
                delete_attempted: true,
                delete_ok: true,
                ns_exists: false,
                outcome: Some(
                    decide_outcome(
                        m.launch_ok,
                        m.limiter_ok,
                        m.wait_ok,
                        m.unmount_clean,
                        true,
                        m.exit_status,
                    ),
                ),
                ..m
            },
            Event::NamespaceDeleteFailed => LifecycleModel {
                phase: Phase::Done,
                delete_attempted: true,
                delete_ok: false,
                outcome: Some(
                    decide_outcome(
                        m.launch_ok,
                        m.limiter_ok,
                        m.wait_ok,
                        m.unmount_clean,
                        false,
                        m.exit_status,
                    ),
                ),
                ..m
            },
            _ => m,
        },
        Phase::Done => m,
    }
}

/// What a finished run's outcome says about its state.
pub open spec fn outcome_consistent(m: LifecycleModel, o: ExitOutcome) -> bool {
    match o {
        ExitOutcome::FailedAtNamespaceCreate => !m.ns_created && !m.ns_exists && !m.launch_ok,
        ExitOutcome::FailedAtLaunch => m.ns_created && !m.launch_ok && m.delete_attempted
            && m.unmount_idx == 0,
        ExitOutcome::FailedAtLimiting { exit_status } => m.launch_ok && !m.limiter_ok
            && m.unmount_idx == MOUNT_COUNT && m.delete_attempted && exit_status == m.exit_status,
        ExitOutcome::FailedAtWait => m.launch_ok && m.limiter_ok && !m.wait_ok && m.unmount_idx
            == MOUNT_COUNT && m.delete_attempted,
        ExitOutcome::TornDown { exit_status } => m.launch_ok && m.limiter_ok && m.wait_ok
            && m.unmount_clean && m.delete_ok && !m.ns_exists && m.unmount_idx == MOUNT_COUNT
            && m.exit_status == Some(exit_status),
        ExitOutcome::FailedTeardown { exit_status } => m.launch_ok && m.limiter_ok && m.wait_ok && !(
        m.unmount_clean && m.delete_ok) && m.unmount_idx == MOUNT_COUNT && m.delete_attempted
            && m.exit_status == Some(exit_status),
    }
}

/// The orchestrator's invariant: every reachable state is consistent, and
/// a finished run's outcome tells the truth about what was released.
pub open spec fn model_inv(m: LifecycleModel) -> bool {
    &&& 0 <= m.unmount_idx <= MOUNT_COUNT
    &&& (m.busy_idx is Some <==> !m.unmount_clean)
    &&& match m.busy_idx {
        Some(k) => 0 <= k < m.unmount_idx,
        None => true,
    }
    &&& m.ns_exists ==> m.ns_created
    &&& m.delete_ok ==> m.delete_attempted && !m.ns_exists
    &&& m.delete_attempted ==> m.phase == Phase::Done
    &&& m.launch_ok ==> m.pid is Some && m.ns_created
    &&& (m.phase == Phase::Done <==> m.outcome is Some)
    &&& m.phase == Phase::AtCreate ==> m == LifecycleModel { phase: Phase::AtCreate, ..spec_initial_model() }
    &&& m.phase == Phase::AtLaunch ==> m.ns_created && m.ns_exists && !m.launch_ok && m.limiter_ok
        && m.wait_ok && m.unmount_clean && m.unmount_idx == 0 && m.exit_status is None
        && !m.delete_attempted && m.outcome is None
    &&& m.phase == Phase::AtLimits ==> m.ns_created && m.ns_exists && m.launch_ok && m.limiter_ok
        && m.wait_ok && m.unmount_clean && m.unmount_idx == 0 && m.exit_status is None
        && !m.delete_attempted && m.outcome is None
    &&& m.phase == Phase::AtWait ==> m.ns_created && m.ns_exists && m.launch_ok && m.wait_ok
        && m.unmount_clean && m.unmount_idx == 0 && m.exit_status is None && !m.delete_attempted
        && m.outcome is None
    &&& m.phase == Phase::AtUnmount ==> m.ns_created && m.ns_exists && m.launch_ok
        && m.unmount_idx < MOUNT_COUNT && (m.wait_ok ==> m.exit_status is Some)
        && !m.delete_attempted && m.outcome is None
    &&& m.phase == Phase::AtDelete ==> m.ns_created && m.ns_exists && !m.delete_attempted
        && m.outcome is None && (m.launch_ok ==> m.unmount_idx == MOUNT_COUNT && (m.wait_ok
        ==> m.exit_status is Some)) && (!m.launch_ok ==> m.unmount_idx == 0 && m.limiter_ok
        && m.wait_ok && m.unmount_clean && m.exit_status is None)
    &&& m.phase == Phase::Done ==> match m.outcome {
        Some(o) => outcome_consistent(m, o) && m.delete_attempted == m.ns_created,
        None => false,
    }
}

/// A run's acquired resources are all released: the namespace is gone, and
/// if a process was launched, every unmount step ran and none found its
/// target busy.
pub open spec fn spec_all_released(m: LifecycleModel) -> bool {
    &&& !m.ns_exists
    &&& m.launch_ok ==> m.unmount_idx == MOUNT_COUNT && m.unmount_clean
}

/// A run that ended in `TornDown` released everything: the namespace named
/// after the container id is no longer held, and no pseudo-filesystem
/// mount point remains mounted under the root.
pub proof fn lemma_torn_down_releases_everything(m: LifecycleModel)
    requires
        model_inv(m),
        m.outcome matches Some(ExitOutcome::TornDown { .. }),
    ensures
        spec_all_released(m),
        m.outcome matches Some(ExitOutcome::TornDown { exit_status }) ==> m.exit_status == Some(
            exit_status,
        ),
{
}

/// A limiter failure is soft: a run that ended in `FailedAtLimiting` still
/// launched the child, ran every unmount step, and attempted the namespace
/// delete — and wherever those teardown steps succeeded, the resources are
/// gone.
pub proof fn lemma_limiter_failure_still_tears_down(m: LifecycleModel)
    requires
        model_inv(m),
        m.outcome matches Some(ExitOutcome::FailedAtLimiting { .. }),
    ensures
        m.launch_ok,
        m.unmount_idx == MOUNT_COUNT,
        m.delete_attempted,
        m.delete_ok ==> !m.ns_exists,
        m.delete_ok && m.unmount_clean ==> spec_all_released(m),
{
}

/// How many events a run can still consume before it is over.
pub open spec fn steps_remaining(m: LifecycleModel) -> int {
    match m.phase {
        Phase::AtCreate => MOUNT_COUNT + 6,
        Phase::AtLaunch => MOUNT_COUNT + 5,
        Phase::AtLimits => MOUNT_COUNT + 4,
        Phase::AtWait => MOUNT_COUNT + 3,
        Phase::AtUnmount => (MOUNT_COUNT - m.unmount_idx) + 2,
        Phase::AtDelete => 1,
        Phase::Done => 0,
    }
}

/// The lifecycle is strictly forward: there is no pause and no resume, and
/// every permitted event brings the run closer to its end, so a driver that
/// performs steps and reports their results always terminates.
pub proof fn lemma_lifecycle_strictly_forward(m: LifecycleModel, ev: Event)
    requires
        model_inv(m),
        event_permitted(m, ev),
    ensures
        steps_remaining(spec_step(m, ev)) < steps_remaining(m),
        steps_remaining(spec_step(m, ev)) >= 0,
{
}

/// Whatever was acquired before a run finished, the matching release step
/// was attempted: a created namespace has its delete attempted, and a
/// launched process has all five unmount steps run.
pub proof fn lemma_every_acquired_resource_has_release_attempted(m: LifecycleModel)
    requires
        model_inv(m),
        m.phase == Phase::Done,
    ensures
        m.ns_created ==> m.delete_attempted,
        m.launch_ok ==> m.unmount_idx == MOUNT_COUNT,
{
    match m.outcome {
        Some(o) => {
            assert(outcome_consistent(m, o));
        },
        None => {},
    }
}

/// Sequences one container run: holds the launch description and limits,
/// tells the caller which step to perform next, and consumes the reported
/// events. Teardown is unconditional once the process was launched.
pub struct ContainerLifecycleOrchestrator {
    cfg: ContainerSpec,
    limits: ResourceLimits,
    phase: Phase,
    launch_ok: bool,
    limiter_ok: bool,
    wait_ok: bool,
    ns_created: bool,
    ns_exists: bool,
    delete_attempted: bool,
    delete_ok: bool,
    unmount_idx: usize,
    unmount_clean: bool,
    busy_idx: Option<usize>,
    pid: Option<i32>,
    exit_status: Option<i32>,
    outcome: Option<ExitOutcome>,
}

impl ContainerLifecycleOrchestrator {
    /// The launch description this run works on.
    pub closed spec fn spec_cfg(&self) -> ContainerSpec {
        self.cfg
    }

    /// The limits this run applies.
    pub closed spec fn spec_limits(&self) -> ResourceLimits {
        self.limits
    }

    /// The run's state, as every contract of this type speaks about it.
    pub closed spec fn model(&self) -> LifecycleModel {
        LifecycleModel {
            phase: self.phase,
            launch_ok: self.launch_ok,
            limiter_ok: self.limiter_ok,
            wait_ok: self.wait_ok,
            ns_created: self.ns_created,
            ns_exists: self.ns_exists,
            delete_attempted: self.delete_attempted,
            delete_ok: self.delete_ok,
            unmount_idx: self.unmount_idx as int,
            unmount_clean: self.unmount_clean,
            busy_idx: match self.busy_idx {
                Some(k) => Some(k as int),
                None => None,
            },
            pid: self.pid,
            exit_status: self.exit_status,
            outcome: self.outcome,
        }
    }

    /// The invariant of a reachable orchestrator.
    pub open spec fn inv(&self) -> bool {
        model_inv(self.model())
    }

    /// A run at its start: nothing acquired, waiting to create the
    /// namespace.
    pub fn new(cfg: ContainerSpec, limits: ResourceLimits) -> (o: Self)
        ensures
            o.inv(),
            o.model() == spec_initial_model(),
            o.spec_cfg() == cfg,
            o.spec_limits() == limits,
    {
        let o = ContainerLifecycleOrchestrator {
            cfg,
            limits,
            phase: Phase::AtCreate,
            launch_ok: false,
            limiter_ok: true,
            wait_ok: true,
            ns_created: false,
            ns_exists: false,
            delete_attempted: false,
            delete_ok: false,
            unmount_idx: 0,
            unmount_clean: true,
            busy_idx: None,
            pid: None,
            exit_status: None,
            outcome: None,
        };
        proof {
            assert(o.model() == spec_initial_model());
        }
        o
    }

    /// The step the caller must perform next.
    pub fn next_step(&self) -> (s: Step)
        ensures
            s == match self.model().phase {
                Phase::AtCreate => Step::CreateNamespace,
                Phase::AtLaunch => Step::LaunchProcess,
                Phase::AtLimits => Step::ApplyLimits,
                Phase::AtWait => Step::AwaitChild,
                Phase::AtUnmount => Step::UnmountTarget {
                    index: self.model().unmount_idx as usize,
                },
                Phase::AtDelete => Step::DeleteNamespace,
                Phase::Done => Step::Finished,
            },
    {
        match self.phase {
            Phase::AtCreate => Step::CreateNamespace,
            Phase::AtLaunch => Step::LaunchProcess,
            Phase::AtLimits => Step::ApplyLimits,
            Phase::AtWait => Step::AwaitChild,
            Phase::AtUnmount => Step::UnmountTarget { index: self.unmount_idx },
            Phase::AtDelete => Step::DeleteNamespace,
            Phase::Done => Step::Finished,
        }
    }

    /// Whether an event may be reported now.
    pub fn can_handle(&self, ev: &Event) -> (r: bool)
        ensures
            r == event_permitted(self.model(), *ev),
    {
        match self.phase {
            Phase::AtCreate => matches!(
                ev,
                Event::NamespaceCreated | Event::NamespaceCreateFailed
            ),
            Phase::AtLaunch => matches!(ev, Event::ProcessLaunched { .. } | Event::LaunchFailed),
            Phase::AtLimits => matches!(ev, Event::LimitsApplied | Event::LimitsFailed),
            Phase::AtWait => matches!(ev, Event::ChildExited { .. } | Event::WaitFailed),
            Phase::AtUnmount => matches!(
                ev,
                Event::Unmounted | Event::UnmountAbsent | Event::UnmountBusy
            ),
            Phase::AtDelete => matches!(
                ev,
                Event::NamespaceDeleted | Event::NamespaceDeleteFailed
            ),
            Phase::Done => false,
        }
    }

    /// Consumes the reported result of the step the run was waiting on, and
    /// moves the run forward exactly as the transition relation says.
    pub fn handle_event(&mut self, ev: Event)
        requires
            old(self).inv(),
            event_permitted(old(self).model(), ev),
        ensures
            final(self).inv(),
            final(self).model() == spec_step(old(self).model(), ev),
            final(self).spec_cfg() == old(self).spec_cfg(),
            final(self).spec_limits() == old(self).spec_limits(),
    {
        match self.phase {
            Phase::AtCreate => match ev {
                Event::NamespaceCreated => {
                    self.ns_created = true;
                    self.ns_exists = true;
                    self.phase = Phase::AtLaunch;
                },
                _ => {
                    self.outcome = Some(ExitOutcome::FailedAtNamespaceCreate);
                    self.phase = Phase::Done;
                },
            },
            Phase::AtLaunch => match ev {
                Event::ProcessLaunched { pid } => {
                    self.launch_ok = true;
                    self.pid = Some(pid);
                    self.phase = Phase::AtLimits;
                },
                _ => {
                    self.phase = Phase::AtDelete;
                },
            },
            Phase::AtLimits => match ev {
                Event::LimitsApplied => {
                    self.phase = Phase::AtWait;
                },
                _ => {
                    self.limiter_ok = false;
                    self.phase = Phase::AtWait;
                },
            },
            Phase::AtWait => match ev {
                Event::ChildExited { status } => {
                    self.exit_status = Some(status);
                    self.phase = Phase::AtUnmount;
                },
                _ => {
                    self.wait_ok = false;
                    self.phase = Phase::AtUnmount;
                },
            },
            Phase::AtUnmount => {
                match ev {
                    Event::UnmountBusy => {
                        if self.busy_idx.is_none() {
                            self.busy_idx = Some(self.unmount_idx);
                        }
                        self.unmount_clean = false;
                    },
                    _ => {},
                }
                self.unmount_idx = self.unmount_idx + 1;
                if self.unmount_idx == MOUNT_COUNT {
                    self.phase = Phase::AtDelete;
                }
            },
            Phase::AtDelete => {
                let delete_ok = matches!(ev, Event::NamespaceDeleted);
                self.delete_attempted = true;
                self.delete_ok = delete_ok;
                if delete_ok {
                    self.ns_exists = false;
                }
                let o: ExitOutcome;
                if !self.launch_ok {
                    o = ExitOutcome::FailedAtLaunch;
                } else if !self.limiter_ok {
                    o = ExitOutcome::FailedAtLimiting { exit_status: self.exit_status };
                } else if !self.wait_ok {
                    o = ExitOutcome::FailedAtWait;
                } else {
                    let s = self.exit_status.unwrap();
                    if self.unmount_clean && delete_ok {
                        o = ExitOutcome::TornDown { exit_status: s };
                    } else {
                        o = ExitOutcome::FailedTeardown { exit_status: s };
                    }
                }
                self.outcome = Some(o);
                self.phase = Phase::Done;
            },
            Phase::Done => {
                // no event is permitted once the run is over
            },
        }
    }

    /// The child pid the clone returned, once the launch succeeded.
    pub fn pid(&self) -> (p: Option<i32>)
        ensures
            p == self.model().pid,
    {
        self.pid
    }

    /// The child's captured exit status, once the wait succeeded.
    pub fn exit_status(&self) -> (s: Option<i32>)
        ensures
            s == self.model().exit_status,
    {
        self.exit_status
    }

    /// How the run ended, once it is over.
    pub fn outcome(&self) -> (o: Option<ExitOutcome>)
        ensures
            o == self.model().outcome,
    {
        self.outcome
    }

    /// The error kind a finished run reports, if any: the step the run
    /// first went wrong at, or — for a dirty teardown — the mount that
    /// stayed busy (named by its target), else the failed namespace
    /// delete. The child's own setup failures reach the parent only as the
    /// child's exit status, never as a typed error.
    pub fn fault(&self) -> (e: Option<RuntimeError>)
        requires
            self.inv(),
        ensures
            match self.model().outcome {
                None => e is None,
                Some(o) => match o {
                    ExitOutcome::TornDown { .. } => e is None,
                    ExitOutcome::FailedAtNamespaceCreate => e == Some(
                        RuntimeError::NamespaceCreateError,
                    ),
                    ExitOutcome::FailedAtLaunch => e == Some(RuntimeError::LaunchError),
                    ExitOutcome::FailedAtLimiting { .. } => e == Some(RuntimeError::LimiterError),
                    ExitOutcome::FailedAtWait => e == Some(RuntimeError::WaitError),
                    ExitOutcome::FailedTeardown { .. } => match (
                        self.model().unmount_clean,
                        self.model().busy_idx,
                    ) {
                        (false, Some(k)) => e matches Some(RuntimeError::UnmountError { target })
                            && target@ == spec_mount_target(
                            self.spec_cfg().root_path@,
                            MOUNT_COUNT - 1 - k,
                        ),
                        (false, None) => false,
                        (true, _) => e == Some(RuntimeError::NamespaceDeleteError),
                    },
                },
            },
    {
        match self.outcome {
            None => None,
            Some(o) => match o {
                ExitOutcome::TornDown { .. } => None,
                ExitOutcome::FailedAtNamespaceCreate => Some(RuntimeError::NamespaceCreateError),
                ExitOutcome::FailedAtLaunch => Some(RuntimeError::LaunchError),
                ExitOutcome::FailedAtLimiting { .. } => Some(RuntimeError::LimiterError),
                ExitOutcome::FailedAtWait => Some(RuntimeError::WaitError),
                ExitOutcome::FailedTeardown { .. } => {
                    if !self.unmount_clean {
                        let k = self.busy_idx.unwrap();
                        let m = make_mount_point(
                            self.cfg.root_path.as_str(),
                            MOUNT_COUNT - 1 - k,
                        );
                        Some(RuntimeError::UnmountError { target: m.target })
                    } else {
                        Some(RuntimeError::NamespaceDeleteError)
                    }
                },
            },
        }
    }

    /// The launch description, for performing the steps.
    pub fn cfg(&self) -> (c: &ContainerSpec)
        ensures
            *c == self.spec_cfg(),
    {
        &self.cfg
    }

    /// The limits of this run.
    pub fn limits(&self) -> (l: ResourceLimits)
        ensures
            l == self.spec_limits(),
    {
        self.limits
    }

    /// Whether the network namespace of this run is gone (or was never
    /// created).
    pub fn namespace_cleared(&self) -> (r: bool)
        ensures
            r == !self.model().ns_exists,
    {
        !self.ns_exists
    }

    /// Whether everything the run acquired was released.
    pub fn all_released(&self) -> (r: bool)
        ensures
            r == spec_all_released(self.model()),
    {
        !self.ns_exists && (!self.launch_ok || (self.unmount_idx == MOUNT_COUNT
            && self.unmount_clean))
    }

    /// The container's observable state: the last lifecycle state the run
    /// entered, or the terminal state it ended in.
    pub fn container_state(&self) -> (st: ContainerState)
        requires
            self.inv(),
        ensures
            st == spec_container_state(self.model()),
    {
        match self.phase {
            Phase::AtCreate => ContainerState::Created,
            Phase::AtLaunch => ContainerState::NetworkNsReady,
            Phase::AtLimits => ContainerState::ProcessLaunched,
            Phase::AtWait => if self.limiter_ok {
                ContainerState::LimitsApplied
            } else {
                ContainerState::ProcessLaunched
            },
            Phase::AtUnmount => ContainerState::Exited,
            Phase::AtDelete => if self.launch_ok {
                ContainerState::Exited
            } else {
                ContainerState::NetworkNsReady
            },
            Phase::Done => match self.outcome {
                Some(o) => match o {
                    ExitOutcome::TornDown { .. } => ContainerState::TornDown,
                    ExitOutcome::FailedAtNamespaceCreate => ContainerState::Created,
                    ExitOutcome::FailedAtLaunch => ContainerState::NetworkNsReady,
                    ExitOutcome::FailedAtLimiting { .. } => ContainerState::Exited,
                    ExitOutcome::FailedAtWait => ContainerState::LimitsApplied,
                    ExitOutcome::FailedTeardown { .. } => ContainerState::FailedTeardown,
                },
                None => ContainerState::Created,
            },
        }
    }
}

/// The observable state a model stands in.
pub open spec fn spec_container_state(m: LifecycleModel) -> ContainerState {
    match m.phase {
        Phase::AtCreate => ContainerState::Created,
        Phase::AtLaunch => ContainerState::NetworkNsReady,
        Phase::AtLimits => ContainerState::ProcessLaunched,
        Phase::AtWait => if m.limiter_ok {
            ContainerState::LimitsApplied
        } else {
            ContainerState::ProcessLaunched
        },
        Phase::AtUnmount => ContainerState::Exited,
        Phase::AtDelete => if m.launch_ok {
            ContainerState::Exited
        } else {
            ContainerState::NetworkNsReady
        },
        Phase::Done => match m.outcome {
            Some(o) => match o {
                ExitOutcome::TornDown { .. } => ContainerState::TornDown,
                ExitOutcome::FailedAtNamespaceCreate => ContainerState::Created,
                ExitOutcome::FailedAtLaunch => ContainerState::NetworkNsReady,
                ExitOutcome::FailedAtLimiting { .. } => ContainerState::Exited,
                ExitOutcome::FailedAtWait => ContainerState::LimitsApplied,
                ExitOutcome::FailedTeardown { .. } => ContainerState::FailedTeardown,
            },
            None => ContainerState::Created,
        },
    }
}

} // verus!
