//! The isolated process: the namespace flags and stack size it is cloned
//! with, and the setup pipeline it runs before handing itself over to the
//! entrypoint.
//!
//! The new process is cloned into fresh mount, pid, UTS and IPC namespaces.
//! Network isolation is deliberately not in the clone flag set: the child
//! instead joins the pre-created network namespace by path, so that the
//! network namespace's lifetime stays decoupled from the process's. Before
//! anything else the child must join that namespace, set its hostname,
//! change its root and working directory, mount the pseudo-filesystems, and
//! exec the entrypoint with the entrypoint path as its only argument. A
//! failure at any step must terminate the process with that step's own
//! non-zero status — returning into launcher code from a half-isolated
//! process is never allowed — and the exit status is the only channel
//! through which the parent learns of child-side failures.

use vstd::prelude::*;
use crate::config::ContainerSpec;
use crate::mounts::{
    is_mount_point,
    make_mount_point,
    MountPoint,
    MOUNT_COUNT,
};
use crate::netns::NetworkNamespaceHandle;

verus! {

/// The size of the private stack the child is cloned with. The parent owns
/// the stack region and must keep it alive for the child's whole lifetime.
pub const CONTAINER_STACK_SIZE: usize = 1024 * 1024;

/// Which fresh namespaces the child is cloned into.
#[derive(Debug, Clone, Copy, PartialEq, Eq, Structural)]
pub struct NamespaceFlags {
    pub new_mount: bool,
    pub new_pid: bool,
    pub new_uts: bool,
    pub new_ipc: bool,
    pub new_network: bool,
}

/// The flag set a container child is cloned with: fresh mount, pid, UTS and
/// IPC namespaces, and no fresh network namespace — the child joins the
/// pre-created one instead.
pub fn clone_namespace_flags() -> (f: NamespaceFlags)
    ensures
        f.new_mount,
        f.new_pid,
        f.new_uts,
        f.new_ipc,
        !f.new_network,
{
    NamespaceFlags {
        new_mount: true,
        new_pid: true,
        new_uts: true,
        new_ipc: true,
        new_network: false,
    }
}

/// One step of the child's setup pipeline.
#[derive(Debug, Clone)]
pub enum ChildAction {
    /// Join the network namespace discoverable at `path`.
    JoinNetworkNamespace { path: String },
    /// Set the container's hostname.
    SetHostname { hostname: String },
    /// Change the filesystem root to `root_path` and the working directory
    /// to `/`.
    ChangeRoot { root_path: String },
    /// Mount the `index`-th pseudo-filesystem of the plan; the target is
    /// relative to the already-changed root.
    MountPseudoFs { index: usize, mount: MountPoint },
    /// Replace the process image with the entrypoint, passing the
    /// entrypoint path as the only argument.
    ExecEntrypoint { entrypoint: String },
}

/// A structurally valid action: a mount step stays inside the plan.
pub open spec fn action_wf(a: ChildAction) -> bool {
    match a {
        ChildAction::MountPseudoFs { index, mount } => index < MOUNT_COUNT,
        _ => true,
    }
}

/// The status the child exits with when an action fails. Each pipeline
/// step has its own non-zero code, so the parent can tell from the exit
/// status alone which step killed the child.
pub open spec fn spec_failure_code(a: ChildAction) -> int {
    match a {
        ChildAction::JoinNetworkNamespace { path } => 10,
        ChildAction::SetHostname { hostname } => 11,
        ChildAction::ChangeRoot { root_path } => 12,
        ChildAction::MountPseudoFs { index, mount } => 20 + index,
        ChildAction::ExecEntrypoint { entrypoint } => 30,
    }
}

/// Computes the exit status for a failed action: its step's own code,
/// never zero.
pub fn failure_exit_code(a: &ChildAction) -> (c: i32)
    requires
        action_wf(*a),
    ensures
        c == spec_failure_code(*a),
        c != 0,
{
    match a {
        ChildAction::JoinNetworkNamespace { path } => 10,
        ChildAction::SetHostname { hostname } => 11,
        ChildAction::ChangeRoot { root_path } => 12,
        ChildAction::MountPseudoFs { index, mount } => 20 + (*index as i32),
        ChildAction::ExecEntrypoint { entrypoint } => 30,
    }
}

/// Whether `v` is the child setup pipeline for a launch description and a
/// namespace handle: join the handle's namespace, set the hostname, change
/// root and working directory, make the five mounts in plan order against
/// the new root, then exec the entrypoint.
pub open spec fn is_child_pipeline(
    v: Seq<ChildAction>,
    cfg: ContainerSpec,
    netns: NetworkNamespaceHandle,
) -> bool {
    &&& v.len() == 4 + MOUNT_COUNT
    &&& v[0] == (ChildAction::JoinNetworkNamespace { path: netns.path })
    &&& v[1] == (ChildAction::SetHostname { hostname: cfg.hostname })
    &&& v[2] == (ChildAction::ChangeRoot { root_path: cfg.root_path })
    &&& forall|k: int|
        0 <= k < MOUNT_COUNT ==> match #[trigger] v[3 + k] {
            ChildAction::MountPseudoFs { index, mount } => index == k && is_mount_point(
                mount,
                Seq::<char>::empty(),
                k,
            ),
            _ => false,
        }
    &&& v[3 + MOUNT_COUNT] == (ChildAction::ExecEntrypoint { entrypoint: cfg.entrypoint })
}

/// Builds the child's setup pipeline. The mount targets are the plan's
/// relative targets, since the child mounts after changing its root.
pub fn child_pipeline(cfg: &ContainerSpec, netns: &NetworkNamespaceHandle) -> (v: Vec<ChildAction>)
    ensures
        is_child_pipeline(v@, *cfg, *netns),
        forall|k: int| 0 <= k < v@.len() ==> action_wf(#[trigger] v@[k]),
{
    let mut v: Vec<ChildAction> = Vec::new();
    v.push(ChildAction::JoinNetworkNamespace { path: netns.path.clone() });
    v.push(ChildAction::SetHostname { hostname: cfg.hostname.clone() });
    v.push(ChildAction::ChangeRoot { root_path: cfg.root_path.clone() });
    let mut i: usize = 0;
    while i < MOUNT_COUNT
        invariant
            i <= MOUNT_COUNT,
            v@.len() == 3 + i,
            v@[0] == (ChildAction::JoinNetworkNamespace { path: netns.path }),
            v@[1] == (ChildAction::SetHostname { hostname: cfg.hostname }),
            v@[2] == (ChildAction::ChangeRoot { root_path: cfg.root_path }),
            forall|k: int|
                0 <= k < i ==> match #[trigger] v@[3 + k] {
                    ChildAction::MountPseudoFs { index, mount } => index == k && is_mount_point(
                        mount,
                        Seq::<char>::empty(),
                        k,
                    ),
                    _ => false,
                },
        decreases MOUNT_COUNT - i,
    {
        let m = make_mount_point("", i);
        proof {
            reveal_strlit("");
            assert(""@ =~= Seq::<char>::empty());
        }
        v.push(ChildAction::MountPseudoFs { index: i, mount: m });
        i += 1;
    }
    v.push(ChildAction::ExecEntrypoint { entrypoint: cfg.entrypoint.clone() });
    proof {
        assert forall|k: int| 0 <= k < v@.len() implies action_wf(#[trigger] v@[k]) by {
            if 3 <= k && k < 3 + MOUNT_COUNT {
                let q = k - 3;
                assert(match v@[3 + q] {
                    ChildAction::MountPseudoFs { index, mount } => index == q,
                    _ => false,
                });
            } else if k == 3 + MOUNT_COUNT {
                assert(v@[k] == (ChildAction::ExecEntrypoint { entrypoint: cfg.entrypoint }));
            }
        }
    }
    v
}

/// Two different steps of one child pipeline carry different failure
/// codes: the parent can attribute a non-zero exit status to exactly one
/// setup step.
pub proof fn lemma_child_failure_codes_distinct(
    v: Seq<ChildAction>,
    cfg: ContainerSpec,
    netns: NetworkNamespaceHandle,
    i: int,
    j: int,
)
    requires
        is_child_pipeline(v, cfg, netns),
        0 <= i < j < v.len(),
    ensures
        spec_failure_code(v[i]) != spec_failure_code(v[j]),
{
    if 3 <= i < 3 + MOUNT_COUNT {
        assert(v[3 + (i - 3)] matches ChildAction::MountPseudoFs { index, mount } && index == i
            - 3);
    }
    if 3 <= j < 3 + MOUNT_COUNT {
        assert(v[3 + (j - 3)] matches ChildAction::MountPseudoFs { index, mount } && index == j
            - 3);
    }
}

} // verus!
