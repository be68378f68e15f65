//! The pseudo-filesystem mount plan and per-attempt mount tracking.
//!
//! A container needs five pseudo-filesystems mounted under its root, in a
//! fixed order: `proc` at `/proc`, `tmpfs` at `/tmp`, `tmpfs` at `/dev`,
//! `devpts` at `/dev/pts` (which must come after `/dev`, since it nests
//! under it), and `sysfs` at `/sys`. The controller below records which of
//! those mounts were actually established, aborts the plan at the first
//! failure, and hands teardown the established mounts in strict reverse
//! order of mounting — never a mount that was not established.

use vstd::prelude::*;
use vstd::string::*;
use crate::errors::RuntimeError;

verus! {

/// How many pseudo-filesystem mounts a container needs.
pub const MOUNT_COUNT: usize = 5;

/// The source label of the `i`-th mount of the plan.
pub open spec fn spec_mount_source(i: int) -> Seq<char> {
    if i == 0 {
        "proc"@
    } else if i == 1 {
        "tmpfs"@
    } else if i == 2 {
        "tmpfs"@
    } else if i == 3 {
        "devpts"@
    } else {
        "sysfs"@
    }
}

/// The target of the `i`-th mount of the plan, relative to the container
/// root.
pub open spec fn spec_mount_rel_target(i: int) -> Seq<char> {
    if i == 0 {
        "/proc"@
    } else if i == 1 {
        "/tmp"@
    } else if i == 2 {
        "/dev"@
    } else if i == 3 {
        "/dev/pts"@
    } else {
        "/sys"@
    }
}

/// The filesystem type of the `i`-th mount of the plan.
pub open spec fn spec_mount_fstype(i: int) -> Seq<char> {
    if i == 0 {
        "proc"@
    } else if i == 1 {
        "tmpfs"@
    } else if i == 2 {
        "tmpfs"@
    } else if i == 3 {
        "devpts"@
    } else {
        "sysfs"@
    }
}

/// The absolute target of the `i`-th mount under a given root.
pub open spec fn spec_mount_target(root: Seq<char>, i: int) -> Seq<char> {
    root + spec_mount_rel_target(i)
}

/// One pseudo-filesystem mount: a source label, an absolute target path,
/// and a filesystem type.
#[derive(Debug, Clone)]
pub struct MountPoint {
    pub source: String,
    pub target: String,
    pub fstype: String,
}

/// Whether `m` is the `i`-th mount of the plan under `root`.
pub open spec fn is_mount_point(m: MountPoint, root: Seq<char>, i: int) -> bool {
    &&& m.source@ == spec_mount_source(i)
    &&& m.target@ == spec_mount_target(root, i)
    &&& m.fstype@ == spec_mount_fstype(i)
}

/// Builds the `i`-th mount of the plan under `root`.
pub fn make_mount_point(root: &str, i: usize) -> (m: MountPoint)
    requires
        i < MOUNT_COUNT,
    ensures
        is_mount_point(m, root@, i as int),
{
    let source: String;
    let rel: &str;
    let fstype: String;
    if i == 0 {
        source = String::from_str("proc");
        rel = "/proc";
        fstype = String::from_str("proc");
    } else if i == 1 {
        source = String::from_str("tmpfs");
        rel = "/tmp";
        fstype = String::from_str("tmpfs");
    } else if i == 2 {
        source = String::from_str("tmpfs");
        rel = "/dev";
        fstype = String::from_str("tmpfs");
    } else if i == 3 {
        source = String::from_str("devpts");
        rel = "/dev/pts";
        fstype = String::from_str("devpts");
    } else {
        source = String::from_str("sysfs");
        rel = "/sys";
        fstype = String::from_str("sysfs");
    }
    let target = String::from_str(root).concat(rel);
    MountPoint { source, target, fstype }
}

/// Tracks one container's mount attempts: how many of the plan's mounts
/// were established, and whether the plan was aborted by a failure.
/// Mounting proceeds strictly in plan order and stops at the first failure;
/// rollback is not attempted here, it is the orchestrator's job.
pub struct MountController {
    root: String,
    established: usize,
    failed: bool,
}

impl MountController {
    /// The controller is consistent: at most the whole plan is established,
    /// and a failure always points at a mount inside the plan.
    pub closed spec fn wf(&self) -> bool {
        &&& self.established <= MOUNT_COUNT
        &&& self.failed ==> self.established < MOUNT_COUNT
    }

    /// The root all targets of this controller stand under.
    pub closed spec fn spec_root(&self) -> Seq<char> {
        self.root@
    }

    /// How many mounts of the plan were established, in plan order.
    pub closed spec fn spec_established(&self) -> int {
        self.established as int
    }

    /// Whether a mount attempt failed and aborted the plan.
    pub closed spec fn spec_failed(&self) -> bool {
        self.failed
    }

    /// A fresh controller for a container root: nothing established yet.
    pub fn new(root: &str) -> (c: Self)
        ensures
            c.wf(),
            c.spec_root() == root@,
            c.spec_established() == 0,
            !c.spec_failed(),
    {
        MountController { root: String::from_str(root), established: 0, failed: false }
    }

    /// The number of established mounts.
    pub fn established_count(&self) -> (n: usize)
        ensures
            n == self.spec_established(),
    {
        self.established
    }

    /// Whether the plan was aborted by a failed mount.
    pub fn has_failed(&self) -> (b: bool)
        ensures
            b == self.spec_failed(),
    {
        self.failed
    }

    /// Whether the whole plan was established.
    pub fn all_mounted(&self) -> (b: bool)
        ensures
            b == (self.spec_established() == MOUNT_COUNT && !self.spec_failed()),
    {
        self.established == MOUNT_COUNT && !self.failed
    }

    /// The next mount to attempt, or `None` once the plan is done or was
    /// aborted by a failure.
    pub fn next_mount(&self) -> (m: Option<MountPoint>)
        requires
            self.wf(),
        ensures
            match m {
                Some(mp) => !self.spec_failed() && self.spec_established() < MOUNT_COUNT
                    && is_mount_point(mp, self.spec_root(), self.spec_established()),
                None => self.spec_failed() || self.spec_established() == MOUNT_COUNT,
            },
    {
        if self.failed || self.established == MOUNT_COUNT {
            None
        } else {
            Some(make_mount_point(self.root.as_str(), self.established))
        }
    }

    /// Records the outcome of the mount attempt handed out by `next_mount`:
    /// success extends the established prefix by one, failure aborts the
    /// plan.
    pub fn record_result(&mut self, ok: bool)
        requires
            old(self).wf(),
            !old(self).spec_failed(),
            old(self).spec_established() < MOUNT_COUNT,
        ensures
            final(self).wf(),
            final(self).spec_root() == old(self).spec_root(),
            ok ==> final(self).spec_established() == old(self).spec_established() + 1
                && !final(self).spec_failed(),
            !ok ==> final(self).spec_established() == old(self).spec_established()
                && final(self).spec_failed(),
    {
        if ok {
            self.established = self.established + 1;
        } else {
            self.failed = true;
        }
    }

    /// What aborted the plan: a `MountError` naming the target of the mount
    /// that failed, exactly when a mount failed.
    pub fn failure_error(&self) -> (e: Option<RuntimeError>)
        requires
            self.wf(),
        ensures
            match e {
                Some(err) => self.spec_failed() && (err matches RuntimeError::MountError { target }
                    && target@ == spec_mount_target(self.spec_root(), self.spec_established())),
                None => !self.spec_failed(),
            },
    {
        if self.failed {
            let m = make_mount_point(self.root.as_str(), self.established);
            Some(RuntimeError::MountError { target: m.target })
        } else {
            None
        }
    }

    /// The mounts teardown must release: exactly the established ones, in
    /// strict reverse order of mounting. A mount that was never established
    /// does not appear, so unmounting this plan never touches a target the
    /// plan did not reach.
    pub fn unmount_plan(&self) -> (v: Vec<MountPoint>)
        requires
            self.wf(),
        ensures
            v@.len() == self.spec_established(),
            forall|k: int|
                0 <= k < v@.len() ==> is_mount_point(
                    #[trigger] v@[k],
                    self.spec_root(),
                    self.spec_established() - 1 - k,
                ),
    {
        let mut v: Vec<MountPoint> = Vec::new();
        let mut remaining: usize = self.established;
        while remaining > 0
            invariant
                self.wf(),
                remaining <= self.spec_established(),
                v@.len() == self.spec_established() - remaining,
                forall|k: int|
                    0 <= k < v@.len() ==> is_mount_point(
                        #[trigger] v@[k],
                        self.spec_root(),
                        self.spec_established() - 1 - k,
                    ),
            decreases remaining,
        {
            v.push(make_mount_point(self.root.as_str(), remaining - 1));
            remaining = remaining - 1;
        }
        v
    }
}

/// The full teardown list for a root whose mounts were made by another
/// process (the container child), where nothing could be tracked: all five
/// targets, in strict reverse order of the mount plan. Teardown tolerates a
/// target that turns out not to be mounted.
pub fn full_unmount_targets(root: &str) -> (v: Vec<String>)
    ensures
        v@.len() == MOUNT_COUNT,
        forall|k: int|
            0 <= k < v@.len() ==> #[trigger] v@[k]@ == spec_mount_target(
                root@,
                MOUNT_COUNT - 1 - k,
            ),
{
    let mut v: Vec<String> = Vec::new();
    let mut remaining: usize = MOUNT_COUNT;
    while remaining > 0
        invariant
            remaining <= MOUNT_COUNT,
            v@.len() == MOUNT_COUNT - remaining,
            forall|k: int|
                0 <= k < v@.len() ==> #[trigger] v@[k]@ == spec_mount_target(
                    root@,
                    MOUNT_COUNT - 1 - k,
                ),
        decreases remaining,
    {
        let m = make_mount_point(root, remaining - 1);
        v.push(m.target);
        remaining = remaining - 1;
    }
    v
}

/// Two distinct mounts of the plan have distinct targets under any root, so
/// a teardown plan that holds only established mounts can never name an
/// unestablished target. This is what lets teardown after a partial mount
/// failure skip exactly the mounts that were never made.
pub proof fn lemma_mount_targets_distinct(root: Seq<char>, i: int, j: int)
    requires
        0 <= i < MOUNT_COUNT,
        0 <= j < MOUNT_COUNT,
        i != j,
    ensures
        spec_mount_target(root, i) != spec_mount_target(root, j),
{
    reveal_strlit("/proc");
    reveal_strlit("/tmp");
    reveal_strlit("/dev");
    reveal_strlit("/dev/pts");
    reveal_strlit("/sys");
    let a = spec_mount_rel_target(i);
    let b = spec_mount_rel_target(j);
    assert(a != b) by {
        if a.len() == b.len() {
            assert(a[1] != b[1]);
        }
    }
    if spec_mount_target(root, i) == spec_mount_target(root, j) {
        assert(a.len() == b.len()) by {
            assert((root + a).len() == (root + b).len());
        }
        assert forall|k: int| 0 <= k < a.len() implies a[k] == b[k] by {
            assert((root + a)[root.len() + k] == (root + b)[root.len() + k]);
        }
        assert(a =~= b);
    }
}

/// The teardown plan of a partially mounted controller names no target of
/// an unestablished mount: every entry's target differs from the target of
/// every mount the plan did not reach.
pub proof fn lemma_unmount_plan_skips_unestablished(
    c: MountController,
    v: Seq<MountPoint>,
    k: int,
    i: int,
)
    requires
        c.wf(),
        v.len() == c.spec_established(),
        forall|q: int|
            0 <= q < v.len() ==> is_mount_point(#[trigger] v[q], c.spec_root(), v.len() - 1 - q),
        0 <= k < v.len(),
        c.spec_established() <= i < MOUNT_COUNT,
    ensures
        v[k].target@ != spec_mount_target(c.spec_root(), i),
{
    assert(is_mount_point(v[k], c.spec_root(), v.len() - 1 - k));
    lemma_mount_targets_distinct(c.spec_root(), v.len() - 1 - k, i);
}

} // verus!
