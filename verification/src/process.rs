//! Path-based script resolution with sandbox enforcement, the resolved target,
//! and the lifecycle bookkeeping around spawned children.
//!
//! Paths are byte strings as the operating system sees them. Canonicalization
//! itself is filesystem work and happens outside; this module decides what to
//! canonicalize and what the canonical result means.

use vstd::prelude::*;

use crate::types::FsErrorKind;

verus! {

/// Why resolving or running a script failed.
#[derive(Clone, Copy, Debug, PartialEq, Eq, Structural)]
pub enum ProcessError {
    /// Canonicalization failed for a reason other than a missing target.
    InvalidPath(FsErrorKind),
    /// The canonical target lies outside the configured root.
    RunPathNotInRoot,
    /// The target does not exist.
    RunPathNotExists,
    /// The spawn itself failed.
    ExecutionError(FsErrorKind),
    /// The HTTP response could not be assembled.
    BuildResponse,
}

/// A request path with one leading separator removed, as the resolver joins it
/// onto the root.
pub open spec fn spec_strip_leading_slash(p: Seq<u8>) -> Seq<u8> {
    if p.len() > 0 && p[0] == 47u8 {
        p.subrange(1, p.len() as int)
    } else {
        p
    }
}

/// The candidate path the resolver hands to canonicalization: the root, a
/// separator, and the stripped request path.
pub open spec fn spec_joined(root: Seq<u8>, request_path: Seq<u8>) -> Seq<u8> {
    root + seq![47u8] + spec_strip_leading_slash(request_path)
}

/// Sandbox containment: the canonical root is the path itself or one of its
/// ancestors. For canonical paths this is exactly a component-wise prefix:
/// the root's bytes lead the path and end at a separator boundary.
pub open spec fn path_in_root(root: Seq<u8>, p: Seq<u8>) -> bool {
    ||| p == root
    ||| {
        &&& p.len() > root.len()
        &&& p.subrange(0, root.len() as int) == root
        &&& (root.len() > 0 && root.last() == 47u8 || p[root.len() as int] == 47u8)
    }
}

/// Strip one leading separator from a request path.
pub fn strip_leading_slash(p: &Vec<u8>) -> (r: Vec<u8>)
    ensures
        r@ == spec_strip_leading_slash(p@),
{
    let mut r = p.clone();
    if r.len() > 0 && r[0] == 47u8 {
        r.remove(0);
    }
    r
}

/// Join a stripped request path under the root with a separator.
pub fn join_under_root(root: &Vec<u8>, stripped: &Vec<u8>) -> (r: Vec<u8>)
    ensures
        r@ == root@ + seq![47u8] + stripped@,
{
    let mut r = root.clone();
    r.push(47u8);
    let mut i: usize = 0;
    while i < stripped.len()
        invariant
            i <= stripped.len(),
            r@ == root@ + seq![47u8] + stripped@.subrange(0, i as int),
        decreases stripped.len() - i,
    {
        r.push(stripped[i]);
        i = i + 1;
        assert(stripped@.subrange(0, i as int) == stripped@.subrange(0, i - 1) + seq![
            stripped@[i - 1],
        ]);
    }
    assert(stripped@.subrange(0, stripped.len() as int) == stripped@);
    r
}

/// Decide sandbox containment of a canonical path under the canonical root.
pub fn check_in_root(root: &Vec<u8>, p: &Vec<u8>) -> (r: bool)
    ensures
        r == path_in_root(root@, p@),
{
    if p.len() < root.len() {
        return false;
    }
    let mut i: usize = 0;
    while i < root.len()
        invariant
            i <= root.len() <= p.len(),
            forall|j: int| 0 <= j < i ==> p@[j] == root@[j],
        decreases root.len() - i,
    {
        if p[i] != root[i] {
            return false;
        }
        i = i + 1;
    }
    assert(p@.subrange(0, root.len() as int) =~= root@);
    if p.len() == root.len() {
        assert(p@ =~= root@);
        return true;
    }
    if root.len() > 0 && root[root.len() - 1] == 47u8 {
        return true;
    }
    p[root.len()] == 47u8
}

/// The resolved script: a canonical executable path inside the root and its
/// argument list (no arguments are derived from the URL).
pub struct UpstreamProcess {
    pub exec_path: Vec<u8>,
    pub exec_args: Vec<String>,
}

/// Resolves request paths to scripts under one canonical root.
pub struct UpstreamProcessBuilder {
    pub root: Vec<u8>,
}

/// The canonicalization outcome for the joined candidate path, as the
/// filesystem reported it.
pub open spec fn canonical_view(c: Result<Vec<u8>, FsErrorKind>) -> Result<Seq<u8>, FsErrorKind> {
    match c {
        Ok(v) => Ok(v@),
        Err(k) => Err(k),
    }
}

/// What resolution must decide from a canonicalization outcome: a missing
/// target and any other filesystem failure are distinguished, a canonical path
/// outside the root is the sandbox violation, and only a contained path yields
/// a runnable script (with an empty argument list).
pub open spec fn build_rel(
    root: Seq<u8>,
    canonical: Result<Seq<u8>, FsErrorKind>,
    r: Result<UpstreamProcess, ProcessError>,
) -> bool {
    match canonical {
        Err(FsErrorKind::NotFound) => r matches Err(e) && e == ProcessError::RunPathNotExists,
        Err(k) => r matches Err(e) && e == ProcessError::InvalidPath(k),
        Ok(p) => if !path_in_root(root, p) {
            r matches Err(e) && e == ProcessError::RunPathNotInRoot
        } else {
            r matches Ok(u) && u.exec_path@ == p && u.exec_args@.len() == 0
        },
    }
}

impl UpstreamProcessBuilder {
    /// Keep the canonical root, which the caller has canonicalized once at
    /// startup; a root that does not exist is a fatal configuration error.
    pub fn new(root: Vec<u8>, root_exists: bool) -> (r: Result<UpstreamProcessBuilder, ProcessError>)
        ensures
            root_exists ==> (r matches Ok(b) && b.root@ == root@),
            !root_exists ==> (r matches Err(e) && e == ProcessError::InvalidPath(
                FsErrorKind::NotFound,
            )),
    {
        if root_exists {
            Ok(UpstreamProcessBuilder { root })
        } else {
            Err(ProcessError::InvalidPath(FsErrorKind::NotFound))
        }
    }

    /// The candidate path to canonicalize for a request path: one leading
    /// separator stripped, then joined under the root.
    pub fn candidate_path(&self, request_path: &Vec<u8>) -> (r: Vec<u8>)
        ensures
            r@ == spec_joined(self.root@, request_path@),
    {
        let stripped = strip_leading_slash(request_path);
        join_under_root(&self.root, &stripped)
    }

    /// Resolve a canonicalization outcome into a runnable script or a
    /// resolution error. The sandbox check runs on the canonical path, after
    /// symlinks and dot segments were resolved, so no traversal trick can
    /// escape it.
    pub fn build(&self, canonical: Result<Vec<u8>, FsErrorKind>) -> (r: Result<
        UpstreamProcess,
        ProcessError,
    >)
        ensures
            build_rel(self.root@, canonical_view(canonical), r),
    {
        match canonical {
            Err(FsErrorKind::NotFound) => Err(ProcessError::RunPathNotExists),
            Err(k) => Err(ProcessError::InvalidPath(k)),
            Ok(p) => {
                if check_in_root(&self.root, &p) {
                    Ok(UpstreamProcess { exec_path: p, exec_args: Vec::new() })
                } else {
                    Err(ProcessError::RunPathNotInRoot)
                }
            },
        }
    }
}

impl UpstreamProcess {
    /// The gateway's decision on a spawn outcome: a successful spawn fixes the
    /// pass-through response status at 200 before the child finishes; a failed
    /// spawn is an execution error and is never retried.
    pub fn run_decision(&self, spawn: Result<(), FsErrorKind>) -> (r: Result<u16, ProcessError>)
        ensures
            spawn is Ok ==> (r matches Ok(code) && code == 200),
            spawn matches Err(k) ==> (r matches Err(e) && e == ProcessError::ExecutionError(k)),
    {
        match spawn {
            Ok(()) => Ok(200),
            Err(k) => Err(ProcessError::ExecutionError(k)),
        }
    }
}

/// Law: a request path whose canonical form lies outside the configured root
/// is rejected with the sandbox-violation error, and no process is dispatched.
pub proof fn lemma_sandbox_violation(
    root: Seq<u8>,
    p: Seq<u8>,
    r: Result<UpstreamProcess, ProcessError>,
)
    requires
        build_rel(root, Ok(p), r),
        !path_in_root(root, p),
    ensures
        r matches Err(e) && e == ProcessError::RunPathNotInRoot,
        !(r is Ok),
{
}

/// Law: a request path whose target does not exist fails, and fails distinctly
/// from the sandbox-violation case.
pub proof fn lemma_missing_target_distinct(
    root: Seq<u8>,
    r: Result<UpstreamProcess, ProcessError>,
)
    requires
        build_rel(root, Err(FsErrorKind::NotFound), r),
    ensures
        r matches Err(e) && e == ProcessError::RunPathNotExists,
        !(r matches Err(e) && e == ProcessError::RunPathNotInRoot),
{
}

/// The bounded queue of pending child-exit waits: soft admission control that
/// caps in-flight children at its capacity. This type states the admission
/// rule; the runtime realizes it by sizing its bounded join channel with
/// `capacity`, so a send blocks exactly when `try_admit` would refuse.
pub struct JoinRegistry {
    pending: usize,
}

impl JoinRegistry {
    /// How many child-exit waits are outstanding.
    pub closed spec fn pending_count(&self) -> nat {
        self.pending as nat
    }

    /// The registry never holds more than its capacity.
    pub open spec fn wf(&self) -> bool {
        self.pending_count() <= 1024
    }

    /// The fixed capacity of the join queue.
    pub fn capacity() -> (r: usize)
        ensures
            r == 1024,
    {
        1024
    }

    pub fn new() -> (r: JoinRegistry)
        ensures
            r.wf(),
            r.pending_count() == 0,
    {
        JoinRegistry { pending: 0 }
    }

    /// Admit one more child-exit wait if a slot is free; a full queue admits
    /// nothing, which is what makes the cap a cap.
    pub fn try_admit(&mut self) -> (r: bool)
        requires
            old(self).wf(),
        ensures
            final(self).wf(),
            r == (old(self).pending_count() < 1024),
            r ==> final(self).pending_count() == old(self).pending_count() + 1,
            !r ==> final(self).pending_count() == old(self).pending_count(),
    {
        if self.pending < 1024 {
            self.pending = self.pending + 1;
            true
        } else {
            false
        }
    }

    /// Record that the supervisor reaped one child.
    pub fn reap(&mut self)
        requires
            old(self).wf(),
            old(self).pending_count() > 0,
        ensures
            final(self).wf(),
            final(self).pending_count() == old(self).pending_count() - 1,
    {
        self.pending = self.pending - 1;
    }
}

} // verus!
