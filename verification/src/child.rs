//! Child-process bookkeeping: registering a freshly spawned child and its
//! captured pipes as resources, and validating ids for the exit-status
//! operation.

use vstd::prelude::*;

use crate::kind::ResourceKind;
use crate::table::ResourceError;
use crate::table::ResourceId;
use crate::table::ResourceTable;
use crate::table::bad_resource;
use crate::table::lookup;

verus! {

/// A spawned child as handed over by the shell that ran the spawn: the
/// process payload itself, plus one payload per standard stream that the
/// spawn configuration captured as a pipe.  An uncaptured stream is `None`.
pub struct SpawnedChild<P> {
    pub stdin: Option<P>,
    pub stdout: Option<P>,
    pub stderr: Option<P>,
    pub child: P,
}

impl<P> SpawnedChild<P> {
    /// How many pipe resources registering this child creates.
    pub open spec fn pipe_count(self) -> int {
        (if self.stdin is Some {
            1int
        } else {
            0int
        }) + (if self.stdout is Some {
            1int
        } else {
            0int
        }) + (if self.stderr is Some {
            1int
        } else {
            0int
        })
    }

    /// How many resources registering this child creates in all: its pipes
    /// plus the child process itself.
    pub open spec fn insert_count(self) -> int {
        self.pipe_count() + 1
    }
}

/// The bundle of ids produced at spawn time: the child's own id, and one id
/// per captured pipe.
#[derive(Clone, Copy, Debug, PartialEq, Eq, Structural)]
pub struct ChildResources {
    pub child_rid: ResourceId,
    pub stdin_rid: Option<ResourceId>,
    pub stdout_rid: Option<ResourceId>,
    pub stderr_rid: Option<ResourceId>,
}

/// The full effect of `add_child`: each captured pipe and then the child
/// itself were stored under consecutive fresh ids starting at `pre`'s
/// allocator counter, each under its own kind; nothing else changed.
pub open spec fn child_added<P>(
    pre: ResourceTable<P>,
    post: ResourceTable<P>,
    c: SpawnedChild<P>,
    r: ChildResources,
) -> bool {
    let base = pre.next_id() as int;
    let after_stdin = base + (if c.stdin is Some {
        1int
    } else {
        0int
    });
    let after_stdout = after_stdin + (if c.stdout is Some {
        1int
    } else {
        0int
    });
    &&& post.wf()
    &&& post.next_id() == base + c.insert_count()
    &&& (r.stdin_rid is Some <==> c.stdin is Some)
    &&& (r.stdout_rid is Some <==> c.stdout is Some)
    &&& (r.stderr_rid is Some <==> c.stderr is Some)
    &&& (r.stdin_rid matches Some(rid) ==> rid == base && post.live(rid) && post.kind_of(rid)
        is ChildStdin)
    &&& (r.stdout_rid matches Some(rid) ==> rid == after_stdin && post.live(rid) && post.kind_of(
        rid,
    ) is ChildStdout)
    &&& (r.stderr_rid matches Some(rid) ==> rid == after_stdout && post.live(rid) && post.kind_of(
        rid,
    ) is ChildStderr)
    &&& r.child_rid == base + c.pipe_count()
    &&& r.child_rid >= 3
    &&& post.live(r.child_rid)
    &&& post.kind_of(r.child_rid) is Child
    &&& (forall|x: ResourceId|
        post.live(x) <==> (pre.live(x) || (base <= x < base + c.insert_count())))
    &&& (forall|x: ResourceId| pre.live(x) ==> #[trigger] post.kind_of(x) == pre.kind_of(x))
}

/// Registers a spawned child: one resource per captured pipe, then the
/// child process itself, which is always registered.  From the caller's
/// point of view the insertions are one step: ids for all of them come from
/// the same allocator in one run, so they are consecutive and fresh.
pub fn add_child<P>(table: &mut ResourceTable<P>, c: SpawnedChild<P>) -> (r: ChildResources)
    requires
        old(table).wf(),
        old(table).next_id() + c.insert_count() <= u32::MAX,
    ensures
        child_added(*old(table), *final(table), c, r),
{
    let SpawnedChild { stdin, stdout, stderr, child } = c;
    let stdin_rid = match stdin {
        Some(p) => Some(table.insert(ResourceKind::ChildStdin, p).rid),
        None => None,
    };
    let stdout_rid = match stdout {
        Some(p) => Some(table.insert(ResourceKind::ChildStdout, p).rid),
        None => None,
    };
    let stderr_rid = match stderr {
        Some(p) => Some(table.insert(ResourceKind::ChildStderr, p).rid),
        None => None,
    };
    let child_rid = table.insert(ResourceKind::Child, child).rid;
    ChildResources { child_rid, stdin_rid, stdout_rid, stderr_rid }
}

/// A pollable handle on a child's exit status.  Its id is validated to name
/// a child process when the handle is built; the wait itself is the shell's
/// work, done with exclusive access to the child payload taken from the
/// table.
pub struct ChildStatus {
    rid: ResourceId,
}

impl ChildStatus {
    /// The id this status handle polls.
    pub closed spec fn id(self) -> ResourceId {
        self.rid
    }

    /// Returns the id this status handle polls.
    pub fn rid(&self) -> (r: ResourceId)
        ensures
            r == self.id(),
    {
        self.rid
    }
}

/// Validates that an id currently names a child process and returns the
/// pollable status handle for it.  This path is reachable from script-level
/// mistakes, so an id that is absent or names another kind is answered with
/// the recoverable "bad resource" error, never fatally.
pub fn child_status<P>(table: &ResourceTable<P>, rid: ResourceId) -> (r: Result<
    ChildStatus,
    ResourceError,
>)
    requires
        table.wf(),
    ensures
        r is Ok <==> (table.live(rid) && table.kind_of(rid) is Child),
        r matches Ok(s) ==> s.id() == rid,
        r matches Err(e) ==> e == ResourceError::BadResource(rid),
{
    match lookup(table, rid) {
        None => Err(bad_resource(rid)),
        Some(_res) => {
            let k = table.kind_at(rid);
            match k {
                ResourceKind::Child => Ok(ChildStatus { rid }),
                _ => Err(bad_resource(rid)),
            }
        },
    }
}

/// Decides, while a status handle is being polled, whether the kind found
/// under its id is still a child process: any other kind is answered with
/// the recoverable "bad resource" error.
pub fn check_child_kind(k: &ResourceKind, rid: ResourceId) -> (r: Result<(), ResourceError>)
    ensures
        r is Ok <==> *k is Child,
        r matches Err(e) ==> e == ResourceError::BadResource(rid),
{
    match k {
        ResourceKind::Child => Ok(()),
        _ => Err(bad_resource(rid)),
    }
}

} // verus!
