//! The eager fast-path decision: whether an operation on a resource should
//! first be attempted synchronously and non-blockingly on the calling
//! thread, before a generic asynchronous poll is set up.
//!
//! The fast path applies only to TCP resources, and only where the
//! execution environment supports direct non-blocking system calls; the
//! attempt itself and the fallback are the shell's work.  When the attempt
//! completes immediately, the caller is handed the result as if the generic
//! path had produced it, so the fast path is an optimization only.

use vstd::prelude::*;

use crate::kind::IoOp;
use crate::kind::ResourceKind;
use crate::table::ResourceId;
use crate::table::ResourceTable;

verus! {

/// Which path an operation takes to its I/O.
#[derive(Clone, Copy, Debug, PartialEq, Eq, Structural)]
pub enum IoPath {
    /// Attempt the operation synchronously first; fall back to the generic
    /// path when it would block.
    Eager,
    /// Build the generic asynchronous poll state machine directly.
    Generic,
}

/// Whether a kind is eligible for the eager attempt under an operation:
/// reads and writes on a TCP stream, accepts on a TCP listener, and nothing
/// else — files, pipes and process handles always take the generic path.
pub open spec fn eager_applies(k: ResourceKind, op: IoOp) -> bool {
    match op {
        IoOp::Read => k is TcpStream,
        IoOp::Write => k is TcpStream,
        IoOp::Accept => k is TcpListener,
        IoOp::Shutdown => false,
    }
}

/// Decides the path of an operation on a live id.  `sync_io_available`
/// says whether the environment supports the direct non-blocking attempt;
/// where it does not, every operation takes the generic path.  As with any
/// low-level dispatch, the id must be live; operating on a closed or
/// unknown id is a fatal contract violation.
pub fn eager_path<P>(
    table: &ResourceTable<P>,
    rid: ResourceId,
    op: &IoOp,
    sync_io_available: bool,
) -> (r: IoPath)
    requires
        table.wf(),
        table.live(rid),
    ensures
        r is Eager <==> (sync_io_available && eager_applies(table.kind_of(rid), *op)),
{
    if !sync_io_available {
        return IoPath::Generic;
    }
    let k = table.kind_at(rid);
    let applies = match op {
        IoOp::Read => matches!(k, ResourceKind::TcpStream),
        IoOp::Write => matches!(k, ResourceKind::TcpStream),
        IoOp::Accept => matches!(k, ResourceKind::TcpListener),
        IoOp::Shutdown => false,
    };
    if applies {
        IoPath::Eager
    } else {
        IoPath::Generic
    }
}

} // verus!
