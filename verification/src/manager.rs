//! The resource manager: the state owned by the single dedicated worker
//! thread of the actor-style store, and the step that processes one
//! request.
//!
//! Callers never touch the table directly; they submit requests over a
//! channel and receive the reply once the worker has processed the request.
//! The worker handles requests strictly in arrival order, so all mutation
//! is serialized without a lock.  The channel, the worker thread, the
//! reply futures and the process-wide singleton are the shell's work; the
//! state they carry and every decision the worker takes per request live
//! here.

use vstd::prelude::*;

use crate::child::ChildResources;
use crate::child::SpawnedChild;
use crate::child::add_child;
use crate::child::child_added;
use crate::kind::ResourceKind;
use crate::table::Resource;
use crate::table::ResourceId;
use crate::table::ResourceTable;
use crate::table::table_entries;

verus! {

/// One request submitted to the worker.  Each carries its own reply
/// channel on the shell side; here it is the work to do.
pub enum WorkItem<P> {
    /// Store one payload under a fresh id.
    Insert { kind: ResourceKind, payload: P },
    /// Register a spawned child and its captured pipes, atomically from the
    /// caller's point of view: all insertions happen before the one reply.
    InsertChild { child: SpawnedChild<P> },
    /// Snapshot every live id with its kind label.
    CollectEntries,
}

impl<P> WorkItem<P> {
    /// What headroom the id allocator needs for this request; running out
    /// of id space is an unrecoverable condition.
    pub open spec fn fits(self, t: ResourceTable<P>) -> bool {
        match self {
            WorkItem::Insert { .. } => t.next_id() < u32::MAX,
            WorkItem::InsertChild { child } => t.next_id() + child.insert_count() <= u32::MAX,
            WorkItem::CollectEntries => true,
        }
    }
}

/// The reply to one request, of the matching variant.
pub enum ResourceItem {
    Insert(Resource),
    InsertChild(ChildResources),
    CollectEntries(Vec<(ResourceId, String)>),
}

/// The worker's exclusively owned state: its private table — no lock, the
/// worker is the only thread that ever touches it — and whether the worker
/// is still accepting requests.
pub struct ResourceManager<P> {
    table: ResourceTable<P>,
    running: bool,
}

impl<P> ResourceManager<P> {
    /// Whether the worker is still accepting requests.  Submitting to a
    /// manager that was closed is fatal: nobody is left to serve the
    /// request.
    pub closed spec fn alive(self) -> bool {
        self.running
    }

    /// What submitting a request to this manager demands of the caller: a
    /// worker that is still alive, a well-formed table, and headroom in the
    /// id space.  This is precisely the precondition of `handle`.
    pub open spec fn submit_allowed(m: Self, item: WorkItem<P>) -> bool {
        &&& m.alive()
        &&& m.store().wf()
        &&& item.fits(m.store())
    }

    /// The table the worker owns.
    pub closed spec fn store(self) -> ResourceTable<P> {
        self.table
    }

    /// Starts a manager: a fresh private table, seeded with the reserved
    /// standard streams, and a worker accepting requests.
    pub fn new(stdin: P, stdout: P, stderr: P) -> (m: Self)
        ensures
            m.alive(),
            m.store().wf(),
            m.store().is_fresh(),
    {
        ResourceManager { table: ResourceTable::new(stdin, stdout, stderr), running: true }
    }

    /// Reports whether the manager still accepts requests.
    pub fn is_alive(&self) -> (b: bool)
        ensures
            b == self.alive(),
    {
        self.running
    }

    /// Tests whether the id allocator has headroom for a request, so the
    /// worker can abort on exhaustion instead of breaking its table.
    pub fn request_fits(&self, item: &WorkItem<P>) -> (b: bool)
        ensures
            b == item.fits(self.store()),
    {
        let next = self.table.next_rid();
        match item {
            WorkItem::Insert { .. } => next < u32::MAX,
            WorkItem::InsertChild { child } => {
                let mut count: u32 = 1;
                if child.stdin.is_some() {
                    count = count + 1;
                }
                if child.stdout.is_some() {
                    count = count + 1;
                }
                if child.stderr.is_some() {
                    count = count + 1;
                }
                next <= u32::MAX - count
            },
            WorkItem::CollectEntries => true,
        }
    }

    /// Processes one request and produces its reply: the worker loop's
    /// step.  Requests reach this point one at a time, in arrival order,
    /// so the effects of concurrently submitted requests are serialized.
    pub fn handle(&mut self, item: WorkItem<P>) -> (r: ResourceItem)
        requires
            Self::submit_allowed(*old(self), item),
        ensures
            final(self).alive(),
            final(self).store().wf(),
            item matches (WorkItem::Insert { kind, payload }) ==> (r matches ResourceItem::Insert(
                res,
            ) && ResourceTable::inserted(
                old(self).store(),
                final(self).store(),
                res,
                kind,
                payload,
            )),
            item matches (WorkItem::InsertChild { child }) ==> (r
                matches ResourceItem::InsertChild(cr) && child_added(
                old(self).store(),
                final(self).store(),
                child,
                cr,
            )),
            item is CollectEntries ==> (final(self).store() == old(self).store() && (r
                matches ResourceItem::CollectEntries(v) && v@.len() == old(
                self,
            ).store().entries_view().len() && (forall|i: int|
                0 <= i < v@.len() ==> (#[trigger] v@[i]).0 == old(self).store().entries_view()[i].0
                    && v@[i].1@ == old(self).store().entries_view()[i].1))),
    {
        match item {
            WorkItem::Insert { kind, payload } => ResourceItem::Insert(
                self.table.insert(kind, payload),
            ),
            WorkItem::InsertChild { child } => ResourceItem::InsertChild(
                add_child(&mut self.table, child),
            ),
            WorkItem::CollectEntries => ResourceItem::CollectEntries(table_entries(&self.table)),
        }
    }

    /// Submits the storing of an opened file.
    pub fn add_fs_file(&mut self, fs_file: P) -> (r: Resource)
        requires
            old(self).alive(),
            old(self).store().wf(),
            old(self).store().next_id() < u32::MAX,
        ensures
            final(self).alive(),
            ResourceTable::inserted(
                old(self).store(),
                final(self).store(),
                r,
                ResourceKind::FsFile,
                fs_file,
            ),
    {
        self.table.insert(ResourceKind::FsFile, fs_file)
    }

    /// Submits the storing of a TCP listener.
    pub fn add_tcp_listener(&mut self, listener: P) -> (r: Resource)
        requires
            old(self).alive(),
            old(self).store().wf(),
            old(self).store().next_id() < u32::MAX,
        ensures
            final(self).alive(),
            ResourceTable::inserted(
                old(self).store(),
                final(self).store(),
                r,
                ResourceKind::TcpListener,
                listener,
            ),
    {
        self.table.insert(ResourceKind::TcpListener, listener)
    }

    /// Submits the storing of a connected TCP stream.
    pub fn add_tcp_stream(&mut self, stream: P) -> (r: Resource)
        requires
            old(self).alive(),
            old(self).store().wf(),
            old(self).store().next_id() < u32::MAX,
        ensures
            final(self).alive(),
            ResourceTable::inserted(
                old(self).store(),
                final(self).store(),
                r,
                ResourceKind::TcpStream,
                stream,
            ),
    {
        self.table.insert(ResourceKind::TcpStream, stream)
    }

    /// Submits the storing of an HTTP response body.
    pub fn add_hyper_body(&mut self, body: P) -> (r: Resource)
        requires
            old(self).alive(),
            old(self).store().wf(),
            old(self).store().next_id() < u32::MAX,
        ensures
            final(self).alive(),
            ResourceTable::inserted(
                old(self).store(),
                final(self).store(),
                r,
                ResourceKind::HttpBody,
                body,
            ),
    {
        self.table.insert(ResourceKind::HttpBody, body)
    }

    /// Submits the storing of an interactive line-reader session.
    pub fn add_repl(&mut self, repl: P) -> (r: Resource)
        requires
            old(self).alive(),
            old(self).store().wf(),
            old(self).store().next_id() < u32::MAX,
        ensures
            final(self).alive(),
            ResourceTable::inserted(
                old(self).store(),
                final(self).store(),
                r,
                ResourceKind::Repl,
                repl,
            ),
    {
        self.table.insert(ResourceKind::Repl, repl)
    }

    /// Submits the registration of a spawned child and its captured pipes.
    pub fn add_child(&mut self, child: SpawnedChild<P>) -> (r: ChildResources)
        requires
            old(self).alive(),
            old(self).store().wf(),
            old(self).store().next_id() + child.insert_count() <= u32::MAX,
        ensures
            final(self).alive(),
            child_added(old(self).store(), final(self).store(), child, r),
    {
        add_child(&mut self.table, child)
    }

    /// Submits the request for an introspection snapshot.
    pub fn table_entries(&self) -> (r: Vec<(ResourceId, String)>)
        requires
            self.alive(),
        ensures
            r@.len() == self.store().entries_view().len(),
            forall|i: int|
                0 <= i < r@.len() ==> (#[trigger] r@[i]).0 == self.store().entries_view()[i].0
                    && r@[i].1@ == self.store().entries_view()[i].1,
    {
        table_entries(&self.table)
    }

    /// Stops the worker.  The table is untouched — it is dropped with the
    /// manager — but no request is accepted from now on; a submission after
    /// this point is a fatal condition, not a recoverable error.
    pub fn close(&mut self)
        ensures
            !final(self).alive(),
            final(self).store() == old(self).store(),
    {
        self.running = false;
    }
}

} // verus!
