//! The resource table: a mapping from integer ids to tagged, exclusively
//! owned payloads, together with the id allocator and the operations that
//! the host dispatches by id.
//!
//! The payload type `P` is a parameter.  The table is the sole owner of
//! every payload it holds, so removing an entry drops the payload, which for
//! an OS primitive releases the underlying object.  The core never looks
//! inside a payload; everything it decides, it decides from the id and the
//! kind tag.

use vstd::prelude::*;

use crate::kind::ResourceKind;
use crate::kind::inspect_repr;
use crate::kind::kind_label;

verus! {

/// A resource id.  Ids are unique among live resources and are never
/// reused; ids 0, 1 and 2 are reserved for stdin, stdout and stderr.
pub type ResourceId = u32;

/// The recoverable error of the named, validated operations: the given id
/// does not currently name a resource of the expected kind.
#[derive(Clone, Copy, Debug, PartialEq, Eq, Structural)]
pub enum ResourceError {
    BadResource(ResourceId),
}

/// Builds the recoverable "bad resource" error for an id.
pub fn bad_resource(rid: ResourceId) -> (e: ResourceError)
    ensures
        e == ResourceError::BadResource(rid),
{
    ResourceError::BadResource(rid)
}

/// An opaque handle carrying only a resource id.  It does not own the OS
/// primitive; it is a token granting the right to ask the table to operate
/// on the id it names.  Two handles with the same id are interchangeable.
#[derive(Clone, Copy, Debug, PartialEq, Eq, Structural)]
pub struct Resource {
    pub rid: ResourceId,
}

/// One table entry: an id together with the kind tag and the owned payload.
pub struct TableEntry<P> {
    pub rid: ResourceId,
    pub kind: ResourceKind,
    pub payload: P,
}

/// The mapping from resource id to tagged payload, plus the allocator
/// counter for the next id to issue.
pub struct ResourceTable<P> {
    next_rid: ResourceId,
    entries: Vec<TableEntry<P>>,
}

impl<P> ResourceTable<P> {
    /// The entries currently held, as a sequence (the key space itself is
    /// unordered; no operation promises anything about entry order).
    pub closed spec fn entries_seq(self) -> Seq<TableEntry<P>> {
        self.entries@
    }

    /// The id the allocator will issue next.
    pub closed spec fn next_id(self) -> ResourceId {
        self.next_rid
    }

    /// Whether `rid` names a live resource.
    pub open spec fn live(self, rid: ResourceId) -> bool {
        exists|i: int|
            0 <= i < self.entries_seq().len() && (#[trigger] self.entries_seq()[i]).rid == rid
    }

    /// The position of the entry for a live id.
    pub open spec fn idx_of(self, rid: ResourceId) -> int {
        choose|i: int|
            0 <= i < self.entries_seq().len() && (#[trigger] self.entries_seq()[i]).rid == rid
    }

    /// The kind tag of a live id.
    pub open spec fn kind_of(self, rid: ResourceId) -> ResourceKind {
        self.entries_seq()[self.idx_of(rid)].kind
    }

    /// The introspection snapshot at the spec level: every entry's id
    /// paired with the label of its kind.
    pub open spec fn entries_view(self) -> Seq<(ResourceId, Seq<char>)> {
        self.entries_seq().map_values(|e: TableEntry<P>| (e.rid, kind_label(e.kind)))
    }

    /// Well-formedness: ids are pairwise distinct and all below the
    /// allocator counter, and the counter never falls below 3, the first id
    /// past the reserved standard streams.
    pub open spec fn wf(self) -> bool {
        &&& self.next_id() >= 3
        &&& forall|i: int|
            0 <= i < self.entries_seq().len() ==> (#[trigger] self.entries_seq()[i]).rid
                < self.next_id()
        &&& forall|i: int, j: int|
            0 <= i < j < self.entries_seq().len() ==> (#[trigger] self.entries_seq()[i]).rid != (
            #[trigger] self.entries_seq()[j]).rid
    }

    /// A fresh table: exactly the three reserved standard streams are live
    /// and the allocator is about to issue 3.
    pub open spec fn is_fresh(self) -> bool {
        &&& self.next_id() == 3
        &&& self.entries_seq().len() == 3
        &&& self.entries_seq()[0].rid == 0 && self.entries_seq()[0].kind is Stdin
        &&& self.entries_seq()[1].rid == 1 && self.entries_seq()[1].kind is Stdout
        &&& self.entries_seq()[2].rid == 2 && self.entries_seq()[2].kind is Stderr
    }

    /// Pins down the entry position of a live id: it is unique, so the
    /// chosen index is the only one carrying the id.
    pub proof fn lemma_idx_of(self, rid: ResourceId)
        requires
            self.wf(),
            self.live(rid),
        ensures
            0 <= self.idx_of(rid) < self.entries_seq().len(),
            self.entries_seq()[self.idx_of(rid)].rid == rid,
            forall|i: int|
                0 <= i < self.entries_seq().len() && (#[trigger] self.entries_seq()[i]).rid == rid
                    ==> i == self.idx_of(rid),
    {
        let k = self.idx_of(rid);
        assert(0 <= k < self.entries_seq().len() && self.entries_seq()[k].rid == rid);
        assert forall|i: int|
            0 <= i < self.entries_seq().len() && (#[trigger] self.entries_seq()[i]).rid == rid
            implies i == k by {
            if i < k {
                assert(self.entries_seq()[i].rid != self.entries_seq()[k].rid);
            } else if k < i {
                assert(self.entries_seq()[k].rid != self.entries_seq()[i].rid);
            }
        }
    }

    /// The full effect of `insert`: `r` is the handle issued when `payload`
    /// was stored with tag `kind` into `pre`, turning it into `post`.  The
    /// issued id was not live before — a duplicate key is impossible — and
    /// every previously live id keeps its kind.
    pub open spec fn inserted(
        pre: Self,
        post: Self,
        r: Resource,
        kind: ResourceKind,
        payload: P,
    ) -> bool {
        &&& post.wf()
        &&& r.rid == pre.next_id()
        &&& !pre.live(r.rid)
        &&& r.rid >= 3
        &&& post.next_id() == pre.next_id() + 1
        &&& post.entries_seq() == pre.entries_seq().push(
            (TableEntry { rid: r.rid, kind, payload }),
        )
        &&& post.live(r.rid)
        &&& post.kind_of(r.rid) == kind
        &&& (forall|x: ResourceId| post.live(x) <==> (pre.live(x) || x == r.rid))
        &&& (forall|x: ResourceId|
            pre.live(x) ==> #[trigger] post.kind_of(x) == pre.kind_of(x))
    }

    /// The full effect of closing `rid`: its entry is gone — so no further
    /// operation on `rid` can be dispatched — and every other id keeps its
    /// liveness and kind.  The allocator does not move backwards, so the
    /// closed id is never issued again.
    pub open spec fn removed(pre: Self, post: Self, rid: ResourceId) -> bool {
        &&& post.wf()
        &&& !post.live(rid)
        &&& post.next_id() == pre.next_id()
        &&& post.entries_seq() == pre.entries_seq().remove(pre.idx_of(rid))
        &&& (forall|x: ResourceId| x != rid ==> (post.live(x) <==> pre.live(x)))
        &&& (forall|x: ResourceId|
            x != rid && pre.live(x) ==> #[trigger] post.kind_of(x) == pre.kind_of(x))
    }

    /// The effect of appending one entry with a fresh id: the new id is
    /// live with its kind, and every other id keeps its liveness and kind.
    proof fn lemma_push(pre: Self, post: Self, e: TableEntry<P>)
        requires
            pre.wf(),
            !pre.live(e.rid),
            post.entries_seq() == pre.entries_seq().push(e),
            pre.next_id() <= post.next_id(),
            e.rid < post.next_id(),
        ensures
            post.wf(),
            post.live(e.rid),
            post.kind_of(e.rid) == e.kind,
            forall|x: ResourceId| post.live(x) <==> (pre.live(x) || x == e.rid),
            forall|x: ResourceId|
                pre.live(x) ==> #[trigger] post.kind_of(x) == pre.kind_of(x),
    {
        let n = pre.entries_seq().len() as int;
        assert(post.entries_seq()[n] == e);
        assert(post.wf());
        assert(post.live(e.rid)) by {
            assert(post.entries_seq()[n].rid == e.rid);
        }
        post.lemma_idx_of(e.rid);
        assert(post.idx_of(e.rid) == n);
        assert forall|x: ResourceId| pre.live(x) implies #[trigger] post.live(x) by {
            pre.lemma_idx_of(x);
            let i = pre.idx_of(x);
            assert(post.entries_seq()[i].rid == x);
        }
        assert forall|x: ResourceId| post.live(x) implies (pre.live(x) || x == e.rid) by {
            let i = choose|i: int|
                0 <= i < post.entries_seq().len() && (#[trigger] post.entries_seq()[i]).rid == x;
            if i < n {
                assert(pre.entries_seq()[i].rid == x);
            }
        }
        assert forall|x: ResourceId| pre.live(x) implies #[trigger] post.kind_of(x)
            == pre.kind_of(x) by {
            pre.lemma_idx_of(x);
            let i = pre.idx_of(x);
            assert(post.entries_seq()[i].rid == x);
            post.lemma_idx_of(x);
        }
    }

    /// The effect of removing the entry of a live id: the id stops being
    /// live, and every other id keeps its liveness and kind.
    proof fn lemma_remove(pre: Self, post: Self, rid: ResourceId)
        requires
            pre.wf(),
            pre.live(rid),
            post.entries_seq() == pre.entries_seq().remove(pre.idx_of(rid)),
            post.next_id() == pre.next_id(),
        ensures
            post.wf(),
            !post.live(rid),
            forall|x: ResourceId| x != rid ==> (post.live(x) <==> pre.live(x)),
            forall|x: ResourceId|
                x != rid && pre.live(x) ==> #[trigger] post.kind_of(x) == pre.kind_of(x),
    {
        pre.lemma_idx_of(rid);
        let k = pre.idx_of(rid);
        pre.entries_seq().remove_ensures(k);
        assert(post.entries_seq().len() == pre.entries_seq().len() - 1);
        assert forall|i: int| 0 <= i < post.entries_seq().len() implies {
            &&& (#[trigger] post.entries_seq()[i]).rid < post.next_id()
            &&& post.entries_seq()[i].rid != rid
        } by {
            if i < k {
                assert(post.entries_seq()[i] == pre.entries_seq()[i]);
            } else {
                assert(post.entries_seq()[i] == pre.entries_seq()[i + 1]);
            }
        }
        assert forall|i: int, j: int| 0 <= i < j < post.entries_seq().len() implies (
        #[trigger] post.entries_seq()[i]).rid != (#[trigger] post.entries_seq()[j]).rid by {
            if i < k {
                assert(post.entries_seq()[i] == pre.entries_seq()[i]);
            } else {
                assert(post.entries_seq()[i] == pre.entries_seq()[i + 1]);
            }
            if j < k {
                assert(post.entries_seq()[j] == pre.entries_seq()[j]);
            } else {
                assert(post.entries_seq()[j] == pre.entries_seq()[j + 1]);
            }
        }
        assert(post.wf());
        assert(!post.live(rid));
        assert forall|x: ResourceId| x != rid && pre.live(x) implies #[trigger] post.live(x) by {
            pre.lemma_idx_of(x);
            let i0 = pre.idx_of(x);
            if i0 < k {
                assert(post.entries_seq()[i0] == pre.entries_seq()[i0]);
            } else {
                assert(post.entries_seq()[i0 - 1] == pre.entries_seq()[i0]);
            }
        }
        assert forall|x: ResourceId| x != rid && post.live(x) implies pre.live(x) by {
            let i = choose|i: int|
                0 <= i < post.entries_seq().len() && (#[trigger] post.entries_seq()[i]).rid == x;
            if i < k {
                assert(post.entries_seq()[i] == pre.entries_seq()[i]);
            } else {
                assert(post.entries_seq()[i] == pre.entries_seq()[i + 1]);
            }
        }
        assert forall|x: ResourceId| x != rid && pre.live(x) implies #[trigger] post.kind_of(x)
            == pre.kind_of(x) by {
            pre.lemma_idx_of(x);
            let i0 = pre.idx_of(x);
            if i0 < k {
                assert(post.entries_seq()[i0] == pre.entries_seq()[i0]);
            } else {
                assert(post.entries_seq()[i0 - 1] == pre.entries_seq()[i0]);
            }
            post.lemma_idx_of(x);
        }
    }

    /// Seeds a table with the three reserved standard streams.  Every
    /// process-wide store starts from this state.
    pub fn new(stdin: P, stdout: P, stderr: P) -> (t: Self)
        ensures
            t.wf(),
            t.is_fresh(),
    {
        let mut entries: Vec<TableEntry<P>> = Vec::new();
        entries.push(TableEntry { rid: 0, kind: ResourceKind::Stdin, payload: stdin });
        entries.push(TableEntry { rid: 1, kind: ResourceKind::Stdout, payload: stdout });
        entries.push(TableEntry { rid: 2, kind: ResourceKind::Stderr, payload: stderr });
        ResourceTable { next_rid: 3, entries }
    }

    /// Allocates the next id, stores the payload under it, and returns a
    /// handle.  The issued id is strictly larger than every id ever issued
    /// before, so a duplicate key is impossible; exhaustion of the 32-bit
    /// id space is an unrecoverable condition and is excluded here.
    pub fn insert(&mut self, kind: ResourceKind, payload: P) -> (r: Resource)
        requires
            old(self).wf(),
            old(self).next_id() < u32::MAX,
        ensures
            Self::inserted(*old(self), *final(self), r, kind, payload),
    {
        let rid = self.next_rid;
        self.next_rid = self.next_rid + 1;
        let entry = TableEntry { rid, kind, payload };
        let ghost e = entry;
        self.entries.push(entry);
        proof {
            assert(!old(self).live(rid));
            Self::lemma_push(*old(self), *self, e);
        }
        Resource { rid }
    }

    /// Reads the id the allocator will issue next, so a caller can test
    /// for id-space headroom before registering anything.
    pub fn next_rid(&self) -> (n: ResourceId)
        ensures
            n == self.next_id(),
    {
        self.next_rid
    }

    /// Finds the entry position of a live id.
    fn index_of(&self, rid: ResourceId) -> (i: usize)
        requires
            self.wf(),
            self.live(rid),
        ensures
            i as int == self.idx_of(rid),
    {
        let n = self.entries.len();
        let mut i: usize = 0;
        while i < n
            invariant
                n == self.entries_seq().len(),
                0 <= i <= n,
                self.wf(),
                self.live(rid),
                forall|j: int| 0 <= j < i ==> (#[trigger] self.entries_seq()[j]).rid != rid,
            decreases n - i,
        {
            if self.entries[i].rid == rid {
                proof {
                    self.lemma_idx_of(rid);
                }
                return i;
            }
            i = i + 1;
        }
        proof {
            self.lemma_idx_of(rid);
            assert(false);
        }
        unreached()
    }

    /// Reads the kind tag of a live id.
    pub fn kind_at(&self, rid: ResourceId) -> (k: ResourceKind)
        requires
            self.wf(),
            self.live(rid),
        ensures
            k == self.kind_of(rid),
    {
        let i = self.index_of(rid);
        self.entries[i].kind
    }

    /// Removes the entry of a live id and hands its kind and payload out,
    /// granting the caller exclusive access to the payload, as holding the
    /// table lock does.  Calling this on an absent id would be a fatal
    /// contract violation, so such ids are excluded here; the layer above
    /// must check liveness first and abort if it does not hold.
    pub fn take_payload(&mut self, rid: ResourceId) -> (out: (ResourceKind, P))
        requires
            old(self).wf(),
            old(self).live(rid),
        ensures
            Self::removed(*old(self), *final(self), rid),
            out.0 == old(self).kind_of(rid),
            out.1 == old(self).entries_seq()[old(self).idx_of(rid)].payload,
            rid < final(self).next_id(),
    {
        let i = self.index_of(rid);
        let e = self.entries.remove(i);
        proof {
            old(self).lemma_idx_of(rid);
            Self::lemma_remove(*old(self), *self, rid);
        }
        (e.kind, e.payload)
    }

    /// Puts a payload taken by `take_payload` back under its id.  The id
    /// must be one the allocator has already issued and must not be live,
    /// so the id stays unique and is still never reused.
    pub fn restore_payload(&mut self, rid: ResourceId, kind: ResourceKind, payload: P)
        requires
            old(self).wf(),
            !old(self).live(rid),
            rid < old(self).next_id(),
        ensures
            final(self).wf(),
            final(self).next_id() == old(self).next_id(),
            final(self).entries_seq() == old(self).entries_seq().push(
                (TableEntry { rid, kind, payload }),
            ),
            final(self).live(rid),
            final(self).kind_of(rid) == kind,
            forall|x: ResourceId| final(self).live(x) <==> (old(self).live(x) || x == rid),
            forall|x: ResourceId|
                old(self).live(x) ==> #[trigger] final(self).kind_of(x) == old(self).kind_of(x),
    {
        let entry = TableEntry { rid, kind, payload };
        let ghost e = entry;
        self.entries.push(entry);
        proof {
            Self::lemma_push(*old(self), *self, e);
        }
    }
}

impl Resource {
    /// Removes the id's entry from the table and drops its payload, which
    /// releases the underlying OS object.  Closing an id that is not live
    /// (a double close, or an unknown id) would be a fatal contract
    /// violation and is excluded here; after this call no operation on the
    /// id can be dispatched again.
    pub fn close<P>(self, table: &mut ResourceTable<P>)
        requires
            old(table).wf(),
            old(table).live(self.rid),
        ensures
            ResourceTable::removed(*old(table), *final(table), self.rid),
    {
        let _taken = table.take_payload(self.rid);
    }
}

/// Looks an id up, returning a handle when it is live.  Unlike the
/// low-level dispatch path, an absent id here is answered with `None`, not
/// treated as fatal.
pub fn lookup<P>(table: &ResourceTable<P>, rid: ResourceId) -> (r: Option<Resource>)
    ensures
        r is Some <==> table.live(rid),
        r matches Some(res) ==> res.rid == rid,
{
    let n = table.entries.len();
    let mut i: usize = 0;
    while i < n
        invariant
            n == table.entries_seq().len(),
            0 <= i <= n,
            forall|j: int| 0 <= j < i ==> (#[trigger] table.entries_seq()[j]).rid != rid,
        decreases n - i,
    {
        if table.entries[i].rid == rid {
            return Some(Resource { rid });
        }
        i = i + 1;
    }
    None
}

/// A point-in-time introspection snapshot: every live id paired with the
/// label of its kind, each live id appearing exactly once.  No order is
/// promised beyond that; the ids are an unordered key space.
pub fn table_entries<P>(table: &ResourceTable<P>) -> (r: Vec<(ResourceId, String)>)
    ensures
        r@.len() == table.entries_view().len(),
        forall|i: int|
            0 <= i < r@.len() ==> (#[trigger] r@[i]).0 == table.entries_view()[i].0
                && r@[i].1@ == table.entries_view()[i].1,
{
    let mut out: Vec<(ResourceId, String)> = Vec::new();
    let n = table.entries.len();
    let mut i: usize = 0;
    while i < n
        invariant
            n == table.entries_seq().len(),
            0 <= i <= n,
            out@.len() == i,
            forall|j: int|
                0 <= j < i ==> (#[trigger] out@[j]).0 == table.entries_view()[j].0 && out@[j].1@
                    == table.entries_view()[j].1,
        decreases n - i,
    {
        let label = inspect_repr(&table.entries[i].kind);
        out.push((table.entries[i].rid, label));
        i = i + 1;
    }
    out
}

/// Registers an opened file, returning its handle.
pub fn add_fs_file<P>(table: &mut ResourceTable<P>, fs_file: P) -> (r: Resource)
    requires
        old(table).wf(),
        old(table).next_id() < u32::MAX,
    ensures
        ResourceTable::inserted(*old(table), *final(table), r, ResourceKind::FsFile, fs_file),
{
    table.insert(ResourceKind::FsFile, fs_file)
}

/// Registers a TCP listener, returning its handle.
pub fn add_tcp_listener<P>(table: &mut ResourceTable<P>, listener: P) -> (r: Resource)
    requires
        old(table).wf(),
        old(table).next_id() < u32::MAX,
    ensures
        ResourceTable::inserted(
            *old(table),
            *final(table),
            r,
            ResourceKind::TcpListener,
            listener,
        ),
{
    table.insert(ResourceKind::TcpListener, listener)
}

/// Registers a connected TCP stream, returning its handle.
pub fn add_tcp_stream<P>(table: &mut ResourceTable<P>, stream: P) -> (r: Resource)
    requires
        old(table).wf(),
        old(table).next_id() < u32::MAX,
    ensures
        ResourceTable::inserted(*old(table), *final(table), r, ResourceKind::TcpStream, stream),
{
    table.insert(ResourceKind::TcpStream, stream)
}

/// Registers an HTTP response body, returning its handle.
pub fn add_hyper_body<P>(table: &mut ResourceTable<P>, body: P) -> (r: Resource)
    requires
        old(table).wf(),
        old(table).next_id() < u32::MAX,
    ensures
        ResourceTable::inserted(*old(table), *final(table), r, ResourceKind::HttpBody, body),
{
    table.insert(ResourceKind::HttpBody, body)
}

/// Registers an interactive line-reader session, returning its handle.
pub fn add_repl<P>(table: &mut ResourceTable<P>, repl: P) -> (r: Resource)
    requires
        old(table).wf(),
        old(table).next_id() < u32::MAX,
    ensures
        ResourceTable::inserted(*old(table), *final(table), r, ResourceKind::Repl, repl),
{
    table.insert(ResourceKind::Repl, repl)
}

/// Validates that an id names the interactive line-reader session, the
/// first step of the prompt-and-read operation.  This path is reachable
/// from script-level mistakes, so an id that is absent or of another kind
/// is answered with the recoverable "bad resource" error, never fatally.
pub fn readline_resource<P>(table: &ResourceTable<P>, rid: ResourceId) -> (r: Result<
    Resource,
    ResourceError,
>)
    requires
        table.wf(),
    ensures
        r is Ok <==> (table.live(rid) && table.kind_of(rid) is Repl),
        r matches Ok(res) ==> res.rid == rid,
        r matches Err(e) ==> e == ResourceError::BadResource(rid),
{
    match lookup(table, rid) {
        None => Err(bad_resource(rid)),
        Some(res) => {
            let k = table.kind_at(rid);
            match k {
                ResourceKind::Repl => Ok(res),
                _ => Err(bad_resource(rid)),
            }
        },
    }
}

} // verus!
