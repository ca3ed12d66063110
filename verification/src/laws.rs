//! Crate-wide laws: properties that span several operations, stated and
//! proved once over the spec-level relations the operations ensure.

use vstd::prelude::*;

use crate::kind::IoOp;
use crate::kind::ResourceKind;
use crate::kind::supports;
use crate::manager::ResourceManager;
use crate::manager::WorkItem;
use crate::table::Resource;
use crate::table::ResourceId;
use crate::table::ResourceTable;

verus! {

/// On a fresh store, the introspection snapshot holds exactly the three
/// reserved standard streams: (0, "stdin"), (1, "stdout"), (2, "stderr")
/// and nothing else.
pub proof fn lemma_fresh_snapshot<P>(t: ResourceTable<P>)
    requires
        t.is_fresh(),
    ensures
        t.entries_view() == seq![
            (0u32, "stdin"@),
            (1u32, "stdout"@),
            (2u32, "stderr"@),
        ],
{
    assert(t.entries_view() =~= seq![(0u32, "stdin"@), (1u32, "stdout"@), (2u32, "stderr"@)]);
}

/// Some insertion turned `pre` into `post` and returned the id `rid`.
/// This holds by contract after `ResourceTable::insert` and each
/// registration entry point, and after the manager handled an `Insert`
/// request.
pub open spec fn insert_happened<P>(
    pre: ResourceTable<P>,
    post: ResourceTable<P>,
    rid: ResourceId,
) -> bool {
    exists|kind: ResourceKind, payload: P, r: Resource|
        #[trigger] ResourceTable::inserted(pre, post, r, kind, payload) && r.rid == rid
}

/// Bridges one call's contract to the run relation: whoever holds
/// `ResourceTable::inserted` — directly from `insert` or a registration
/// entry point, or from the manager's reply to an `Insert` request — holds
/// `insert_happened` for the returned id.
pub proof fn lemma_inserted_is_insert_happened<P>(
    pre: ResourceTable<P>,
    post: ResourceTable<P>,
    r: Resource,
    kind: ResourceKind,
    payload: P,
)
    requires
        ResourceTable::inserted(pre, post, r, kind, payload),
    ensures
        insert_happened(pre, post, r.rid),
{
}

/// The allocator counter after `i` insertions in a row: it has advanced by
/// exactly one per insertion.
proof fn lemma_insert_run_counter<P>(
    tables: Seq<ResourceTable<P>>,
    rids: Seq<ResourceId>,
    i: int,
)
    requires
        tables.len() == rids.len() + 1,
        forall|j: int|
            0 <= j < rids.len() ==> #[trigger] insert_happened(tables[j], tables[j + 1], rids[j]),
        0 <= i <= rids.len(),
    ensures
        tables[i].next_id() == tables[0].next_id() + i,
        i < rids.len() ==> rids[i] == tables[0].next_id() + i && rids[i] >= 3,
    decreases i,
{
    if i > 0 {
        lemma_insert_run_counter(tables, rids, i - 1);
        let j = i - 1;
        assert(insert_happened(tables[j], tables[j + 1], rids[j]));
        let (kind, payload, r) = choose|kind: ResourceKind, payload: P, r: Resource|
            #[trigger] ResourceTable::inserted(tables[j], tables[j + 1], r, kind, payload)
                && r.rid == rids[j];
        assert(tables[j + 1].next_id() == tables[j].next_id() + 1);
    }
    if i < rids.len() {
        assert(insert_happened(tables[i], tables[i + 1], rids[i]));
        let (kind, payload, r) = choose|kind: ResourceKind, payload: P, r: Resource|
            #[trigger] ResourceTable::inserted(tables[i], tables[i + 1], r, kind, payload)
                && r.rid == rids[i];
        assert(rids[i] == tables[i].next_id());
        assert(r.rid >= 3);
    }
}

/// For every run of insertions with no closes — `tables` being the stores
/// the table passes through and `rids` the ids returned, one per step —
/// the returned ids are pairwise distinct and each at least 3.  Under the
/// manager this also covers concurrent callers: the worker serializes
/// their requests into exactly such a run.
pub proof fn lemma_insert_run_ids_distinct<P>(
    tables: Seq<ResourceTable<P>>,
    rids: Seq<ResourceId>,
)
    requires
        tables.len() == rids.len() + 1,
        forall|j: int|
            0 <= j < rids.len() ==> #[trigger] insert_happened(tables[j], tables[j + 1], rids[j]),
    ensures
        forall|i: int, j: int| 0 <= i < j < rids.len() ==> rids[i] != rids[j],
        forall|i: int| 0 <= i < rids.len() ==> rids[i] >= 3,
{
    assert forall|i: int| 0 <= i < rids.len() implies rids[i] == tables[0].next_id() + i && rids[i]
        >= 3 by {
        lemma_insert_run_counter(tables, rids, i);
    }
    assert forall|i: int, j: int| 0 <= i < j < rids.len() implies rids[i] != rids[j] by {
        lemma_insert_run_counter(tables, rids, i);
        lemma_insert_run_counter(tables, rids, j);
    }
}

/// One step of the table's life: some insertion happened, or some id was
/// closed.  Every mutating operation of the table ensures one of the two.
pub open spec fn evolves<P>(pre: ResourceTable<P>, post: ResourceTable<P>) -> bool {
    ||| exists|rid: ResourceId| #[trigger] insert_happened(pre, post, rid)
    ||| exists|rid: ResourceId| #[trigger] ResourceTable::removed(pre, post, rid)
}

/// Along any run of insertions and closes, well-formedness is kept and the
/// allocator counter never moves backwards.
proof fn lemma_run_wf_and_monotone<P>(tables: Seq<ResourceTable<P>>, i: int)
    requires
        forall|j: int|
            0 <= j < tables.len() - 1 ==> #[trigger] evolves(tables[j], tables[j + 1]),
        tables[0].wf(),
        0 <= i < tables.len(),
    ensures
        tables[i].wf(),
        tables[0].next_id() <= tables[i].next_id(),
    decreases i,
{
    if i > 0 {
        lemma_run_wf_and_monotone(tables, i - 1);
        let j = i - 1;
        assert(evolves(tables[j], tables[j + 1]));
        if exists|rid: ResourceId| #[trigger] insert_happened(tables[j], tables[j + 1], rid) {
            let rid = choose|rid: ResourceId|
                #[trigger] insert_happened(tables[j], tables[j + 1], rid);
            let (kind, payload, r) = choose|kind: ResourceKind, payload: P, r: Resource|
                #[trigger] ResourceTable::inserted(tables[j], tables[j + 1], r, kind, payload)
                    && r.rid == rid;
        } else {
            let rid = choose|rid: ResourceId|
                #[trigger] ResourceTable::removed(tables[j], tables[j + 1], rid);
        }
    }
}

/// Ids are never reused, closes included: an insertion anywhere in a run
/// returns an id no smaller than the allocator counter at any earlier
/// point of the run — so it differs from every id that was live earlier,
/// among them every id closed in between.
pub proof fn lemma_ids_never_reused<P>(
    tables: Seq<ResourceTable<P>>,
    k: int,
    m: int,
    rid: ResourceId,
)
    requires
        forall|j: int|
            0 <= j < tables.len() - 1 ==> #[trigger] evolves(tables[j], tables[j + 1]),
        tables[0].wf(),
        0 <= k <= m < tables.len() - 1,
        insert_happened(tables[m], tables[m + 1], rid),
    ensures
        rid >= tables[k].next_id(),
        forall|x: ResourceId| tables[k].live(x) ==> rid != x,
{
    lemma_run_wf_and_monotone(tables, k);
    let sub = tables.subrange(k, tables.len() as int);
    assert forall|j: int| 0 <= j < sub.len() - 1 implies #[trigger] evolves(
        sub[j],
        sub[j + 1],
    ) by {
        assert(sub[j] == tables[k + j]);
        assert(sub[j + 1] == tables[k + j + 1]);
        assert(evolves(tables[k + j], tables[k + j + 1]));
    }
    lemma_run_wf_and_monotone(sub, m - k);
    assert(tables[k].next_id() <= tables[m].next_id());
    let (kind, payload, r) = choose|kind: ResourceKind, payload: P, r: Resource|
        #[trigger] ResourceTable::inserted(tables[m], tables[m + 1], r, kind, payload) && r.rid
            == rid;
    assert(rid == tables[m].next_id());
    assert forall|x: ResourceId| tables[k].live(x) implies rid != x by {
        tables[k].lemma_idx_of(x);
    }
}

/// Once an id is closed, any operation on it through the low-level
/// dispatch path is fatal: the id is no longer live, so the precondition
/// of every by-id operation — taking the payload, deciding the eager path,
/// closing again — is violated, and in the running system the attempt
/// aborts instead of silently doing nothing.
pub proof fn lemma_close_then_dispatch_fatal<P>(
    pre: ResourceTable<P>,
    post: ResourceTable<P>,
    rid: ResourceId,
    op: IoOp,
)
    requires
        ResourceTable::removed(pre, post, rid),
    ensures
        !post.live(rid),
        !(post.live(rid) && supports(post.kind_of(rid), op)),
{
}

/// Once the manager is closed, no submission is accepted any more: the
/// worker is no longer alive, so the precondition of `handle` — and with
/// it of every request entry point — is violated for every request, and in
/// the running system a submission aborts.
pub proof fn lemma_closed_manager_refuses<P>(m: ResourceManager<P>)
    requires
        !m.alive(),
    ensures
        forall|item: WorkItem<P>| !(#[trigger] ResourceManager::submit_allowed(m, item)),
{
}

} // verus!
