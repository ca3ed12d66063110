//! An integer-indexed resource table for a script-engine host process.
//!
//! Privileged host code refers to heterogeneous OS-level I/O primitives
//! (standard streams, files, TCP sockets, HTTP bodies, a line-reader
//! session, child processes and their pipes) by small numeric ids.  This
//! crate holds the verified core of that layer: the table that maps ids to
//! tagged payloads, the id allocator, the per-kind capability rules, the
//! child-process bookkeeping, the eager-I/O path decision, and the request
//! step function of the actor-style manager.  The payload type is a
//! parameter, so the table owns the OS primitives without the core ever
//! touching them; the unverified shell around the crate performs the actual
//! system calls, thread, and channel work.

use vstd::prelude::*;

mod child;
mod eager;
mod kind;
mod laws;
mod manager;
mod table;

verus! {

pub use child::ChildResources;
pub use child::ChildStatus;
pub use child::SpawnedChild;
pub use child::add_child;
pub use child::check_child_kind;
pub use child::child_added;
pub use child::child_status;
pub use eager::IoPath;
pub use eager::eager_applies;
pub use eager::eager_path;
pub use kind::IoOp;
pub use kind::ResourceKind;
pub use kind::can_accept;
pub use kind::can_read;
pub use kind::can_shutdown;
pub use kind::can_write;
pub use kind::inspect_repr;
pub use kind::kind_label;
pub use kind::supports;
pub use kind::supports_op;
pub use laws::evolves;
pub use laws::insert_happened;
pub use laws::lemma_close_then_dispatch_fatal;
pub use laws::lemma_closed_manager_refuses;
pub use laws::lemma_fresh_snapshot;
pub use laws::lemma_ids_never_reused;
pub use laws::lemma_insert_run_ids_distinct;
pub use laws::lemma_inserted_is_insert_happened;
pub use manager::ResourceItem;
pub use manager::ResourceManager;
pub use manager::WorkItem;
pub use table::Resource;
pub use table::ResourceError;
pub use table::ResourceId;
pub use table::ResourceTable;
pub use table::TableEntry;
pub use table::add_fs_file;
pub use table::add_hyper_body;
pub use table::add_repl;
pub use table::add_tcp_listener;
pub use table::add_tcp_stream;
pub use table::bad_resource;
pub use table::lookup;
pub use table::readline_resource;
pub use table::table_entries;

} // verus!
