use deno_resources::IoOp;
use deno_resources::IoPath;
use deno_resources::ResourceError;
use deno_resources::ResourceItem;
use deno_resources::ResourceKind;
use deno_resources::ResourceManager;
use deno_resources::ResourceTable;
use deno_resources::SpawnedChild;
use deno_resources::WorkItem;
use deno_resources::add_child;
use deno_resources::add_fs_file;
use deno_resources::add_repl;
use deno_resources::add_tcp_listener;
use deno_resources::add_tcp_stream;
use deno_resources::bad_resource;
use deno_resources::child_status;
use deno_resources::eager_path;
use deno_resources::inspect_repr;
use deno_resources::lookup;
use deno_resources::readline_resource;
use deno_resources::supports_op;
use deno_resources::table_entries;

fn fresh() -> ResourceTable<i32> {
    ResourceTable::new(0, 1, 2)
}

#[test]
fn test_table_entries() {
    let table = fresh();
    let mut entries = table_entries(&table);
    entries.sort();
    assert_eq!(entries.len(), 3);
    assert_eq!(entries[0], (0, String::from("stdin")));
    assert_eq!(entries[1], (1, String::from("stdout")));
    assert_eq!(entries[2], (2, String::from("stderr")));
}

#[test]
fn test_insert_ids_distinct_and_past_reserved() {
    let mut table = fresh();
    let kinds = [
        ResourceKind::FsFile,
        ResourceKind::TcpListener,
        ResourceKind::TcpStream,
        ResourceKind::HttpBody,
        ResourceKind::Repl,
    ];
    let mut rids = Vec::new();
    for (i, kind) in kinds.iter().enumerate() {
        rids.push(table.insert(*kind, i as i32).rid);
    }
    for i in 0..rids.len() {
        assert!(rids[i] >= 3);
        for j in 0..i {
            assert_ne!(rids[i], rids[j]);
        }
    }
    assert_eq!(rids, vec![3, 4, 5, 6, 7]);
}

#[test]
fn test_close_removes_and_id_is_not_reused() {
    let mut table = fresh();
    let r = add_fs_file(&mut table, 10);
    let rid = r.rid;
    assert!(lookup(&table, rid).is_some());
    r.close(&mut table);
    assert!(lookup(&table, rid).is_none());
    let next = add_fs_file(&mut table, 11);
    assert_ne!(next.rid, rid);
    assert_eq!(table_entries(&table).len(), 4);
}

#[test]
fn test_take_and_restore_payload() {
    let mut table = fresh();
    let r = add_tcp_stream(&mut table, 42);
    let (kind, payload) = table.take_payload(r.rid);
    assert_eq!(kind, ResourceKind::TcpStream);
    assert_eq!(payload, 42);
    assert!(lookup(&table, r.rid).is_none());
    table.restore_payload(r.rid, kind, payload);
    assert!(lookup(&table, r.rid).is_some());
    assert_eq!(table.kind_at(r.rid), ResourceKind::TcpStream);
}

#[test]
fn test_child_status_bad_resource() {
    let mut table = fresh();
    let r = add_tcp_stream(&mut table, 7);
    match child_status(&table, r.rid) {
        Err(ResourceError::BadResource(rid)) => assert_eq!(rid, r.rid),
        _ => panic!("a non-child id must be answered with the bad-resource error"),
    }
    match child_status(&table, 999) {
        Err(ResourceError::BadResource(rid)) => assert_eq!(rid, 999),
        _ => panic!("an absent id must be answered with the bad-resource error"),
    }
}

#[test]
fn test_child_status_on_child() {
    let mut table = fresh();
    let spawned = SpawnedChild { stdin: None, stdout: None, stderr: None, child: 50 };
    let bundle = add_child(&mut table, spawned);
    let status = child_status(&table, bundle.child_rid).expect("a child id must be accepted");
    assert_eq!(status.rid(), bundle.child_rid);
}

#[test]
fn test_add_child_capturing_only_stdout() {
    let mut table = fresh();
    let spawned = SpawnedChild { stdin: None, stdout: Some(20), stderr: None, child: 21 };
    let bundle = add_child(&mut table, spawned);
    assert_eq!(bundle.stdin_rid, None);
    assert_eq!(bundle.stderr_rid, None);
    let stdout_rid = bundle.stdout_rid.expect("the captured stdout must get an id");
    assert_eq!(stdout_rid, 3);
    assert_eq!(bundle.child_rid, 4);
    let entries = table_entries(&table);
    let label = entries
        .iter()
        .find(|(rid, _)| *rid == stdout_rid)
        .map(|(_, label)| label.clone())
        .expect("the stdout pipe must be live");
    assert_eq!(label, "childStdout");
}

#[test]
fn test_add_child_capturing_all() {
    let mut table = fresh();
    let spawned = SpawnedChild { stdin: Some(1), stdout: Some(2), stderr: Some(3), child: 4 };
    let bundle = add_child(&mut table, spawned);
    assert_eq!(bundle.stdin_rid, Some(3));
    assert_eq!(bundle.stdout_rid, Some(4));
    assert_eq!(bundle.stderr_rid, Some(5));
    assert_eq!(bundle.child_rid, 6);
    assert_eq!(table_entries(&table).len(), 7);
}

#[test]
fn test_readline_resource() {
    let mut table = fresh();
    let repl = add_repl(&mut table, 30);
    let file = add_fs_file(&mut table, 31);
    let ok = readline_resource(&table, repl.rid).expect("the session id must be accepted");
    assert_eq!(ok.rid, repl.rid);
    assert_eq!(
        readline_resource(&table, file.rid),
        Err(ResourceError::BadResource(file.rid))
    );
    assert_eq!(readline_resource(&table, 999), Err(ResourceError::BadResource(999)));
}

#[test]
fn test_eager_path_is_tcp_only() {
    let mut table = fresh();
    let stream = add_tcp_stream(&mut table, 1);
    let listener = add_tcp_listener(&mut table, 2);
    let file = add_fs_file(&mut table, 3);
    assert_eq!(eager_path(&table, stream.rid, &IoOp::Read, true), IoPath::Eager);
    assert_eq!(eager_path(&table, stream.rid, &IoOp::Write, true), IoPath::Eager);
    assert_eq!(eager_path(&table, stream.rid, &IoOp::Accept, true), IoPath::Generic);
    assert_eq!(eager_path(&table, stream.rid, &IoOp::Shutdown, true), IoPath::Generic);
    assert_eq!(eager_path(&table, listener.rid, &IoOp::Accept, true), IoPath::Eager);
    assert_eq!(eager_path(&table, listener.rid, &IoOp::Read, true), IoPath::Generic);
    assert_eq!(eager_path(&table, file.rid, &IoOp::Read, true), IoPath::Generic);
    assert_eq!(eager_path(&table, file.rid, &IoOp::Write, true), IoPath::Generic);
}

#[test]
fn test_eager_path_needs_sync_io() {
    let mut table = fresh();
    let stream = add_tcp_stream(&mut table, 1);
    assert_eq!(eager_path(&table, stream.rid, &IoOp::Read, false), IoPath::Generic);
    assert_eq!(eager_path(&table, stream.rid, &IoOp::Write, false), IoPath::Generic);
}

#[test]
fn test_capability_matrix() {
    let readable = [
        ResourceKind::Stdin,
        ResourceKind::FsFile,
        ResourceKind::TcpStream,
        ResourceKind::HttpBody,
        ResourceKind::ChildStdout,
        ResourceKind::ChildStderr,
    ];
    let writable = [
        ResourceKind::Stdout,
        ResourceKind::Stderr,
        ResourceKind::FsFile,
        ResourceKind::TcpStream,
        ResourceKind::ChildStdin,
    ];
    let all = [
        ResourceKind::Stdin,
        ResourceKind::Stdout,
        ResourceKind::Stderr,
        ResourceKind::FsFile,
        ResourceKind::TcpListener,
        ResourceKind::TcpStream,
        ResourceKind::HttpBody,
        ResourceKind::Repl,
        ResourceKind::Child,
        ResourceKind::ChildStdin,
        ResourceKind::ChildStdout,
        ResourceKind::ChildStderr,
    ];
    for kind in all.iter() {
        assert_eq!(supports_op(kind, &IoOp::Read), readable.contains(kind));
        assert_eq!(supports_op(kind, &IoOp::Write), writable.contains(kind));
        assert_eq!(supports_op(kind, &IoOp::Accept), *kind == ResourceKind::TcpListener);
        assert_eq!(supports_op(kind, &IoOp::Shutdown), *kind == ResourceKind::TcpStream);
    }
}

#[test]
fn test_labels_of_all_kinds() {
    let expected = [
        (ResourceKind::Stdin, "stdin"),
        (ResourceKind::Stdout, "stdout"),
        (ResourceKind::Stderr, "stderr"),
        (ResourceKind::FsFile, "fsFile"),
        (ResourceKind::TcpListener, "tcpListener"),
        (ResourceKind::TcpStream, "tcpStream"),
        (ResourceKind::HttpBody, "httpBody"),
        (ResourceKind::Repl, "repl"),
        (ResourceKind::Child, "child"),
        (ResourceKind::ChildStdin, "childStdin"),
        (ResourceKind::ChildStdout, "childStdout"),
        (ResourceKind::ChildStderr, "childStderr"),
    ];
    for (kind, label) in expected.iter() {
        assert_eq!(inspect_repr(kind), *label);
    }
}

#[test]
fn test_lookup_reserved_and_absent() {
    let table = fresh();
    for rid in 0..3 {
        let res = lookup(&table, rid).expect("the reserved streams are always live");
        assert_eq!(res.rid, rid);
    }
    assert!(lookup(&table, 3).is_none());
    assert!(lookup(&table, 999).is_none());
}

#[test]
fn test_bad_resource_error_value() {
    assert_eq!(bad_resource(7), ResourceError::BadResource(7));
}

#[test]
fn test_allocator_starts_past_reserved_and_advances() {
    let mut table = fresh();
    assert_eq!(table.next_rid(), 3);
    let first = table.insert(ResourceKind::FsFile, 0);
    assert_eq!(first.rid, 3);
    assert_eq!(table.next_rid(), 4);
    first.close(&mut table);
    assert_eq!(table.next_rid(), 4);
}

#[test]
fn test_manager_handles_requests_in_order() {
    let mut manager: ResourceManager<i32> = ResourceManager::new(0, 1, 2);
    let first = manager.handle(WorkItem::Insert { kind: ResourceKind::FsFile, payload: 10 });
    let rid_one = match first {
        ResourceItem::Insert(res) => res.rid,
        _ => panic!("an insert request must be answered with an insert reply"),
    };
    assert_eq!(rid_one, 3);
    let second = manager.handle(WorkItem::InsertChild {
        child: SpawnedChild { stdin: None, stdout: Some(11), stderr: None, child: 12 },
    });
    let bundle = match second {
        ResourceItem::InsertChild(bundle) => bundle,
        _ => panic!("a child request must be answered with a child reply"),
    };
    assert_eq!(bundle.stdout_rid, Some(4));
    assert_eq!(bundle.child_rid, 5);
    let third = manager.handle(WorkItem::CollectEntries);
    match third {
        ResourceItem::CollectEntries(entries) => assert_eq!(entries.len(), 6),
        _ => panic!("a snapshot request must be answered with a snapshot reply"),
    }
}

#[test]
fn test_manager_entry_points() {
    let mut manager: ResourceManager<i32> = ResourceManager::new(0, 1, 2);
    assert_eq!(manager.add_fs_file(1).rid, 3);
    assert_eq!(manager.add_tcp_listener(2).rid, 4);
    assert_eq!(manager.add_tcp_stream(3).rid, 5);
    assert_eq!(manager.add_hyper_body(4).rid, 6);
    assert_eq!(manager.add_repl(5).rid, 7);
    let mut entries = manager.table_entries();
    entries.sort();
    assert_eq!(entries.len(), 8);
    assert_eq!(entries[3], (3, String::from("fsFile")));
    assert_eq!(entries[4], (4, String::from("tcpListener")));
    assert_eq!(entries[5], (5, String::from("tcpStream")));
    assert_eq!(entries[6], (6, String::from("httpBody")));
    assert_eq!(entries[7], (7, String::from("repl")));
}

#[test]
fn test_manager_close_stops_accepting() {
    let mut manager: ResourceManager<i32> = ResourceManager::new(0, 1, 2);
    assert!(manager.is_alive());
    manager.close();
    assert!(!manager.is_alive());
}
