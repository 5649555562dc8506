use humon::bounded::{BoundedString, IpAddr};
use humon::capture::{
    get_task_info, trace_bind, trace_bind_ret, trace_connect, trace_connect_ret, trace_coredump,
    trace_execve, trace_mount, trace_openat, trace_openat_ret, trace_read, trace_read_ret,
    trace_setuid, trace_signal, trace_write, trace_write_ret, FileIoContext, FileOpenContext,
    NetBindContext, NetConnectContext, TaskInfo,
};
use humon::correlation::CorrelationTable;
use humon::event::{EventData, EventType};

fn task(pid: u32, tid: u32) -> TaskInfo {
    get_task_info(((pid as u64) << 32) | tid as u64, (20u64 << 32) | 10, 5_000_000)
}

#[test]
fn task_info_splits_the_kernel_ids() {
    let t = get_task_info(0x0000_0064_0000_0065, 0x0000_03e9_0000_03e8, 42);
    assert_eq!(t.pid, 100);
    assert_eq!(t.tid, 101);
    assert_eq!(t.uid, 1000);
    assert_eq!(t.gid, 1001);
    assert_eq!(t.timestamp_ns, 42);
    assert_eq!(t.key(), 0x0000_0064_0000_0065);
}

#[test]
fn open_entry_then_exit_emits_one_joined_event() {
    let mut table: CorrelationTable<FileOpenContext> = CorrelationTable::new(16);
    let t = task(300, 301);
    assert!(trace_openat(&mut table, &t, b"/etc/passwd", 0o2, 0o644));
    assert_eq!(table.len(), 1);
    let e = trace_openat_ret(&mut table, &t, 3).expect("matched exit emits");
    assert_eq!(e.event_type, EventType::FileOpen);
    assert_eq!((e.pid, e.tid, e.uid, e.gid, e.timestamp_ns), (300, 301, 10, 20, 5_000_000));
    match e.data {
        EventData::FileOpen(p) => {
            assert_eq!(p.path.as_bytes(), b"/etc/passwd");
            assert_eq!(p.flags, 0o2);
            assert_eq!(p.mode, 0o644);
            assert_eq!(p.fd, 3);
        }
        _ => panic!("wrong payload"),
    }
    assert_eq!(table.len(), 0);
    assert!(trace_openat_ret(&mut table, &t, 3).is_none());
}

#[test]
fn exit_without_entry_emits_nothing() {
    let mut opens: CorrelationTable<FileOpenContext> = CorrelationTable::new(4);
    let mut reads: CorrelationTable<FileIoContext> = CorrelationTable::new(4);
    let t = task(1, 2);
    assert!(trace_openat_ret(&mut opens, &t, 5).is_none());
    assert!(trace_read_ret(&mut reads, &t, 5).is_none());
    assert!(trace_read(&mut reads, &task(1, 3), 0, 10));
    assert!(trace_read_ret(&mut reads, &t, 5).is_none());
    assert_eq!(reads.len(), 1);
}

#[test]
fn reentrant_entry_replaces_the_stale_context() {
    let mut reads: CorrelationTable<FileIoContext> = CorrelationTable::new(4);
    let t = task(9, 9);
    assert!(trace_read(&mut reads, &t, 3, 100));
    assert!(trace_read(&mut reads, &t, 4, 200));
    assert_eq!(reads.len(), 1);
    let e = trace_read_ret(&mut reads, &t, 150).unwrap();
    match e.data {
        EventData::FileRead(p) => assert_eq!((p.fd, p.count, p.ret), (4, 200, 150)),
        _ => panic!("wrong payload"),
    }
    assert!(trace_read_ret(&mut reads, &t, 150).is_none());
}

#[test]
fn other_threads_do_not_disturb_a_pending_call() {
    let mut writes: CorrelationTable<FileIoContext> = CorrelationTable::new(8);
    let a = task(50, 51);
    let b = task(50, 52);
    assert!(trace_write(&mut writes, &a, 1, 64));
    assert!(trace_write(&mut writes, &b, 2, 32));
    let eb = trace_write_ret(&mut writes, &b, -9).unwrap();
    let ea = trace_write_ret(&mut writes, &a, 64).unwrap();
    match (ea.data, eb.data) {
        (EventData::FileWrite(pa), EventData::FileWrite(pb)) => {
            assert_eq!((pa.fd, pa.count, pa.ret), (1, 64, 64));
            assert_eq!((pb.fd, pb.count, pb.ret), (2, 32, -9));
        }
        _ => panic!("wrong payload"),
    }
}

#[test]
fn full_table_drops_the_call() {
    let mut reads: CorrelationTable<FileIoContext> = CorrelationTable::new(1);
    let a = task(1, 1);
    let b = task(1, 2);
    assert!(trace_read(&mut reads, &a, 0, 1));
    assert!(!trace_read(&mut reads, &b, 0, 1));
    assert!(trace_read_ret(&mut reads, &b, 1).is_none());
    assert!(trace_read_ret(&mut reads, &a, 1).is_some());
}

#[test]
fn successful_bind_emits_nothing() {
    let mut binds: CorrelationTable<NetBindContext> = CorrelationTable::new(4);
    let t = task(7, 7);
    assert!(trace_bind(&mut binds, &t, 2, IpAddr::from_v4([0, 0, 0, 0]), 8080));
    assert!(trace_bind_ret(&mut binds, &t, 0).is_none());
    assert_eq!(binds.len(), 0);
}

#[test]
fn failing_bind_emits_one_failure_with_errno() {
    let mut binds: CorrelationTable<NetBindContext> = CorrelationTable::new(4);
    let t = task(7, 8);
    let addr = IpAddr::from_v4([127, 0, 0, 1]);
    assert!(trace_bind(&mut binds, &t, 2, addr, 80));
    let e = trace_bind_ret(&mut binds, &t, -98).expect("a failed bind is reported");
    assert_eq!(e.event_type, EventType::NetBindFail);
    match e.data {
        EventData::NetBindFail(p) => {
            assert_eq!(p.error, 98);
            assert_eq!(p.family, 2);
            assert_eq!(p.addr, addr);
            assert_eq!(p.port, 80);
        }
        _ => panic!("wrong payload"),
    }
    assert!(trace_bind_ret(&mut binds, &t, -98).is_none());
}

#[test]
fn status_beyond_i32_saturates() {
    let mut binds: CorrelationTable<NetBindContext> = CorrelationTable::new(4);
    let t = task(7, 9);
    trace_bind(&mut binds, &t, 10, IpAddr::from_v6([0; 16]), 1);
    match trace_bind_ret(&mut binds, &t, i64::MIN).unwrap().data {
        EventData::NetBindFail(p) => assert_eq!(p.error, i32::MAX),
        _ => panic!("wrong payload"),
    }
}

#[test]
fn connect_reports_access_at_entry_and_only_failure_at_exit() {
    let mut conns: CorrelationTable<NetConnectContext> = CorrelationTable::new(4);
    let t = task(11, 12);
    let dst = IpAddr::from_v4([10, 0, 0, 1]);
    let access = trace_connect(&mut conns, &t, 2, dst, 443);
    assert_eq!(access.event_type, EventType::NetConnect);
    match access.data {
        EventData::NetConnect(p) => {
            assert_eq!((p.family, p.protocol, p.local_port, p.remote_port), (2, 0, 0, 443));
            assert_eq!(p.remote_addr, dst);
            assert_eq!(p.local_addr, IpAddr::from_v6([0; 16]));
        }
        _ => panic!("wrong payload"),
    }
    assert!(trace_connect_ret(&mut conns, &t, 0).is_none());
    assert_eq!(conns.len(), 0);
    trace_connect(&mut conns, &t, 2, dst, 443);
    let e = trace_connect_ret(&mut conns, &t, -111).unwrap();
    match e.data {
        EventData::NetConnectFail(p) => {
            assert_eq!(p.error, 111);
            assert_eq!(p.remote_addr, dst);
            assert_eq!(p.remote_port, 443);
        }
        _ => panic!("wrong payload"),
    }
}

#[test]
fn signals_are_classified_by_number() {
    let t = task(3, 3);
    assert_eq!(trace_signal(&t, 11, 3).event_type, EventType::SignalSegfault);
    assert_eq!(trace_signal(&t, 4, 3).event_type, EventType::SignalIllegal);
    assert_eq!(trace_signal(&t, 6, 3).event_type, EventType::SignalAbort);
    let g = trace_signal(&t, 9, 77);
    assert_eq!(g.event_type, EventType::SignalGeneric);
    match g.data {
        EventData::SignalGeneric(p) => assert_eq!((p.signal, p.target_pid), (9, 77)),
        _ => panic!("wrong payload"),
    }
}

#[test]
fn single_shot_hooks_fill_their_payloads() {
    let t = task(500, 501);
    let e = trace_execve(&t, b"/bin/ls", b"ls -la", 0);
    match e.data {
        EventData::ProcessExec(p) => {
            assert_eq!(p.filename.as_bytes(), b"/bin/ls");
            assert_eq!(p.argv.as_bytes(), b"ls -la");
            assert_eq!(p.ppid, 0);
        }
        _ => panic!("wrong payload"),
    }
    let s = trace_setuid(&t, 0);
    match s.data {
        EventData::SecSetuid(p) => assert_eq!((p.old_uid, p.new_uid), (10, 0)),
        _ => panic!("wrong payload"),
    }
    let long_type = vec![b'f'; 300];
    let m = trace_mount(&t, b"/dev/sda1", b"/mnt", &long_type, 1);
    match m.data {
        EventData::FsMount(p) => {
            assert_eq!(p.dev_name.as_bytes(), b"/dev/sda1");
            assert_eq!(p.path.as_bytes(), b"/mnt");
            assert_eq!(p.fs_type.len, 256);
            assert_eq!(p.flags, 1);
        }
        _ => panic!("wrong payload"),
    }
    let c = trace_coredump(&t, 11, b"crashy");
    match c.data {
        EventData::ProcessCoredump(p) => {
            assert_eq!(p.signal, 11);
            assert_eq!(p.comm, BoundedString::from_bytes(b"crashy"));
        }
        _ => panic!("wrong payload"),
    }
}
