use humon::capture::{
    get_task_info, trace_exit, trace_fork, trace_read, trace_read_ret, FileIoContext,
};
use humon::codec::encode;
use humon::correlation::CorrelationTable;
use humon::event::{Event, EventType};
use humon::pipeline::{channel_name, consume_batch, log_event, Delivered, Severity};

fn events() -> Vec<Event> {
    let t = get_task_info((1u64 << 32) | 1, 0, 3_999_999);
    (0..6).map(|i| trace_fork(&t, 100 + i)).collect()
}

#[test]
fn per_cpu_order_survives_interleaving() {
    let es = events();
    let a1 = vec![encode(&es[0]), encode(&es[1])];
    let b1 = vec![encode(&es[2])];
    let a2 = vec![encode(&es[3])];
    let b2 = vec![encode(&es[4]), vec![1, 2, 3], encode(&es[5])];
    let mut out: Vec<Delivered> = Vec::new();
    assert_eq!(consume_batch(0, &a1, &mut out), 0);
    assert_eq!(consume_batch(1, &b1, &mut out), 0);
    assert_eq!(consume_batch(0, &a2, &mut out), 0);
    assert_eq!(consume_batch(1, &b2, &mut out), 1);
    let on = |c: u32| -> Vec<Event> {
        out.iter().filter(|d| d.cpu == c).map(|d| d.event).collect()
    };
    assert_eq!(on(0), vec![es[0], es[1], es[3]]);
    assert_eq!(on(1), vec![es[2], es[4], es[5]]);
    assert_eq!(out.len(), 6);
}

#[test]
fn malformed_record_is_skipped_alone() {
    let es = events();
    let batch = vec![vec![], encode(&es[0]), vec![0xff; 30], encode(&es[1])];
    let mut out: Vec<Delivered> = Vec::new();
    assert_eq!(consume_batch(3, &batch, &mut out), 2);
    assert_eq!(out, vec![Delivered { cpu: 3, event: es[0] }, Delivered { cpu: 3, event: es[1] }]);
}

#[test]
fn log_policy_by_kind() {
    let t = get_task_info(0, 0, 3_999_999);
    let fork = log_event(&trace_fork(&t, 2));
    assert_eq!(fork.level, Severity::Info);
    assert_eq!(fork.label, "FORK");
    assert_eq!(fork.timestamp_ms, 3);
    let exit = log_event(&trace_exit(&t, 0));
    assert_eq!(exit.label, "EXIT");
    let mut reads: CorrelationTable<FileIoContext> = CorrelationTable::new(1);
    trace_read(&mut reads, &t, 0, 1);
    let read = log_event(&trace_read_ret(&mut reads, &t, 1).unwrap());
    assert_eq!(read.level, Severity::Debug);
    assert_eq!(read.label, "READ");
    let uid = log_event(&humon::capture::trace_setuid(&t, 0));
    assert_eq!(uid.level, Severity::Warn);
    assert_eq!(uid.label, "SETUID");
    let seg = log_event(&humon::capture::trace_signal(&t, 11, 0));
    assert_eq!((seg.level, seg.label), (Severity::Warn, "SIGSEGV"));
}

#[test]
fn publish_channel_combines_prefix_and_kind() {
    assert_eq!(channel_name("humon", EventType::NetBindFail), "humon.BIND_FAIL");
    assert_eq!(channel_name("", EventType::ProcessExec), ".EXEC");
}
