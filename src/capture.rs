//! The capture catalog: for each kernel hook, the event it emits from the values its probe
//! read. Reading those values is the probe's business; deciding what to emit is done here.
use crate::bounded::{bounded_of, BoundedString, IpAddr, MAX_ARGV_LEN, MAX_NAME_LEN, MAX_STRING_LEN};
use crate::correlation::{
    after_entry, entry_recorded, exit_context, lemma_entry_then_exit, run_ops, CorrelationTable,
    TableOp,
};
use crate::event::{kind_of, Event, EventData};
use crate::event::{
    FileOpenEvent, FileReadEvent, FileWriteEvent, FsMountEvent, FsUmountEvent, MemOomKillEvent,
    NetBindFailEvent, NetConnectEvent, NetConnectFailEvent, NsSetnsEvent, NsUnshareEvent,
    ProcessCoredumpEvent, ProcessExecEvent, ProcessExitEvent, ProcessForkEvent, PtyAllocEvent,
    SecSetuidEvent, SignalAbortEvent, SignalGenericEvent, SignalIllegalEvent, SignalSegfaultEvent,
    TtyAllocEvent, UsbAttachEvent, UsbDetachEvent,
};
use vstd::prelude::*;

verus! {

/// Who is running and when, as the kernel reports it for the current task.
#[derive(Clone, Copy, Debug, PartialEq, Eq, Structural)]
pub struct TaskInfo {
    pub pid: u32,
    pub tid: u32,
    pub uid: u32,
    pub gid: u32,
    pub timestamp_ns: u64,
}

impl TaskInfo {
    /// The thread's correlation key: the process id in the high half, the thread id in the low.
    pub open spec fn key_spec(&self) -> u64 {
        (self.pid as int * 0x1_0000_0000 + self.tid as int) as u64
    }

    pub fn key(&self) -> (r: u64)
        ensures
            r == self.key_spec(),
    {
        let p = self.pid as u64;
        assert(p * 0x1_0000_0000 + self.tid < 0x1_0000_0000_0000_0000) by (nonlinear_arith)
            requires
                p < 0x1_0000_0000,
                self.tid < 0x1_0000_0000,
        ;
        p * 0x1_0000_0000 + self.tid as u64
    }
}

/// Splits the combined ids that the kernel reports for the current task.
pub fn get_task_info(pid_tgid: u64, uid_gid: u64, timestamp_ns: u64) -> (r: TaskInfo)
    ensures
        r.pid == pid_tgid / 0x1_0000_0000,
        r.tid == pid_tgid % 0x1_0000_0000,
        r.uid == uid_gid % 0x1_0000_0000,
        r.gid == uid_gid / 0x1_0000_0000,
        r.timestamp_ns == timestamp_ns,
        r.key_spec() == pid_tgid,
{
    let r = TaskInfo {
        pid: (pid_tgid / 0x1_0000_0000) as u32,
        tid: (pid_tgid % 0x1_0000_0000) as u32,
        uid: (uid_gid % 0x1_0000_0000) as u32,
        gid: (uid_gid / 0x1_0000_0000) as u32,
        timestamp_ns,
    };
    proof {
        vstd::arithmetic::div_mod::lemma_fundamental_div_mod(pid_tgid as int, 0x1_0000_0000);
    }
    r
}

/// The event that `data` makes when it happens in task `t`.
pub open spec fn stamp(t: TaskInfo, data: EventData) -> Event {
    Event {
        event_type: kind_of(data),
        timestamp_ns: t.timestamp_ns,
        pid: t.pid,
        tid: t.tid,
        uid: t.uid,
        gid: t.gid,
        data,
    }
}

fn stamp_event(t: &TaskInfo, data: EventData) -> (e: Event)
    ensures
        e == stamp(*t, data),
{
    Event {
        event_type: data.kind(),
        timestamp_ns: t.timestamp_ns,
        pid: t.pid,
        tid: t.tid,
        uid: t.uid,
        gid: t.gid,
        data,
    }
}

/// A program was executed.
pub fn trace_execve(task: &TaskInfo, filename: &[u8], argv: &[u8], ppid: u32) -> (r: Event)
    ensures
        r.wf(),
        r == stamp(
            *task,
            EventData::ProcessExec(
                (ProcessExecEvent {
                    filename: bounded_of::<MAX_STRING_LEN>(filename@),
                    argv: bounded_of::<MAX_ARGV_LEN>(argv@),
                    ppid,
                }),
            ),
        ),
{
    let data = ProcessExecEvent {
        filename: BoundedString::from_bytes(filename),
        argv: BoundedString::from_bytes(argv),
        ppid,
    };
    stamp_event(task, EventData::ProcessExec(data))
}

/// The task forked `child_pid`; the task itself is the parent.
pub fn trace_fork(task: &TaskInfo, child_pid: u32) -> (r: Event)
    ensures
        r.wf(),
        r == stamp(*task, EventData::ProcessFork((ProcessForkEvent { child_pid, ppid: task.pid }))),
{
    stamp_event(task, EventData::ProcessFork(ProcessForkEvent { child_pid, ppid: task.pid }))
}

pub fn trace_exit(task: &TaskInfo, exit_code: i32) -> (r: Event)
    ensures
        r.wf(),
        r == stamp(*task, EventData::ProcessExit((ProcessExitEvent { exit_code }))),
{
    stamp_event(task, EventData::ProcessExit(ProcessExitEvent { exit_code }))
}

/// The task asks for a new user id; the old one is the task's own.
pub fn trace_setuid(task: &TaskInfo, new_uid: u32) -> (r: Event)
    ensures
        r.wf(),
        r == stamp(
            *task,
            EventData::SecSetuid((SecSetuidEvent { old_uid: task.uid, new_uid })),
        ),
{
    stamp_event(task, EventData::SecSetuid(SecSetuidEvent { old_uid: task.uid, new_uid }))
}

pub fn trace_oom_kill(task: &TaskInfo, victim_pid: u32, victim_comm: &[u8], pages: u64) -> (r:
    Event)
    ensures
        r.wf(),
        r == stamp(
            *task,
            EventData::MemOomKill(
                (MemOomKillEvent {
                    victim_pid,
                    victim_comm: bounded_of::<MAX_STRING_LEN>(victim_comm@),
                    pages,
                }),
            ),
        ),
{
    let data = MemOomKillEvent {
        victim_pid,
        victim_comm: BoundedString::from_bytes(victim_comm),
        pages,
    };
    stamp_event(task, EventData::MemOomKill(data))
}

pub fn trace_unshare(task: &TaskInfo, flags: u64) -> (r: Event)
    ensures
        r.wf(),
        r == stamp(*task, EventData::NsUnshare((NsUnshareEvent { flags }))),
{
    stamp_event(task, EventData::NsUnshare(NsUnshareEvent { flags }))
}

pub fn trace_setns(task: &TaskInfo, fd: i32, nstype: u32) -> (r: Event)
    ensures
        r.wf(),
        r == stamp(*task, EventData::NsSetns((NsSetnsEvent { fd, nstype }))),
{
    stamp_event(task, EventData::NsSetns(NsSetnsEvent { fd, nstype }))
}

/// Segmentation fault, illegal instruction and abort have kinds of their own; every other
/// signal is a generic signal event.
pub open spec fn signal_payload(signal: i32, target_pid: u32) -> EventData {
    if signal == 11 {
        EventData::SignalSegfault(SignalSegfaultEvent { fault_addr: 0, ip: 0 })
    } else if signal == 4 {
        EventData::SignalIllegal(SignalIllegalEvent { ip: 0 })
    } else if signal == 6 {
        EventData::SignalAbort(SignalAbortEvent { ip: 0 })
    } else {
        EventData::SignalGeneric(SignalGenericEvent { signal, target_pid })
    }
}

/// A signal is delivered.
pub fn trace_signal(task: &TaskInfo, signal: i32, target_pid: u32) -> (r: Event)
    ensures
        r.wf(),
        r == stamp(*task, signal_payload(signal, target_pid)),
{
    let data = if signal == 11 {
        EventData::SignalSegfault(SignalSegfaultEvent { fault_addr: 0, ip: 0 })
    } else if signal == 4 {
        EventData::SignalIllegal(SignalIllegalEvent { ip: 0 })
    } else if signal == 6 {
        EventData::SignalAbort(SignalAbortEvent { ip: 0 })
    } else {
        EventData::SignalGeneric(SignalGenericEvent { signal, target_pid })
    };
    stamp_event(task, data)
}

pub fn trace_coredump(task: &TaskInfo, signal: i32, comm: &[u8]) -> (r: Event)
    ensures
        r.wf(),
        r == stamp(
            *task,
            EventData::ProcessCoredump(
                (ProcessCoredumpEvent { signal, comm: bounded_of::<MAX_STRING_LEN>(comm@) }),
            ),
        ),
{
    let data = ProcessCoredumpEvent { signal, comm: BoundedString::from_bytes(comm) };
    stamp_event(task, EventData::ProcessCoredump(data))
}

pub fn trace_usb_add(task: &TaskInfo, bus_num: u16, dev_num: u16, vendor_id: u16, product_id: u16)
    -> (r: Event)
    ensures
        r.wf(),
        r == stamp(
            *task,
            EventData::UsbAttach((UsbAttachEvent { bus_num, dev_num, vendor_id, product_id })),
        ),
{
    stamp_event(
        task,
        EventData::UsbAttach(UsbAttachEvent { bus_num, dev_num, vendor_id, product_id }),
    )
}

pub fn trace_usb_remove(
    task: &TaskInfo,
    bus_num: u16,
    dev_num: u16,
    vendor_id: u16,
    product_id: u16,
) -> (r: Event)
    ensures
        r.wf(),
        r == stamp(
            *task,
            EventData::UsbDetach((UsbDetachEvent { bus_num, dev_num, vendor_id, product_id })),
        ),
{
    stamp_event(
        task,
        EventData::UsbDetach(UsbDetachEvent { bus_num, dev_num, vendor_id, product_id }),
    )
}

pub fn trace_tty_open(task: &TaskInfo, name: &[u8], major: u32, minor: u32) -> (r: Event)
    ensures
        r.wf(),
        r == stamp(
            *task,
            EventData::TtyAlloc(
                (TtyAllocEvent { name: bounded_of::<MAX_STRING_LEN>(name@), major, minor }),
            ),
        ),
{
    let data = TtyAllocEvent { name: BoundedString::from_bytes(name), major, minor };
    stamp_event(task, EventData::TtyAlloc(data))
}

pub fn trace_pty_open(task: &TaskInfo, name: &[u8], major: u32, minor: u32) -> (r: Event)
    ensures
        r.wf(),
        r == stamp(
            *task,
            EventData::PtyAlloc(
                (PtyAllocEvent { name: bounded_of::<MAX_STRING_LEN>(name@), major, minor }),
            ),
        ),
{
    let data = PtyAllocEvent { name: BoundedString::from_bytes(name), major, minor };
    stamp_event(task, EventData::PtyAlloc(data))
}

pub fn trace_mount(task: &TaskInfo, dev_name: &[u8], path: &[u8], fs_type: &[u8], flags: u64) -> (r:
    Event)
    ensures
        r.wf(),
        r == stamp(
            *task,
            EventData::FsMount(
                (FsMountEvent {
                    dev_name: bounded_of::<MAX_STRING_LEN>(dev_name@),
                    path: bounded_of::<MAX_STRING_LEN>(path@),
                    fs_type: bounded_of::<MAX_NAME_LEN>(fs_type@),
                    flags,
                }),
            ),
        ),
{
    let data = FsMountEvent {
        dev_name: BoundedString::from_bytes(dev_name),
        path: BoundedString::from_bytes(path),
        fs_type: BoundedString::from_bytes(fs_type),
        flags,
    };
    stamp_event(task, EventData::FsMount(data))
}

pub fn trace_umount(task: &TaskInfo, path: &[u8], flags: i32) -> (r: Event)
    ensures
        r.wf(),
        r == stamp(
            *task,
            EventData::FsUmount(
                (FsUmountEvent { path: bounded_of::<MAX_STRING_LEN>(path@), flags }),
            ),
        ),
{
    let data = FsUmountEvent { path: BoundedString::from_bytes(path), flags };
    stamp_event(task, EventData::FsUmount(data))
}

/// What the entry of a file open saw.
#[derive(Clone, Copy, Debug, PartialEq, Eq)]
pub struct FileOpenContext {
    pub path: BoundedString<MAX_STRING_LEN>,
    pub flags: i32,
    pub mode: u32,
}

/// What the entry of a read or a write saw.
#[derive(Clone, Copy, Debug, PartialEq, Eq, Structural)]
pub struct FileIoContext {
    pub fd: i32,
    pub count: u64,
}

/// Where a connect was headed.
#[derive(Clone, Copy, Debug, PartialEq, Eq)]
pub struct NetConnectContext {
    pub family: u16,
    pub remote_addr: IpAddr,
    pub remote_port: u16,
}

/// What a bind asked for.
#[derive(Clone, Copy, Debug, PartialEq, Eq)]
pub struct NetBindContext {
    pub family: u16,
    pub addr: IpAddr,
    pub port: u16,
}

/// The error number that a negative status stands for: its absolute value, or `i32::MAX`
/// when that does not fit.
pub open spec fn status_error(ret: i64) -> i32 {
    if ret >= -0x7fff_ffff {
        (-ret) as i32
    } else {
        i32::MAX
    }
}

fn error_of(ret: i64) -> (r: i32)
    requires
        ret < 0,
    ensures
        r == status_error(ret),
{
    if ret >= -0x7fff_ffff {
        (0 - ret) as i32
    } else {
        i32::MAX
    }
}

pub open spec fn open_event(t: TaskInfo, c: FileOpenContext, ret: i64) -> Event {
    stamp(
        t,
        EventData::FileOpen(
            FileOpenEvent { path: c.path, flags: c.flags, mode: c.mode, fd: ret as i32 },
        ),
    )
}

pub open spec fn read_event(t: TaskInfo, c: FileIoContext, ret: i64) -> Event {
    stamp(t, EventData::FileRead(FileReadEvent { fd: c.fd, count: c.count, ret }))
}

pub open spec fn write_event(t: TaskInfo, c: FileIoContext, ret: i64) -> Event {
    stamp(t, EventData::FileWrite(FileWriteEvent { fd: c.fd, count: c.count, ret }))
}

pub open spec fn connect_fail_event(t: TaskInfo, c: NetConnectContext, ret: i64) -> Event {
    stamp(
        t,
        EventData::NetConnectFail(
            NetConnectFailEvent {
                family: c.family,
                remote_addr: c.remote_addr,
                remote_port: c.remote_port,
                error: status_error(ret),
            },
        ),
    )
}

pub open spec fn bind_fail_event(t: TaskInfo, c: NetBindContext, ret: i64) -> Event {
    stamp(
        t,
        EventData::NetBindFail(
            NetBindFailEvent {
                family: c.family,
                addr: c.addr,
                port: c.port,
                error: status_error(ret),
            },
        ),
    )
}

/// The event of a file open's exit: one for every matched call.
pub open spec fn open_exit(m: Map<u64, FileOpenContext>, t: TaskInfo, ret: i64) -> Option<Event> {
    match exit_context(m, t.key_spec()) {
        Some(c) => Some(open_event(t, c, ret)),
        None => None,
    }
}

pub open spec fn read_exit(m: Map<u64, FileIoContext>, t: TaskInfo, ret: i64) -> Option<Event> {
    match exit_context(m, t.key_spec()) {
        Some(c) => Some(read_event(t, c, ret)),
        None => None,
    }
}

pub open spec fn write_exit(m: Map<u64, FileIoContext>, t: TaskInfo, ret: i64) -> Option<Event> {
    match exit_context(m, t.key_spec()) {
        Some(c) => Some(write_event(t, c, ret)),
        None => None,
    }
}

/// The event of a connect's exit: only a matched call that failed makes one.
pub open spec fn connect_exit(m: Map<u64, NetConnectContext>, t: TaskInfo, ret: i64) -> Option<
    Event,
> {
    match exit_context(m, t.key_spec()) {
        Some(c) => if ret < 0 {
            Some(connect_fail_event(t, c, ret))
        } else {
            None
        },
        None => None,
    }
}

/// The event of a bind's exit: only a matched call that failed makes one.
pub open spec fn bind_exit(m: Map<u64, NetBindContext>, t: TaskInfo, ret: i64) -> Option<Event> {
    match exit_context(m, t.key_spec()) {
        Some(c) => if ret < 0 {
            Some(bind_fail_event(t, c, ret))
        } else {
            None
        },
        None => None,
    }
}

/// A file open is entered; returns whether its context was recorded.
pub fn trace_openat(
    table: &mut CorrelationTable<FileOpenContext>,
    task: &TaskInfo,
    path: &[u8],
    flags: i32,
    mode: u32,
) -> (recorded: bool)
    requires
        old(table).wf(),
    ensures
        final(table).wf(),
        final(table).capacity() == old(table).capacity(),
        recorded == entry_recorded(old(table)@, old(table).capacity(), task.key_spec()),
        final(table)@ == after_entry(
            old(table)@,
            old(table).capacity(),
            task.key_spec(),
            (FileOpenContext { path: bounded_of::<MAX_STRING_LEN>(path@), flags, mode }),
        ),
{
    let ctx = FileOpenContext { path: BoundedString::from_bytes(path), flags, mode };
    table.record(task.key(), ctx)
}

/// A file open returns `ret`, the new descriptor or an error.
pub fn trace_openat_ret(
    table: &mut CorrelationTable<FileOpenContext>,
    task: &TaskInfo,
    ret: i64,
) -> (r: Option<Event>)
    requires
        old(table).wf(),
    ensures
        final(table).wf(),
        final(table).capacity() == old(table).capacity(),
        final(table)@ == old(table)@.remove(task.key_spec()),
        r == open_exit(old(table)@, *task, ret),
{
    match table.take(task.key()) {
        Some(c) => {
            let data = FileOpenEvent { path: c.path, flags: c.flags, mode: c.mode, fd: ret as i32 };
            Some(stamp_event(task, EventData::FileOpen(data)))
        },
        None => None,
    }
}

/// A read of up to `count` bytes from `fd` is entered.
pub fn trace_read(
    table: &mut CorrelationTable<FileIoContext>,
    task: &TaskInfo,
    fd: i32,
    count: u64,
) -> (recorded: bool)
    requires
        old(table).wf(),
    ensures
        final(table).wf(),
        final(table).capacity() == old(table).capacity(),
        recorded == entry_recorded(old(table)@, old(table).capacity(), task.key_spec()),
        final(table)@ == after_entry(
            old(table)@,
            old(table).capacity(),
            task.key_spec(),
            (FileIoContext { fd, count }),
        ),
{
    table.record(task.key(), FileIoContext { fd, count })
}

/// A read returns `ret`, the bytes read or an error.
pub fn trace_read_ret(
    table: &mut CorrelationTable<FileIoContext>,
    task: &TaskInfo,
    ret: i64,
) -> (r: Option<Event>)
    requires
        old(table).wf(),
    ensures
        final(table).wf(),
        final(table).capacity() == old(table).capacity(),
        final(table)@ == old(table)@.remove(task.key_spec()),
        r == read_exit(old(table)@, *task, ret),
{
    match table.take(task.key()) {
        Some(c) => Some(
            stamp_event(task, EventData::FileRead(FileReadEvent { fd: c.fd, count: c.count, ret })),
        ),
        None => None,
    }
}

/// A write of up to `count` bytes to `fd` is entered.
pub fn trace_write(
    table: &mut CorrelationTable<FileIoContext>,
    task: &TaskInfo,
    fd: i32,
    count: u64,
) -> (recorded: bool)
    requires
        old(table).wf(),
    ensures
        final(table).wf(),
        final(table).capacity() == old(table).capacity(),
        recorded == entry_recorded(old(table)@, old(table).capacity(), task.key_spec()),
        final(table)@ == after_entry(
            old(table)@,
            old(table).capacity(),
            task.key_spec(),
            (FileIoContext { fd, count }),
        ),
{
    table.record(task.key(), FileIoContext { fd, count })
}

/// A write returns `ret`, the bytes written or an error.
pub fn trace_write_ret(
    table: &mut CorrelationTable<FileIoContext>,
    task: &TaskInfo,
    ret: i64,
) -> (r: Option<Event>)
    requires
        old(table).wf(),
    ensures
        final(table).wf(),
        final(table).capacity() == old(table).capacity(),
        final(table)@ == old(table)@.remove(task.key_spec()),
        r == write_exit(old(table)@, *task, ret),
{
    match table.take(task.key()) {
        Some(c) => Some(
            stamp_event(
                task,
                EventData::FileWrite(FileWriteEvent { fd: c.fd, count: c.count, ret }),
            ),
        ),
        None => None,
    }
}

/// The socket access that a connect's entry reports at once; what is not known yet is zero.
pub open spec fn connect_event(
    t: TaskInfo,
    family: u16,
    remote_addr: IpAddr,
    remote_port: u16,
) -> Event {
    stamp(
        t,
        EventData::NetConnect(
            NetConnectEvent {
                family,
                protocol: 0,
                local_addr: IpAddr { v6: vstd::array::spec_array_fill_for_copy_type::<u8, 16>(0) },
                local_port: 0,
                remote_addr,
                remote_port,
            },
        ),
    )
}

/// A connect is entered: the access is reported now and the destination is kept for the exit.
pub fn trace_connect(
    table: &mut CorrelationTable<NetConnectContext>,
    task: &TaskInfo,
    family: u16,
    remote_addr: IpAddr,
    remote_port: u16,
) -> (r: Event)
    requires
        old(table).wf(),
    ensures
        r.wf(),
        r == connect_event(*task, family, remote_addr, remote_port),
        final(table).wf(),
        final(table).capacity() == old(table).capacity(),
        final(table)@ == after_entry(
            old(table)@,
            old(table).capacity(),
            task.key_spec(),
            (NetConnectContext { family, remote_addr, remote_port }),
        ),
{
    let _ = table.record(task.key(), NetConnectContext { family, remote_addr, remote_port });
    let data = NetConnectEvent {
        family,
        protocol: 0,
        local_addr: IpAddr { v6: [0u8; 16] },
        local_port: 0,
        remote_addr,
        remote_port,
    };
    stamp_event(task, EventData::NetConnect(data))
}

/// A connect returns `ret`; only a failure is reported.
pub fn trace_connect_ret(
    table: &mut CorrelationTable<NetConnectContext>,
    task: &TaskInfo,
    ret: i64,
) -> (r: Option<Event>)
    requires
        old(table).wf(),
    ensures
        final(table).wf(),
        final(table).capacity() == old(table).capacity(),
        final(table)@ == old(table)@.remove(task.key_spec()),
        r == connect_exit(old(table)@, *task, ret),
{
    match table.take(task.key()) {
        Some(c) => {
            if ret < 0 {
                let data = NetConnectFailEvent {
                    family: c.family,
                    remote_addr: c.remote_addr,
                    remote_port: c.remote_port,
                    error: error_of(ret),
                };
                Some(stamp_event(task, EventData::NetConnectFail(data)))
            } else {
                None
            }
        },
        None => None,
    }
}

/// A bind is entered.
pub fn trace_bind(
    table: &mut CorrelationTable<NetBindContext>,
    task: &TaskInfo,
    family: u16,
    addr: IpAddr,
    port: u16,
) -> (recorded: bool)
    requires
        old(table).wf(),
    ensures
        final(table).wf(),
        final(table).capacity() == old(table).capacity(),
        recorded == entry_recorded(old(table)@, old(table).capacity(), task.key_spec()),
        final(table)@ == after_entry(
            old(table)@,
            old(table).capacity(),
            task.key_spec(),
            (NetBindContext { family, addr, port }),
        ),
{
    table.record(task.key(), NetBindContext { family, addr, port })
}

/// A bind returns `ret`; only a failure is reported.
pub fn trace_bind_ret(
    table: &mut CorrelationTable<NetBindContext>,
    task: &TaskInfo,
    ret: i64,
) -> (r: Option<Event>)
    requires
        old(table).wf(),
    ensures
        final(table).wf(),
        final(table).capacity() == old(table).capacity(),
        final(table)@ == old(table)@.remove(task.key_spec()),
        r == bind_exit(old(table)@, *task, ret),
{
    match table.take(task.key()) {
        Some(c) => {
            if ret < 0 {
                let data = NetBindFailEvent {
                    family: c.family,
                    addr: c.addr,
                    port: c.port,
                    error: error_of(ret),
                };
                Some(stamp_event(task, EventData::NetBindFail(data)))
            } else {
                None
            }
        },
        None => None,
    }
}

/// A file open entered by a thread, then calls of other threads only, then its return: the
/// return emits exactly one event, with the path, flags and mode of the entry and the
/// descriptor of the return. Reads and writes pair up in the same way.
pub proof fn lemma_paired_call(
    opens: Map<u64, FileOpenContext>,
    ios: Map<u64, FileIoContext>,
    capacity: nat,
    task: TaskInfo,
    path: Seq<u8>,
    flags: i32,
    mode: u32,
    fd: i32,
    count: u64,
    open_between: Seq<TableOp<FileOpenContext>>,
    io_between: Seq<TableOp<FileIoContext>>,
    ret: i64,
)
    requires
        entry_recorded(opens, capacity, task.key_spec()),
        entry_recorded(ios, capacity, task.key_spec()),
        forall|i: int|
            0 <= i < open_between.len() ==> (#[trigger] open_between[i]).key() != task.key_spec(),
        forall|i: int|
            0 <= i < io_between.len() ==> (#[trigger] io_between[i]).key() != task.key_spec(),
    ensures
        ({
            let oc = FileOpenContext { path: bounded_of::<MAX_STRING_LEN>(path), flags, mode };
            let entered = after_entry(opens, capacity, task.key_spec(), oc);
            let after = run_ops(entered, capacity, open_between);
            open_exit(after, task, ret) == Some(open_event(task, oc, ret))
        }),
        ({
            let ic = FileIoContext { fd, count };
            let entered = after_entry(ios, capacity, task.key_spec(), ic);
            let after = run_ops(entered, capacity, io_between);
            &&& read_exit(after, task, ret) == Some(read_event(task, ic, ret))
            &&& write_exit(after, task, ret) == Some(write_event(task, ic, ret))
        }),
{
    let oc = FileOpenContext { path: bounded_of::<MAX_STRING_LEN>(path), flags, mode };
    lemma_entry_then_exit(opens, capacity, task.key_spec(), oc, open_between);
    lemma_entry_then_exit(ios, capacity, task.key_spec(), FileIoContext { fd, count }, io_between);
}

/// A return whose thread has no recorded entry emits nothing, whichever the hook.
pub proof fn lemma_unmatched_return(
    opens: Map<u64, FileOpenContext>,
    ios: Map<u64, FileIoContext>,
    connects: Map<u64, NetConnectContext>,
    binds: Map<u64, NetBindContext>,
    task: TaskInfo,
    ret: i64,
)
    requires
        !opens.contains_key(task.key_spec()),
        !ios.contains_key(task.key_spec()),
        !connects.contains_key(task.key_spec()),
        !binds.contains_key(task.key_spec()),
    ensures
        open_exit(opens, task, ret) is None,
        read_exit(ios, task, ret) is None,
        write_exit(ios, task, ret) is None,
        connect_exit(connects, task, ret) is None,
        bind_exit(binds, task, ret) is None,
{
}

/// A bind whose entry was recorded: when it succeeds nothing is emitted; when it fails
/// exactly one bind-failure event is, carrying the absolute value of the status.
pub proof fn lemma_bind_outcome(
    m: Map<u64, NetBindContext>,
    capacity: nat,
    task: TaskInfo,
    ctx: NetBindContext,
    ret: i64,
)
    requires
        entry_recorded(m, capacity, task.key_spec()),
        ret >= -0x7fff_ffff,
    ensures
        ({
            let out = bind_exit(after_entry(m, capacity, task.key_spec(), ctx), task, ret);
            &&& ret >= 0 ==> out is None
            &&& ret < 0 ==> out == Some(bind_fail_event(task, ctx, ret))
            &&& ret < 0 ==> match out->0.data {
                EventData::NetBindFail(p) => p.error == -ret && p.family == ctx.family && p.addr
                    == ctx.addr && p.port == ctx.port,
                _ => false,
            }
        }),
{
    lemma_entry_then_exit(m, capacity, task.key_spec(), ctx, Seq::empty());
}

} // verus!
