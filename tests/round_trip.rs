use humon::bounded::{BoundedString, IpAddr, MAX_ARGV_LEN, MAX_NAME_LEN, MAX_STRING_LEN};
use humon::codec::{decode, encode, MAX_ENCODED_LEN};
use humon::event::{Event, EventData, EventType};
use humon::event::{
    ProcessExecEvent, ProcessForkEvent, ProcessExitEvent, FileOpenEvent, FileReadEvent,
    FileWriteEvent, FileCloseEvent, FileUnlinkEvent, FileRenameEvent, FileChmodEvent,
    FileChownEvent, NetConnectEvent, NetAcceptEvent, NetBindEvent, NetSendEvent, NetRecvEvent,
    NetSocketEvent, InputKeyEvent, InputMouseEvent, SecSetuidEvent, SecSetgidEvent,
    SecPtraceEvent, SecModuleLoadEvent, MemOomKillEvent, MemOomVictimEvent, NsUnshareEvent,
    NsSetnsEvent, NsCloneEvent, SignalSegfaultEvent, SignalIllegalEvent, SignalAbortEvent,
    SignalGenericEvent, ProcessCoredumpEvent, NetConnectFailEvent, NetBindFailEvent,
    UsbAttachEvent, UsbDetachEvent, TtyAllocEvent, PtyAllocEvent, FsMountEvent, FsUmountEvent,
    SyscallFailEvent,
};

/// A string filled to its capacity, or an empty one.
fn text<const N: usize>(hi: bool) -> BoundedString<N> {
    if hi {
        BoundedString::from_bytes(&vec![0x7a; N])
    } else {
        BoundedString::new()
    }
}

/// The all-ones address, or the all-zero one.
fn addr(hi: bool) -> IpAddr {
    IpAddr::from_v6(if hi { [0xff; 16] } else { [0; 16] })
}

fn event_of(data: EventData, hi: bool) -> Event {
    Event {
        event_type: data.kind(),
        timestamp_ns: if hi { u64::MAX } else { 0 },
        pid: if hi { u32::MAX } else { 0 },
        tid: if hi { u32::MAX } else { 0 },
        uid: if hi { u32::MAX } else { 0 },
        gid: if hi { u32::MAX } else { 0 },
        data,
    }
}

fn payloads(hi: bool) -> Vec<EventData> {
    let mut v: Vec<EventData> = Vec::new();
    v.push(EventData::ProcessExec(ProcessExecEvent {
        filename: text::<MAX_STRING_LEN>(hi),
        argv: text::<MAX_ARGV_LEN>(hi),
        ppid: if hi { u32::MAX } else { u32::MIN },
    }));
    v.push(EventData::ProcessFork(ProcessForkEvent {
        child_pid: if hi { u32::MAX } else { u32::MIN },
        ppid: if hi { u32::MAX } else { u32::MIN },
    }));
    v.push(EventData::ProcessExit(ProcessExitEvent {
        exit_code: if hi { i32::MAX } else { i32::MIN },
    }));
    v.push(EventData::FileOpen(FileOpenEvent {
        path: text::<MAX_STRING_LEN>(hi),
        flags: if hi { i32::MAX } else { i32::MIN },
        mode: if hi { u32::MAX } else { u32::MIN },
        fd: if hi { i32::MAX } else { i32::MIN },
    }));
    v.push(EventData::FileRead(FileReadEvent {
        fd: if hi { i32::MAX } else { i32::MIN },
        count: if hi { u64::MAX } else { u64::MIN },
        ret: if hi { i64::MAX } else { i64::MIN },
    }));
    v.push(EventData::FileWrite(FileWriteEvent {
        fd: if hi { i32::MAX } else { i32::MIN },
        count: if hi { u64::MAX } else { u64::MIN },
        ret: if hi { i64::MAX } else { i64::MIN },
    }));
    v.push(EventData::FileClose(FileCloseEvent {
        fd: if hi { i32::MAX } else { i32::MIN },
    }));
    v.push(EventData::FileUnlink(FileUnlinkEvent {
        path: text::<MAX_STRING_LEN>(hi),
    }));
    v.push(EventData::FileRename(FileRenameEvent {
        oldpath: text::<MAX_STRING_LEN>(hi),
        newpath: text::<MAX_STRING_LEN>(hi),
    }));
    v.push(EventData::FileChmod(FileChmodEvent {
        path: text::<MAX_STRING_LEN>(hi),
        mode: if hi { u32::MAX } else { u32::MIN },
    }));
    v.push(EventData::FileChown(FileChownEvent {
        path: text::<MAX_STRING_LEN>(hi),
        owner: if hi { u32::MAX } else { u32::MIN },
        group: if hi { u32::MAX } else { u32::MIN },
    }));
    v.push(EventData::NetConnect(NetConnectEvent {
        family: if hi { u16::MAX } else { u16::MIN },
        protocol: if hi { u8::MAX } else { u8::MIN },
        local_addr: addr(hi),
        local_port: if hi { u16::MAX } else { u16::MIN },
        remote_addr: addr(hi),
        remote_port: if hi { u16::MAX } else { u16::MIN },
    }));
    v.push(EventData::NetAccept(NetAcceptEvent {
        family: if hi { u16::MAX } else { u16::MIN },
        local_addr: addr(hi),
        local_port: if hi { u16::MAX } else { u16::MIN },
        remote_addr: addr(hi),
        remote_port: if hi { u16::MAX } else { u16::MIN },
    }));
    v.push(EventData::NetBind(NetBindEvent {
        family: if hi { u16::MAX } else { u16::MIN },
        addr: addr(hi),
        port: if hi { u16::MAX } else { u16::MIN },
    }));
    v.push(EventData::NetSend(NetSendEvent {
        fd: if hi { i32::MAX } else { i32::MIN },
        bytes: if hi { u64::MAX } else { u64::MIN },
    }));
    v.push(EventData::NetRecv(NetRecvEvent {
        fd: if hi { i32::MAX } else { i32::MIN },
        bytes: if hi { u64::MAX } else { u64::MIN },
    }));
    v.push(EventData::NetSocket(NetSocketEvent {
        family: if hi { u16::MAX } else { u16::MIN },
        socket_type: if hi { u32::MAX } else { u32::MIN },
        protocol: if hi { u32::MAX } else { u32::MIN },
    }));
    v.push(EventData::InputKey(InputKeyEvent {
        key_code: if hi { u32::MAX } else { u32::MIN },
        action: if hi { u8::MAX } else { u8::MIN },
    }));
    v.push(EventData::InputMouse(InputMouseEvent {
        button: if hi { u8::MAX } else { u8::MIN },
        x: if hi { i32::MAX } else { i32::MIN },
        y: if hi { i32::MAX } else { i32::MIN },
    }));
    v.push(EventData::SecSetuid(SecSetuidEvent {
        old_uid: if hi { u32::MAX } else { u32::MIN },
        new_uid: if hi { u32::MAX } else { u32::MIN },
    }));
    v.push(EventData::SecSetgid(SecSetgidEvent {
        old_gid: if hi { u32::MAX } else { u32::MIN },
        new_gid: if hi { u32::MAX } else { u32::MIN },
    }));
    v.push(EventData::SecPtrace(SecPtraceEvent {
        target_pid: if hi { u32::MAX } else { u32::MIN },
        request: if hi { u32::MAX } else { u32::MIN },
    }));
    v.push(EventData::SecModuleLoad(SecModuleLoadEvent {
        name: text::<MAX_STRING_LEN>(hi),
    }));
    v.push(EventData::MemOomKill(MemOomKillEvent {
        victim_pid: if hi { u32::MAX } else { u32::MIN },
        victim_comm: text::<MAX_STRING_LEN>(hi),
        pages: if hi { u64::MAX } else { u64::MIN },
    }));
    v.push(EventData::MemOomVictim(MemOomVictimEvent {
        score: if hi { i64::MAX } else { i64::MIN },
        total_vm: if hi { u64::MAX } else { u64::MIN },
    }));
    v.push(EventData::NsUnshare(NsUnshareEvent {
        flags: if hi { u64::MAX } else { u64::MIN },
    }));
    v.push(EventData::NsSetns(NsSetnsEvent {
        fd: if hi { i32::MAX } else { i32::MIN },
        nstype: if hi { u32::MAX } else { u32::MIN },
    }));
    v.push(EventData::NsClone(NsCloneEvent {
        flags: if hi { u64::MAX } else { u64::MIN },
        child_pid: if hi { u32::MAX } else { u32::MIN },
    }));
    v.push(EventData::SignalSegfault(SignalSegfaultEvent {
        fault_addr: if hi { u64::MAX } else { u64::MIN },
        ip: if hi { u64::MAX } else { u64::MIN },
    }));
    v.push(EventData::SignalIllegal(SignalIllegalEvent {
        ip: if hi { u64::MAX } else { u64::MIN },
    }));
    v.push(EventData::SignalAbort(SignalAbortEvent {
        ip: if hi { u64::MAX } else { u64::MIN },
    }));
    v.push(EventData::SignalGeneric(SignalGenericEvent {
        signal: if hi { i32::MAX } else { i32::MIN },
        target_pid: if hi { u32::MAX } else { u32::MIN },
    }));
    v.push(EventData::ProcessCoredump(ProcessCoredumpEvent {
        signal: if hi { i32::MAX } else { i32::MIN },
        comm: text::<MAX_STRING_LEN>(hi),
    }));
    v.push(EventData::NetConnectFail(NetConnectFailEvent {
        family: if hi { u16::MAX } else { u16::MIN },
        remote_addr: addr(hi),
        remote_port: if hi { u16::MAX } else { u16::MIN },
        error: if hi { i32::MAX } else { i32::MIN },
    }));
    v.push(EventData::NetBindFail(NetBindFailEvent {
        family: if hi { u16::MAX } else { u16::MIN },
        addr: addr(hi),
        port: if hi { u16::MAX } else { u16::MIN },
        error: if hi { i32::MAX } else { i32::MIN },
    }));
    v.push(EventData::UsbAttach(UsbAttachEvent {
        bus_num: if hi { u16::MAX } else { u16::MIN },
        dev_num: if hi { u16::MAX } else { u16::MIN },
        vendor_id: if hi { u16::MAX } else { u16::MIN },
        product_id: if hi { u16::MAX } else { u16::MIN },
    }));
    v.push(EventData::UsbDetach(UsbDetachEvent {
        bus_num: if hi { u16::MAX } else { u16::MIN },
        dev_num: if hi { u16::MAX } else { u16::MIN },
        vendor_id: if hi { u16::MAX } else { u16::MIN },
        product_id: if hi { u16::MAX } else { u16::MIN },
    }));
    v.push(EventData::TtyAlloc(TtyAllocEvent {
        name: text::<MAX_STRING_LEN>(hi),
        major: if hi { u32::MAX } else { u32::MIN },
        minor: if hi { u32::MAX } else { u32::MIN },
    }));
    v.push(EventData::PtyAlloc(PtyAllocEvent {
        name: text::<MAX_STRING_LEN>(hi),
        major: if hi { u32::MAX } else { u32::MIN },
        minor: if hi { u32::MAX } else { u32::MIN },
    }));
    v.push(EventData::FsMount(FsMountEvent {
        dev_name: text::<MAX_STRING_LEN>(hi),
        path: text::<MAX_STRING_LEN>(hi),
        fs_type: text::<MAX_NAME_LEN>(hi),
        flags: if hi { u64::MAX } else { u64::MIN },
    }));
    v.push(EventData::FsUmount(FsUmountEvent {
        path: text::<MAX_STRING_LEN>(hi),
        flags: if hi { i32::MAX } else { i32::MIN },
    }));
    v.push(EventData::SyscallFail(SyscallFailEvent {
        syscall_nr: if hi { u64::MAX } else { u64::MIN },
        error: if hi { i32::MAX } else { i32::MIN },
    }));
    v
}

fn check_round_trip(e: &Event) {
    let bytes = encode(e);
    assert!(bytes.len() <= MAX_ENCODED_LEN);
    let back = decode(&bytes).expect("an encoding decodes");
    assert_eq!(&back, e);
    assert_eq!(encode(&back), bytes);
}

#[test]
fn round_trip_every_kind_at_minimum_values() {
    let all = payloads(false);
    assert_eq!(all.len(), 42);
    for data in all {
        check_round_trip(&event_of(data, false));
    }
}

#[test]
fn round_trip_every_kind_at_maximum_values() {
    for data in payloads(true) {
        check_round_trip(&event_of(data, true));
    }
}

#[test]
fn every_kind_has_its_own_code() {
    let kinds: Vec<EventType> = payloads(false).iter().map(|d| d.kind()).collect();
    for (i, a) in kinds.iter().enumerate() {
        assert_eq!(EventType::from_code(a.code()), Some(*a));
        for b in kinds.iter().skip(i + 1) {
            assert_ne!(a.code(), b.code());
        }
    }
    assert_eq!(EventType::ProcessExec.code(), 1);
    assert_eq!(EventType::SyscallFail.code(), 68);
    assert_eq!(EventType::from_code(0), None);
    assert_eq!(EventType::from_code(4), None);
}

