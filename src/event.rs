//! The typed event model: a closed set of kinds, each with a fixed-size payload.
use crate::bounded::{BoundedString, IpAddr, MAX_ARGV_LEN, MAX_NAME_LEN, MAX_STRING_LEN};
use vstd::prelude::*;

verus! {

/// The kind of an event.
#[derive(Clone, Copy, Debug, PartialEq, Eq, Structural)]
pub enum EventType {
    ProcessExec,
    ProcessFork,
    ProcessExit,
    FileOpen,
    FileRead,
    FileWrite,
    FileClose,
    FileUnlink,
    FileRename,
    FileChmod,
    FileChown,
    NetConnect,
    NetAccept,
    NetBind,
    NetSend,
    NetRecv,
    NetSocket,
    InputKey,
    InputMouse,
    SecSetuid,
    SecSetgid,
    SecPtrace,
    SecModuleLoad,
    MemOomKill,
    MemOomVictim,
    NsUnshare,
    NsSetns,
    NsClone,
    SignalSegfault,
    SignalIllegal,
    SignalAbort,
    SignalGeneric,
    ProcessCoredump,
    NetConnectFail,
    NetBindFail,
    UsbAttach,
    UsbDetach,
    TtyAlloc,
    PtyAlloc,
    FsMount,
    FsUmount,
    SyscallFail,
}

/// The one-byte code of each kind on the wire.
pub open spec fn kind_code(k: EventType) -> u8 {
    match k {
        EventType::ProcessExec => 1,
        EventType::ProcessFork => 2,
        EventType::ProcessExit => 3,
        EventType::FileOpen => 10,
        EventType::FileRead => 11,
        EventType::FileWrite => 12,
        EventType::FileClose => 13,
        EventType::FileUnlink => 14,
        EventType::FileRename => 15,
        EventType::FileChmod => 16,
        EventType::FileChown => 17,
        EventType::NetConnect => 20,
        EventType::NetAccept => 21,
        EventType::NetBind => 22,
        EventType::NetSend => 23,
        EventType::NetRecv => 24,
        EventType::NetSocket => 25,
        EventType::InputKey => 30,
        EventType::InputMouse => 31,
        EventType::SecSetuid => 40,
        EventType::SecSetgid => 41,
        EventType::SecPtrace => 42,
        EventType::SecModuleLoad => 43,
        EventType::MemOomKill => 50,
        EventType::MemOomVictim => 51,
        EventType::NsUnshare => 52,
        EventType::NsSetns => 53,
        EventType::NsClone => 54,
        EventType::SignalSegfault => 55,
        EventType::SignalIllegal => 56,
        EventType::SignalAbort => 57,
        EventType::SignalGeneric => 58,
        EventType::ProcessCoredump => 59,
        EventType::NetConnectFail => 60,
        EventType::NetBindFail => 61,
        EventType::UsbAttach => 62,
        EventType::UsbDetach => 63,
        EventType::TtyAlloc => 64,
        EventType::PtyAlloc => 65,
        EventType::FsMount => 66,
        EventType::FsUmount => 67,
        EventType::SyscallFail => 68,
    }
}

/// The kind that a wire code stands for, if any.
pub open spec fn kind_from_code(c: u8) -> Option<EventType> {
    match c {
        1 => Some(EventType::ProcessExec),
        2 => Some(EventType::ProcessFork),
        3 => Some(EventType::ProcessExit),
        10 => Some(EventType::FileOpen),
        11 => Some(EventType::FileRead),
        12 => Some(EventType::FileWrite),
        13 => Some(EventType::FileClose),
        14 => Some(EventType::FileUnlink),
        15 => Some(EventType::FileRename),
        16 => Some(EventType::FileChmod),
        17 => Some(EventType::FileChown),
        20 => Some(EventType::NetConnect),
        21 => Some(EventType::NetAccept),
        22 => Some(EventType::NetBind),
        23 => Some(EventType::NetSend),
        24 => Some(EventType::NetRecv),
        25 => Some(EventType::NetSocket),
        30 => Some(EventType::InputKey),
        31 => Some(EventType::InputMouse),
        40 => Some(EventType::SecSetuid),
        41 => Some(EventType::SecSetgid),
        42 => Some(EventType::SecPtrace),
        43 => Some(EventType::SecModuleLoad),
        50 => Some(EventType::MemOomKill),
        51 => Some(EventType::MemOomVictim),
        52 => Some(EventType::NsUnshare),
        53 => Some(EventType::NsSetns),
        54 => Some(EventType::NsClone),
        55 => Some(EventType::SignalSegfault),
        56 => Some(EventType::SignalIllegal),
        57 => Some(EventType::SignalAbort),
        58 => Some(EventType::SignalGeneric),
        59 => Some(EventType::ProcessCoredump),
        60 => Some(EventType::NetConnectFail),
        61 => Some(EventType::NetBindFail),
        62 => Some(EventType::UsbAttach),
        63 => Some(EventType::UsbDetach),
        64 => Some(EventType::TtyAlloc),
        65 => Some(EventType::PtyAlloc),
        66 => Some(EventType::FsMount),
        67 => Some(EventType::FsUmount),
        68 => Some(EventType::SyscallFail),
        _ => None,
    }
}

impl EventType {
    pub fn code(&self) -> (r: u8)
        ensures
            r == kind_code(*self),
    {
        match self {
            EventType::ProcessExec => 1,
            EventType::ProcessFork => 2,
            EventType::ProcessExit => 3,
            EventType::FileOpen => 10,
            EventType::FileRead => 11,
            EventType::FileWrite => 12,
            EventType::FileClose => 13,
            EventType::FileUnlink => 14,
            EventType::FileRename => 15,
            EventType::FileChmod => 16,
            EventType::FileChown => 17,
            EventType::NetConnect => 20,
            EventType::NetAccept => 21,
            EventType::NetBind => 22,
            EventType::NetSend => 23,
            EventType::NetRecv => 24,
            EventType::NetSocket => 25,
            EventType::InputKey => 30,
            EventType::InputMouse => 31,
            EventType::SecSetuid => 40,
            EventType::SecSetgid => 41,
            EventType::SecPtrace => 42,
            EventType::SecModuleLoad => 43,
            EventType::MemOomKill => 50,
            EventType::MemOomVictim => 51,
            EventType::NsUnshare => 52,
            EventType::NsSetns => 53,
            EventType::NsClone => 54,
            EventType::SignalSegfault => 55,
            EventType::SignalIllegal => 56,
            EventType::SignalAbort => 57,
            EventType::SignalGeneric => 58,
            EventType::ProcessCoredump => 59,
            EventType::NetConnectFail => 60,
            EventType::NetBindFail => 61,
            EventType::UsbAttach => 62,
            EventType::UsbDetach => 63,
            EventType::TtyAlloc => 64,
            EventType::PtyAlloc => 65,
            EventType::FsMount => 66,
            EventType::FsUmount => 67,
            EventType::SyscallFail => 68,
        }
    }

    pub fn from_code(c: u8) -> (r: Option<EventType>)
        ensures
            r == kind_from_code(c),
    {
        match c {
            1 => Some(EventType::ProcessExec),
            2 => Some(EventType::ProcessFork),
            3 => Some(EventType::ProcessExit),
            10 => Some(EventType::FileOpen),
            11 => Some(EventType::FileRead),
            12 => Some(EventType::FileWrite),
            13 => Some(EventType::FileClose),
            14 => Some(EventType::FileUnlink),
            15 => Some(EventType::FileRename),
            16 => Some(EventType::FileChmod),
            17 => Some(EventType::FileChown),
            20 => Some(EventType::NetConnect),
            21 => Some(EventType::NetAccept),
            22 => Some(EventType::NetBind),
            23 => Some(EventType::NetSend),
            24 => Some(EventType::NetRecv),
            25 => Some(EventType::NetSocket),
            30 => Some(EventType::InputKey),
            31 => Some(EventType::InputMouse),
            40 => Some(EventType::SecSetuid),
            41 => Some(EventType::SecSetgid),
            42 => Some(EventType::SecPtrace),
            43 => Some(EventType::SecModuleLoad),
            50 => Some(EventType::MemOomKill),
            51 => Some(EventType::MemOomVictim),
            52 => Some(EventType::NsUnshare),
            53 => Some(EventType::NsSetns),
            54 => Some(EventType::NsClone),
            55 => Some(EventType::SignalSegfault),
            56 => Some(EventType::SignalIllegal),
            57 => Some(EventType::SignalAbort),
            58 => Some(EventType::SignalGeneric),
            59 => Some(EventType::ProcessCoredump),
            60 => Some(EventType::NetConnectFail),
            61 => Some(EventType::NetBindFail),
            62 => Some(EventType::UsbAttach),
            63 => Some(EventType::UsbDetach),
            64 => Some(EventType::TtyAlloc),
            65 => Some(EventType::PtyAlloc),
            66 => Some(EventType::FsMount),
            67 => Some(EventType::FsUmount),
            68 => Some(EventType::SyscallFail),
            _ => None,
        }
    }
}

/// Every kind has its own code.
pub proof fn lemma_code_round_trip(k: EventType)
    ensures
        kind_from_code(kind_code(k)) == Some(k),
{
}

/// A code that stands for a kind is that kind's code.
pub proof fn lemma_code_from(c: u8)
    requires
        kind_from_code(c) is Some,
    ensures
        kind_code(kind_from_code(c)->0) == c,
{
}

/// One captured occurrence: who, when, and what.
#[derive(Clone, Copy, Debug, PartialEq, Eq)]
pub struct Event {
    pub event_type: EventType,
    pub timestamp_ns: u64,
    pub pid: u32,
    pub tid: u32,
    pub uid: u32,
    pub gid: u32,
    pub data: EventData,
}

/// The payload of an event; its variant names the event's kind.
#[derive(Clone, Copy, Debug, PartialEq, Eq)]
pub enum EventData {
    ProcessExec(ProcessExecEvent),
    ProcessFork(ProcessForkEvent),
    ProcessExit(ProcessExitEvent),
    FileOpen(FileOpenEvent),
    FileRead(FileReadEvent),
    FileWrite(FileWriteEvent),
    FileClose(FileCloseEvent),
    FileUnlink(FileUnlinkEvent),
    FileRename(FileRenameEvent),
    FileChmod(FileChmodEvent),
    FileChown(FileChownEvent),
    NetConnect(NetConnectEvent),
    NetAccept(NetAcceptEvent),
    NetBind(NetBindEvent),
    NetSend(NetSendEvent),
    NetRecv(NetRecvEvent),
    NetSocket(NetSocketEvent),
    InputKey(InputKeyEvent),
    InputMouse(InputMouseEvent),
    SecSetuid(SecSetuidEvent),
    SecSetgid(SecSetgidEvent),
    SecPtrace(SecPtraceEvent),
    SecModuleLoad(SecModuleLoadEvent),
    MemOomKill(MemOomKillEvent),
    MemOomVictim(MemOomVictimEvent),
    NsUnshare(NsUnshareEvent),
    NsSetns(NsSetnsEvent),
    NsClone(NsCloneEvent),
    SignalSegfault(SignalSegfaultEvent),
    SignalIllegal(SignalIllegalEvent),
    SignalAbort(SignalAbortEvent),
    SignalGeneric(SignalGenericEvent),
    ProcessCoredump(ProcessCoredumpEvent),
    NetConnectFail(NetConnectFailEvent),
    NetBindFail(NetBindFailEvent),
    UsbAttach(UsbAttachEvent),
    UsbDetach(UsbDetachEvent),
    TtyAlloc(TtyAllocEvent),
    PtyAlloc(PtyAllocEvent),
    FsMount(FsMountEvent),
    FsUmount(FsUmountEvent),
    SyscallFail(SyscallFailEvent),
}

#[derive(Clone, Copy, Debug, PartialEq, Eq)]
pub struct ProcessExecEvent {
    pub filename: BoundedString<MAX_STRING_LEN>,
    pub argv: BoundedString<MAX_ARGV_LEN>,
    pub ppid: u32,
}

#[derive(Clone, Copy, Debug, PartialEq, Eq)]
pub struct ProcessForkEvent {
    pub child_pid: u32,
    pub ppid: u32,
}

#[derive(Clone, Copy, Debug, PartialEq, Eq)]
pub struct ProcessExitEvent {
    pub exit_code: i32,
}

#[derive(Clone, Copy, Debug, PartialEq, Eq)]
pub struct FileOpenEvent {
    pub path: BoundedString<MAX_STRING_LEN>,
    pub flags: i32,
    pub mode: u32,
    pub fd: i32,
}

#[derive(Clone, Copy, Debug, PartialEq, Eq)]
pub struct FileReadEvent {
    pub fd: i32,
    pub count: u64,
    pub ret: i64,
}

#[derive(Clone, Copy, Debug, PartialEq, Eq)]
pub struct FileWriteEvent {
    pub fd: i32,
    pub count: u64,
    pub ret: i64,
}

#[derive(Clone, Copy, Debug, PartialEq, Eq)]
pub struct FileCloseEvent {
    pub fd: i32,
}

#[derive(Clone, Copy, Debug, PartialEq, Eq)]
pub struct FileUnlinkEvent {
    pub path: BoundedString<MAX_STRING_LEN>,
}

#[derive(Clone, Copy, Debug, PartialEq, Eq)]
pub struct FileRenameEvent {
    pub oldpath: BoundedString<MAX_STRING_LEN>,
    pub newpath: BoundedString<MAX_STRING_LEN>,
}

#[derive(Clone, Copy, Debug, PartialEq, Eq)]
pub struct FileChmodEvent {
    pub path: BoundedString<MAX_STRING_LEN>,
    pub mode: u32,
}

#[derive(Clone, Copy, Debug, PartialEq, Eq)]
pub struct FileChownEvent {
    pub path: BoundedString<MAX_STRING_LEN>,
    pub owner: u32,
    pub group: u32,
}

#[derive(Clone, Copy, Debug, PartialEq, Eq)]
pub struct NetConnectEvent {
    pub family: u16,
    pub protocol: u8,
    pub local_addr: IpAddr,
    pub local_port: u16,
    pub remote_addr: IpAddr,
    pub remote_port: u16,
}

#[derive(Clone, Copy, Debug, PartialEq, Eq)]
pub struct NetAcceptEvent {
    pub family: u16,
    pub local_addr: IpAddr,
    pub local_port: u16,
    pub remote_addr: IpAddr,
    pub remote_port: u16,
}

#[derive(Clone, Copy, Debug, PartialEq, Eq)]
pub struct NetBindEvent {
    pub family: u16,
    pub addr: IpAddr,
    pub port: u16,
}

#[derive(Clone, Copy, Debug, PartialEq, Eq)]
pub struct NetSendEvent {
    pub fd: i32,
    pub bytes: u64,
}

#[derive(Clone, Copy, Debug, PartialEq, Eq)]
pub struct NetRecvEvent {
    pub fd: i32,
    pub bytes: u64,
}

#[derive(Clone, Copy, Debug, PartialEq, Eq)]
pub struct NetSocketEvent {
    pub family: u16,
    pub socket_type: u32,
    pub protocol: u32,
}

#[derive(Clone, Copy, Debug, PartialEq, Eq)]
pub struct InputKeyEvent {
    pub key_code: u32,
    pub action: u8,
}

#[derive(Clone, Copy, Debug, PartialEq, Eq)]
pub struct InputMouseEvent {
    pub button: u8,
    pub x: i32,
    pub y: i32,
}

#[derive(Clone, Copy, Debug, PartialEq, Eq)]
pub struct SecSetuidEvent {
    pub old_uid: u32,
    pub new_uid: u32,
}

#[derive(Clone, Copy, Debug, PartialEq, Eq)]
pub struct SecSetgidEvent {
    pub old_gid: u32,
    pub new_gid: u32,
}

#[derive(Clone, Copy, Debug, PartialEq, Eq)]
pub struct SecPtraceEvent {
    pub target_pid: u32,
    pub request: u32,
}

#[derive(Clone, Copy, Debug, PartialEq, Eq)]
pub struct SecModuleLoadEvent {
    pub name: BoundedString<MAX_STRING_LEN>,
}

#[derive(Clone, Copy, Debug, PartialEq, Eq)]
pub struct MemOomKillEvent {
    pub victim_pid: u32,
    pub victim_comm: BoundedString<MAX_STRING_LEN>,
    pub pages: u64,
}

#[derive(Clone, Copy, Debug, PartialEq, Eq)]
pub struct MemOomVictimEvent {
    pub score: i64,
    pub total_vm: u64,
}

#[derive(Clone, Copy, Debug, PartialEq, Eq)]
pub struct NsUnshareEvent {
    pub flags: u64,
}

#[derive(Clone, Copy, Debug, PartialEq, Eq)]
pub struct NsSetnsEvent {
    pub fd: i32,
    pub nstype: u32,
}

#[derive(Clone, Copy, Debug, PartialEq, Eq)]
pub struct NsCloneEvent {
    pub flags: u64,
    pub child_pid: u32,
}

#[derive(Clone, Copy, Debug, PartialEq, Eq)]
pub struct SignalSegfaultEvent {
    pub fault_addr: u64,
    pub ip: u64,
}

#[derive(Clone, Copy, Debug, PartialEq, Eq)]
pub struct SignalIllegalEvent {
    pub ip: u64,
}

#[derive(Clone, Copy, Debug, PartialEq, Eq)]
pub struct SignalAbortEvent {
    pub ip: u64,
}

#[derive(Clone, Copy, Debug, PartialEq, Eq)]
pub struct SignalGenericEvent {
    pub signal: i32,
    pub target_pid: u32,
}

#[derive(Clone, Copy, Debug, PartialEq, Eq)]
pub struct ProcessCoredumpEvent {
    pub signal: i32,
    pub comm: BoundedString<MAX_STRING_LEN>,
}

#[derive(Clone, Copy, Debug, PartialEq, Eq)]
pub struct NetConnectFailEvent {
    pub family: u16,
    pub remote_addr: IpAddr,
    pub remote_port: u16,
    pub error: i32,
}

#[derive(Clone, Copy, Debug, PartialEq, Eq)]
pub struct NetBindFailEvent {
    pub family: u16,
    pub addr: IpAddr,
    pub port: u16,
    pub error: i32,
}

#[derive(Clone, Copy, Debug, PartialEq, Eq)]
pub struct UsbAttachEvent {
    pub bus_num: u16,
    pub dev_num: u16,
    pub vendor_id: u16,
    pub product_id: u16,
}

#[derive(Clone, Copy, Debug, PartialEq, Eq)]
pub struct UsbDetachEvent {
    pub bus_num: u16,
    pub dev_num: u16,
    pub vendor_id: u16,
    pub product_id: u16,
}

#[derive(Clone, Copy, Debug, PartialEq, Eq)]
pub struct TtyAllocEvent {
    pub name: BoundedString<MAX_STRING_LEN>,
    pub major: u32,
    pub minor: u32,
}

#[derive(Clone, Copy, Debug, PartialEq, Eq)]
pub struct PtyAllocEvent {
    pub name: BoundedString<MAX_STRING_LEN>,
    pub major: u32,
    pub minor: u32,
}

#[derive(Clone, Copy, Debug, PartialEq, Eq)]
pub struct FsMountEvent {
    pub dev_name: BoundedString<MAX_STRING_LEN>,
    pub path: BoundedString<MAX_STRING_LEN>,
    pub fs_type: BoundedString<MAX_NAME_LEN>,
    pub flags: u64,
}

#[derive(Clone, Copy, Debug, PartialEq, Eq)]
pub struct FsUmountEvent {
    pub path: BoundedString<MAX_STRING_LEN>,
    pub flags: i32,
}

#[derive(Clone, Copy, Debug, PartialEq, Eq)]
pub struct SyscallFailEvent {
    pub syscall_nr: u64,
    pub error: i32,
}

/// The kind that a payload belongs to.
pub open spec fn kind_of(d: EventData) -> EventType {
    match d {
        EventData::ProcessExec(_) => EventType::ProcessExec,
        EventData::ProcessFork(_) => EventType::ProcessFork,
        EventData::ProcessExit(_) => EventType::ProcessExit,
        EventData::FileOpen(_) => EventType::FileOpen,
        EventData::FileRead(_) => EventType::FileRead,
        EventData::FileWrite(_) => EventType::FileWrite,
        EventData::FileClose(_) => EventType::FileClose,
        EventData::FileUnlink(_) => EventType::FileUnlink,
        EventData::FileRename(_) => EventType::FileRename,
        EventData::FileChmod(_) => EventType::FileChmod,
        EventData::FileChown(_) => EventType::FileChown,
        EventData::NetConnect(_) => EventType::NetConnect,
        EventData::NetAccept(_) => EventType::NetAccept,
        EventData::NetBind(_) => EventType::NetBind,
        EventData::NetSend(_) => EventType::NetSend,
        EventData::NetRecv(_) => EventType::NetRecv,
        EventData::NetSocket(_) => EventType::NetSocket,
        EventData::InputKey(_) => EventType::InputKey,
        EventData::InputMouse(_) => EventType::InputMouse,
        EventData::SecSetuid(_) => EventType::SecSetuid,
        EventData::SecSetgid(_) => EventType::SecSetgid,
        EventData::SecPtrace(_) => EventType::SecPtrace,
        EventData::SecModuleLoad(_) => EventType::SecModuleLoad,
        EventData::MemOomKill(_) => EventType::MemOomKill,
        EventData::MemOomVictim(_) => EventType::MemOomVictim,
        EventData::NsUnshare(_) => EventType::NsUnshare,
        EventData::NsSetns(_) => EventType::NsSetns,
        EventData::NsClone(_) => EventType::NsClone,
        EventData::SignalSegfault(_) => EventType::SignalSegfault,
        EventData::SignalIllegal(_) => EventType::SignalIllegal,
        EventData::SignalAbort(_) => EventType::SignalAbort,
        EventData::SignalGeneric(_) => EventType::SignalGeneric,
        EventData::ProcessCoredump(_) => EventType::ProcessCoredump,
        EventData::NetConnectFail(_) => EventType::NetConnectFail,
        EventData::NetBindFail(_) => EventType::NetBindFail,
        EventData::UsbAttach(_) => EventType::UsbAttach,
        EventData::UsbDetach(_) => EventType::UsbDetach,
        EventData::TtyAlloc(_) => EventType::TtyAlloc,
        EventData::PtyAlloc(_) => EventType::PtyAlloc,
        EventData::FsMount(_) => EventType::FsMount,
        EventData::FsUmount(_) => EventType::FsUmount,
        EventData::SyscallFail(_) => EventType::SyscallFail,
    }
}

impl EventData {
    pub fn kind(&self) -> (r: EventType)
        ensures
            r == kind_of(*self),
    {
        match self {
            EventData::ProcessExec(_) => EventType::ProcessExec,
            EventData::ProcessFork(_) => EventType::ProcessFork,
            EventData::ProcessExit(_) => EventType::ProcessExit,
            EventData::FileOpen(_) => EventType::FileOpen,
            EventData::FileRead(_) => EventType::FileRead,
            EventData::FileWrite(_) => EventType::FileWrite,
            EventData::FileClose(_) => EventType::FileClose,
            EventData::FileUnlink(_) => EventType::FileUnlink,
            EventData::FileRename(_) => EventType::FileRename,
            EventData::FileChmod(_) => EventType::FileChmod,
            EventData::FileChown(_) => EventType::FileChown,
            EventData::NetConnect(_) => EventType::NetConnect,
            EventData::NetAccept(_) => EventType::NetAccept,
            EventData::NetBind(_) => EventType::NetBind,
            EventData::NetSend(_) => EventType::NetSend,
            EventData::NetRecv(_) => EventType::NetRecv,
            EventData::NetSocket(_) => EventType::NetSocket,
            EventData::InputKey(_) => EventType::InputKey,
            EventData::InputMouse(_) => EventType::InputMouse,
            EventData::SecSetuid(_) => EventType::SecSetuid,
            EventData::SecSetgid(_) => EventType::SecSetgid,
            EventData::SecPtrace(_) => EventType::SecPtrace,
            EventData::SecModuleLoad(_) => EventType::SecModuleLoad,
            EventData::MemOomKill(_) => EventType::MemOomKill,
            EventData::MemOomVictim(_) => EventType::MemOomVictim,
            EventData::NsUnshare(_) => EventType::NsUnshare,
            EventData::NsSetns(_) => EventType::NsSetns,
            EventData::NsClone(_) => EventType::NsClone,
            EventData::SignalSegfault(_) => EventType::SignalSegfault,
            EventData::SignalIllegal(_) => EventType::SignalIllegal,
            EventData::SignalAbort(_) => EventType::SignalAbort,
            EventData::SignalGeneric(_) => EventType::SignalGeneric,
            EventData::ProcessCoredump(_) => EventType::ProcessCoredump,
            EventData::NetConnectFail(_) => EventType::NetConnectFail,
            EventData::NetBindFail(_) => EventType::NetBindFail,
            EventData::UsbAttach(_) => EventType::UsbAttach,
            EventData::UsbDetach(_) => EventType::UsbDetach,
            EventData::TtyAlloc(_) => EventType::TtyAlloc,
            EventData::PtyAlloc(_) => EventType::PtyAlloc,
            EventData::FsMount(_) => EventType::FsMount,
            EventData::FsUmount(_) => EventType::FsUmount,
            EventData::SyscallFail(_) => EventType::SyscallFail,
        }
    }

    /// Every string of the payload is well formed.
    pub open spec fn wf(&self) -> bool {
        match self {
            EventData::ProcessExec(p) => p.filename.wf() && p.argv.wf(),
            EventData::ProcessFork(_) => true,
            EventData::ProcessExit(_) => true,
            EventData::FileOpen(p) => p.path.wf(),
            EventData::FileRead(_) => true,
            EventData::FileWrite(_) => true,
            EventData::FileClose(_) => true,
            EventData::FileUnlink(p) => p.path.wf(),
            EventData::FileRename(p) => p.oldpath.wf() && p.newpath.wf(),
            EventData::FileChmod(p) => p.path.wf(),
            EventData::FileChown(p) => p.path.wf(),
            EventData::NetConnect(_) => true,
            EventData::NetAccept(_) => true,
            EventData::NetBind(_) => true,
            EventData::NetSend(_) => true,
            EventData::NetRecv(_) => true,
            EventData::NetSocket(_) => true,
            EventData::InputKey(_) => true,
            EventData::InputMouse(_) => true,
            EventData::SecSetuid(_) => true,
            EventData::SecSetgid(_) => true,
            EventData::SecPtrace(_) => true,
            EventData::SecModuleLoad(p) => p.name.wf(),
            EventData::MemOomKill(p) => p.victim_comm.wf(),
            EventData::MemOomVictim(_) => true,
            EventData::NsUnshare(_) => true,
            EventData::NsSetns(_) => true,
            EventData::NsClone(_) => true,
            EventData::SignalSegfault(_) => true,
            EventData::SignalIllegal(_) => true,
            EventData::SignalAbort(_) => true,
            EventData::SignalGeneric(_) => true,
            EventData::ProcessCoredump(p) => p.comm.wf(),
            EventData::NetConnectFail(_) => true,
            EventData::NetBindFail(_) => true,
            EventData::UsbAttach(_) => true,
            EventData::UsbDetach(_) => true,
            EventData::TtyAlloc(p) => p.name.wf(),
            EventData::PtyAlloc(p) => p.name.wf(),
            EventData::FsMount(p) => p.dev_name.wf() && p.path.wf() && p.fs_type.wf(),
            EventData::FsUmount(p) => p.path.wf(),
            EventData::SyscallFail(_) => true,
        }
    }
}

impl Event {
    /// The kind agrees with the payload, and the payload is well formed.
    pub open spec fn wf(&self) -> bool {
        &&& self.event_type == kind_of(self.data)
        &&& self.data.wf()
    }
}

} // verus!
