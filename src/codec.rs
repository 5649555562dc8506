//! The wire encoding of events: a kind code, a fixed header, then the payload's fields in
//! declaration order. Numbers are fixed-width little-endian, strings carry a four-byte length.
use crate::bounded::{
    lemma_addr_injective, lemma_bounded_injective, BoundedString, IpAddr, MAX_ARGV_LEN,
    MAX_NAME_LEN, MAX_STRING_LEN,
};
use crate::event::{
    kind_code, kind_from_code, kind_of, lemma_code_from, lemma_code_round_trip, Event, EventData,
    EventType,
};
use crate::event::{
    ProcessExecEvent, ProcessForkEvent, ProcessExitEvent, FileOpenEvent, FileReadEvent,
    FileWriteEvent, FileCloseEvent, FileUnlinkEvent, FileRenameEvent, FileChmodEvent,
    FileChownEvent, NetConnectEvent, NetAcceptEvent, NetBindEvent, NetSendEvent, NetRecvEvent,
    NetSocketEvent, InputKeyEvent, InputMouseEvent, SecSetuidEvent, SecSetgidEvent, SecPtraceEvent,
    SecModuleLoadEvent, MemOomKillEvent, MemOomVictimEvent, NsUnshareEvent, NsSetnsEvent,
    NsCloneEvent, SignalSegfaultEvent, SignalIllegalEvent, SignalAbortEvent, SignalGenericEvent,
    ProcessCoredumpEvent, NetConnectFailEvent, NetBindFailEvent, UsbAttachEvent, UsbDetachEvent,
    TtyAllocEvent, PtyAllocEvent, FsMountEvent, FsUmountEvent, SyscallFailEvent,
};
use crate::wire::{
    all_fit, fields_bytes, fits, lemma_parse_fields_complete,
    lemma_fields_len_bound, lemma_parse_fields_sound, max_fields_len, parse_fields, put_fields,
    take_fields,
    views, Field, FieldKind, FieldValue,
};
use vstd::prelude::*;

verus! {

broadcast use {
    vstd::array::group_array_axioms,
    crate::wire::lemma_i32_bits,
    crate::wire::lemma_u32_bits,
    crate::wire::lemma_i64_bits,
    crate::wire::lemma_u64_bits,
};

/// The largest encoding of any event.
pub const MAX_ENCODED_LEN: usize = 12325;

pub open spec fn header_shape() -> Seq<FieldKind> {
    seq![FieldKind::U64, FieldKind::U32, FieldKind::U32, FieldKind::U32, FieldKind::U32]
}

pub open spec fn header_values(e: Event) -> Seq<FieldValue> {
    seq![
        FieldValue::U64(e.timestamp_ns),
        FieldValue::U32(e.pid),
        FieldValue::U32(e.tid),
        FieldValue::U32(e.uid),
        FieldValue::U32(e.gid),
    ]
}

/// What the payload of each kind holds, in order.
pub open spec fn payload_shape(k: EventType) -> Seq<FieldKind> {
    match k {
        EventType::ProcessExec => seq![
            FieldKind::Text(MAX_STRING_LEN),
            FieldKind::Text(MAX_ARGV_LEN),
            FieldKind::U32,
        ],
        EventType::ProcessFork => seq![FieldKind::U32, FieldKind::U32],
        EventType::ProcessExit => seq![FieldKind::U32],
        EventType::FileOpen => seq![
            FieldKind::Text(MAX_STRING_LEN),
            FieldKind::U32,
            FieldKind::U32,
            FieldKind::U32,
        ],
        EventType::FileRead => seq![FieldKind::U32, FieldKind::U64, FieldKind::U64],
        EventType::FileWrite => seq![FieldKind::U32, FieldKind::U64, FieldKind::U64],
        EventType::FileClose => seq![FieldKind::U32],
        EventType::FileUnlink => seq![FieldKind::Text(MAX_STRING_LEN)],
        EventType::FileRename => seq![
            FieldKind::Text(MAX_STRING_LEN),
            FieldKind::Text(MAX_STRING_LEN),
        ],
        EventType::FileChmod => seq![FieldKind::Text(MAX_STRING_LEN), FieldKind::U32],
        EventType::FileChown => seq![
            FieldKind::Text(MAX_STRING_LEN),
            FieldKind::U32,
            FieldKind::U32,
        ],
        EventType::NetConnect => seq![
            FieldKind::U16,
            FieldKind::U8,
            FieldKind::Addr,
            FieldKind::U16,
            FieldKind::Addr,
            FieldKind::U16,
        ],
        EventType::NetAccept => seq![
            FieldKind::U16,
            FieldKind::Addr,
            FieldKind::U16,
            FieldKind::Addr,
            FieldKind::U16,
        ],
        EventType::NetBind => seq![FieldKind::U16, FieldKind::Addr, FieldKind::U16],
        EventType::NetSend => seq![FieldKind::U32, FieldKind::U64],
        EventType::NetRecv => seq![FieldKind::U32, FieldKind::U64],
        EventType::NetSocket => seq![FieldKind::U16, FieldKind::U32, FieldKind::U32],
        EventType::InputKey => seq![FieldKind::U32, FieldKind::U8],
        EventType::InputMouse => seq![FieldKind::U8, FieldKind::U32, FieldKind::U32],
        EventType::SecSetuid => seq![FieldKind::U32, FieldKind::U32],
        EventType::SecSetgid => seq![FieldKind::U32, FieldKind::U32],
        EventType::SecPtrace => seq![FieldKind::U32, FieldKind::U32],
        EventType::SecModuleLoad => seq![FieldKind::Text(MAX_STRING_LEN)],
        EventType::MemOomKill => seq![
            FieldKind::U32,
            FieldKind::Text(MAX_STRING_LEN),
            FieldKind::U64,
        ],
        EventType::MemOomVictim => seq![FieldKind::U64, FieldKind::U64],
        EventType::NsUnshare => seq![FieldKind::U64],
        EventType::NsSetns => seq![FieldKind::U32, FieldKind::U32],
        EventType::NsClone => seq![FieldKind::U64, FieldKind::U32],
        EventType::SignalSegfault => seq![FieldKind::U64, FieldKind::U64],
        EventType::SignalIllegal => seq![FieldKind::U64],
        EventType::SignalAbort => seq![FieldKind::U64],
        EventType::SignalGeneric => seq![FieldKind::U32, FieldKind::U32],
        EventType::ProcessCoredump => seq![FieldKind::U32, FieldKind::Text(MAX_STRING_LEN)],
        EventType::NetConnectFail => seq![
            FieldKind::U16,
            FieldKind::Addr,
            FieldKind::U16,
            FieldKind::U32,
        ],
        EventType::NetBindFail => seq![
            FieldKind::U16,
            FieldKind::Addr,
            FieldKind::U16,
            FieldKind::U32,
        ],
        EventType::UsbAttach => seq![
            FieldKind::U16,
            FieldKind::U16,
            FieldKind::U16,
            FieldKind::U16,
        ],
        EventType::UsbDetach => seq![
            FieldKind::U16,
            FieldKind::U16,
            FieldKind::U16,
            FieldKind::U16,
        ],
        EventType::TtyAlloc => seq![
            FieldKind::Text(MAX_STRING_LEN),
            FieldKind::U32,
            FieldKind::U32,
        ],
        EventType::PtyAlloc => seq![
            FieldKind::Text(MAX_STRING_LEN),
            FieldKind::U32,
            FieldKind::U32,
        ],
        EventType::FsMount => seq![
            FieldKind::Text(MAX_STRING_LEN),
            FieldKind::Text(MAX_STRING_LEN),
            FieldKind::Text(MAX_NAME_LEN),
            FieldKind::U64,
        ],
        EventType::FsUmount => seq![FieldKind::Text(MAX_STRING_LEN), FieldKind::U32],
        EventType::SyscallFail => seq![FieldKind::U64, FieldKind::U32],
    }
}

/// The values of a payload, in the order of `payload_shape`.
pub open spec fn payload_values(d: EventData) -> Seq<FieldValue> {
    match d {
        EventData::ProcessExec(p) => seq![
            FieldValue::Text(p.filename@),
            FieldValue::Text(p.argv@),
            FieldValue::U32(p.ppid),
        ],
        EventData::ProcessFork(p) => seq![FieldValue::U32(p.child_pid), FieldValue::U32(p.ppid)],
        EventData::ProcessExit(p) => seq![FieldValue::U32(p.exit_code as u32)],
        EventData::FileOpen(p) => seq![
            FieldValue::Text(p.path@),
            FieldValue::U32(p.flags as u32),
            FieldValue::U32(p.mode),
            FieldValue::U32(p.fd as u32),
        ],
        EventData::FileRead(p) => seq![
            FieldValue::U32(p.fd as u32),
            FieldValue::U64(p.count),
            FieldValue::U64(p.ret as u64),
        ],
        EventData::FileWrite(p) => seq![
            FieldValue::U32(p.fd as u32),
            FieldValue::U64(p.count),
            FieldValue::U64(p.ret as u64),
        ],
        EventData::FileClose(p) => seq![FieldValue::U32(p.fd as u32)],
        EventData::FileUnlink(p) => seq![FieldValue::Text(p.path@)],
        EventData::FileRename(p) => seq![
            FieldValue::Text(p.oldpath@),
            FieldValue::Text(p.newpath@),
        ],
        EventData::FileChmod(p) => seq![FieldValue::Text(p.path@), FieldValue::U32(p.mode)],
        EventData::FileChown(p) => seq![
            FieldValue::Text(p.path@),
            FieldValue::U32(p.owner),
            FieldValue::U32(p.group),
        ],
        EventData::NetConnect(p) => seq![
            FieldValue::U16(p.family),
            FieldValue::U8(p.protocol),
            FieldValue::Addr(p.local_addr.v6@),
            FieldValue::U16(p.local_port),
            FieldValue::Addr(p.remote_addr.v6@),
            FieldValue::U16(p.remote_port),
        ],
        EventData::NetAccept(p) => seq![
            FieldValue::U16(p.family),
            FieldValue::Addr(p.local_addr.v6@),
            FieldValue::U16(p.local_port),
            FieldValue::Addr(p.remote_addr.v6@),
            FieldValue::U16(p.remote_port),
        ],
        EventData::NetBind(p) => seq![
            FieldValue::U16(p.family),
            FieldValue::Addr(p.addr.v6@),
            FieldValue::U16(p.port),
        ],
        EventData::NetSend(p) => seq![FieldValue::U32(p.fd as u32), FieldValue::U64(p.bytes)],
        EventData::NetRecv(p) => seq![FieldValue::U32(p.fd as u32), FieldValue::U64(p.bytes)],
        EventData::NetSocket(p) => seq![
            FieldValue::U16(p.family),
            FieldValue::U32(p.socket_type),
            FieldValue::U32(p.protocol),
        ],
        EventData::InputKey(p) => seq![FieldValue::U32(p.key_code), FieldValue::U8(p.action)],
        EventData::InputMouse(p) => seq![
            FieldValue::U8(p.button),
            FieldValue::U32(p.x as u32),
            FieldValue::U32(p.y as u32),
        ],
        EventData::SecSetuid(p) => seq![FieldValue::U32(p.old_uid), FieldValue::U32(p.new_uid)],
        EventData::SecSetgid(p) => seq![FieldValue::U32(p.old_gid), FieldValue::U32(p.new_gid)],
        EventData::SecPtrace(p) => seq![FieldValue::U32(p.target_pid), FieldValue::U32(p.request)],
        EventData::SecModuleLoad(p) => seq![FieldValue::Text(p.name@)],
        EventData::MemOomKill(p) => seq![
            FieldValue::U32(p.victim_pid),
            FieldValue::Text(p.victim_comm@),
            FieldValue::U64(p.pages),
        ],
        EventData::MemOomVictim(p) => seq![
            FieldValue::U64(p.score as u64),
            FieldValue::U64(p.total_vm),
        ],
        EventData::NsUnshare(p) => seq![FieldValue::U64(p.flags)],
        EventData::NsSetns(p) => seq![FieldValue::U32(p.fd as u32), FieldValue::U32(p.nstype)],
        EventData::NsClone(p) => seq![FieldValue::U64(p.flags), FieldValue::U32(p.child_pid)],
        EventData::SignalSegfault(p) => seq![FieldValue::U64(p.fault_addr), FieldValue::U64(p.ip)],
        EventData::SignalIllegal(p) => seq![FieldValue::U64(p.ip)],
        EventData::SignalAbort(p) => seq![FieldValue::U64(p.ip)],
        EventData::SignalGeneric(p) => seq![
            FieldValue::U32(p.signal as u32),
            FieldValue::U32(p.target_pid),
        ],
        EventData::ProcessCoredump(p) => seq![
            FieldValue::U32(p.signal as u32),
            FieldValue::Text(p.comm@),
        ],
        EventData::NetConnectFail(p) => seq![
            FieldValue::U16(p.family),
            FieldValue::Addr(p.remote_addr.v6@),
            FieldValue::U16(p.remote_port),
            FieldValue::U32(p.error as u32),
        ],
        EventData::NetBindFail(p) => seq![
            FieldValue::U16(p.family),
            FieldValue::Addr(p.addr.v6@),
            FieldValue::U16(p.port),
            FieldValue::U32(p.error as u32),
        ],
        EventData::UsbAttach(p) => seq![
            FieldValue::U16(p.bus_num),
            FieldValue::U16(p.dev_num),
            FieldValue::U16(p.vendor_id),
            FieldValue::U16(p.product_id),
        ],
        EventData::UsbDetach(p) => seq![
            FieldValue::U16(p.bus_num),
            FieldValue::U16(p.dev_num),
            FieldValue::U16(p.vendor_id),
            FieldValue::U16(p.product_id),
        ],
        EventData::TtyAlloc(p) => seq![
            FieldValue::Text(p.name@),
            FieldValue::U32(p.major),
            FieldValue::U32(p.minor),
        ],
        EventData::PtyAlloc(p) => seq![
            FieldValue::Text(p.name@),
            FieldValue::U32(p.major),
            FieldValue::U32(p.minor),
        ],
        EventData::FsMount(p) => seq![
            FieldValue::Text(p.dev_name@),
            FieldValue::Text(p.path@),
            FieldValue::Text(p.fs_type@),
            FieldValue::U64(p.flags),
        ],
        EventData::FsUmount(p) => seq![FieldValue::Text(p.path@), FieldValue::U32(p.flags as u32)],
        EventData::SyscallFail(p) => seq![
            FieldValue::U64(p.syscall_nr),
            FieldValue::U32(p.error as u32),
        ],
    }
}

/// The bytes of an event on the wire.
pub open spec fn encode_event(e: Event) -> Seq<u8> {
    seq![kind_code(kind_of(e.data))] + fields_bytes(header_values(e)) + fields_bytes(
        payload_values(e.data),
    )
}

/// `b` is the encoding of the well-formed event `e`.
pub open spec fn is_encoding_of(b: Seq<u8>, e: Event) -> bool {
    e.wf() && encode_event(e) == b
}

/// The event that `b` encodes, if `b` encodes one.
pub open spec fn decode_event(b: Seq<u8>) -> Option<Event> {
    if exists|e: Event| is_encoding_of(b, e) {
        Some(choose|e: Event| is_encoding_of(b, e))
    } else {
        None
    }
}

fn header_shape_of() -> (r: Vec<FieldKind>)
    ensures
        r@ == header_shape(),
{
    let r = vec![FieldKind::U64, FieldKind::U32, FieldKind::U32, FieldKind::U32, FieldKind::U32];
    assert(r@ =~= header_shape());
    r
}

fn header_fields(e: &Event) -> (r: Vec<Field>)
    ensures
        views(r@) == header_values(*e),
{
    let r = vec![
        Field::U64(e.timestamp_ns),
        Field::U32(e.pid),
        Field::U32(e.tid),
        Field::U32(e.uid),
        Field::U32(e.gid),
    ];
    assert(views(r@) =~= header_values(*e));
    r
}

fn payload_shape_of(k: EventType) -> (r: Vec<FieldKind>)
    ensures
        r@ == payload_shape(k),
{
    let r = match k {
        EventType::ProcessExec => vec![
            FieldKind::Text(MAX_STRING_LEN),
            FieldKind::Text(MAX_ARGV_LEN),
            FieldKind::U32,
        ],
        EventType::ProcessFork => vec![FieldKind::U32, FieldKind::U32],
        EventType::ProcessExit => vec![FieldKind::U32],
        EventType::FileOpen => vec![
            FieldKind::Text(MAX_STRING_LEN),
            FieldKind::U32,
            FieldKind::U32,
            FieldKind::U32,
        ],
        EventType::FileRead => vec![FieldKind::U32, FieldKind::U64, FieldKind::U64],
        EventType::FileWrite => vec![FieldKind::U32, FieldKind::U64, FieldKind::U64],
        EventType::FileClose => vec![FieldKind::U32],
        EventType::FileUnlink => vec![FieldKind::Text(MAX_STRING_LEN)],
        EventType::FileRename => vec![
            FieldKind::Text(MAX_STRING_LEN),
            FieldKind::Text(MAX_STRING_LEN),
        ],
        EventType::FileChmod => vec![FieldKind::Text(MAX_STRING_LEN), FieldKind::U32],
        EventType::FileChown => vec![
            FieldKind::Text(MAX_STRING_LEN),
            FieldKind::U32,
            FieldKind::U32,
        ],
        EventType::NetConnect => vec![
            FieldKind::U16,
            FieldKind::U8,
            FieldKind::Addr,
            FieldKind::U16,
            FieldKind::Addr,
            FieldKind::U16,
        ],
        EventType::NetAccept => vec![
            FieldKind::U16,
            FieldKind::Addr,
            FieldKind::U16,
            FieldKind::Addr,
            FieldKind::U16,
        ],
        EventType::NetBind => vec![FieldKind::U16, FieldKind::Addr, FieldKind::U16],
        EventType::NetSend => vec![FieldKind::U32, FieldKind::U64],
        EventType::NetRecv => vec![FieldKind::U32, FieldKind::U64],
        EventType::NetSocket => vec![FieldKind::U16, FieldKind::U32, FieldKind::U32],
        EventType::InputKey => vec![FieldKind::U32, FieldKind::U8],
        EventType::InputMouse => vec![FieldKind::U8, FieldKind::U32, FieldKind::U32],
        EventType::SecSetuid => vec![FieldKind::U32, FieldKind::U32],
        EventType::SecSetgid => vec![FieldKind::U32, FieldKind::U32],
        EventType::SecPtrace => vec![FieldKind::U32, FieldKind::U32],
        EventType::SecModuleLoad => vec![FieldKind::Text(MAX_STRING_LEN)],
        EventType::MemOomKill => vec![
            FieldKind::U32,
            FieldKind::Text(MAX_STRING_LEN),
            FieldKind::U64,
        ],
        EventType::MemOomVictim => vec![FieldKind::U64, FieldKind::U64],
        EventType::NsUnshare => vec![FieldKind::U64],
        EventType::NsSetns => vec![FieldKind::U32, FieldKind::U32],
        EventType::NsClone => vec![FieldKind::U64, FieldKind::U32],
        EventType::SignalSegfault => vec![FieldKind::U64, FieldKind::U64],
        EventType::SignalIllegal => vec![FieldKind::U64],
        EventType::SignalAbort => vec![FieldKind::U64],
        EventType::SignalGeneric => vec![FieldKind::U32, FieldKind::U32],
        EventType::ProcessCoredump => vec![FieldKind::U32, FieldKind::Text(MAX_STRING_LEN)],
        EventType::NetConnectFail => vec![
            FieldKind::U16,
            FieldKind::Addr,
            FieldKind::U16,
            FieldKind::U32,
        ],
        EventType::NetBindFail => vec![
            FieldKind::U16,
            FieldKind::Addr,
            FieldKind::U16,
            FieldKind::U32,
        ],
        EventType::UsbAttach => vec![
            FieldKind::U16,
            FieldKind::U16,
            FieldKind::U16,
            FieldKind::U16,
        ],
        EventType::UsbDetach => vec![
            FieldKind::U16,
            FieldKind::U16,
            FieldKind::U16,
            FieldKind::U16,
        ],
        EventType::TtyAlloc => vec![
            FieldKind::Text(MAX_STRING_LEN),
            FieldKind::U32,
            FieldKind::U32,
        ],
        EventType::PtyAlloc => vec![
            FieldKind::Text(MAX_STRING_LEN),
            FieldKind::U32,
            FieldKind::U32,
        ],
        EventType::FsMount => vec![
            FieldKind::Text(MAX_STRING_LEN),
            FieldKind::Text(MAX_STRING_LEN),
            FieldKind::Text(MAX_NAME_LEN),
            FieldKind::U64,
        ],
        EventType::FsUmount => vec![FieldKind::Text(MAX_STRING_LEN), FieldKind::U32],
        EventType::SyscallFail => vec![FieldKind::U64, FieldKind::U32],
    };
    assert(r@ =~= payload_shape(k));
    r
}

fn payload_fields(d: &EventData) -> (r: Vec<Field>)
    ensures
        views(r@) == payload_values(*d),
{
    let r = match d {
        EventData::ProcessExec(p) => vec![
            Field::Text(p.filename.to_vec()),
            Field::Text(p.argv.to_vec()),
            Field::U32(p.ppid),
        ],
        EventData::ProcessFork(p) => vec![Field::U32(p.child_pid), Field::U32(p.ppid)],
        EventData::ProcessExit(p) => vec![Field::U32(p.exit_code as u32)],
        EventData::FileOpen(p) => vec![
            Field::Text(p.path.to_vec()),
            Field::U32(p.flags as u32),
            Field::U32(p.mode),
            Field::U32(p.fd as u32),
        ],
        EventData::FileRead(p) => vec![
            Field::U32(p.fd as u32),
            Field::U64(p.count),
            Field::U64(p.ret as u64),
        ],
        EventData::FileWrite(p) => vec![
            Field::U32(p.fd as u32),
            Field::U64(p.count),
            Field::U64(p.ret as u64),
        ],
        EventData::FileClose(p) => vec![Field::U32(p.fd as u32)],
        EventData::FileUnlink(p) => vec![Field::Text(p.path.to_vec())],
        EventData::FileRename(p) => vec![
            Field::Text(p.oldpath.to_vec()),
            Field::Text(p.newpath.to_vec()),
        ],
        EventData::FileChmod(p) => vec![Field::Text(p.path.to_vec()), Field::U32(p.mode)],
        EventData::FileChown(p) => vec![
            Field::Text(p.path.to_vec()),
            Field::U32(p.owner),
            Field::U32(p.group),
        ],
        EventData::NetConnect(p) => vec![
            Field::U16(p.family),
            Field::U8(p.protocol),
            Field::Addr(p.local_addr.v6),
            Field::U16(p.local_port),
            Field::Addr(p.remote_addr.v6),
            Field::U16(p.remote_port),
        ],
        EventData::NetAccept(p) => vec![
            Field::U16(p.family),
            Field::Addr(p.local_addr.v6),
            Field::U16(p.local_port),
            Field::Addr(p.remote_addr.v6),
            Field::U16(p.remote_port),
        ],
        EventData::NetBind(p) => vec![
            Field::U16(p.family),
            Field::Addr(p.addr.v6),
            Field::U16(p.port),
        ],
        EventData::NetSend(p) => vec![Field::U32(p.fd as u32), Field::U64(p.bytes)],
        EventData::NetRecv(p) => vec![Field::U32(p.fd as u32), Field::U64(p.bytes)],
        EventData::NetSocket(p) => vec![
            Field::U16(p.family),
            Field::U32(p.socket_type),
            Field::U32(p.protocol),
        ],
        EventData::InputKey(p) => vec![Field::U32(p.key_code), Field::U8(p.action)],
        EventData::InputMouse(p) => vec![
            Field::U8(p.button),
            Field::U32(p.x as u32),
            Field::U32(p.y as u32),
        ],
        EventData::SecSetuid(p) => vec![Field::U32(p.old_uid), Field::U32(p.new_uid)],
        EventData::SecSetgid(p) => vec![Field::U32(p.old_gid), Field::U32(p.new_gid)],
        EventData::SecPtrace(p) => vec![Field::U32(p.target_pid), Field::U32(p.request)],
        EventData::SecModuleLoad(p) => vec![Field::Text(p.name.to_vec())],
        EventData::MemOomKill(p) => vec![
            Field::U32(p.victim_pid),
            Field::Text(p.victim_comm.to_vec()),
            Field::U64(p.pages),
        ],
        EventData::MemOomVictim(p) => vec![Field::U64(p.score as u64), Field::U64(p.total_vm)],
        EventData::NsUnshare(p) => vec![Field::U64(p.flags)],
        EventData::NsSetns(p) => vec![Field::U32(p.fd as u32), Field::U32(p.nstype)],
        EventData::NsClone(p) => vec![Field::U64(p.flags), Field::U32(p.child_pid)],
        EventData::SignalSegfault(p) => vec![Field::U64(p.fault_addr), Field::U64(p.ip)],
        EventData::SignalIllegal(p) => vec![Field::U64(p.ip)],
        EventData::SignalAbort(p) => vec![Field::U64(p.ip)],
        EventData::SignalGeneric(p) => vec![Field::U32(p.signal as u32), Field::U32(p.target_pid)],
        EventData::ProcessCoredump(p) => vec![
            Field::U32(p.signal as u32),
            Field::Text(p.comm.to_vec()),
        ],
        EventData::NetConnectFail(p) => vec![
            Field::U16(p.family),
            Field::Addr(p.remote_addr.v6),
            Field::U16(p.remote_port),
            Field::U32(p.error as u32),
        ],
        EventData::NetBindFail(p) => vec![
            Field::U16(p.family),
            Field::Addr(p.addr.v6),
            Field::U16(p.port),
            Field::U32(p.error as u32),
        ],
        EventData::UsbAttach(p) => vec![
            Field::U16(p.bus_num),
            Field::U16(p.dev_num),
            Field::U16(p.vendor_id),
            Field::U16(p.product_id),
        ],
        EventData::UsbDetach(p) => vec![
            Field::U16(p.bus_num),
            Field::U16(p.dev_num),
            Field::U16(p.vendor_id),
            Field::U16(p.product_id),
        ],
        EventData::TtyAlloc(p) => vec![
            Field::Text(p.name.to_vec()),
            Field::U32(p.major),
            Field::U32(p.minor),
        ],
        EventData::PtyAlloc(p) => vec![
            Field::Text(p.name.to_vec()),
            Field::U32(p.major),
            Field::U32(p.minor),
        ],
        EventData::FsMount(p) => vec![
            Field::Text(p.dev_name.to_vec()),
            Field::Text(p.path.to_vec()),
            Field::Text(p.fs_type.to_vec()),
            Field::U64(p.flags),
        ],
        EventData::FsUmount(p) => vec![Field::Text(p.path.to_vec()), Field::U32(p.flags as u32)],
        EventData::SyscallFail(p) => vec![Field::U64(p.syscall_nr), Field::U32(p.error as u32)],
    };
    assert(views(r@) =~= payload_values(*d));
    r
}

fn u8_at(fs: &Vec<Field>, i: usize) -> (r: u8)
    requires
        i < fs@.len(),
        fits(FieldKind::U8, fs@[i as int]@),
    ensures
        fs@[i as int]@ == FieldValue::U8(r),
{
    match &fs[i] {
        Field::U8(x) => *x,
        _ => 0,
    }
}

fn u16_at(fs: &Vec<Field>, i: usize) -> (r: u16)
    requires
        i < fs@.len(),
        fits(FieldKind::U16, fs@[i as int]@),
    ensures
        fs@[i as int]@ == FieldValue::U16(r),
{
    match &fs[i] {
        Field::U16(x) => *x,
        _ => 0,
    }
}

fn u32_at(fs: &Vec<Field>, i: usize) -> (r: u32)
    requires
        i < fs@.len(),
        fits(FieldKind::U32, fs@[i as int]@),
    ensures
        fs@[i as int]@ == FieldValue::U32(r),
{
    match &fs[i] {
        Field::U32(x) => *x,
        _ => 0,
    }
}

fn i32_at(fs: &Vec<Field>, i: usize) -> (r: i32)
    requires
        i < fs@.len(),
        fits(FieldKind::U32, fs@[i as int]@),
    ensures
        fs@[i as int]@ == FieldValue::U32(r as u32),
{
    match &fs[i] {
        Field::U32(x) => *x as i32,
        _ => 0,
    }
}

fn u64_at(fs: &Vec<Field>, i: usize) -> (r: u64)
    requires
        i < fs@.len(),
        fits(FieldKind::U64, fs@[i as int]@),
    ensures
        fs@[i as int]@ == FieldValue::U64(r),
{
    match &fs[i] {
        Field::U64(x) => *x,
        _ => 0,
    }
}

fn i64_at(fs: &Vec<Field>, i: usize) -> (r: i64)
    requires
        i < fs@.len(),
        fits(FieldKind::U64, fs@[i as int]@),
    ensures
        fs@[i as int]@ == FieldValue::U64(r as u64),
{
    match &fs[i] {
        Field::U64(x) => *x as i64,
        _ => 0,
    }
}

fn addr_at(fs: &Vec<Field>, i: usize) -> (r: IpAddr)
    requires
        i < fs@.len(),
        fits(FieldKind::Addr, fs@[i as int]@),
    ensures
        fs@[i as int]@ == FieldValue::Addr(r.v6@),
{
    match &fs[i] {
        Field::Addr(a) => IpAddr::from_v6(*a),
        _ => IpAddr::from_v6([0u8; 16]),
    }
}

fn text_at<const N: usize>(fs: &Vec<Field>, i: usize) -> (r: BoundedString<N>)
    requires
        i < fs@.len(),
        fits(FieldKind::Text(N), fs@[i as int]@),
    ensures
        r.wf(),
        fs@[i as int]@ == FieldValue::Text(r@),
{
    match &fs[i] {
        Field::Text(t) => BoundedString::from_bytes(t.as_slice()),
        _ => BoundedString::new(),
    }
}

fn payload_from_fields(k: EventType, fs: &Vec<Field>) -> (d: EventData)
    requires
        all_fit(payload_shape(k), views(fs@)),
    ensures
        d.wf(),
        kind_of(d) == k,
        payload_values(d) == views(fs@),
{
    let ghost ks = payload_shape(k);
    let ghost vs = views(fs@);
    match k {
        EventType::ProcessExec => {
            proof {
                assert(fits(ks[0], vs[0]));
                assert(fits(ks[1], vs[1]));
                assert(fits(ks[2], vs[2]));
            }
            let d = EventData::ProcessExec(ProcessExecEvent {
                filename: text_at::<MAX_STRING_LEN>(fs, 0),
                argv: text_at::<MAX_ARGV_LEN>(fs, 1),
                ppid: u32_at(fs, 2),
            });
            assert(payload_values(d) =~= vs);
            d
        },
        EventType::ProcessFork => {
            proof {
                assert(fits(ks[0], vs[0]));
                assert(fits(ks[1], vs[1]));
            }
            let d = EventData::ProcessFork(ProcessForkEvent {
                child_pid: u32_at(fs, 0),
                ppid: u32_at(fs, 1),
            });
            assert(payload_values(d) =~= vs);
            d
        },
        EventType::ProcessExit => {
            proof {
                assert(fits(ks[0], vs[0]));
            }
            let d = EventData::ProcessExit(ProcessExitEvent {
                exit_code: i32_at(fs, 0),
            });
            assert(payload_values(d) =~= vs);
            d
        },
        EventType::FileOpen => {
            proof {
                assert(fits(ks[0], vs[0]));
                assert(fits(ks[1], vs[1]));
                assert(fits(ks[2], vs[2]));
                assert(fits(ks[3], vs[3]));
            }
            let d = EventData::FileOpen(FileOpenEvent {
                path: text_at::<MAX_STRING_LEN>(fs, 0),
                flags: i32_at(fs, 1),
                mode: u32_at(fs, 2),
                fd: i32_at(fs, 3),
            });
            assert(payload_values(d) =~= vs);
            d
        },
        EventType::FileRead => {
            proof {
                assert(fits(ks[0], vs[0]));
                assert(fits(ks[1], vs[1]));
                assert(fits(ks[2], vs[2]));
            }
            let d = EventData::FileRead(FileReadEvent {
                fd: i32_at(fs, 0),
                count: u64_at(fs, 1),
                ret: i64_at(fs, 2),
            });
            assert(payload_values(d) =~= vs);
            d
        },
        EventType::FileWrite => {
            proof {
                assert(fits(ks[0], vs[0]));
                assert(fits(ks[1], vs[1]));
                assert(fits(ks[2], vs[2]));
            }
            let d = EventData::FileWrite(FileWriteEvent {
                fd: i32_at(fs, 0),
                count: u64_at(fs, 1),
                ret: i64_at(fs, 2),
            });
            assert(payload_values(d) =~= vs);
            d
        },
        EventType::FileClose => {
            proof {
                assert(fits(ks[0], vs[0]));
            }
            let d = EventData::FileClose(FileCloseEvent {
                fd: i32_at(fs, 0),
            });
            assert(payload_values(d) =~= vs);
            d
        },
        EventType::FileUnlink => {
            proof {
                assert(fits(ks[0], vs[0]));
            }
            let d = EventData::FileUnlink(FileUnlinkEvent {
                path: text_at::<MAX_STRING_LEN>(fs, 0),
            });
            assert(payload_values(d) =~= vs);
            d
        },
        EventType::FileRename => {
            proof {
                assert(fits(ks[0], vs[0]));
                assert(fits(ks[1], vs[1]));
            }
            let d = EventData::FileRename(FileRenameEvent {
                oldpath: text_at::<MAX_STRING_LEN>(fs, 0),
                newpath: text_at::<MAX_STRING_LEN>(fs, 1),
            });
            assert(payload_values(d) =~= vs);
            d
        },
        EventType::FileChmod => {
            proof {
                assert(fits(ks[0], vs[0]));
                assert(fits(ks[1], vs[1]));
            }
            let d = EventData::FileChmod(FileChmodEvent {
                path: text_at::<MAX_STRING_LEN>(fs, 0),
                mode: u32_at(fs, 1),
            });
            assert(payload_values(d) =~= vs);
            d
        },
        EventType::FileChown => {
            proof {
                assert(fits(ks[0], vs[0]));
                assert(fits(ks[1], vs[1]));
                assert(fits(ks[2], vs[2]));
            }
            let d = EventData::FileChown(FileChownEvent {
                path: text_at::<MAX_STRING_LEN>(fs, 0),
                owner: u32_at(fs, 1),
                group: u32_at(fs, 2),
            });
            assert(payload_values(d) =~= vs);
            d
        },
        EventType::NetConnect => {
            proof {
                assert(fits(ks[0], vs[0]));
                assert(fits(ks[1], vs[1]));
                assert(fits(ks[2], vs[2]));
                assert(fits(ks[3], vs[3]));
                assert(fits(ks[4], vs[4]));
                assert(fits(ks[5], vs[5]));
            }
            let d = EventData::NetConnect(NetConnectEvent {
                family: u16_at(fs, 0),
                protocol: u8_at(fs, 1),
                local_addr: addr_at(fs, 2),
                local_port: u16_at(fs, 3),
                remote_addr: addr_at(fs, 4),
                remote_port: u16_at(fs, 5),
            });
            assert(payload_values(d) =~= vs);
            d
        },
        EventType::NetAccept => {
            proof {
                assert(fits(ks[0], vs[0]));
                assert(fits(ks[1], vs[1]));
                assert(fits(ks[2], vs[2]));
                assert(fits(ks[3], vs[3]));
                assert(fits(ks[4], vs[4]));
            }
            let d = EventData::NetAccept(NetAcceptEvent {
                family: u16_at(fs, 0),
                local_addr: addr_at(fs, 1),
                local_port: u16_at(fs, 2),
                remote_addr: addr_at(fs, 3),
                remote_port: u16_at(fs, 4),
            });
            assert(payload_values(d) =~= vs);
            d
        },
        EventType::NetBind => {
            proof {
                assert(fits(ks[0], vs[0]));
                assert(fits(ks[1], vs[1]));
                assert(fits(ks[2], vs[2]));
            }
            let d = EventData::NetBind(NetBindEvent {
                family: u16_at(fs, 0),
                addr: addr_at(fs, 1),
                port: u16_at(fs, 2),
            });
            assert(payload_values(d) =~= vs);
            d
        },
        EventType::NetSend => {
            proof {
                assert(fits(ks[0], vs[0]));
                assert(fits(ks[1], vs[1]));
            }
            let d = EventData::NetSend(NetSendEvent {
                fd: i32_at(fs, 0),
                bytes: u64_at(fs, 1),
            });
            assert(payload_values(d) =~= vs);
            d
        },
        EventType::NetRecv => {
            proof {
                assert(fits(ks[0], vs[0]));
                assert(fits(ks[1], vs[1]));
            }
            let d = EventData::NetRecv(NetRecvEvent {
                fd: i32_at(fs, 0),
                bytes: u64_at(fs, 1),
            });
            assert(payload_values(d) =~= vs);
            d
        },
        EventType::NetSocket => {
            proof {
                assert(fits(ks[0], vs[0]));
                assert(fits(ks[1], vs[1]));
                assert(fits(ks[2], vs[2]));
            }
            let d = EventData::NetSocket(NetSocketEvent {
                family: u16_at(fs, 0),
                socket_type: u32_at(fs, 1),
                protocol: u32_at(fs, 2),
            });
            assert(payload_values(d) =~= vs);
            d
        },
        EventType::InputKey => {
            proof {
                assert(fits(ks[0], vs[0]));
                assert(fits(ks[1], vs[1]));
            }
            let d = EventData::InputKey(InputKeyEvent {
                key_code: u32_at(fs, 0),
                action: u8_at(fs, 1),
            });
            assert(payload_values(d) =~= vs);
            d
        },
        EventType::InputMouse => {
            proof {
                assert(fits(ks[0], vs[0]));
                assert(fits(ks[1], vs[1]));
                assert(fits(ks[2], vs[2]));
            }
            let d = EventData::InputMouse(InputMouseEvent {
                button: u8_at(fs, 0),
                x: i32_at(fs, 1),
                y: i32_at(fs, 2),
            });
            assert(payload_values(d) =~= vs);
            d
        },
        EventType::SecSetuid => {
            proof {
                assert(fits(ks[0], vs[0]));
                assert(fits(ks[1], vs[1]));
            }
            let d = EventData::SecSetuid(SecSetuidEvent {
                old_uid: u32_at(fs, 0),
                new_uid: u32_at(fs, 1),
            });
            assert(payload_values(d) =~= vs);
            d
        },
        EventType::SecSetgid => {
            proof {
                assert(fits(ks[0], vs[0]));
                assert(fits(ks[1], vs[1]));
            }
            let d = EventData::SecSetgid(SecSetgidEvent {
                old_gid: u32_at(fs, 0),
                new_gid: u32_at(fs, 1),
            });
            assert(payload_values(d) =~= vs);
            d
        },
        EventType::SecPtrace => {
            proof {
                assert(fits(ks[0], vs[0]));
                assert(fits(ks[1], vs[1]));
            }
            let d = EventData::SecPtrace(SecPtraceEvent {
                target_pid: u32_at(fs, 0),
                request: u32_at(fs, 1),
            });
            assert(payload_values(d) =~= vs);
            d
        },
        EventType::SecModuleLoad => {
            proof {
                assert(fits(ks[0], vs[0]));
            }
            let d = EventData::SecModuleLoad(SecModuleLoadEvent {
                name: text_at::<MAX_STRING_LEN>(fs, 0),
            });
            assert(payload_values(d) =~= vs);
            d
        },
        EventType::MemOomKill => {
            proof {
                assert(fits(ks[0], vs[0]));
                assert(fits(ks[1], vs[1]));
                assert(fits(ks[2], vs[2]));
            }
            let d = EventData::MemOomKill(MemOomKillEvent {
                victim_pid: u32_at(fs, 0),
                victim_comm: text_at::<MAX_STRING_LEN>(fs, 1),
                pages: u64_at(fs, 2),
            });
            assert(payload_values(d) =~= vs);
            d
        },
        EventType::MemOomVictim => {
            proof {
                assert(fits(ks[0], vs[0]));
                assert(fits(ks[1], vs[1]));
            }
            let d = EventData::MemOomVictim(MemOomVictimEvent {
                score: i64_at(fs, 0),
                total_vm: u64_at(fs, 1),
            });
            assert(payload_values(d) =~= vs);
            d
        },
        EventType::NsUnshare => {
            proof {
                assert(fits(ks[0], vs[0]));
            }
            let d = EventData::NsUnshare(NsUnshareEvent {
                flags: u64_at(fs, 0),
            });
            assert(payload_values(d) =~= vs);
            d
        },
        EventType::NsSetns => {
            proof {
                assert(fits(ks[0], vs[0]));
                assert(fits(ks[1], vs[1]));
            }
            let d = EventData::NsSetns(NsSetnsEvent {
                fd: i32_at(fs, 0),
                nstype: u32_at(fs, 1),
            });
            assert(payload_values(d) =~= vs);
            d
        },
        EventType::NsClone => {
            proof {
                assert(fits(ks[0], vs[0]));
                assert(fits(ks[1], vs[1]));
            }
            let d = EventData::NsClone(NsCloneEvent {
                flags: u64_at(fs, 0),
                child_pid: u32_at(fs, 1),
            });
            assert(payload_values(d) =~= vs);
            d
        },
        EventType::SignalSegfault => {
            proof {
                assert(fits(ks[0], vs[0]));
                assert(fits(ks[1], vs[1]));
            }
            let d = EventData::SignalSegfault(SignalSegfaultEvent {
                fault_addr: u64_at(fs, 0),
                ip: u64_at(fs, 1),
            });
            assert(payload_values(d) =~= vs);
            d
        },
        EventType::SignalIllegal => {
            proof {
                assert(fits(ks[0], vs[0]));
            }
            let d = EventData::SignalIllegal(SignalIllegalEvent {
                ip: u64_at(fs, 0),
            });
            assert(payload_values(d) =~= vs);
            d
        },
        EventType::SignalAbort => {
            proof {
                assert(fits(ks[0], vs[0]));
            }
            let d = EventData::SignalAbort(SignalAbortEvent {
                ip: u64_at(fs, 0),
            });
            assert(payload_values(d) =~= vs);
            d
        },
        EventType::SignalGeneric => {
            proof {
                assert(fits(ks[0], vs[0]));
                assert(fits(ks[1], vs[1]));
            }
            let d = EventData::SignalGeneric(SignalGenericEvent {
                signal: i32_at(fs, 0),
                target_pid: u32_at(fs, 1),
            });
            assert(payload_values(d) =~= vs);
            d
        },
        EventType::ProcessCoredump => {
            proof {
                assert(fits(ks[0], vs[0]));
                assert(fits(ks[1], vs[1]));
            }
            let d = EventData::ProcessCoredump(ProcessCoredumpEvent {
                signal: i32_at(fs, 0),
                comm: text_at::<MAX_STRING_LEN>(fs, 1),
            });
            assert(payload_values(d) =~= vs);
            d
        },
        EventType::NetConnectFail => {
            proof {
                assert(fits(ks[0], vs[0]));
                assert(fits(ks[1], vs[1]));
                assert(fits(ks[2], vs[2]));
                assert(fits(ks[3], vs[3]));
            }
            let d = EventData::NetConnectFail(NetConnectFailEvent {
                family: u16_at(fs, 0),
                remote_addr: addr_at(fs, 1),
                remote_port: u16_at(fs, 2),
                error: i32_at(fs, 3),
            });
            assert(payload_values(d) =~= vs);
            d
        },
        EventType::NetBindFail => {
            proof {
                assert(fits(ks[0], vs[0]));
                assert(fits(ks[1], vs[1]));
                assert(fits(ks[2], vs[2]));
                assert(fits(ks[3], vs[3]));
            }
            let d = EventData::NetBindFail(NetBindFailEvent {
                family: u16_at(fs, 0),
                addr: addr_at(fs, 1),
                port: u16_at(fs, 2),
                error: i32_at(fs, 3),
            });
            assert(payload_values(d) =~= vs);
            d
        },
        EventType::UsbAttach => {
            proof {
                assert(fits(ks[0], vs[0]));
                assert(fits(ks[1], vs[1]));
                assert(fits(ks[2], vs[2]));
                assert(fits(ks[3], vs[3]));
            }
            let d = EventData::UsbAttach(UsbAttachEvent {
                bus_num: u16_at(fs, 0),
                dev_num: u16_at(fs, 1),
                vendor_id: u16_at(fs, 2),
                product_id: u16_at(fs, 3),
            });
            assert(payload_values(d) =~= vs);
            d
        },
        EventType::UsbDetach => {
            proof {
                assert(fits(ks[0], vs[0]));
                assert(fits(ks[1], vs[1]));
                assert(fits(ks[2], vs[2]));
                assert(fits(ks[3], vs[3]));
            }
            let d = EventData::UsbDetach(UsbDetachEvent {
                bus_num: u16_at(fs, 0),
                dev_num: u16_at(fs, 1),
                vendor_id: u16_at(fs, 2),
                product_id: u16_at(fs, 3),
            });
            assert(payload_values(d) =~= vs);
            d
        },
        EventType::TtyAlloc => {
            proof {
                assert(fits(ks[0], vs[0]));
                assert(fits(ks[1], vs[1]));
                assert(fits(ks[2], vs[2]));
            }
            let d = EventData::TtyAlloc(TtyAllocEvent {
                name: text_at::<MAX_STRING_LEN>(fs, 0),
                major: u32_at(fs, 1),
                minor: u32_at(fs, 2),
            });
            assert(payload_values(d) =~= vs);
            d
        },
        EventType::PtyAlloc => {
            proof {
                assert(fits(ks[0], vs[0]));
                assert(fits(ks[1], vs[1]));
                assert(fits(ks[2], vs[2]));
            }
            let d = EventData::PtyAlloc(PtyAllocEvent {
                name: text_at::<MAX_STRING_LEN>(fs, 0),
                major: u32_at(fs, 1),
                minor: u32_at(fs, 2),
            });
            assert(payload_values(d) =~= vs);
            d
        },
        EventType::FsMount => {
            proof {
                assert(fits(ks[0], vs[0]));
                assert(fits(ks[1], vs[1]));
                assert(fits(ks[2], vs[2]));
                assert(fits(ks[3], vs[3]));
            }
            let d = EventData::FsMount(FsMountEvent {
                dev_name: text_at::<MAX_STRING_LEN>(fs, 0),
                path: text_at::<MAX_STRING_LEN>(fs, 1),
                fs_type: text_at::<MAX_NAME_LEN>(fs, 2),
                flags: u64_at(fs, 3),
            });
            assert(payload_values(d) =~= vs);
            d
        },
        EventType::FsUmount => {
            proof {
                assert(fits(ks[0], vs[0]));
                assert(fits(ks[1], vs[1]));
            }
            let d = EventData::FsUmount(FsUmountEvent {
                path: text_at::<MAX_STRING_LEN>(fs, 0),
                flags: i32_at(fs, 1),
            });
            assert(payload_values(d) =~= vs);
            d
        },
        EventType::SyscallFail => {
            proof {
                assert(fits(ks[0], vs[0]));
                assert(fits(ks[1], vs[1]));
            }
            let d = EventData::SyscallFail(SyscallFailEvent {
                syscall_nr: u64_at(fs, 0),
                error: i32_at(fs, 1),
            });
            assert(payload_values(d) =~= vs);
            d
        },
    }
}

/// Every payload fits the shape of its kind.
pub proof fn lemma_payload_fits(d: EventData)
    ensures
        all_fit(payload_shape(kind_of(d)), payload_values(d)),
{
    let ks = payload_shape(kind_of(d));
    let vs = payload_values(d);
    match d {
        EventData::ProcessExec(p) => {
            assert(p.filename@.len() <= p.filename.data@.len());
            assert(p.argv@.len() <= p.argv.data@.len());
            assert forall|i: int| 0 <= i < ks.len() implies fits(#[trigger] ks[i], vs[i]) by {
                assert(0 <= i < 3);
            }
        },
        EventData::ProcessFork(p) => {
            assert forall|i: int| 0 <= i < ks.len() implies fits(#[trigger] ks[i], vs[i]) by {
                assert(0 <= i < 2);
            }
        },
        EventData::ProcessExit(p) => {
            assert forall|i: int| 0 <= i < ks.len() implies fits(#[trigger] ks[i], vs[i]) by {
                assert(0 <= i < 1);
            }
        },
        EventData::FileOpen(p) => {
            assert(p.path@.len() <= p.path.data@.len());
            assert forall|i: int| 0 <= i < ks.len() implies fits(#[trigger] ks[i], vs[i]) by {
                assert(0 <= i < 4);
            }
        },
        EventData::FileRead(p) => {
            assert forall|i: int| 0 <= i < ks.len() implies fits(#[trigger] ks[i], vs[i]) by {
                assert(0 <= i < 3);
            }
        },
        EventData::FileWrite(p) => {
            assert forall|i: int| 0 <= i < ks.len() implies fits(#[trigger] ks[i], vs[i]) by {
                assert(0 <= i < 3);
            }
        },
        EventData::FileClose(p) => {
            assert forall|i: int| 0 <= i < ks.len() implies fits(#[trigger] ks[i], vs[i]) by {
                assert(0 <= i < 1);
            }
        },
        EventData::FileUnlink(p) => {
            assert(p.path@.len() <= p.path.data@.len());
            assert forall|i: int| 0 <= i < ks.len() implies fits(#[trigger] ks[i], vs[i]) by {
                assert(0 <= i < 1);
            }
        },
        EventData::FileRename(p) => {
            assert(p.oldpath@.len() <= p.oldpath.data@.len());
            assert(p.newpath@.len() <= p.newpath.data@.len());
            assert forall|i: int| 0 <= i < ks.len() implies fits(#[trigger] ks[i], vs[i]) by {
                assert(0 <= i < 2);
            }
        },
        EventData::FileChmod(p) => {
            assert(p.path@.len() <= p.path.data@.len());
            assert forall|i: int| 0 <= i < ks.len() implies fits(#[trigger] ks[i], vs[i]) by {
                assert(0 <= i < 2);
            }
        },
        EventData::FileChown(p) => {
            assert(p.path@.len() <= p.path.data@.len());
            assert forall|i: int| 0 <= i < ks.len() implies fits(#[trigger] ks[i], vs[i]) by {
                assert(0 <= i < 3);
            }
        },
        EventData::NetConnect(p) => {
            assert forall|i: int| 0 <= i < ks.len() implies fits(#[trigger] ks[i], vs[i]) by {
                assert(0 <= i < 6);
            }
        },
        EventData::NetAccept(p) => {
            assert forall|i: int| 0 <= i < ks.len() implies fits(#[trigger] ks[i], vs[i]) by {
                assert(0 <= i < 5);
            }
        },
        EventData::NetBind(p) => {
            assert forall|i: int| 0 <= i < ks.len() implies fits(#[trigger] ks[i], vs[i]) by {
                assert(0 <= i < 3);
            }
        },
        EventData::NetSend(p) => {
            assert forall|i: int| 0 <= i < ks.len() implies fits(#[trigger] ks[i], vs[i]) by {
                assert(0 <= i < 2);
            }
        },
        EventData::NetRecv(p) => {
            assert forall|i: int| 0 <= i < ks.len() implies fits(#[trigger] ks[i], vs[i]) by {
                assert(0 <= i < 2);
            }
        },
        EventData::NetSocket(p) => {
            assert forall|i: int| 0 <= i < ks.len() implies fits(#[trigger] ks[i], vs[i]) by {
                assert(0 <= i < 3);
            }
        },
        EventData::InputKey(p) => {
            assert forall|i: int| 0 <= i < ks.len() implies fits(#[trigger] ks[i], vs[i]) by {
                assert(0 <= i < 2);
            }
        },
        EventData::InputMouse(p) => {
            assert forall|i: int| 0 <= i < ks.len() implies fits(#[trigger] ks[i], vs[i]) by {
                assert(0 <= i < 3);
            }
        },
        EventData::SecSetuid(p) => {
            assert forall|i: int| 0 <= i < ks.len() implies fits(#[trigger] ks[i], vs[i]) by {
                assert(0 <= i < 2);
            }
        },
        EventData::SecSetgid(p) => {
            assert forall|i: int| 0 <= i < ks.len() implies fits(#[trigger] ks[i], vs[i]) by {
                assert(0 <= i < 2);
            }
        },
        EventData::SecPtrace(p) => {
            assert forall|i: int| 0 <= i < ks.len() implies fits(#[trigger] ks[i], vs[i]) by {
                assert(0 <= i < 2);
            }
        },
        EventData::SecModuleLoad(p) => {
            assert(p.name@.len() <= p.name.data@.len());
            assert forall|i: int| 0 <= i < ks.len() implies fits(#[trigger] ks[i], vs[i]) by {
                assert(0 <= i < 1);
            }
        },
        EventData::MemOomKill(p) => {
            assert(p.victim_comm@.len() <= p.victim_comm.data@.len());
            assert forall|i: int| 0 <= i < ks.len() implies fits(#[trigger] ks[i], vs[i]) by {
                assert(0 <= i < 3);
            }
        },
        EventData::MemOomVictim(p) => {
            assert forall|i: int| 0 <= i < ks.len() implies fits(#[trigger] ks[i], vs[i]) by {
                assert(0 <= i < 2);
            }
        },
        EventData::NsUnshare(p) => {
            assert forall|i: int| 0 <= i < ks.len() implies fits(#[trigger] ks[i], vs[i]) by {
                assert(0 <= i < 1);
            }
        },
        EventData::NsSetns(p) => {
            assert forall|i: int| 0 <= i < ks.len() implies fits(#[trigger] ks[i], vs[i]) by {
                assert(0 <= i < 2);
            }
        },
        EventData::NsClone(p) => {
            assert forall|i: int| 0 <= i < ks.len() implies fits(#[trigger] ks[i], vs[i]) by {
                assert(0 <= i < 2);
            }
        },
        EventData::SignalSegfault(p) => {
            assert forall|i: int| 0 <= i < ks.len() implies fits(#[trigger] ks[i], vs[i]) by {
                assert(0 <= i < 2);
            }
        },
        EventData::SignalIllegal(p) => {
            assert forall|i: int| 0 <= i < ks.len() implies fits(#[trigger] ks[i], vs[i]) by {
                assert(0 <= i < 1);
            }
        },
        EventData::SignalAbort(p) => {
            assert forall|i: int| 0 <= i < ks.len() implies fits(#[trigger] ks[i], vs[i]) by {
                assert(0 <= i < 1);
            }
        },
        EventData::SignalGeneric(p) => {
            assert forall|i: int| 0 <= i < ks.len() implies fits(#[trigger] ks[i], vs[i]) by {
                assert(0 <= i < 2);
            }
        },
        EventData::ProcessCoredump(p) => {
            assert(p.comm@.len() <= p.comm.data@.len());
            assert forall|i: int| 0 <= i < ks.len() implies fits(#[trigger] ks[i], vs[i]) by {
                assert(0 <= i < 2);
            }
        },
        EventData::NetConnectFail(p) => {
            assert forall|i: int| 0 <= i < ks.len() implies fits(#[trigger] ks[i], vs[i]) by {
                assert(0 <= i < 4);
            }
        },
        EventData::NetBindFail(p) => {
            assert forall|i: int| 0 <= i < ks.len() implies fits(#[trigger] ks[i], vs[i]) by {
                assert(0 <= i < 4);
            }
        },
        EventData::UsbAttach(p) => {
            assert forall|i: int| 0 <= i < ks.len() implies fits(#[trigger] ks[i], vs[i]) by {
                assert(0 <= i < 4);
            }
        },
        EventData::UsbDetach(p) => {
            assert forall|i: int| 0 <= i < ks.len() implies fits(#[trigger] ks[i], vs[i]) by {
                assert(0 <= i < 4);
            }
        },
        EventData::TtyAlloc(p) => {
            assert(p.name@.len() <= p.name.data@.len());
            assert forall|i: int| 0 <= i < ks.len() implies fits(#[trigger] ks[i], vs[i]) by {
                assert(0 <= i < 3);
            }
        },
        EventData::PtyAlloc(p) => {
            assert(p.name@.len() <= p.name.data@.len());
            assert forall|i: int| 0 <= i < ks.len() implies fits(#[trigger] ks[i], vs[i]) by {
                assert(0 <= i < 3);
            }
        },
        EventData::FsMount(p) => {
            assert(p.dev_name@.len() <= p.dev_name.data@.len());
            assert(p.path@.len() <= p.path.data@.len());
            assert(p.fs_type@.len() <= p.fs_type.data@.len());
            assert forall|i: int| 0 <= i < ks.len() implies fits(#[trigger] ks[i], vs[i]) by {
                assert(0 <= i < 4);
            }
        },
        EventData::FsUmount(p) => {
            assert(p.path@.len() <= p.path.data@.len());
            assert forall|i: int| 0 <= i < ks.len() implies fits(#[trigger] ks[i], vs[i]) by {
                assert(0 <= i < 2);
            }
        },
        EventData::SyscallFail(p) => {
            assert forall|i: int| 0 <= i < ks.len() implies fits(#[trigger] ks[i], vs[i]) by {
                assert(0 <= i < 2);
            }
        },
    }
}

/// The values of a well-formed payload determine it.
pub proof fn lemma_payload_injective(d1: EventData, d2: EventData)
    requires
        d1.wf(),
        d2.wf(),
        kind_of(d1) == kind_of(d2),
        payload_values(d1) == payload_values(d2),
    ensures
        d1 == d2,
{
    let v1 = payload_values(d1);
    let v2 = payload_values(d2);
    match (d1, d2) {
        (EventData::ProcessExec(a), EventData::ProcessExec(b)) => {
            assert(v1[0] == FieldValue::Text(a.filename@));
            assert(v2[0] == FieldValue::Text(b.filename@));
            lemma_bounded_injective(a.filename, b.filename);
            assert(v1[1] == FieldValue::Text(a.argv@));
            assert(v2[1] == FieldValue::Text(b.argv@));
            lemma_bounded_injective(a.argv, b.argv);
            assert(v1[2] == FieldValue::U32(a.ppid));
            assert(v2[2] == FieldValue::U32(b.ppid));
        },
        (EventData::ProcessFork(a), EventData::ProcessFork(b)) => {
            assert(v1[0] == FieldValue::U32(a.child_pid));
            assert(v2[0] == FieldValue::U32(b.child_pid));
            assert(v1[1] == FieldValue::U32(a.ppid));
            assert(v2[1] == FieldValue::U32(b.ppid));
        },
        (EventData::ProcessExit(a), EventData::ProcessExit(b)) => {
            assert(v1[0] == FieldValue::U32(a.exit_code as u32));
            assert(v2[0] == FieldValue::U32(b.exit_code as u32));
            assert((a.exit_code as u32) == (b.exit_code as u32));
            assert(((a.exit_code as u32) as i32) == ((b.exit_code as u32) as i32));
        },
        (EventData::FileOpen(a), EventData::FileOpen(b)) => {
            assert(v1[0] == FieldValue::Text(a.path@));
            assert(v2[0] == FieldValue::Text(b.path@));
            lemma_bounded_injective(a.path, b.path);
            assert(v1[1] == FieldValue::U32(a.flags as u32));
            assert(v2[1] == FieldValue::U32(b.flags as u32));
            assert((a.flags as u32) == (b.flags as u32));
            assert(((a.flags as u32) as i32) == ((b.flags as u32) as i32));
            assert(v1[2] == FieldValue::U32(a.mode));
            assert(v2[2] == FieldValue::U32(b.mode));
            assert(v1[3] == FieldValue::U32(a.fd as u32));
            assert(v2[3] == FieldValue::U32(b.fd as u32));
            assert((a.fd as u32) == (b.fd as u32));
            assert(((a.fd as u32) as i32) == ((b.fd as u32) as i32));
        },
        (EventData::FileRead(a), EventData::FileRead(b)) => {
            assert(v1[0] == FieldValue::U32(a.fd as u32));
            assert(v2[0] == FieldValue::U32(b.fd as u32));
            assert((a.fd as u32) == (b.fd as u32));
            assert(((a.fd as u32) as i32) == ((b.fd as u32) as i32));
            assert(v1[1] == FieldValue::U64(a.count));
            assert(v2[1] == FieldValue::U64(b.count));
            assert(v1[2] == FieldValue::U64(a.ret as u64));
            assert(v2[2] == FieldValue::U64(b.ret as u64));
            assert((a.ret as u64) == (b.ret as u64));
            assert(((a.ret as u64) as i64) == ((b.ret as u64) as i64));
        },
        (EventData::FileWrite(a), EventData::FileWrite(b)) => {
            assert(v1[0] == FieldValue::U32(a.fd as u32));
            assert(v2[0] == FieldValue::U32(b.fd as u32));
            assert((a.fd as u32) == (b.fd as u32));
            assert(((a.fd as u32) as i32) == ((b.fd as u32) as i32));
            assert(v1[1] == FieldValue::U64(a.count));
            assert(v2[1] == FieldValue::U64(b.count));
            assert(v1[2] == FieldValue::U64(a.ret as u64));
            assert(v2[2] == FieldValue::U64(b.ret as u64));
            assert((a.ret as u64) == (b.ret as u64));
            assert(((a.ret as u64) as i64) == ((b.ret as u64) as i64));
        },
        (EventData::FileClose(a), EventData::FileClose(b)) => {
            assert(v1[0] == FieldValue::U32(a.fd as u32));
            assert(v2[0] == FieldValue::U32(b.fd as u32));
            assert((a.fd as u32) == (b.fd as u32));
            assert(((a.fd as u32) as i32) == ((b.fd as u32) as i32));
        },
        (EventData::FileUnlink(a), EventData::FileUnlink(b)) => {
            assert(v1[0] == FieldValue::Text(a.path@));
            assert(v2[0] == FieldValue::Text(b.path@));
            lemma_bounded_injective(a.path, b.path);
        },
        (EventData::FileRename(a), EventData::FileRename(b)) => {
            assert(v1[0] == FieldValue::Text(a.oldpath@));
            assert(v2[0] == FieldValue::Text(b.oldpath@));
            lemma_bounded_injective(a.oldpath, b.oldpath);
            assert(v1[1] == FieldValue::Text(a.newpath@));
            assert(v2[1] == FieldValue::Text(b.newpath@));
            lemma_bounded_injective(a.newpath, b.newpath);
        },
        (EventData::FileChmod(a), EventData::FileChmod(b)) => {
            assert(v1[0] == FieldValue::Text(a.path@));
            assert(v2[0] == FieldValue::Text(b.path@));
            lemma_bounded_injective(a.path, b.path);
            assert(v1[1] == FieldValue::U32(a.mode));
            assert(v2[1] == FieldValue::U32(b.mode));
        },
        (EventData::FileChown(a), EventData::FileChown(b)) => {
            assert(v1[0] == FieldValue::Text(a.path@));
            assert(v2[0] == FieldValue::Text(b.path@));
            lemma_bounded_injective(a.path, b.path);
            assert(v1[1] == FieldValue::U32(a.owner));
            assert(v2[1] == FieldValue::U32(b.owner));
            assert(v1[2] == FieldValue::U32(a.group));
            assert(v2[2] == FieldValue::U32(b.group));
        },
        (EventData::NetConnect(a), EventData::NetConnect(b)) => {
            assert(v1[0] == FieldValue::U16(a.family));
            assert(v2[0] == FieldValue::U16(b.family));
            assert(v1[1] == FieldValue::U8(a.protocol));
            assert(v2[1] == FieldValue::U8(b.protocol));
            assert(v1[2] == FieldValue::Addr(a.local_addr.v6@));
            assert(v2[2] == FieldValue::Addr(b.local_addr.v6@));
            lemma_addr_injective(a.local_addr, b.local_addr);
            assert(v1[3] == FieldValue::U16(a.local_port));
            assert(v2[3] == FieldValue::U16(b.local_port));
            assert(v1[4] == FieldValue::Addr(a.remote_addr.v6@));
            assert(v2[4] == FieldValue::Addr(b.remote_addr.v6@));
            lemma_addr_injective(a.remote_addr, b.remote_addr);
            assert(v1[5] == FieldValue::U16(a.remote_port));
            assert(v2[5] == FieldValue::U16(b.remote_port));
        },
        (EventData::NetAccept(a), EventData::NetAccept(b)) => {
            assert(v1[0] == FieldValue::U16(a.family));
            assert(v2[0] == FieldValue::U16(b.family));
            assert(v1[1] == FieldValue::Addr(a.local_addr.v6@));
            assert(v2[1] == FieldValue::Addr(b.local_addr.v6@));
            lemma_addr_injective(a.local_addr, b.local_addr);
            assert(v1[2] == FieldValue::U16(a.local_port));
            assert(v2[2] == FieldValue::U16(b.local_port));
            assert(v1[3] == FieldValue::Addr(a.remote_addr.v6@));
            assert(v2[3] == FieldValue::Addr(b.remote_addr.v6@));
            lemma_addr_injective(a.remote_addr, b.remote_addr);
            assert(v1[4] == FieldValue::U16(a.remote_port));
            assert(v2[4] == FieldValue::U16(b.remote_port));
        },
        (EventData::NetBind(a), EventData::NetBind(b)) => {
            assert(v1[0] == FieldValue::U16(a.family));
            assert(v2[0] == FieldValue::U16(b.family));
            assert(v1[1] == FieldValue::Addr(a.addr.v6@));
            assert(v2[1] == FieldValue::Addr(b.addr.v6@));
            lemma_addr_injective(a.addr, b.addr);
            assert(v1[2] == FieldValue::U16(a.port));
            assert(v2[2] == FieldValue::U16(b.port));
        },
        (EventData::NetSend(a), EventData::NetSend(b)) => {
            assert(v1[0] == FieldValue::U32(a.fd as u32));
            assert(v2[0] == FieldValue::U32(b.fd as u32));
            assert((a.fd as u32) == (b.fd as u32));
            assert(((a.fd as u32) as i32) == ((b.fd as u32) as i32));
            assert(v1[1] == FieldValue::U64(a.bytes));
            assert(v2[1] == FieldValue::U64(b.bytes));
        },
        (EventData::NetRecv(a), EventData::NetRecv(b)) => {
            assert(v1[0] == FieldValue::U32(a.fd as u32));
            assert(v2[0] == FieldValue::U32(b.fd as u32));
            assert((a.fd as u32) == (b.fd as u32));
            assert(((a.fd as u32) as i32) == ((b.fd as u32) as i32));
            assert(v1[1] == FieldValue::U64(a.bytes));
            assert(v2[1] == FieldValue::U64(b.bytes));
        },
        (EventData::NetSocket(a), EventData::NetSocket(b)) => {
            assert(v1[0] == FieldValue::U16(a.family));
            assert(v2[0] == FieldValue::U16(b.family));
            assert(v1[1] == FieldValue::U32(a.socket_type));
            assert(v2[1] == FieldValue::U32(b.socket_type));
            assert(v1[2] == FieldValue::U32(a.protocol));
            assert(v2[2] == FieldValue::U32(b.protocol));
        },
        (EventData::InputKey(a), EventData::InputKey(b)) => {
            assert(v1[0] == FieldValue::U32(a.key_code));
            assert(v2[0] == FieldValue::U32(b.key_code));
            assert(v1[1] == FieldValue::U8(a.action));
            assert(v2[1] == FieldValue::U8(b.action));
        },
        (EventData::InputMouse(a), EventData::InputMouse(b)) => {
            assert(v1[0] == FieldValue::U8(a.button));
            assert(v2[0] == FieldValue::U8(b.button));
            assert(v1[1] == FieldValue::U32(a.x as u32));
            assert(v2[1] == FieldValue::U32(b.x as u32));
            assert((a.x as u32) == (b.x as u32));
            assert(((a.x as u32) as i32) == ((b.x as u32) as i32));
            assert(v1[2] == FieldValue::U32(a.y as u32));
            assert(v2[2] == FieldValue::U32(b.y as u32));
            assert((a.y as u32) == (b.y as u32));
            assert(((a.y as u32) as i32) == ((b.y as u32) as i32));
        },
        (EventData::SecSetuid(a), EventData::SecSetuid(b)) => {
            assert(v1[0] == FieldValue::U32(a.old_uid));
            assert(v2[0] == FieldValue::U32(b.old_uid));
            assert(v1[1] == FieldValue::U32(a.new_uid));
            assert(v2[1] == FieldValue::U32(b.new_uid));
        },
        (EventData::SecSetgid(a), EventData::SecSetgid(b)) => {
            assert(v1[0] == FieldValue::U32(a.old_gid));
            assert(v2[0] == FieldValue::U32(b.old_gid));
            assert(v1[1] == FieldValue::U32(a.new_gid));
            assert(v2[1] == FieldValue::U32(b.new_gid));
        },
        (EventData::SecPtrace(a), EventData::SecPtrace(b)) => {
            assert(v1[0] == FieldValue::U32(a.target_pid));
            assert(v2[0] == FieldValue::U32(b.target_pid));
            assert(v1[1] == FieldValue::U32(a.request));
            assert(v2[1] == FieldValue::U32(b.request));
        },
        (EventData::SecModuleLoad(a), EventData::SecModuleLoad(b)) => {
            assert(v1[0] == FieldValue::Text(a.name@));
            assert(v2[0] == FieldValue::Text(b.name@));
            lemma_bounded_injective(a.name, b.name);
        },
        (EventData::MemOomKill(a), EventData::MemOomKill(b)) => {
            assert(v1[0] == FieldValue::U32(a.victim_pid));
            assert(v2[0] == FieldValue::U32(b.victim_pid));
            assert(v1[1] == FieldValue::Text(a.victim_comm@));
            assert(v2[1] == FieldValue::Text(b.victim_comm@));
            lemma_bounded_injective(a.victim_comm, b.victim_comm);
            assert(v1[2] == FieldValue::U64(a.pages));
            assert(v2[2] == FieldValue::U64(b.pages));
        },
        (EventData::MemOomVictim(a), EventData::MemOomVictim(b)) => {
            assert(v1[0] == FieldValue::U64(a.score as u64));
            assert(v2[0] == FieldValue::U64(b.score as u64));
            assert((a.score as u64) == (b.score as u64));
            assert(((a.score as u64) as i64) == ((b.score as u64) as i64));
            assert(v1[1] == FieldValue::U64(a.total_vm));
            assert(v2[1] == FieldValue::U64(b.total_vm));
        },
        (EventData::NsUnshare(a), EventData::NsUnshare(b)) => {
            assert(v1[0] == FieldValue::U64(a.flags));
            assert(v2[0] == FieldValue::U64(b.flags));
        },
        (EventData::NsSetns(a), EventData::NsSetns(b)) => {
            assert(v1[0] == FieldValue::U32(a.fd as u32));
            assert(v2[0] == FieldValue::U32(b.fd as u32));
            assert((a.fd as u32) == (b.fd as u32));
            assert(((a.fd as u32) as i32) == ((b.fd as u32) as i32));
            assert(v1[1] == FieldValue::U32(a.nstype));
            assert(v2[1] == FieldValue::U32(b.nstype));
        },
        (EventData::NsClone(a), EventData::NsClone(b)) => {
            assert(v1[0] == FieldValue::U64(a.flags));
            assert(v2[0] == FieldValue::U64(b.flags));
            assert(v1[1] == FieldValue::U32(a.child_pid));
            assert(v2[1] == FieldValue::U32(b.child_pid));
        },
        (EventData::SignalSegfault(a), EventData::SignalSegfault(b)) => {
            assert(v1[0] == FieldValue::U64(a.fault_addr));
            assert(v2[0] == FieldValue::U64(b.fault_addr));
            assert(v1[1] == FieldValue::U64(a.ip));
            assert(v2[1] == FieldValue::U64(b.ip));
        },
        (EventData::SignalIllegal(a), EventData::SignalIllegal(b)) => {
            assert(v1[0] == FieldValue::U64(a.ip));
            assert(v2[0] == FieldValue::U64(b.ip));
        },
        (EventData::SignalAbort(a), EventData::SignalAbort(b)) => {
            assert(v1[0] == FieldValue::U64(a.ip));
            assert(v2[0] == FieldValue::U64(b.ip));
        },
        (EventData::SignalGeneric(a), EventData::SignalGeneric(b)) => {
            assert(v1[0] == FieldValue::U32(a.signal as u32));
            assert(v2[0] == FieldValue::U32(b.signal as u32));
            assert((a.signal as u32) == (b.signal as u32));
            assert(((a.signal as u32) as i32) == ((b.signal as u32) as i32));
            assert(v1[1] == FieldValue::U32(a.target_pid));
            assert(v2[1] == FieldValue::U32(b.target_pid));
        },
        (EventData::ProcessCoredump(a), EventData::ProcessCoredump(b)) => {
            assert(v1[0] == FieldValue::U32(a.signal as u32));
            assert(v2[0] == FieldValue::U32(b.signal as u32));
            assert((a.signal as u32) == (b.signal as u32));
            assert(((a.signal as u32) as i32) == ((b.signal as u32) as i32));
            assert(v1[1] == FieldValue::Text(a.comm@));
            assert(v2[1] == FieldValue::Text(b.comm@));
            lemma_bounded_injective(a.comm, b.comm);
        },
        (EventData::NetConnectFail(a), EventData::NetConnectFail(b)) => {
            assert(v1[0] == FieldValue::U16(a.family));
            assert(v2[0] == FieldValue::U16(b.family));
            assert(v1[1] == FieldValue::Addr(a.remote_addr.v6@));
            assert(v2[1] == FieldValue::Addr(b.remote_addr.v6@));
            lemma_addr_injective(a.remote_addr, b.remote_addr);
            assert(v1[2] == FieldValue::U16(a.remote_port));
            assert(v2[2] == FieldValue::U16(b.remote_port));
            assert(v1[3] == FieldValue::U32(a.error as u32));
            assert(v2[3] == FieldValue::U32(b.error as u32));
            assert((a.error as u32) == (b.error as u32));
            assert(((a.error as u32) as i32) == ((b.error as u32) as i32));
        },
        (EventData::NetBindFail(a), EventData::NetBindFail(b)) => {
            assert(v1[0] == FieldValue::U16(a.family));
            assert(v2[0] == FieldValue::U16(b.family));
            assert(v1[1] == FieldValue::Addr(a.addr.v6@));
            assert(v2[1] == FieldValue::Addr(b.addr.v6@));
            lemma_addr_injective(a.addr, b.addr);
            assert(v1[2] == FieldValue::U16(a.port));
            assert(v2[2] == FieldValue::U16(b.port));
            assert(v1[3] == FieldValue::U32(a.error as u32));
            assert(v2[3] == FieldValue::U32(b.error as u32));
            assert((a.error as u32) == (b.error as u32));
            assert(((a.error as u32) as i32) == ((b.error as u32) as i32));
        },
        (EventData::UsbAttach(a), EventData::UsbAttach(b)) => {
            assert(v1[0] == FieldValue::U16(a.bus_num));
            assert(v2[0] == FieldValue::U16(b.bus_num));
            assert(v1[1] == FieldValue::U16(a.dev_num));
            assert(v2[1] == FieldValue::U16(b.dev_num));
            assert(v1[2] == FieldValue::U16(a.vendor_id));
            assert(v2[2] == FieldValue::U16(b.vendor_id));
            assert(v1[3] == FieldValue::U16(a.product_id));
            assert(v2[3] == FieldValue::U16(b.product_id));
        },
        (EventData::UsbDetach(a), EventData::UsbDetach(b)) => {
            assert(v1[0] == FieldValue::U16(a.bus_num));
            assert(v2[0] == FieldValue::U16(b.bus_num));
            assert(v1[1] == FieldValue::U16(a.dev_num));
            assert(v2[1] == FieldValue::U16(b.dev_num));
            assert(v1[2] == FieldValue::U16(a.vendor_id));
            assert(v2[2] == FieldValue::U16(b.vendor_id));
            assert(v1[3] == FieldValue::U16(a.product_id));
            assert(v2[3] == FieldValue::U16(b.product_id));
        },
        (EventData::TtyAlloc(a), EventData::TtyAlloc(b)) => {
            assert(v1[0] == FieldValue::Text(a.name@));
            assert(v2[0] == FieldValue::Text(b.name@));
            lemma_bounded_injective(a.name, b.name);
            assert(v1[1] == FieldValue::U32(a.major));
            assert(v2[1] == FieldValue::U32(b.major));
            assert(v1[2] == FieldValue::U32(a.minor));
            assert(v2[2] == FieldValue::U32(b.minor));
        },
        (EventData::PtyAlloc(a), EventData::PtyAlloc(b)) => {
            assert(v1[0] == FieldValue::Text(a.name@));
            assert(v2[0] == FieldValue::Text(b.name@));
            lemma_bounded_injective(a.name, b.name);
            assert(v1[1] == FieldValue::U32(a.major));
            assert(v2[1] == FieldValue::U32(b.major));
            assert(v1[2] == FieldValue::U32(a.minor));
            assert(v2[2] == FieldValue::U32(b.minor));
        },
        (EventData::FsMount(a), EventData::FsMount(b)) => {
            assert(v1[0] == FieldValue::Text(a.dev_name@));
            assert(v2[0] == FieldValue::Text(b.dev_name@));
            lemma_bounded_injective(a.dev_name, b.dev_name);
            assert(v1[1] == FieldValue::Text(a.path@));
            assert(v2[1] == FieldValue::Text(b.path@));
            lemma_bounded_injective(a.path, b.path);
            assert(v1[2] == FieldValue::Text(a.fs_type@));
            assert(v2[2] == FieldValue::Text(b.fs_type@));
            lemma_bounded_injective(a.fs_type, b.fs_type);
            assert(v1[3] == FieldValue::U64(a.flags));
            assert(v2[3] == FieldValue::U64(b.flags));
        },
        (EventData::FsUmount(a), EventData::FsUmount(b)) => {
            assert(v1[0] == FieldValue::Text(a.path@));
            assert(v2[0] == FieldValue::Text(b.path@));
            lemma_bounded_injective(a.path, b.path);
            assert(v1[1] == FieldValue::U32(a.flags as u32));
            assert(v2[1] == FieldValue::U32(b.flags as u32));
            assert((a.flags as u32) == (b.flags as u32));
            assert(((a.flags as u32) as i32) == ((b.flags as u32) as i32));
        },
        (EventData::SyscallFail(a), EventData::SyscallFail(b)) => {
            assert(v1[0] == FieldValue::U64(a.syscall_nr));
            assert(v2[0] == FieldValue::U64(b.syscall_nr));
            assert(v1[1] == FieldValue::U32(a.error as u32));
            assert(v2[1] == FieldValue::U32(b.error as u32));
            assert((a.error as u32) == (b.error as u32));
            assert(((a.error as u32) as i32) == ((b.error as u32) as i32));
        },
        _ => {},
    }
}

/// No payload's fields take more bytes than a process-exec payload at full length.
pub proof fn lemma_payload_len(d: EventData)
    ensures
        fields_bytes(payload_values(d)).len() <= 12300,
{
    lemma_payload_fits(d);
    lemma_fields_len_bound(payload_shape(kind_of(d)), payload_values(d));
    reveal_with_fuel(max_fields_len, 7);
}



/// How bytes divide into a kind, a header and a payload, when they do so exactly.
pub open spec fn event_layout(b: Seq<u8>) -> Option<
    (EventType, Seq<FieldValue>, Seq<FieldValue>),
> {
    if b.len() == 0 {
        None
    } else {
        match kind_from_code(b[0]) {
            None => None,
            Some(k) => match parse_fields(header_shape(), b.skip(1)) {
                None => None,
                Some((h, hl)) => match parse_fields(payload_shape(k), b.skip(1 + hl as int)) {
                    None => None,
                    Some((p, pl)) => if 1 + hl + pl == b.len() {
                        Some((k, h, p))
                    } else {
                        None
                    },
                },
            },
        }
    }
}

proof fn lemma_header_fits(e: Event)
    ensures
        all_fit(header_shape(), header_values(e)),
{
    assert forall|i: int| 0 <= i < 5 implies fits(
        #[trigger] header_shape()[i],
        header_values(e)[i],
    ) by {}
}

/// The encoding of an event divides into its kind, its header and its payload.
pub proof fn lemma_encoding_layout(e: Event)
    ensures
        event_layout(encode_event(e)) == Some(
            (kind_of(e.data), header_values(e), payload_values(e.data)),
        ),
{
    let b = encode_event(e);
    let k = kind_of(e.data);
    let hb = fields_bytes(header_values(e));
    let pb = fields_bytes(payload_values(e.data));
    lemma_code_round_trip(k);
    assert(b.skip(1) =~= hb + pb);
    lemma_header_fits(e);
    lemma_parse_fields_complete(header_shape(), header_values(e), pb);
    assert(b.skip(1 + hb.len() as int) =~= pb + Seq::<u8>::empty());
    lemma_payload_fits(e.data);
    lemma_parse_fields_complete(payload_shape(k), payload_values(e.data), Seq::<u8>::empty());
}

/// Two well-formed events with the same encoding are the same event.
pub proof fn lemma_encode_injective(e1: Event, e2: Event)
    requires
        e1.wf(),
        e2.wf(),
        encode_event(e1) == encode_event(e2),
    ensures
        e1 == e2,
{
    lemma_encoding_layout(e1);
    lemma_encoding_layout(e2);
    let h1 = header_values(e1);
    let h2 = header_values(e2);
    assert(h1 == h2);
    assert(h1[0] == h2[0] && h1[1] == h2[1] && h1[2] == h2[2] && h1[3] == h2[3] && h1[4] == h2[4]);
    lemma_payload_injective(e1.data, e2.data);
}

proof fn lemma_decode_unique(b: Seq<u8>, e: Event)
    requires
        is_encoding_of(b, e),
    ensures
        decode_event(b) == Some(e),
{
    let c = choose|x: Event| is_encoding_of(b, x);
    lemma_encode_injective(c, e);
}

proof fn lemma_no_decode(b: Seq<u8>)
    requires
        event_layout(b) is None,
    ensures
        decode_event(b) is None,
{
    assert forall|e: Event| !is_encoding_of(b, e) by {
        if is_encoding_of(b, e) {
            lemma_encoding_layout(e);
        }
    }
}

/// Decoding the encoding of a well-formed event gives the event back.
pub proof fn lemma_decode_encode(e: Event)
    requires
        e.wf(),
    ensures
        decode_event(encode_event(e)) == Some(e),
{
    lemma_decode_unique(encode_event(e), e);
}

/// Whatever decodes, encodes back to the very same bytes.
pub proof fn lemma_encode_decode(b: Seq<u8>)
    requires
        decode_event(b) is Some,
    ensures
        encode_event(decode_event(b)->0) == b,
        decode_event(b)->0.wf(),
{
}

/// No encoding is longer than `MAX_ENCODED_LEN`.
pub proof fn lemma_encoded_len(e: Event)
    ensures
        encode_event(e).len() <= MAX_ENCODED_LEN,
{
    lemma_header_fits(e);
    lemma_fields_len_bound(header_shape(), header_values(e));
    reveal_with_fuel(max_fields_len, 6);
    lemma_payload_len(e.data);
}

/// Encodes an event: the code of its payload's kind, the header, then the payload.
pub fn encode(e: &Event) -> (r: Vec<u8>)
    ensures
        r@ == encode_event(*e),
        r@.len() <= MAX_ENCODED_LEN,
{
    let mut out: Vec<u8> = Vec::new();
    out.push(e.data.kind().code());
    let h = header_fields(e);
    put_fields(&mut out, &h);
    let p = payload_fields(&e.data);
    put_fields(&mut out, &p);
    proof {
        lemma_encoded_len(*e);
        assert(out@ =~= encode_event(*e));
    }
    out
}

/// Decodes one event; `None` unless the bytes are exactly the encoding of an event.
pub fn decode(b: &[u8]) -> (r: Option<Event>)
    ensures
        r == decode_event(b@),
{
    if b.len() == 0 {
        proof {
            lemma_no_decode(b@);
        }
        return None;
    }
    let k = match EventType::from_code(b[0]) {
        Some(k) => k,
        None => {
            proof {
                lemma_no_decode(b@);
            }
            return None;
        },
    };
    let hs = header_shape_of();
    let (h, p1) = match take_fields(b, 1, &hs) {
        Some(x) => x,
        None => {
            proof {
                lemma_no_decode(b@);
            }
            return None;
        },
    };
    let ps = payload_shape_of(k);
    let (fs, p2) = match take_fields(b, p1, &ps) {
        Some(x) => x,
        None => {
            proof {
                lemma_no_decode(b@);
            }
            return None;
        },
    };
    if p2 != b.len() {
        proof {
            lemma_no_decode(b@);
        }
        return None;
    }
    proof {
        lemma_parse_fields_sound(header_shape(), b@.skip(1));
        lemma_parse_fields_sound(payload_shape(k), b@.skip(p1 as int));
        let hv = views(h@);
        assert(fits(header_shape()[0], hv[0]));
        assert(fits(header_shape()[1], hv[1]));
        assert(fits(header_shape()[2], hv[2]));
        assert(fits(header_shape()[3], hv[3]));
        assert(fits(header_shape()[4], hv[4]));
    }
    let data = payload_from_fields(k, &fs);
    let e = Event {
        event_type: k,
        timestamp_ns: u64_at(&h, 0),
        pid: u32_at(&h, 1),
        tid: u32_at(&h, 2),
        uid: u32_at(&h, 3),
        gid: u32_at(&h, 4),
        data,
    };
    proof {
        assert(header_values(e) =~= views(h@));
        lemma_code_from(b@[0]);
        assert(b@ =~= seq![b@[0]] + b@.skip(1).take(p1 - 1) + b@.skip(p1 as int).take(p2 - p1));
        lemma_decode_unique(b@, e);
    }
    Some(e)
}

} // verus!
