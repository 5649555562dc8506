//! Consumption: each CPU's raw records are decoded in the order they arrived, a record that
//! does not decode is skipped, and every event is logged at the severity of its kind.
use crate::codec::decode;
use crate::event::{kind_of, Event, EventType};
use crate::framing::{decoded_events, lemma_decoded_push, malformed_count};
use vstd::prelude::*;
use vstd::string::StringExecFns;

verus! {

/// How loudly an event is logged.
#[derive(Clone, Copy, Debug, PartialEq, Eq, Structural)]
pub enum Severity {
    /// Only in verbose mode: high-frequency I/O and input.
    Debug,
    /// Process lifecycle, network, namespace, device, terminal and mount activity.
    Info,
    /// Security-sensitive, failure, memory-pressure and crash events.
    Warn,
}

pub open spec fn severity_of(k: EventType) -> Severity {
    match k {
        EventType::ProcessExec => Severity::Info,
        EventType::ProcessFork => Severity::Info,
        EventType::ProcessExit => Severity::Info,
        EventType::FileOpen => Severity::Debug,
        EventType::FileRead => Severity::Debug,
        EventType::FileWrite => Severity::Debug,
        EventType::FileClose => Severity::Debug,
        EventType::FileUnlink => Severity::Debug,
        EventType::FileRename => Severity::Debug,
        EventType::FileChmod => Severity::Debug,
        EventType::FileChown => Severity::Debug,
        EventType::NetConnect => Severity::Info,
        EventType::NetAccept => Severity::Info,
        EventType::NetBind => Severity::Info,
        EventType::NetSend => Severity::Debug,
        EventType::NetRecv => Severity::Debug,
        EventType::NetSocket => Severity::Info,
        EventType::InputKey => Severity::Debug,
        EventType::InputMouse => Severity::Debug,
        EventType::SecSetuid => Severity::Warn,
        EventType::SecSetgid => Severity::Warn,
        EventType::SecPtrace => Severity::Warn,
        EventType::SecModuleLoad => Severity::Warn,
        EventType::MemOomKill => Severity::Warn,
        EventType::MemOomVictim => Severity::Warn,
        EventType::NsUnshare => Severity::Info,
        EventType::NsSetns => Severity::Info,
        EventType::NsClone => Severity::Info,
        EventType::SignalSegfault => Severity::Warn,
        EventType::SignalIllegal => Severity::Warn,
        EventType::SignalAbort => Severity::Warn,
        EventType::SignalGeneric => Severity::Info,
        EventType::ProcessCoredump => Severity::Warn,
        EventType::NetConnectFail => Severity::Warn,
        EventType::NetBindFail => Severity::Warn,
        EventType::UsbAttach => Severity::Info,
        EventType::UsbDetach => Severity::Info,
        EventType::TtyAlloc => Severity::Info,
        EventType::PtyAlloc => Severity::Info,
        EventType::FsMount => Severity::Info,
        EventType::FsUmount => Severity::Info,
        EventType::SyscallFail => Severity::Warn,
    }
}

/// The short tag of each kind in log lines.
pub open spec fn label_of(k: EventType) -> Seq<char> {
    match k {
        EventType::ProcessExec => "EXEC"@,
        EventType::ProcessFork => "FORK"@,
        EventType::ProcessExit => "EXIT"@,
        EventType::FileOpen => "OPEN"@,
        EventType::FileRead => "READ"@,
        EventType::FileWrite => "WRITE"@,
        EventType::FileClose => "CLOSE"@,
        EventType::FileUnlink => "UNLINK"@,
        EventType::FileRename => "RENAME"@,
        EventType::FileChmod => "CHMOD"@,
        EventType::FileChown => "CHOWN"@,
        EventType::NetConnect => "CONNECT"@,
        EventType::NetAccept => "ACCEPT"@,
        EventType::NetBind => "BIND"@,
        EventType::NetSend => "SEND"@,
        EventType::NetRecv => "RECV"@,
        EventType::NetSocket => "SOCKET"@,
        EventType::InputKey => "KEY"@,
        EventType::InputMouse => "MOUSE"@,
        EventType::SecSetuid => "SETUID"@,
        EventType::SecSetgid => "SETGID"@,
        EventType::SecPtrace => "PTRACE"@,
        EventType::SecModuleLoad => "MODULE_LOAD"@,
        EventType::MemOomKill => "OOM_KILL"@,
        EventType::MemOomVictim => "OOM_VICTIM"@,
        EventType::NsUnshare => "UNSHARE"@,
        EventType::NsSetns => "SETNS"@,
        EventType::NsClone => "NS_CLONE"@,
        EventType::SignalSegfault => "SIGSEGV"@,
        EventType::SignalIllegal => "SIGILL"@,
        EventType::SignalAbort => "SIGABRT"@,
        EventType::SignalGeneric => "SIGNAL"@,
        EventType::ProcessCoredump => "COREDUMP"@,
        EventType::NetConnectFail => "CONNECT_FAIL"@,
        EventType::NetBindFail => "BIND_FAIL"@,
        EventType::UsbAttach => "USB_ATTACH"@,
        EventType::UsbDetach => "USB_DETACH"@,
        EventType::TtyAlloc => "TTY_ALLOC"@,
        EventType::PtyAlloc => "PTY_ALLOC"@,
        EventType::FsMount => "MOUNT"@,
        EventType::FsUmount => "UMOUNT"@,
        EventType::SyscallFail => "SYSCALL_FAIL"@,
    }
}

pub fn severity(k: EventType) -> (r: Severity)
    ensures
        r == severity_of(k),
{
    match k {
        EventType::ProcessExec => Severity::Info,
        EventType::ProcessFork => Severity::Info,
        EventType::ProcessExit => Severity::Info,
        EventType::FileOpen => Severity::Debug,
        EventType::FileRead => Severity::Debug,
        EventType::FileWrite => Severity::Debug,
        EventType::FileClose => Severity::Debug,
        EventType::FileUnlink => Severity::Debug,
        EventType::FileRename => Severity::Debug,
        EventType::FileChmod => Severity::Debug,
        EventType::FileChown => Severity::Debug,
        EventType::NetConnect => Severity::Info,
        EventType::NetAccept => Severity::Info,
        EventType::NetBind => Severity::Info,
        EventType::NetSend => Severity::Debug,
        EventType::NetRecv => Severity::Debug,
        EventType::NetSocket => Severity::Info,
        EventType::InputKey => Severity::Debug,
        EventType::InputMouse => Severity::Debug,
        EventType::SecSetuid => Severity::Warn,
        EventType::SecSetgid => Severity::Warn,
        EventType::SecPtrace => Severity::Warn,
        EventType::SecModuleLoad => Severity::Warn,
        EventType::MemOomKill => Severity::Warn,
        EventType::MemOomVictim => Severity::Warn,
        EventType::NsUnshare => Severity::Info,
        EventType::NsSetns => Severity::Info,
        EventType::NsClone => Severity::Info,
        EventType::SignalSegfault => Severity::Warn,
        EventType::SignalIllegal => Severity::Warn,
        EventType::SignalAbort => Severity::Warn,
        EventType::SignalGeneric => Severity::Info,
        EventType::ProcessCoredump => Severity::Warn,
        EventType::NetConnectFail => Severity::Warn,
        EventType::NetBindFail => Severity::Warn,
        EventType::UsbAttach => Severity::Info,
        EventType::UsbDetach => Severity::Info,
        EventType::TtyAlloc => Severity::Info,
        EventType::PtyAlloc => Severity::Info,
        EventType::FsMount => Severity::Info,
        EventType::FsUmount => Severity::Info,
        EventType::SyscallFail => Severity::Warn,
    }
}

pub fn label(k: EventType) -> (r: &'static str)
    ensures
        r@ == label_of(k),
{
    match k {
        EventType::ProcessExec => "EXEC",
        EventType::ProcessFork => "FORK",
        EventType::ProcessExit => "EXIT",
        EventType::FileOpen => "OPEN",
        EventType::FileRead => "READ",
        EventType::FileWrite => "WRITE",
        EventType::FileClose => "CLOSE",
        EventType::FileUnlink => "UNLINK",
        EventType::FileRename => "RENAME",
        EventType::FileChmod => "CHMOD",
        EventType::FileChown => "CHOWN",
        EventType::NetConnect => "CONNECT",
        EventType::NetAccept => "ACCEPT",
        EventType::NetBind => "BIND",
        EventType::NetSend => "SEND",
        EventType::NetRecv => "RECV",
        EventType::NetSocket => "SOCKET",
        EventType::InputKey => "KEY",
        EventType::InputMouse => "MOUSE",
        EventType::SecSetuid => "SETUID",
        EventType::SecSetgid => "SETGID",
        EventType::SecPtrace => "PTRACE",
        EventType::SecModuleLoad => "MODULE_LOAD",
        EventType::MemOomKill => "OOM_KILL",
        EventType::MemOomVictim => "OOM_VICTIM",
        EventType::NsUnshare => "UNSHARE",
        EventType::NsSetns => "SETNS",
        EventType::NsClone => "NS_CLONE",
        EventType::SignalSegfault => "SIGSEGV",
        EventType::SignalIllegal => "SIGILL",
        EventType::SignalAbort => "SIGABRT",
        EventType::SignalGeneric => "SIGNAL",
        EventType::ProcessCoredump => "COREDUMP",
        EventType::NetConnectFail => "CONNECT_FAIL",
        EventType::NetBindFail => "BIND_FAIL",
        EventType::UsbAttach => "USB_ATTACH",
        EventType::UsbDetach => "USB_DETACH",
        EventType::TtyAlloc => "TTY_ALLOC",
        EventType::PtyAlloc => "PTY_ALLOC",
        EventType::FsMount => "MOUNT",
        EventType::FsUmount => "UMOUNT",
        EventType::SyscallFail => "SYSCALL_FAIL",
    }
}

/// The channel on which publish mode sends events of kind `k`: the configured prefix, a dot,
/// then the kind's tag.
pub fn channel_name(prefix: &str, k: EventType) -> (r: String)
    ensures
        r@ == prefix@ + "."@ + label_of(k),
{
    let mut name = String::from_str(prefix);
    name.append(".");
    name.append(label(k));
    name
}

/// One line of the local log.
pub struct LogEntry {
    pub level: Severity,
    pub timestamp_ms: u64,
    pub label: &'static str,
}

/// How an event is logged: at the severity of its kind, stamped in milliseconds.
pub fn log_event(event: &Event) -> (r: LogEntry)
    ensures
        r.level == severity_of(kind_of(event.data)),
        r.timestamp_ms == event.timestamp_ns / 1_000_000,
        r.label@ == label_of(kind_of(event.data)),
{
    let k = event.data.kind();
    LogEntry { level: severity(k), timestamp_ms: event.timestamp_ns / 1_000_000, label: label(k) }
}

/// An event as delivered, with the CPU whose channel carried it.
#[derive(Clone, Copy, Debug, PartialEq, Eq)]
pub struct Delivered {
    pub cpu: u32,
    pub event: Event,
}

pub open spec fn tagged(cpu: u32, es: Seq<Event>) -> Seq<Delivered> {
    es.map_values(|e: Event| Delivered { cpu, event: e })
}

pub open spec fn buffers(raw: Seq<Vec<u8>>) -> Seq<Seq<u8>> {
    raw.map_values(|b: Vec<u8>| b@)
}

/// Decodes one batch of records read from `cpu`'s channel, in order, appending the events to
/// `out`; returns how many records did not decode.
pub fn consume_batch(cpu: u32, raw: &Vec<Vec<u8>>, out: &mut Vec<Delivered>) -> (malformed: usize)
    ensures
        final(out)@ == old(out)@ + tagged(cpu, decoded_events(buffers(raw@))),
        malformed == malformed_count(buffers(raw@)),
{
    let mut malformed: usize = 0;
    let mut i: usize = 0;
    assert(buffers(raw@).take(0) =~= Seq::<Seq<u8>>::empty());
    assert(old(out)@ + tagged(cpu, Seq::<Event>::empty()) =~= old(out)@);
    while i < raw.len()
        invariant
            i <= raw@.len(),
            out@ == old(out)@ + tagged(cpu, decoded_events(buffers(raw@).take(i as int))),
            malformed == malformed_count(buffers(raw@).take(i as int)),
            malformed <= i,
        decreases raw@.len() - i,
    {
        let ghost done = buffers(raw@).take(i as int);
        proof {
            assert(buffers(raw@).take(i + 1) =~= done.push(raw@[i as int]@));
            lemma_decoded_push(done, raw@[i as int]@);
        }
        match decode(raw[i].as_slice()) {
            Some(e) => {
                let ghost before = out@;
                out.push(Delivered { cpu, event: e });
                assert(tagged(cpu, decoded_events(done).push(e)) =~= tagged(
                    cpu,
                    decoded_events(done),
                ).push(Delivered { cpu, event: e }));
                assert(out@ =~= old(out)@ + tagged(cpu, decoded_events(done).push(e)));
            },
            None => {
                malformed = malformed + 1;
            },
        }
        i = i + 1;
    }
    assert(buffers(raw@).take(raw@.len() as int) =~= buffers(raw@));
    malformed
}

/// The delivered stream after the batches `arrivals` were consumed, in the order they arrived;
/// each arrival is a CPU and the records of its batch.
pub open spec fn stream(arrivals: Seq<(u32, Seq<Seq<u8>>)>) -> Seq<Delivered>
    decreases arrivals.len(),
{
    if arrivals.len() == 0 {
        Seq::empty()
    } else {
        let (cpu, batch) = arrivals.last();
        stream(arrivals.drop_last()) + tagged(cpu, decoded_events(batch))
    }
}

/// The events of `s` that `cpu` delivered, in the order of `s`.
pub open spec fn on_cpu(s: Seq<Delivered>, cpu: u32) -> Seq<Event>
    decreases s.len(),
{
    if s.len() == 0 {
        Seq::empty()
    } else {
        let init = on_cpu(s.drop_last(), cpu);
        if s.last().cpu == cpu {
            init.push(s.last().event)
        } else {
            init
        }
    }
}

/// The events that `cpu`'s own batches decode to, batch after batch.
pub open spec fn cpu_events(arrivals: Seq<(u32, Seq<Seq<u8>>)>, cpu: u32) -> Seq<Event>
    decreases arrivals.len(),
{
    if arrivals.len() == 0 {
        Seq::empty()
    } else {
        let (c, batch) = arrivals.last();
        cpu_events(arrivals.drop_last(), cpu) + if c == cpu {
            decoded_events(batch)
        } else {
            Seq::empty()
        }
    }
}

proof fn lemma_on_cpu_append(a: Seq<Delivered>, b: Seq<Delivered>, cpu: u32)
    ensures
        on_cpu(a + b, cpu) == on_cpu(a, cpu) + on_cpu(b, cpu),
    decreases b.len(),
{
    if b.len() == 0 {
        assert(a + b =~= a);
        assert(on_cpu(a, cpu) + Seq::<Event>::empty() =~= on_cpu(a, cpu));
    } else {
        assert((a + b).drop_last() =~= a + b.drop_last());
        assert((a + b).last() == b.last());
        lemma_on_cpu_append(a, b.drop_last(), cpu);
        if b.last().cpu == cpu {
            assert(on_cpu(a, cpu) + on_cpu(b.drop_last(), cpu).push(b.last().event) =~= (on_cpu(
                a,
                cpu,
            ) + on_cpu(b.drop_last(), cpu)).push(b.last().event));
        }
    }
}

proof fn lemma_on_cpu_tagged(c: u32, es: Seq<Event>, cpu: u32)
    ensures
        on_cpu(tagged(c, es), cpu) == if c == cpu {
            es
        } else {
            Seq::empty()
        },
    decreases es.len(),
{
    if es.len() > 0 {
        assert(tagged(c, es).drop_last() =~= tagged(c, es.drop_last()));
        lemma_on_cpu_tagged(c, es.drop_last(), cpu);
        assert(es.drop_last().push(es.last()) =~= es);
    } else {
        assert(tagged(c, es) =~= Seq::<Delivered>::empty());
    }
}

/// However the batches of different CPUs interleave, the events that one CPU delivered appear
/// in the stream in the order its own channel carried them.
pub proof fn lemma_per_cpu_order(arrivals: Seq<(u32, Seq<Seq<u8>>)>, cpu: u32)
    ensures
        on_cpu(stream(arrivals), cpu) == cpu_events(arrivals, cpu),
    decreases arrivals.len(),
{
    if arrivals.len() > 0 {
        let (c, batch) = arrivals.last();
        lemma_per_cpu_order(arrivals.drop_last(), cpu);
        lemma_on_cpu_append(stream(arrivals.drop_last()), tagged(c, decoded_events(batch)), cpu);
        lemma_on_cpu_tagged(c, decoded_events(batch), cpu);
        if c != cpu {
            assert(cpu_events(arrivals.drop_last(), cpu) + Seq::<Event>::empty() =~= cpu_events(
                arrivals.drop_last(),
                cpu,
            ));
        }
    }
}


} // verus!
