//! Finding the kernel symbol that a probe attaches to: the names under which one system call's
//! entry point appears differ between kernel versions and architectures.
use vstd::prelude::*;
use vstd::string::{StrSliceExecFns, StringExecFns};

verus! {

pub open spec fn has_prefix(s: Seq<char>, p: Seq<char>) -> bool {
    p.len() <= s.len() && s.take(p.len() as int) == p
}

/// The names to try for the kernel function `name`, in order: the name itself, then the same
/// call under each other naming convention.
pub open spec fn candidates(name: Seq<char>) -> Seq<Seq<char>> {
    let sys = "sys_"@;
    let x64 = "__x64_sys_"@;
    let arm = "__arm64_sys_"@;
    let inner = "__sys_"@;
    let dosys = "do_sys_"@;
    if has_prefix(name, inner) {
        let r = name.skip(inner.len() as int);
        seq![name, sys + r, x64 + r, arm + r]
    } else if has_prefix(name, sys) {
        let r = name.skip(sys.len() as int);
        seq![name, x64 + r, arm + r, inner + r]
    } else if has_prefix(name, x64) {
        let r = name.skip(x64.len() as int);
        seq![name, sys + r, arm + r, inner + r]
    } else if has_prefix(name, arm) {
        let r = name.skip(arm.len() as int);
        seq![name, sys + r, x64 + r, inner + r]
    } else if has_prefix(name, dosys) {
        let r = name.skip(dosys.len() as int);
        seq![name, sys + r, x64 + r, arm + r]
    } else {
        seq![name]
    }
}

pub open spec fn string_views(v: Seq<String>) -> Seq<Seq<char>> {
    v.map_values(|s: String| s@)
}

/// What follows `prefix` in `name`, if `name` begins with it.
fn strip_prefix<'a>(name: &'a str, prefix: &str) -> (r: Option<&'a str>)
    ensures
        match r {
            Some(rest) => has_prefix(name@, prefix@) && rest@ == name@.skip(prefix@.len() as int),
            None => !has_prefix(name@, prefix@),
        },
{
    let n = name.unicode_len();
    let m = prefix.unicode_len();
    if m > n {
        return None;
    }
    let mut i: usize = 0;
    while i < m
        invariant
            i <= m <= n,
            m == prefix@.len(),
            n == name@.len(),
            forall|j: int| 0 <= j < i ==> name@[j] == prefix@[j],
        decreases m - i,
    {
        if name.get_char(i) != prefix.get_char(i) {
            assert(name@.take(m as int)[i as int] != prefix@[i as int]);
            return None;
        }
        i = i + 1;
    }
    assert(name@.take(m as int) =~= prefix@);
    let rest = name.substring_char(m, n);
    assert(rest@ =~= name@.skip(m as int));
    Some(rest)
}

fn joined(prefix: &str, rest: &str) -> (r: String)
    ensures
        r@ == prefix@ + rest@,
{
    let mut s = String::from_str(prefix);
    s.append(rest);
    s
}

/// The names to try for the kernel function `fn_name`, in order.
pub fn candidate_kprobe_names(fn_name: &str) -> (r: Vec<String>)
    ensures
        string_views(r@) == candidates(fn_name@),
{
    let sys = "sys_";
    let x64 = "__x64_sys_";
    let arm = "__arm64_sys_";
    let inner = "__sys_";
    let dosys = "do_sys_";
    let mut names: Vec<String> = Vec::new();
    names.push(String::from_str(fn_name));
    if let Some(r) = strip_prefix(fn_name, inner) {
        names.push(joined(sys, r));
        names.push(joined(x64, r));
        names.push(joined(arm, r));
    } else if let Some(r) = strip_prefix(fn_name, sys) {
        names.push(joined(x64, r));
        names.push(joined(arm, r));
        names.push(joined(inner, r));
    } else if let Some(r) = strip_prefix(fn_name, x64) {
        names.push(joined(sys, r));
        names.push(joined(arm, r));
        names.push(joined(inner, r));
    } else if let Some(r) = strip_prefix(fn_name, arm) {
        names.push(joined(sys, r));
        names.push(joined(x64, r));
        names.push(joined(inner, r));
    } else if let Some(r) = strip_prefix(fn_name, dosys) {
        names.push(joined(sys, r));
        names.push(joined(x64, r));
        names.push(joined(arm, r));
    }
    assert(string_views(names@) =~= candidates(fn_name@));
    names
}

/// The four conventions under which a system call's entry point is named.
pub open spec fn syscall_prefixes() -> Seq<Seq<char>> {
    seq!["__sys_"@, "sys_"@, "__x64_sys_"@, "__arm64_sys_"@]
}

/// Whichever of the four conventions a name is written in, its candidates start with the name
/// itself, list the call under all four conventions, and list no name twice.
pub proof fn lemma_candidates_symmetric(rest: Seq<char>, i: int, j: int)
    requires
        0 <= i < 4,
        0 <= j < 4,
    ensures
        candidates(syscall_prefixes()[i] + rest)[0] == syscall_prefixes()[i] + rest,
        candidates(syscall_prefixes()[i] + rest).contains(syscall_prefixes()[j] + rest),
        candidates(syscall_prefixes()[i] + rest).len() == 4,
        forall|a: int, b: int|
            0 <= a < b < 4 ==> candidates(syscall_prefixes()[i] + rest)[a] != candidates(
                syscall_prefixes()[i] + rest,
            )[b],
{
    reveal_strlit("sys_");
    reveal_strlit("__x64_sys_");
    reveal_strlit("__arm64_sys_");
    reveal_strlit("__sys_");
    reveal_strlit("do_sys_");
    let fam = syscall_prefixes();
    let name = fam[i] + rest;
    let c = candidates(name);
    assert(name.take(fam[i].len() as int) =~= fam[i]);
    assert(name.skip(fam[i].len() as int) =~= rest);
    if i != 0 {
        assert(name[0] != "__sys_"@[0] || name[1] != "__sys_"@[1] || name[2] != "__sys_"@[2]);
        assert(!has_prefix(name, "__sys_"@)) by {
            if has_prefix(name, "__sys_"@) {
                assert(name.take(6)[0] == name[0] && name.take(6)[1] == name[1] && name.take(6)[2]
                    == name[2]);
            }
        }
    }
    if i >= 2 {
        assert(!has_prefix(name, "sys_"@)) by {
            if has_prefix(name, "sys_"@) {
                assert(name.take(4)[0] == name[0]);
            }
        }
    }
    if i == 3 {
        assert(!has_prefix(name, "__x64_sys_"@)) by {
            if has_prefix(name, "__x64_sys_"@) {
                assert(name.take(10)[2] == name[2]);
            }
        }
    }
    assert(c.len() == 4);
    let k: int = if j == i {
        0
    } else if i == 0 {
        j
    } else if j == 0 {
        3
    } else if j < i {
        j
    } else {
        j - 1
    };
    assert(c[k] == fam[j] + rest);
    assert forall|a: int, b: int| 0 <= a < b < 4 implies c[a] != c[b] by {
        assert(c[a].len() != c[b].len());
    }
}

proof fn lemma_candidates_first(name: Seq<char>)
    ensures
        candidates(name).len() >= 1,
        candidates(name)[0] == name,
{
}

/// A symbol that a probe could not attach to, and why.
pub struct AttachFailure {
    pub symbol: String,
    pub reason: String,
}

/// No candidate symbol of the function took the program.
pub struct AttachError {
    pub program: String,
    pub function: String,
    pub failures: Vec<AttachFailure>,
}

/// What to do next while attaching a probe.
pub enum AttachStep {
    /// Attach to this symbol and report the outcome.
    Try(String),
    /// The probe is attached to this symbol; nothing more is tried.
    Attached(String),
    /// Every candidate failed.
    Failed(AttachError),
}

/// Where the search for a symbol stands.
pub enum SearchState {
    /// The candidate at this index is being tried.
    Trying(nat),
    /// The candidate at this index took the program.
    Attached(nat),
    /// Every candidate failed.
    Exhausted,
}

/// The search among `n` candidates after one more outcome.
pub open spec fn search_step(s: SearchState, n: nat, ok: bool) -> SearchState {
    match s {
        SearchState::Trying(i) => if ok {
            SearchState::Attached(i)
        } else if i + 1 < n {
            SearchState::Trying(i + 1)
        } else {
            SearchState::Exhausted
        },
        _ => s,
    }
}

/// The search among `n` candidates after the outcomes `oks`, in order.
pub open spec fn search(n: nat, oks: Seq<bool>) -> SearchState
    decreases oks.len(),
{
    if oks.len() == 0 {
        SearchState::Trying(0)
    } else {
        search_step(search(n, oks.drop_last()), n, oks.last())
    }
}

/// The index of the first `true` in `oks`.
pub open spec fn first_true(oks: Seq<bool>) -> Option<nat>
    decreases oks.len(),
{
    if oks.len() == 0 {
        None
    } else {
        match first_true(oks.drop_last()) {
            Some(i) => Some(i),
            None => if oks.last() {
                Some((oks.len() - 1) as nat)
            } else {
                None
            },
        }
    }
}

/// The search attaches to the first candidate that takes the program, after trying only the
/// ones before it; it is exhausted, having tried all of them, only when none takes it.
pub proof fn lemma_search(n: nat, oks: Seq<bool>)
    requires
        1 <= n,
        oks.len() <= n,
    ensures
        search(n, oks) == match first_true(oks) {
            Some(i) => SearchState::Attached(i),
            None => if oks.len() < n {
                SearchState::Trying(oks.len())
            } else {
                SearchState::Exhausted
            },
        },
    decreases oks.len(),
{
    if oks.len() > 0 {
        lemma_search(n, oks.drop_last());
    }
}

/// Attaching one program to the first candidate symbol of a kernel function that takes it.
pub struct KprobeAttach {
    program: String,
    function: String,
    names: Vec<String>,
    failures: Vec<AttachFailure>,
    done: bool,
}

pub open spec fn failure_symbols(fs: Seq<AttachFailure>) -> Seq<Seq<char>> {
    fs.map_values(|f: AttachFailure| f.symbol@)
}

fn copy_failures(fs: &Vec<AttachFailure>) -> (r: Vec<AttachFailure>)
    ensures
        failure_symbols(r@) == failure_symbols(fs@),
{
    let mut r: Vec<AttachFailure> = Vec::new();
    let mut i: usize = 0;
    while i < fs.len()
        invariant
            i <= fs@.len(),
            r@.len() == i,
            failure_symbols(r@) == failure_symbols(fs@).take(i as int),
        decreases fs@.len() - i,
    {
        let symbol = fs[i].symbol.clone();
        assert(symbol@ == fs@[i as int].symbol@);
        let ghost before = r@;
        r.push(AttachFailure { symbol, reason: fs[i].reason.clone() });
        assert(r@[i as int].symbol@ == fs@[i as int].symbol@);
        assert forall|j: int| 0 <= j < i implies r@[j] == before[j] by {}
        assert(failure_symbols(r@) =~= failure_symbols(fs@).take(i + 1));
        i = i + 1;
    }
    assert(failure_symbols(fs@).take(fs@.len() as int) =~= failure_symbols(fs@));
    r
}

impl KprobeAttach {
    /// The candidates, in the order they are tried.
    pub closed spec fn names(&self) -> Seq<Seq<char>> {
        string_views(self.names@)
    }

    /// The program being attached, and the kernel function it is for.
    pub closed spec fn program(&self) -> Seq<char> {
        self.program@
    }

    pub closed spec fn function(&self) -> Seq<char> {
        self.function@
    }

    /// Where the search stands.
    pub closed spec fn state(&self) -> SearchState {
        if self.failures@.len() >= self.names@.len() {
            SearchState::Exhausted
        } else if self.done {
            SearchState::Attached(self.failures@.len())
        } else {
            SearchState::Trying(self.failures@.len())
        }
    }

    /// How many candidates have failed so far.
    pub closed spec fn tried(&self) -> nat {
        self.failures@.len()
    }

    /// Another outcome is awaited: that of `names()[tried()]`.
    pub closed spec fn awaiting(&self) -> bool {
        !self.done && self.failures@.len() < self.names@.len()
    }

    pub closed spec fn wf(&self) -> bool {
        &&& self.failures@.len() <= self.names@.len()
        &&& failure_symbols(self.failures@) == string_views(self.names@).take(
            self.failures@.len() as int,
        )
    }

    /// Starts with the first candidate of `function`.
    pub fn start(program: &str, function: &str) -> (r: (KprobeAttach, AttachStep))
        ensures
            r.0.wf(),
            r.0.awaiting(),
            r.0.names() == candidates(function@),
            r.0.program() == program@,
            r.0.function() == function@,
            r.0.tried() == 0,
            r.0.state() == SearchState::Trying(0),
            match r.1 {
                AttachStep::Try(s) => s@ == function@,
                _ => false,
            },
    {
        let names = candidate_kprobe_names(function);
        proof {
            lemma_candidates_first(function@);
            assert(string_views(names@)[0] == names@[0]@);
        }
        let first = names[0].clone();
        let a = KprobeAttach {
            program: String::from_str(program),
            function: String::from_str(function),
            names,
            failures: Vec::new(),
            done: false,
        };
        assert(failure_symbols(a.failures@) =~= string_views(a.names@).take(0));
        (a, AttachStep::Try(first))
    }

    /// Takes the outcome of the attempt on `names()[tried()]`: success ends the search there;
    /// a failure moves on to the next candidate, or, after the last one, fails with every
    /// candidate and its reason.
    pub fn on_result(&mut self, result: Result<(), String>) -> (step: AttachStep)
        requires
            old(self).wf(),
            old(self).awaiting(),
        ensures
            final(self).wf(),
            final(self).names() == old(self).names(),
            final(self).program() == old(self).program(),
            final(self).function() == old(self).function(),
            final(self).state() == search_step(
                old(self).state(),
                old(self).names().len(),
                result is Ok,
            ),
            match result {
                Ok(_) => {
                    &&& !final(self).awaiting()
                    &&& final(self).tried() == old(self).tried()
                    &&& match step {
                        AttachStep::Attached(s) => {
                            s@ == old(self).names()[old(self).tried() as int]
                        },
                        _ => false,
                    }
                },
                Err(_) => {
                    &&& final(self).tried() == old(self).tried() + 1
                    &&& match step {
                        AttachStep::Try(s) => {
                            &&& final(self).awaiting()
                            &&& s@ == old(self).names()[final(self).tried() as int]
                        },
                        AttachStep::Failed(e) => {
                            &&& !final(self).awaiting()
                            &&& final(self).tried() == old(self).names().len()
                            &&& failure_symbols(e.failures@) == old(self).names()
                            &&& e.program@ == old(self).program()
                            &&& e.function@ == old(self).function()
                        },
                        AttachStep::Attached(_) => false,
                    }
                },
            },
    {
        let i = self.failures.len();
        let n = self.names.len();
        match result {
            Ok(_) => {
                self.done = true;
                let s = self.names[i].clone();
                assert(self.failures@ == old(self).failures@);
                assert(self.names@ == old(self).names@);
                assert(self.wf());
                AttachStep::Attached(s)
            },
            Err(reason) => {
                let symbol = self.names[i].clone();
                self.failures.push(AttachFailure { symbol, reason });
                proof {
                    assert(failure_symbols(self.failures@) =~= string_views(self.names@).take(
                        i + 1,
                    ));
                }
                if i + 1 < n {
                    AttachStep::Try(self.names[i + 1].clone())
                } else {
                    self.done = true;
                    let failures = copy_failures(&self.failures);
                    let e = AttachError {
                        program: self.program.clone(),
                        function: self.function.clone(),
                        failures,
                    };
                    assert(string_views(self.names@).take(i + 1) =~= string_views(self.names@));
                    AttachStep::Failed(e)
                }
            },
        }
    }
}

/// Where a program attaches.
#[derive(Clone, Copy, Debug, PartialEq, Eq)]
pub enum Hook {
    /// A fixed kernel trace site, by category and name.
    Tracepoint(&'static str, &'static str),
    /// The entry of a kernel function, or its return when the flag is set; the function is
    /// looked up under its candidate names.
    Kprobe(&'static str, bool),
}

/// One program of the capture catalog and where it attaches. A program that is optional may
/// fail to attach, because the kernel may lack the subsystem, without stopping startup.
#[derive(Clone, Copy, Debug, PartialEq, Eq)]
pub struct ProbeSpec {
    pub program: &'static str,
    pub hook: Hook,
    pub optional: bool,
}

pub open spec fn tracepoint(
    program: &'static str,
    category: &'static str,
    name: &'static str,
) -> ProbeSpec {
    ProbeSpec { program, hook: Hook::Tracepoint(category, name), optional: false }
}

pub open spec fn optional_tracepoint(
    program: &'static str,
    category: &'static str,
    name: &'static str,
) -> ProbeSpec {
    ProbeSpec { program, hook: Hook::Tracepoint(category, name), optional: true }
}

pub open spec fn kprobe(program: &'static str, function: &'static str, ret: bool) -> ProbeSpec {
    ProbeSpec { program, hook: Hook::Kprobe(function, ret), optional: false }
}

impl ProbeSpec {
    pub fn tracepoint(
        program: &'static str,
        category: &'static str,
        name: &'static str,
    ) -> (r: Self)
        ensures
            r == tracepoint(program, category, name),
    {
        ProbeSpec { program, hook: Hook::Tracepoint(category, name), optional: false }
    }

    pub fn optional_tracepoint(
        program: &'static str,
        category: &'static str,
        name: &'static str,
    ) -> (r: Self)
        ensures
            r == optional_tracepoint(program, category, name),
    {
        ProbeSpec { program, hook: Hook::Tracepoint(category, name), optional: true }
    }

    pub fn kprobe(program: &'static str, function: &'static str, ret: bool) -> (r: Self)
        ensures
            r == kprobe(program, function, ret),
    {
        ProbeSpec { program, hook: Hook::Kprobe(function, ret), optional: false }
    }
}

/// The programs to attach at startup, in order.
pub open spec fn plan_spec() -> Seq<ProbeSpec> {
    seq![
        tracepoint("trace_execve", "sched", "sched_process_exec"),
        tracepoint("trace_fork", "sched", "sched_process_fork"),
        tracepoint("trace_exit", "sched", "sched_process_exit"),
        kprobe("trace_openat", "do_sys_openat2", false),
        kprobe("trace_openat_ret", "do_sys_openat2", true),
        kprobe("trace_read", "vfs_read", false),
        kprobe("trace_read_ret", "vfs_read", true),
        kprobe("trace_write", "vfs_write", false),
        kprobe("trace_write_ret", "vfs_write", true),
        kprobe("trace_connect", "__sys_connect", false),
        kprobe("trace_connect_ret", "__sys_connect", true),
        kprobe("trace_bind", "__sys_bind", false),
        kprobe("trace_bind_ret", "__sys_bind", true),
        kprobe("trace_setuid", "sys_setuid", false),
        tracepoint("trace_oom_kill", "oom", "mark_victim"),
        kprobe("trace_unshare", "sys_unshare", false),
        kprobe("trace_setns", "sys_setns", false),
        tracepoint("trace_signal", "signal", "signal_deliver"),
        kprobe("trace_coredump", "do_coredump", false),
        optional_tracepoint("trace_usb_add", "usb", "usb_device_add"),
        optional_tracepoint("trace_usb_remove", "usb", "usb_device_remove"),
        kprobe("trace_tty_open", "tty_open", false),
        kprobe("trace_pty_open", "pty_open", false),
        kprobe("trace_mount", "sys_mount", false),
        kprobe("trace_umount", "sys_umount", false),
    ]
}

pub fn probe_plan() -> (r: Vec<ProbeSpec>)
    ensures
        r@ == plan_spec(),
{
    let r = vec![
        ProbeSpec::tracepoint("trace_execve", "sched", "sched_process_exec"),
        ProbeSpec::tracepoint("trace_fork", "sched", "sched_process_fork"),
        ProbeSpec::tracepoint("trace_exit", "sched", "sched_process_exit"),
        ProbeSpec::kprobe("trace_openat", "do_sys_openat2", false),
        ProbeSpec::kprobe("trace_openat_ret", "do_sys_openat2", true),
        ProbeSpec::kprobe("trace_read", "vfs_read", false),
        ProbeSpec::kprobe("trace_read_ret", "vfs_read", true),
        ProbeSpec::kprobe("trace_write", "vfs_write", false),
        ProbeSpec::kprobe("trace_write_ret", "vfs_write", true),
        ProbeSpec::kprobe("trace_connect", "__sys_connect", false),
        ProbeSpec::kprobe("trace_connect_ret", "__sys_connect", true),
        ProbeSpec::kprobe("trace_bind", "__sys_bind", false),
        ProbeSpec::kprobe("trace_bind_ret", "__sys_bind", true),
        ProbeSpec::kprobe("trace_setuid", "sys_setuid", false),
        ProbeSpec::tracepoint("trace_oom_kill", "oom", "mark_victim"),
        ProbeSpec::kprobe("trace_unshare", "sys_unshare", false),
        ProbeSpec::kprobe("trace_setns", "sys_setns", false),
        ProbeSpec::tracepoint("trace_signal", "signal", "signal_deliver"),
        ProbeSpec::kprobe("trace_coredump", "do_coredump", false),
        ProbeSpec::optional_tracepoint("trace_usb_add", "usb", "usb_device_add"),
        ProbeSpec::optional_tracepoint("trace_usb_remove", "usb", "usb_device_remove"),
        ProbeSpec::kprobe("trace_tty_open", "tty_open", false),
        ProbeSpec::kprobe("trace_pty_open", "pty_open", false),
        ProbeSpec::kprobe("trace_mount", "sys_mount", false),
        ProbeSpec::kprobe("trace_umount", "sys_umount", false),
    ];
    assert(r@ =~= plan_spec());
    r
}

} // verus!
