use humon::probes::{candidate_kprobe_names, probe_plan, AttachStep, Hook, KprobeAttach};

fn names(v: &[&str]) -> Vec<String> {
    v.iter().map(|s| s.to_string()).collect()
}

#[test]
fn sys_connect_candidates() {
    assert_eq!(
        candidate_kprobe_names("__sys_connect"),
        names(&["__sys_connect", "sys_connect", "__x64_sys_connect", "__arm64_sys_connect"])
    );
}

#[test]
fn every_convention_yields_the_others() {
    assert_eq!(
        candidate_kprobe_names("sys_setuid"),
        names(&["sys_setuid", "__x64_sys_setuid", "__arm64_sys_setuid", "__sys_setuid"])
    );
    assert_eq!(
        candidate_kprobe_names("__x64_sys_bind"),
        names(&["__x64_sys_bind", "sys_bind", "__arm64_sys_bind", "__sys_bind"])
    );
    assert_eq!(
        candidate_kprobe_names("__arm64_sys_bind"),
        names(&["__arm64_sys_bind", "sys_bind", "__x64_sys_bind", "__sys_bind"])
    );
    assert_eq!(
        candidate_kprobe_names("do_sys_openat2"),
        names(&["do_sys_openat2", "sys_openat2", "__x64_sys_openat2", "__arm64_sys_openat2"])
    );
}

#[test]
fn other_functions_have_one_candidate() {
    assert_eq!(candidate_kprobe_names("vfs_read"), names(&["vfs_read"]));
    assert_eq!(candidate_kprobe_names(""), names(&[""]));
}

#[test]
fn attach_stops_at_first_success() {
    let (mut a, step) = KprobeAttach::start("trace_connect", "__sys_connect");
    match step {
        AttachStep::Try(s) => assert_eq!(s, "__sys_connect"),
        _ => panic!("expected a first attempt"),
    }
    match a.on_result(Err("no such symbol".to_string())) {
        AttachStep::Try(s) => assert_eq!(s, "sys_connect"),
        _ => panic!("expected a second attempt"),
    }
    match a.on_result(Ok(())) {
        AttachStep::Attached(s) => assert_eq!(s, "sys_connect"),
        _ => panic!("expected success"),
    }
}

#[test]
fn attach_fails_listing_every_candidate() {
    let (mut a, _) = KprobeAttach::start("trace_bind", "__sys_bind");
    let mut last = None;
    for _ in 0..4 {
        match a.on_result(Err("missing".to_string())) {
            AttachStep::Try(_) => {}
            AttachStep::Failed(e) => last = Some(e),
            AttachStep::Attached(_) => panic!("nothing attached"),
        }
    }
    let e = last.expect("fails after the last candidate");
    assert_eq!(e.program, "trace_bind");
    assert_eq!(e.function, "__sys_bind");
    let tried: Vec<String> = e.failures.iter().map(|f| f.symbol.clone()).collect();
    assert_eq!(tried, names(&["__sys_bind", "sys_bind", "__x64_sys_bind", "__arm64_sys_bind"]));
    assert!(e.failures.iter().all(|f| f.reason == "missing"));
}

#[test]
fn plan_marks_only_usb_optional() {
    let plan = probe_plan();
    assert_eq!(plan.len(), 25);
    assert_eq!(plan[0].program, "trace_execve");
    assert_eq!(plan[0].hook, Hook::Tracepoint("sched", "sched_process_exec"));
    let optional: Vec<&str> = plan.iter().filter(|p| p.optional).map(|p| p.program).collect();
    assert_eq!(optional, vec!["trace_usb_add", "trace_usb_remove"]);
    assert!(plan.iter().any(|p| p.hook == Hook::Kprobe("__sys_bind", true)));
}
