use bpfcontain::bpf_program::BpfcontainContext;
use bpfcontain::failure::Failure;
use bpfcontain::globals::{AuditLevel, AuditSettings, BpfGlobals, Namespace};
use bpfcontain::startup::{Startup, StartupAction, StartupEvent};
use bpfcontain::uprobes::{Link, UprobeAction};

fn startup(debug: bool) -> Startup<String> {
    let audit = AuditSettings {
        levels: vec![AuditLevel(1), AuditLevel(4)],
        none: AuditLevel(0),
    };
    Startup::new(debug, 42, audit)
}

fn name(action: StartupAction) -> String {
    match action {
        StartupAction::BumpMemlock => "bump memlock".to_string(),
        StartupAction::OpenSkeleton { debug } => format!("open {}", debug),
        StartupAction::ReadNamespace { namespace } => format!("namespace {:?}", namespace),
        StartupAction::LoadSkeleton { globals } => format!("load {:?}", globals),
        StartupAction::AttachPrograms => "attach".to_string(),
        StartupAction::Uprobe { action } => match action {
            UprobeAction::AttachFunction { link, .. } => format!("uprobe {:?}", link),
            UprobeAction::AttachAddress { link, .. } => format!("uprobe {:?}", link),
            UprobeAction::AttachSymbol { link, .. } => format!("uprobe {:?}", link),
            UprobeAction::ReadBinary { path } => format!("read {}", path),
            _ => panic!("nothing to do"),
        },
        StartupAction::AddCallback => "add callback".to_string(),
        StartupAction::BuildRingbuf => "build ringbuf".to_string(),
        StartupAction::Finished => "finished".to_string(),
        StartupAction::Failed => "failed".to_string(),
    }
}

/// Carries startup on until it is over. The action named `fails` fails.
fn run(mut startup: Startup<String>, fails: &str) -> (Vec<String>, Startup<String>) {
    let mut actions = Vec::new();
    loop {
        let action = startup.action();
        actions.push(name(action));
        let failed = name(action).starts_with(fails) && !fails.is_empty();
        let event = match action {
            StartupAction::Finished | StartupAction::Failed => return (actions, startup),
            StartupAction::ReadNamespace { namespace } => {
                StartupEvent::NamespaceId(if failed {
                    Err("refused".to_string())
                } else if namespace == Namespace::Mnt {
                    Ok(1000)
                } else {
                    Ok(2000)
                })
            }
            StartupAction::Uprobe { action: UprobeAction::ReadBinary { .. } } => {
                StartupEvent::Binary(Err("missing".to_string()))
            }
            _ => StartupEvent::Done(if failed { Err("refused".to_string()) } else { Ok(()) }),
        };
        let reads = matches!(event, StartupEvent::Binary(_));
        assert_eq!(startup.step(event).is_some(), reads);
    }
}

fn failure(fails: &str) -> Failure<String> {
    let (actions, startup) = run(startup(false), fails);
    assert_eq!(actions[actions.len() - 1], "failed");
    assert!(actions[actions.len() - 2].starts_with(fails));
    match BpfcontainContext::new(startup) {
        Ok(_) => panic!("started"),
        Err(failure) => failure,
    }
}

#[test]
fn startup_goes_through_its_stages_in_order() {
    let (actions, startup) = run(startup(true), "");
    let globals = BpfGlobals {
        bpfcontain_pid: 42,
        host_mnt_ns_id: 1000,
        host_pid_ns_id: 2000,
        audit_level: 5,
    };
    assert_eq!(
        actions,
        vec![
            "bump memlock".to_string(),
            "open true".to_string(),
            "namespace Mnt".to_string(),
            "namespace Pid".to_string(),
            format!("load {:?}", globals),
            "attach".to_string(),
            "uprobe DoContainerize".to_string(),
            "uprobe DoApplyPolicyToContainer".to_string(),
            "read /usr/bin/runc".to_string(),
            "read /usr/bin/dockerd".to_string(),
            "uprobe CrioMainEnter".to_string(),
            "uprobe RuncStartContainerEnter".to_string(),
            "uprobe RuncCreateContainerEnter".to_string(),
            "uprobe RuncInitProcEnter".to_string(),
            "uprobe RuncInitProcStartEnter".to_string(),
            "uprobe RuncWaitForChildExitEnter".to_string(),
            "uprobe RuncStartEnter".to_string(),
            "uprobe RuncDestroyEnter".to_string(),
            "add callback".to_string(),
            "build ringbuf".to_string(),
            "finished".to_string(),
        ]
    );
    match BpfcontainContext::new(startup) {
        Ok(context) => {
            assert_eq!(context.globals, globals);
            assert_eq!(context.links.len(), 10);
            assert_eq!(context.links[2], Link::CrioMainEnter);
        }
        Err(_) => panic!("failed"),
    }
}

#[test]
fn a_missing_runc_is_warned_about() {
    let mut startup = startup(false);
    loop {
        let event = match startup.action() {
            StartupAction::ReadNamespace { .. } => StartupEvent::NamespaceId(Ok(1)),
            StartupAction::Uprobe { action: UprobeAction::ReadBinary { .. } } => break,
            _ => StartupEvent::Done(Ok(())),
        };
        startup.step(event);
    }
    let report = startup.step(StartupEvent::Binary(Err("missing".to_string()))).unwrap();
    assert_eq!(
        report.warning,
        Some(
            "Docker support will not work! runc uprobe could not be attached: missing".to_string()
        )
    );
    assert!(report.output.is_empty());
}

#[test]
fn a_failure_says_what_was_attempted() {
    for (fails, context) in [
        ("bump memlock", "Failed bumping memlock limit"),
        ("open", "Failed to open skeleton"),
        ("namespace Mnt", "Failed to initialize BPF globals"),
        ("namespace Pid", "Failed to initialize BPF globals"),
        ("load", "Failed to load skeleton"),
        ("attach", "Failed to attach BPF programs"),
        ("uprobe DoContainerize", "Failed to attach uprobes"),
        ("uprobe RuncDestroyEnter", "Failed to attach uprobes"),
    ] {
        let failure = failure(fails);
        assert_eq!(failure.contexts, vec![context]);
        assert_eq!(failure.cause, "refused");
    }
}

#[test]
fn a_failure_to_configure_the_ring_buffer_says_at_what() {
    assert_eq!(
        failure("add callback").contexts,
        vec!["Failed to add callback", "Failed to configure ringbuf"]
    );
    assert_eq!(
        failure("build ringbuf").contexts,
        vec!["Failed to create ringbuf", "Failed to configure ringbuf"]
    );
}

#[test]
fn a_failed_namespace_read_leaves_the_later_globals_unset() {
    let unset =
        BpfGlobals { bpfcontain_pid: 0, host_mnt_ns_id: 0, host_pid_ns_id: 0, audit_level: 0 };
    assert_eq!(run(startup(false), "open").1.globals(), unset);
    assert_eq!(
        run(startup(false), "namespace Mnt").1.globals(),
        BpfGlobals { bpfcontain_pid: 42, ..unset }
    );
    assert_eq!(
        run(startup(false), "namespace Pid").1.globals(),
        BpfGlobals { bpfcontain_pid: 42, host_mnt_ns_id: 1000, ..unset }
    );
}
